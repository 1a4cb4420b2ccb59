use sweat_claim::account_record::{AccountRecord, AccountRecordVersioned};
use sweat_claim::asset::{Asset, AssetVersioned};
use sweat_claim::model::{get_burn_rate, ClaimResultView, ClaimableBalanceView, UnixTimestampExtension};

#[test]
fn test_burn_rate_for_multiple_balance() {
    let burn_period = 100_000_000;

    let mut account = AccountRecord::new(0);
    account.balance = 10u128.pow(18);

    assert_eq!(10_000_000_000, account.get_burn_rate(burn_period));
}

#[test]
fn test_burn_rate_for_minimal_balance_with_long_burn_period() {
    let burn_period = 30 * 24 * 60 * 60; // 30 days

    let mut account = AccountRecord::new(0);
    account.balance = 1;

    assert_eq!(1, account.get_burn_rate(burn_period));
}

#[test]
fn test_burn_rate_rounding() {
    let burn_period = 21 * 24 * 60 * 60; // 21 days

    let mut account = AccountRecord::new(0);
    account.balance = 2 * 10u128.pow(18);

    // Precise value is 1_102_292_768_959,4356261023
    assert_eq!(1_102_292_768_960, account.get_burn_rate(burn_period));
}

#[test]
fn test_balance_to_burn_when_balance_doesnt_evaporate() {
    let burn_period = 30 * 24 * 60 * 60; // 30 days

    let mut account = AccountRecord::new(0);
    account.balance = 2 * 10u128.pow(18);
    account.claim_period_refreshed_at = burn_period / 2;

    let balance_to_burn = account.get_balance_to_burn(burn_period, 0);
    assert_eq!(0, balance_to_burn);
}

#[test]
fn test_balance_to_burn_when_balance_evaporates() {
    let burn_period = 1_000;

    let mut account = AccountRecord::new(0);
    // User claimed their funds
    account.claim_period_refreshed_at = 1_713_880_390;
    account.burn_since = account.claim_period_refreshed_at;
    // And then earned some $SWEAT
    account.balance = 1_000;

    let claimable_window_start = 1_713_880_400; // 10 seconds after last claim
    let balance_to_burn = account.get_balance_to_burn(burn_period, claimable_window_start);
    assert_eq!(10, balance_to_burn);
}

#[test]
fn test_balance_to_burn_when_balance_evaporated_to_zer() {
    let burn_period = 5 * 24 * 60 * 60; // 5 days

    let mut account = AccountRecord::new(0);
    account.balance = 5_000;

    let claimable_window_start = 3 * burn_period; // 3 burn periods later
    let balance_to_burn = account.get_balance_to_burn(burn_period, claimable_window_start);
    assert_eq!(account.balance, balance_to_burn);
}

#[test]
fn burn_rate_rounds_up_only_when_needed() {
    assert_eq!(5, get_burn_rate(10, 2));
    assert_eq!(4, get_burn_rate(10, 3));
    assert_eq!(0, get_burn_rate(0, 7));
    assert_eq!(u128::MAX, get_burn_rate(u128::MAX, 1));
}

#[test]
fn new_records_start_enabled_and_unlocked() {
    let record = AccountRecord::new(42);
    assert_eq!(0, record.balance);
    assert_eq!(42, record.claim_period_refreshed_at);
    assert_eq!(42, record.burn_since);
    assert!(record.is_enabled);
    assert!(!record.is_locked);

    let versioned = AccountRecordVersioned::new(42);
    assert_eq!(&record, versioned.into_latest());
}

#[test]
fn claimable_balance_view_reports_available_amount() {
    let short = ClaimableBalanceView::new(100, 40, false);
    assert_eq!(ClaimableBalanceView::Short(40), short);
    assert_eq!(40, short.available_balance());

    let detailed = ClaimableBalanceView::new(100, 40, true);
    assert_eq!(ClaimableBalanceView::Detailed { total: 100, available: 40 }, detailed);
    assert_eq!(40, detailed.available_balance());

    assert_eq!(7, ClaimResultView::new(7).total);
}

#[test]
fn timestamp_within_period() {
    let refreshed: u32 = 100;
    assert!(refreshed.is_within_period(100, 10));
    assert!(refreshed.is_within_period(109, 10));
    assert!(!refreshed.is_within_period(110, 10));
    assert!(!refreshed.is_within_period(100, 0));
}

#[test]
fn asset_versions_convert_to_latest() {
    let versioned = AssetVersioned::new("usdc.near".to_string());
    let asset = Asset::from(versioned);
    assert_eq!("usdc.near", asset.account_id);
    assert!(asset.is_enabled);
}

#[test]
fn evaporation_grows_with_the_window_start() {
    let mut account = AccountRecord::new(100);
    account.balance = 1_000;
    let burn_period = 400;

    let mut previous = 0;
    for window_start in [0u32, 100, 101, 250, 499, 500, 501, 10_000] {
        let to_burn = account.get_balance_to_burn(burn_period, window_start);
        assert!(to_burn >= previous);
        assert!(to_burn <= account.balance);
        previous = to_burn;
    }
    assert_eq!(0, account.get_balance_to_burn(burn_period, 99));
    assert_eq!(3, account.get_balance_to_burn(burn_period, 101));
    assert_eq!(1_000, account.get_balance_to_burn(burn_period, 500));
    assert_eq!(Some(1_000), account.checked_balance_to_burn(burn_period, 10_000));
    assert_eq!(None, account.checked_balance_to_burn(0, 10_000));
}

#[test]
fn checked_evaporation_reports_overflow() {
    let mut account = AccountRecord::new(0);
    account.balance = u128::MAX;
    assert_eq!(None, account.checked_balance_to_burn(1, 2));
    assert_eq!(Some(u128::MAX), account.checked_balance_to_burn(1, 1));
}
