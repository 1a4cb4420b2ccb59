use sweat_claim::claim::{ClaimError, ClaimStep};
use sweat_claim::contract::Contract;
use sweat_claim::model::{ClaimAvailabilityView, ClaimResultView, TokensAmount, UnixTimestamp};
use sweat_claim::test_data::{data, get_test_future_success, set_test_future_success, TestDataStorage};

const EXT_TRANSFER_FUTURE: &str = "ext_transfer";

struct TestAccounts {
    alice: String,
    oracle: String,
    token: String,
}

fn init_with_oracle() -> (Contract, TestAccounts) {
    let accounts = TestAccounts {
        alice: "alice".to_string(),
        oracle: "oracle".to_string(),
        token: "token".to_string(),
    };
    let contract = Contract::init(accounts.token.clone());
    (contract, accounts)
}

fn record(contract: &mut Contract, account_id: &str, amount: TokensAmount, now: UnixTimestamp) {
    contract.record_batch_for_hold(vec![(account_id.to_string(), amount)], now).unwrap();
}

/// Runs a claim to its end, reporting the transfer outcome set in `futures`.
fn claim(
    contract: &mut Contract,
    futures: &TestDataStorage,
    account_id: &str,
    now: UnixTimestamp,
) -> Result<ClaimResultView, ClaimError> {
    match contract.claim(&account_id.to_string(), now)? {
        ClaimStep::Done(result) => Ok(result),
        ClaimStep::Transfer(transfer) => Ok(contract.on_claim_result(
            transfer.now,
            transfer.account_id,
            transfer.amount_to_claim,
            transfer.amount_to_burn,
            get_test_future_success(futures, EXT_TRANSFER_FUTURE),
            now,
        )
        .expect("claim settlement overflowed")),
    }
}

fn claimable(contract: &Contract, account_id: &str, now: UnixTimestamp) -> TokensAmount {
    contract
        .get_claimable_balance_for_account(&account_id.to_string(), None, now)
        .available_balance()
}

#[test]
fn test_check_claim_availability_when_user_is_not_registered() {
    let (contract, accounts) = init_with_oracle();

    let alice_new_balance = claimable(&contract, &accounts.alice, 0);
    assert_eq!(0, alice_new_balance);

    let alice_can_claim = contract.is_claim_available(&accounts.alice, 0);
    assert_eq!(ClaimAvailabilityView::Unregistered, alice_can_claim);
}

#[test]
fn test_check_claim_availability_when_user_has_tokens_and_claim_period_after_claim_is_not_passed() {
    let (mut contract, accounts) = init_with_oracle();
    let futures = data();
    let _ = &accounts.oracle;

    let alice_balance = 400_000;
    record(&mut contract, &accounts.alice, alice_balance, 0);

    let alice_new_balance = claimable(&contract, &accounts.alice, 0);
    assert_eq!(alice_balance, alice_new_balance);

    let claim_timestamp = contract.claim_period as u64 + 100;
    let _ = claim(&mut contract, &futures, &accounts.alice, claim_timestamp as UnixTimestamp);

    let check_timestamp = claim_timestamp + 10;

    let alice_can_claim = contract.is_claim_available(&accounts.alice, check_timestamp as UnixTimestamp);
    assert_eq!(
        alice_can_claim,
        ClaimAvailabilityView::Unavailable((claim_timestamp as UnixTimestamp, contract.claim_period))
    );
}

#[test]
fn test_check_claim_availability_when_user_has_tokens_and_claim_period_after_claim_is_passed() {
    let (mut contract, accounts) = init_with_oracle();
    let futures = data();

    let alice_balance = 300_000;
    record(&mut contract, &accounts.alice, alice_balance, 0);

    let alice_new_balance = claimable(&contract, &accounts.alice, 0);
    assert_eq!(alice_balance, alice_new_balance);

    let claim_timestamp = contract.claim_period as u64 + 100;
    let _ = claim(&mut contract, &futures, &accounts.alice, claim_timestamp as UnixTimestamp);

    let check_timestamp = claim_timestamp + contract.claim_period as u64 + 100;

    let alice_can_claim = contract.is_claim_available(&accounts.alice, check_timestamp as UnixTimestamp);
    assert_eq!(alice_can_claim, ClaimAvailabilityView::Available(0));
}

#[test]
fn test_check_claim_availability_when_user_has_tokens_and_claim_period_after_record_creation_is_not_passed() {
    let (mut contract, accounts) = init_with_oracle();

    let alice_balance = 400_000;
    record(&mut contract, &accounts.alice, alice_balance, 0);

    let alice_new_balance = claimable(&contract, &accounts.alice, 0);
    assert_eq!(alice_balance, alice_new_balance);

    let alice_can_claim = contract.is_claim_available(&accounts.alice, 0);
    assert_eq!(alice_can_claim, ClaimAvailabilityView::Unavailable((0, contract.claim_period)));
}

#[test]
fn test_check_claim_availability_when_user_has_tokens_and_claim_period_after_record_creation_is_passed() {
    let (mut contract, accounts) = init_with_oracle();

    let alice_balance = 300_000;
    record(&mut contract, &accounts.alice, alice_balance, 0);

    let now = contract.claim_period + 100;

    let alice_new_balance = claimable(&contract, &accounts.alice, now);
    assert_eq!(alice_balance, alice_new_balance);

    let alice_can_claim = contract.is_claim_available(&accounts.alice, now);
    assert_eq!(alice_can_claim, ClaimAvailabilityView::Available(0));
}

#[test]
fn test_check_claim_availability_when_user_has_multiple_claim_records_and_claim_period_after_record_creation_is_passed(
) {
    let (mut contract, accounts) = init_with_oracle();

    let record_count: u16 = 5;
    let alice_balance = 300_000;
    let mut now: UnixTimestamp = 0;

    for i in 0..record_count {
        record(&mut contract, &accounts.alice, alice_balance, now);
        now = i as UnixTimestamp;
    }

    now = contract.claim_period + 100;

    let alice_can_claim = contract.is_claim_available(&accounts.alice, now);
    assert_eq!(alice_can_claim, ClaimAvailabilityView::Available(0));
}

#[test]
fn test_claim_when_user_has_tokens_and_current_time_matches_claim_period() {
    let (mut contract, accounts) = init_with_oracle();

    let alice_balance = 500_000;
    record(&mut contract, &accounts.alice, alice_balance, 0);

    let now = 2 * contract.burn_period;

    let alice_new_balance = claimable(&contract, &accounts.alice, now);
    assert_eq!(0, alice_new_balance);

    let alice_can_claim = contract.is_claim_available(&accounts.alice, now);
    assert_eq!(alice_can_claim, ClaimAvailabilityView::Available(0));
}

#[test]
fn test_claim_when_user_has_tokens_and_claim_period_is_passed() {
    let (mut contract, accounts) = init_with_oracle();
    let mut futures = data();
    set_test_future_success(&mut futures, EXT_TRANSFER_FUTURE, true);

    let alice_balance = 700_000;
    record(&mut contract, &accounts.alice, alice_balance, 0);

    let now = contract.claim_period + 100;

    let claimed_amount = claim(&mut contract, &futures, &accounts.alice, now).expect("Expected value");
    assert_eq!(alice_balance, claimed_amount.total);

    let alice_new_balance = claimable(&contract, &accounts.alice, now);
    assert_eq!(0, alice_new_balance);
}

#[test]
fn test_claim_when_user_has_tokens_and_burn_period_is_passed() {
    let (mut contract, accounts) = init_with_oracle();
    let mut futures = data();
    set_test_future_success(&mut futures, EXT_TRANSFER_FUTURE, true);

    let alice_balance = 12_000_000;
    record(&mut contract, &accounts.alice, alice_balance, 0);

    let now = 2 * contract.burn_period + 100;

    let claimed_amount = claim(&mut contract, &futures, &accounts.alice, now).expect("Expected value");
    assert_eq!(0, claimed_amount.total);

    let alice_new_balance = claimable(&contract, &accounts.alice, now);
    assert_eq!(0, alice_new_balance);
}

#[test]
fn test_claim_when_user_has_tokens_and_claim_period_is_passed_and_transfer_failed() {
    let (mut contract, accounts) = init_with_oracle();
    let mut futures = data();
    set_test_future_success(&mut futures, EXT_TRANSFER_FUTURE, false);

    let alice_balance = 123_100_000;
    record(&mut contract, &accounts.alice, alice_balance, 0);

    let now = contract.claim_period + 100;

    let claimed_amount = claim(&mut contract, &futures, &accounts.alice, now).expect("Expected value");
    assert_eq!(0, claimed_amount.total);

    let alice_new_balance = claimable(&contract, &accounts.alice, now);
    assert_eq!(alice_balance, alice_new_balance);
}

#[test]
fn on_claim_result_failure_does_not_discard_balance_recorded_during_flight() {
    let (mut contract, accounts) = init_with_oracle();

    record(&mut contract, &accounts.alice, 1_000, 0);

    // Simulate `claim()` having zeroed the balance and locked the account
    // while its transfer is in flight.
    let mut account = contract.accounts.get_or_insert_account(&accounts.alice, 0);
    account.balance = 0;
    account.is_locked = true;
    contract.accounts.set_account(&accounts.alice, account);

    // The oracle credits the account mid-flight.
    record(&mut contract, &accounts.alice, 500, 0);

    // The in-flight transfer then fails.
    let result = contract.on_claim_result(0, accounts.alice.clone(), 1_000, 0, false, 0).unwrap();
    assert_eq!(0, result.total);

    let balance = contract.accounts.get_account(&accounts.alice).unwrap().balance;
    assert_eq!(
        1_500, balance,
        "balance recorded while claim was in flight must not be discarded"
    );
}

#[test]
fn claim_of_unregistered_account_is_not_available() {
    let (mut contract, accounts) = init_with_oracle();
    let futures = data();

    assert_eq!(0, claimable(&contract, &accounts.alice, 0));
    assert_eq!(
        Err(ClaimError::NotAvailable),
        claim(&mut contract, &futures, &accounts.alice, 0)
    );
}

#[test]
fn claim_before_claim_period_passed_is_not_available() {
    let (mut contract, accounts) = init_with_oracle();
    let futures = data();

    record(&mut contract, &accounts.alice, 200_000, 0);

    assert_eq!(
        Err(ClaimError::NotAvailable),
        claim(&mut contract, &futures, &accounts.alice, 0)
    );
    assert_eq!(200_000, contract.accounts.get_account(&accounts.alice).unwrap().balance);
}

#[test]
fn claim_of_disabled_account_is_refused() {
    let (mut contract, accounts) = init_with_oracle();
    let futures = data();

    record(&mut contract, &accounts.alice, 1_000, 0);
    contract.set_account_enabled(&accounts.alice, false).unwrap();

    let now = contract.claim_period + 1;
    assert_eq!(
        Err(ClaimError::AccountDisabled),
        claim(&mut contract, &futures, &accounts.alice, now)
    );
}

#[test]
fn claim_of_locked_account_is_refused() {
    let (mut contract, accounts) = init_with_oracle();

    record(&mut contract, &accounts.alice, 1_000, 0);
    let now = contract.claim_period + 1;

    match contract.claim(&accounts.alice, now) {
        Ok(ClaimStep::Transfer(transfer)) => {
            assert_eq!(1_000, transfer.amount_to_claim);
            assert_eq!(0, transfer.amount_to_burn);
            assert_eq!(now, transfer.now);
            assert_eq!(accounts.alice, transfer.account_id);
        }
        other => panic!("unexpected {other:?}"),
    }
    assert!(contract.accounts.get_account(&accounts.alice).unwrap().is_locked);
    assert_eq!(
        Err(ClaimError::AnotherOperationRunning),
        contract.claim(&accounts.alice, now)
    );

    contract.unlock_account(&accounts.alice).unwrap();
    assert!(!contract.accounts.get_account(&accounts.alice).unwrap().is_locked);
}

#[test]
fn claim_of_zero_balance_returns_zero_and_changes_nothing() {
    let (mut contract, accounts) = init_with_oracle();

    record(&mut contract, &accounts.alice, 0, 0);
    let now = contract.claim_period + 1;

    assert_eq!(Ok(ClaimStep::Done(ClaimResultView::new(0))), contract.claim(&accounts.alice, now));
    let account = contract.accounts.get_account(&accounts.alice).unwrap();
    assert_eq!(0, account.claim_period_refreshed_at);
    assert!(!account.is_locked);
}

#[test]
fn claim_of_fully_evaporated_balance_moves_it_to_balance_to_burn() {
    let (mut contract, accounts) = init_with_oracle();

    record(&mut contract, &accounts.alice, 5_000, 0);
    let now = 3 * contract.burn_period;

    assert_eq!(Ok(ClaimStep::Done(ClaimResultView::new(0))), contract.claim(&accounts.alice, now));
    assert_eq!(5_000, contract.get_balance_to_burn());
    let account = contract.accounts.get_account(&accounts.alice).unwrap();
    assert_eq!(0, account.balance);
    assert_eq!(now, account.claim_period_refreshed_at);
    assert_eq!(now, account.burn_since);
}

#[test]
fn partly_evaporated_claim_splits_balance() {
    let (mut contract, accounts) = init_with_oracle();
    contract.set_claim_period(10).unwrap();
    contract.set_burn_period(1_000).unwrap();

    record(&mut contract, &accounts.alice, 1_000, 0);
    // 1_100 seconds later the window start is 100 seconds past the record.
    match contract.claim(&accounts.alice, 1_100) {
        Ok(ClaimStep::Transfer(transfer)) => {
            assert_eq!(100, transfer.amount_to_burn);
            assert_eq!(900, transfer.amount_to_claim);
            let result = contract.on_claim_result(
                transfer.now,
                transfer.account_id,
                transfer.amount_to_claim,
                transfer.amount_to_burn,
                true,
                1_105,
            )
            .unwrap();
            assert_eq!(900, result.total);
        }
        other => panic!("unexpected {other:?}"),
    }
    assert_eq!(100, contract.get_balance_to_burn());
    let account = contract.accounts.get_account(&accounts.alice).unwrap();
    assert_eq!(1_100, account.claim_period_refreshed_at);
    assert_eq!(1_100, account.burn_since);
    assert!(!account.is_locked);
}

#[test]
fn claim_of_locked_disabled_account_reports_the_running_operation() {
    let (mut contract, accounts) = init_with_oracle();

    record(&mut contract, &accounts.alice, 1_000, 0);
    let mut account = contract.accounts.get_account(&accounts.alice).unwrap();
    account.is_locked = true;
    account.is_enabled = false;
    contract.accounts.set_account(&accounts.alice, account);

    let now = contract.claim_period + 1;
    assert_eq!(Err(ClaimError::AnotherOperationRunning), contract.claim(&accounts.alice, now));
}
