use crate::contract::{Contract, ContractView};
use crate::model::{Duration, TokensAmount, UnixTimestamp, UnixTimestampExtension};
use crate::store::AccountMap;
use vstd::prelude::*;

verus! {

/// Tokens already withdrawn from the balance to burn before the migration:
/// 50 million tokens of 18 decimals.
pub const WITHDRAWN_SWEAT: TokensAmount = 50_000_000_000_000_000_000_000_000u128;

/// The parts of the previous contract state that the contract keeps.
pub struct OldState {
    pub token_account_id: String,
    pub claim_period: Duration,
    pub burn_period: Duration,
    pub accounts: AccountMap,
    pub is_service_call_running: bool,
    pub balance_to_burn: TokensAmount,
}

/// The migration was refused.
#[derive(Debug, PartialEq, Eq, Clone, Copy)]
pub enum MigrationError {
    /// The balance to burn is less than what was already withdrawn from it.
    BalanceToBurnBelowWithdrawn,
}

impl Contract {
    /// The contract state carried over from `old_state`, with the already
    /// withdrawn tokens taken from the balance to burn.
    pub fn migrate(old_state: OldState) -> (r: Result<Contract, MigrationError>)
        ensures
            r is Ok <==> old_state.balance_to_burn >= WITHDRAWN_SWEAT,
            r matches Ok(c) ==> c@ == (ContractView {
                token_account_id: old_state.token_account_id@,
                claim_period: old_state.claim_period,
                burn_period: old_state.burn_period,
                accounts: old_state.accounts@,
                is_service_call_running: old_state.is_service_call_running,
                balance_to_burn: (old_state.balance_to_burn - WITHDRAWN_SWEAT) as u128,
            }),
            r matches Ok(c) ==> c.accounts == old_state.accounts,
    {
        if old_state.balance_to_burn < WITHDRAWN_SWEAT {
            return Err(MigrationError::BalanceToBurnBelowWithdrawn);
        }
        let mut contract = Contract {
            token_account_id: old_state.token_account_id,
            claim_period: old_state.claim_period,
            burn_period: old_state.burn_period,
            accounts: old_state.accounts,
            is_service_call_running: old_state.is_service_call_running,
            balance_to_burn: old_state.balance_to_burn,
        };
        contract.debit_balance_to_burn(WITHDRAWN_SWEAT);
        Ok(contract)
    }
}


/// The sum of the amounts of `accruals` that were accrued less than
/// `burn_period` before `now` (if `within`), or the sum of the others.
pub open spec fn accrual_sum(
    accruals: Seq<(UnixTimestamp, TokensAmount)>,
    now: UnixTimestamp,
    burn_period: Duration,
    within: bool,
) -> int
    decreases accruals.len(),
{
    if accruals.len() == 0 {
        0
    } else {
        let last = accruals.last();
        accrual_sum(accruals.drop_last(), now, burn_period, within) + (if (now - last.0 < burn_period)
            == within {
            last.1 as int
        } else {
            0
        })
    }
}

proof fn lemma_accrual_sum_prefix(
    accruals: Seq<(UnixTimestamp, TokensAmount)>,
    now: UnixTimestamp,
    burn_period: Duration,
    within: bool,
    k: int,
)
    requires
        0 <= k <= accruals.len(),
    ensures
        0 <= accrual_sum(accruals.take(k), now, burn_period, within) <= accrual_sum(
            accruals,
            now,
            burn_period,
            within,
        ),
    decreases accruals.len(),
{
    if k == accruals.len() {
        assert(accruals.take(k) =~= accruals);
        if accruals.len() > 0 {
            lemma_accrual_sum_prefix(accruals.drop_last(), now, burn_period, within, k - 1);
            assert(accruals.drop_last().take(k - 1) =~= accruals.drop_last());
        }
    } else {
        assert(accruals.drop_last().take(k) =~= accruals.take(k));
        lemma_accrual_sum_prefix(accruals.drop_last(), now, burn_period, within, k);
    }
}

/// Splits the accruals of an account of the pre-linear-burn layout at `now`:
/// returns the sum of those accrued less than `burn_period` ago, which stay
/// the account's balance, and the sum of the others, which are to be burnt.
pub fn split_legacy_accruals(
    accruals: &Vec<(UnixTimestamp, TokensAmount)>,
    now: UnixTimestamp,
    burn_period: Duration,
) -> (r: (TokensAmount, TokensAmount))
    requires
        forall|i: int| 0 <= i < accruals@.len() ==> #[trigger] accruals@[i].0 <= now,
        accrual_sum(accruals@, now, burn_period, true) <= u128::MAX,
        accrual_sum(accruals@, now, burn_period, false) <= u128::MAX,
    ensures
        r.0 == accrual_sum(accruals@, now, burn_period, true),
        r.1 == accrual_sum(accruals@, now, burn_period, false),
{
    let mut account_balance: TokensAmount = 0;
    let mut balance_to_burn: TokensAmount = 0;
    let mut i: usize = 0;
    proof {
        assert(accruals@.take(0) =~= Seq::<(UnixTimestamp, TokensAmount)>::empty());
    }
    while i < accruals.len()
        invariant
            0 <= i <= accruals@.len(),
            forall|j: int| 0 <= j < accruals@.len() ==> #[trigger] accruals@[j].0 <= now,
            accrual_sum(accruals@, now, burn_period, true) <= u128::MAX,
            accrual_sum(accruals@, now, burn_period, false) <= u128::MAX,
            account_balance == accrual_sum(accruals@.take(i as int), now, burn_period, true),
            balance_to_burn == accrual_sum(accruals@.take(i as int), now, burn_period, false),
        decreases accruals@.len() - i,
    {
        proof {
            assert(accruals@.take(i + 1).drop_last() =~= accruals@.take(i as int));
            assert(accruals@.take(i + 1).last() == accruals@[i as int]);
            lemma_accrual_sum_prefix(accruals@, now, burn_period, true, i + 1);
            lemma_accrual_sum_prefix(accruals@, now, burn_period, false, i + 1);
        }
        let (timestamp, amount) = accruals[i];
        if timestamp.is_within_period(now, burn_period) {
            account_balance = account_balance + amount;
        } else {
            balance_to_burn = balance_to_burn + amount;
        }
        i = i + 1;
    }
    proof {
        assert(accruals@.take(accruals@.len() as int) =~= accruals@);
    }
    (account_balance, balance_to_burn)
}

/// Where the evaporation of a migrated account starts: its last claim, or the
/// claimable window start if that is later.
pub fn legacy_burn_since(
    claim_period_refreshed_at: UnixTimestamp,
    claimable_window_start: UnixTimestamp,
) -> (r: UnixTimestamp)
    ensures
        r == (if claim_period_refreshed_at >= claimable_window_start {
            claim_period_refreshed_at
        } else {
            claimable_window_start
        }),
{
    if claim_period_refreshed_at >= claimable_window_start {
        claim_period_refreshed_at
    } else {
        claimable_window_start
    }
}

} // verus!
