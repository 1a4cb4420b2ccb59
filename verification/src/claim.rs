use crate::account_record::{balance_to_burn_of, burn_computable, AccountRecord};
use crate::contract::{claimable_window_start, Contract, ContractView};
use crate::model::{
    ClaimAvailabilityView, ClaimResultView, ClaimableBalanceView, TokensAmount, UnixTimestamp,
    UnixTimestampExtension,
};
use crate::record::ArithmeticOverflow;
use crate::store::with_account;
use vstd::prelude::*;

verus! {

/// Why a claim was refused.
#[derive(Debug, PartialEq, Eq, Clone, Copy)]
pub enum ClaimError {
    /// The account is not registered, or its claim period has not passed.
    NotAvailable,
    /// The account may not claim.
    AccountDisabled,
    /// Another operation on the account's balance is in flight.
    AnotherOperationRunning,
    /// The claim's arithmetic would overflow, or the account's last claim
    /// lies after `now`.
    ArithmeticOverflow,
}

/// A token transfer that a claim needs: `amount_to_claim` goes to
/// `account_id`, and `amount_to_burn` evaporated from its balance.
#[derive(Debug, PartialEq, Eq)]
pub struct ClaimTransfer {
    pub now: UnixTimestamp,
    pub account_id: String,
    pub amount_to_claim: TokensAmount,
    pub amount_to_burn: TokensAmount,
}

/// What an accepted claim asks for next: nothing, with its result, or a
/// transfer whose outcome is reported to `on_claim_result`.
#[derive(Debug, PartialEq, Eq)]
pub enum ClaimStep {
    Done(ClaimResultView),
    Transfer(ClaimTransfer),
}

/// Whether `id` can claim at `now`.
pub open spec fn claim_availability(v: ContractView, id: Seq<char>, now: UnixTimestamp) -> ClaimAvailabilityView {
    if v.accounts.contains_key(id) {
        let refreshed = v.accounts[id].claim_period_refreshed_at;
        if now - refreshed < v.claim_period {
            ClaimAvailabilityView::Unavailable((refreshed, v.claim_period))
        } else {
            ClaimAvailabilityView::Available(0)
        }
    } else {
        ClaimAvailabilityView::Unregistered
    }
}

/// The last claim (or the creation) of `id`'s record is not after `now`.
pub open spec fn refreshed_not_after(v: ContractView, id: Seq<char>, now: UnixTimestamp) -> bool {
    v.accounts.contains_key(id) ==> v.accounts[id].claim_period_refreshed_at <= now
}

/// The evaporated part of `id`'s balance at `now`.
pub open spec fn evaporated(v: ContractView, id: Seq<char>, now: UnixTimestamp) -> int {
    balance_to_burn_of(v.accounts[id], v.burn_period, claimable_window_start(v, now))
}

/// The evaporated part of `id`'s balance at `now` can be computed.
pub open spec fn evaporation_computable(v: ContractView, id: Seq<char>, now: UnixTimestamp) -> bool {
    v.accounts.contains_key(id) ==> burn_computable(
        v.accounts[id],
        v.burn_period,
        claimable_window_start(v, now),
    )
}

/// What a client is told of `id`'s balance at `now`.
pub open spec fn claimable_balance(
    v: ContractView,
    id: Seq<char>,
    detailed: bool,
    now: UnixTimestamp,
) -> ClaimableBalanceView {
    let (total, available) = if v.accounts.contains_key(id) {
        let balance = v.accounts[id].balance;
        (balance, (balance - evaporated(v, id, now)) as u128)
    } else {
        (0u128, 0u128)
    };
    if detailed {
        ClaimableBalanceView::Detailed { total, available }
    } else {
        ClaimableBalanceView::Short(available)
    }
}

/// Why a claim of `id` at `now` is refused, if it is.
pub open spec fn claim_rejection(v: ContractView, id: Seq<char>, now: UnixTimestamp) -> Option<ClaimError> {
    if !refreshed_not_after(v, id, now) {
        Some(ClaimError::ArithmeticOverflow)
    } else if !(claim_availability(v, id, now) is Available) {
        Some(ClaimError::NotAvailable)
    } else if v.accounts[id].is_locked {
        Some(ClaimError::AnotherOperationRunning)
    } else if !v.accounts[id].is_enabled {
        Some(ClaimError::AccountDisabled)
    } else if v.accounts[id].balance == 0 {
        None
    } else if !evaporation_computable(v, id, now) {
        Some(ClaimError::ArithmeticOverflow)
    } else if v.accounts[id].balance == evaporated(v, id, now) && v.balance_to_burn + evaporated(v, id, now)
        > u128::MAX {
        Some(ClaimError::ArithmeticOverflow)
    } else {
        None
    }
}

/// The part of `id`'s balance that a claim at `now` pays out.
pub open spec fn claim_amount(v: ContractView, id: Seq<char>, now: UnixTimestamp) -> int {
    v.accounts[id].balance - evaporated(v, id, now)
}

/// An accepted claim of a positive balance.
pub open spec fn claim_moves_tokens(v: ContractView, id: Seq<char>, now: UnixTimestamp) -> bool {
    claim_rejection(v, id, now) is None && v.accounts[id].balance > 0
}

/// A claim that starts a transfer: something remains to pay out.
pub open spec fn claim_starts_transfer(v: ContractView, id: Seq<char>, now: UnixTimestamp) -> bool {
    claim_moves_tokens(v, id, now) && claim_amount(v, id, now) > 0
}

/// The state after the outcome of a claim's transfer reaches the contract at
/// `block_timestamp`: the account is unlocked; on failure both amounts go
/// back to its balance, on success the evaporated amount goes to the balance
/// to burn and the claim period and evaporation restart at `now`. An account
/// without a record gets a new one first.
pub open spec fn on_claim_result_view(
    v: ContractView,
    now: UnixTimestamp,
    id: Seq<char>,
    amount_to_claim: TokensAmount,
    amount_to_burn: TokensAmount,
    is_success: bool,
    block_timestamp: UnixTimestamp,
) -> ContractView {
    let record = with_account(v.accounts, id, block_timestamp)[id];
    if is_success {
        ContractView {
            accounts: v.accounts.insert(
                id,
                AccountRecord {
                    is_locked: false,
                    claim_period_refreshed_at: now,
                    burn_since: now,
                    ..record
                },
            ),
            balance_to_burn: (v.balance_to_burn + amount_to_burn) as u128,
            ..v
        }
    } else {
        ContractView {
            accounts: v.accounts.insert(
                id,
                AccountRecord {
                    is_locked: false,
                    balance: (record.balance + amount_to_claim + amount_to_burn) as u128,
                    ..record
                },
            ),
            ..v
        }
    }
}

/// Reporting a transfer outcome stays within the integer types.
pub open spec fn on_claim_result_fits(
    v: ContractView,
    id: Seq<char>,
    amount_to_claim: TokensAmount,
    amount_to_burn: TokensAmount,
    is_success: bool,
    block_timestamp: UnixTimestamp,
) -> bool {
    if is_success {
        v.balance_to_burn + amount_to_burn <= u128::MAX
    } else {
        with_account(v.accounts, id, block_timestamp)[id].balance + amount_to_claim + amount_to_burn
            <= u128::MAX
    }
}

/// The state after a claim of `id` at `now`. A refused claim, or a claim of a
/// zero balance, changes nothing. Otherwise the balance is emptied; if
/// everything evaporated the claim completes at once, else the account is
/// locked until its transfer's outcome arrives.
pub open spec fn claim_view(v: ContractView, id: Seq<char>, now: UnixTimestamp) -> ContractView {
    if !claim_moves_tokens(v, id, now) {
        v
    } else {
        let record = v.accounts[id];
        if claim_amount(v, id, now) == 0 {
            on_claim_result_view(
                ContractView { accounts: v.accounts.insert(id, AccountRecord { balance: 0, ..record }), ..v },
                now,
                id,
                0,
                evaporated(v, id, now) as u128,
                true,
                now,
            )
        } else {
            ContractView {
                accounts: v.accounts.insert(id, AccountRecord { balance: 0, is_locked: true, ..record }),
                ..v
            }
        }
    }
}

impl Contract {
    /// What `account_id` could claim at `now`, and, if `detailed`, its
    /// balance before evaporation.
    pub fn get_claimable_balance_for_account(
        &self,
        account_id: &String,
        detailed: Option<bool>,
        now: UnixTimestamp,
    ) -> (r: ClaimableBalanceView)
        requires
            self.accounts.entry_decodes(account_id@),
            evaporation_computable(self@, account_id@, now),
        ensures
            r == claimable_balance(self@, account_id@, detailed.unwrap_or(false), now),
    {
        let detailed = match detailed {
            Some(d) => d,
            None => false,
        };
        match self.accounts.get_account(account_id) {
            Some(account) => {
                let amount_to_burn: TokensAmount = account.get_balance_to_burn(
                    self.burn_period,
                    self.get_claimable_window_start(now),
                );
                let amount_to_claim: TokensAmount = account.balance - amount_to_burn;
                ClaimableBalanceView::new(account.balance, amount_to_claim, detailed)
            },
            None => ClaimableBalanceView::new(0, 0, detailed),
        }
    }

    /// Whether `account_id` can claim at `now`.
    pub fn is_claim_available(&self, account_id: &String, now: UnixTimestamp) -> (r: ClaimAvailabilityView)
        requires
            self.accounts.entry_decodes(account_id@),
            refreshed_not_after(self@, account_id@, now),
        ensures
            r == claim_availability(self@, account_id@, now),
    {
        match self.accounts.get_account(account_id) {
            Some(account) => {
                let claim_period_refreshed_at: UnixTimestamp = account.claim_period_refreshed_at;
                if claim_period_refreshed_at.is_within_period(now, self.claim_period) {
                    ClaimAvailabilityView::Unavailable((claim_period_refreshed_at, self.claim_period))
                } else {
                    ClaimAvailabilityView::Available(0)
                }
            },
            None => ClaimAvailabilityView::Unregistered,
        }
    }

    /// Claims `account_id`'s balance at `now`: the evaporated part is kept
    /// for burning and the rest is to be transferred to the account.
    pub fn claim(&mut self, account_id: &String, now: UnixTimestamp) -> (r: Result<ClaimStep, ClaimError>)
        requires
            old(self).accounts.entry_decodes(account_id@),
        ensures
            final(self)@ == claim_view(old(self)@, account_id@, now),
            claim_rejection(old(self)@, account_id@, now) matches Some(e) ==> r == Err::<ClaimStep, ClaimError>(e),
            claim_rejection(old(self)@, account_id@, now) is None && !claim_starts_transfer(old(self)@, account_id@, now)
                ==> r == Ok::<ClaimStep, ClaimError>(ClaimStep::Done(ClaimResultView { total: 0 })),
            claim_starts_transfer(old(self)@, account_id@, now) ==> (r matches Ok(ClaimStep::Transfer(t)) && {
                &&& t.now == now
                &&& t.account_id@ == account_id@
                &&& t.amount_to_claim == claim_amount(old(self)@, account_id@, now)
                &&& t.amount_to_burn == evaporated(old(self)@, account_id@, now)
            }),
            final(self).accounts.entry_decodes(account_id@),
            old(self).accounts.decoding_kept(final(self).accounts),
    {
        let account = match self.accounts.get_account(account_id) {
            Some(account) => account,
            None => {
                return Err(ClaimError::NotAvailable);
            },
        };
        if account.claim_period_refreshed_at > now {
            return Err(ClaimError::ArithmeticOverflow);
        }
        let availability = self.is_claim_available(account_id, now);
        if !(match availability {
            ClaimAvailabilityView::Available(_) => true,
            _ => false,
        }) {
            return Err(ClaimError::NotAvailable);
        }
        if account.is_locked {
            return Err(ClaimError::AnotherOperationRunning);
        }
        if !account.is_enabled {
            return Err(ClaimError::AccountDisabled);
        }
        if account.balance == 0 {
            return Ok(ClaimStep::Done(ClaimResultView::new(0)));
        }
        let amount_to_burn: TokensAmount = match account.checked_balance_to_burn(
            self.burn_period,
            self.get_claimable_window_start(now),
        ) {
            Some(amount) => amount,
            None => {
                return Err(ClaimError::ArithmeticOverflow);
            },
        };
        let amount_to_claim: TokensAmount = account.balance - amount_to_burn;
        if amount_to_claim == 0 && self.balance_to_burn.checked_add(amount_to_burn).is_none() {
            return Err(ClaimError::ArithmeticOverflow);
        }
        let mut record = account;
        record.balance = 0;
        if amount_to_claim == 0 {
            self.accounts.set_account(account_id, record);
            let result = match self.on_claim_result(now, account_id.clone(), 0, amount_to_burn, true, now) {
                Ok(result) => result,
                Err(_) => {
                    return Err(ClaimError::ArithmeticOverflow);
                },
            };
            return Ok(ClaimStep::Done(result));
        }
        record.is_locked = true;
        self.accounts.set_account(account_id, record);
        Ok(
            ClaimStep::Transfer(
                ClaimTransfer {
                    now,
                    account_id: account_id.clone(),
                    amount_to_claim,
                    amount_to_burn,
                },
            ),
        )
    }

    /// Settles a claim whose transfer of `amount_to_claim` to `account_id`
    /// succeeded or failed; `now` is the time of the claim and
    /// `block_timestamp` the current time. Returns the amount paid out, or
    /// an error, changing nothing, where the arithmetic would overflow.
    pub fn on_claim_result(
        &mut self,
        now: UnixTimestamp,
        account_id: String,
        amount_to_claim: TokensAmount,
        amount_to_burn: TokensAmount,
        is_success: bool,
        block_timestamp: UnixTimestamp,
    ) -> (r: Result<ClaimResultView, ArithmeticOverflow>)
        requires
            old(self).accounts.entry_decodes(account_id@),
        ensures
            r is Ok <==> on_claim_result_fits(
                old(self)@,
                account_id@,
                amount_to_claim,
                amount_to_burn,
                is_success,
                block_timestamp,
            ),
            r is Ok ==> final(self)@ == on_claim_result_view(
                old(self)@,
                now,
                account_id@,
                amount_to_claim,
                amount_to_burn,
                is_success,
                block_timestamp,
            ),
            r matches Ok(result) ==> result.total == (if is_success { amount_to_claim } else { 0 }),
            r is Err ==> final(self)@ == old(self)@,
            final(self).accounts.entry_decodes(account_id@),
            old(self).accounts.decoding_kept(final(self).accounts),
    {
        let ghost before = self@;
        let mut record = match self.accounts.get_account(&account_id) {
            Some(account) => account,
            None => AccountRecord::new(block_timestamp),
        };
        record.is_locked = false;
        if !is_success {
            let restored = match amount_to_claim.checked_add(amount_to_burn) {
                Some(total) => record.balance.checked_add(total),
                None => None,
            };
            match restored {
                Some(balance) => {
                    record.balance = balance;
                },
                None => {
                    return Err(ArithmeticOverflow);
                },
            }
            self.accounts.set_account(&account_id, record);
            proof {
                assert(self@.accounts =~= before.accounts.insert(account_id@, record));
            }
            return Ok(ClaimResultView::new(0));
        }
        match self.balance_to_burn.checked_add(amount_to_burn) {
            Some(total) => {
                self.balance_to_burn = total;
            },
            None => {
                return Err(ArithmeticOverflow);
            },
        }
        record.claim_period_refreshed_at = now;
        record.burn_since = now;
        self.accounts.set_account(&account_id, record);
        proof {
            assert(self@.accounts =~= before.accounts.insert(account_id@, record));
        }
        Ok(ClaimResultView::new(amount_to_claim))
    }
}

} // verus!
