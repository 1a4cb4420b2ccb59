use crate::model::{
    burn_rate, get_burn_rate, saturating_sub, Duration, TokensAmount, UnixTimestamp,
};
use vstd::prelude::*;

verus! {

/// The state of a registered account.
#[derive(Debug, PartialEq, Eq, Clone, Copy)]
pub struct AccountRecordV1 {
    /// The balance held for the account; it evaporates over time.
    pub balance: TokensAmount,
    /// Left border of the window over which the balance evaporates.
    pub burn_since: UnixTimestamp,
    /// Creation of the record or the account's last claim.
    pub claim_period_refreshed_at: UnixTimestamp,
    /// Whether the account may claim.
    pub is_enabled: bool,
    /// Whether an operation on the balance is in flight.
    pub is_locked: bool,
}

pub type AccountRecord = AccountRecordV1;

/// An account record in any of its versions.
#[derive(Debug, PartialEq, Eq, Clone, Copy)]
pub enum AccountRecordVersioned {
    V1(AccountRecordV1),
}

/// The record that a new account starts with at time `now`.
pub open spec fn fresh_record(now: UnixTimestamp) -> AccountRecord {
    AccountRecord {
        balance: 0,
        claim_period_refreshed_at: now,
        burn_since: now,
        is_enabled: true,
        is_locked: false,
    }
}

/// How much of a record's balance has evaporated by `claimable_window_start`:
/// nothing if the account claimed (or was created) after the window start,
/// otherwise the burn rate times the seconds from `burn_since` to the window
/// start, capped by the balance.
pub open spec fn balance_to_burn_of(
    record: AccountRecord,
    burn_period: Duration,
    claimable_window_start: UnixTimestamp,
) -> int {
    if record.claim_period_refreshed_at > claimable_window_start {
        0
    } else {
        let evaporated = burn_rate(record.balance, burn_period) * saturating_sub(
            claimable_window_start as int,
            record.burn_since as int,
        );
        if evaporated <= record.balance {
            evaporated
        } else {
            record.balance as int
        }
    }
}

/// The evaporated amount fits the integer type it is computed in.
pub open spec fn burn_computable(
    record: AccountRecord,
    burn_period: Duration,
    claimable_window_start: UnixTimestamp,
) -> bool {
    &&& burn_period > 0
    &&& (record.claim_period_refreshed_at > claimable_window_start
        || burn_rate(record.balance, burn_period) * saturating_sub(
        claimable_window_start as int,
        record.burn_since as int,
    ) <= u128::MAX)
}

impl AccountRecordVersioned {
    pub open spec fn latest(self) -> AccountRecordV1 {
        match self {
            AccountRecordVersioned::V1(value) => value,
        }
    }

    pub fn into_latest(&self) -> (r: &AccountRecordV1)
        ensures
            *r == self.latest(),
    {
        let AccountRecordVersioned::V1(value) = self;
        value
    }

    pub fn new(now: UnixTimestamp) -> (r: Self)
        ensures
            r == AccountRecordVersioned::V1(fresh_record(now)),
    {
        AccountRecordVersioned::V1(AccountRecordV1::new(now))
    }
}

impl AccountRecordV1 {
    pub fn new(now: UnixTimestamp) -> (r: Self)
        ensures
            r == fresh_record(now),
    {
        AccountRecordV1 {
            balance: 0,
            claim_period_refreshed_at: now,
            burn_since: now,
            is_enabled: true,
            is_locked: false,
        }
    }

    /// The part of the balance that has evaporated by `claimable_window_start`.
    pub fn get_balance_to_burn(
        &self,
        burn_period: Duration,
        claimable_window_start: UnixTimestamp,
    ) -> (r: TokensAmount)
        requires
            burn_computable(*self, burn_period, claimable_window_start),
        ensures
            r == balance_to_burn_of(*self, burn_period, claimable_window_start),
            r <= self.balance,
    {
        let evaporated: u128 = if self.claim_period_refreshed_at > claimable_window_start {
            0
        } else {
            let seconds: u32 = if claimable_window_start >= self.burn_since {
                claimable_window_start - self.burn_since
            } else {
                0
            };
            self.get_burn_rate(burn_period) * (seconds as u128)
        };
        if evaporated <= self.balance {
            evaporated
        } else {
            self.balance
        }
    }

    /// The part of the balance that has evaporated by
    /// `claimable_window_start`, or `None` where computing it overflows.
    pub fn checked_balance_to_burn(
        &self,
        burn_period: Duration,
        claimable_window_start: UnixTimestamp,
    ) -> (r: Option<TokensAmount>)
        ensures
            r == (if burn_computable(*self, burn_period, claimable_window_start) {
                Some(balance_to_burn_of(*self, burn_period, claimable_window_start) as u128)
            } else {
                None::<TokensAmount>
            }),
    {
        if burn_period == 0 {
            return None;
        }
        if self.claim_period_refreshed_at > claimable_window_start {
            return Some(0);
        }
        let seconds: u32 = if claimable_window_start >= self.burn_since {
            claimable_window_start - self.burn_since
        } else {
            0
        };
        match self.get_burn_rate(burn_period).checked_mul(seconds as u128) {
            Some(evaporated) => {
                if evaporated <= self.balance {
                    Some(evaporated)
                } else {
                    Some(self.balance)
                }
            },
            None => None,
        }
    }

    /// The per-second evaporation rate of this record's balance.
    pub fn get_burn_rate(&self, burn_period: Duration) -> (r: TokensAmount)
        requires
            burn_period > 0,
        ensures
            r == burn_rate(self.balance, burn_period),
    {
        get_burn_rate(self.balance, burn_period)
    }
}

} // verus!
