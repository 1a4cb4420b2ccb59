use crate::account_record::AccountRecord;
use crate::model::{saturating_sub, BurnStatus, Duration, TokensAmount, UnixTimestamp};
use crate::store::{map_prefix, map_unwritten, AccountMap};
use vstd::prelude::*;

verus! {

/// The claim period a new contract starts with: one day.
pub const INITIAL_CLAIM_PERIOD_SEC: u32 = 24 * 60 * 60;

/// The burn period a new contract starts with: thirty days.
pub const INITIAL_BURN_PERIOD_SEC: u32 = 30 * 24 * 60 * 60;

/// The most entries that one batch of records may hold.
pub const MAX_BATCH_SIZE: usize = 100;

/// The most accounts that one clean may remove.
pub const MAX_CLEAN_BATCH_SIZE: usize = 100;

/// Upper bound on both the claim period and the burn period: one year.
pub const MAX_PERIOD_SECS: u32 = 365 * 24 * 60 * 60;

/// Storage prefixes of the contract's collections. Retired variants keep
/// their places so that the prefix of `Accounts` stays the same.
pub enum StorageKey {
    _AccountsLegacy,
    Accruals,
    _AccrualsEntryLegacy(u32),
    _OraclesLegacy,
    Accounts,
}

/// The bytes of a storage key: the variant's index, then the little-endian
/// bytes of its payload.
pub open spec fn storage_key_bytes(key: StorageKey) -> Seq<u8> {
    match key {
        StorageKey::_AccountsLegacy => seq![0u8],
        StorageKey::Accruals => seq![1u8],
        StorageKey::_AccrualsEntryLegacy(x) => seq![
            2u8,
            (x % 256) as u8,
            ((x / 256) % 256) as u8,
            ((x / 65536) % 256) as u8,
            (x / 16777216) as u8,
        ],
        StorageKey::_OraclesLegacy => seq![3u8],
        StorageKey::Accounts => seq![4u8],
    }
}

impl StorageKey {
    pub fn into_storage_key(self) -> (r: Vec<u8>)
        ensures
            r@ == storage_key_bytes(self),
    {
        match self {
            StorageKey::_AccountsLegacy => vec![0u8],
            StorageKey::Accruals => vec![1u8],
            StorageKey::_AccrualsEntryLegacy(x) => {
                let r = vec![
                    2u8,
                    (x % 256) as u8,
                    ((x / 256) % 256) as u8,
                    ((x / 65536) % 256) as u8,
                    (x / 16777216) as u8,
                ];
                proof {
                    assert(r@ =~= storage_key_bytes(StorageKey::_AccrualsEntryLegacy(x)));
                }
                r
            },
            StorageKey::_OraclesLegacy => vec![3u8],
            StorageKey::Accounts => vec![4u8],
        }
    }
}

/// The abstract state of the contract.
#[verifier::ext_equal]
pub struct ContractView {
    pub token_account_id: Seq<char>,
    pub claim_period: Duration,
    pub burn_period: Duration,
    pub accounts: Map<Seq<char>, AccountRecord>,
    pub is_service_call_running: bool,
    pub balance_to_burn: TokensAmount,
}

/// The state of the claim contract.
pub struct Contract {
    /// The fungible token contract serviced by this contract.
    pub token_account_id: String,
    /// How long an account must wait after a claim (or its creation) before
    /// it can claim again.
    pub claim_period: Duration,
    /// How long an unclaimed balance takes to evaporate completely.
    pub burn_period: Duration,
    /// The records of the registered accounts.
    pub accounts: AccountMap,
    /// Whether a burn is in flight.
    pub is_service_call_running: bool,
    /// Evaporated tokens that wait to be burnt.
    pub balance_to_burn: TokensAmount,
}

impl View for Contract {
    type V = ContractView;

    open spec fn view(&self) -> ContractView {
        ContractView {
            token_account_id: self.token_account_id@,
            claim_period: self.claim_period,
            burn_period: self.burn_period,
            accounts: self.accounts@,
            is_service_call_running: self.is_service_call_running,
            balance_to_burn: self.balance_to_burn,
        }
    }
}

/// The start of the window in which balances are still claimable: `now`
/// less the burn period.
pub open spec fn claimable_window_start(v: ContractView, now: UnixTimestamp) -> UnixTimestamp {
    saturating_sub(now as int, v.burn_period as int) as UnixTimestamp
}

/// The periods of a contract are valid: the claim period is shorter than the
/// burn period, which is positive, and neither exceeds the maximum.
pub open spec fn periods_valid(claim_period: Duration, burn_period: Duration) -> bool {
    &&& claim_period < burn_period
    &&& 0 < burn_period
    &&& burn_period <= MAX_PERIOD_SECS
}

/// A rejected configuration change.
#[derive(Debug, PartialEq, Eq, Clone, Copy)]
pub enum ConfigError {
    ClaimPeriodExceedsMaximum,
    ClaimPeriodNotLessThanBurnPeriod,
    BurnPeriodIsZero,
    BurnPeriodExceedsMaximum,
    BurnPeriodNotGreaterThanClaimPeriod,
}

/// An operation on an account that has no record.
#[derive(Debug, PartialEq, Eq, Clone, Copy)]
pub struct AccountNotFound;

/// The outcome of setting the claim period to `period`.
pub open spec fn claim_period_check(v: ContractView, period: Duration) -> Result<(), ConfigError> {
    if period > MAX_PERIOD_SECS {
        Err(ConfigError::ClaimPeriodExceedsMaximum)
    } else if period >= v.burn_period {
        Err(ConfigError::ClaimPeriodNotLessThanBurnPeriod)
    } else {
        Ok(())
    }
}

/// The outcome of setting the burn period to `period`.
pub open spec fn burn_period_check(v: ContractView, period: Duration) -> Result<(), ConfigError> {
    if period == 0 {
        Err(ConfigError::BurnPeriodIsZero)
    } else if period > MAX_PERIOD_SECS {
        Err(ConfigError::BurnPeriodExceedsMaximum)
    } else if period <= v.claim_period {
        Err(ConfigError::BurnPeriodNotGreaterThanClaimPeriod)
    } else {
        Ok(())
    }
}

impl Contract {
    /// A new contract that serves `token_account_id`, with the initial
    /// periods, no burn in flight and nothing to burn. Its accounts are those
    /// stored under the accounts prefix.
    pub fn init(token_account_id: String) -> (c: Contract)
        ensures
            c@.token_account_id == token_account_id@,
            c@.claim_period == INITIAL_CLAIM_PERIOD_SEC,
            c@.burn_period == INITIAL_BURN_PERIOD_SEC,
            !c@.is_service_call_running,
            c@.balance_to_burn == 0,
            periods_valid(c@.claim_period, c@.burn_period),
            map_prefix(c.accounts) == storage_key_bytes(StorageKey::Accounts),
            map_unwritten(c.accounts),
    {
        Contract {
            token_account_id,
            accounts: AccountMap::new(StorageKey::Accounts.into_storage_key()),
            claim_period: INITIAL_CLAIM_PERIOD_SEC,
            burn_period: INITIAL_BURN_PERIOD_SEC,
            is_service_call_running: false,
            balance_to_burn: 0,
        }
    }

    /// The start of the claimable window at `now`.
    pub fn get_claimable_window_start(&self, now: UnixTimestamp) -> (r: UnixTimestamp)
        ensures
            r == claimable_window_start(self@, now),
    {
        if now >= self.burn_period {
            now - self.burn_period
        } else {
            0
        }
    }

    /// Adds `amount` to the balance to burn.
    pub fn credit_balance_to_burn(&mut self, amount: TokensAmount)
        requires
            old(self).balance_to_burn + amount <= u128::MAX,
        ensures
            final(self)@ == (ContractView { balance_to_burn: (old(self).balance_to_burn + amount) as u128, ..old(self)@ }),
            final(self).accounts == old(self).accounts,
    {
        self.balance_to_burn = self.balance_to_burn + amount;
    }

    /// Subtracts `amount` from the balance to burn, down to 0 at most.
    pub fn debit_balance_to_burn(&mut self, amount: TokensAmount)
        ensures
            final(self)@ == (ContractView {
                balance_to_burn: saturating_sub(old(self).balance_to_burn as int, amount as int) as u128,
                ..old(self)@
            }),
            final(self).accounts == old(self).accounts,
    {
        if self.balance_to_burn >= amount {
            self.balance_to_burn = self.balance_to_burn - amount;
        } else {
            self.balance_to_burn = 0;
        }
    }

    /// The evaporated tokens that wait to be burnt.
    pub fn get_balance_to_burn(&self) -> (r: TokensAmount)
        ensures
            r == self.balance_to_burn,
    {
        self.balance_to_burn
    }

    /// What decides the evaporation of `account_id`'s balance, if the account
    /// is registered.
    pub fn get_burn_status(&self, account_id: &String) -> (r: Option<BurnStatus>)
        requires
            self.accounts.entry_decodes(account_id@),
        ensures
            r == (if self@.accounts.contains_key(account_id@) {
                Some(
                    BurnStatus {
                        min_claimable_ts: None,
                        claim_period_refreshed_at: self@.accounts[account_id@].claim_period_refreshed_at,
                        burn_period: self.burn_period,
                    },
                )
            } else {
                None
            }),
    {
        match self.accounts.get_account(account_id) {
            Some(account) => Some(
                BurnStatus {
                    min_claimable_ts: None,
                    claim_period_refreshed_at: account.claim_period_refreshed_at,
                    burn_period: self.burn_period,
                },
            ),
            None => None,
        }
    }

    /// Sets the claim period, which must not exceed the maximum and must be
    /// shorter than the burn period.
    pub fn set_claim_period(&mut self, period: Duration) -> (r: Result<(), ConfigError>)
        ensures
            r == claim_period_check(old(self)@, period),
            final(self)@ == (if r is Ok {
                ContractView { claim_period: period, ..old(self)@ }
            } else {
                old(self)@
            }),
            final(self).accounts == old(self).accounts,
    {
        if period > MAX_PERIOD_SECS {
            return Err(ConfigError::ClaimPeriodExceedsMaximum);
        }
        if period >= self.burn_period {
            return Err(ConfigError::ClaimPeriodNotLessThanBurnPeriod);
        }
        self.claim_period = period;
        Ok(())
    }

    /// Sets the burn period, which must be positive, must not exceed the
    /// maximum and must be longer than the claim period.
    pub fn set_burn_period(&mut self, period: Duration) -> (r: Result<(), ConfigError>)
        ensures
            r == burn_period_check(old(self)@, period),
            final(self)@ == (if r is Ok {
                ContractView { burn_period: period, ..old(self)@ }
            } else {
                old(self)@
            }),
            final(self).accounts == old(self).accounts,
    {
        if period == 0 {
            return Err(ConfigError::BurnPeriodIsZero);
        }
        if period > MAX_PERIOD_SECS {
            return Err(ConfigError::BurnPeriodExceedsMaximum);
        }
        if period <= self.claim_period {
            return Err(ConfigError::BurnPeriodNotGreaterThanClaimPeriod);
        }
        self.burn_period = period;
        Ok(())
    }

    /// Releases the lock on `account_id`'s record.
    pub fn unlock_account(&mut self, account_id: &String) -> (r: Result<(), AccountNotFound>)
        requires
            old(self).accounts.entry_decodes(account_id@),
        ensures
            r is Ok <==> old(self)@.accounts.contains_key(account_id@),
            final(self)@ == (if r is Ok {
                ContractView {
                    accounts: old(self)@.accounts.insert(
                        account_id@,
                        AccountRecord { is_locked: false, ..old(self)@.accounts[account_id@] },
                    ),
                    ..old(self)@
                }
            } else {
                old(self)@
            }),
            final(self).accounts.entry_decodes(account_id@),
            old(self).accounts.decoding_kept(final(self).accounts),
    {
        match self.accounts.get_account(account_id) {
            Some(account) => {
                let record = AccountRecord { is_locked: false, ..account };
                self.accounts.set_account(account_id, record);
                Ok(())
            },
            None => Err(AccountNotFound),
        }
    }

    /// Enables or disables claims of `account_id`.
    pub fn set_account_enabled(&mut self, account_id: &String, enabled: bool) -> (r: Result<(), AccountNotFound>)
        requires
            old(self).accounts.entry_decodes(account_id@),
        ensures
            r is Ok <==> old(self)@.accounts.contains_key(account_id@),
            final(self)@ == (if r is Ok {
                ContractView {
                    accounts: old(self)@.accounts.insert(
                        account_id@,
                        AccountRecord { is_enabled: enabled, ..old(self)@.accounts[account_id@] },
                    ),
                    ..old(self)@
                }
            } else {
                old(self)@
            }),
            final(self).accounts.entry_decodes(account_id@),
            old(self).accounts.decoding_kept(final(self).accounts),
    {
        match self.accounts.get_account(account_id) {
            Some(account) => {
                let record = AccountRecord { is_enabled: enabled, ..account };
                self.accounts.set_account(account_id, record);
                Ok(())
            },
            None => Err(AccountNotFound),
        }
    }

    /// Clears the flag of a burn in flight.
    pub fn reset_service_call_flag(&mut self)
        ensures
            final(self)@ == (ContractView { is_service_call_running: false, ..old(self)@ }),
            final(self).accounts == old(self).accounts,
    {
        self.is_service_call_running = false;
    }
}

} // verus!
