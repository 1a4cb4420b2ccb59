use crate::account_record::{balance_to_burn_of, burn_computable, AccountRecord};
use crate::contract::{claimable_window_start, Contract, ContractView, MAX_BATCH_SIZE};
use crate::model::{TokensAmount, UnixTimestamp};
use crate::store::with_account;
use vstd::prelude::*;

verus! {

/// The record of `id`, or the record a new account gets at `now`.
pub open spec fn record_or_fresh(v: ContractView, id: Seq<char>, now: UnixTimestamp) -> AccountRecord {
    with_account(v.accounts, id, now)[id]
}

/// What evaporated from `id`'s balance and is moved to the balance to burn
/// when `id` is credited.
pub open spec fn record_step_burnt(
    v: ContractView,
    id: Seq<char>,
    claimable_window_start: UnixTimestamp,
    now: UnixTimestamp,
) -> int {
    balance_to_burn_of(record_or_fresh(v, id, now), v.burn_period, claimable_window_start)
}

/// Crediting `amount` to `id`: the evaporated part of its balance moves to
/// the balance to burn, the evaporation window advances to the claimable
/// window start (never backwards), and `amount` is added to the balance. An
/// account without a record gets a new one first.
pub open spec fn record_step(
    v: ContractView,
    id: Seq<char>,
    amount: TokensAmount,
    claimable_window_start: UnixTimestamp,
    now: UnixTimestamp,
) -> ContractView {
    let record = record_or_fresh(v, id, now);
    let burnt = record_step_burnt(v, id, claimable_window_start, now);
    let credited = AccountRecord {
        balance: (record.balance - burnt + amount) as u128,
        burn_since: if claimable_window_start > record.burn_since {
            claimable_window_start
        } else {
            record.burn_since
        },
        ..record
    };
    ContractView {
        accounts: v.accounts.insert(id, credited),
        balance_to_burn: (v.balance_to_burn + burnt) as u128,
        ..v
    }
}

/// Crediting `amount` to `id` stays within the integer types.
pub open spec fn record_step_fits(
    v: ContractView,
    id: Seq<char>,
    amount: TokensAmount,
    claimable_window_start: UnixTimestamp,
    now: UnixTimestamp,
) -> bool {
    let record = record_or_fresh(v, id, now);
    let burnt = record_step_burnt(v, id, claimable_window_start, now);
    &&& burn_computable(record, v.burn_period, claimable_window_start)
    &&& record.balance - burnt + amount <= u128::MAX
    &&& v.balance_to_burn + burnt <= u128::MAX
}

/// Crediting the entries of `amounts` in order.
pub open spec fn record_all(
    v: ContractView,
    amounts: Seq<(String, TokensAmount)>,
    claimable_window_start: UnixTimestamp,
    now: UnixTimestamp,
) -> ContractView
    decreases amounts.len(),
{
    if amounts.len() == 0 {
        v
    } else {
        let last = amounts.last();
        record_step(
            record_all(v, amounts.drop_last(), claimable_window_start, now),
            last.0@,
            last.1,
            claimable_window_start,
            now,
        )
    }
}

/// Crediting the entries of `amounts` in order stays within the integer types.
pub open spec fn record_all_fits(
    v: ContractView,
    amounts: Seq<(String, TokensAmount)>,
    claimable_window_start: UnixTimestamp,
    now: UnixTimestamp,
) -> bool
    decreases amounts.len(),
{
    if amounts.len() == 0 {
        true
    } else {
        let last = amounts.last();
        &&& record_all_fits(v, amounts.drop_last(), claimable_window_start, now)
        &&& record_step_fits(
            record_all(v, amounts.drop_last(), claimable_window_start, now),
            last.0@,
            last.1,
            claimable_window_start,
            now,
        )
    }
}

proof fn lemma_record_all_fits_not_extended(
    v: ContractView,
    amounts: Seq<(String, TokensAmount)>,
    k: int,
    ws: UnixTimestamp,
    now: UnixTimestamp,
)
    requires
        0 <= k < amounts.len(),
        !record_step_fits(record_all(v, amounts.take(k), ws, now), amounts[k].0@, amounts[k].1, ws, now),
    ensures
        !record_all_fits(v, amounts, ws, now),
{
    assert(amounts.take(k + 1).drop_last() =~= amounts.take(k));
    assert(amounts.take(k + 1).last() == amounts[k]);
    assert(!record_all_fits(v, amounts.take(k + 1), ws, now));
    if record_all_fits(v, amounts, ws, now) {
        lemma_record_all_fits_prefix(v, amounts, k + 1, ws, now);
    }
}

proof fn lemma_record_all_fits_prefix(
    v: ContractView,
    amounts: Seq<(String, TokensAmount)>,
    k: int,
    ws: UnixTimestamp,
    now: UnixTimestamp,
)
    requires
        record_all_fits(v, amounts, ws, now),
        0 <= k <= amounts.len(),
    ensures
        record_all_fits(v, amounts.take(k), ws, now),
    decreases amounts.len(),
{
    if k == amounts.len() {
        assert(amounts.take(k) =~= amounts);
    } else {
        assert(amounts.drop_last().take(k) =~= amounts.take(k));
        lemma_record_all_fits_prefix(v, amounts.drop_last(), k, ws, now);
    }
}

/// An operation was refused because its arithmetic would overflow.
#[derive(Debug, PartialEq, Eq, Clone, Copy)]
pub struct ArithmeticOverflow;

/// Why a batch operation was refused.
#[derive(Debug, PartialEq, Eq, Clone, Copy)]
pub enum BatchError {
    /// The batch holds more entries than allowed.
    BatchSizeExceeded,
    /// An entry's arithmetic would overflow.
    ArithmeticOverflow,
}

impl Contract {
    /// Credits each `(account, amount)` of `amounts` in order, at time `now`,
    /// and returns for each entry the evaporated amount that it moved to the
    /// balance to burn. A batch of more than `MAX_BATCH_SIZE` entries is
    /// refused before anything changes. Where an entry's arithmetic would
    /// overflow, the entries before it stay credited and the error is
    /// returned.
    pub fn record_batch_for_hold(
        &mut self,
        amounts: Vec<(String, TokensAmount)>,
        now: UnixTimestamp,
    ) -> (r: Result<Vec<TokensAmount>, BatchError>)
        requires
            amounts@.len() <= MAX_BATCH_SIZE ==> forall|j: int|
                0 <= j < amounts@.len() ==> old(self).accounts.entry_decodes(#[trigger] amounts@[j].0@),
        ensures
            amounts@.len() > MAX_BATCH_SIZE ==> r == Err::<Vec<TokensAmount>, BatchError>(
                BatchError::BatchSizeExceeded,
            ) && final(self)@ == old(self)@,
            amounts@.len() <= MAX_BATCH_SIZE ==> (r is Ok <==> record_all_fits(
                old(self)@,
                amounts@,
                claimable_window_start(old(self)@, now),
                now,
            )),
            r matches Ok(burnt) ==> {
                &&& final(self)@ == record_all(
                    old(self)@,
                    amounts@,
                    claimable_window_start(old(self)@, now),
                    now,
                )
                &&& burnt@.len() == amounts@.len()
                &&& forall|i: int|
                    0 <= i < amounts@.len() ==> #[trigger] burnt@[i] == record_step_burnt(
                        record_all(
                            old(self)@,
                            amounts@.take(i),
                            claimable_window_start(old(self)@, now),
                            now,
                        ),
                        amounts@[i].0@,
                        claimable_window_start(old(self)@, now),
                        now,
                    )
            },
            r == Err::<Vec<TokensAmount>, BatchError>(BatchError::ArithmeticOverflow) ==> exists|k: int|
                0 <= k < amounts@.len() && record_all_fits(
                    old(self)@,
                    #[trigger] amounts@.take(k),
                    claimable_window_start(old(self)@, now),
                    now,
                ) && !record_step_fits(
                    record_all(old(self)@, amounts@.take(k), claimable_window_start(old(self)@, now), now),
                    amounts@[k].0@,
                    amounts@[k].1,
                    claimable_window_start(old(self)@, now),
                    now,
                ) && final(self)@ == record_all(
                    old(self)@,
                    amounts@.take(k),
                    claimable_window_start(old(self)@, now),
                    now,
                ),
            old(self).accounts.decoding_kept(final(self).accounts),
            amounts@.len() <= MAX_BATCH_SIZE ==> forall|j: int|
                0 <= j < amounts@.len() ==> final(self).accounts.entry_decodes(#[trigger] amounts@[j].0@),
    {
        if amounts.len() > MAX_BATCH_SIZE {
            return Err(BatchError::BatchSizeExceeded);
        }
        let ws: UnixTimestamp = self.get_claimable_window_start(now);
        let ghost start = self@;
        let mut burnt: Vec<TokensAmount> = Vec::new();
        let mut i: usize = 0;
        proof {
            assert(amounts@.take(0) =~= Seq::<(String, TokensAmount)>::empty());
        }
        while i < amounts.len()
            invariant
                0 <= i <= amounts@.len(),
                ws == claimable_window_start(start, now),
                start == old(self)@,
                record_all_fits(start, amounts@.take(i as int), ws, now),
                self@ == record_all(start, amounts@.take(i as int), ws, now),
                self.burn_period == start.burn_period,
                amounts@.len() <= MAX_BATCH_SIZE,
                forall|j: int|
                    0 <= j < amounts@.len() ==> self.accounts.entry_decodes(#[trigger] amounts@[j].0@),
                old(self).accounts.decoding_kept(self.accounts),
                burnt@.len() == i,
                forall|j: int|
                    0 <= j < i ==> #[trigger] burnt@[j] == record_step_burnt(
                        record_all(start, amounts@.take(j), ws, now),
                        amounts@[j].0@,
                        ws,
                        now,
                    ),
            decreases amounts@.len() - i,
        {
            let ghost before = self@;
            proof {
                assert(amounts@.take(i + 1).drop_last() =~= amounts@.take(i as int));
                assert(amounts@.take(i + 1).last() == amounts@[i as int]);
            }
            let account_id = amounts[i].0.clone();
            let amount: TokensAmount = amounts[i].1;
            let account = match self.accounts.get_account(&account_id) {
                Some(account) => account,
                None => AccountRecord::new(now),
            };
            let fits = match account.checked_balance_to_burn(self.burn_period, ws) {
                Some(balance_to_burn) => match self.balance_to_burn.checked_add(balance_to_burn) {
                    Some(total_to_burn) => match (account.balance - balance_to_burn).checked_add(amount) {
                        Some(balance) => Some((balance_to_burn, total_to_burn, balance)),
                        None => None,
                    },
                    None => None,
                },
                None => None,
            };
            let (balance_to_burn, total_to_burn, balance) = match fits {
                Some(values) => values,
                None => {
                    proof {
                        assert(!record_step_fits(before, account_id@, amount, ws, now));
                        lemma_record_all_fits_not_extended(start, amounts@, i as int, ws, now);
                    }
                    return Err(BatchError::ArithmeticOverflow);
                },
            };
            let mut record = account;
            record.balance = balance;
            if ws > record.burn_since {
                record.burn_since = ws;
            }
            self.balance_to_burn = total_to_burn;
            self.accounts.set_account(&account_id, record);
            burnt.push(balance_to_burn);
            proof {
                assert(self@.accounts =~= before.accounts.insert(account_id@, record));
                assert(self@ =~= record_step(before, account_id@, amount, ws, now));
                assert(self@ == record_all(start, amounts@.take(i + 1), ws, now));
                assert(record_all_fits(start, amounts@.take(i + 1), ws, now));
            }
            i = i + 1;
        }
        proof {
            assert(amounts@.take(amounts@.len() as int) =~= amounts@);
        }
        Ok(burnt)
    }
}

} // verus!
