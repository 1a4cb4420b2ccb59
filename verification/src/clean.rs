use crate::contract::{Contract, ContractView, MAX_CLEAN_BATCH_SIZE};
use crate::record::BatchError;
use vstd::prelude::*;

verus! {

/// Removing the record of `id`: its balance goes to the balance to burn.
pub open spec fn clean_step(v: ContractView, id: Seq<char>) -> ContractView {
    if v.accounts.contains_key(id) {
        ContractView {
            accounts: v.accounts.remove(id),
            balance_to_burn: (v.balance_to_burn + v.accounts[id].balance) as u128,
            ..v
        }
    } else {
        v
    }
}

/// Removing the records of `ids` in order.
pub open spec fn clean_all(v: ContractView, ids: Seq<String>) -> ContractView
    decreases ids.len(),
{
    if ids.len() == 0 {
        v
    } else {
        clean_step(clean_all(v, ids.drop_last()), ids.last()@)
    }
}

/// Removing the records of `ids` in order stays within the integer types.
pub open spec fn clean_all_fits(v: ContractView, ids: Seq<String>) -> bool
    decreases ids.len(),
{
    if ids.len() == 0 {
        true
    } else {
        let prev = clean_all(v, ids.drop_last());
        &&& clean_all_fits(v, ids.drop_last())
        &&& (prev.accounts.contains_key(ids.last()@) ==> prev.balance_to_burn
            + prev.accounts[ids.last()@].balance <= u128::MAX)
    }
}

proof fn lemma_clean_all_fits_prefix(v: ContractView, ids: Seq<String>, k: int)
    requires
        clean_all_fits(v, ids),
        0 <= k <= ids.len(),
    ensures
        clean_all_fits(v, ids.take(k)),
    decreases ids.len(),
{
    if k == ids.len() {
        assert(ids.take(k) =~= ids);
    } else {
        assert(ids.drop_last().take(k) =~= ids.take(k));
        lemma_clean_all_fits_prefix(v, ids.drop_last(), k);
    }
}

proof fn lemma_clean_all_fits_not_extended(v: ContractView, ids: Seq<String>, k: int)
    requires
        0 <= k < ids.len(),
        clean_all(v, ids.take(k)).accounts.contains_key(ids[k]@),
        clean_all(v, ids.take(k)).balance_to_burn + clean_all(v, ids.take(k)).accounts[ids[k]@].balance
            > u128::MAX,
    ensures
        !clean_all_fits(v, ids),
{
    assert(ids.take(k + 1).drop_last() =~= ids.take(k));
    assert(ids.take(k + 1).last() == ids[k]);
    assert(!clean_all_fits(v, ids.take(k + 1)));
    if clean_all_fits(v, ids) {
        lemma_clean_all_fits_prefix(v, ids, k + 1);
    }
}

impl Contract {
    /// Removes the records of `account_ids`, moving their balances to the
    /// balance to burn. A batch of more than `MAX_CLEAN_BATCH_SIZE` accounts
    /// is refused before anything changes. Where moving a balance would
    /// overflow the balance to burn, the accounts before it stay removed and
    /// an error is returned.
    pub fn clean(&mut self, account_ids: Vec<String>) -> (r: Result<(), BatchError>)
        requires
            account_ids@.len() <= MAX_CLEAN_BATCH_SIZE ==> forall|j: int|
                0 <= j < account_ids@.len() ==> old(self).accounts.entry_decodes(#[trigger] account_ids@[j]@),
        ensures
            account_ids@.len() > MAX_CLEAN_BATCH_SIZE ==> r == Err::<(), BatchError>(
                BatchError::BatchSizeExceeded,
            ) && final(self)@ == old(self)@,
            account_ids@.len() <= MAX_CLEAN_BATCH_SIZE ==> (r is Ok <==> clean_all_fits(
                old(self)@,
                account_ids@,
            )),
            r is Ok ==> final(self)@ == clean_all(old(self)@, account_ids@),
            r == Err::<(), BatchError>(BatchError::ArithmeticOverflow) ==> exists|k: int|
                0 <= k < account_ids@.len() && clean_all_fits(old(self)@, #[trigger] account_ids@.take(k))
                    && final(self)@ == clean_all(old(self)@, account_ids@.take(k))
                    && final(self)@.accounts.contains_key(account_ids@[k]@)
                    && final(self)@.balance_to_burn + final(self)@.accounts[account_ids@[k]@].balance > u128::MAX,
            old(self).accounts.decoding_kept(final(self).accounts),
            account_ids@.len() <= MAX_CLEAN_BATCH_SIZE ==> forall|j: int|
                0 <= j < account_ids@.len() ==> final(self).accounts.entry_decodes(#[trigger] account_ids@[j]@),
    {
        if account_ids.len() > MAX_CLEAN_BATCH_SIZE {
            return Err(BatchError::BatchSizeExceeded);
        }
        let ghost start = self@;
        let mut i: usize = 0;
        proof {
            assert(account_ids@.take(0) =~= Seq::<String>::empty());
        }
        while i < account_ids.len()
            invariant
                0 <= i <= account_ids@.len(),
                start == old(self)@,
                account_ids@.len() <= MAX_CLEAN_BATCH_SIZE,
                forall|j: int|
                    0 <= j < account_ids@.len() ==> self.accounts.entry_decodes(#[trigger] account_ids@[j]@),
                old(self).accounts.decoding_kept(self.accounts),
                clean_all_fits(start, account_ids@.take(i as int)),
                self@ == clean_all(start, account_ids@.take(i as int)),
            decreases account_ids@.len() - i,
        {
            let ghost before = self@;
            proof {
                assert(account_ids@.take(i + 1).drop_last() =~= account_ids@.take(i as int));
                assert(account_ids@.take(i + 1).last() == account_ids@[i as int]);
            }
            let account_id = &account_ids[i];
            match self.accounts.get_account(account_id) {
                Some(account) => {
                    match self.balance_to_burn.checked_add(account.balance) {
                        Some(total) => {
                            self.balance_to_burn = total;
                        },
                        None => {
                            proof {
                                lemma_clean_all_fits_not_extended(start, account_ids@, i as int);
                            }
                            return Err(BatchError::ArithmeticOverflow);
                        },
                    }
                },
                None => {},
            }
            let _ = self.accounts.remove(account_id);
            proof {
                assert(self@ =~= clean_step(before, account_id@));
                assert(clean_all_fits(start, account_ids@.take(i + 1)));
            }
            i = i + 1;
        }
        proof {
            assert(account_ids@.take(account_ids@.len() as int) =~= account_ids@);
        }
        Ok(())
    }
}

} // verus!
