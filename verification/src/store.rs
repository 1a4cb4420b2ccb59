use near_sdk::borsh::BorshDeserialize;
use near_sdk::store::key::{Identity, ToKey};
use near_sdk::store::LookupMap;
use crate::account_record::{fresh_record, AccountRecord, AccountRecordVersioned};
use crate::model::UnixTimestamp;
use vstd::prelude::*;

verus! {

/// The persistent layout of one account record: the tag of the only record
/// version (0; an entry with another tag is not a record, see
/// `AccountMap::entry_decodes`), then balance, `burn_since`,
/// `claim_period_refreshed_at`, `is_enabled` and `is_locked`, in that order.
pub type StoredAccount = (u8, u128, u32, u32, bool, bool);

/// The persistent map of account records, keyed by account id. Beside the
/// map it keeps a copy of the storage prefix the map was opened on.
#[verifier::external_body]
pub struct AccountMap {
    map: LookupMap<String, StoredAccount>,
    prefix: Vec<u8>,
}

/// What a persistent map of account records reads, by account id: the entry
/// the map holds for the key since it last wrote or read it, else the entry
/// decoded from the bytes that contract storage holds under the map's prefix
/// followed by the key's Borsh bytes. Keys whose stored bytes do not decode
/// are not in it (see `undecodable_keys`).
pub uninterp spec fn stored_entries(m: AccountMap) -> Map<Seq<char>, StoredAccount>;

/// The keys under which contract storage holds bytes (after the map's prefix)
/// that do not decode as an entry, and which the map has not written since it
/// was opened. Reading such a key through the map aborts the contract.
pub uninterp spec fn undecodable_keys(m: AccountMap) -> Set<Seq<char>>;

/// The storage prefix that a persistent map of account records was opened on.
pub uninterp spec fn map_prefix(m: AccountMap) -> Seq<u8>;

/// The map has written nothing since it was opened: every entry it holds a
/// copy of was read from storage (or found absent there) unchanged.
pub uninterp spec fn map_unwritten(m: AccountMap) -> bool;

/// Opens the map stored under `prefix` with `LookupMap::new`, which keeps
/// `prefix` as the map's storage prefix. The map reads whatever the contract
/// storage already holds under that prefix, so nothing is stated of its
/// entries or of which keys decode. Maps opened on one prefix share that
/// storage: a contract state holds one map per prefix at a time.
#[verifier::external_body]
pub(crate) fn map_open(prefix: Vec<u8>) -> (m: AccountMap)
    ensures
        map_prefix(m) == prefix@,
        map_unwritten(m),
{
    AccountMap { map: LookupMap::new(prefix.clone()), prefix }
}

/// Calls `LookupMap::get` and copies the value out: the entry under `key`, if
/// any. The outside code loads an entry it does not hold yet from storage and
/// aborts where the bytes do not decode, so `key` must not be undecodable.
#[verifier::external_body]
pub(crate) fn map_get(m: &AccountMap, key: &String) -> (r: Option<StoredAccount>)
    requires
        !undecodable_keys(*m).contains(key@),
    ensures
        r == stored_entries(*m).get(key@),
{
    m.map.get(key).copied()
}

/// Calls `LookupMap::contains_key`, which answers from the map's own copy of
/// the entry, else from whether storage holds bytes under the key, without
/// decoding them.
#[verifier::external_body]
pub(crate) fn map_contains(m: &AccountMap, key: &String) -> (r: bool)
    ensures
        r == (stored_entries(*m).contains_key(key@) || undecodable_keys(*m).contains(key@)),
{
    m.map.contains_key(key)
}

/// Calls `LookupMap::set`, which overwrites the entry under `key` without
/// loading what was there: with `Some(v)` the entry becomes `v`, with `None`
/// it goes. The other entries stay, `key` is no longer undecodable (the map
/// now holds what it reads under `key`), the prefix stays, and the map has
/// now written.
#[verifier::external_body]
pub(crate) fn map_set(m: &mut AccountMap, key: String, value: Option<StoredAccount>)
    ensures
        stored_entries(*final(m)) == (match value {
            Some(v) => stored_entries(*old(m)).insert(key@, v),
            None => stored_entries(*old(m)).remove(key@),
        }),
        undecodable_keys(*final(m)) == undecodable_keys(*old(m)).remove(key@),
        map_prefix(*final(m)) == map_prefix(*old(m)),
        !map_unwritten(*final(m)),
{
    m.map.set(key, value)
}

/// Whether the storage under `key` decodes, tested the way `LookupMap` loads
/// an entry: the storage key is the prefix followed by the Borsh bytes of
/// `key` (`Identity::to_key`), `env::storage_read` reads it, and the bytes,
/// where there are any, must decode as an entry (`try_from_slice`). A `true`
/// answer means that `key` is not undecodable. The test reads storage, not
/// the map's own copies of entries. On a map that has written nothing, those
/// copies agree with storage, so the answer is exact; after a write, an entry
/// that the map wrote and has not flushed yet is judged by what storage held
/// before, and a `false` answer states nothing.
#[verifier::external_body]
fn map_probe(m: &AccountMap, key: &String) -> (r: bool)
    ensures
        r ==> !undecodable_keys(*m).contains(key@),
        map_unwritten(*m) ==> (r <==> !undecodable_keys(*m).contains(key@)),
{
    let storage_key = <Identity as ToKey>::to_key(&m.prefix, key, &mut Vec::new());
    match near_sdk::env::storage_read(&storage_key) {
        Some(bytes) => <StoredAccount as BorshDeserialize>::try_from_slice(&bytes).is_ok(),
        None => true,
    }
}

/// The record that a stored entry holds.
pub open spec fn record_of_stored(s: StoredAccount) -> AccountRecord {
    AccountRecord {
        balance: s.1,
        burn_since: s.2,
        claim_period_refreshed_at: s.3,
        is_enabled: s.4,
        is_locked: s.5,
    }
}

/// The stored entry of a record.
pub open spec fn stored_of_record(r: AccountRecord) -> StoredAccount {
    (0u8, r.balance, r.burn_since, r.claim_period_refreshed_at, r.is_enabled, r.is_locked)
}

fn to_stored(r: &AccountRecord) -> (s: StoredAccount)
    ensures
        s == stored_of_record(*r),
{
    (0u8, r.balance, r.burn_since, r.claim_period_refreshed_at, r.is_enabled, r.is_locked)
}

fn from_stored(s: StoredAccount) -> (r: AccountRecord)
    ensures
        r == record_of_stored(s),
{
    AccountRecord {
        balance: s.1,
        burn_since: s.2,
        claim_period_refreshed_at: s.3,
        is_enabled: s.4,
        is_locked: s.5,
    }
}

impl View for AccountMap {
    type V = Map<Seq<char>, AccountRecord>;

    open spec fn view(&self) -> Map<Seq<char>, AccountRecord> {
        stored_entries(*self).map_values(|s: StoredAccount| record_of_stored(s))
    }
}

/// `m` with `record` under `id` when `m` has nothing there.
pub open spec fn with_account(
    m: Map<Seq<char>, AccountRecord>,
    id: Seq<char>,
    now: UnixTimestamp,
) -> Map<Seq<char>, AccountRecord> {
    if m.contains_key(id) {
        m
    } else {
        m.insert(id, fresh_record(now))
    }
}

impl AccountMap {
    /// The entry for `id` can be read: its stored bytes, if any, decode, and
    /// an entry there carries the tag of the only record version (a record
    /// stored with another tag does not decode as a record).
    pub open spec fn entry_decodes(self, id: Seq<char>) -> bool {
        &&& !undecodable_keys(self).contains(id)
        &&& stored_entries(self).contains_key(id) ==> stored_entries(self)[id].0 == 0
    }

    /// Every entry that can be read in `self` can still be read in `after`.
    pub open spec fn decoding_kept(self, after: AccountMap) -> bool {
        forall|id: Seq<char>| #[trigger] self.entry_decodes(id) ==> after.entry_decodes(id)
    }

    /// Whether the entry for `account_id` can be read. A `true` answer is
    /// certain; on a map that has written nothing since it was opened, the
    /// answer is exact; and an entry with a foreign version tag always gives
    /// `false`.
    pub fn entry_is_decodable(&self, account_id: &String) -> (r: bool)
        ensures
            r ==> self.entry_decodes(account_id@),
            map_unwritten(*self) ==> (r <==> self.entry_decodes(account_id@)),
            stored_entries(*self).contains_key(account_id@) && stored_entries(*self)[account_id@].0 != 0
                ==> !r,
    {
        if !map_probe(self, account_id) {
            return false;
        }
        match map_get(self, account_id) {
            Some(s) => s.0 == 0,
            None => true,
        }
    }

    /// Opens the account map stored under `prefix`. Whatever storage holds
    /// there, bytes that do not decode are only ever tested
    /// (`entry_is_decodable`, `contains_key`) or overwritten, never read:
    /// every read requires `entry_decodes`.
    pub fn new(prefix: Vec<u8>) -> (m: AccountMap)
        ensures
            map_prefix(m) == prefix@,
            map_unwritten(m),
    {
        map_open(prefix)
    }

    /// The record of `account_id`, in its versioned form, if there is one.
    pub fn get(&self, account_id: &String) -> (r: Option<AccountRecordVersioned>)
        requires
            self.entry_decodes(account_id@),
        ensures
            r == (if self@.contains_key(account_id@) {
                Some(AccountRecordVersioned::V1(self@[account_id@]))
            } else {
                None
            }),
    {
        match map_get(self, account_id) {
            Some(s) => Some(AccountRecordVersioned::V1(from_stored(s))),
            None => None,
        }
    }

    /// The record of `account_id`, if there is one.
    pub fn get_account(&self, account_id: &String) -> (r: Option<AccountRecord>)
        requires
            self.entry_decodes(account_id@),
        ensures
            r == (if self@.contains_key(account_id@) {
                Some(self@[account_id@])
            } else {
                None
            }),
    {
        match map_get(self, account_id) {
            Some(s) => Some(from_stored(s)),
            None => None,
        }
    }

    /// Whether anything is stored for `account_id`: a record, or bytes that
    /// do not decode.
    pub fn contains_key(&self, account_id: &String) -> (r: bool)
        ensures
            r == (self@.contains_key(account_id@) || undecodable_keys(*self).contains(account_id@)),
            self.entry_decodes(account_id@) ==> r == self@.contains_key(account_id@),
    {
        map_contains(self, account_id)
    }

    /// Stores `record` as the record of `account_id`, whatever was stored
    /// there before.
    pub fn set_account(&mut self, account_id: &String, record: AccountRecord)
        ensures
            final(self)@ == old(self)@.insert(account_id@, record),
            stored_entries(*final(self)) == stored_entries(*old(self)).insert(
                account_id@,
                stored_of_record(record),
            ),
            undecodable_keys(*final(self)) == undecodable_keys(*old(self)).remove(account_id@),
            map_prefix(*final(self)) == map_prefix(*old(self)),
            final(self).entry_decodes(account_id@),
            old(self).decoding_kept(*final(self)),
    {
        let s = to_stored(&record);
        map_set(self, account_id.clone(), Some(s));
        proof {
            assert(self@ =~= old(self)@.insert(account_id@, record));
        }
    }

    /// Removes the record of `account_id` and returns it.
    pub fn remove(&mut self, account_id: &String) -> (r: Option<AccountRecord>)
        requires
            old(self).entry_decodes(account_id@),
        ensures
            final(self)@ == old(self)@.remove(account_id@),
            stored_entries(*final(self)) == stored_entries(*old(self)).remove(account_id@),
            undecodable_keys(*final(self)) == undecodable_keys(*old(self)),
            map_prefix(*final(self)) == map_prefix(*old(self)),
            final(self).entry_decodes(account_id@),
            old(self).decoding_kept(*final(self)),
            r == (if old(self)@.contains_key(account_id@) {
                Some(old(self)@[account_id@])
            } else {
                None
            }),
    {
        let previous = self.get_account(account_id);
        map_set(self, account_id.clone(), None);
        proof {
            assert(self@ =~= old(self)@.remove(account_id@));
            assert(undecodable_keys(*self) =~= undecodable_keys(*old(self)));
        }
        previous
    }

    /// The record of `account_id`, created as a fresh record at `now` when
    /// the account has none.
    pub fn get_or_insert_account(&mut self, account_id: &String, now: UnixTimestamp) -> (r: AccountRecord)
        requires
            old(self).entry_decodes(account_id@),
        ensures
            final(self)@ == with_account(old(self)@, account_id@, now),
            stored_entries(*final(self)) == (if stored_entries(*old(self)).contains_key(account_id@) {
                stored_entries(*old(self))
            } else {
                stored_entries(*old(self)).insert(account_id@, stored_of_record(fresh_record(now)))
            }),
            undecodable_keys(*final(self)) == undecodable_keys(*old(self)),
            r == final(self)@[account_id@],
            map_prefix(*final(self)) == map_prefix(*old(self)),
            final(self).entry_decodes(account_id@),
            old(self).decoding_kept(*final(self)),
    {
        match map_get(self, account_id) {
            Some(s) => from_stored(s),
            None => {
                let record = AccountRecord::new(now);
                self.set_account(account_id, record);
                proof {
                    assert(undecodable_keys(*self) =~= undecodable_keys(*old(self)));
                }
                record
            },
        }
    }
}

} // verus!
