use vstd::prelude::*;

verus! {

/// The outcomes that simulated outside calls report, by name. A name that
/// was never set reports success.
pub struct TestDataStorage {
    entries: Vec<(String, bool)>,
}

impl TestDataStorage {
    #[verifier::type_invariant]
    spec fn names_unique(self) -> bool {
        forall|i: int, j: int|
            0 <= i < j < self.entries@.len() ==> #[trigger] self.entries@[i].0@ != #[trigger] self.entries@[j].0@
    }

    /// Whether `name` has an outcome set.
    pub closed spec fn has(self, name: Seq<char>) -> bool {
        exists|i: int| 0 <= i < self.entries@.len() && #[trigger] self.entries@[i].0@ == name
    }

    /// The outcome set for `name`.
    pub closed spec fn value_of(self, name: Seq<char>) -> bool {
        self.entries@[choose|i: int| 0 <= i < self.entries@.len() && #[trigger] self.entries@[i].0@ == name].1
    }
}

impl View for TestDataStorage {
    type V = Map<Seq<char>, bool>;

    open spec fn view(&self) -> Map<Seq<char>, bool> {
        Map::new(|name: Seq<char>| self.has(name), |name: Seq<char>| self.value_of(name))
    }
}

/// The outcome reported for `name`: the one set, or success.
pub open spec fn outcome(m: Map<Seq<char>, bool>, name: Seq<char>) -> bool {
    if m.contains_key(name) {
        m[name]
    } else {
        true
    }
}

/// A storage with no outcome set.
pub fn data() -> (r: TestDataStorage)
    ensures
        r@ == Map::<Seq<char>, bool>::empty(),
{
    let r = TestDataStorage { entries: Vec::new() };
    proof {
        assert(r@ =~= Map::<Seq<char>, bool>::empty());
    }
    r
}

fn find(storage: &TestDataStorage, name: &String) -> (r: Option<usize>)
    ensures
        r matches Some(i) ==> i < storage.entries@.len() && storage.entries@[i as int].0@ == name@,
        r is None ==> forall|i: int| 0 <= i < storage.entries@.len() ==> storage.entries@[i].0@ != name@,
{
    let mut i: usize = 0;
    while i < storage.entries.len()
        invariant
            0 <= i <= storage.entries@.len(),
            forall|j: int| 0 <= j < i ==> storage.entries@[j].0@ != name@,
        decreases storage.entries@.len() - i,
    {
        if storage.entries[i].0 == *name {
            return Some(i);
        }
        i = i + 1;
    }
    None
}

/// Sets the outcome reported for `name`.
pub fn set_test_future_success(storage: &mut TestDataStorage, name: &str, success: bool)
    ensures
        final(storage)@ == old(storage)@.insert(name@, success),
{
    proof {
        use_type_invariant(&*storage);
    }
    let key = name.to_owned();
    let ghost before = storage.entries@;
    match find(storage, &key) {
        Some(i) => {
            let mut entries: Vec<(String, bool)> = Vec::new();
            std::mem::swap(&mut entries, &mut storage.entries);
            entries.set(i, (key, success));
            proof {
                assert forall|a: int, b: int|
                    0 <= a < b < entries@.len() implies #[trigger] entries@[a].0@ != #[trigger] entries@[b].0@ by {
                    // The entry at `i` keeps its name, so the names stay as unique as before.
                    assert(before[a].0@ != before[b].0@);
                }
            }
            storage.entries = entries;
            proof {
                assert forall|n: Seq<char>| #[trigger] storage@.contains_key(n) == old(storage)@.insert(name@, success).contains_key(n) by {
                    if n != name@ && old(storage).has(n) {
                        let k = choose|k: int| 0 <= k < before.len() && #[trigger] before[k].0@ == n;
                        assert(storage.entries@[k].0@ == n);
                    }
                    if n == name@ {
                        assert(storage.entries@[i as int].0@ == n);
                    }
                    if storage.has(n) {
                        let k = choose|k: int| 0 <= k < storage.entries@.len() && #[trigger] storage.entries@[k].0@ == n;
                        if k != i {
                            assert(before[k].0@ == n);
                        }
                    }
                }
                assert forall|n: Seq<char>| #[trigger] storage@.contains_key(n) implies storage@[n] == old(storage)@.insert(name@, success)[n] by {
                    let k = choose|k: int| 0 <= k < storage.entries@.len() && #[trigger] storage.entries@[k].0@ == n;
                    if k == i {
                        assert(n == name@);
                    } else {
                        assert(before[k].0@ == n);
                        assert(old(storage).has(n));
                        let k2 = choose|k2: int| 0 <= k2 < before.len() && #[trigger] before[k2].0@ == n;
                        assert(k2 == k);
                    }
                }
                assert(storage@ =~= old(storage)@.insert(name@, success));
            }
        },
        None => {
            let mut entries: Vec<(String, bool)> = Vec::new();
            std::mem::swap(&mut entries, &mut storage.entries);
            entries.push((key, success));
            proof {
                assert forall|a: int, b: int|
                    0 <= a < b < entries@.len() implies #[trigger] entries@[a].0@ != #[trigger] entries@[b].0@ by {
                    if b < before.len() {
                        assert(before[a].0@ != before[b].0@);
                    }
                }
            }
            storage.entries = entries;
            proof {
                assert forall|n: Seq<char>| #[trigger] storage@.contains_key(n) == old(storage)@.insert(name@, success).contains_key(n) by {
                    if n != name@ && old(storage).has(n) {
                        let k = choose|k: int| 0 <= k < before.len() && #[trigger] before[k].0@ == n;
                        assert(storage.entries@[k].0@ == n);
                    }
                    if n == name@ {
                        assert(storage.entries@[before.len() as int].0@ == n);
                    }
                    if storage.has(n) && n != name@ {
                        let k = choose|k: int| 0 <= k < storage.entries@.len() && #[trigger] storage.entries@[k].0@ == n;
                        assert(before[k].0@ == n);
                    }
                }
                assert forall|n: Seq<char>| #[trigger] storage@.contains_key(n) implies storage@[n] == old(storage)@.insert(name@, success)[n] by {
                    let k = choose|k: int| 0 <= k < storage.entries@.len() && #[trigger] storage.entries@[k].0@ == n;
                    if k == before.len() {
                        assert(n == name@);
                    } else {
                        assert(before[k].0@ == n);
                        assert(old(storage).has(n));
                        let k2 = choose|k2: int| 0 <= k2 < before.len() && #[trigger] before[k2].0@ == n;
                        assert(k2 == k);
                    }
                }
                assert(storage@ =~= old(storage)@.insert(name@, success));
            }
        },
    }
}

/// The outcome reported for `name`.
pub fn get_test_future_success(storage: &TestDataStorage, name: &str) -> (r: bool)
    ensures
        r == outcome(storage@, name@),
{
    proof {
        use_type_invariant(storage);
    }
    let key = name.to_owned();
    match find(storage, &key) {
        Some(i) => {
            proof {
                assert(storage.has(name@));
                let k = choose|k: int| 0 <= k < storage.entries@.len() && #[trigger] storage.entries@[k].0@ == name@;
                assert(k == i);
            }
            storage.entries[i].1
        },
        None => true,
    }
}

} // verus!
