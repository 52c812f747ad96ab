//! A small table keyed by user identifier.

use vstd::prelude::*;

verus! {

/// Whether no two of `keys` spell the same text.
pub open spec fn distinct(keys: Seq<String>) -> bool {
    forall|i: int, j: int| 0 <= i < j < keys.len() ==> keys[i]@ != keys[j]@
}

/// Whether one of `keys` spells `k`.
pub open spec fn has_key(keys: Seq<String>, k: Seq<char>) -> bool {
    exists|i: int| 0 <= i < keys.len() && #[trigger] keys[i]@ == k
}

/// A place at which `keys` spells `k`.
pub open spec fn index_of(keys: Seq<String>, k: Seq<char>) -> int {
    choose|i: int| 0 <= i < keys.len() && #[trigger] keys[i]@ == k
}

/// The texts that `keys` spell.
pub open spec fn key_set(keys: Seq<String>) -> Set<Seq<char>>
    decreases keys.len(),
{
    if keys.len() == 0 {
        Set::empty()
    } else {
        key_set(keys.drop_last()).insert(keys.last()@)
    }
}

/// The texts that `keys` spell are finitely many, they are the ones that
/// `has_key` finds, and where no two keys spell the same text there are as
/// many of them as there are keys.
proof fn lemma_key_set(keys: Seq<String>)
    ensures
        key_set(keys).finite(),
        forall|k: Seq<char>| key_set(keys).contains(k) <==> has_key(keys, k),
        distinct(keys) ==> key_set(keys).len() == keys.len(),
    decreases keys.len(),
{
    if keys.len() > 0 {
        let front = keys.drop_last();
        lemma_key_set(front);
        assert forall|k: Seq<char>| key_set(keys).contains(k) <==> has_key(keys, k) by {
            assert(key_set(keys) == key_set(front).insert(keys.last()@));
            if has_key(keys, k) {
                let i = index_of(keys, k);
                if i < keys.len() - 1 {
                    assert(front[i]@ == k);
                    assert(has_key(front, k));
                    assert(key_set(front).contains(k));
                } else {
                    assert(k == keys.last()@);
                }
                assert(key_set(keys).contains(k));
            }
            if key_set(keys).contains(k) {
                if k == keys.last()@ {
                    assert(keys[keys.len() - 1]@ == k);
                } else {
                    assert(key_set(front).contains(k));
                    assert(has_key(front, k));
                    let i = index_of(front, k);
                    assert(keys[i]@ == k);
                }
            }
        }
        assert(key_set(keys) == key_set(front).insert(keys.last()@));
        if distinct(keys) {
            if has_key(front, keys.last()@) {
                let i = index_of(front, keys.last()@);
                assert(keys[i]@ == keys[keys.len() - 1]@);
            }
        }
    }
}

/// A finite map from user identifiers to values of type `V`.
pub struct UserTable<V> {
    keys: Vec<String>,
    values: Vec<V>,
}

impl<V> View for UserTable<V> {
    type V = Map<Seq<char>, V>;

    closed spec fn view(&self) -> Map<Seq<char>, V> {
        Map::new(
            |k: Seq<char>| has_key(self.keys@, k),
            |k: Seq<char>| self.values@[index_of(self.keys@, k)],
        )
    }
}

impl<V> UserTable<V> {
    #[verifier::type_invariant]
    spec fn well_formed(&self) -> bool {
        &&& self.keys.len() == self.values.len()
        &&& distinct(self.keys@)
    }

    /// The empty table.
    pub fn new() -> (t: Self)
        ensures
            t@ == Map::<Seq<char>, V>::empty(),
    {
        let t = UserTable { keys: Vec::new(), values: Vec::new() };
        assert(t@ =~= Map::<Seq<char>, V>::empty());
        t
    }

    fn position(&self, key: &str) -> (r: Option<usize>)
        ensures
            match r {
                Some(i) => i < self.keys.len() && self.keys[i as int]@ == key@,
                None => !has_key(self.keys@, key@),
            },
    {
        let mut i: usize = 0;
        while i < self.keys.len()
            invariant
                i <= self.keys.len(),
                forall|j: int| 0 <= j < i ==> self.keys[j]@ != key@,
            decreases self.keys.len() - i,
        {
            if same_text(self.keys[i].as_str(), key) {
                return Some(i);
            }
            i += 1;
        }
        None
    }

    /// The value stored for `key`, if there is one.
    pub fn get(&self, key: &str) -> (r: Option<&V>)
        ensures
            match r {
                Some(v) => self@.contains_key(key@) && self@[key@] == *v,
                None => !self@.contains_key(key@),
            },
    {
        proof {
            use_type_invariant(self);
        }
        match self.position(key) {
            Some(i) => {
                assert(self.keys[i as int]@ == key@);
                assert(index_of(self.keys@, key@) == i);
                Some(&self.values[i])
            },
            None => None,
        }
    }

    /// Stores `value` for `key`, in place of what was stored for it before.
    pub fn insert(&mut self, key: String, value: V)
        ensures
            final(self)@ == old(self)@.insert(key@, value),
    {
        proof {
            use_type_invariant(&*self);
        }
        let found: Option<usize> = self.position(key.as_str());
        let mut taken: UserTable<V> = UserTable::new();
        core::mem::swap(self, &mut taken);
        let UserTable { keys, values } = taken;
        let mut keys: Vec<String> = keys;
        let mut values: Vec<V> = values;
        let ghost before: Seq<String> = keys@;
        match found {
            Some(i) => {
                values.set(i, value);
            },
            None => {
                keys.push(key);
                values.push(value);
                assert(keys@[before.len() as int]@ == key@);
            },
        }
        *self = UserTable { keys, values };
        proof {
            assert forall|k: Seq<char>| has_key(self.keys@, k) <==> (k == key@ || has_key(
                before,
                k,
            )) by {
                if has_key(before, k) {
                    let j = index_of(before, k);
                    assert(self.keys@[j]@ == k);
                }
                if has_key(self.keys@, k) {
                    let j = index_of(self.keys@, k);
                    if j < before.len() {
                        assert(before[j]@ == k);
                    }
                }
                if k == key@ {
                    match found {
                        Some(i) => {
                            assert(self.keys@[i as int]@ == k);
                        },
                        None => {
                            assert(self.keys@[before.len() as int]@ == k);
                        },
                    }
                }
            }
            assert forall|k: Seq<char>| has_key(self.keys@, k) implies #[trigger] self.values@[index_of(
                self.keys@,
                k,
            )] == old(self)@.insert(key@, value)[k] by {
                let j = index_of(self.keys@, k);
                if k == key@ {
                    match found {
                        Some(i) => {
                            assert(j == i);
                        },
                        None => {
                            assert(j == before.len());
                        },
                    }
                } else {
                    assert(before[j]@ == k);
                    assert(index_of(before, k) == j);
                }
            }
            assert(self@ =~= old(self)@.insert(key@, value));
        }
    }

    /// Takes out the value that is stored for `key`, if there is one.
    pub fn remove(&mut self, key: &str) -> (r: Option<V>)
        ensures
            final(self)@ == old(self)@.remove(key@),
            match r {
                Some(v) => old(self)@.contains_key(key@) && old(self)@[key@] == v,
                None => !old(self)@.contains_key(key@),
            },
    {
        proof {
            use_type_invariant(&*self);
        }
        let found: Option<usize> = self.position(key);
        match found {
            None => {
                assert(self@ =~= old(self)@.remove(key@));
                None
            },
            Some(i) => {
                let mut taken: UserTable<V> = UserTable::new();
                core::mem::swap(self, &mut taken);
                let UserTable { keys, values } = taken;
                let mut keys: Vec<String> = keys;
                let mut values: Vec<V> = values;
                let ghost before: Seq<String> = keys@;
                let ghost stored: Seq<V> = values@;
                assert(index_of(before, key@) == i);
                keys.remove(i);
                let value: V = values.remove(i);
                proof {
                    assert forall|a: int, b: int| 0 <= a < b < keys@.len() implies keys@[a]@
                        != keys@[b]@ by {
                        let x = if a < i { a } else { a + 1 };
                        let y = if b < i { b } else { b + 1 };
                        assert(before[x]@ != before[y]@);
                    }
                }
                *self = UserTable { keys, values };
                proof {
                    assert forall|k: Seq<char>| has_key(self.keys@, k) <==> (k != key@ && has_key(
                        before,
                        k,
                    )) by {
                        if has_key(self.keys@, k) {
                            let j = index_of(self.keys@, k);
                            let x = if j < i { j } else { j + 1 };
                            assert(before[x]@ == k);
                            if k == key@ {
                                assert(x == i);
                            }
                        }
                        if k != key@ && has_key(before, k) {
                            let x = index_of(before, k);
                            let j = if x < i { x } else { x - 1 };
                            assert(self.keys@[j]@ == k);
                        }
                    }
                    assert forall|k: Seq<char>| has_key(self.keys@, k) implies #[trigger] self.values@[index_of(
                        self.keys@,
                        k,
                    )] == old(self)@[k] by {
                        let j = index_of(self.keys@, k);
                        let x = if j < i { j } else { j + 1 };
                        assert(before[x]@ == k);
                        assert(index_of(before, k) == x);
                    }
                    assert(self@ =~= old(self)@.remove(key@));
                }
                Some(value)
            },
        }
    }

    /// The users that have a value, each once.
    pub fn keys(&self) -> (r: Vec<String>)
        ensures
            distinct(r@),
            forall|k: Seq<char>| has_key(r@, k) <==> self@.contains_key(k),
    {
        proof {
            use_type_invariant(self);
        }
        let mut r: Vec<String> = Vec::new();
        let mut i: usize = 0;
        while i < self.keys.len()
            invariant
                i <= self.keys.len(),
                r.len() == i,
                forall|j: int| 0 <= j < i ==> r[j] == self.keys[j],
            decreases self.keys.len() - i,
        {
            r.push(self.keys[i].clone());
            i += 1;
        }
        assert(r@ =~= self.keys@);
        r
    }

    /// The number of users that have a value.
    pub fn len(&self) -> (n: usize)
        ensures
            self@.dom().finite(),
            n == self@.dom().len(),
    {
        proof {
            use_type_invariant(self);
            lemma_key_set(self.keys@);
            assert(self@.dom() =~= key_set(self.keys@));
        }
        self.keys.len()
    }
}

/// Whether two texts are the same, character by character.
pub fn same_text(a: &str, b: &str) -> (r: bool)
    ensures
        r == (a@ == b@),
{
    let x: String = String::from_str(a);
    let y: String = String::from_str(b);
    x == y
}

} // verus!
