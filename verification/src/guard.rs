//! The set of accounts whose check-in is in progress: one check-in per account
//! at a time.

use vstd::prelude::*;
use crate::json::{as_text, field, Json, JsonV};
use crate::text::text_eq;

verus! {

/// Keys of the accounts whose check-in is in progress.
pub struct RunningAccounts {
    keys: Vec<String>,
}

/// The texts of a list of keys.
pub open spec fn key_texts(keys: Seq<String>) -> Seq<Seq<char>> {
    keys.map_values(|k: String| k@)
}

impl RunningAccounts {
    /// The keys held, as a set.
    pub closed spec fn view(&self) -> Set<Seq<char>> {
        key_texts(self.keys@).to_set()
    }

    /// No key is held twice.
    #[verifier::type_invariant]
    closed spec fn distinct_keys(&self) -> bool {
        key_texts(self.keys@).no_duplicates()
    }

    /// No account in progress.
    pub fn new() -> (res: RunningAccounts)
        ensures
            res@ == Set::<Seq<char>>::empty(),
    {
        let res = RunningAccounts { keys: Vec::new() };
        assert(key_texts(res.keys@).to_set() =~= Set::<Seq<char>>::empty());
        res
    }

    fn position(&self, key: &str) -> (res: Option<usize>)
        ensures
            match res {
                Some(i) => i < self.keys@.len() && self.keys@[i as int]@ == key@,
                None => !self@.contains(key@),
            },
    {
        let mut i: usize = 0;
        while i < self.keys.len()
            invariant
                i <= self.keys@.len(),
                forall|j: int| 0 <= j < i ==> self.keys@[j]@ != key@,
            decreases self.keys@.len() - i,
        {
            if text_eq(self.keys[i].as_str(), key) {
                return Some(i);
            }
            i = i + 1;
        }
        proof {
            if key_texts(self.keys@).to_set().contains(key@) {
                let j = choose|j: int| 0 <= j < key_texts(self.keys@).len() && key_texts(self.keys@)[j] == key@;
                assert(self.keys@[j]@ == key@);
            }
        }
        None
    }

    /// Whether an account is in progress.
    pub fn is_running(&self, key: &str) -> (res: bool)
        ensures
            res == self@.contains(key@),
    {
        match self.position(key) {
            Some(i) => {
                assert(key_texts(self.keys@)[i as int] == key@);
                true
            },
            None => false,
        }
    }

    /// Marks an account as in progress; false, with nothing changed, when it
    /// already was.
    pub fn try_acquire(&mut self, key: &str) -> (res: bool)
        ensures
            res == !old(self)@.contains(key@),
            final(self)@ == old(self)@.insert(key@),
    {
        proof {
            use_type_invariant(&*self);
        }
        match self.position(key) {
            Some(i) => {
                assert(key_texts(self.keys@)[i as int] == key@);
                assert(self@.insert(key@) =~= self@);
                false
            },
            None => {
                let ghost before = self.keys@;
                let mut keys: Vec<String> = Vec::new();
                std::mem::swap(&mut keys, &mut self.keys);
                keys.push(key.to_owned());
                assert(key_texts(keys@) =~= key_texts(before).push(key@));
                proof {
                    assert(key_texts(keys@).to_set() =~= key_texts(before).to_set().insert(key@)) by {
                        vstd::seq_lib::lemma_seq_contains_after_push(key_texts(before), key@, key@);
                        assert forall|k: Seq<char>| key_texts(keys@).to_set().contains(k) <==> key_texts(before).to_set().insert(key@).contains(k) by {
                            if key_texts(keys@).contains(k) && k != key@ {
                                let j = choose|j: int| 0 <= j < key_texts(keys@).len() && key_texts(keys@)[j] == k;
                                assert(key_texts(before)[j] == k);
                            }
                            if key_texts(before).contains(k) {
                                let j = choose|j: int| 0 <= j < key_texts(before).len() && key_texts(before)[j] == k;
                                assert(key_texts(keys@)[j] == k);
                            }
                            if k == key@ {
                                assert(key_texts(keys@)[before.len() as int] == k);
                            }
                        }
                    }
                    assert(key_texts(keys@).no_duplicates()) by {
                        assert forall|a: int, b: int| 0 <= a < b < key_texts(keys@).len() implies key_texts(keys@)[a] != key_texts(keys@)[b] by {
                            if b == before.len() {
                                assert(key_texts(before)[a] == key_texts(keys@)[a]);
                                assert(key_texts(before).contains(key_texts(before)[a]));
                            }
                        }
                    }
                }
                self.keys = keys;
                true
            },
        }
    }

    /// Marks an account as no longer in progress.
    pub fn release(&mut self, key: &str)
        ensures
            final(self)@ == old(self)@.remove(key@),
    {
        proof {
            use_type_invariant(&*self);
        }
        match self.position(key) {
            Some(i) => {
                let ghost before = self.keys@;
                let mut keys: Vec<String> = Vec::new();
                std::mem::swap(&mut keys, &mut self.keys);
                keys.remove(i);
                proof {
                    assert(key_texts(keys@) =~= key_texts(before).remove(i as int));
                    assert(key_texts(keys@).no_duplicates()) by {
                        assert forall|a: int, b: int| 0 <= a < b < key_texts(keys@).len() implies key_texts(keys@)[a] != key_texts(keys@)[b] by {
                            let a2 = if a < i { a } else { a + 1 };
                            let b2 = if b < i { b } else { b + 1 };
                            assert(key_texts(keys@)[a] == key_texts(before)[a2]);
                            assert(key_texts(keys@)[b] == key_texts(before)[b2]);
                        }
                    }
                    assert forall|k: Seq<char>| key_texts(keys@).to_set().contains(k) <==> key_texts(before).to_set().remove(key@).contains(k) by {
                        if key_texts(keys@).contains(k) {
                            let j = choose|j: int| 0 <= j < key_texts(keys@).len() && key_texts(keys@)[j] == k;
                            let j2 = if j < i { j } else { j + 1 };
                            assert(key_texts(before)[j2] == k);
                            assert(key_texts(before)[i as int] == key@);
                        }
                        if key_texts(before).contains(k) && k != key@ {
                            let j = choose|j: int| 0 <= j < key_texts(before).len() && key_texts(before)[j] == k;
                            assert(j != i);
                            let j2 = if j < i { j } else { j - 1 };
                            assert(key_texts(keys@)[j2] == k);
                        }
                    }
                    assert(key_texts(keys@).to_set() =~= key_texts(before).to_set().remove(key@));
                }
                self.keys = keys;
            },
            None => {
                assert(self@.remove(key@) =~= self@);
            },
        }
    }
}

/// The key under which an account's check-in is guarded: its `id` when that
/// is a non-empty text, else its display name.
pub open spec fn guard_key_of(account: JsonV, display_name: Seq<char>) -> Seq<char> {
    match as_text(field(account, "id"@)) {
        Some(id) => if id.len() > 0 {
            id
        } else {
            display_name
        },
        None => display_name,
    }
}

/// The key under which an account's check-in is guarded.
pub fn guard_key(account: &Json, display_name: &str) -> (res: String)
    ensures
        res@ == guard_key_of(account@, display_name@),
{
    match account.get("id") {
        Some(v) => match v.as_str() {
            Some(id) => if id.unicode_len() > 0 {
                id.to_owned()
            } else {
                display_name.to_owned()
            },
            None => display_name.to_owned(),
        },
        None => display_name.to_owned(),
    }
}

} // verus!
