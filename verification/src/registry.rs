//! The whitelist itself: the set of call hashes that may be dispatched.

use vstd::prelude::*;
use crate::hash::CallHash;
use crate::types::Error;

verus! {

/// The set of whitelisted call hashes.
///
/// An entry is a bare mark: a hash is whitelisted exactly when it is in the
/// set. Each hash is kept once, however often it was whitelisted.
pub struct WhitelistRegistry {
    entries: Vec<CallHash>,
}

impl View for WhitelistRegistry {
    type V = Set<CallHash>;

    closed spec fn view(&self) -> Set<CallHash> {
        self.entries@.to_set()
    }
}

impl WhitelistRegistry {
    #[verifier::type_invariant]
    spec fn each_once(self) -> bool {
        self.entries@.no_duplicates()
    }

    /// The empty whitelist.
    pub fn new() -> (registry: Self)
        ensures
            registry@ == Set::<CallHash>::empty(),
    {
        let registry = WhitelistRegistry { entries: Vec::new() };
        assert(registry.entries@.to_set() =~= Set::<CallHash>::empty());
        registry
    }

    /// Where `call_hash` stands among the entries, if it does.
    fn position(&self, call_hash: &CallHash) -> (at: Option<usize>)
        ensures
            match at {
                Some(i) => i < self.entries@.len() && self.entries@[i as int] == *call_hash,
                None => !self.entries@.contains(*call_hash),
            },
    {
        let mut i: usize = 0;
        while i < self.entries.len()
            invariant
                i <= self.entries@.len(),
                forall|j: int| 0 <= j < i ==> self.entries@[j] != *call_hash,
            decreases self.entries@.len() - i,
        {
            if self.entries[i] == *call_hash {
                return Some(i);
            }
            i = i + 1;
        }
        None
    }

    /// How many hashes are whitelisted.
    pub fn len(&self) -> (n: usize)
        ensures
            n == self@.len(),
    {
        proof {
            use_type_invariant(self);
            self.entries@.unique_seq_to_set();
        }
        self.entries.len()
    }

    /// The whitelisted hashes, each once: what has to outlast a restart.
    pub fn hashes(&self) -> (hashes: Vec<CallHash>)
        ensures
            hashes@.no_duplicates(),
            hashes@.to_set() == self@,
    {
        proof {
            use_type_invariant(self);
        }
        let mut hashes: Vec<CallHash> = Vec::new();
        let mut i: usize = 0;
        while i < self.entries.len()
            invariant
                i <= self.entries@.len(),
                hashes@ == self.entries@.take(i as int),
            decreases self.entries@.len() - i,
        {
            hashes.push(self.entries[i]);
            i = i + 1;
            assert(hashes@ =~= self.entries@.take(i as int));
        }
        assert(hashes@ =~= self.entries@);
        hashes
    }

    /// Whether `call_hash` is whitelisted.
    pub fn contains(&self, call_hash: &CallHash) -> (found: bool)
        ensures
            found == self@.contains(*call_hash),
    {
        self.position(call_hash).is_some()
    }

    /// Puts `call_hash` on the whitelist. A hash that is on it already stays
    /// on it, once.
    pub fn whitelist(&mut self, call_hash: CallHash)
        ensures
            final(self)@ == old(self)@.insert(call_hash),
    {
        proof {
            use_type_invariant(&*self);
        }
        if self.position(&call_hash).is_none() {
            let ghost before = self.entries@;
            let mut entries = Vec::new();
            std::mem::swap(&mut entries, &mut self.entries);
            entries.push(call_hash);
            self.entries = entries;
            assert(self.entries@.to_set() =~= before.to_set().insert(call_hash)) by {
                assert forall|h: CallHash| self.entries@.contains(h) <==> (before.contains(h) || h
                    == call_hash) by {
                    if before.contains(h) {
                        let k = choose|k: int| 0 <= k < before.len() && before[k] == h;
                        assert(self.entries@[k] == h);
                    }
                    if h == call_hash {
                        assert(self.entries@[before.len() as int] == h);
                    }
                }
            }
        } else {
            assert(self.entries@.to_set() =~= self.entries@.to_set().insert(call_hash));
        }
    }

    /// Takes `call_hash` off the whitelist, if it is on it, and fails if it
    /// is not. The test and the removal are one step: of two callers only one
    /// gets `Ok`.
    pub fn remove(&mut self, call_hash: &CallHash) -> (result: Result<(), Error>)
        ensures
            final(self)@ == old(self)@.remove(*call_hash),
            result == (if old(self)@.contains(*call_hash) {
                Ok::<(), Error>(())
            } else {
                Err::<(), Error>(Error::CallIsNotWhitelisted)
            }),
    {
        proof {
            use_type_invariant(&*self);
        }
        match self.position(call_hash) {
            Some(i) => {
                let ghost before = self.entries@;
                let mut entries = Vec::new();
                std::mem::swap(&mut entries, &mut self.entries);
                entries.remove(i);
                self.entries = entries;
                assert(self.entries@.to_set() =~= before.to_set().remove(*call_hash)) by {
                    assert forall|h: CallHash| self.entries@.contains(h) <==> (before.contains(h)
                        && h != *call_hash) by {
                        if self.entries@.contains(h) {
                            let k = choose|k: int| 0 <= k < self.entries@.len() && self.entries@[k] == h;
                            if k < i {
                                assert(before[k] == h);
                            } else {
                                assert(before[k + 1] == h);
                            }
                        }
                        if before.contains(h) && h != *call_hash {
                            let k = choose|k: int| 0 <= k < before.len() && before[k] == h;
                            if k < i {
                                assert(self.entries@[k] == h);
                            } else {
                                assert(self.entries@[k - 1] == h);
                            }
                        }
                    }
                }
                Ok(())
            },
            None => {
                assert(self.entries@.to_set() =~= self.entries@.to_set().remove(*call_hash));
                Err(Error::CallIsNotWhitelisted)
            },
        }
    }
}

} // verus!
