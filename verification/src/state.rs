//! Contract storage as seen by the precompile state machines.
//!
//! A `PachiState` is a map from `(contract address, slot)` to a word; slots
//! never written read as zero. The EVM bridge and the storage-provider bridge
//! implement it outside this crate; `MockState` is an in-memory store.

use vstd::prelude::*;

use crate::word::{Address, U256, lemma_array_eq};

verus! {

/// The storage map of a state.
pub type StorageMap = Map<(Address, U256), U256>;

/// The word a storage map holds at `(address, slot)`: zero when never written.
pub open spec fn storage_read(m: StorageMap, address: Address, slot: U256) -> U256 {
    if m.contains_key((address, slot)) {
        m[(address, slot)]
    } else {
        U256 { l0: 0, l1: 0, l2: 0, l3: 0 }
    }
}

/// Abstraction over EVM account storage for precompile state access.
pub trait PachiState {
    /// The current contents of storage.
    spec fn storage(&self) -> StorageMap;

    /// Reads a storage slot of a contract address.
    fn get_storage(&self, address: Address, slot: U256) -> (r: U256)
        ensures
            r == storage_read(self.storage(), address, slot),
    ;

    /// Writes a storage slot of a contract address.
    fn set_storage(&mut self, address: Address, slot: U256, value: U256)
        ensures
            final(self).storage() == old(self).storage().insert((address, slot), value),
    ;
}

/// The value of the last write to `key` in a write log, if any.
pub open spec fn log_lookup(log: Seq<(Address, U256, U256)>, key: (Address, U256)) -> Option<U256>
    decreases log.len(),
{
    if log.len() == 0 {
        None
    } else if (log.last().0, log.last().1) == key {
        Some(log.last().2)
    } else {
        log_lookup(log.drop_last(), key)
    }
}

/// The storage map a write log denotes: every key maps to its last written value.
pub open spec fn log_map(log: Seq<(Address, U256, U256)>) -> StorageMap {
    Map::new(|k: (Address, U256)| log_lookup(log, k) is Some, |k: (Address, U256)| log_lookup(log, k)->0)
}

/// Simple in-memory state: a log of writes, the last write to a slot winning.
#[derive(Debug)]
pub struct MockState {
    writes: Vec<(Address, U256, U256)>,
}

impl MockState {
    /// Creates a new empty state.
    pub fn new() -> (r: MockState)
        ensures
            r.storage() == Map::<(Address, U256), U256>::empty(),
    {
        let r = MockState { writes: Vec::new() };
        assert(r.storage() =~= Map::<(Address, U256), U256>::empty());
        r
    }
}

impl PachiState for MockState {
    closed spec fn storage(&self) -> StorageMap {
        log_map(self.writes@)
    }

    fn get_storage(&self, address: Address, slot: U256) -> (r: U256) {
        let mut i = self.writes.len();
        assert(self.writes@.subrange(0, i as int) =~= self.writes@);
        while i > 0
            invariant
                i <= self.writes@.len(),
                log_lookup(self.writes@, (address, slot)) == log_lookup(
                    self.writes@.subrange(0, i as int),
                    (address, slot),
                ),
            decreases i,
        {
            let e = self.writes[i - 1];
            let ghost prefix = self.writes@.subrange(0, i as int);
            assert(prefix.drop_last() =~= self.writes@.subrange(0, i - 1));
            if e.0 == address && e.1 == slot {
                proof {
                    lemma_array_eq(e.0.bytes, address.bytes);
                }
                return e.2;
            }
            i -= 1;
        }
        U256 { l0: 0, l1: 0, l2: 0, l3: 0 }
    }

    fn set_storage(&mut self, address: Address, slot: U256, value: U256) {
        let ghost before = self.writes@;
        self.writes.push((address, slot, value));
        proof {
            assert(self.writes@.drop_last() =~= before);
            assert(log_map(self.writes@) =~= log_map(before).insert((address, slot), value));
        }
    }
}

} // verus!
