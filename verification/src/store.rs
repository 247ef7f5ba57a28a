//! The flat backing store: raw get/set of byte blobs by slot key.
//!
//! One slot holds at most one encoded blob. The store itself knows nothing of
//! types, footprints or laziness; everything above it is addressing and
//! decoding discipline.

use std::collections::HashMap;
use vstd::prelude::*;

use crate::key::Key;

verus! {

broadcast use vstd::std_specs::hash::group_hash_axioms;

/// A flat key-value store of encoded byte blobs, one blob per slot.
/// Viewed as a map from slot index to the bytes stored there.
#[derive(Debug)]
pub struct Store {
    slots: HashMap<u64, Vec<u8>>,
}

impl View for Store {
    type V = Map<u64, Seq<u8>>;

    closed spec fn view(&self) -> Map<u64, Seq<u8>> {
        self.slots@.map_values(|v: Vec<u8>| v@)
    }
}

impl Store {
    /// An empty store: no slot holds any data.
    pub fn new() -> (r: Store)
        ensures
            r@ == Map::<u64, Seq<u8>>::empty(),
    {
        let slots: HashMap<u64, Vec<u8>> = HashMap::new();
        let r = Store { slots };
        proof {
            assert(r@ =~= Map::<u64, Seq<u8>>::empty());
        }
        r
    }

    /// The bytes stored at `key`, or nothing when the slot was never written.
    pub fn get(&self, key: &Key) -> (r: Option<&Vec<u8>>)
        ensures
            match r {
                Some(v) => self@.contains_key(key.index) && v@ == self@[key.index],
                None => !self@.contains_key(key.index),
            },
    {
        let r = self.slots.get(&key.index);
        proof {
            assert(self.slots@.contains_key(key.index) == self@.contains_key(key.index));
        }
        r
    }

    /// Write `value` to the slot named by `key`, replacing whatever was there.
    pub fn set(&mut self, key: Key, value: Vec<u8>)
        ensures
            final(self)@ == old(self)@.insert(key.index, value@),
    {
        let ghost old_view = self@;
        self.slots.insert(key.index, value);
        proof {
            assert(self@ =~= old_view.insert(key.index, value@));
        }
    }
}

} // verus!
