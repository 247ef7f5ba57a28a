//! The footprint contract and the serialize/deserialize-at-cursor protocol.
//!
//! A type declares how many slots it occupies (`StorageSize`), how it
//! reconstructs a value by reading at a cursor (`PullForward`), and how it
//! writes a value at a cursor (`PushForward`). Both directions advance the
//! cursor by the declared footprint alone, never by the bytes actually
//! moved: that rule is what lets a cursor skip an unread field and still
//! land on the next one.

use vstd::prelude::*;

use crate::key::Key;
use crate::key::KeyPtr;
use crate::key::agree_on_span;
use crate::key::agree_outside_span;
use crate::store::Store;

verus! {

/// Why a value could not be produced.
#[derive(Clone, Copy, PartialEq, Eq, Structural, Debug)]
pub enum Error {
    /// The bytes found at a slot do not decode to a value of the expected
    /// type, or the slot holds no data at all.
    Decode,
    /// A declared lazy field could not be materialized: with a valid address
    /// a value is always expected, so absence signals a broken invariant
    /// elsewhere, not a recoverable condition.
    Absent,
}

/// The footprint contract: a constant count of slots per type, attached to
/// the type and never to an instance, so a cursor can skip a value without
/// decoding it.
pub trait StorageSize {
    /// Declared number of slots a value of this type occupies. For a
    /// composite this is the sum of the member footprints, wrapped at the
    /// identifier width.
    spec fn footprint_spec() -> u64;

    /// Whether the declared footprint is the exact member sum at every
    /// level, with no wrap anywhere. Every scalar layout is well formed; a
    /// composite layout is well formed when its members are and their
    /// footprints sum without wrapping.
    spec fn layout_wf() -> bool;

    /// The declared footprint, as executable code sees it.
    fn footprint() -> (n: u64)
        ensures
            n == Self::footprint_spec(),
    ;
}

/// Deserialize-at-cursor: reconstruct a value by reading from the store at
/// the cursor's key, advancing the cursor by the type's footprint.
pub trait PullForward: StorageSize + Sized {
    /// The value this type reconstructs from a snapshot of the store when
    /// read starting at `at`; `None` when no valid value can be decoded
    /// there (data corrupt or absent).
    spec fn loads_from(store: Map<u64, Seq<u8>>, at: Key) -> Option<Self>;

    /// What a type loads depends only on the slots of its own footprint
    /// span: two stores that agree there load the same value.
    proof fn lemma_loads_local(store1: Map<u64, Seq<u8>>, store2: Map<u64, Seq<u8>>, at: Key)
        requires
            Self::layout_wf(),
            agree_on_span(store1, store2, at, Self::footprint_spec()),
        ensures
            Self::loads_from(store1, at) == Self::loads_from(store2, at),
    ;

    /// Read a value of this type from the store at the cursor, advancing
    /// the cursor by the declared footprint whether or not the decode
    /// succeeds. The decode never partially succeeds: it either yields
    /// exactly the value the store snapshot determines, or fails outright
    /// with a `Decode` error and no other observable effect.
    fn pull_forward(store: &Store, ptr: &mut KeyPtr) -> (r: Result<Self, Error>)
        ensures
            final(ptr).key == old(ptr).key.advanced_spec(Self::footprint_spec()),
            match r {
                Ok(v) => Self::loads_from(store@, old(ptr).key) == Some(v),
                Err(e) => Self::loads_from(store@, old(ptr).key) is None && e == Error::Decode,
            },
    ;
}

/// Serialize-at-cursor: encode a value and write it to the store at the
/// cursor's key, advancing the cursor by the type's footprint.
pub trait PushForward: StorageSize {
    /// The store as it stands after this value is written starting at `at`.
    spec fn stores_to(&self, store: Map<u64, Seq<u8>>, at: Key) -> Map<u64, Seq<u8>>;

    /// Writing a value touches only the slots of its own footprint span;
    /// everything outside is left exactly as it was.
    proof fn lemma_stores_frame(&self, store: Map<u64, Seq<u8>>, at: Key)
        requires
            Self::layout_wf(),
        ensures
            agree_outside_span(store, self.stores_to(store, at), at, Self::footprint_spec()),
    ;

    /// Write this value to the store at the cursor, advancing the cursor by
    /// the declared footprint. The store write is the only side effect.
    fn push_forward(&self, store: &mut Store, ptr: &mut KeyPtr)
        ensures
            final(ptr).key == old(ptr).key.advanced_spec(Self::footprint_spec()),
            final(store)@ == self.stores_to(old(store)@, old(ptr).key),
    ;
}

/// A type whose two directions are mutually inverse: pulling at the key a
/// value was just pushed to yields that value back.
pub trait StorageValue: PullForward + PushForward {
    /// Reloading what was flushed yields the same value.
    proof fn lemma_push_then_pull(&self, store: Map<u64, Seq<u8>>, at: Key)
        requires
            Self::layout_wf(),
        ensures
            Self::loads_from(self.stores_to(store, at), at) == Some(*self),
    ;
}

} // verus!
