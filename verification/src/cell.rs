//! The single-slot cache cell.
//!
//! A cell holds either a resident value, reachable with no store access, or
//! a pending key from which the value will be reconstructed on first
//! access. Those are the only two states, by construction; once a cell has
//! materialized it stays resident for the rest of its life. There is no
//! dirty tracking: the cell always reflects its last written in-memory
//! state, and a flush pushes whatever is resident at that moment.

use vstd::prelude::*;

use crate::key::Key;
use crate::key::KeyPtr;
use crate::protocol::Error;
use crate::protocol::PullForward;
use crate::protocol::PushForward;
use crate::protocol::StorageSize;
use crate::protocol::StorageValue;
use crate::store::Store;

verus! {

/// A single-slot cache: a resident value, or a pending key and no value yet.
#[derive(Debug)]
pub enum LazyCell<T> {
    /// The value is in memory; reading it takes no store access.
    Resident(T),
    /// Only the address is known; the first read will load from the store.
    Pending(Key),
}

impl<T> LazyCell<T> {
    /// An eagerly populated cell. No store access, now or on any read.
    pub fn new_resident(value: T) -> (r: LazyCell<T>)
        ensures
            r == LazyCell::Resident(value),
    {
        LazyCell::Resident(value)
    }

    /// A deferred cell: only the key is known; the first read loads from it.
    pub fn new_pending(key: Key) -> (r: LazyCell<T>)
        ensures
            r == LazyCell::<T>::Pending(key),
    {
        LazyCell::Pending(key)
    }
}

impl<T: PullForward> LazyCell<T> {
    /// The value this cell denotes against a snapshot of the store: the
    /// resident value itself, or whatever its pending key loads from that
    /// snapshot.
    pub open spec fn materialized(self, store: Map<u64, Seq<u8>>) -> Option<T> {
        match self {
            LazyCell::Resident(v) => Some(v),
            LazyCell::Pending(k) => T::loads_from(store, k),
        }
    }

    /// The one forcing primitive: make the cell resident if it is not yet.
    /// On a pending cell this performs the single load from the store; on
    /// success the cell transitions permanently to resident, on a failed
    /// decode it is left exactly as it was.
    pub fn materialize(&mut self, store: &Store) -> (r: bool)
        ensures
            match old(self).materialized(store@) {
                Some(v) => r && *final(self) == LazyCell::Resident(v),
                None => !r && *final(self) == *old(self),
            },
    {
        let pending: Option<Key> = match &*self {
            LazyCell::Resident(_) => None,
            LazyCell::Pending(k) => Some(*k),
        };
        match pending {
            None => true,
            Some(key) => {
                let mut ptr = KeyPtr::new(key);
                match T::pull_forward(store, &mut ptr) {
                    Ok(v) => {
                        *self = LazyCell::Resident(v);
                        true
                    },
                    Err(_) => false,
                }
            },
        }
    }

    /// Read the cell's value, loading it from the store first if the cell
    /// is still pending. Absence of a decodable value is reported as an
    /// empty result, with the cell unchanged; the caller decides how to
    /// treat it.
    pub fn read(&mut self, store: &Store) -> (r: Option<&T>)
        ensures
            match old(self).materialized(store@) {
                Some(v) => r matches Some(p) && *p == v && *final(self) == LazyCell::Resident(v),
                None => r is None && *final(self) == *old(self),
            },
    {
        let found = self.materialize(store);
        if found {
            match &*self {
                LazyCell::Resident(v) => Some(v),
                LazyCell::Pending(_) => None,
            }
        } else {
            None
        }
    }

    /// Read the cell's value for mutation, with the same materialization
    /// rule as `read`. Whatever is written through the reference is what
    /// later reads and a later flush will see; there is no separate dirty
    /// state.
    pub fn read_mut(&mut self, store: &Store) -> (r: Option<&mut T>)
        ensures
            match old(self).materialized(store@) {
                Some(v) => r matches Some(p) && *p == v && *final(self) == LazyCell::Resident(
                    *final(p),
                ),
                None => r is None && *final(self) == *old(self),
            },
    {
        let found = self.materialize(store);
        if found {
            match self {
                LazyCell::Resident(v) => Some(v),
                LazyCell::Pending(_) => None,
            }
        } else {
            None
        }
    }
}

impl<T: PullForward + PushForward> LazyCell<T> {
    /// Flush the cell at the given cursor. A resident value is written out
    /// through the serialize-at-cursor capability; a still-pending cell has
    /// no in-memory value to write, so the write is skipped and the slots
    /// keep whatever bytes they held. Either way the cursor advances by the
    /// type's footprint, exactly as a fresh read would advance it.
    pub fn flush(&self, store: &mut Store, ptr: &mut KeyPtr)
        ensures
            final(ptr).key == old(ptr).key.advanced_spec(T::footprint_spec()),
            match *self {
                LazyCell::Resident(v) => final(store)@ == v.stores_to(old(store)@, old(ptr).key),
                LazyCell::Pending(_) => final(store)@ == old(store)@,
            },
    {
        match self {
            LazyCell::Resident(v) => {
                v.push_forward(store, ptr);
            },
            LazyCell::Pending(_) => {
                let n = T::footprint();
                let _ = ptr.advance(n);
            },
        }
    }
}

impl<T: StorageSize> StorageSize for LazyCell<T> {
    open spec fn footprint_spec() -> u64 {
        T::footprint_spec()
    }

    open spec fn layout_wf() -> bool {
        T::layout_wf()
    }

    fn footprint() -> (n: u64) {
        T::footprint()
    }
}

impl<T: PullForward> PullForward for LazyCell<T> {
    open spec fn loads_from(store: Map<u64, Seq<u8>>, at: Key) -> Option<LazyCell<T>> {
        Some(LazyCell::Pending(at))
    }

    proof fn lemma_loads_local(store1: Map<u64, Seq<u8>>, store2: Map<u64, Seq<u8>>, at: Key) {
    }

    /// Pulling a cell is itself lazy: it records the key and advances the
    /// cursor, touching no slot of the store.
    fn pull_forward(store: &Store, ptr: &mut KeyPtr) -> (r: Result<LazyCell<T>, Error>) {
        let n = T::footprint();
        let at = ptr.advance(n);
        Ok(LazyCell::new_pending(at))
    }
}

impl<T: PullForward + PushForward> PushForward for LazyCell<T> {
    open spec fn stores_to(&self, store: Map<u64, Seq<u8>>, at: Key) -> Map<u64, Seq<u8>> {
        match *self {
            LazyCell::Resident(v) => v.stores_to(store, at),
            LazyCell::Pending(_) => store,
        }
    }

    proof fn lemma_stores_frame(&self, store: Map<u64, Seq<u8>>, at: Key) {
        match *self {
            LazyCell::Resident(v) => {
                v.lemma_stores_frame(store, at);
            },
            LazyCell::Pending(_) => {},
        }
    }

    /// Pushing a cell is its flush: a resident value is written out, a
    /// never-accessed pending cell leaves its slots untouched.
    fn push_forward(&self, store: &mut Store, ptr: &mut KeyPtr) {
        self.flush(store, ptr);
    }
}

/// Eager round-trip: a cell built directly from a value denotes that value
/// against every store snapshot — no slot of any store takes part in the
/// read.
pub proof fn lemma_eager_round_trip<T: PullForward>(v: T, store: Map<u64, Seq<u8>>)
    ensures
        LazyCell::Resident(v).materialized(store) == Some(v),
{
}

/// Materialize once: when a pending cell's key holds valid data, the first
/// read makes the cell resident, and from then on it denotes that same
/// value against every later store snapshot — the store is not consulted
/// again.
pub proof fn lemma_materialize_once<T: PullForward>(
    k: Key,
    first: Map<u64, Seq<u8>>,
    later: Map<u64, Seq<u8>>,
)
    requires
        T::loads_from(first, k) is Some,
    ensures
        LazyCell::<T>::Pending(k).materialized(first) == T::loads_from(first, k),
        LazyCell::Resident(T::loads_from(first, k)->Some_0).materialized(later) == T::loads_from(
            first,
            k,
        ),
{
}

/// Write-then-flush-then-reload: flushing a resident value and then
/// materializing a fresh pending cell at the same key yields a value equal
/// to the one flushed.
pub proof fn lemma_flush_then_reload<T: StorageValue>(v: T, store: Map<u64, Seq<u8>>, at: Key)
    requires
        T::layout_wf(),
    ensures
        LazyCell::<T>::Pending(at).materialized(v.stores_to(store, at)) == Some(v),
{
    v.lemma_push_then_pull(store, at);
}

} // verus!
