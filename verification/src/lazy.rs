//! The ergonomic wrapper over the cache cell.
//!
//! A `Lazy` field is declared once with either a value in hand or only an
//! address; every accessor forces materialization through the cell's one
//! forcing primitive and then works on the borrowed value. A declared lazy
//! field with a valid address is assumed always present, so the forcing
//! accessors demand presence up front, and the total variants report
//! absence as the fatal `Absent` fault — never as a default value.

use core::cmp::Ordering;
use vstd::prelude::*;
use vstd::std_specs::cmp::OrdSpec;
use vstd::std_specs::cmp::PartialEqSpec;
use vstd::std_specs::cmp::PartialOrdSpec;

use crate::cell::LazyCell;
use crate::key::Key;
use crate::key::KeyPtr;
use crate::protocol::Error;
use crate::protocol::PullForward;
use crate::protocol::PushForward;
use crate::protocol::StorageSize;
use crate::store::Store;

verus! {

/// A lazy storage entity: it loads its value from storage upon first use.
/// Owns exactly one cell and no other state.
#[derive(Debug)]
pub struct Lazy<T> {
    pub cell: LazyCell<T>,
}

impl<T> Lazy<T> {
    /// An eagerly populated lazy storage value. No store access ever
    /// happens for it.
    #[must_use]
    pub fn new(value: T) -> (r: Lazy<T>)
        ensures
            r.cell == LazyCell::Resident(value),
    {
        Lazy { cell: LazyCell::new_resident(value) }
    }

    /// A true lazy storage value for the given key: the first read will
    /// load from the store at that key.
    #[must_use]
    pub fn lazy(key: Key) -> (r: Lazy<T>)
        ensures
            r.cell == LazyCell::<T>::Pending(key),
    {
        Lazy { cell: LazyCell::new_pending(key) }
    }
}

impl<T: PullForward> Lazy<T> {
    /// The value this wrapper denotes against a snapshot of the store.
    pub open spec fn materialized(self, store: Map<u64, Seq<u8>>) -> Option<T> {
        self.cell.materialized(store)
    }

    /// A shared reference to the lazily loaded value, loading it from the
    /// store if that did not happen before. Callers owe presence: a
    /// declared lazy field, once given a valid address, always has a value,
    /// so this function refuses inputs where materialization would fail.
    pub fn get(&mut self, store: &Store) -> (r: &T)
        requires
            old(self).materialized(store@) is Some,
        ensures
            *r == old(self).materialized(store@)->Some_0,
            final(self).cell == LazyCell::Resident(*r),
    {
        match self.cell.read(store) {
            Some(v) => v,
            None => vstd::pervasive::unreached(),
        }
    }

    /// An exclusive reference to the lazily loaded value, loading it from
    /// the store if that did not happen before; later reads and a later
    /// flush see whatever is written through it. Callers owe presence, as
    /// with `get`.
    pub fn get_mut(&mut self, store: &Store) -> (r: &mut T)
        requires
            old(self).materialized(store@) is Some,
        ensures
            *r == old(self).materialized(store@)->Some_0,
            final(self).cell == LazyCell::Resident(*final(r)),
    {
        match self.cell.read_mut(store) {
            Some(v) => v,
            None => vstd::pervasive::unreached(),
        }
    }

    /// The forcing read as a total function: absence is surfaced as the
    /// fatal `Absent` fault — a broken invariant elsewhere, not a value —
    /// and never swallowed into a default.
    pub fn try_get(&mut self, store: &Store) -> (r: Result<&T, Error>)
        ensures
            match old(self).materialized(store@) {
                Some(v) => r matches Ok(p) && *p == v && final(self).cell == LazyCell::Resident(
                    v,
                ),
                None => r == Err::<&T, Error>(Error::Absent) && *final(self) == *old(self),
            },
    {
        match self.cell.read(store) {
            Some(v) => Ok(v),
            None => Err(Error::Absent),
        }
    }
}

impl<T: PullForward + PartialEq> Lazy<T> {
    /// Equality of two lazy values: both sides are forced, then compared by
    /// the value type's own equality.
    pub fn eq(&mut self, other: &mut Lazy<T>, store: &Store) -> (r: bool)
        requires
            old(self).materialized(store@) is Some,
            old(other).materialized(store@) is Some,
        ensures
            final(self).cell == LazyCell::Resident(old(self).materialized(store@)->Some_0),
            final(other).cell == LazyCell::Resident(old(other).materialized(store@)->Some_0),
            T::obeys_eq_spec() ==> r == old(self).materialized(store@)->Some_0.eq_spec(
                &old(other).materialized(store@)->Some_0,
            ),
    {
        let a = self.get(store);
        let b = other.get(store);
        a.eq(b)
    }
}

impl<T: PullForward + PartialOrd> Lazy<T> {
    /// Ordering of two lazy values: both sides are forced, then compared by
    /// the value type's own partial order.
    pub fn partial_cmp(&mut self, other: &mut Lazy<T>, store: &Store) -> (r: Option<Ordering>)
        requires
            old(self).materialized(store@) is Some,
            old(other).materialized(store@) is Some,
        ensures
            final(self).cell == LazyCell::Resident(old(self).materialized(store@)->Some_0),
            final(other).cell == LazyCell::Resident(old(other).materialized(store@)->Some_0),
            T::obeys_partial_cmp_spec() ==> r == old(self).materialized(
                store@,
            )->Some_0.partial_cmp_spec(&old(other).materialized(store@)->Some_0),
    {
        let a = self.get(store);
        let b = other.get(store);
        a.partial_cmp(b)
    }

    /// Strictly-less, forced on both sides first.
    pub fn lt(&mut self, other: &mut Lazy<T>, store: &Store) -> (r: bool)
        requires
            old(self).materialized(store@) is Some,
            old(other).materialized(store@) is Some,
        ensures
            final(self).cell == LazyCell::Resident(old(self).materialized(store@)->Some_0),
            final(other).cell == LazyCell::Resident(old(other).materialized(store@)->Some_0),
            T::obeys_partial_cmp_spec() ==> r == (old(self).materialized(
                store@,
            )->Some_0.partial_cmp_spec(&old(other).materialized(store@)->Some_0) == Some(
                Ordering::Less,
            )),
    {
        let a = self.get(store);
        let b = other.get(store);
        a.lt(b)
    }

    /// Less-or-equal, forced on both sides first.
    pub fn le(&mut self, other: &mut Lazy<T>, store: &Store) -> (r: bool)
        requires
            old(self).materialized(store@) is Some,
            old(other).materialized(store@) is Some,
        ensures
            final(self).cell == LazyCell::Resident(old(self).materialized(store@)->Some_0),
            final(other).cell == LazyCell::Resident(old(other).materialized(store@)->Some_0),
            T::obeys_partial_cmp_spec() ==> r == (old(self).materialized(
                store@,
            )->Some_0.partial_cmp_spec(&old(other).materialized(store@)->Some_0) matches Some(
                Ordering::Less
                | Ordering::Equal,
            )),
    {
        let a = self.get(store);
        let b = other.get(store);
        a.le(b)
    }

    /// Strictly-greater, forced on both sides first.
    pub fn gt(&mut self, other: &mut Lazy<T>, store: &Store) -> (r: bool)
        requires
            old(self).materialized(store@) is Some,
            old(other).materialized(store@) is Some,
        ensures
            final(self).cell == LazyCell::Resident(old(self).materialized(store@)->Some_0),
            final(other).cell == LazyCell::Resident(old(other).materialized(store@)->Some_0),
            T::obeys_partial_cmp_spec() ==> r == (old(self).materialized(
                store@,
            )->Some_0.partial_cmp_spec(&old(other).materialized(store@)->Some_0) == Some(
                Ordering::Greater,
            )),
    {
        let a = self.get(store);
        let b = other.get(store);
        a.gt(b)
    }

    /// Greater-or-equal, forced on both sides first.
    pub fn ge(&mut self, other: &mut Lazy<T>, store: &Store) -> (r: bool)
        requires
            old(self).materialized(store@) is Some,
            old(other).materialized(store@) is Some,
        ensures
            final(self).cell == LazyCell::Resident(old(self).materialized(store@)->Some_0),
            final(other).cell == LazyCell::Resident(old(other).materialized(store@)->Some_0),
            T::obeys_partial_cmp_spec() ==> r == (old(self).materialized(
                store@,
            )->Some_0.partial_cmp_spec(&old(other).materialized(store@)->Some_0) matches Some(
                Ordering::Greater
                | Ordering::Equal,
            )),
    {
        let a = self.get(store);
        let b = other.get(store);
        a.ge(b)
    }
}

impl<T: PullForward + Ord> Lazy<T> {
    /// Total ordering of two lazy values: both sides are forced, then
    /// compared by the value type's own total order.
    pub fn cmp(&mut self, other: &mut Lazy<T>, store: &Store) -> (r: Ordering)
        requires
            old(self).materialized(store@) is Some,
            old(other).materialized(store@) is Some,
        ensures
            final(self).cell == LazyCell::Resident(old(self).materialized(store@)->Some_0),
            final(other).cell == LazyCell::Resident(old(other).materialized(store@)->Some_0),
            T::obeys_cmp_spec() ==> r == old(self).materialized(store@)->Some_0.cmp_spec(
                &old(other).materialized(store@)->Some_0,
            ),
    {
        let a = self.get(store);
        let b = other.get(store);
        a.cmp(b)
    }
}

impl<T: StorageSize> StorageSize for Lazy<T> {
    open spec fn footprint_spec() -> u64 {
        T::footprint_spec()
    }

    open spec fn layout_wf() -> bool {
        T::layout_wf()
    }

    fn footprint() -> (n: u64) {
        T::footprint()
    }
}

impl<T: PullForward> PullForward for Lazy<T> {
    open spec fn loads_from(store: Map<u64, Seq<u8>>, at: Key) -> Option<Lazy<T>> {
        Some(Lazy { cell: LazyCell::Pending(at) })
    }

    proof fn lemma_loads_local(store1: Map<u64, Seq<u8>>, store2: Map<u64, Seq<u8>>, at: Key) {
    }

    /// Pulling a lazy field is itself lazy, exactly as pulling its cell is:
    /// it records the key and advances the cursor, touching no slot.
    fn pull_forward(store: &Store, ptr: &mut KeyPtr) -> (r: Result<Lazy<T>, Error>) {
        match LazyCell::<T>::pull_forward(store, ptr) {
            Ok(cell) => Ok(Lazy { cell }),
            Err(e) => Err(e),
        }
    }
}

impl<T: PullForward + PushForward> PushForward for Lazy<T> {
    open spec fn stores_to(&self, store: Map<u64, Seq<u8>>, at: Key) -> Map<u64, Seq<u8>> {
        self.cell.stores_to(store, at)
    }

    proof fn lemma_stores_frame(&self, store: Map<u64, Seq<u8>>, at: Key) {
        self.cell.lemma_stores_frame(store, at);
    }

    /// Pushing a lazy field flushes its cell: a resident value is written
    /// out, a never-accessed pending cell leaves its slots untouched, and
    /// the cursor advances by the footprint either way.
    fn push_forward(&self, store: &mut Store, ptr: &mut KeyPtr) {
        self.cell.push_forward(store, ptr);
    }
}

impl<T> From<T> for Lazy<T> {
    /// Conversion from a bare value is eager construction.
    fn from(value: T) -> (r: Lazy<T>) {
        Lazy::new(value)
    }
}

impl<T> vstd::std_specs::convert::FromSpecImpl<T> for Lazy<T> {
    open spec fn obeys_from_spec() -> bool {
        true
    }

    open spec fn from_spec(value: T) -> Lazy<T> {
        Lazy { cell: LazyCell::Resident(value) }
    }
}

impl<T: Default> Default for Lazy<T> {
    /// Default-construction is eager construction from the value type's
    /// own default: the result holds resident whatever `T::default()`
    /// produced, and needs no store access.
    fn default() -> (r: Lazy<T>)
        ensures
            r.cell is Resident,
            call_ensures(T::default, (), r.cell->Resident_0),
    {
        Lazy::new(T::default())
    }
}

/// Absence is fatal, not silently swallowed: a pending wrapper denotes
/// exactly what its key loads, so when nothing loads there the wrapper
/// materializes to nothing, for every key and every store snapshot. On such
/// an input `try_get` returns the fatal `Absent` fault by its contract, and
/// the presence `requires` of `get` and `get_mut` refuses the input
/// outright: no accessor can hand back a default, zero or fabricated value.
pub proof fn lemma_absence_is_fatal<T: PullForward>(k: Key, store: Map<u64, Seq<u8>>)
    requires
        T::loads_from(store, k) is None,
    ensures
        (Lazy::<T> { cell: LazyCell::Pending(k) }).materialized(store) is None,
{
}

/// An eager wrapper denotes exactly the value it was built from, against
/// every store snapshot; with the contracts of the comparison accessors
/// this makes every wrapper-level comparison of two eager wrappers the
/// comparison of the wrapped values themselves.
pub proof fn lemma_eager_delegation<T: PullForward>(a: T, b: T, store: Map<u64, Seq<u8>>)
    ensures
        (Lazy { cell: LazyCell::Resident(a) }).materialized(store) == Some(a),
        (Lazy { cell: LazyCell::Resident(b) }).materialized(store) == Some(b),
{
}

} // verus!
