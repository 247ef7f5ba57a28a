//! A composite of two members, read and written member by member in
//! declaration order through one shared cursor.
//!
//! Its declared footprint is the sum of the member footprints, independent
//! of what either member holds, so a cursor can skip the whole composite
//! without decoding it. Larger records arise by nesting.

use vstd::prelude::*;

use crate::key::Key;
use crate::key::KeyPtr;
use crate::key::agree_on_span;
use crate::key::in_span;
use crate::key::lemma_advanced_twice;
use crate::key::lemma_spans_disjoint;
use crate::key::lemma_subspan_left;
use crate::key::lemma_subspan_right;
use crate::key::slot_agrees;
use crate::key::wrap_add;
use crate::protocol::Error;
use crate::protocol::PullForward;
use crate::protocol::PushForward;
use crate::protocol::StorageSize;
use crate::protocol::StorageValue;
use crate::store::Store;

verus! {

/// Two members laid out one after the other: `first` at the composite's own
/// key, `second` at that key advanced by `first`'s footprint.
#[derive(Clone, Copy, Debug)]
pub struct Pair<A, B> {
    pub first: A,
    pub second: B,
}

impl<A: StorageSize, B: StorageSize> StorageSize for Pair<A, B> {
    open spec fn footprint_spec() -> u64 {
        wrap_add(A::footprint_spec(), B::footprint_spec())
    }

    open spec fn layout_wf() -> bool {
        &&& A::layout_wf()
        &&& B::layout_wf()
        &&& A::footprint_spec() + B::footprint_spec() <= u64::MAX
    }

    fn footprint() -> (n: u64) {
        A::footprint().wrapping_add(B::footprint())
    }
}

/// Footprint additivity: as long as the sum stays within the identifier
/// width, a composite's declared footprint is exactly the sum of its
/// members' footprints, whatever the members currently hold.
pub proof fn lemma_footprint_additive<A: StorageSize, B: StorageSize>()
    requires
        A::footprint_spec() + B::footprint_spec() <= u64::MAX,
    ensures
        Pair::<A, B>::footprint_spec() == A::footprint_spec() + B::footprint_spec(),
{
}

/// Cursor additivity: one step across the whole composite lands on the same
/// key as stepping across each member in declaration order.
pub proof fn lemma_cursor_additive<A: StorageSize, B: StorageSize>(at: Key)
    ensures
        at.advanced_spec(Pair::<A, B>::footprint_spec()) == at.advanced_spec(
            A::footprint_spec(),
        ).advanced_spec(B::footprint_spec()),
{
    lemma_advanced_twice(at, A::footprint_spec(), B::footprint_spec());
}

impl<A: PullForward, B: PullForward> PullForward for Pair<A, B> {
    open spec fn loads_from(store: Map<u64, Seq<u8>>, at: Key) -> Option<Pair<A, B>> {
        match A::loads_from(store, at) {
            Some(first) => match B::loads_from(
                store,
                at.advanced_spec(A::footprint_spec()),
            ) {
                Some(second) => Some(Pair { first, second }),
                None => None,
            },
            None => None,
        }
    }

    proof fn lemma_loads_local(store1: Map<u64, Seq<u8>>, store2: Map<u64, Seq<u8>>, at: Key) {
        let fa = A::footprint_spec();
        let fb = B::footprint_spec();
        let len = Self::footprint_spec();
        assert forall|slot: u64| in_span(at, fa, slot) implies in_span(at, len, slot) by {
            lemma_subspan_left(at, fa, len, slot);
        }
        assert forall|slot: u64|
            in_span(at.advanced_spec(fa), fb, slot) implies in_span(at, len, slot) by {
            lemma_subspan_right(at, fa, fb, len, slot);
        }
        A::lemma_loads_local(store1, store2, at);
        B::lemma_loads_local(store1, store2, at.advanced_spec(fa));
    }

    fn pull_forward(store: &Store, ptr: &mut KeyPtr) -> (r: Result<Pair<A, B>, Error>) {
        let ghost at0 = ptr.key;
        let first = A::pull_forward(store, ptr);
        let second = B::pull_forward(store, ptr);
        proof {
            lemma_advanced_twice(at0, A::footprint_spec(), B::footprint_spec());
        }
        match (first, second) {
            (Ok(first), Ok(second)) => Ok(Pair { first, second }),
            _ => Err(Error::Decode),
        }
    }
}

/// A decode never partially succeeds: when a member loads nothing, the
/// whole composite loads nothing, rather than a value with a fabricated
/// member.
pub proof fn lemma_absent_member_is_absent_composite<A: PullForward, B: PullForward>(
    store: Map<u64, Seq<u8>>,
    at: Key,
)
    requires
        A::loads_from(store, at) is None || B::loads_from(
            store,
            at.advanced_spec(A::footprint_spec()),
        ) is None,
    ensures
        Pair::<A, B>::loads_from(store, at) is None,
{
}

impl<A: PushForward, B: PushForward> PushForward for Pair<A, B> {
    open spec fn stores_to(&self, store: Map<u64, Seq<u8>>, at: Key) -> Map<u64, Seq<u8>> {
        self.second.stores_to(
            self.first.stores_to(store, at),
            at.advanced_spec(A::footprint_spec()),
        )
    }

    proof fn lemma_stores_frame(&self, store: Map<u64, Seq<u8>>, at: Key) {
        let fa = A::footprint_spec();
        let fb = B::footprint_spec();
        let len = Self::footprint_spec();
        let mid = self.first.stores_to(store, at);
        self.first.lemma_stores_frame(store, at);
        self.second.lemma_stores_frame(mid, at.advanced_spec(fa));
        assert forall|slot: u64| !in_span(at, len, slot) implies slot_agrees(
            store,
            self.stores_to(store, at),
            slot,
        ) by {
            if in_span(at, fa, slot) {
                lemma_subspan_left(at, fa, len, slot);
            }
            if in_span(at.advanced_spec(fa), fb, slot) {
                lemma_subspan_right(at, fa, fb, len, slot);
            }
            assert(slot_agrees(store, mid, slot));
            assert(slot_agrees(mid, self.stores_to(store, at), slot));
        }
    }

    fn push_forward(&self, store: &mut Store, ptr: &mut KeyPtr) {
        let ghost at0 = ptr.key;
        self.first.push_forward(store, ptr);
        self.second.push_forward(store, ptr);
        proof {
            lemma_advanced_twice(at0, A::footprint_spec(), B::footprint_spec());
        }
    }
}

impl<A: StorageValue, B: StorageValue> StorageValue for Pair<A, B> {
    proof fn lemma_push_then_pull(&self, store: Map<u64, Seq<u8>>, at: Key) {
        let fa = A::footprint_spec();
        let fb = B::footprint_spec();
        let mid = self.first.stores_to(store, at);
        let end = self.second.stores_to(mid, at.advanced_spec(fa));
        self.first.lemma_push_then_pull(store, at);
        self.second.lemma_push_then_pull(mid, at.advanced_spec(fa));
        self.second.lemma_stores_frame(mid, at.advanced_spec(fa));
        assert(agree_on_span(end, mid, at, fa)) by {
            assert forall|slot: u64| in_span(at, fa, slot) implies slot_agrees(end, mid, slot) by {
                if in_span(at.advanced_spec(fa), fb, slot) {
                    lemma_spans_disjoint(at, fa, fb, slot);
                }
                assert(slot_agrees(mid, end, slot));
            }
        }
        A::lemma_loads_local(end, mid, at);
    }
}

} // verus!
