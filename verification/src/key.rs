//! Slot addressing: an opaque fixed-width identifier for one storage slot,
//! and the cursor that walks the address space one footprint at a time.

use vstd::prelude::*;

verus! {

/// Identifier of one storage slot. Two keys name the same slot exactly when
/// their indices are equal. The address space wraps at the identifier width.
#[derive(Clone, Copy, PartialEq, Eq, Structural, Debug, Hash)]
pub struct Key {
    pub index: u64,
}

impl Key {
    /// The key `n` slots after `self`, wrapping at the identifier width.
    pub open spec fn advanced_spec(self, n: u64) -> Key {
        Key {
            index: if self.index + n <= u64::MAX {
                (self.index + n) as u64
            } else {
                (self.index + n - 0x1_0000_0000_0000_0000) as u64
            },
        }
    }

    pub fn new(index: u64) -> (r: Key)
        ensures
            r.index == index,
    {
        Key { index }
    }

    /// Advance this key by `n` slots. Deterministic in `self` and `n` alone;
    /// never depends on what is stored at any slot.
    pub fn advanced(self, n: u64) -> (r: Key)
        ensures
            r == self.advanced_spec(n),
    {
        Key { index: self.index.wrapping_add(n) }
    }
}

/// The sum of two slot counts, wrapping at the identifier width.
pub open spec fn wrap_add(a: u64, b: u64) -> u64 {
    if a + b <= u64::MAX {
        (a + b) as u64
    } else {
        (a + b - 0x1_0000_0000_0000_0000) as u64
    }
}

/// Advancing twice composes: one step of `a` slots then one of `b` slots
/// lands where a single step of `a + b` slots (wrapped) lands.
pub proof fn lemma_advanced_twice(k: Key, a: u64, b: u64)
    ensures
        k.advanced_spec(a).advanced_spec(b) == k.advanced_spec(wrap_add(a, b)),
{
}

/// Advancing a key by two different counts below the identifier width
/// reaches two different slots.
pub proof fn lemma_advanced_injective(k: Key, x: u64, y: u64)
    requires
        k.advanced_spec(x).index == k.advanced_spec(y).index,
    ensures
        x == y,
{
}

/// Whether `slot` lies in the span of `len` consecutive slots starting at `at`.
pub open spec fn in_span(at: Key, len: u64, slot: u64) -> bool {
    exists|i: u64| i < len && at.advanced_spec(i).index == slot
}

/// The two stores hold the same data at the one given slot: present in one
/// exactly when present in the other, and then with the same bytes.
pub open spec fn slot_agrees(m1: Map<u64, Seq<u8>>, m2: Map<u64, Seq<u8>>, slot: u64) -> bool {
    &&& m1.contains_key(slot) == m2.contains_key(slot)
    &&& (m1.contains_key(slot) ==> m1[slot] == m2[slot])
}

/// The two stores hold the same data on every slot of the given span.
pub open spec fn agree_on_span(
    m1: Map<u64, Seq<u8>>,
    m2: Map<u64, Seq<u8>>,
    at: Key,
    len: u64,
) -> bool {
    forall|slot: u64| in_span(at, len, slot) ==> #[trigger] slot_agrees(m1, m2, slot)
}

/// The two stores hold the same data on every slot outside the given span.
pub open spec fn agree_outside_span(
    m1: Map<u64, Seq<u8>>,
    m2: Map<u64, Seq<u8>>,
    at: Key,
    len: u64,
) -> bool {
    forall|slot: u64| !in_span(at, len, slot) ==> #[trigger] slot_agrees(m1, m2, slot)
}

/// A slot inside the span that starts where another span of `a` slots ends
/// cannot also lie inside that first span, as long as the two spans together
/// do not wrap all the way around the address space.
pub proof fn lemma_spans_disjoint(at: Key, a: u64, b: u64, slot: u64)
    requires
        a + b <= u64::MAX,
        in_span(at.advanced_spec(a), b, slot),
    ensures
        !in_span(at, a, slot),
{
    let j = choose|j: u64| j < b && at.advanced_spec(a).advanced_spec(j).index == slot;
    lemma_advanced_twice(at, a, j);
    assert(at.advanced_spec(wrap_add(a, j)).index == slot);
    assert forall|i: u64| i < a implies at.advanced_spec(i).index != slot by {
        if at.advanced_spec(i).index == slot {
            lemma_advanced_injective(at, i, wrap_add(a, j));
        }
    }
}

/// A span contains every slot of a shorter span with the same start.
pub proof fn lemma_subspan_left(at: Key, a: u64, len: u64, slot: u64)
    requires
        a <= len,
        in_span(at, a, slot),
    ensures
        in_span(at, len, slot),
{
    let i = choose|i: u64| i < a && at.advanced_spec(i).index == slot;
    assert(i < len && at.advanced_spec(i).index == slot);
}

/// A span contains every slot of a span that starts `a` slots further in
/// and still ends within it.
pub proof fn lemma_subspan_right(at: Key, a: u64, b: u64, len: u64, slot: u64)
    requires
        a + b <= len,
        in_span(at.advanced_spec(a), b, slot),
    ensures
        in_span(at, len, slot),
{
    let j = choose|j: u64| j < b && at.advanced_spec(a).advanced_spec(j).index == slot;
    lemma_advanced_twice(at, a, j);
    assert(wrap_add(a, j) == a + j);
    assert(at.advanced_spec((a + j) as u64).index == slot);
}

/// A span of one slot contains exactly the slot its key names.
pub proof fn lemma_span_one(at: Key, slot: u64)
    ensures
        in_span(at, 1, slot) <==> slot == at.index,
{
    assert(at.advanced_spec(0).index == at.index);
    if in_span(at, 1, slot) {
        let i = choose|i: u64| i < 1 && at.advanced_spec(i).index == slot;
        assert(i == 0);
    }
}

/// Cursor over the slot address space. It owns a current key; advancing by a
/// type's footprint is the only mutation it supports, and the step never
/// depends on the bytes actually stored.
#[derive(Clone, Copy, Debug)]
pub struct KeyPtr {
    pub key: Key,
}

impl KeyPtr {
    pub fn new(key: Key) -> (r: KeyPtr)
        ensures
            r.key == key,
    {
        KeyPtr { key }
    }

    /// The current key, i.e. where the next value will be read or written.
    pub fn current(&self) -> (r: Key)
        ensures
            r == self.key,
    {
        self.key
    }

    /// Return the current key and step over `n` slots.
    pub fn advance(&mut self, n: u64) -> (r: Key)
        ensures
            r == old(self).key,
            final(self).key == old(self).key.advanced_spec(n),
    {
        let at = self.key;
        self.key = self.key.advanced(n);
        at
    }
}

} // verus!
