//! Protocol implementations for scalar types.
//!
//! A scalar occupies one slot, which holds its whole encoded form: a
//! fixed-width integer as its little-endian bytes, a boolean as one byte.
//! The encoding and decoding themselves are done by the codec crate; the
//! wrappers here state exactly what it produces and accepts.

use vstd::prelude::*;

use crate::key::Key;
use crate::key::KeyPtr;
use crate::key::lemma_span_one;
use crate::key::slot_agrees;
use crate::protocol::Error;
use crate::protocol::PullForward;
use crate::protocol::PushForward;
use crate::protocol::StorageSize;
use crate::protocol::StorageValue;
use crate::store::Store;

verus! {

/// The four little-endian bytes of a 32-bit integer.
pub open spec fn le_bytes_u32(v: u32) -> Seq<u8> {
    seq![
        (v & 0xff) as u8,
        ((v >> 8) & 0xff) as u8,
        ((v >> 16) & 0xff) as u8,
        ((v >> 24) & 0xff) as u8,
    ]
}

/// The 32-bit integer whose little-endian bytes open the given sequence.
pub open spec fn u32_of_le(s: Seq<u8>) -> u32
    recommends
        s.len() >= 4,
{
    (s[0] as u32) | ((s[1] as u32) << 8) | ((s[2] as u32) << 16) | ((s[3] as u32) << 24)
}

/// Reading back the little-endian bytes of an integer yields the integer.
pub proof fn lemma_u32_le_round_trip(v: u32)
    ensures
        u32_of_le(le_bytes_u32(v)) == v,
{
    assert((((v & 0xff) as u8) as u32) | ((((v >> 8) & 0xff) as u8) as u32) << 8 | ((((v
        >> 16) & 0xff) as u8) as u32) << 16 | ((((v >> 24) & 0xff) as u8) as u32) << 24
        == v) by (bit_vector);
}

/// The one byte encoding a boolean.
pub open spec fn byte_of_bool(v: bool) -> Seq<u8> {
    seq![if v { 1u8 } else { 0u8 }]
}

/// Relies on parity-scale-codec's `Encode` for `u32`: the encoding is the
/// value's four little-endian bytes.
#[verifier::external_body]
fn encode_u32(v: u32) -> (r: Vec<u8>)
    ensures
        r@ == le_bytes_u32(v),
{
    parity_scale_codec::Encode::encode(&v)
}

/// Relies on parity-scale-codec's `Decode` for `u32`: it reads the first
/// four bytes as a little-endian value, ignoring anything after them, and
/// fails exactly when fewer than four bytes are there.
#[verifier::external_body]
fn decode_u32(bytes: &Vec<u8>) -> (r: Result<u32, Error>)
    ensures
        r == if bytes@.len() >= 4 {
            Ok::<u32, Error>(u32_of_le(bytes@))
        } else {
            Err::<u32, Error>(Error::Decode)
        },
{
    let mut input: &[u8] = bytes.as_slice();
    match <u32 as parity_scale_codec::Decode>::decode(&mut input) {
        Ok(v) => Ok(v),
        Err(_) => Err(Error::Decode),
    }
}

/// Relies on parity-scale-codec's `Encode` for `bool`: one byte, `0x01` for
/// true and `0x00` for false.
#[verifier::external_body]
fn encode_bool(v: bool) -> (r: Vec<u8>)
    ensures
        r@ == byte_of_bool(v),
{
    parity_scale_codec::Encode::encode(&v)
}

/// What decoding a boolean from the given bytes yields: the first byte,
/// which must be `0x00` or `0x01`.
pub open spec fn spec_decode_bool(s: Seq<u8>) -> Result<bool, Error> {
    if s.len() >= 1 && s[0] == 0 {
        Ok(false)
    } else if s.len() >= 1 && s[0] == 1 {
        Ok(true)
    } else {
        Err(Error::Decode)
    }
}

/// Relies on parity-scale-codec's `Decode` for `bool`: it reads the first
/// byte, accepting only `0x00` and `0x01`, and fails on an empty input or
/// any other first byte.
#[verifier::external_body]
fn decode_bool(bytes: &Vec<u8>) -> (r: Result<bool, Error>)
    ensures
        r == spec_decode_bool(bytes@),
{
    let mut input: &[u8] = bytes.as_slice();
    match <bool as parity_scale_codec::Decode>::decode(&mut input) {
        Ok(v) => Ok(v),
        Err(_) => Err(Error::Decode),
    }
}

/// A slot that was never written loads no integer: absence cannot decode
/// to a value, for every key and every store snapshot.
pub proof fn lemma_absent_slot_loads_no_u32(k: Key, store: Map<u64, Seq<u8>>)
    requires
        !store.contains_key(k.index),
    ensures
        <u32 as PullForward>::loads_from(store, k) is None,
{
}

/// A slot that was never written loads no boolean: absence cannot decode
/// to a value, for every key and every store snapshot.
pub proof fn lemma_absent_slot_loads_no_bool(k: Key, store: Map<u64, Seq<u8>>)
    requires
        !store.contains_key(k.index),
    ensures
        <bool as PullForward>::loads_from(store, k) is None,
{
}

impl StorageSize for u32 {
    open spec fn footprint_spec() -> u64 {
        1
    }

    open spec fn layout_wf() -> bool {
        true
    }

    fn footprint() -> u64 {
        1
    }
}

impl PullForward for u32 {
    open spec fn loads_from(store: Map<u64, Seq<u8>>, at: Key) -> Option<u32> {
        if store.contains_key(at.index) && store[at.index].len() >= 4 {
            Some(u32_of_le(store[at.index]))
        } else {
            None
        }
    }

    proof fn lemma_loads_local(store1: Map<u64, Seq<u8>>, store2: Map<u64, Seq<u8>>, at: Key) {
        lemma_span_one(at, at.index);
        assert(slot_agrees(store1, store2, at.index));
    }

    fn pull_forward(store: &Store, ptr: &mut KeyPtr) -> (r: Result<u32, Error>) {
        let at = ptr.advance(1);
        match store.get(&at) {
            Some(bytes) => decode_u32(bytes),
            None => Err(Error::Decode),
        }
    }
}

impl PushForward for u32 {
    open spec fn stores_to(&self, store: Map<u64, Seq<u8>>, at: Key) -> Map<u64, Seq<u8>> {
        store.insert(at.index, le_bytes_u32(*self))
    }

    proof fn lemma_stores_frame(&self, store: Map<u64, Seq<u8>>, at: Key) {
        assert forall|slot: u64| !crate::key::in_span(at, 1, slot) implies slot_agrees(
            store,
            self.stores_to(store, at),
            slot,
        ) by {
            lemma_span_one(at, slot);
        }
    }

    fn push_forward(&self, store: &mut Store, ptr: &mut KeyPtr) {
        let at = ptr.advance(1);
        store.set(at, encode_u32(*self));
    }
}

impl StorageValue for u32 {
    proof fn lemma_push_then_pull(&self, store: Map<u64, Seq<u8>>, at: Key) {
        lemma_u32_le_round_trip(*self);
    }
}

impl StorageSize for bool {
    open spec fn footprint_spec() -> u64 {
        1
    }

    open spec fn layout_wf() -> bool {
        true
    }

    fn footprint() -> u64 {
        1
    }
}

impl PullForward for bool {
    open spec fn loads_from(store: Map<u64, Seq<u8>>, at: Key) -> Option<bool> {
        if store.contains_key(at.index) && store[at.index].len() >= 1 && (store[at.index][0] == 0
            || store[at.index][0] == 1) {
            Some(store[at.index][0] == 1)
        } else {
            None
        }
    }

    proof fn lemma_loads_local(store1: Map<u64, Seq<u8>>, store2: Map<u64, Seq<u8>>, at: Key) {
        lemma_span_one(at, at.index);
        assert(slot_agrees(store1, store2, at.index));
    }

    fn pull_forward(store: &Store, ptr: &mut KeyPtr) -> (r: Result<bool, Error>) {
        let at = ptr.advance(1);
        match store.get(&at) {
            Some(bytes) => decode_bool(bytes),
            None => Err(Error::Decode),
        }
    }
}

impl PushForward for bool {
    open spec fn stores_to(&self, store: Map<u64, Seq<u8>>, at: Key) -> Map<u64, Seq<u8>> {
        store.insert(at.index, byte_of_bool(*self))
    }

    proof fn lemma_stores_frame(&self, store: Map<u64, Seq<u8>>, at: Key) {
        assert forall|slot: u64| !crate::key::in_span(at, 1, slot) implies slot_agrees(
            store,
            self.stores_to(store, at),
            slot,
        ) by {
            lemma_span_one(at, slot);
        }
    }

    fn push_forward(&self, store: &mut Store, ptr: &mut KeyPtr) {
        let at = ptr.advance(1);
        store.set(at, encode_bool(*self));
    }
}

impl StorageValue for bool {
    proof fn lemma_push_then_pull(&self, store: Map<u64, Seq<u8>>, at: Key) {
    }
}

} // verus!
