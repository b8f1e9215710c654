//! The single-byte checksum carried by every data frame.
use vstd::prelude::*;

verus! {

/// XOR of `init` and every byte of `s`, folded from the left.
pub open spec fn fold_xor(init: u8, s: Seq<u8>) -> u8
    decreases s.len(),
{
    if s.len() == 0 {
        init
    } else {
        fold_xor(init, s.drop_last()) ^ s.last()
    }
}

/// The checksum of a data frame whose length byte is `length` and whose
/// type byte and payload are `bytes`.
pub open spec fn checksum_of(length: u8, bytes: Seq<u8>) -> u8 {
    fold_xor(0xFF ^ length, bytes)
}

/// Computes the checksum of `bytes` under the length byte `length`.
pub fn compute(length: u8, bytes: &[u8]) -> (r: u8)
    ensures
        r == checksum_of(length, bytes@),
{
    let mut acc: u8 = 0xFF ^ length;
    let mut i: usize = 0;
    while i < bytes.len()
        invariant
            i <= bytes@.len(),
            acc == fold_xor(0xFF ^ length, bytes@.take(i as int)),
        decreases bytes@.len() - i,
    {
        assert(bytes@.take(i as int + 1).drop_last() == bytes@.take(i as int));
        acc = acc ^ bytes[i];
        i = i + 1;
    }
    assert(bytes@.take(i as int) == bytes@);
    acc
}

/// Whether a frame with length byte `length`, type byte and payload `bytes`
/// and trailing checksum byte `expected` passes the checksum test.
pub open spec fn accepts(length: u8, bytes: Seq<u8>, expected: u8) -> bool {
    checksum_of(length, bytes) == expected
}

/// Tells whether `expected` is the checksum of `bytes` under `length`.
pub fn verify(length: u8, bytes: &[u8], expected: u8) -> (r: bool)
    ensures
        r == accepts(length, bytes@, expected),
{
    compute(length, bytes) == expected
}

/// A checksum computed for a frame is accepted when the same frame is
/// checked against it: outgoing and incoming frames agree.
pub proof fn lemma_checksum_round_trip(length: u8, bytes: Seq<u8>)
    ensures
        accepts(length, bytes, checksum_of(length, bytes)),
{
}

/// Replacing the byte at `i` by `v` changes the fold by exactly the XOR of
/// the old and the new byte.
pub proof fn lemma_fold_xor_update(init: u8, s: Seq<u8>, i: int, v: u8)
    requires
        0 <= i < s.len(),
    ensures
        fold_xor(init, s.update(i, v)) == fold_xor(init, s) ^ s[i] ^ v,
    decreases s.len(),
{
    let u = s.update(i, v);
    let a = fold_xor(init, s.drop_last());
    if i == s.len() - 1 {
        assert(u.drop_last() == s.drop_last());
        let l = s.last();
        assert((a ^ v) == ((a ^ l) ^ l ^ v)) by (bit_vector);
    } else {
        assert(u.drop_last() == s.drop_last().update(i, v));
        lemma_fold_xor_update(init, s.drop_last(), i, v);
        let l = s.last();
        let si = s[i];
        assert(((a ^ si ^ v) ^ l) == ((a ^ l) ^ si ^ v)) by (bit_vector);
    }
}

/// Changing any single byte of a frame's type byte and payload changes its
/// checksum: XOR detects every single-byte corruption.
pub proof fn lemma_single_byte_change_detected(length: u8, bytes: Seq<u8>, i: int, v: u8)
    requires
        0 <= i < bytes.len(),
        v != bytes[i],
    ensures
        checksum_of(length, bytes.update(i, v)) != checksum_of(length, bytes),
        accepts(length, bytes, checksum_of(length, bytes)) ==> !accepts(
            length,
            bytes.update(i, v),
            checksum_of(length, bytes),
        ),
{
    lemma_fold_xor_update(0xFF ^ length, bytes, i, v);
    let c = fold_xor(0xFF ^ length, bytes);
    let b = bytes[i];
    assert(b != v ==> (c ^ b ^ v) != c) by (bit_vector);
}

} // verus!
