//! Bit fields inside 32-bit words.
use vstd::prelude::*;

verus! {

/// `word` with the bits under `mask` taken from `bits`.
pub open spec fn replace_bits(word: u32, mask: u32, bits: u32) -> u32 {
    (word & !mask) | bits
}

/// No bit is set in both words.
pub open spec fn disjoint(a: u32, b: u32) -> bool {
    a & b == 0
}

/// Every bit of `bits` is a bit of `mask`.
pub open spec fn within(bits: u32, mask: u32) -> bool {
    bits & !mask == 0
}

/// A field that was just replaced reads back as the bits that went in.
pub proof fn lemma_replace_reads_back(word: u32, mask: u32, bits: u32)
    requires
        within(bits, mask),
    ensures
        replace_bits(word, mask, bits) & mask == bits,
{
    assert(bits & !mask == 0 ==> ((word & !mask) | bits) & mask == bits) by (bit_vector);
}

/// Replacing one field leaves a field that shares no bit with it as it was.
pub proof fn lemma_replace_keeps(word: u32, mask: u32, bits: u32, other: u32)
    requires
        within(bits, mask),
        disjoint(mask, other),
    ensures
        replace_bits(word, mask, bits) & other == word & other,
{
    assert(bits & !mask == 0 && mask & other == 0 ==> ((word & !mask) | bits) & other == word
        & other) by (bit_vector);
}

/// Words that together share no bit with a third one do not share a bit with it alone.
pub proof fn lemma_disjoint_parts(a: u32, b: u32, c: u32)
    requires
        disjoint(a | b, c),
    ensures
        disjoint(a, c),
        disjoint(b, c),
        disjoint(c, a),
        disjoint(c, b),
{
    assert((a | b) & c == 0 ==> a & c == 0 && b & c == 0 && c & a == 0 && c & b == 0)
        by (bit_vector);
}

/// Parts of a word are within it.
pub proof fn lemma_within_parts(a: u32, b: u32)
    ensures
        within(0, a),
        within(a, a),
        within(a, a | b),
        within(b, a | b),
        within(a & !b, a | b),
{
    assert(0u32 & !a == 0 && a & !a == 0 && a & !(a | b) == 0 && b & !(a | b) == 0 && (a & !b) & !(
    a | b) == 0) by (bit_vector);
}

/// A part of a part is a part.
pub proof fn lemma_within_widens(bits: u32, a: u32, b: u32)
    requires
        within(bits, a),
    ensures
        within(bits, a | b),
{
    assert(bits & !a == 0 ==> bits & !(a | b) == 0) by (bit_vector);
}

} // verus!
