//! Readiness, as the set of bits that the crate `mio` uses for it.
//!
//! `mio` does not promise that its bits stay the same. What is claimed of them
//! here is so in the one version that this crate depends on.
use vstd::prelude::*;

verus! {

/// The resource can be read from.
pub open spec fn readable(bits: usize) -> bool {
    bits & 1 == 1
}

/// The resource can be written to.
pub open spec fn writable(bits: usize) -> bool {
    bits & 2 == 2
}

/// `Ready::readable` and `Ready::as_usize`: the bit for reading.
#[verifier::external_body]
pub(crate) fn readable_bit() -> (bits: usize)
    ensures
        bits == 1,
{
    mio::Ready::readable().as_usize()
}

/// `Ready::writable` and `Ready::as_usize`: the bit for writing.
#[verifier::external_body]
pub(crate) fn writable_bit() -> (bits: usize)
    ensures
        bits == 2,
{
    mio::Ready::writable().as_usize()
}

/// `Ready::is_readable` of the readiness that `Ready::from_usize` makes of the
/// bits: tells whether the bit for reading is set.
#[verifier::external_body]
pub(crate) fn is_readable(bits: usize) -> (is: bool)
    ensures
        is == readable(bits),
{
    mio::Ready::from_usize(bits).is_readable()
}

/// `Ready::is_writable` of the readiness that `Ready::from_usize` makes of the
/// bits: tells whether the bit for writing is set.
#[verifier::external_body]
pub(crate) fn is_writable(bits: usize) -> (is: bool)
    ensures
        is == writable(bits),
{
    mio::Ready::from_usize(bits).is_writable()
}

/// Adding bits sets those that are set on either side.
pub proof fn lemma_union(a: usize, b: usize)
    ensures
        readable(a | b) == (readable(a) || readable(b)),
        writable(a | b) == (writable(a) || writable(b)),
{
    assert((a | b) & 1 == 1 <==> a & 1 == 1 || b & 1 == 1) by (bit_vector);
    assert((a | b) & 2 == 2 <==> a & 2 == 2 || b & 2 == 2) by (bit_vector);
}

/// Clearing the bit for reading clears it, and leaves the bit for writing.
pub proof fn lemma_clear_read(a: usize)
    ensures
        !readable(a & !1usize),
        writable(a & !1usize) == writable(a),
{
    assert((a & !1usize) & 1 != 1) by (bit_vector);
    assert((a & !1usize) & 2 == 2 <==> a & 2 == 2) by (bit_vector);
}

/// Clearing the bit for writing clears it, and leaves the bit for reading.
pub proof fn lemma_clear_write(a: usize)
    ensures
        readable(a & !2usize) == readable(a),
        !writable(a & !2usize),
{
    assert((a & !2usize) & 2 != 2) by (bit_vector);
    assert((a & !2usize) & 1 == 1 <==> a & 1 == 1) by (bit_vector);
}

/// No bit is set in nothing.
pub proof fn lemma_nothing()
    ensures
        !readable(0),
        !writable(0),
{
    assert(0usize & 1 != 1) by (bit_vector);
    assert(0usize & 2 != 2) by (bit_vector);
}

} // verus!
