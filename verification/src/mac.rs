//! A deterministic keyed tag over byte sequences.
//!
//! The trust engine binds a subject and an expiry to the trust material by
//! tagging the concatenation of trust-root bytes and token payload. The tag
//! is a simple iterated mixing function, fully defined here and computed by
//! verified code; it stands in for the detached signature of a production
//! token scheme, whose cryptographic strength is outside what verification
//! can state.

use vstd::prelude::*;

verus! {

pub open spec fn tag_seed() -> u64 {
    0x243f6a8885a308d3
}

/// One mixing step: fold the next byte into the accumulator.
pub open spec fn tag_step(h: u64, b: u8) -> u64 {
    ((h as int * 131 + b as int + 1) % 0x10000000000000000) as u64
}

/// The tag of the first `n` bytes of `s`.
pub open spec fn tag_upto(s: Seq<u8>, n: int) -> u64
    decreases n,
{
    if n <= 0 {
        tag_seed()
    } else {
        tag_step(tag_upto(s, n - 1), s[n - 1])
    }
}

/// The tag of a whole byte sequence.
pub open spec fn tag_of(s: Seq<u8>) -> u64 {
    tag_upto(s, s.len() as int)
}

/// Compute the tag of a byte vector.
pub fn compute_tag(data: &Vec<u8>) -> (r: u64)
    ensures
        r == tag_of(data@),
{
    let mut h: u64 = 0x243f6a8885a308d3;
    let mut i: usize = 0;
    while i < data.len()
        invariant
            i <= data.len(),
            h == tag_upto(data@, i as int),
        decreases data.len() - i,
    {
        let b = data[i];
        let wide: u128 = (h as u128) * 131 + (b as u128) + 1;
        let h2: u64 = (wide % 0x10000000000000000) as u64;
        proof {
            assert(h2 == tag_step(h, b));
        }
        h = h2;
        i += 1;
    }
    h
}

/// Append the bytes of `src` to `dst`.
pub fn push_all(dst: &mut Vec<u8>, src: &Vec<u8>)
    ensures
        final(dst)@ == old(dst)@ + src@,
{
    let mut i: usize = 0;
    while i < src.len()
        invariant
            i <= src.len(),
            dst@ == old(dst)@ + src@.take(i as int),
        decreases src.len() - i,
    {
        dst.push(src[i]);
        proof {
            assert(dst@ =~= old(dst)@ + src@.take(i + 1));
        }
        i += 1;
    }
    proof {
        assert(dst@ =~= old(dst)@ + src@);
    }
}

} // verus!
