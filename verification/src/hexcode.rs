//! Lowercase hexadecimal encoding of byte strings.

use vstd::prelude::*;

verus! {

/// ASCII code of the lowercase hex digit for a value below 16.
pub open spec fn hex_digit(v: u8) -> u8
    recommends
        v < 16,
{
    if v < 10 {
        (48 + v) as u8  // '0'..'9'
    } else {
        (87 + v) as u8  // 'a'..'f'
    }
}

/// Lowercase hex encoding of a byte string: two digits per byte,
/// high nibble first.
pub open spec fn hex_of(s: Seq<u8>) -> Seq<u8>
    decreases s.len(),
{
    if s.len() == 0 {
        Seq::empty()
    } else {
        hex_of(s.drop_last()) + seq![hex_digit(s.last() / 16), hex_digit(s.last() % 16)]
    }
}

pub proof fn lemma_hex_of_len(s: Seq<u8>)
    ensures
        hex_of(s).len() == 2 * s.len(),
    decreases s.len(),
{
    if s.len() > 0 {
        lemma_hex_of_len(s.drop_last());
    }
}

/// Encode `b` as lowercase hex, two ASCII digits per byte.
pub fn bytes_to_hex(b: &Vec<u8>) -> (r: Vec<u8>)
    ensures
        r@ == hex_of(b@),
        r@.len() == 2 * b@.len(),
{
    let mut out: Vec<u8> = Vec::new();
    let mut i: usize = 0;
    while i < b.len()
        invariant
            i <= b@.len(),
            out@ == hex_of(b@.subrange(0, i as int)),
        decreases b@.len() - i,
    {
        let byte = b[i];
        let hi = byte / 16;
        let lo = byte % 16;
        out.push(if hi < 10 { 48 + hi } else { 87 + hi });
        out.push(if lo < 10 { 48 + lo } else { 87 + lo });
        i = i + 1;
        proof {
            let pre = b@.subrange(0, i as int);
            assert(pre.drop_last() == b@.subrange(0, i - 1));
            assert(pre.last() == b@[i - 1]);
            assert(out@ == hex_of(pre));
        }
    }
    assert(b@.subrange(0, b@.len() as int) == b@);
    proof {
        lemma_hex_of_len(b@);
    }
    out
}

} // verus!
