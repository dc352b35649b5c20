//! A verified UTF-8 validity check.
//!
//! The string values of an AAD record must be UTF-8. This check is
//! proved equivalent to the UTF-8 well-formedness specification that
//! `vstd` states (correct bit patterns, no overlong encodings, no
//! surrogates); nothing about it is taken on trust.

use vstd::prelude::*;
use vstd::utf8::{
    is_continuation_byte, is_leading_byte_width_1, is_leading_byte_width_2,
    is_leading_byte_width_3, is_leading_byte_width_4, length_of_first_scalar,
    partial_valid_partial_invalid_utf8, partial_valid_utf8, partial_valid_utf8_extend,
    valid_first_scalar, valid_utf8,
};

verus! {

/// Whether `bytes` is a well-formed UTF-8 byte string.
pub fn is_valid_utf8(bytes: &Vec<u8>) -> (r: bool)
    ensures
        r == valid_utf8(bytes@),
{
    let n = bytes.len();
    let mut i: usize = 0;
    while i < n
        invariant
            i <= n,
            n == bytes@.len(),
            partial_valid_utf8(bytes@, i as int),
        decreases n - i,
    {
        let ghost suffix = bytes@.subrange(i as int, n as int);
        assert(suffix.len() > 0);
        let b0 = bytes[i];
        assert(suffix[0] == b0);
        // the leading byte fixes the width; the ranges are disjoint
        let width: usize = if b0 <= 0x7f {
            1
        } else if 0xc0 <= b0 && b0 <= 0xdf {
            2
        } else if 0xe0 <= b0 && b0 <= 0xef {
            3
        } else if 0xf0 <= b0 && b0 <= 0xf7 {
            4
        } else {
            proof {
                assert(!valid_first_scalar(suffix));
                assert(!valid_utf8(suffix));
                partial_valid_partial_invalid_utf8(bytes@, i as int);
            }
            return false;
        };
        if n - i < width {
            proof {
                assert(!valid_first_scalar(suffix));
                assert(!valid_utf8(suffix));
                partial_valid_partial_invalid_utf8(bytes@, i as int);
            }
            return false;
        }
        // continuation bytes must match 10xxxxxx
        let mut continuations_ok = true;
        if width >= 2 {
            let b1 = bytes[i + 1];
            assert(suffix[1] == b1);
            continuations_ok = continuations_ok && 0x80 <= b1 && b1 <= 0xbf;
        }
        if width >= 3 {
            let b2 = bytes[i + 2];
            assert(suffix[2] == b2);
            continuations_ok = continuations_ok && 0x80 <= b2 && b2 <= 0xbf;
        }
        if width == 4 {
            let b3 = bytes[i + 3];
            assert(suffix[3] == b3);
            continuations_ok = continuations_ok && 0x80 <= b3 && b3 <= 0xbf;
        }
        if !continuations_ok {
            proof {
                assert(!valid_first_scalar(suffix));
                assert(!valid_utf8(suffix));
                partial_valid_partial_invalid_utf8(bytes@, i as int);
            }
            return false;
        }
        // the decoded codepoint must not be overlong or a surrogate
        let codepoint: u32 = if width == 1 {
            (b0 & 0x7f) as u32
        } else if width == 2 {
            (((b0 & 0x1f) as u32) << 6) | ((bytes[i + 1] & 0x3f) as u32)
        } else if width == 3 {
            (((b0 & 0x0f) as u32) << 12) | (((bytes[i + 1] & 0x3f) as u32) << 6) | ((bytes[i + 2]
                & 0x3f) as u32)
        } else {
            (((b0 & 0x07) as u32) << 18) | (((bytes[i + 1] & 0x3f) as u32) << 12) | (((bytes[i + 2]
                & 0x3f) as u32) << 6) | ((bytes[i + 3] & 0x3f) as u32)
        };
        assert(codepoint == vstd::utf8::decode_first_codepoint(suffix));
        let in_range = if width == 2 {
            0x80 <= codepoint
        } else if width == 3 {
            0x800 <= codepoint
        } else if width == 4 {
            0x10000 <= codepoint && codepoint <= 0x10ffff
        } else {
            true
        };
        if !in_range || (0xd800 <= codepoint && codepoint <= 0xdfff) {
            proof {
                assert(!valid_first_scalar(suffix));
                assert(!valid_utf8(suffix));
                partial_valid_partial_invalid_utf8(bytes@, i as int);
            }
            return false;
        }
        proof {
            assert(valid_first_scalar(suffix));
            assert(length_of_first_scalar(suffix) == width);
            partial_valid_utf8_extend(bytes@, i as int);
        }
        i = i + width;
    }
    assert(bytes@.subrange(0, n as int) =~= bytes@);
    true
}

} // verus!
