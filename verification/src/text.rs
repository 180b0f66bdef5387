//! Validation of text handed back by string-valued control points.
//!
//! A string-valued control point yields the address of interface-owned,
//! zero-terminated bytes. The embedding copies the bytes out; whether they
//! are valid text is decided here: a byte sequence is accepted exactly when
//! it is a valid UTF-8 encoding, and anything else is `InvalidData`.

use vstd::prelude::*;
use vstd::utf8::{
    codepoint_width_1, codepoint_width_2, codepoint_width_3, codepoint_width_4,
    decode_first_codepoint, length_of_first_scalar, pop_first_scalar, valid_first_scalar,
    valid_leading_and_continuation_bytes_first_codepoint, valid_utf8,
};

use crate::CtlError;

verus! {

/// A sequence whose front is not a well-formed scalar encoding is not valid
/// UTF-8, wherever that front sits.
proof fn lemma_invalid_here(s: Seq<u8>, i: int)
    requires
        0 <= i < s.len(),
        valid_utf8(s) == valid_utf8(s.skip(i)),
        !valid_first_scalar(s.skip(i)),
    ensures
        !valid_utf8(s),
{
    assert(s.skip(i).len() > 0);
}

/// Stepping over one well-formed scalar encoding preserves validity of the
/// remainder.
proof fn lemma_step(s: Seq<u8>, i: int, w: int)
    requires
        0 <= i,
        1 <= w,
        i + w <= s.len(),
        valid_first_scalar(s.skip(i)),
        length_of_first_scalar(s.skip(i)) == w,
    ensures
        valid_utf8(s.skip(i)) == valid_utf8(s.skip(i + w)),
{
    assert(pop_first_scalar(s.skip(i)) =~= s.skip(i + w));
}

/// Decides whether the bytes are a valid UTF-8 encoding, front to back: each
/// step takes one leading byte, the continuation bytes its width demands,
/// and refuses overlong encodings and surrogate codepoints.
pub fn is_valid_text(bytes: &Vec<u8>) -> (r: bool)
    ensures
        r == valid_utf8(bytes@),
{
    let n = bytes.len();
    let mut i: usize = 0;
    proof {
        assert(bytes@.skip(0) =~= bytes@);
    }
    while i < n
        invariant
            i <= n,
            n == bytes@.len(),
            valid_utf8(bytes@) == valid_utf8(bytes@.skip(i as int)),
        decreases n - i,
    {
        let ghost tail = bytes@.skip(i as int);
        proof {
            assert(tail.len() == n - i);
            assert(tail[0] == bytes@[i as int]);
        }
        let b0: u8 = bytes[i];
        if b0 < 0x80 {
            // one byte: the codepoint is the byte itself, never overlong,
            // never a surrogate
            let cp: u32 = (b0 & 0x7f) as u32;
            proof {
                assert(cp == codepoint_width_1(b0));
                assert((b0 & 0x7f) <= 0x7f) by (bit_vector);
                assert(valid_first_scalar(tail));
                lemma_step(bytes@, i as int, 1);
            }
            i += 1;
        } else if b0 < 0xc0 {
            // a continuation byte cannot lead a scalar encoding
            proof {
                assert(!valid_leading_and_continuation_bytes_first_codepoint(tail));
                lemma_invalid_here(bytes@, i as int);
            }
            return false;
        } else if b0 < 0xe0 {
            // two bytes: one continuation byte follows
            if n - i < 2 {
                proof {
                    assert(!valid_leading_and_continuation_bytes_first_codepoint(tail));
                    lemma_invalid_here(bytes@, i as int);
                }
                return false;
            }
            let b1: u8 = bytes[i + 1];
            proof {
                assert(tail[1] == bytes@[i + 1]);
            }
            if !(0x80 <= b1 && b1 <= 0xbf) {
                proof {
                    assert(!valid_leading_and_continuation_bytes_first_codepoint(tail));
                    lemma_invalid_here(bytes@, i as int);
                }
                return false;
            }
            let x: u32 = (b0 & 0x1f) as u32;
            let y: u32 = (b1 & 0x3f) as u32;
            let cp: u32 = (x << 6) | y;
            proof {
                assert(cp == codepoint_width_2(b0, b1));
                assert(decode_first_codepoint(tail) == cp);
            }
            if cp < 0x80 {
                // overlong: one byte would have sufficed
                proof {
                    lemma_invalid_here(bytes@, i as int);
                }
                return false;
            }
            if 0xd800 <= cp && cp <= 0xdfff {
                proof {
                    lemma_invalid_here(bytes@, i as int);
                }
                return false;
            }
            proof {
                assert(valid_first_scalar(tail));
                lemma_step(bytes@, i as int, 2);
            }
            i += 2;
        } else if b0 < 0xf0 {
            // three bytes: two continuation bytes follow
            if n - i < 3 {
                proof {
                    assert(!valid_leading_and_continuation_bytes_first_codepoint(tail));
                    lemma_invalid_here(bytes@, i as int);
                }
                return false;
            }
            let b1: u8 = bytes[i + 1];
            let b2: u8 = bytes[i + 2];
            proof {
                assert(tail[1] == bytes@[i + 1]);
                assert(tail[2] == bytes@[i + 2]);
            }
            if !(0x80 <= b1 && b1 <= 0xbf) || !(0x80 <= b2 && b2 <= 0xbf) {
                proof {
                    assert(!valid_leading_and_continuation_bytes_first_codepoint(tail));
                    lemma_invalid_here(bytes@, i as int);
                }
                return false;
            }
            let x: u32 = (b0 & 0x0f) as u32;
            let y: u32 = (b1 & 0x3f) as u32;
            let z: u32 = (b2 & 0x3f) as u32;
            let cp: u32 = (x << 12) | (y << 6) | z;
            proof {
                assert(cp == codepoint_width_3(b0, b1, b2));
                assert(decode_first_codepoint(tail) == cp);
            }
            if cp < 0x800 {
                // overlong: two bytes would have sufficed
                proof {
                    lemma_invalid_here(bytes@, i as int);
                }
                return false;
            }
            if 0xd800 <= cp && cp <= 0xdfff {
                // the surrogate range is not encodable text
                proof {
                    lemma_invalid_here(bytes@, i as int);
                }
                return false;
            }
            proof {
                assert(valid_first_scalar(tail));
                lemma_step(bytes@, i as int, 3);
            }
            i += 3;
        } else if b0 < 0xf8 {
            // four bytes: three continuation bytes follow
            if n - i < 4 {
                proof {
                    assert(!valid_leading_and_continuation_bytes_first_codepoint(tail));
                    lemma_invalid_here(bytes@, i as int);
                }
                return false;
            }
            let b1: u8 = bytes[i + 1];
            let b2: u8 = bytes[i + 2];
            let b3: u8 = bytes[i + 3];
            proof {
                assert(tail[1] == bytes@[i + 1]);
                assert(tail[2] == bytes@[i + 2]);
                assert(tail[3] == bytes@[i + 3]);
            }
            if !(0x80 <= b1 && b1 <= 0xbf) || !(0x80 <= b2 && b2 <= 0xbf) || !(0x80 <= b3 && b3
                <= 0xbf) {
                proof {
                    assert(!valid_leading_and_continuation_bytes_first_codepoint(tail));
                    lemma_invalid_here(bytes@, i as int);
                }
                return false;
            }
            let x: u32 = (b0 & 0x07) as u32;
            let y: u32 = (b1 & 0x3f) as u32;
            let z: u32 = (b2 & 0x3f) as u32;
            let u: u32 = (b3 & 0x3f) as u32;
            let cp: u32 = (x << 18) | (y << 12) | (z << 6) | u;
            proof {
                assert(cp == codepoint_width_4(b0, b1, b2, b3));
                assert(decode_first_codepoint(tail) == cp);
            }
            if cp < 0x10000 || cp > 0x10ffff {
                // overlong below, beyond the last codepoint above
                proof {
                    lemma_invalid_here(bytes@, i as int);
                }
                return false;
            }
            if 0xd800 <= cp && cp <= 0xdfff {
                proof {
                    lemma_invalid_here(bytes@, i as int);
                }
                return false;
            }
            proof {
                assert(valid_first_scalar(tail));
                lemma_step(bytes@, i as int, 4);
            }
            i += 4;
        } else {
            // 0xf8 and above lead no encoding at all
            proof {
                assert(!valid_leading_and_continuation_bytes_first_codepoint(tail));
                lemma_invalid_here(bytes@, i as int);
            }
            return false;
        }
    }
    proof {
        assert(bytes@.skip(n as int) =~= Seq::<u8>::empty());
    }
    true
}

/// Accepts the bytes of a string-valued control point exactly when they are
/// valid text, and refuses everything else as `InvalidData` without handing
/// any of it on.
pub fn text_from_bytes(bytes: Vec<u8>) -> (r: Result<Vec<u8>, CtlError>)
    ensures
        valid_utf8(bytes@) ==> {
            &&& r is Ok
            &&& r->Ok_0@ == bytes@
        },
        !valid_utf8(bytes@) ==> r == Err::<Vec<u8>, CtlError>(CtlError::InvalidData),
{
    if is_valid_text(&bytes) {
        Ok(bytes)
    } else {
        Err(CtlError::InvalidData)
    }
}

} // verus!
