use vstd::prelude::*;
use vstd::utf8::*;

verus! {

/// Verified UTF-8 validator over raw bytes: returns true exactly when the
/// bytes are a valid UTF-8 encoding.  This is the inbound data-quality
/// check, proved against vstd's encoding model rather than assumed of std.
pub fn is_utf8(bytes: &[u8]) -> (b: bool)
    ensures
        b <==> valid_utf8(bytes@),
{
    let n = bytes.len();
    let mut i: usize = 0;
    proof {
        assert(bytes@.subrange(0, 0).len() == 0);
    }
    while i < n
        invariant
            n == bytes@.len(),
            i <= n,
            partial_valid_utf8(bytes@, i as int),
        decreases n - i,
    {
        let ghost suffix = bytes@.subrange(i as int, n as int);
        let b1 = bytes[i];
        proof {
            assert(suffix[0] == b1);
        }
        if b1 < 0x80 {
            // one-byte scalar
            proof {
                assert((b1 & 0x7F) == b1) by (bit_vector)
                    requires
                        b1 < 0x80,
                ;
                assert(valid_first_scalar(suffix));
                assert(length_of_first_scalar(suffix) == 1);
                partial_valid_utf8_extend(bytes@, i as int);
            }
            i += 1;
        } else if b1 < 0xC0 {
            // stray continuation byte: no leading-byte form matches
            proof {
                assert(!valid_leading_and_continuation_bytes_first_codepoint(suffix));
                assert(!valid_utf8(suffix));
                partial_valid_partial_invalid_utf8(bytes@, i as int);
            }
            return false;
        } else if b1 < 0xE0 {
            // two-byte scalar
            if n - i < 2 {
                proof {
                    assert(suffix.len() < 2);
                    assert(!valid_leading_and_continuation_bytes_first_codepoint(suffix));
                    assert(!valid_utf8(suffix));
                    partial_valid_partial_invalid_utf8(bytes@, i as int);
                }
                return false;
            }
            let b2 = bytes[i + 1];
            proof {
                assert(suffix[1] == b2);
            }
            if !(0x80 <= b2 && b2 < 0xC0) {
                proof {
                    assert(!valid_leading_and_continuation_bytes_first_codepoint(suffix));
                    assert(!valid_utf8(suffix));
                    partial_valid_partial_invalid_utf8(bytes@, i as int);
                }
                return false;
            }
            let cp: u32 = (((b1 & 0x1F) as u32) << 6u32) | ((b2 & 0x3F) as u32);
            proof {
                assert(cp == codepoint_width_2(b1, b2));
                assert(decode_first_codepoint(suffix) == cp);
                assert(length_of_first_codepoint(suffix) == 2);
            }
            if cp < 0x80 {
                // overlong encoding
                proof {
                    assert(!valid_first_scalar(suffix));
                    assert(!valid_utf8(suffix));
                    partial_valid_partial_invalid_utf8(bytes@, i as int);
                }
                return false;
            }
            proof {
                assert((((b1 & 0x1F) as u32) << 6u32) | ((b2 & 0x3F) as u32)
                    <= 0x7FF) by (bit_vector);
                assert(valid_first_scalar(suffix));
                assert(length_of_first_scalar(suffix) == 2);
                partial_valid_utf8_extend(bytes@, i as int);
            }
            i += 2;
        } else if b1 < 0xF0 {
            // three-byte scalar
            if n - i < 3 {
                proof {
                    assert(suffix.len() < 3);
                    assert(!valid_leading_and_continuation_bytes_first_codepoint(suffix));
                    assert(!valid_utf8(suffix));
                    partial_valid_partial_invalid_utf8(bytes@, i as int);
                }
                return false;
            }
            let b2 = bytes[i + 1];
            let b3 = bytes[i + 2];
            proof {
                assert(suffix[1] == b2);
                assert(suffix[2] == b3);
            }
            if !(0x80 <= b2 && b2 < 0xC0) || !(0x80 <= b3 && b3 < 0xC0) {
                proof {
                    assert(!valid_leading_and_continuation_bytes_first_codepoint(suffix));
                    assert(!valid_utf8(suffix));
                    partial_valid_partial_invalid_utf8(bytes@, i as int);
                }
                return false;
            }
            let cp: u32 = (((b1 & 0x0F) as u32) << 12u32) | (((b2 & 0x3F) as u32) << 6u32) | ((b3
                & 0x3F) as u32);
            proof {
                assert(cp == codepoint_width_3(b1, b2, b3));
                assert(decode_first_codepoint(suffix) == cp);
                assert(length_of_first_codepoint(suffix) == 3);
            }
            if cp < 0x800 || (0xD800 <= cp && cp <= 0xDFFF) {
                // overlong encoding or surrogate range
                proof {
                    assert(!valid_first_scalar(suffix));
                    assert(!valid_utf8(suffix));
                    partial_valid_partial_invalid_utf8(bytes@, i as int);
                }
                return false;
            }
            proof {
                assert(valid_first_scalar(suffix));
                assert(length_of_first_scalar(suffix) == 3);
                partial_valid_utf8_extend(bytes@, i as int);
            }
            i += 3;
        } else if b1 < 0xF8 {
            // four-byte scalar
            if n - i < 4 {
                proof {
                    assert(suffix.len() < 4);
                    assert(!valid_leading_and_continuation_bytes_first_codepoint(suffix));
                    assert(!valid_utf8(suffix));
                    partial_valid_partial_invalid_utf8(bytes@, i as int);
                }
                return false;
            }
            let b2 = bytes[i + 1];
            let b3 = bytes[i + 2];
            let b4 = bytes[i + 3];
            proof {
                assert(suffix[1] == b2);
                assert(suffix[2] == b3);
                assert(suffix[3] == b4);
            }
            if !(0x80 <= b2 && b2 < 0xC0) || !(0x80 <= b3 && b3 < 0xC0) || !(0x80 <= b4 && b4
                < 0xC0) {
                proof {
                    assert(!valid_leading_and_continuation_bytes_first_codepoint(suffix));
                    assert(!valid_utf8(suffix));
                    partial_valid_partial_invalid_utf8(bytes@, i as int);
                }
                return false;
            }
            let cp: u32 = (((b1 & 0x07) as u32) << 18u32) | (((b2 & 0x3F) as u32) << 12u32) | (((b3
                & 0x3F) as u32) << 6u32) | ((b4 & 0x3F) as u32);
            proof {
                assert(cp == codepoint_width_4(b1, b2, b3, b4));
                assert(decode_first_codepoint(suffix) == cp);
                assert(length_of_first_codepoint(suffix) == 4);
            }
            if cp < 0x10000 || cp > 0x10FFFF {
                // overlong encoding or beyond the last scalar
                proof {
                    assert(!valid_first_scalar(suffix));
                    assert(!valid_utf8(suffix));
                    partial_valid_partial_invalid_utf8(bytes@, i as int);
                }
                return false;
            }
            proof {
                assert(valid_first_scalar(suffix));
                assert(length_of_first_scalar(suffix) == 4);
                partial_valid_utf8_extend(bytes@, i as int);
            }
            i += 4;
        } else {
            // 0xF8..=0xFF: no leading-byte form matches
            proof {
                assert(!valid_leading_and_continuation_bytes_first_codepoint(suffix));
                assert(!valid_utf8(suffix));
                partial_valid_partial_invalid_utf8(bytes@, i as int);
            }
            return false;
        }
    }
    proof {
        assert(bytes@.subrange(0, n as int) =~= bytes@);
    }
    true
}

} // verus!
