use vstd::prelude::*;
use vstd::utf8::*;

verus! {

/// A Unicode scalar's UTF-8 encoding contains the NUL byte exactly when the
/// character is NUL itself: every byte of a multi-byte encoding has its high
/// bit set, and a one-byte encoding is the scalar value.
pub proof fn lemma_encode_scalar_nul(c: char)
    ensures
        encode_scalar(c as u32).contains(0u8) <==> c == '\0',
{
    char_is_scalar(c);
    char_u32_cast(c, c as u32);
    char_u32_cast('\0', '\0' as u32);
    let v = c as u32;
    let e = encode_scalar(v);
    if has_width_1_encoding(v) {
        let b1 = leading_byte_width_1(v);
        assert((v & 0x7F) as u8 == 0u8 <==> v == 0) by (bit_vector)
            requires
                v <= 0x7F,
        ;
        if e.contains(0u8) {
            let i = choose|i: int| 0 <= i < e.len() && e[i] == 0u8;
            assert(e[0] == b1);
        }
        if v == 0 {
            assert(e[0] == 0u8);
        }
    } else if has_width_2_encoding(v) {
        let b1 = leading_byte_width_2(v);
        let b2 = last_continuation_byte(v);
        assert((0xC0u8 | (((v >> 6) & 0x1F) as u8)) != 0u8 && (0x80u8 | ((v & 0x3F) as u8))
            != 0u8) by (bit_vector);
        if e.contains(0u8) {
            let i = choose|i: int| 0 <= i < e.len() && e[i] == 0u8;
            assert(e[0] == b1 && e[1] == b2);
        }
    } else if has_width_3_encoding(v) {
        let b1 = leading_byte_width_3(v);
        let b2 = second_last_continuation_byte(v);
        let b3 = last_continuation_byte(v);
        assert((0xE0u8 | (((v >> 12) & 0x0F) as u8)) != 0u8 && (0x80u8 | (((v >> 6) & 0x3F) as u8))
            != 0u8 && (0x80u8 | ((v & 0x3F) as u8)) != 0u8) by (bit_vector);
        if e.contains(0u8) {
            let i = choose|i: int| 0 <= i < e.len() && e[i] == 0u8;
            assert(e[0] == b1 && e[1] == b2 && e[2] == b3);
        }
    } else {
        let b1 = leading_byte_width_4(v);
        let b2 = third_last_continuation_byte(v);
        let b3 = second_last_continuation_byte(v);
        let b4 = last_continuation_byte(v);
        assert((0xF0u8 | (((v >> 18) & 0x7) as u8)) != 0u8 && (0x80u8 | (((v >> 12) & 0x3F) as u8))
            != 0u8 && (0x80u8 | (((v >> 6) & 0x3F) as u8)) != 0u8 && (0x80u8 | ((v & 0x3F) as u8))
            != 0u8) by (bit_vector);
        if e.contains(0u8) {
            let i = choose|i: int| 0 <= i < e.len() && e[i] == 0u8;
            assert(e[0] == b1 && e[1] == b2 && e[2] == b3 && e[3] == b4);
        }
    }
}

/// Interior-NUL law: the UTF-8 wire encoding of a text contains a NUL byte
/// exactly when the text contains the NUL character.  This is what lets the
/// outbound converter frame its output with a single, unambiguous terminator.
pub proof fn lemma_encode_utf8_nul(chars: Seq<char>)
    ensures
        encode_utf8(chars).contains(0u8) <==> chars.contains('\0'),
    decreases chars.len(),
{
    if chars.len() == 0 {
        assert(!chars.contains('\0'));
        assert(!encode_utf8(chars).contains(0u8));
    } else {
        let head = encode_scalar(chars[0] as u32);
        let tail = encode_utf8(chars.drop_first());
        let e = encode_utf8(chars);
        let rest = chars.drop_first();
        assert(e == head + tail);
        lemma_encode_scalar_nul(chars[0]);
        lemma_encode_utf8_nul(rest);
        assert(e.contains(0u8) <==> head.contains(0u8) || tail.contains(0u8)) by {
            if e.contains(0u8) {
                let i = choose|i: int| 0 <= i < e.len() && e[i] == 0u8;
                if i < head.len() {
                    assert(head[i] == 0u8);
                } else {
                    assert(tail[i - head.len()] == 0u8);
                }
            }
            if head.contains(0u8) {
                let i = choose|i: int| 0 <= i < head.len() && head[i] == 0u8;
                assert(e[i] == 0u8);
            }
            if tail.contains(0u8) {
                let i = choose|i: int| 0 <= i < tail.len() && tail[i] == 0u8;
                assert(e[head.len() + i] == 0u8);
            }
        }
        assert(chars.contains('\0') <==> chars[0] == '\0' || rest.contains('\0')) by {
            if chars.contains('\0') {
                let i = choose|i: int| 0 <= i < chars.len() && chars[i] == '\0';
                if i != 0 {
                    assert(rest[i - 1] == '\0');
                }
            }
            if chars[0] == '\0' {
                assert(chars.contains('\0'));
            }
            if rest.contains('\0') {
                let i = choose|i: int| 0 <= i < rest.len() && rest[i] == '\0';
                assert(chars[i + 1] == '\0');
            }
        }
    }
}

/// Scans a byte sequence for a NUL byte.
pub fn contains_nul_byte(bytes: &[u8]) -> (b: bool)
    ensures
        b <==> bytes@.contains(0u8),
{
    let n = bytes.len();
    let mut i: usize = 0;
    while i < n
        invariant
            n == bytes@.len(),
            i <= n,
            forall|j: int| 0 <= j < i ==> bytes@[j] != 0u8,
        decreases n - i,
    {
        if bytes[i] == 0u8 {
            assert(bytes@[i as int] == 0u8);
            assert(bytes@.contains(0u8));
            return true;
        }
        i += 1;
    }
    proof {
        if bytes@.contains(0u8) {
            let k = choose|k: int| 0 <= k < bytes@.len() && bytes@[k] == 0u8;
            assert(bytes@[k] != 0u8);
        }
    }
    false
}

} // verus!
