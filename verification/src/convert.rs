use vstd::prelude::*;
use vstd::string::StrSliceExecFns;
use vstd::utf8::*;

use crate::buffer::ForeignBuffer;
use crate::codec::bytes_as_str;
use crate::codec::bytes_to_string_lossy;
use crate::codec::lossy_decode;
use crate::nul::contains_nul_byte;
use crate::nul::lemma_encode_utf8_nul;
use crate::validate::is_utf8;

verus! {

/// Outbound conversion: host text to an owned, NUL-terminated buffer whose
/// content is the UTF-8 encoding of the text.  Ownership of the buffer
/// passes to the caller with the returned value.
///
/// Text with an interior NUL character has no unambiguous wire form, so it
/// is excluded here; callers guard with [`has_interior_nul`] and treat a hit
/// as a contract violation, as the boundary adapter does.
pub fn rust_string_to_c(rust_string: String) -> (c: ForeignBuffer)
    requires
        !rust_string@.contains('\0'),
    ensures
        c.wf(),
        c@ == encode_utf8(rust_string@),
        valid_utf8(c@),
        decode_utf8(c@) == rust_string@,
{
    proof {
        lemma_encode_utf8_nul(rust_string@);
        lemma_round_trip(rust_string@);
    }
    let bytes = rust_string.as_str().as_bytes_vec();
    ForeignBuffer::from_nul_free_content(bytes)
}

/// Variant of [`rust_string_to_c`] that takes an optional text and maps
/// absence to the null sentinel (`None`) instead of converting.
pub fn opt_rust_string_to_c(opt_rust_string: Option<String>) -> (c: Option<ForeignBuffer>)
    requires
        opt_rust_string matches Some(s) ==> !s@.contains('\0'),
    ensures
        match opt_rust_string {
            Some(s) => c matches Some(b) && b.wf() && b@ == encode_utf8(s@) && valid_utf8(b@)
                && decode_utf8(b@) == s@,
            None => c is None,
        },
{
    match opt_rust_string {
        Some(s) => Some(rust_string_to_c(s)),
        None => None,
    }
}

/// Destruction: reclaims a buffer produced by [`rust_string_to_c`].  The
/// null sentinel (`None`) is accepted and is a no-op.  Taking the buffer by
/// value is the exactly-once discipline: a reclaimed buffer cannot be used
/// or reclaimed again, and no validation beyond the absence check is done.
pub fn destroy_c_string(cstring: Option<ForeignBuffer>) {
    let _ = cstring;
}

/// Borrowed inbound conversion: a view of the buffer's content as text,
/// without copying and without taking ownership.  Content that is not valid
/// UTF-8 degrades to the empty view rather than failing; the producing side
/// owes valid UTF-8, so callers that want a diagnostic test the buffer with
/// [`buffer_is_utf8`].
pub fn rust_str_from_c<'a>(c_string: &'a ForeignBuffer) -> (s: &'a str)
    ensures
        valid_utf8(c_string@) ==> s@ == decode_utf8(c_string@),
        !valid_utf8(c_string@) ==> s@ == Seq::<char>::empty(),
{
    match bytes_as_str(c_string.as_bytes()) {
        Some(v) => {
            proof {
                encode_utf8_decode_utf8(v@);
            }
            v
        },
        None => {
            proof {
                reveal_strlit("");
                assert(""@ =~= Seq::<char>::empty());
            }
            ""
        },
    }
}

/// Variant of [`rust_str_from_c`] that takes a possibly-absent buffer and
/// returns absence for the null sentinel instead of requiring presence.
pub fn opt_rust_str_from_c<'a>(c_string: Option<&'a ForeignBuffer>) -> (s: Option<&'a str>)
    ensures
        match c_string {
            Some(c) => s matches Some(v) && (valid_utf8(c@) ==> v@ == decode_utf8(c@)) && (
            !valid_utf8(c@) ==> v@ == Seq::<char>::empty()),
            None => s is None,
        },
{
    match c_string {
        Some(c) => Some(rust_str_from_c(c)),
        None => None,
    }
}

/// Owned inbound conversion: copies the buffer's content into independently
/// owned host text, decoding lossily.  It always succeeds: each invalid
/// UTF-8 sequence is replaced with U+FFFD instead of failing or truncating.
pub fn rust_string_from_c(c_string: &ForeignBuffer) -> (s: String)
    ensures
        s@ == lossy_decode(c_string@),
        valid_utf8(c_string@) ==> s@ == decode_utf8(c_string@),
        !valid_utf8(c_string@) ==> s@.contains('\u{FFFD}'),
{
    bytes_to_string_lossy(c_string.as_bytes())
}

/// Variant of [`rust_string_from_c`] that takes a possibly-absent buffer and
/// returns absence for the null sentinel instead of requiring presence.
pub fn opt_rust_string_from_c(c_string: Option<&ForeignBuffer>) -> (s: Option<String>)
    ensures
        match c_string {
            Some(c) => s matches Some(v) && v@ == lossy_decode(c@) && (valid_utf8(c@) ==> v@
                == decode_utf8(c@)) && (!valid_utf8(c@) ==> v@.contains('\u{FFFD}')),
            None => s is None,
        },
{
    match c_string {
        Some(c) => Some(rust_string_from_c(c)),
        None => None,
    }
}

/// Outbound guard: whether the text contains the NUL character, which the
/// wire format cannot carry.  Callers test this before [`rust_string_to_c`].
pub fn has_interior_nul(text: &str) -> (b: bool)
    ensures
        b <==> text@.contains('\0'),
{
    proof {
        lemma_encode_utf8_nul(text@);
    }
    contains_nul_byte(text.as_bytes())
}

/// Data-quality probe for the inbound paths: whether the buffer's content is
/// valid UTF-8.  A negative answer is the anomaly that [`rust_str_from_c`]
/// degrades on; the boundary adapter reports it as a diagnostic.
pub fn buffer_is_utf8(c_string: &ForeignBuffer) -> (b: bool)
    ensures
        b <==> valid_utf8(c_string@),
{
    is_utf8(c_string.as_bytes())
}

/// Round-trip law: the outbound wire bytes of any text are valid UTF-8 and
/// decode back to the text, so owned inbound conversion directly after
/// outbound conversion returns the original text.
pub proof fn lemma_round_trip(text: Seq<char>)
    ensures
        valid_utf8(encode_utf8(text)),
        decode_utf8(encode_utf8(text)) == text,
{
    encode_utf8_valid_utf8(text);
    encode_utf8_decode_utf8(text);
}

} // verus!
