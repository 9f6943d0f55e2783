use vstd::prelude::*;
use vstd::utf8::*;

verus! {

/// The character sequence that lossy UTF-8 decoding yields for the given
/// bytes: valid sequences decode as usual, invalid sequences are replaced
/// with U+FFFD.  The exact placement of replacement characters is std's and
/// is not spelled out here; what the contracts need of it is stated on
/// [`bytes_to_string_lossy`].
pub uninterp spec fn lossy_decode(bytes: Seq<u8>) -> Seq<char>;

/// Relies on core::str::from_utf8: it returns `Ok` exactly when the bytes
/// are a valid UTF-8 encoding, and the resulting `str` views those same
/// bytes (as vstd states of `str::from_utf8_unchecked`).
#[verifier::external_body]
pub(crate) fn bytes_as_str(bytes: &[u8]) -> (r: Option<&str>)
    ensures
        match r {
            Some(s) => valid_utf8(bytes@) && encode_utf8(s@) == bytes@,
            None => !valid_utf8(bytes@),
        },
{
    core::str::from_utf8(bytes).ok()
}

/// Relies on String::from_utf8_lossy: it always succeeds, depends on the
/// bytes alone, returns valid UTF-8 unchanged, and substitutes U+FFFD for
/// each invalid sequence.
#[verifier::external_body]
pub(crate) fn bytes_to_string_lossy(bytes: &[u8]) -> (r: String)
    ensures
        r@ == lossy_decode(bytes@),
        valid_utf8(bytes@) ==> r@ == decode_utf8(bytes@),
        !valid_utf8(bytes@) ==> r@.contains('\u{FFFD}'),
{
    String::from_utf8_lossy(bytes).into_owned()
}

} // verus!
