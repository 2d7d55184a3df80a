//! Trusted declarations for the outside codecs.
//!
//! Each wrapper makes exactly one outside call; its contract states what the
//! codec's source shows, over the names and spec functions of
//! [`crate::model`]. Everything else in the crate is verified against these
//! contracts.

use crate::model::ascii_lossy;
use crate::model::base64_decoded;
use crate::model::charset_decoded;
use crate::model::charset_known;
use crate::model::charset_label_known;
use crate::model::charset_text;
use crate::model::is_utf8_label;
use crate::model::qp_decoded;
use crate::model::starts_with_utf8_bom;
use crate::model::utf8_lossy;
use vstd::prelude::*;
use vstd::utf8::valid_utf8;

verus! {

#[verifier::external_type_specification]
#[verifier::external_body]
pub struct ExBase64DecodeError(base64::DecodeError);

#[verifier::external_type_specification]
#[verifier::external_body]
pub struct ExQuotedPrintableError(quoted_printable::QuotedPrintableError);

#[verifier::external_type_specification]
#[verifier::external_body]
pub struct ExUtf8Error(core::str::Utf8Error);

/// Relies on `base64::decode`: strict decoding with the standard alphabet,
/// deterministic in the input bytes alone, rejecting invalid symbols and
/// padding.
#[verifier::external_body]
pub(crate) fn b64_decode(encoded: &Vec<u8>) -> (r: Result<Vec<u8>, base64::DecodeError>)
    ensures
        r is Ok <==> base64_decoded(encoded@) is Some,
        r matches Ok(v) ==> Some(v@) == base64_decoded(encoded@),
{
    base64::decode(encoded)
}

/// Relies on `quoted_printable::decode` in `ParseMode::Robust`:
/// deterministic in the input bytes alone, and never an error — every error
/// return in its source is behind a strict-mode test.
#[verifier::external_body]
pub(crate) fn qp_decode_robust(encoded: &Vec<u8>) -> (r: Result<
    Vec<u8>,
    quoted_printable::QuotedPrintableError,
>)
    ensures
        r is Ok,
        r matches Ok(v) ==> v@ == qp_decoded(encoded@),
{
    quoted_printable::decode(encoded, quoted_printable::ParseMode::Robust)
}

/// Relies on `core::str::from_utf8`: `Ok` exactly on valid UTF-8, returning
/// the text the bytes encode.
#[verifier::external_body]
pub(crate) fn utf8_from_bytes(bytes: &Vec<u8>) -> (r: Result<&str, core::str::Utf8Error>)
    ensures
        r is Ok <==> valid_utf8(bytes@),
        r matches Ok(s) ==> s@ == vstd::utf8::decode_utf8(bytes@),
{
    core::str::from_utf8(bytes)
}

/// Relies on `String::from_utf8_lossy`: deterministic in the bytes alone,
/// and documented to return the text unchanged where the bytes are valid
/// UTF-8.
#[verifier::external_body]
pub(crate) fn utf8_lossy_from_bytes(bytes: &Vec<u8>) -> (r: String)
    ensures
        r@ == utf8_lossy(bytes@),
        valid_utf8(bytes@) ==> r@ == vstd::utf8::decode_utf8(bytes@),
{
    String::from_utf8_lossy(bytes).into_owned()
}

/// Relies on `charset::Charset::for_label` (a pure lookup in the WHATWG
/// Encoding Standard label table, extended with UTF-7) and
/// `charset::Charset::decode` (BOM-sniffing lossy decode, deterministic in
/// the charset and the bytes; for a UTF-8 label on valid UTF-8 bytes with no
/// leading byte-order mark it returns the text those bytes encode).
#[verifier::external_body]
pub(crate) fn charset_resolve_and_decode(label: &Vec<u8>, bytes: &Vec<u8>) -> (r: Option<String>)
    ensures
        r is Some <==> is_utf8_label(label@) || charset_label_known(label@),
        r is Some <==> charset_known(label@),
        r matches Some(s) ==> s@ == charset_text(label@, bytes@),
        r matches Some(s) ==> (!(is_utf8_label(label@) && valid_utf8(bytes@)
            && !starts_with_utf8_bom(bytes@)) ==> s@ == charset_decoded(label@, bytes@)),
{
    match charset::Charset::for_label(label) {
        Some(cs) => Some(cs.decode(bytes).0.into_owned()),
        None => None,
    }
}

/// Relies on `charset::decode_ascii`: bytes below 0x80 pass through as the
/// characters they are; every other byte becomes U+FFFD.
#[verifier::external_body]
pub(crate) fn ascii_decode(bytes: &Vec<u8>) -> (r: String)
    ensures
        r@ == ascii_lossy(bytes@),
{
    charset::decode_ascii(bytes).into_owned()
}

} // verus!
