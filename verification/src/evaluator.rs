//! The three decoding stages and the driver that folds them over a segment
//! sequence.

use crate::ast::Ast;
use crate::ast::Node;
use crate::ast::ast_view;
use crate::codec::ascii_decode;
use crate::codec::b64_decode;
use crate::codec::charset_resolve_and_decode;
use crate::codec::qp_decode_robust;
use crate::codec::utf8_from_bytes;
use crate::codec::utf8_lossy_from_bytes;
use crate::model::base64_decoded;
use crate::model::charset_stage_text;
use crate::model::eval_seg;
use crate::model::eval_segs;
use crate::model::is_b_tag;
use crate::model::qp_decoded;
use crate::model::transfer_decoded;
use crate::model::underscores_to_spaces;
use vstd::prelude::*;
use vstd::string::StringExecFns;
use vstd::utf8::valid_utf8;

verus! {

/// The three failures a decoding stage can report. The driver absorbs every
/// one of them into a per-segment fallback; none reaches the caller of
/// [`run`].
#[derive(Debug)]
pub enum Error {
    /// Clear-segment bytes are not valid UTF-8.
    DecodeUtf8Error(core::str::Utf8Error),
    /// Bytes tagged `B` are not valid base64.
    DecodeBase64Error(base64::DecodeError),
    /// Bytes on the quoted-printable path were rejected; robust parsing
    /// accepts every input, so no input produces this today.
    DecodeQuotedPrintableError(quoted_printable::QuotedPrintableError),
}

/// Reads clear-segment bytes as UTF-8 text, exactly when they are valid.
pub fn decode_utf8(encoded_bytes: &Vec<u8>) -> (r: Result<&str, Error>)
    ensures
        r is Ok <==> valid_utf8(encoded_bytes@),
        r matches Ok(s) ==> s@ == vstd::utf8::decode_utf8(encoded_bytes@),
        r matches Err(e) ==> e is DecodeUtf8Error,
{
    match utf8_from_bytes(encoded_bytes) {
        Ok(s) => Ok(s),
        Err(e) => Err(Error::DecodeUtf8Error(e)),
    }
}

/// Base64-decodes the bytes; fails exactly where the codec rejects them.
fn decode_base64(encoded_bytes: &Vec<u8>) -> (r: Result<Vec<u8>, Error>)
    ensures
        r is Ok <==> base64_decoded(encoded_bytes@) is Some,
        r matches Ok(v) ==> Some(v@) == base64_decoded(encoded_bytes@),
        r matches Err(e) ==> e is DecodeBase64Error,
{
    match b64_decode(encoded_bytes) {
        Ok(v) => Ok(v),
        Err(e) => Err(Error::DecodeBase64Error(e)),
    }
}

/// Rewrites every literal underscore to a space, then decodes the result as
/// quoted-printable in robust mode. Robust decoding accepts every input, so
/// this always succeeds.
fn decode_quoted_printable(encoded_bytes: &Vec<u8>) -> (r: Result<Vec<u8>, Error>)
    ensures
        r matches Ok(v) && v@ == qp_decoded(underscores_to_spaces(encoded_bytes@)),
{
    let mut rewritten: Vec<u8> = Vec::new();
    let mut i: usize = 0;
    while i < encoded_bytes.len()
        invariant
            i <= encoded_bytes.len(),
            rewritten@ == underscores_to_spaces(encoded_bytes@.take(i as int)),
        decreases encoded_bytes.len() - i,
    {
        let b = encoded_bytes[i];
        if b == 95u8 {
            rewritten.push(32u8);
        } else {
            rewritten.push(b);
        }
        proof {
            assert(underscores_to_spaces(encoded_bytes@.take(i + 1)) =~= rewritten@);
        }
        i = i + 1;
    }
    proof {
        assert(encoded_bytes@.take(encoded_bytes@.len() as int) =~= encoded_bytes@);
    }
    match qp_decode_robust(&rewritten) {
        Ok(v) => Ok(v),
        Err(e) => Err(Error::DecodeQuotedPrintableError(e)),
    }
}

/// The transfer-decoding stage: a `B` tag (case-insensitively) selects
/// base64, every other tag selects robust quoted-printable with the
/// underscore rewrite. Fails exactly where base64 rejects `B`-tagged bytes.
pub fn decode_with_encoding(encoding: char, encoded_bytes: &Vec<u8>) -> (r: Result<Vec<u8>, Error>)
    ensures
        r is Ok <==> transfer_decoded(encoding, encoded_bytes@) is Some,
        r matches Ok(v) ==> Some(v@) == transfer_decoded(encoding, encoded_bytes@),
        r matches Err(e) ==> is_b_tag(encoding) && e is DecodeBase64Error,
{
    if encoding == 'B' || encoding == 'b' {
        decode_base64(encoded_bytes)
    } else {
        decode_quoted_printable(encoded_bytes)
    }
}

/// The charset-decoding stage: decodes the bytes with the charset the label
/// resolves to, or reads them as lossy ASCII where the label resolves to
/// nothing. Never fails.
pub fn decode_with_charset(charset: &Vec<u8>, decoded_bytes: &Vec<u8>) -> (r: Result<String, Error>)
    ensures
        r matches Ok(s) && s@ == charset_stage_text(charset@, decoded_bytes@),
{
    match charset_resolve_and_decode(charset, decoded_bytes) {
        Some(s) => Ok(s),
        None => Ok(ascii_decode(decoded_bytes)),
    }
}

/// The driver: evaluates every segment in order and concatenates the texts.
/// A failing stage never fails the call — the segment contributes the lossy
/// UTF-8 reading of its original raw bytes instead.
pub fn run(ast: &Ast) -> (r: Result<String, Error>)
    ensures
        r matches Ok(out) && out@ == eval_segs(ast_view(ast@)),
{
    let mut output = String::new();
    let mut i: usize = 0;
    while i < ast.len()
        invariant
            i <= ast.len(),
            output@ == eval_segs(ast_view(ast@).take(i as int)),
        decreases ast.len() - i,
    {
        let node = &ast[i];
        match node {
            Node::EncodedBytes(word) => {
                let decoded_str = match decode_with_encoding(word.encoding, &word.bytes) {
                    Ok(decoded_bytes) => match decode_with_charset(&word.charset, &decoded_bytes) {
                        Ok(decoded_str) => decoded_str,
                        Err(_) => utf8_lossy_from_bytes(&word.bytes),
                    },
                    Err(_) => utf8_lossy_from_bytes(&word.bytes),
                };
                output.append(decoded_str.as_str());
            },
            Node::ClearBytes(clear_bytes) => {
                match decode_utf8(clear_bytes) {
                    Ok(clear_str) => {
                        output.append(clear_str);
                    },
                    Err(_) => {
                        let fallback = utf8_lossy_from_bytes(clear_bytes);
                        output.append(fallback.as_str());
                    },
                }
            },
        }
        proof {
            let views = ast_view(ast@);
            assert(views.take(i + 1).drop_last() =~= views.take(i as int));
            assert(views.take(i + 1).last() == ast@[i as int]@);
            assert(output@ =~= eval_segs(views.take(i as int)) + eval_seg(ast@[i as int]@));
        }
        i = i + 1;
    }
    proof {
        assert(ast_view(ast@).take(ast@.len() as int) =~= ast_view(ast@));
    }
    Ok(output)
}

} // verus!
