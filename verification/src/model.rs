//! The mathematical model of evaluation.
//!
//! Each decoding stage has a spec-level counterpart. The stages that the
//! crate computes itself (tag dispatch, the underscore rewrite, lossy ASCII
//! reading) are defined exactly; what an outside codec computes (base64,
//! quoted-printable, charset tables, lossy UTF-8 reading) is given a name
//! here, and the trusted declarations in [`crate::codec`] tie each name to
//! the codec that computes it.

use crate::ast::SegView;
use vstd::prelude::*;
use vstd::utf8::decode_utf8;
use vstd::utf8::valid_utf8;

verus! {

/// What `base64::decode` returns: `Some` with the decoded bytes on valid
/// base64 input, `None` where the input is rejected.
pub uninterp spec fn base64_decoded(encoded: Seq<u8>) -> Option<Seq<u8>>;

/// What `quoted_printable::decode` returns in robust parse mode, which
/// accepts every input.
pub uninterp spec fn qp_decoded(encoded: Seq<u8>) -> Seq<u8>;

/// What `String::from_utf8_lossy` returns: the bytes read as UTF-8 text with
/// every invalid sequence replaced by U+FFFD.
pub uninterp spec fn utf8_lossy(bytes: Seq<u8>) -> Seq<char>;

/// What `charset::Charset::decode` returns for the charset that the label
/// resolves to, on labels outside the exactly-modelled UTF-8 case.
pub uninterp spec fn charset_decoded(label: Seq<u8>, bytes: Seq<u8>) -> Seq<char>;

/// Whether `charset::Charset::for_label` resolves the label, for labels
/// outside the exactly-modelled UTF-8 case.
pub uninterp spec fn charset_label_known(label: Seq<u8>) -> bool;

/// The tags that select base64 transfer decoding; every other tag selects
/// robust quoted-printable decoding.
pub open spec fn is_b_tag(tag: char) -> bool {
    tag == 'B' || tag == 'b'
}

/// ASCII lower-casing of one byte, as charset label matching applies it.
pub open spec fn ascii_lower_byte(b: u8) -> u8 {
    if 65 <= b && b <= 90 {
        (b + 32) as u8
    } else {
        b
    }
}

/// Labels that name the UTF-8 charset: `utf-8` or `utf8`, ASCII
/// case-insensitively. (The registry accepts further aliases and surrounding
/// whitespace; those resolve too, but only through [`charset_label_known`].)
pub open spec fn is_utf8_label(label: Seq<u8>) -> bool {
    ||| label.map_values(|b: u8| ascii_lower_byte(b)) == seq![117u8, 116u8, 102u8, 45u8, 56u8]
    ||| label.map_values(|b: u8| ascii_lower_byte(b)) == seq![117u8, 116u8, 102u8, 56u8]
}

/// Whether the bytes begin with the UTF-8 byte-order mark, which the charset
/// decoder strips before decoding.
pub open spec fn starts_with_utf8_bom(bytes: Seq<u8>) -> bool {
    bytes.len() >= 3 && bytes[0] == 0xefu8 && bytes[1] == 0xbbu8 && bytes[2] == 0xbfu8
}

/// Whether the charset label resolves against the registry.
pub open spec fn charset_known(label: Seq<u8>) -> bool {
    is_utf8_label(label) || charset_label_known(label)
}

/// The text that decoding `bytes` with the charset named by a resolved
/// `label` yields. For a UTF-8 label on valid UTF-8 bytes with no leading
/// byte-order mark this is exactly the UTF-8 reading of the bytes; the rest
/// is the named outside result.
pub open spec fn charset_text(label: Seq<u8>, bytes: Seq<u8>) -> Seq<char> {
    if is_utf8_label(label) && valid_utf8(bytes) && !starts_with_utf8_bom(bytes) {
        decode_utf8(bytes)
    } else {
        charset_decoded(label, bytes)
    }
}

/// The bytes read as ASCII, every byte outside the ASCII range replaced by
/// U+FFFD.
pub open spec fn ascii_lossy(bytes: Seq<u8>) -> Seq<char> {
    bytes.map_values(|b: u8| if b < 128 { b as char } else { '\u{fffd}' })
}

/// The underscore rewrite that precedes quoted-printable decoding: every
/// literal underscore byte becomes a space byte.
pub open spec fn underscores_to_spaces(bytes: Seq<u8>) -> Seq<u8> {
    bytes.map_values(|b: u8| if b == 95u8 { 32u8 } else { b })
}

/// The transfer-decoding stage: base64 for a `B` tag (which can reject the
/// input), robust quoted-printable of the underscore-rewritten bytes for
/// every other tag (which accepts every input).
pub open spec fn transfer_decoded(tag: char, bytes: Seq<u8>) -> Option<Seq<u8>> {
    if is_b_tag(tag) {
        base64_decoded(bytes)
    } else {
        Some(qp_decoded(underscores_to_spaces(bytes)))
    }
}

/// The charset-decoding stage: the resolved charset's text where the label
/// resolves, lossy ASCII reading where it does not. This stage never fails.
pub open spec fn charset_stage_text(label: Seq<u8>, bytes: Seq<u8>) -> Seq<char> {
    if charset_known(label) {
        charset_text(label, bytes)
    } else {
        ascii_lossy(bytes)
    }
}

/// The text a clear segment contributes: its bytes read as UTF-8 where they
/// are valid, their lossy UTF-8 reading otherwise.
pub open spec fn clear_text(bytes: Seq<u8>) -> Seq<char> {
    if valid_utf8(bytes) {
        decode_utf8(bytes)
    } else {
        utf8_lossy(bytes)
    }
}

/// The text an encoded segment contributes: both decoding stages where
/// transfer decoding succeeds, the lossy UTF-8 reading of the original raw
/// bytes where it fails.
pub open spec fn encoded_text(tag: char, label: Seq<u8>, bytes: Seq<u8>) -> Seq<char> {
    match transfer_decoded(tag, bytes) {
        Some(decoded) => charset_stage_text(label, decoded),
        None => utf8_lossy(bytes),
    }
}

/// The text one segment contributes to the output.
pub open spec fn eval_seg(seg: SegView) -> Seq<char> {
    match seg {
        SegView::Encoded { tag, charset, bytes } => encoded_text(tag, charset, bytes),
        SegView::Clear(bytes) => clear_text(bytes),
    }
}

/// The whole output: the ordered concatenation of every segment's text.
pub open spec fn eval_segs(segs: Seq<SegView>) -> Seq<char>
    decreases segs.len(),
{
    if segs.len() == 0 {
        Seq::empty()
    } else {
        eval_segs(segs.drop_last()) + eval_seg(segs.last())
    }
}

} // verus!
