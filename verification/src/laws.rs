//! Laws of the evaluator, stated over the model of [`crate::model`] and
//! proved once for all inputs.

use crate::ast::SegView;
use crate::model::ascii_lossy;
use crate::model::base64_decoded;
use crate::model::charset_known;
use crate::model::charset_stage_text;
use crate::model::eval_seg;
use crate::model::eval_segs;
use crate::model::is_b_tag;
use crate::model::is_utf8_label;
use crate::model::qp_decoded;
use crate::model::starts_with_utf8_bom;
use crate::model::transfer_decoded;
use crate::model::underscores_to_spaces;
use crate::model::utf8_lossy;
use vstd::prelude::*;
use vstd::utf8::encode_utf8;

verus! {

/// Law: an empty segment sequence evaluates to the empty text.
pub proof fn lemma_eval_empty()
    ensures
        eval_segs(Seq::<SegView>::empty()) == Seq::<char>::empty(),
{
}

/// Law: evaluation distributes over concatenation of segment sequences, so
/// the output is the ordered concatenation of the segments' individual
/// texts, and reordering segments reorders the output identically.
pub proof fn lemma_eval_concat(s1: Seq<SegView>, s2: Seq<SegView>)
    ensures
        eval_segs(s1 + s2) == eval_segs(s1) + eval_segs(s2),
    decreases s2.len(),
{
    if s2.len() == 0 {
        assert(s1 + s2 =~= s1);
        assert(eval_segs(s1) + eval_segs(s2) =~= eval_segs(s1));
    } else {
        lemma_eval_concat(s1, s2.drop_last());
        assert((s1 + s2).drop_last() =~= s1 + s2.drop_last());
        assert(eval_segs(s1) + eval_segs(s2.drop_last()) + eval_seg(s2.last()) =~= eval_segs(s1)
            + eval_segs(s2));
    }
}

/// Law: a single segment evaluates to exactly its own text.
pub proof fn lemma_eval_singleton(seg: SegView)
    ensures
        eval_segs(seq![seg]) == eval_seg(seg),
{
    assert(seq![seg].drop_last() =~= Seq::<SegView>::empty());
    assert(eval_segs(seq![seg].drop_last()) + eval_seg(seg) =~= eval_seg(seg));
}

/// Law (base64 round trip): a segment tagged `B` whose raw bytes base64-
/// decode to the UTF-8 encoding of a text, with a label naming UTF-8,
/// evaluates to exactly that text — provided the encoded bytes do not begin
/// with the UTF-8 byte-order mark, which the charset decoder strips.
pub proof fn lemma_base64_round_trip(tag: char, label: Seq<u8>, raw: Seq<u8>, text: Seq<char>)
    requires
        is_b_tag(tag),
        is_utf8_label(label),
        base64_decoded(raw) == Some(encode_utf8(text)),
        !starts_with_utf8_bom(encode_utf8(text)),
    ensures
        eval_seg(SegView::Encoded { tag, charset: label, bytes: raw }) == text,
        eval_segs(seq![SegView::Encoded { tag, charset: label, bytes: raw }]) == text,
{
    broadcast use vstd::utf8::encode_utf8_valid_utf8;
    broadcast use vstd::utf8::encode_utf8_decode_utf8;

    lemma_eval_singleton(SegView::Encoded { tag, charset: label, bytes: raw });
}

/// Law (underscore rule): the rewrite that precedes quoted-printable
/// decoding keeps the length and turns exactly the literal underscores into
/// spaces.
pub proof fn lemma_underscore_rewrite(raw: Seq<u8>)
    ensures
        underscores_to_spaces(raw).len() == raw.len(),
        forall|i: int|
            0 <= i < raw.len() ==> underscores_to_spaces(raw)[i] == (if raw[i] == 95u8 {
                32u8
            } else {
                raw[i]
            }),
{
}

/// Law (underscore rule, at the segment level): a segment with any non-`B`
/// tag evaluates through quoted-printable decoding of the underscore-
/// rewritten bytes — underscores reach the decoder as spaces, never as
/// underscores.
pub proof fn lemma_qp_underscore_rule(tag: char, label: Seq<u8>, raw: Seq<u8>)
    requires
        !is_b_tag(tag),
    ensures
        eval_seg(SegView::Encoded { tag, charset: label, bytes: raw }) == charset_stage_text(
            label,
            qp_decoded(underscores_to_spaces(raw)),
        ),
{
}

/// Law (charset fallback): where transfer decoding succeeds but the label
/// resolves to no charset, the segment evaluates to the lossy ASCII reading
/// of the transfer-decoded bytes — every byte below 0x80 as itself, every
/// other byte as U+FFFD — never to an error.
pub proof fn lemma_charset_fallback(tag: char, label: Seq<u8>, raw: Seq<u8>, decoded: Seq<u8>)
    requires
        !charset_known(label),
        transfer_decoded(tag, raw) == Some(decoded),
    ensures
        eval_seg(SegView::Encoded { tag, charset: label, bytes: raw }) == ascii_lossy(decoded),
        ascii_lossy(decoded).len() == decoded.len(),
        forall|i: int|
            0 <= i < decoded.len() ==> ascii_lossy(decoded)[i] == (if decoded[i] < 128 {
                decoded[i] as char
            } else {
                '\u{fffd}'
            }),
{
}

/// Law (malformed-encoding fallback): a segment tagged `B` whose raw bytes
/// base64 rejects evaluates to the lossy UTF-8 reading of the original raw
/// bytes, never to an error.
pub proof fn lemma_malformed_base64_fallback(tag: char, label: Seq<u8>, raw: Seq<u8>)
    requires
        is_b_tag(tag),
        base64_decoded(raw) is None,
    ensures
        eval_seg(SegView::Encoded { tag, charset: label, bytes: raw }) == utf8_lossy(raw),
{
}

/// Law (clear-segment pass-through): a clear segment whose bytes encode a
/// text in UTF-8 evaluates to exactly that text.
pub proof fn lemma_clear_passthrough(text: Seq<char>)
    ensures
        eval_seg(SegView::Clear(encode_utf8(text))) == text,
{
    broadcast use vstd::utf8::encode_utf8_valid_utf8;
    broadcast use vstd::utf8::encode_utf8_decode_utf8;

}

} // verus!
