//! The segment sequence that the evaluator consumes, and its mathematical
//! view.
//!
//! A parsing stage outside this crate produces the sequence; the evaluator
//! only borrows it read-only.

use vstd::prelude::*;

verus! {

/// An encoded segment: raw bytes together with a one-character
/// transfer-encoding tag and a charset label naming the character set of the
/// transfer-decoded bytes.
pub struct EncodedWord {
    pub encoding: char,
    pub charset: Vec<u8>,
    pub bytes: Vec<u8>,
}

/// One segment of the parsed input.
pub enum Node {
    /// Raw bytes with a transfer-encoding tag and a charset label.
    EncodedBytes(EncodedWord),
    /// Bytes expected to already be valid UTF-8 text.
    ClearBytes(Vec<u8>),
}

/// The segment sequence, owned by the parsing stage.
pub type Ast = Vec<Node>;

/// The mathematical view of one segment: the same shape over `Seq<u8>`.
pub enum SegView {
    Encoded { tag: char, charset: Seq<u8>, bytes: Seq<u8> },
    Clear(Seq<u8>),
}

impl View for Node {
    type V = SegView;

    open spec fn view(&self) -> SegView {
        match self {
            Node::EncodedBytes(word) => SegView::Encoded {
                tag: word.encoding,
                charset: word.charset@,
                bytes: word.bytes@,
            },
            Node::ClearBytes(bytes) => SegView::Clear(bytes@),
        }
    }
}

/// The view of a whole segment sequence.
pub open spec fn ast_view(nodes: Seq<Node>) -> Seq<SegView> {
    nodes.map_values(|n: Node| n@)
}

} // verus!
