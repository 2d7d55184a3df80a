//! Evaluator for sequences of clear and transfer-encoded text segments.
//!
//! The input is an ordered sequence of segments: either clear bytes that are
//! expected to already be valid UTF-8 text, or raw bytes carrying a
//! one-character transfer-encoding tag (`B` for base64, anything else for
//! robust quoted-printable) together with a charset label. The evaluator
//! turns every segment into best-effort readable text and concatenates the
//! results; a decode failure never aborts the whole evaluation, it only
//! replaces that segment's text with a lossy fallback reading of its raw
//! bytes.

pub mod ast;
pub mod codec;
pub mod evaluator;
pub mod laws;
pub mod model;

pub use ast::Ast;
pub use ast::EncodedWord;
pub use ast::Node;
pub use ast::SegView;
pub use evaluator::decode_utf8;
pub use evaluator::decode_with_charset;
pub use evaluator::decode_with_encoding;
pub use evaluator::run;
pub use evaluator::Error;
