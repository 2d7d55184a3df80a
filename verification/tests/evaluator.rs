use encoded_words::run;
use encoded_words::decode_utf8;
use encoded_words::decode_with_charset;
use encoded_words::decode_with_encoding;
use encoded_words::EncodedWord;
use encoded_words::Error;
use encoded_words::Node;

fn encoded(tag: char, charset: &[u8], bytes: &[u8]) -> Node {
    Node::EncodedBytes(EncodedWord {
        encoding: tag,
        charset: charset.to_vec(),
        bytes: bytes.to_vec(),
    })
}

fn clear(bytes: &[u8]) -> Node {
    Node::ClearBytes(bytes.to_vec())
}

#[test]
fn empty_ast_yields_empty_string() {
    let ast: Vec<Node> = Vec::new();
    assert_eq!(run(&ast).unwrap(), "");
}

#[test]
fn clear_segment_passthrough() {
    let ast = vec![clear(b"hello world")];
    assert_eq!(run(&ast).unwrap(), "hello world");
}

#[test]
fn clear_segment_invalid_utf8_gets_lossy_fallback() {
    let ast = vec![clear(&[0xff, 0x61])];
    assert_eq!(run(&ast).unwrap(), "\u{fffd}a");
}

#[test]
fn concatenation_preserves_segment_order() {
    let a = clear(b"ab");
    let b = encoded('Q', b"utf-8", b"=43");
    let ast = vec![a, b];
    assert_eq!(run(&ast).unwrap(), "abC");

    let a = clear(b"ab");
    let b = encoded('Q', b"utf-8", b"=43");
    let ast = vec![b, a];
    assert_eq!(run(&ast).unwrap(), "Cab");
}

#[test]
fn base64_round_trip_utf8() {
    let text = "h\u{e9}llo \u{2603}";
    let raw = base64::encode(text.as_bytes()).into_bytes();
    let ast = vec![encoded('B', b"UTF-8", &raw)];
    assert_eq!(run(&ast).unwrap(), text);
}

#[test]
fn base64_tag_is_case_insensitive() {
    let raw = base64::encode(b"hi").into_bytes();
    let ast = vec![encoded('b', b"utf-8", &raw)];
    assert_eq!(run(&ast).unwrap(), "hi");
}

#[test]
fn quoted_printable_underscores_become_spaces() {
    let ast = vec![encoded('Q', b"utf-8", b"a_b=41")];
    assert_eq!(run(&ast).unwrap(), "a bA");
}

#[test]
fn unknown_tag_falls_back_to_quoted_printable() {
    let ast = vec![encoded('7', b"utf-8", b"x_y")];
    assert_eq!(run(&ast).unwrap(), "x y");
}

#[test]
fn unresolvable_charset_falls_back_to_lossy_ascii() {
    let ast = vec![encoded('Q', b"no-such-charset-zzz", b"caf=E9")];
    assert_eq!(run(&ast).unwrap(), "caf\u{fffd}");
}

#[test]
fn malformed_base64_falls_back_to_lossy_raw_bytes() {
    let ast = vec![encoded('B', b"utf-8", b"!!!")];
    let out = run(&ast).unwrap();
    assert_eq!(out, "!!!");
    assert!(!out.is_empty());
}

#[test]
fn latin1_label_decodes_with_that_charset() {
    let raw = base64::encode(&[0xe9u8]).into_bytes();
    let ast = vec![encoded('B', b"iso-8859-1", &raw)];
    assert_eq!(run(&ast).unwrap(), "\u{e9}");
}

#[test]
fn utf8_bom_is_stripped_by_the_charset_decoder() {
    let raw = base64::encode(&[0xef, 0xbb, 0xbf, 0x68, 0x69]).into_bytes();
    let ast = vec![encoded('B', b"utf-8", &raw)];
    assert_eq!(run(&ast).unwrap(), "hi");
}

#[test]
fn charset_label_resolution_trims_and_ignores_case() {
    let ast = vec![encoded('Q', b" UTF-8 ", b"=C3=A9")];
    assert_eq!(run(&ast).unwrap(), "\u{e9}");
}

#[test]
fn decode_with_encoding_base64_ok() {
    assert_eq!(decode_with_encoding('B', &b"aGk=".to_vec()).unwrap(), b"hi".to_vec());
}

#[test]
fn decode_with_encoding_base64_error_variant() {
    let r = decode_with_encoding('B', &b"!!!".to_vec());
    assert!(matches!(r, Err(Error::DecodeBase64Error(_))));
}

#[test]
fn decode_with_encoding_quoted_printable() {
    assert_eq!(decode_with_encoding('Q', &b"_=41".to_vec()).unwrap(), b" A".to_vec());
}

#[test]
fn decode_with_charset_unknown_label_replaces_non_ascii() {
    let r = decode_with_charset(&b"nonsense".to_vec(), &vec![0x41, 0x80]).unwrap();
    assert_eq!(r, "A\u{fffd}");
}

#[test]
fn decode_with_charset_utf8_label() {
    let bytes = "snow \u{2603}".as_bytes().to_vec();
    let r = decode_with_charset(&b"utf-8".to_vec(), &bytes).unwrap();
    assert_eq!(r, "snow \u{2603}");
}

#[test]
fn decode_with_charset_utf8_label_invalid_bytes_are_replaced() {
    let r = decode_with_charset(&b"utf-8".to_vec(), &vec![0xff]).unwrap();
    assert_eq!(r, "\u{fffd}");
}

#[test]
fn decode_utf8_ok_on_valid_bytes() {
    let bytes = b"plain".to_vec();
    assert_eq!(decode_utf8(&bytes).unwrap(), "plain");
}

#[test]
fn decode_utf8_error_variant_on_invalid_bytes() {
    let bytes = vec![0xc0u8];
    let r = decode_utf8(&bytes);
    assert!(matches!(r, Err(Error::DecodeUtf8Error(_))));
}

#[test]
fn mixed_segments_concatenate_all_fallbacks_and_texts() {
    let ast = vec![
        clear(b"a"),
        encoded('B', b"utf-8", b"!!!"),
        encoded('Q', b"bad-label", b"=E9"),
        clear(&[0xff]),
        encoded('B', b"utf-8", &base64::encode(b"z").into_bytes()),
    ];
    assert_eq!(run(&ast).unwrap(), "a!!!\u{fffd}\u{fffd}z");
}

#[test]
fn empty_raw_bytes_tagged_b_yield_empty_text() {
    let ast = vec![encoded('B', b"utf-8", b"")];
    assert_eq!(run(&ast).unwrap(), "");
}

#[test]
fn empty_raw_bytes_on_qp_path_yield_empty_text() {
    let ast = vec![encoded('Q', b"utf-8", b"")];
    assert_eq!(run(&ast).unwrap(), "");
}

#[test]
fn robust_qp_passes_invalid_escapes_through() {
    let ast = vec![encoded('Q', b"utf-8", b"=ZZ_ok")];
    assert_eq!(run(&ast).unwrap(), "=ZZ ok");
}
