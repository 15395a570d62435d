use env_bytes::diagnostic::Diagnostic;
use env_bytes::diagnostic::DiagnosticKind;
use env_bytes::emit::dec_string;
use env_bytes::emit::emit_u16_array;
use env_bytes::emit::emit_u8_array;
use env_bytes::literal::Lit;
use env_bytes::literal::LitKind;
use env_bytes::literal::Span;
use env_bytes::transform::extract;
use env_bytes::wide::encode_wide;

#[test]
fn extract_returns_text_and_location() {
    let arg = Lit { kind: LitKind::Str(String::from("PATH")), span: Span { lo: 4, hi: 10 } };
    let (name, span) = extract(&arg).unwrap();
    assert_eq!(name, "PATH");
    assert_eq!(span, Span { lo: 4, hi: 10 });
}

#[test]
fn extract_rejects_a_byte_string() {
    let arg = Lit { kind: LitKind::ByteStr, span: Span { lo: 1, hi: 2 } };
    let d = extract(&arg).err().unwrap();
    assert!(matches!(d.kind, DiagnosticKind::UnsupportedLiteral));
    assert_eq!(d.span, Span { lo: 1, hi: 2 });
}

#[test]
fn decimal_text_is_exact() {
    assert_eq!(dec_string(0), "0");
    assert_eq!(dec_string(9), "9");
    assert_eq!(dec_string(10), "10");
    assert_eq!(dec_string(255), "255");
    assert_eq!(dec_string(65535), "65535");
}

#[test]
fn emitted_arrays_are_exact() {
    assert_eq!(emit_u8_array(&vec![]), "[]");
    assert_eq!(emit_u8_array(&vec![0]), "[0]");
    assert_eq!(emit_u8_array(&vec![255]), "[255]");
    assert_eq!(emit_u8_array(&vec![1, 2, 3]), "[1, 2, 3]");
    assert_eq!(emit_u16_array(&vec![]), "[]");
    assert_eq!(emit_u16_array(&vec![65535, 0]), "[65535, 0]");
}

#[test]
fn wide_encoding_of_ascii_is_unchanged() {
    assert_eq!(encode_wide("hi"), vec![104, 105]);
    assert_eq!(encode_wide(""), Vec::<u16>::new());
}

#[test]
fn wide_encoding_splits_astral_characters() {
    assert_eq!(encode_wide("\u{1D11E}"), vec![0xD834, 0xDD1E]);
    assert_eq!(encode_wide("\u{10FFFF}"), vec![0xDBFF, 0xDFFF]);
    assert_eq!(encode_wide("\u{FFFF}"), vec![0xFFFF]);
}

#[test]
fn messages_match_their_kinds() {
    let unsupported = Diagnostic {
        kind: DiagnosticKind::UnsupportedLiteral,
        span: Span { lo: 0, hi: 0 },
    };
    assert_eq!(unsupported.message(), "Only string literals are supported");
    let not_found = Diagnostic {
        kind: DiagnosticKind::VariableNotFound(String::from("HOME")),
        span: Span { lo: 0, hi: 0 },
    };
    assert_eq!(not_found.message(), "Environment variable \"HOME\" not found");
}
