use env_bytes::diagnostic::DiagnosticKind;
use env_bytes::literal::Lit;
use env_bytes::literal::LitKind;
use env_bytes::literal::Span;
use env_bytes::transform::transform_posix;
use env_bytes::transform::transform_wide;

fn str_lit(name: &str, lo: usize, hi: usize) -> Lit {
    Lit { kind: LitKind::Str(String::from(name)), span: Span { lo, hi } }
}

#[test]
fn posix_present_variable_emits_bytes() {
    let arg = str_lit("GREETING", 3, 13);
    let r = transform_posix(&arg, Some(vec![104, 105]));
    assert_eq!(r.unwrap(), "[104, 105]");
}

#[test]
fn wide_present_variable_emits_units() {
    let arg = str_lit("GREETING", 3, 13);
    let r = transform_wide(&arg, Some(String::from("hi")));
    assert_eq!(r.unwrap(), "[104, 105]");
}

#[test]
fn wide_keeps_surrogate_pairs() {
    let arg = str_lit("CLEF", 0, 6);
    let r = transform_wide(&arg, Some(String::from("a\u{1D11E}")));
    assert_eq!(r.unwrap(), "[97, 55348, 56606]");
}

#[test]
fn posix_empty_value_emits_empty_array() {
    let arg = str_lit("EMPTY", 0, 7);
    let r = transform_posix(&arg, Some(vec![]));
    assert_eq!(r.unwrap(), "[]");
}

#[test]
fn non_string_literal_is_rejected() {
    let span = Span { lo: 7, hi: 9 };
    for kind in [LitKind::Int, LitKind::Bool, LitKind::Char, LitKind::ByteStr, LitKind::Other] {
        let arg = Lit { kind, span };
        let r = transform_posix(&arg, None);
        let d = r.err().expect("a non-string literal must be rejected");
        assert!(matches!(d.kind, DiagnosticKind::UnsupportedLiteral));
        assert_eq!(d.span, span);
        assert_eq!(d.message(), "Only string literals are supported");
    }
}

#[test]
fn non_string_literal_is_rejected_on_wide_targets() {
    let span = Span { lo: 2, hi: 4 };
    let arg = Lit { kind: LitKind::Float, span };
    let r = transform_wide(&arg, None);
    let d = r.err().expect("a non-string literal must be rejected");
    assert!(matches!(d.kind, DiagnosticKind::UnsupportedLiteral));
    assert_eq!(d.span, span);
}

#[test]
fn missing_variable_is_reported_at_the_literal() {
    let arg = str_lit("MISSING_VAR", 5, 18);
    let r = transform_posix(&arg, None);
    let d = r.err().expect("a missing variable must be rejected");
    assert_eq!(d.message(), "Environment variable \"MISSING_VAR\" not found");
    assert_eq!(d.span, Span { lo: 5, hi: 18 });
    match d.kind {
        DiagnosticKind::VariableNotFound(name) => assert_eq!(name, "MISSING_VAR"),
        _ => panic!("wrong diagnostic kind"),
    }
}

#[test]
fn missing_variable_is_reported_on_wide_targets() {
    let arg = str_lit("MISSING_VAR", 5, 18);
    let r = transform_wide(&arg, None);
    let d = r.err().expect("a missing variable must be rejected");
    assert_eq!(d.message(), "Environment variable \"MISSING_VAR\" not found");
}

#[test]
fn same_invocation_twice_is_identical() {
    let arg = str_lit("GREETING", 0, 10);
    let first = transform_posix(&arg, Some(vec![104, 105])).unwrap();
    let second = transform_posix(&arg, Some(vec![104, 105])).unwrap();
    assert_eq!(first, second);

    let wide_first = transform_wide(&arg, Some(String::from("hi"))).unwrap();
    let wide_second = transform_wide(&arg, Some(String::from("hi"))).unwrap();
    assert_eq!(wide_first, wide_second);
}

#[test]
fn round_trip_reconstructs_raw_bytes() {
    // A NUL byte and an invalid UTF-8 sequence must pass through unchanged.
    let value: Vec<u8> = vec![0, 255, 159, 146, 150, 10];
    let arg = str_lit("RAW", 0, 5);
    let emitted = transform_posix(&arg, Some(value.clone())).unwrap();
    let inner = emitted.strip_prefix('[').unwrap().strip_suffix(']').unwrap();
    let decoded: Vec<u8> = inner.split(", ").map(|t| t.parse().unwrap()).collect();
    assert_eq!(decoded, value);
}
