//! The model of a macro-style invocation argument: a single literal token
//! with its source location.

use vstd::prelude::*;

verus! {

/// A source location, used only to anchor diagnostics at the offending
/// token. In a generator setting this is the position of the
/// configuration entry that produced the token.
#[derive(Clone, Copy, PartialEq, Eq, Structural, Debug)]
pub struct Span {
    pub lo: usize,
    pub hi: usize,
}

/// The syntactic kind of a literal token. Only string literals carry a
/// decoded text value: the transformation rejects every other kind, so
/// their payloads are never read.
pub enum LitKind {
    Str(String),
    ByteStr,
    Byte,
    Char,
    Int,
    Float,
    Bool,
    Other,
}

/// A literal token: its kind and its source location.
pub struct Lit {
    pub kind: LitKind,
    pub span: Span,
}

/// What the transformation reads of a literal token: the decoded text if
/// it is a string literal, and its location.
pub struct LitV {
    pub str_value: Option<Seq<char>>,
    pub span: Span,
}

impl View for Lit {
    type V = LitV;

    open spec fn view(&self) -> LitV {
        LitV {
            str_value: match self.kind {
                LitKind::Str(s) => Some(s@),
                _ => None,
            },
            span: self.span,
        }
    }
}

} // verus!
