//! Diagnostics: the two terminal failures of the transformation, each
//! carrying a message and the source location it is anchored to.

use vstd::prelude::*;
use crate::literal::Span;

verus! {

/// Why an invocation failed.
#[derive(Debug)]
pub enum DiagnosticKind {
    /// The argument token is not a string literal.
    UnsupportedLiteral,
    /// The named variable is absent from the build-time environment.
    /// Carries the name that was looked up.
    VariableNotFound(String),
}

/// A compiler-consumable error: a kind (from which the message text is
/// derived) and the location the host compiler should point at.
#[derive(Debug)]
pub struct Diagnostic {
    pub kind: DiagnosticKind,
    pub span: Span,
}

/// The mathematical content of a `DiagnosticKind`.
pub enum DiagnosticKindV {
    UnsupportedLiteral,
    VariableNotFound(Seq<char>),
}

/// The mathematical content of a `Diagnostic`.
pub struct DiagnosticV {
    pub kind: DiagnosticKindV,
    pub span: Span,
}

impl View for DiagnosticKind {
    type V = DiagnosticKindV;

    open spec fn view(&self) -> DiagnosticKindV {
        match self {
            DiagnosticKind::UnsupportedLiteral => DiagnosticKindV::UnsupportedLiteral,
            DiagnosticKind::VariableNotFound(name) => DiagnosticKindV::VariableNotFound(name@),
        }
    }
}

impl View for Diagnostic {
    type V = DiagnosticV;

    open spec fn view(&self) -> DiagnosticV {
        DiagnosticV { kind: self.kind@, span: self.span }
    }
}

/// The message text of each failure kind: fixed text for an unsupported
/// literal, and the variable's name in double quotes for a missing one.
pub open spec fn message_of(kind: DiagnosticKindV) -> Seq<char> {
    match kind {
        DiagnosticKindV::UnsupportedLiteral => "Only string literals are supported"@,
        DiagnosticKindV::VariableNotFound(name) => "Environment variable \""@ + name + "\" not found"@,
    }
}

impl Diagnostic {
    /// The message the host compiler shows for this diagnostic.
    pub fn message(&self) -> (r: String)
        ensures
            r@ == message_of(self@.kind),
    {
        match &self.kind {
            DiagnosticKind::UnsupportedLiteral => {
                String::from_str("Only string literals are supported")
            },
            DiagnosticKind::VariableNotFound(name) => {
                let mut m = String::from_str("Environment variable \"");
                m.append(name.as_str());
                m.append("\" not found");
                m
            },
        }
    }
}

} // verus!
