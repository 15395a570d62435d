//! The transformation itself: validate the argument token, account for
//! the build-time lookup of the named variable, and emit the array
//! literal in the target family's native unit width.
//!
//! The lookup reads the environment of the build process; the caller
//! performs it and passes its outcome in, so every step here is a pure
//! function of its arguments.

use vstd::prelude::*;
use crate::diagnostic::Diagnostic;
use crate::diagnostic::DiagnosticKind;
use crate::diagnostic::DiagnosticKindV;
use crate::diagnostic::DiagnosticV;
use crate::emit::array_rep;
use crate::emit::byte_units;
use crate::emit::emit_u16_array;
use crate::emit::emit_u8_array;
use crate::emit::wide_unit_values;
use crate::literal::Lit;
use crate::literal::LitKind;
use crate::literal::LitV;
use crate::literal::Span;
use crate::wide::encode_wide;
use crate::wide::wide_units;

verus! {

/// The mathematical content of a transformation outcome: the emitted
/// text, or the one diagnostic of the failed invocation.
pub open spec fn outcome_view(r: Result<String, Diagnostic>) -> Result<Seq<char>, DiagnosticV> {
    match r {
        Ok(s) => Ok(s@),
        Err(d) => Err(d@),
    }
}

/// The mathematical content of a lookup outcome on a POSIX-like target:
/// the variable's raw bytes, if it was present.
pub open spec fn bytes_lookup_view(value: Option<Vec<u8>>) -> Option<Seq<u8>> {
    match value {
        Some(v) => Some(v@),
        None => None,
    }
}

/// The mathematical content of a lookup outcome on a wide-string
/// target: the variable's text, if it was present.
pub open spec fn text_lookup_view(value: Option<String>) -> Option<Seq<char>> {
    match value {
        Some(v) => Some(v@),
        None => None,
    }
}

/// Validates the invocation's argument token.
///
/// A string literal yields its decoded text and its location; any other
/// token yields the unsupported-literal diagnostic anchored at that
/// token, and nothing is emitted for the invocation.
pub fn extract(arg: &Lit) -> (r: Result<(String, Span), Diagnostic>)
    ensures
        arg@.str_value matches Some(name) ==> (r matches Ok(p) && p.0@ == name && p.1 == arg@.span),
        arg@.str_value is None ==> (r matches Err(d) && d@ == (DiagnosticV {
            kind: DiagnosticKindV::UnsupportedLiteral,
            span: arg@.span,
        })),
{
    match &arg.kind {
        LitKind::Str(value) => Ok((value.clone(), arg.span)),
        _ => Err(Diagnostic { kind: DiagnosticKind::UnsupportedLiteral, span: arg.span }),
    }
}

/// Accounts for the lookup of `name` on a POSIX-like target and emits
/// the 8-bit array literal.
///
/// An absent variable yields the not-found diagnostic, its message
/// naming `name`, anchored at `span` (the literal's own location); a
/// present one yields the array literal of exactly its raw bytes, with
/// no transcoding and no validation of the bytes.
pub fn resolve_and_emit_posix(name: &String, span: Span, value: Option<Vec<u8>>) -> (r: Result<
    String,
    Diagnostic,
>)
    ensures
        value matches Some(v) ==> (r matches Ok(s) && s@ == array_rep(byte_units(v@))),
        value is None ==> (r matches Err(d) && d@ == (DiagnosticV {
            kind: DiagnosticKindV::VariableNotFound(name@),
            span: span,
        })),
{
    match value {
        Some(v) => Ok(emit_u8_array(&v)),
        None => Err(
            Diagnostic { kind: DiagnosticKind::VariableNotFound(name.clone()), span: span },
        ),
    }
}

/// Accounts for the lookup of `name` on a wide-string target and emits
/// the 16-bit array literal.
///
/// An absent variable yields the not-found diagnostic as on a
/// POSIX-like target; a present one yields the array literal of the
/// value's native 16-bit code units, surrogate pairs kept verbatim.
pub fn resolve_and_emit_wide(name: &String, span: Span, value: Option<String>) -> (r: Result<
    String,
    Diagnostic,
>)
    ensures
        value matches Some(v) ==> (r matches Ok(s) && s@ == array_rep(
            wide_unit_values(wide_units(v@)),
        )),
        value is None ==> (r matches Err(d) && d@ == (DiagnosticV {
            kind: DiagnosticKindV::VariableNotFound(name@),
            span: span,
        })),
{
    match value {
        Some(v) => {
            let units = encode_wide(v.as_str());
            Ok(emit_u16_array(&units))
        },
        None => Err(
            Diagnostic { kind: DiagnosticKind::VariableNotFound(name.clone()), span: span },
        ),
    }
}

/// What a whole invocation must produce on a POSIX-like target, given
/// the argument token and the lookup's outcome: exactly one of the
/// emitted text of the value's bytes, the unsupported-literal
/// diagnostic, or the not-found diagnostic.
pub open spec fn posix_outcome(arg: LitV, value: Option<Seq<u8>>, r: Result<
    Seq<char>,
    DiagnosticV,
>) -> bool {
    match arg.str_value {
        None => r == Result::<Seq<char>, DiagnosticV>::Err(
            DiagnosticV { kind: DiagnosticKindV::UnsupportedLiteral, span: arg.span },
        ),
        Some(name) => match value {
            None => r == Result::<Seq<char>, DiagnosticV>::Err(
                DiagnosticV { kind: DiagnosticKindV::VariableNotFound(name), span: arg.span },
            ),
            Some(v) => r == Result::<Seq<char>, DiagnosticV>::Ok(array_rep(byte_units(v))),
        },
    }
}

/// What a whole invocation must produce on a wide-string target.
pub open spec fn wide_outcome(arg: LitV, value: Option<Seq<char>>, r: Result<
    Seq<char>,
    DiagnosticV,
>) -> bool {
    match arg.str_value {
        None => r == Result::<Seq<char>, DiagnosticV>::Err(
            DiagnosticV { kind: DiagnosticKindV::UnsupportedLiteral, span: arg.span },
        ),
        Some(name) => match value {
            None => r == Result::<Seq<char>, DiagnosticV>::Err(
                DiagnosticV { kind: DiagnosticKindV::VariableNotFound(name), span: arg.span },
            ),
            Some(v) => r == Result::<Seq<char>, DiagnosticV>::Ok(
                array_rep(wide_unit_values(wide_units(v))),
            ),
        },
    }
}

/// One whole invocation on a POSIX-like target.
///
/// `value` is the outcome of looking the argument's text up in the
/// build-time environment; it is ignored when the argument is not a
/// string literal, since no lookup happens for a rejected token.
pub fn transform_posix(arg: &Lit, value: Option<Vec<u8>>) -> (r: Result<String, Diagnostic>)
    ensures
        posix_outcome(arg@, bytes_lookup_view(value), outcome_view(r)),
{
    match extract(arg) {
        Ok(p) => resolve_and_emit_posix(&p.0, p.1, value),
        Err(d) => Err(d),
    }
}

/// One whole invocation on a wide-string target.
///
/// `value` is the outcome of looking the argument's text up in the
/// build-time environment; it is ignored when the argument is not a
/// string literal.
pub fn transform_wide(arg: &Lit, value: Option<String>) -> (r: Result<String, Diagnostic>)
    ensures
        wide_outcome(arg@, text_lookup_view(value), outcome_view(r)),
{
    match extract(arg) {
        Ok(p) => resolve_and_emit_wide(&p.0, p.1, value),
        Err(d) => Err(d),
    }
}

/// Two invocations on the same literal under the same environment state
/// produce identical outcomes on a POSIX-like target: the emitted texts
/// are equal character for character, and failures carry the same
/// diagnostic.
pub proof fn lemma_posix_deterministic(
    arg: LitV,
    value: Option<Seq<u8>>,
    r1: Result<Seq<char>, DiagnosticV>,
    r2: Result<Seq<char>, DiagnosticV>,
)
    requires
        posix_outcome(arg, value, r1),
        posix_outcome(arg, value, r2),
    ensures
        r1 == r2,
{
}

/// Two invocations on the same literal under the same environment state
/// produce identical outcomes on a wide-string target.
pub proof fn lemma_wide_deterministic(
    arg: LitV,
    value: Option<Seq<char>>,
    r1: Result<Seq<char>, DiagnosticV>,
    r2: Result<Seq<char>, DiagnosticV>,
)
    requires
        wide_outcome(arg, value, r1),
        wide_outcome(arg, value, r2),
    ensures
        r1 == r2,
{
}

} // verus!
