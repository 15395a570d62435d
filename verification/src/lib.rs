//! Build-time resolution of environment variables into constant arrays.
//!
//! The library validates a literal token naming an environment variable,
//! takes the variable's build-time value, encodes it into the target
//! family's native code units (bytes on POSIX-like targets, 16-bit units
//! on wide-string targets), and emits the text of an array literal of
//! exactly that length. Failures are reported as diagnostics anchored to
//! the offending token.

pub mod decode;
pub mod diagnostic;
pub mod emit;
pub mod literal;
pub mod transform;
pub mod wide;

pub use diagnostic::Diagnostic;
pub use diagnostic::DiagnosticKind;
pub use literal::Lit;
pub use literal::LitKind;
pub use literal::Span;
