//! Identifier and type-name formatting for a Koka FFI binding backend.
//!
//! Given a language-agnostic description of exported types, methods, fields
//! and primitives, this crate renders the textual spellings (identifiers,
//! type expressions, primitive names, documentation comments) that are valid
//! Koka, applying author-supplied rename rules, reserved-word avoidance and
//! configured prefix stripping along the way.

pub mod casing;
pub mod chars;
pub mod docs_fmt;
pub mod formatter;
pub mod idents;
pub mod ir;
pub mod prim;
