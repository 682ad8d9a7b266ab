//! The slice of the intermediate representation this crate formats.
//!
//! The shared type context is modelled as the plain values the formatter
//! reads of it: for every named type its canonical name, its optional rename
//! rule, and the destructor symbol the ABI backend produced for it. Methods
//! and enum variants likewise carry their canonical name and rename rule; a
//! method also carries its entry-point symbol, again as the ABI backend
//! produced it, so that cross-backend references forward one authoritative
//! name instead of deriving their own.

use vstd::prelude::*;
use vstd::string::StringExecFns;

verus! {

/// An opaque, stable reference into the shared type context.
#[derive(Clone, Copy, PartialEq, Eq, Structural, Debug)]
pub struct TypeId(pub usize);

/// What the shared type context resolves a TypeId to.
pub struct NamedType {
    /// The canonical name in the intermediate representation.
    pub name: String,
    /// The author-supplied rename rule, replacing the canonical name.
    pub rename: Option<String>,
    /// The destructor symbol for this type, as the ABI backend spells it.
    pub dtor_abi_name: String,
}

/// The read-only shared type context, fully built before formatting begins.
pub struct TypeContext {
    pub types: Vec<NamedType>,
}

impl TypeContext {
    /// A TypeId is valid when it resolves to a named type of this context.
    pub open spec fn spec_valid(&self, id: TypeId) -> bool {
        id.0 < self.types.len()
    }

    /// Resolve a TypeId to its named type.
    pub fn resolve_type(&self, id: TypeId) -> (r: &NamedType)
        requires
            self.spec_valid(id),
        ensures
            *r == self.types[id.0 as int],
    {
        &self.types[id.0]
    }
}

/// A method of an exported type.
pub struct Method {
    /// The canonical method name.
    pub name: String,
    /// The author-supplied rename rule, replacing the canonical name.
    pub rename: Option<String>,
    /// The low-level entry-point symbol, as the ABI backend spells it.
    pub abi_name: String,
}

/// A variant of an exported enum.
pub struct EnumVariant {
    /// The canonical variant name.
    pub name: String,
    /// The author-supplied rename rule, replacing the canonical name.
    pub rename: Option<String>,
}

/// The signed fixed-width integer primitives.
#[derive(Clone, Copy, PartialEq, Eq, Structural, Debug)]
pub enum IntType {
    I8,
    U8,
    I16,
    U16,
    I32,
    U32,
    I64,
    U64,
}

/// The pointer-sized integer primitives.
#[derive(Clone, Copy, PartialEq, Eq, Structural, Debug)]
pub enum IntSizeType {
    Usize,
    Isize,
}

/// The 128-bit integer primitives, unsupported in this target language.
#[derive(Clone, Copy, PartialEq, Eq, Structural, Debug)]
pub enum Int128Type {
    I128,
    U128,
}

/// The floating-point primitives.
#[derive(Clone, Copy, PartialEq, Eq, Structural, Debug)]
pub enum FloatType {
    F32,
    F64,
}

/// The closed algebra of primitive types.
#[derive(Clone, Copy, PartialEq, Eq, Structural, Debug)]
pub enum PrimitiveType {
    Bool,
    Char,
    Byte,
    Int(IntType),
    IntSize(IntSizeType),
    Int128(Int128Type),
    Float(FloatType),
}

/// A fatal formatting failure: the generation run must stop.
#[derive(Debug)]
pub enum FmtError {
    /// A type name collides with a built-in core type of the target
    /// language; no safe automatic rewrite exists.
    DisallowedTypeName { name: String },
    /// A primitive with no representation in the target language.
    UnsupportedPrimitive { prim: PrimitiveType },
}

impl FmtError {
    /// The diagnostic text for this failure.
    pub open spec fn message_spec(&self) -> Seq<char> {
        match *self {
            FmtError::DisallowedTypeName { ref name } => name@
                + " is not a valid Koka type name. Please rename."@,
            FmtError::UnsupportedPrimitive { prim } => "128-bit integers are not supported"@,
        }
    }

    /// Render the diagnostic text.
    pub fn message(&self) -> (r: String)
        ensures
            r@ == self.message_spec(),
    {
        match self {
            FmtError::DisallowedTypeName { name } => {
                let mut s = name.clone();
                s.append(" is not a valid Koka type name. Please rename.");
                s
            },
            FmtError::UnsupportedPrimitive { prim: _ } => {
                String::from_str("128-bit integers are not supported")
            },
        }
    }
}

} // verus!
