//! The primitive spelling tables, as total functions of the closed algebra.
//!
//! Five emission contexts each have their own table: the precise native
//! spelling, the coarser cast spelling used at wire boundaries, the list
//! spelling, the buffer-view accessor, and the low-level slice struct name.
//! All five are projections of the same closed primitive set; the 128-bit
//! integers have no spelling in any of them and fail explicitly instead.

use crate::formatter::KokaFormatter;
use crate::ir::{FloatType, FmtError, IntSizeType, IntType, PrimitiveType};
use vstd::prelude::*;
use vstd::string::StringExecFns;

verus! {

/// The precise fixed-width native spelling of a primitive.
pub open spec fn native_spelling(prim: PrimitiveType) -> Seq<char> {
    match prim {
        PrimitiveType::Bool => "bool"@,
        PrimitiveType::Char => "char"@,
        PrimitiveType::Byte => "int8"@,
        PrimitiveType::Int(IntType::I8) => "int8"@,
        PrimitiveType::Int(IntType::U8) => "int8"@,
        PrimitiveType::Int(IntType::I16) => "int16"@,
        PrimitiveType::Int(IntType::U16) => "int16"@,
        PrimitiveType::Int(IntType::I32) => "int32"@,
        PrimitiveType::Int(IntType::U32) => "int32"@,
        PrimitiveType::Int(IntType::I64) => "int64"@,
        PrimitiveType::Int(IntType::U64) => "int64"@,
        PrimitiveType::IntSize(IntSizeType::Isize) => "intptr_t"@,
        PrimitiveType::IntSize(IntSizeType::Usize) => "ssize_t"@,
        PrimitiveType::Float(FloatType::F32) => "float32"@,
        PrimitiveType::Float(FloatType::F64) => "float64"@,
        PrimitiveType::Int128(_) => Seq::<char>::empty(),
    }
}

/// The coarser spelling used when a value crosses a cast boundary, where
/// only broad numeric classes are distinguishable.
pub open spec fn cast_spelling(prim: PrimitiveType) -> Seq<char> {
    match prim {
        PrimitiveType::Bool => "bool"@,
        PrimitiveType::Char => "char"@,
        PrimitiveType::Byte => "int8"@,
        PrimitiveType::Int(_) => "int"@,
        PrimitiveType::IntSize(_) => "int"@,
        PrimitiveType::Float(_) => "float64"@,
        PrimitiveType::Int128(_) => Seq::<char>::empty(),
    }
}

/// The "list of T" spelling for list-valued contexts; bytes get their own
/// raw-bytes spelling.
pub open spec fn list_spelling(prim: PrimitiveType) -> Seq<char> {
    match prim {
        PrimitiveType::Bool => "list<bool>"@,
        PrimitiveType::Char => "list<char>"@,
        PrimitiveType::Byte => "bytes"@,
        PrimitiveType::Int(_) => "list<int>"@,
        PrimitiveType::IntSize(_) => "list<int>"@,
        PrimitiveType::Float(_) => "list<float64>"@,
        PrimitiveType::Int128(_) => Seq::<char>::empty(),
    }
}

/// The accessor suffix for reading a typed view over an untyped buffer;
/// bytes need no view indirection and get an empty accessor.
pub open spec fn view_spelling(prim: PrimitiveType) -> Seq<char> {
    match prim {
        PrimitiveType::Bool => ".boolView"@,
        PrimitiveType::Char => ".uint32View"@,
        PrimitiveType::Byte => Seq::<char>::empty(),
        PrimitiveType::Int(IntType::I8) => ".int8View"@,
        PrimitiveType::Int(IntType::U8) => ".uint8View"@,
        PrimitiveType::Int(IntType::I16) => ".int16View"@,
        PrimitiveType::Int(IntType::U16) => ".uint16View"@,
        PrimitiveType::Int(IntType::I32) => ".int32View"@,
        PrimitiveType::Int(IntType::U32) => ".uint32View"@,
        PrimitiveType::Int(IntType::I64) => ".int64View"@,
        PrimitiveType::Int(IntType::U64) => ".uint64View"@,
        PrimitiveType::IntSize(IntSizeType::Usize) => ".usizeView"@,
        PrimitiveType::IntSize(IntSizeType::Isize) => ".isizeView"@,
        PrimitiveType::Float(FloatType::F32) => ".float32View"@,
        PrimitiveType::Float(FloatType::F64) => ".float64View"@,
        PrimitiveType::Int128(_) => Seq::<char>::empty(),
    }
}

/// The name of the fixed-layout slice struct used at the FFI boundary.
pub open spec fn slice_spelling(prim: PrimitiveType) -> Seq<char> {
    match prim {
        PrimitiveType::Bool => "_SliceBool"@,
        PrimitiveType::Char => "_SliceRune"@,
        PrimitiveType::Byte => "_SliceUint8"@,
        PrimitiveType::Int(IntType::I8) => "_SliceInt8"@,
        PrimitiveType::Int(IntType::U8) => "_SliceUint8"@,
        PrimitiveType::Int(IntType::I16) => "_SliceInt16"@,
        PrimitiveType::Int(IntType::U16) => "_SliceUint16"@,
        PrimitiveType::Int(IntType::I32) => "_SliceInt32"@,
        PrimitiveType::Int(IntType::U32) => "_SliceUint32"@,
        PrimitiveType::Int(IntType::I64) => "_SliceInt64"@,
        PrimitiveType::Int(IntType::U64) => "_SliceUint64"@,
        PrimitiveType::IntSize(IntSizeType::Usize) => "_SliceUsize"@,
        PrimitiveType::IntSize(IntSizeType::Isize) => "_SliceIsize"@,
        PrimitiveType::Float(FloatType::F32) => "_SliceFloat"@,
        PrimitiveType::Float(FloatType::F64) => "_SliceDouble"@,
        PrimitiveType::Int128(_) => Seq::<char>::empty(),
    }
}

impl<'tcx> KokaFormatter<'tcx> {
    pub fn fmt_string(&self) -> (r: &'static str)
        ensures
            r@ == "string"@,
    {
        "string"
    }

    pub fn fmt_utf8_primitive(&self) -> (r: &'static str)
        ensures
            r@ == "int8"@,
    {
        "int8"
    }

    pub fn fmt_utf16_primitive(&self) -> (r: &'static str)
        ensures
            r@ == "int16"@,
    {
        "int16"
    }

    pub fn fmt_void(&self) -> (r: &'static str)
        ensures
            r@ == "()"@,
    {
        "()"
    }

    pub fn fmt_ffi_void(&self) -> (r: &'static str)
        ensures
            r@ == "()"@,
    {
        "()"
    }

    pub fn fmt_pointer(&self, target: &str) -> (r: String)
        ensures
            r@ == "c-pointer<"@ + target@ + ">"@,
    {
        let mut out = String::from_str("c-pointer<");
        out.append(target);
        out.append(">");
        proof {
            assert(out@ =~= "c-pointer<"@ + target@ + ">"@);
        }
        out
    }

    /// The spelling of the pointer-sized unsigned integer, delegated to the
    /// primitive table so the two stay consistent.
    pub fn fmt_usize(&self, cast: bool) -> (r: &'static str)
        ensures
            r@ == if cast {
                cast_spelling(PrimitiveType::IntSize(IntSizeType::Usize))
            } else {
                native_spelling(PrimitiveType::IntSize(IntSizeType::Usize))
            },
    {
        let res = self.fmt_primitive_as_ffi(PrimitiveType::IntSize(IntSizeType::Usize), cast);
        match res {
            Ok(s) => s,
            Err(_) => {
                proof {
                    assert(false);
                }
                ""
            },
        }
    }

    /// The wire spelling of an enum discriminant, delegated to the primitive
    /// table for a 32-bit signed integer.
    pub fn fmt_enum_as_ffi(&self, cast: bool) -> (r: &'static str)
        ensures
            r@ == if cast {
                cast_spelling(PrimitiveType::Int(IntType::I32))
            } else {
                native_spelling(PrimitiveType::Int(IntType::I32))
            },
    {
        let res = self.fmt_primitive_as_ffi(PrimitiveType::Int(IntType::I32), cast);
        match res {
            Ok(s) => s,
            Err(_) => {
                proof {
                    assert(false);
                }
                ""
            },
        }
    }

    /// Map a primitive to its spelling: the precise native one, or the
    /// coarser cast one. The 128-bit integers fail explicitly, never
    /// silently truncate.
    pub fn fmt_primitive_as_ffi(&self, prim: PrimitiveType, cast: bool) -> (r: Result<
        &'static str,
        FmtError,
    >)
        ensures
            r is Ok <==> !(prim is Int128),
            r is Ok ==> (r->Ok_0)@ == if cast {
                cast_spelling(prim)
            } else {
                native_spelling(prim)
            },
            r is Err ==> (r->Err_0 matches FmtError::UnsupportedPrimitive { prim: p } && p
                == prim),
    {
        if cast {
            match prim {
                PrimitiveType::Bool => Ok("bool"),
                PrimitiveType::Char => Ok("char"),
                PrimitiveType::Int(_) | PrimitiveType::IntSize(_) => Ok("int"),
                PrimitiveType::Byte => Ok("int8"),
                PrimitiveType::Float(_) => Ok("float64"),
                PrimitiveType::Int128(_) => Err(FmtError::UnsupportedPrimitive { prim }),
            }
        } else {
            match prim {
                PrimitiveType::Bool => Ok("bool"),
                PrimitiveType::Char => Ok("char"),
                PrimitiveType::Int(IntType::I8) => Ok("int8"),
                PrimitiveType::Int(IntType::U8) | PrimitiveType::Byte => Ok("int8"),
                PrimitiveType::Int(IntType::I16) => Ok("int16"),
                PrimitiveType::Int(IntType::U16) => Ok("int16"),
                PrimitiveType::Int(IntType::I32) => Ok("int32"),
                PrimitiveType::Int(IntType::U32) => Ok("int32"),
                PrimitiveType::Int(IntType::I64) => Ok("int64"),
                PrimitiveType::Int(IntType::U64) => Ok("int64"),
                PrimitiveType::IntSize(IntSizeType::Isize) => Ok("intptr_t"),
                PrimitiveType::IntSize(IntSizeType::Usize) => Ok("ssize_t"),
                PrimitiveType::Float(FloatType::F32) => Ok("float32"),
                PrimitiveType::Float(FloatType::F64) => Ok("float64"),
                PrimitiveType::Int128(_) => Err(FmtError::UnsupportedPrimitive { prim }),
            }
        }
    }

    /// Map a primitive element type to the "list of T" spelling; bytes get
    /// the raw-bytes spelling instead.
    pub fn fmt_primitive_list_type(&self, prim: PrimitiveType) -> (r: Result<
        &'static str,
        FmtError,
    >)
        ensures
            r is Ok <==> !(prim is Int128),
            r is Ok ==> (r->Ok_0)@ == list_spelling(prim),
            r is Err ==> (r->Err_0 matches FmtError::UnsupportedPrimitive { prim: p } && p
                == prim),
    {
        match prim {
            PrimitiveType::Bool => Ok("list<bool>"),
            PrimitiveType::Char => Ok("list<char>"),
            PrimitiveType::Byte => Ok("bytes"),
            PrimitiveType::Int(_) | PrimitiveType::IntSize(_) => Ok("list<int>"),
            PrimitiveType::Float(_) => Ok("list<float64>"),
            PrimitiveType::Int128(_) => Err(FmtError::UnsupportedPrimitive { prim }),
        }
    }

    /// Map a primitive to the accessor suffix of a typed view over an
    /// untyped buffer; bytes need no view indirection.
    pub fn fmt_primitive_list_view(&self, prim: PrimitiveType) -> (r: Result<
        &'static str,
        FmtError,
    >)
        ensures
            r is Ok <==> !(prim is Int128),
            r is Ok ==> (r->Ok_0)@ == view_spelling(prim),
            r is Err ==> (r->Err_0 matches FmtError::UnsupportedPrimitive { prim: p } && p
                == prim),
    {
        proof {
            reveal_strlit("");
            assert(""@ =~= Seq::<char>::empty());
        }
        match prim {
            PrimitiveType::Bool => Ok(".boolView"),
            PrimitiveType::Char => Ok(".uint32View"),
            PrimitiveType::Byte => Ok(""),
            PrimitiveType::Int(IntType::I8) => Ok(".int8View"),
            PrimitiveType::Int(IntType::U8) => Ok(".uint8View"),
            PrimitiveType::Int(IntType::I16) => Ok(".int16View"),
            PrimitiveType::Int(IntType::U16) => Ok(".uint16View"),
            PrimitiveType::Int(IntType::I32) => Ok(".int32View"),
            PrimitiveType::Int(IntType::U32) => Ok(".uint32View"),
            PrimitiveType::Int(IntType::I64) => Ok(".int64View"),
            PrimitiveType::Int(IntType::U64) => Ok(".uint64View"),
            PrimitiveType::IntSize(IntSizeType::Usize) => Ok(".usizeView"),
            PrimitiveType::IntSize(IntSizeType::Isize) => Ok(".isizeView"),
            PrimitiveType::Float(FloatType::F32) => Ok(".float32View"),
            PrimitiveType::Float(FloatType::F64) => Ok(".float64View"),
            PrimitiveType::Int128(_) => Err(FmtError::UnsupportedPrimitive { prim }),
        }
    }

    /// Map a primitive to the name of the fixed-layout slice struct used at
    /// the FFI boundary.
    pub fn fmt_slice_type(&self, prim: PrimitiveType) -> (r: Result<&'static str, FmtError>)
        ensures
            r is Ok <==> !(prim is Int128),
            r is Ok ==> (r->Ok_0)@ == slice_spelling(prim),
            r is Err ==> (r->Err_0 matches FmtError::UnsupportedPrimitive { prim: p } && p
                == prim),
    {
        match prim {
            PrimitiveType::Bool => Ok("_SliceBool"),
            PrimitiveType::Char => Ok("_SliceRune"),
            PrimitiveType::Int(IntType::I8) => Ok("_SliceInt8"),
            PrimitiveType::Int(IntType::U8) | PrimitiveType::Byte => Ok("_SliceUint8"),
            PrimitiveType::Int(IntType::I16) => Ok("_SliceInt16"),
            PrimitiveType::Int(IntType::U16) => Ok("_SliceUint16"),
            PrimitiveType::Int(IntType::I32) => Ok("_SliceInt32"),
            PrimitiveType::Int(IntType::U32) => Ok("_SliceUint32"),
            PrimitiveType::Int(IntType::I64) => Ok("_SliceInt64"),
            PrimitiveType::Int(IntType::U64) => Ok("_SliceUint64"),
            PrimitiveType::IntSize(IntSizeType::Usize) => Ok("_SliceUsize"),
            PrimitiveType::IntSize(IntSizeType::Isize) => Ok("_SliceIsize"),
            PrimitiveType::Float(FloatType::F32) => Ok("_SliceFloat"),
            PrimitiveType::Float(FloatType::F64) => Ok("_SliceDouble"),
            PrimitiveType::Int128(_) => Err(FmtError::UnsupportedPrimitive { prim }),
        }
    }

    pub fn fmt_utf8_slice_type(&self) -> (r: &'static str)
        ensures
            r@ == "_SliceUtf8"@,
    {
        "_SliceUtf8"
    }

    pub fn fmt_utf16_slice_type(&self) -> (r: &'static str)
        ensures
            r@ == "_SliceUtf16"@,
    {
        "_SliceUtf16"
    }
}

/// Totality: every primitive other than the 128-bit integers has a defined,
/// nonempty spelling in the native, cast, list and slice tables, and a
/// defined buffer-view accessor that is empty only for Byte. (That the
/// 128-bit integers fail in every mapping context is stated by the mapping
/// functions' own contracts.)
pub proof fn lemma_primitive_tables_total(prim: PrimitiveType)
    requires
        !(prim is Int128),
    ensures
        native_spelling(prim).len() > 0,
        cast_spelling(prim).len() > 0,
        list_spelling(prim).len() > 0,
        slice_spelling(prim).len() > 0,
        !(prim is Byte) ==> view_spelling(prim).len() > 0,
{
    reveal_strlit("bool");
    reveal_strlit("char");
    reveal_strlit("int8");
    reveal_strlit("int16");
    reveal_strlit("int32");
    reveal_strlit("int64");
    reveal_strlit("intptr_t");
    reveal_strlit("ssize_t");
    reveal_strlit("float32");
    reveal_strlit("float64");
    reveal_strlit("int");
    reveal_strlit("list<bool>");
    reveal_strlit("list<char>");
    reveal_strlit("bytes");
    reveal_strlit("list<int>");
    reveal_strlit("list<float64>");
    reveal_strlit(".boolView");
    reveal_strlit(".uint32View");
    reveal_strlit(".int8View");
    reveal_strlit(".uint8View");
    reveal_strlit(".int16View");
    reveal_strlit(".uint16View");
    reveal_strlit(".int32View");
    reveal_strlit(".int64View");
    reveal_strlit(".uint64View");
    reveal_strlit(".usizeView");
    reveal_strlit(".isizeView");
    reveal_strlit(".float32View");
    reveal_strlit(".float64View");
    reveal_strlit("_SliceBool");
    reveal_strlit("_SliceRune");
    reveal_strlit("_SliceInt8");
    reveal_strlit("_SliceUint8");
    reveal_strlit("_SliceInt16");
    reveal_strlit("_SliceUint16");
    reveal_strlit("_SliceInt32");
    reveal_strlit("_SliceUint32");
    reveal_strlit("_SliceInt64");
    reveal_strlit("_SliceUint64");
    reveal_strlit("_SliceUsize");
    reveal_strlit("_SliceIsize");
    reveal_strlit("_SliceFloat");
    reveal_strlit("_SliceDouble");
}

} // verus!
