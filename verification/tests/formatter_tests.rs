use diplomat_core::hir::DocsUrlGenerator;
use koka_fmt::docs_fmt::render_doc_comment;
use koka_fmt::formatter::KokaFormatter;
use koka_fmt::ir::{
    EnumVariant, FmtError, Int128Type, IntSizeType, IntType, Method, NamedType, PrimitiveType,
    TypeContext, TypeId,
};

fn method(name: &str, rename: Option<&str>) -> Method {
    Method {
        name: String::from(name),
        rename: rename.map(String::from),
        abi_name: String::from("ns_method_abi"),
    }
}

fn named_type(name: &str, rename: Option<&str>) -> NamedType {
    NamedType {
        name: String::from(name),
        rename: rename.map(String::from),
        dtor_abi_name: String::from("ns_type_destroy"),
    }
}

#[test]
fn method_reserved_words_get_marker() {
    let tcx = TypeContext { types: Vec::new() };
    let gen_ = DocsUrlGenerator::default();
    let fmt = KokaFormatter::new(&tcx, &gen_, None);
    assert_eq!(fmt.fmt_method_name(&method("new", None)), "new_");
    assert_eq!(fmt.fmt_method_name(&method("static", None)), "static_");
    assert_eq!(fmt.fmt_method_name(&method("default", None)), "default_");
}

#[test]
fn method_snake_name_unchanged() {
    let tcx = TypeContext { types: Vec::new() };
    let gen_ = DocsUrlGenerator::default();
    let fmt = KokaFormatter::new(&tcx, &gen_, None);
    assert_eq!(fmt.fmt_method_name(&method("foo_bar", None)), "foo_bar");
}

#[test]
fn method_camel_name_is_snake_cased() {
    let tcx = TypeContext { types: Vec::new() };
    let gen_ = DocsUrlGenerator::default();
    let fmt = KokaFormatter::new(&tcx, &gen_, None);
    assert_eq!(fmt.fmt_method_name(&method("FooBar", None)), "foo_bar");
}

#[test]
fn method_rename_takes_precedence() {
    let tcx = TypeContext { types: Vec::new() };
    let gen_ = DocsUrlGenerator::default();
    let fmt = KokaFormatter::new(&tcx, &gen_, None);
    assert_eq!(
        fmt.fmt_method_name(&method("original_name", Some("SpecialCase"))),
        "special_case"
    );
}

#[test]
fn constructor_capitalizes_first_letter() {
    let tcx = TypeContext { types: Vec::new() };
    let gen_ = DocsUrlGenerator::default();
    let fmt = KokaFormatter::new(&tcx, &gen_, None);
    assert_eq!(fmt.fmt_constructor_name(&None, &method("foo", None)), "Foo");
    assert_eq!(
        fmt.fmt_constructor_name(&None, &method("make_new", None)),
        "Make_new"
    );
}

#[test]
fn constructor_already_capitalized_unchanged() {
    let tcx = TypeContext { types: Vec::new() };
    let gen_ = DocsUrlGenerator::default();
    let fmt = KokaFormatter::new(&tcx, &gen_, None);
    assert_eq!(
        fmt.fmt_constructor_name(&Some(String::from("Foo_bar")), &method("x", None)),
        "Foo_bar"
    );
}

#[test]
fn constructor_override_beats_rename() {
    let tcx = TypeContext { types: Vec::new() };
    let gen_ = DocsUrlGenerator::default();
    let fmt = KokaFormatter::new(&tcx, &gen_, None);
    assert_eq!(
        fmt.fmt_constructor_name(&Some(String::from("build")), &method("unused", Some("nope"))),
        "Build"
    );
}

#[test]
fn accessor_reserved_word_gets_marker() {
    let tcx = TypeContext { types: Vec::new() };
    let gen_ = DocsUrlGenerator::default();
    let fmt = KokaFormatter::new(&tcx, &gen_, None);
    assert_eq!(fmt.fmt_accessor_name(&None, &method("default", None)), "default_");
    assert_eq!(
        fmt.fmt_accessor_name(&Some(String::from("width")), &method("get_width", None)),
        "width"
    );
}

#[test]
fn enum_variant_upper_camel() {
    let tcx = TypeContext { types: Vec::new() };
    let gen_ = DocsUrlGenerator::default();
    let fmt = KokaFormatter::new(&tcx, &gen_, None);
    let v = EnumVariant { name: String::from("hello_world"), rename: None };
    assert_eq!(fmt.fmt_enum_variant(&v), "HelloWorld");
    let unchanged = EnumVariant { name: String::from("FooBar"), rename: None };
    assert_eq!(fmt.fmt_enum_variant(&unchanged), "FooBar");
}

#[test]
fn enum_variant_rename_is_case_converted() {
    let tcx = TypeContext { types: Vec::new() };
    let gen_ = DocsUrlGenerator::default();
    let fmt = KokaFormatter::new(&tcx, &gen_, None);
    let v = EnumVariant { name: String::from("original"), rename: Some(String::from("cool_name")) };
    assert_eq!(fmt.fmt_enum_variant(&v), "CoolName");
}

#[test]
fn param_name_lowercased_and_snake_cased() {
    let tcx = TypeContext { types: Vec::new() };
    let gen_ = DocsUrlGenerator::default();
    let fmt = KokaFormatter::new(&tcx, &gen_, None);
    assert_eq!(fmt.fmt_param_name("ABc"), "abc");
    assert_eq!(fmt.fmt_param_name("snake_par"), "snake_par");
}

#[test]
fn type_name_strips_prefix() {
    let tcx = TypeContext { types: vec![named_type("FooBar", None)] };
    let gen_ = DocsUrlGenerator::default();
    let fmt = KokaFormatter::new(&tcx, &gen_, Some(String::from("Foo")));
    assert_eq!(fmt.fmt_type_name(TypeId(0)).unwrap(), "Bar");
}

#[test]
fn type_name_without_prefix_match_unchanged() {
    let tcx = TypeContext { types: vec![named_type("Baz", None)] };
    let gen_ = DocsUrlGenerator::default();
    let fmt = KokaFormatter::new(&tcx, &gen_, Some(String::from("Foo")));
    assert_eq!(fmt.fmt_type_name(TypeId(0)).unwrap(), "Baz");
}

#[test]
fn type_name_rename_applied_after_strip() {
    let tcx = TypeContext { types: vec![named_type("FooBar", Some("Renamed"))] };
    let gen_ = DocsUrlGenerator::default();
    let fmt = KokaFormatter::new(&tcx, &gen_, Some(String::from("Foo")));
    assert_eq!(fmt.fmt_type_name(TypeId(0)).unwrap(), "Renamed");
}

#[test]
fn type_name_core_collision_is_fatal() {
    let tcx = TypeContext { types: vec![named_type("FooObject", None), named_type("String", None)] };
    let gen_ = DocsUrlGenerator::default();
    let fmt = KokaFormatter::new(&tcx, &gen_, Some(String::from("Foo")));
    let err = fmt.fmt_type_name(TypeId(0)).unwrap_err();
    assert!(matches!(&err, FmtError::DisallowedTypeName { name } if name == "Object"));
    assert_eq!(
        err.message(),
        "Object is not a valid Koka type name. Please rename."
    );
    let err2 = fmt.fmt_type_name(TypeId(1)).unwrap_err();
    assert!(matches!(&err2, FmtError::DisallowedTypeName { name } if name == "String"));
}

#[test]
fn type_name_diagnostics_is_canonical() {
    let tcx = TypeContext { types: vec![named_type("FooBar", Some("Renamed"))] };
    let gen_ = DocsUrlGenerator::default();
    let fmt = KokaFormatter::new(&tcx, &gen_, Some(String::from("Foo")));
    assert_eq!(fmt.fmt_type_name_diagnostics(TypeId(0)), "FooBar");
}

#[test]
fn destructor_and_entry_point_names_are_forwarded() {
    let tcx = TypeContext { types: vec![named_type("FooBar", None)] };
    let gen_ = DocsUrlGenerator::default();
    let fmt = KokaFormatter::new(&tcx, &gen_, None);
    assert_eq!(fmt.fmt_destructor_name(TypeId(0)), "ns_type_destroy");
    assert_eq!(
        fmt.fmt_c_method_name(TypeId(0), &method("frob", None)),
        "ns_method_abi"
    );
}

#[test]
fn docs_prefix_rewritten_to_emitted_name() {
    assert_eq!(
        render_doc_comment("Uses `FooBar` here.", &Some(String::from("Foo"))),
        "Uses `Bar` here."
    );
}

#[test]
fn docs_continuation_lines_prefixed() {
    assert_eq!(
        render_doc_comment(" line1\nline2 ", &None),
        "line1\n// line2"
    );
}

#[test]
fn docs_trailing_space_before_newline_collapsed() {
    assert_eq!(render_doc_comment("a \nb", &None), "a\n// b");
}

#[test]
fn primitive_example_mappings() {
    let tcx = TypeContext { types: Vec::new() };
    let gen_ = DocsUrlGenerator::default();
    let fmt = KokaFormatter::new(&tcx, &gen_, None);
    assert_eq!(
        fmt.fmt_primitive_as_ffi(PrimitiveType::Int(IntType::U8), false).unwrap(),
        "int8"
    );
    assert_eq!(
        fmt.fmt_primitive_as_ffi(PrimitiveType::Int(IntType::U8), true).unwrap(),
        "int"
    );
    assert_eq!(
        fmt.fmt_primitive_as_ffi(PrimitiveType::Byte, false).unwrap(),
        "int8"
    );
    assert_eq!(
        fmt.fmt_primitive_list_type(PrimitiveType::Byte).unwrap(),
        "bytes"
    );
    assert_eq!(
        fmt.fmt_primitive_list_view(PrimitiveType::Byte).unwrap(),
        ""
    );
    assert_eq!(
        fmt.fmt_slice_type(PrimitiveType::Float(koka_fmt::ir::FloatType::F64)).unwrap(),
        "_SliceDouble"
    );
}

#[test]
fn primitive_tables_total_except_int128() {
    let tcx = TypeContext { types: Vec::new() };
    let gen_ = DocsUrlGenerator::default();
    let fmt = KokaFormatter::new(&tcx, &gen_, None);
    let prims = vec![
        PrimitiveType::Bool,
        PrimitiveType::Char,
        PrimitiveType::Byte,
        PrimitiveType::Int(IntType::I8),
        PrimitiveType::Int(IntType::U8),
        PrimitiveType::Int(IntType::I16),
        PrimitiveType::Int(IntType::U16),
        PrimitiveType::Int(IntType::I32),
        PrimitiveType::Int(IntType::U32),
        PrimitiveType::Int(IntType::I64),
        PrimitiveType::Int(IntType::U64),
        PrimitiveType::IntSize(IntSizeType::Usize),
        PrimitiveType::IntSize(IntSizeType::Isize),
        PrimitiveType::Float(koka_fmt::ir::FloatType::F32),
        PrimitiveType::Float(koka_fmt::ir::FloatType::F64),
    ];
    for prim in prims {
        assert!(!fmt.fmt_primitive_as_ffi(prim, false).unwrap().is_empty());
        assert!(!fmt.fmt_primitive_as_ffi(prim, true).unwrap().is_empty());
        assert!(!fmt.fmt_primitive_list_type(prim).unwrap().is_empty());
        assert!(!fmt.fmt_slice_type(prim).unwrap().is_empty());
        let view = fmt.fmt_primitive_list_view(prim).unwrap();
        if !matches!(prim, PrimitiveType::Byte) {
            assert!(!view.is_empty());
        }
    }
}

#[test]
fn int128_fails_in_every_mapping_context() {
    let tcx = TypeContext { types: Vec::new() };
    let gen_ = DocsUrlGenerator::default();
    let fmt = KokaFormatter::new(&tcx, &gen_, None);
    for prim in [
        PrimitiveType::Int128(Int128Type::I128),
        PrimitiveType::Int128(Int128Type::U128),
    ] {
        assert!(matches!(
            fmt.fmt_primitive_as_ffi(prim, false),
            Err(FmtError::UnsupportedPrimitive { .. })
        ));
        assert!(matches!(
            fmt.fmt_primitive_as_ffi(prim, true),
            Err(FmtError::UnsupportedPrimitive { .. })
        ));
        assert!(matches!(
            fmt.fmt_primitive_list_type(prim),
            Err(FmtError::UnsupportedPrimitive { .. })
        ));
        assert!(matches!(
            fmt.fmt_primitive_list_view(prim),
            Err(FmtError::UnsupportedPrimitive { .. })
        ));
        assert!(matches!(
            fmt.fmt_slice_type(prim),
            Err(FmtError::UnsupportedPrimitive { .. })
        ));
        assert_eq!(
            fmt.fmt_primitive_as_ffi(prim, false).unwrap_err().message(),
            "128-bit integers are not supported"
        );
    }
}

#[test]
fn fixed_spellings_and_builders() {
    let tcx = TypeContext { types: Vec::new() };
    let gen_ = DocsUrlGenerator::default();
    let fmt = KokaFormatter::new(&tcx, &gen_, None);
    assert_eq!(fmt.fmt_string(), "string");
    assert_eq!(fmt.fmt_utf8_primitive(), "int8");
    assert_eq!(fmt.fmt_utf16_primitive(), "int16");
    assert_eq!(fmt.fmt_void(), "()");
    assert_eq!(fmt.fmt_ffi_void(), "()");
    assert_eq!(fmt.fmt_utf8_slice_type(), "_SliceUtf8");
    assert_eq!(fmt.fmt_utf16_slice_type(), "_SliceUtf16");
    assert_eq!(fmt.fmt_usize(false), "ssize_t");
    assert_eq!(fmt.fmt_usize(true), "int");
    assert_eq!(fmt.fmt_enum_as_ffi(false), "int32");
    assert_eq!(fmt.fmt_enum_as_ffi(true), "int");
    assert_eq!(fmt.fmt_pointer("foo"), "c-pointer<foo>");
    assert_eq!(fmt.fmt_nullable("bar"), "bar?");
    assert_eq!(fmt.fmt_file_name("api"), "api.kk");
    assert_eq!(fmt.fmt_lifetime_edge_array("a"), "aEdges");
    assert_eq!(fmt.fmt_import("std/core", None), "import std/core;");
    assert_eq!(
        fmt.fmt_import("std/core", Some("pub show foo")),
        "import std/core pub show foo;"
    );
    assert_eq!(fmt.fmt_type_as_ident(Some("c-pointer<int>")), "cpointer<int>");
    assert_eq!(fmt.fmt_type_as_ident(None), "()");
}
