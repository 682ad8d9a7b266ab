//! The formatter that mediates every identifier on its way into Koka output.
//!
//! All identifiers from the intermediate representation go through here
//! before being written out: rename rules, reserved words and the
//! configured strip-prefix are handled in one place. Destructor and
//! low-level entry-point names are not derived here at all; they are
//! forwarded exactly as the ABI backend produced them, so that emitted
//! calls always match the linked symbol names.

use crate::casing::{
    ascii_lower_char, ascii_upper_char, camel_of_snake, char_to_uppercase, is_ascii_lower, is_ctor_ident, is_snake_ident, is_upper_camel_ident, lower_first,
    to_lowercase, to_snek_case, to_upper_camel_case,
};
use crate::chars::{chars_subrange, remove_dashes, str_eq, str_to_chars, string_from_chars, without_dashes};
use crate::docs_fmt::{docs_to_markdown, match_at, render_doc_comment, rendered_docs};
use crate::idents::{
    accessor_name_of, ctor_name_of, ctor_source, disallowed_core_type, guard_field_name,
    guard_method_name, method_name_of, param_name_of, renamed, reserved_field_name,
    reserved_method_name, stripped, upper_first_of, variant_name_of,
};
use crate::ir::{EnumVariant, FmtError, Method, TypeContext, TypeId};
use diplomat_core::hir::{Docs, DocsUrlGenerator};
use vstd::prelude::*;
use vstd::string::{StrSliceExecFns, StringExecFns};

verus! {

/// This type mediates all formatting.
///
/// It is fixed at construction: a reference to the fully built, read-only
/// type context, the documentation cross-reference URL generator, and the
/// optional prefix to strip from resolved type names.
pub struct KokaFormatter<'tcx> {
    pub tcx: &'tcx TypeContext,
    pub docs_url_generator: &'tcx DocsUrlGenerator,
    pub strip_prefix: Option<String>,
}

impl<'tcx> KokaFormatter<'tcx> {
    pub fn new(
        tcx: &'tcx TypeContext,
        docs_url_generator: &'tcx DocsUrlGenerator,
        strip_prefix: Option<String>,
    ) -> (r: Self)
        ensures
            r.tcx == tcx,
            r.docs_url_generator == docs_url_generator,
            r.strip_prefix == strip_prefix,
    {
        Self { tcx, docs_url_generator, strip_prefix }
    }

    /// The name of the auxiliary edge array for one lifetime, from that
    /// lifetime's formatted name.
    pub fn fmt_lifetime_edge_array(&self, lifetime: &str) -> (r: String)
        ensures
            r@ == lifetime@ + "Edges"@,
    {
        let mut out = String::from_str(lifetime);
        out.append("Edges");
        out
    }

    pub fn fmt_file_name(&self, name: &str) -> (r: String)
        ensures
            r@ == name@ + ".kk"@,
    {
        let mut out = String::from_str(name);
        out.append(".kk");
        out
    }

    pub fn fmt_import(&self, path: &str, as_show_hide: Option<&str>) -> (r: String)
        ensures
            r@ == "import "@ + path@ + (match as_show_hide {
                Option::Some(s) => " "@ + s@,
                Option::None => Seq::<char>::empty(),
            }) + ";"@,
    {
        let mut out = String::from_str("import ");
        out.append(path);
        match as_show_hide {
            Option::Some(s) => {
                out.append(" ");
                out.append(s);
            },
            Option::None => {},
        }
        out.append(";");
        proof {
            assert(out@ =~= "import "@ + path@ + (match as_show_hide {
                Option::Some(s) => " "@ + s@,
                Option::None => Seq::<char>::empty(),
            }) + ";"@);
        }
        out
    }

    /// Render documentation as a Koka comment block. The structured value is
    /// first normalized to markdown by the documentation collaborator; the
    /// comment layout and the strip-prefix rewrite are applied to whatever
    /// text that step produced.
    ///
    /// The normalization call aborts the generation run on a documentation
    /// value carrying a cross-reference whose path is shorter than its
    /// reference kind requires; see docs_to_markdown for why that input
    /// cannot be excluded here.
    pub fn fmt_docs(&self, docs: &Docs) -> (r: String)
        ensures
            exists|md: Seq<char>| r@ == rendered_docs(md, self.strip_prefix),
    {
        let md = docs_to_markdown(docs, self.docs_url_generator);
        let r = render_doc_comment(md.as_str(), &self.strip_prefix);
        proof {
            assert(r@ == rendered_docs(md@, self.strip_prefix));
        }
        r
    }

    /// The destructor symbol for a type, exactly as the ABI backend spells
    /// it. Forwarding the authoritative name, rather than re-deriving it,
    /// keeps emitted calls linked to the right symbol.
    pub fn fmt_destructor_name(&self, id: TypeId) -> (r: String)
        requires
            self.tcx.spec_valid(id),
        ensures
            r@ == self.tcx.types[id.0 as int].dtor_abi_name@,
    {
        self.tcx.resolve_type(id).dtor_abi_name.clone()
    }

    /// Resolve and format a named type for use in code: strip the configured
    /// prefix, fail hard on a collision with a built-in core type, and apply
    /// the rename rule as the final step.
    pub fn fmt_type_name(&self, id: TypeId) -> (r: Result<String, FmtError>)
        requires
            self.tcx.spec_valid(id),
        ensures
            ({
                let t = self.tcx.types[id.0 as int];
                let cand = stripped(t.name@, self.strip_prefix);
                &&& (r is Ok <==> !disallowed_core_type(cand))
                &&& (r is Ok ==> (r->Ok_0)@ == renamed(cand, t.rename))
                &&& (r is Err ==> (r->Err_0 matches FmtError::DisallowedTypeName { name }
                    && name@ == cand))
            }),
    {
        let resolved = self.tcx.resolve_type(id);
        let candidate: String = match &self.strip_prefix {
            Option::Some(p) => {
                let name_chars = str_to_chars(resolved.name.as_str());
                let p_chars = str_to_chars(p.as_str());
                if p_chars.len() <= name_chars.len() && match_at(&name_chars, &p_chars, 0) {
                    proof {
                        assert(resolved.name@.subrange(0, p@.len() as int) =~= resolved.name@.take(
                            p@.len() as int,
                        ));
                    }
                    let rest = chars_subrange(&name_chars, p_chars.len(), name_chars.len());
                    proof {
                        assert(rest@ =~= resolved.name@.skip(p@.len() as int));
                    }
                    string_from_chars(&rest)
                } else {
                    resolved.name.clone()
                }
            },
            Option::None => resolved.name.clone(),
        };
        if str_eq(candidate.as_str(), "Object") || str_eq(candidate.as_str(), "String") {
            Err(FmtError::DisallowedTypeName { name: candidate })
        } else {
            match &resolved.rename {
                Option::Some(rn) => Ok(rn.clone()),
                Option::None => Ok(candidate),
            }
        }
    }

    /// Resolve and format a named type for use in diagnostics: the canonical
    /// name, with no rename or prefix processing, so error messages speak
    /// the vocabulary of the intermediate representation.
    pub fn fmt_type_name_diagnostics(&self, id: TypeId) -> (r: String)
        requires
            self.tcx.spec_valid(id),
        ensures
            r@ == self.tcx.types[id.0 as int].name@,
    {
        self.tcx.resolve_type(id).name.clone()
    }

    /// Format an enum variant: the rename rule when present, else the
    /// canonical name, in the capitalized-word convention. A name already in
    /// that convention comes back unchanged, and a snake_case name becomes
    /// its words capitalized and concatenated.
    pub fn fmt_enum_variant(&self, variant: &EnumVariant) -> (r: String)
        ensures
            r@ == variant_name_of(variant.name@, variant.rename),
            is_upper_camel_ident(renamed(variant.name@, variant.rename)) ==> r@ == renamed(
                variant.name@,
                variant.rename,
            ),
            is_snake_ident(renamed(variant.name@, variant.rename)) ==> r@ == camel_of_snake(
                renamed(variant.name@, variant.rename),
            ),
    {
        let source: String = match &variant.rename {
            Option::Some(rn) => rn.clone(),
            Option::None => variant.name.clone(),
        };
        to_upper_camel_case(source.as_str())
    }

    /// Format a field name or parameter name. Renaming is unsupported here:
    /// parameter names are positional and expose no rename hook. A name
    /// already in snake_case comes back unchanged.
    pub fn fmt_param_name(&self, ident: &str) -> (r: String)
        ensures
            r@ == param_name_of(ident@),
            is_snake_ident(ident@) ==> r@ == ident@,
    {
        let lowered = to_lowercase(ident);
        to_snek_case(lowered.as_str())
    }

    pub fn fmt_nullable(&self, ident: &str) -> (r: String)
        ensures
            r@ == ident@ + "?"@,
    {
        let mut out = String::from_str(ident);
        out.append("?");
        out
    }

    /// Format a method: the rename rule when present, else the canonical
    /// name, in snake_case, with the reserved-word marker appended on a
    /// collision. A snake_case name comes back unchanged unless reserved,
    /// and a reserved one comes back with the trailing marker, never as
    /// itself.
    pub fn fmt_method_name(&self, method: &Method) -> (r: String)
        ensures
            r@ == method_name_of(method.name@, method.rename),
            ({
                let src = renamed(method.name@, method.rename);
                &&& (is_snake_ident(src) && !reserved_method_name(src) ==> r@ == src)
                &&& (is_snake_ident(src) && reserved_method_name(src) ==> (r@ == src + "_"@ && r@
                    != src))
            }),
    {
        let source: String = match &method.rename {
            Option::Some(rn) => rn.clone(),
            Option::None => method.name.clone(),
        };
        let converted = to_snek_case(source.as_str());
        let r = guard_method_name(converted);
        proof {
            let src = renamed(method.name@, method.rename);
            if is_snake_ident(src) && reserved_method_name(src) {
                reveal_strlit("_");
                assert(r@.len() == src.len() + 1);
            }
        }
        r
    }

    /// Capitalize the first letter of a name, by the Unicode uppercase
    /// mapping of its first character.
    fn uppercase_first_letter(&self, s: &str) -> (r: String)
        ensures
            r@ == upper_first_of(s@),
            s@.len() > 0 && is_ascii_lower(s@[0]) ==> r@ == seq![ascii_upper_char(s@[0])]
                + s@.drop_first(),
    {
        if s.unicode_len() == 0 {
            String::new()
        } else {
            let c = s.get_char(0);
            let mut out = char_to_uppercase(c);
            let rest = s.substring_char(1, s.unicode_len());
            out.append(rest);
            proof {
                assert(rest@ =~= s@.drop_first());
            }
            out
        }
    }

    /// Format a constructor: an explicit override name first, then the
    /// rename rule, then the method's own name; snake_case with the first
    /// letter capitalized, and the reserved-word marker on a collision. A
    /// name already in the capitalized convention comes back unchanged.
    pub fn fmt_constructor_name(&self, name: &Option<String>, method: &Method) -> (r: String)
        ensures
            r@ == ctor_name_of(*name, method.name@, method.rename),
            ({
                let src = ctor_source(*name, method.name@, method.rename);
                is_ctor_ident(src) ==> r@ == src
            }),
    {
        let source: String = match name {
            Option::Some(n) => n.clone(),
            Option::None => match &method.rename {
                Option::Some(rn) => rn.clone(),
                Option::None => method.name.clone(),
            },
        };
        let converted = to_snek_case(source.as_str());
        let capitalized = self.uppercase_first_letter(converted.as_str());
        let ghost src = ctor_source(*name, method.name@, method.rename);
        proof {
            if is_ctor_ident(src) {
                assert(converted@ == lower_first(src));
                let c0 = src[0];
                crate::casing::lemma_ascii_case_roundtrip(c0);
                assert(converted@[0] == ascii_lower_char(c0));
                assert(capitalized@ == seq![ascii_upper_char(ascii_lower_char(c0))]
                    + converted@.drop_first());
                assert(converted@.drop_first() =~= src.drop_first());
                assert(capitalized@ =~= src);
            }
        }
        let r = guard_method_name(capitalized);
        proof {
            if is_ctor_ident(src) {
                reveal_strlit("new");
                reveal_strlit("static");
                reveal_strlit("default");
                assert(!reserved_method_name(src));
            }
        }
        r
    }

    /// Format an accessor: the same precedence and snake_case convention as
    /// methods (no capitalization), with the field-position reserved words.
    /// A snake_case name comes back unchanged unless reserved.
    pub fn fmt_accessor_name(&self, name: &Option<String>, method: &Method) -> (r: String)
        ensures
            r@ == accessor_name_of(*name, method.name@, method.rename),
            ({
                let src = ctor_source(*name, method.name@, method.rename);
                is_snake_ident(src) && !reserved_field_name(src) ==> r@ == src
            }),
    {
        let source: String = match name {
            Option::Some(n) => n.clone(),
            Option::None => match &method.rename {
                Option::Some(rn) => rn.clone(),
                Option::None => method.name.clone(),
            },
        };
        let converted = to_snek_case(source.as_str());
        guard_field_name(converted)
    }

    /// The low-level entry-point symbol for a method, exactly as the ABI
    /// backend spells it; see fmt_destructor_name.
    pub fn fmt_c_method_name(&self, _ty: TypeId, method: &Method) -> (r: String)
        ensures
            r@ == method.abi_name@,
    {
        method.abi_name.clone()
    }

    /// Sanitize a type spelling into an identifier fragment by removing the
    /// characters illegal in identifiers.
    pub fn fmt_type_as_ident(&self, ty: Option<&str>) -> (r: String)
        ensures
            r@ == without_dashes(
                match ty {
                    Option::Some(t) => t@,
                    Option::None => "()"@,
                },
            ),
    {
        let source: &str = match ty {
            Option::Some(t) => t,
            Option::None => "()",
        };
        let chars = str_to_chars(source);
        let cleaned = remove_dashes(&chars);
        string_from_chars(&cleaned)
    }
}

} // verus!
