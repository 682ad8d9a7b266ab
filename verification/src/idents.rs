//! The identifier-formatting pipeline, as spec functions, and its laws.
//!
//! Every identifier category resolves its source string (rename rule or an
//! explicit override first), applies its case convention, and — for methods,
//! constructors and accessors — appends a trailing underscore when the
//! result lands on a reserved word.

use crate::casing::{is_snake_ident, lower_of, snek_of, upper_camel_of, upper_char_of};
use crate::chars::str_eq;
use vstd::prelude::*;
use vstd::string::StringExecFns;

verus! {

/// The source string of an entity: the rename rule when present, else the
/// canonical name.
pub open spec fn renamed(name: Seq<char>, rename: Option<String>) -> Seq<char> {
    match rename {
        Option::Some(r) => r@,
        Option::None => name,
    }
}

/// The source string of a constructor or accessor: an explicit override
/// name first, then the rename rule, then the method's own name.
pub open spec fn ctor_source(
    override_name: Option<String>,
    method_name: Seq<char>,
    rename: Option<String>,
) -> Seq<char> {
    match override_name {
        Option::Some(n) => n@,
        Option::None => renamed(method_name, rename),
    }
}

/// The reserved words of method (call) position.
pub open spec fn reserved_method_name(s: Seq<char>) -> bool {
    s == "new"@ || s == "static"@ || s == "default"@
}

/// The reserved words of field (accessor) position.
pub open spec fn reserved_field_name(s: Seq<char>) -> bool {
    s == "new"@ || s == "static"@ || s == "default"@
}

/// Append the disambiguation marker when a method-position name is reserved.
pub open spec fn guard_method(s: Seq<char>) -> Seq<char> {
    if reserved_method_name(s) {
        s + "_"@
    } else {
        s
    }
}

/// Append the disambiguation marker when a field-position name is reserved.
pub open spec fn guard_field(s: Seq<char>) -> Seq<char> {
    if reserved_field_name(s) {
        s + "_"@
    } else {
        s
    }
}

/// The sequence with its first character replaced by that character's
/// Unicode uppercase mapping.
pub open spec fn upper_first_of(s: Seq<char>) -> Seq<char> {
    if s.len() == 0 {
        s
    } else {
        upper_char_of(s[0]) + s.drop_first()
    }
}

/// What the method formatter returns: rename resolution, snake casing, and
/// the reserved-word guard.
pub open spec fn method_name_of(name: Seq<char>, rename: Option<String>) -> Seq<char> {
    guard_method(snek_of(renamed(name, rename)))
}

/// What the constructor formatter returns: override/rename resolution,
/// snake casing, a capitalized first letter, and the reserved-word guard.
pub open spec fn ctor_name_of(
    override_name: Option<String>,
    method_name: Seq<char>,
    rename: Option<String>,
) -> Seq<char> {
    guard_method(upper_first_of(snek_of(ctor_source(override_name, method_name, rename))))
}

/// What the accessor formatter returns: override/rename resolution, snake
/// casing, and the field-position reserved-word guard.
pub open spec fn accessor_name_of(
    override_name: Option<String>,
    method_name: Seq<char>,
    rename: Option<String>,
) -> Seq<char> {
    guard_field(snek_of(ctor_source(override_name, method_name, rename)))
}

/// What the enum-variant formatter returns: rename resolution, then upper
/// camel casing.
pub open spec fn variant_name_of(name: Seq<char>, rename: Option<String>) -> Seq<char> {
    upper_camel_of(renamed(name, rename))
}

/// What the parameter formatter returns: lowercasing, then snake casing.
/// Renaming is unsupported for parameters.
pub open spec fn param_name_of(s: Seq<char>) -> Seq<char> {
    snek_of(lower_of(s))
}

/// The resolved type name with the configured prefix stripped, when it
/// starts with that prefix.
pub open spec fn stripped(name: Seq<char>, prefix: Option<String>) -> Seq<char> {
    match prefix {
        Option::Some(p) => if p@.len() <= name.len() && name.take(p@.len() as int) == p@ {
            name.skip(p@.len() as int)
        } else {
            name
        },
        Option::None => name,
    }
}

/// The names that collide with built-in core types of the target language;
/// such a collision is a hard failure, never a silent rewrite.
pub open spec fn disallowed_core_type(s: Seq<char>) -> bool {
    s == "Object"@ || s == "String"@
}

/// Apply the method-position reserved-word guard.
pub(crate) fn guard_method_name(s: String) -> (r: String)
    ensures
        r@ == guard_method(s@),
{
    if str_eq(s.as_str(), "new") || str_eq(s.as_str(), "static") || str_eq(s.as_str(), "default") {
        let mut t = s;
        t.append("_");
        t
    } else {
        s
    }
}

/// Apply the field-position reserved-word guard.
pub(crate) fn guard_field_name(s: String) -> (r: String)
    ensures
        r@ == guard_field(s@),
{
    if str_eq(s.as_str(), "new") || str_eq(s.as_str(), "static") || str_eq(s.as_str(), "default") {
        let mut t = s;
        t.append("_");
        t
    } else {
        s
    }
}

/// Keyword safety: every reserved method-position word is itself a
/// snake_case identifier, and the reserved-word guard turns it into a
/// different name that ends with the disambiguation marker.
pub proof fn lemma_keyword_safety(name: Seq<char>)
    requires
        reserved_method_name(name),
    ensures
        is_snake_ident(name),
        guard_method(name) == name + "_"@,
        guard_method(name) != name,
        guard_method(name)[guard_method(name).len() - 1] == '_',
{
    reveal_strlit("new");
    reveal_strlit("static");
    reveal_strlit("default");
    reveal_strlit("_");
    assert(guard_method(name).len() == name.len() + 1);
    assert((name + "_"@)[name.len() as int] == '_');
}

/// Rename precedence: with a rename rule present the formatted output is a
/// case-converted form of the renamed value alone — the canonical name does
/// not enter — for every entity category that supports renaming.
pub proof fn lemma_rename_precedence(canonical_a: Seq<char>, canonical_b: Seq<char>, rename: String)
    ensures
        method_name_of(canonical_a, Option::Some(rename)) == guard_method(snek_of(rename@)),
        method_name_of(canonical_a, Option::Some(rename)) == method_name_of(
            canonical_b,
            Option::Some(rename),
        ),
        ctor_name_of(Option::None, canonical_a, Option::Some(rename)) == guard_method(
            upper_first_of(snek_of(rename@)),
        ),
        accessor_name_of(Option::None, canonical_a, Option::Some(rename)) == guard_field(
            snek_of(rename@),
        ),
        variant_name_of(canonical_a, Option::Some(rename)) == upper_camel_of(rename@),
{
}

} // verus!
