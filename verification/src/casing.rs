//! Case conventions and the case-conversion calls behind them.
//!
//! The conversions themselves (snake casing, upper camel casing, Unicode
//! lowering and uppercasing) are outside calls whose full behaviour is not
//! restated here; each result is given a name, together with the few facts
//! the identifier contracts need: an input already in the target convention
//! comes back unchanged.

use vstd::prelude::*;

verus! {

/// What heck's snake-case conversion returns for a given character sequence.
pub uninterp spec fn snek_of(s: Seq<char>) -> Seq<char>;

/// What heck's upper-camel-case conversion returns for a given character sequence.
pub uninterp spec fn upper_camel_of(s: Seq<char>) -> Seq<char>;

/// What Unicode lowercasing of a string returns.
pub uninterp spec fn lower_of(s: Seq<char>) -> Seq<char>;

/// What the Unicode uppercase mapping of one character is (one or more characters).
pub uninterp spec fn upper_char_of(c: char) -> Seq<char>;

pub open spec fn is_ascii_lower(c: char) -> bool {
    97 <= (c as u32) && (c as u32) <= 122
}

pub open spec fn is_ascii_upper(c: char) -> bool {
    65 <= (c as u32) && (c as u32) <= 90
}

pub open spec fn is_ascii_digit(c: char) -> bool {
    48 <= (c as u32) && (c as u32) <= 57
}

/// A character that may appear in a snake_case identifier.
pub open spec fn is_snake_char(c: char) -> bool {
    is_ascii_lower(c) || is_ascii_digit(c) || c == '_'
}

/// A name already in the snake_case convention: nonempty runs of ASCII
/// lowercase letters and digits, separated by single underscores.
pub open spec fn is_snake_ident(s: Seq<char>) -> bool {
    &&& s.len() > 0
    &&& forall|i: int| 0 <= i < s.len() ==> is_snake_char(s[i])
    &&& s[0] != '_'
    &&& s[s.len() - 1] != '_'
    &&& forall|i: int| #![trigger s[i]] 0 <= i < s.len() - 1 ==> !(s[i] == '_' && s[i + 1] == '_')
}

/// The ASCII lowercase counterpart of a character (others are unchanged).
pub open spec fn ascii_lower_char(c: char) -> char {
    if is_ascii_upper(c) {
        ((c as u32) + 32) as char
    } else {
        c
    }
}

/// The ASCII uppercase counterpart of a character (others are unchanged).
pub open spec fn ascii_upper_char(c: char) -> char {
    if is_ascii_lower(c) {
        ((c as u32) - 32) as char
    } else {
        c
    }
}

/// ASCII lowering and uppercasing invert each other on the ASCII letters.
pub proof fn lemma_ascii_case_roundtrip(c: char)
    requires
        is_ascii_upper(c),
    ensures
        is_ascii_lower(ascii_lower_char(c)),
        ascii_upper_char(ascii_lower_char(c)) == c,
{
    assert((((c as u32) + 32) as char) as u32 == (c as u32) + 32);
    vstd::utf8::char_u32_cast(c, c as u32);
}

/// The sequence with its first character ASCII-lowercased.
pub open spec fn lower_first(s: Seq<char>) -> Seq<char> {
    if s.len() == 0 {
        s
    } else {
        seq![ascii_lower_char(s[0])] + s.drop_first()
    }
}

/// A name in the capitalized spelling constructors use: one ASCII uppercase
/// letter, then snake_case characters, with no doubled or trailing underscore.
pub open spec fn is_ctor_ident(s: Seq<char>) -> bool {
    &&& s.len() > 0
    &&& is_ascii_upper(s[0])
    &&& forall|i: int| 1 <= i < s.len() ==> is_snake_char(s[i])
    &&& s[s.len() - 1] != '_'
    &&& forall|i: int| #![trigger s[i]] 0 <= i < s.len() - 1 ==> !(s[i] == '_' && s[i + 1] == '_')
}

/// A name already in the UpperCamelCase convention: ASCII alphanumerics,
/// leading uppercase, and every later uppercase letter directly after a
/// lowercase one (so no consecutive capitals).
pub open spec fn is_upper_camel_ident(s: Seq<char>) -> bool {
    &&& s.len() > 0
    &&& is_ascii_upper(s[0])
    &&& forall|i: int|
        0 <= i < s.len() ==> (is_ascii_upper(s[i]) || is_ascii_lower(s[i]) || is_ascii_digit(
            s[i],
        ))
    &&& forall|i: int| 1 <= i < s.len() ==> (is_ascii_upper(s[i]) ==> is_ascii_lower(s[i - 1]))
}

/// Relies on heck's ToSnekCase for str (an alias of its snake-case
/// conversion): the result is a function of the characters alone; a name
/// already in snake_case comes back unchanged, and a capitalized word
/// followed only by snake_case characters has just its first letter
/// lowercased.
#[verifier::external_body]
pub(crate) fn to_snek_case(s: &str) -> (r: String)
    ensures
        r@ == snek_of(s@),
        is_snake_ident(s@) ==> r@ == s@,
        is_ctor_ident(s@) ==> r@ == lower_first(s@),
{
    heck::ToSnekCase::to_snek_case(s)
}

/// The words of a snake_case name, each with its first character
/// ASCII-uppercased, concatenated without the underscores.
pub open spec fn camel_of_snake(s: Seq<char>) -> Seq<char>
    decreases s.len(),
{
    if s.len() == 0 {
        s
    } else {
        seq![ascii_upper_char(s[0])] + camel_of_snake_rest(s.drop_first())
    }
}

/// The remainder of a word during snake-to-camel conversion: characters are
/// kept until an underscore, which is dropped and starts the next word.
pub open spec fn camel_of_snake_rest(s: Seq<char>) -> Seq<char>
    decreases s.len(),
{
    if s.len() == 0 {
        s
    } else if s[0] == '_' {
        camel_of_snake(s.drop_first())
    } else {
        seq![s[0]] + camel_of_snake_rest(s.drop_first())
    }
}

/// Relies on heck's ToUpperCamelCase for str: the result is a function of
/// the characters alone; a name already in UpperCamelCase comes back
/// unchanged, and a snake_case name maps to its words capitalized and
/// concatenated.
#[verifier::external_body]
pub(crate) fn to_upper_camel_case(s: &str) -> (r: String)
    ensures
        r@ == upper_camel_of(s@),
        is_upper_camel_ident(s@) ==> r@ == s@,
        is_snake_ident(s@) ==> r@ == camel_of_snake(s@),
{
    heck::ToUpperCamelCase::to_upper_camel_case(s)
}

/// Relies on str::to_lowercase: Unicode lowercasing, a function of the
/// characters alone; characters without an uppercase form, such as those of
/// a snake_case identifier, are unchanged.
#[verifier::external_body]
pub(crate) fn to_lowercase(s: &str) -> (r: String)
    ensures
        r@ == lower_of(s@),
        is_snake_ident(s@) ==> r@ == s@,
{
    s.to_lowercase()
}

/// Relies on char::to_uppercase: the Unicode uppercase mapping of one
/// character, one or more characters long; an ASCII lowercase letter maps to
/// its uppercase counterpart, and a character without an uppercase mapping
/// (an ASCII uppercase letter, digit or underscore among them) to itself.
#[verifier::external_body]
pub(crate) fn char_to_uppercase(c: char) -> (r: String)
    ensures
        r@ == upper_char_of(c),
        r@.len() >= 1,
        is_ascii_lower(c) ==> r@ == seq![ascii_upper_char(c)],
        is_ascii_upper(c) || is_ascii_digit(c) || c == '_' ==> r@ == seq![c],
{
    c.to_uppercase().collect()
}

} // verus!
