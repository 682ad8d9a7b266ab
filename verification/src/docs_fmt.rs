//! Documentation rendering: normalized markdown text becomes a Koka comment
//! block, with every continuation line prefixed, the trailing-space artifact
//! of normalization collapsed, and backtick-quoted references to a
//! prefix-stripped type rewritten to the emitted name.

use crate::chars::{str_to_chars, string_from_chars};
use vstd::prelude::*;

verus! {

#[verifier::external_type_specification]
#[verifier::external_body]
pub struct ExDocs(diplomat_core::hir::Docs);

#[verifier::external_type_specification]
#[verifier::external_body]
pub struct ExDocsUrlGenerator(diplomat_core::hir::DocsUrlGenerator);

/// Relies on Docs::to_markdown with the square-bracket reference syntax: it
/// renders the structured documentation to normalized markdown text,
/// resolving cross-references through the URL generator.
///
/// One caveat scopes the crate's no-panic promise: a documentation value
/// can carry a cross-reference whose path holds fewer segments than its
/// reference kind requires (the parser accepts such a link unvalidated),
/// and on that input the URL generator aborts the generation run. The
/// links are not visible through the opaque Docs value, so the condition
/// cannot be stated as a precondition or checked before the call.
#[verifier::external_body]
pub(crate) fn docs_to_markdown(
    docs: &diplomat_core::hir::Docs,
    url_gen: &diplomat_core::hir::DocsUrlGenerator,
) -> String {
    docs.to_markdown(diplomat_core::hir::DocsTypeReferenceSyntax::SquareBrackets, url_gen)
}

/// A character of the Unicode White_Space set, the set str::trim removes.
pub open spec fn is_doc_whitespace(c: char) -> bool {
    ||| (9 <= (c as u32) && (c as u32) <= 13)
    ||| (c as u32) == 32
    ||| (c as u32) == 0x85
    ||| (c as u32) == 0xA0
    ||| (c as u32) == 0x1680
    ||| (0x2000 <= (c as u32) && (c as u32) <= 0x200A)
    ||| (c as u32) == 0x2028
    ||| (c as u32) == 0x2029
    ||| (c as u32) == 0x202F
    ||| (c as u32) == 0x205F
    ||| (c as u32) == 0x3000
}

fn is_doc_whitespace_char(c: char) -> (r: bool)
    ensures
        r == is_doc_whitespace(c),
{
    let u = c as u32;
    (9 <= u && u <= 13) || u == 32 || u == 0x85 || u == 0xA0 || u == 0x1680 || (0x2000 <= u && u
        <= 0x200A) || u == 0x2028 || u == 0x2029 || u == 0x202F || u == 0x205F || u == 0x3000
}

/// The sequence without its leading whitespace.
pub open spec fn trim_start_spec(s: Seq<char>) -> Seq<char>
    decreases s.len(),
{
    if s.len() > 0 && is_doc_whitespace(s[0]) {
        trim_start_spec(s.drop_first())
    } else {
        s
    }
}

/// The sequence without its trailing whitespace.
pub open spec fn trim_end_spec(s: Seq<char>) -> Seq<char>
    decreases s.len(),
{
    if s.len() > 0 && is_doc_whitespace(s[s.len() - 1]) {
        trim_end_spec(s.drop_last())
    } else {
        s
    }
}

/// The sequence without leading or trailing whitespace, as str::trim leaves it.
pub open spec fn trim_spec(s: Seq<char>) -> Seq<char> {
    trim_end_spec(trim_start_spec(s))
}

/// Leftmost, non-overlapping replacement of a nonempty pattern, as
/// str::replace performs it.
pub open spec fn replace_all(s: Seq<char>, pat: Seq<char>, repl: Seq<char>) -> Seq<char>
    decreases s.len(),
{
    if pat.len() == 0 || s.len() < pat.len() {
        s
    } else if s.take(pat.len() as int) == pat {
        repl + replace_all(s.skip(pat.len() as int), pat, repl)
    } else {
        seq![s[0]] + replace_all(s.drop_first(), pat, repl)
    }
}

/// Whether the pattern occurs in s at position i.
pub(crate) fn match_at(s: &Vec<char>, pat: &Vec<char>, i: usize) -> (m: bool)
    requires
        i + pat.len() <= s.len(),
    ensures
        m == (s@.subrange(i as int, i as int + pat@.len() as int) == pat@),
{
    let mut k: usize = 0;
    while k < pat.len()
        invariant
            i + pat.len() <= s.len(),
            k <= pat.len(),
            forall|j: int| 0 <= j < k ==> s@[i + j] == pat@[j],
        decreases pat.len() - k,
    {
        if s[i + k] != pat[k] {
            proof {
                assert(s@.subrange(i as int, i as int + pat@.len() as int)[k as int] == s@[i + k]);
            }
            return false;
        }
        k = k + 1;
    }
    proof {
        assert(s@.subrange(i as int, i as int + pat@.len() as int) =~= pat@);
    }
    true
}

/// Replace every leftmost, non-overlapping occurrence of the pattern.
pub(crate) fn replace_chars(s: &Vec<char>, pat: &Vec<char>, repl: &Vec<char>) -> (r: Vec<char>)
    requires
        pat.len() >= 1,
    ensures
        r@ == replace_all(s@, pat@, repl@),
{
    let mut r: Vec<char> = Vec::new();
    let mut i: usize = 0;
    proof {
        assert(s@.skip(0) =~= s@);
        assert(r@ + replace_all(s@, pat@, repl@) =~= replace_all(s@, pat@, repl@));
    }
    while i < s.len()
        invariant
            i <= s.len(),
            pat@.len() >= 1,
            replace_all(s@, pat@, repl@) == r@ + replace_all(s@.skip(i as int), pat@, repl@),
        decreases s.len() - i,
    {
        if s.len() - i >= pat.len() && match_at(s, pat, i) {
            proof {
                assert(s@.skip(i as int).take(pat@.len() as int) =~= s@.subrange(
                    i as int,
                    i as int + pat@.len() as int,
                ));
                assert(s@.skip(i as int).skip(pat@.len() as int) =~= s@.skip(
                    i as int + pat@.len() as int,
                ));
            }
            let ghost r0 = r@;
            let mut k: usize = 0;
            while k < repl.len()
                invariant
                    k <= repl.len(),
                    r@ == r0 + repl@.take(k as int),
                decreases repl.len() - k,
            {
                r.push(repl[k]);
                k = k + 1;
                proof {
                    assert(r@ =~= r0 + repl@.take(k as int));
                }
            }
            proof {
                assert(r@ =~= r0 + repl@);
                assert((r0 + repl@) + replace_all(
                    s@.skip(i as int + pat@.len() as int),
                    pat@,
                    repl@,
                ) =~= r0 + (repl@ + replace_all(s@.skip(i as int + pat@.len() as int), pat@, repl@)));
            }
            i = i + pat.len();
        } else {
            proof {
                if s@.len() - i >= pat@.len() {
                    assert(s@.skip(i as int).take(pat@.len() as int) =~= s@.subrange(
                        i as int,
                        i as int + pat@.len() as int,
                    ));
                }
                assert(s@.skip(i as int).drop_first() =~= s@.skip(i as int + 1));
            }
            let ghost r0 = r@;
            r.push(s[i]);
            proof {
                assert(r@ =~= r0 + seq![s@[i as int]]);
                assert((r0 + seq![s@[i as int]]) + replace_all(s@.skip(i as int + 1), pat@, repl@)
                    =~= r0 + (seq![s@[i as int]] + replace_all(s@.skip(i as int + 1), pat@, repl@)));
            }
            i = i + 1;
        }
    }
    proof {
        assert(s@.skip(i as int) =~= Seq::<char>::empty());
        assert(r@ + Seq::<char>::empty() =~= r@);
    }
    r
}

/// Drop leading and trailing whitespace, as str::trim does.
pub(crate) fn trim_chars(v: &Vec<char>) -> (r: Vec<char>)
    ensures
        r@ == trim_spec(v@),
{
    let mut start: usize = 0;
    proof {
        assert(v@.skip(0) =~= v@);
    }
    while start < v.len() && is_doc_whitespace_char(v[start])
        invariant
            start <= v.len(),
            trim_start_spec(v@) == trim_start_spec(v@.skip(start as int)),
        decreases v.len() - start,
    {
        proof {
            assert(v@.skip(start as int).drop_first() =~= v@.skip(start as int + 1));
        }
        start = start + 1;
    }
    proof {
        assert(trim_start_spec(v@.skip(start as int)) == v@.skip(start as int));
        assert(v@.skip(start as int) =~= v@.subrange(start as int, v@.len() as int));
    }
    let mut end: usize = v.len();
    while end > start && is_doc_whitespace_char(v[end - 1])
        invariant
            start <= end <= v.len(),
            trim_end_spec(v@.subrange(start as int, v@.len() as int)) == trim_end_spec(
                v@.subrange(start as int, end as int),
            ),
        decreases end,
    {
        proof {
            assert(v@.subrange(start as int, end as int).drop_last() =~= v@.subrange(
                start as int,
                end as int - 1,
            ));
        }
        end = end - 1;
    }
    proof {
        assert(trim_end_spec(v@.subrange(start as int, end as int)) == v@.subrange(
            start as int,
            end as int,
        ));
    }
    let mut r: Vec<char> = Vec::new();
    let mut k: usize = start;
    while k < end
        invariant
            start <= k <= end <= v.len(),
            r@ == v@.subrange(start as int, k as int),
        decreases end - k,
    {
        r.push(v[k]);
        k = k + 1;
        proof {
            assert(r@ =~= v@.subrange(start as int, k as int));
        }
    }
    proof {
        assert(r@ =~= v@.subrange(start as int, end as int));
    }
    r
}

/// What documentation rendering returns for given normalized markdown text
/// and configured strip-prefix: trim, prefix continuation lines with the
/// comment marker, collapse a trailing space before a newline, and rewrite
/// backtick-quoted occurrences of the strip-prefix.
pub open spec fn rendered_docs(md: Seq<char>, strip_prefix: Option<String>) -> Seq<char> {
    let commented = replace_all(replace_all(trim_spec(md), "\n"@, "\n// "@), " \n"@, "\n"@);
    let pat = "`"@ + match strip_prefix {
        Option::Some(p) => p@,
        Option::None => Seq::<char>::empty(),
    };
    replace_all(commented, pat, "`"@)
}

/// Render normalized markdown documentation text as a Koka comment block,
/// consistent with the configured strip-prefix.
pub fn render_doc_comment(markdown: &str, strip_prefix: &Option<String>) -> (r: String)
    ensures
        r@ == rendered_docs(markdown@, *strip_prefix),
{
    proof {
        reveal_strlit("\n");
        reveal_strlit("\n// ");
        reveal_strlit(" \n");
        reveal_strlit("`");
    }
    let chars = str_to_chars(markdown);
    let trimmed = trim_chars(&chars);
    let nl = str_to_chars("\n");
    let nl_comment = str_to_chars("\n// ");
    let commented = replace_chars(&trimmed, &nl, &nl_comment);
    let space_nl = str_to_chars(" \n");
    let collapsed = replace_chars(&commented, &space_nl, &nl);
    let mut pat: Vec<char> = Vec::new();
    pat.push('`');
    match strip_prefix {
        Option::Some(p) => {
            let p_chars = str_to_chars(p.as_str());
            let ghost pat0 = pat@;
            let mut k: usize = 0;
            while k < p_chars.len()
                invariant
                    k <= p_chars.len(),
                    pat@ == pat0 + p_chars@.take(k as int),
                decreases p_chars.len() - k,
            {
                pat.push(p_chars[k]);
                k = k + 1;
                proof {
                    assert(pat@ =~= pat0 + p_chars@.take(k as int));
                }
            }
            proof {
                assert(pat@ =~= "`"@ + p@);
            }
        },
        Option::None => {
            proof {
                assert(pat@ =~= "`"@ + Seq::<char>::empty());
            }
        },
    }
    let tick = str_to_chars("`");
    let rewritten = replace_chars(&collapsed, &pat, &tick);
    string_from_chars(&rewritten)
}

} // verus!
