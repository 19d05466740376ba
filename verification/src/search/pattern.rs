//! The regular expression a search pattern becomes under the search settings.

use crate::search::options::SearchOptions;
use crate::text::owned;
use vstd::prelude::*;

verus! {

/// The characters a regular expression gives a meaning of their own.
pub open spec fn is_regex_meta(c: char) -> bool {
    c == '\\' || c == '.' || c == '+' || c == '*' || c == '?' || c == '(' || c == ')' || c
        == '|' || c == '[' || c == ']' || c == '{' || c == '}' || c == '^' || c == '$' || c
        == '#' || c == '&' || c == '-' || c == '~'
}

/// `s` with a backslash before each character a regular expression gives a meaning of
/// its own, so that the result matches `s` literally.
pub open spec fn regex_escaped(s: Seq<char>) -> Seq<char>
    decreases s.len(),
{
    if s.len() == 0 {
        seq![]
    } else {
        let rest = regex_escaped(s.drop_last());
        let c = s.last();
        if is_regex_meta(c) {
            rest + seq!['\\', c]
        } else {
            rest.push(c)
        }
    }
}

/// `pattern` escaped for literal use in a regular expression.
///
/// Calls `regex::escape`, which (through `regex_syntax::escape`) puts a backslash before
/// each character that `regex_syntax::is_meta_character` lists and copies every other
/// character; the contract states exactly that.
#[verifier::external_body]
fn regex_escape(pattern: &str) -> (r: String)
    ensures
        r@ == regex_escaped(pattern@),
{
    regex::escape(pattern)
}

/// The regular expression searched for `pattern` under `options`: the pattern itself in
/// regex mode, escaped to match literally otherwise, and wrapped in word boundaries when
/// whole words are asked for. Case sensitivity is a flag of the matcher, not of the text.
pub open spec fn pattern_source(pattern: Seq<char>, options: SearchOptions) -> Seq<char> {
    let body = if options.regex_mode {
        pattern
    } else {
        regex_escaped(pattern)
    };
    if options.whole_word {
        "\\b(?:"@ + body + ")\\b"@
    } else {
        body
    }
}

/// The regular expression searched for `pattern` under `options`.
pub fn search_pattern_source(pattern: &str, options: &SearchOptions) -> (r: String)
    ensures
        r@ == pattern_source(pattern@, *options),
{
    let body = if options.regex_mode {
        owned(pattern)
    } else {
        regex_escape(pattern)
    };
    if options.whole_word {
        let mut source = owned("\\b(?:");
        source.append(body.as_str());
        source.append(")\\b");
        source
    } else {
        body
    }
}

/// Whole-word matching wraps the expression in word boundaries in either mode: the
/// source with whole words asked for is the source without, between `\b(?:` and
/// `)\b`. Without it, regex mode searches for the pattern as written and literal mode
/// for the pattern escaped; case sensitivity never changes the text.
pub proof fn law_pattern_source_by_setting(pattern: Seq<char>, o: SearchOptions)
    ensures
        pattern_source(pattern, SearchOptions { whole_word: true, ..o }) == "\\b(?:"@
            + pattern_source(pattern, SearchOptions { whole_word: false, ..o }) + ")\\b"@,
        pattern_source(pattern, SearchOptions { whole_word: false, regex_mode: true, ..o })
            == pattern,
        pattern_source(pattern, SearchOptions { whole_word: false, regex_mode: false, ..o })
            == regex_escaped(pattern),
        pattern_source(pattern, SearchOptions { case_sensitive: !o.case_sensitive, ..o })
            == pattern_source(pattern, o),
{
}

/// Escaping works character by character: the escape of a concatenation is the
/// concatenation of the escapes, and a single character gains a backslash exactly when
/// a regular expression gives it a meaning of its own; text without such characters is
/// left as it is.
pub proof fn law_escaping_is_per_character(p: Seq<char>, q: Seq<char>, c: char)
    ensures
        regex_escaped(p + q) == regex_escaped(p) + regex_escaped(q),
        regex_escaped(seq![c]) == if is_regex_meta(c) {
            seq!['\\', c]
        } else {
            seq![c]
        },
        (forall|i: int| 0 <= i < p.len() ==> !is_regex_meta(#[trigger] p[i])) ==> regex_escaped(p)
            == p,
    decreases q.len(),
{
    assert(seq![c].drop_last() =~= Seq::<char>::empty());
    assert(regex_escaped(seq![c].drop_last()) == Seq::<char>::empty());
    if is_regex_meta(c) {
        assert(regex_escaped(seq![c]) =~= seq!['\\', c]);
    } else {
        assert(regex_escaped(seq![c]) =~= seq![c]);
    }
    if q.len() > 0 {
        law_escaping_is_per_character(p, q.drop_last(), c);
        assert((p + q).drop_last() =~= p + q.drop_last());
        assert((p + q).last() == q.last());
        let q1 = q.drop_last();
        let d = q.last();
        assert(regex_escaped((p + q).drop_last()) == regex_escaped(p) + regex_escaped(q1));
        if is_regex_meta(d) {
            assert(regex_escaped(p + q) == regex_escaped(p + q1) + seq!['\\', d]);
            assert(regex_escaped(p) + regex_escaped(q) =~= regex_escaped(p) + regex_escaped(q1)
                + seq!['\\', d]);
        } else {
            assert(regex_escaped(p) + regex_escaped(q) =~= (regex_escaped(p) + regex_escaped(
                q1,
            )).push(d));
        }
    } else {
        assert(p + q =~= p);
        assert(regex_escaped(p) + regex_escaped(q) =~= regex_escaped(p));
    }
    lemma_plain_text_unescaped(p);
}

proof fn lemma_plain_text_unescaped(p: Seq<char>)
    ensures
        (forall|i: int| 0 <= i < p.len() ==> !is_regex_meta(#[trigger] p[i])) ==> regex_escaped(p)
            == p,
    decreases p.len(),
{
    if p.len() > 0 {
        lemma_plain_text_unescaped(p.drop_last());
        if forall|i: int| 0 <= i < p.len() ==> !is_regex_meta(#[trigger] p[i]) {
            assert forall|i: int| 0 <= i < p.drop_last().len() implies !is_regex_meta(
                #[trigger] p.drop_last()[i],
            ) by {
                assert(p.drop_last()[i] == p[i]);
            }
            assert(!is_regex_meta(p[p.len() - 1]));
            assert(p.drop_last().push(p.last()) =~= p);
        }
    }
}

} // verus!
