//! HTML escaping of file content.
//!
//! Text served inside an HTML page must not be able to alter the page's
//! structure: every HTML-significant character of the content is replaced by
//! its character reference. The replacement itself is done by an outside
//! crate; its exact effect is stated here character by character, and the
//! lemmas below show that escaped text holds no raw markup.

use vstd::prelude::*;

verus! {

/// The characters that are significant in HTML text and are escaped.
pub open spec fn is_html_significant(c: char) -> bool {
    c == '&' || c == '<' || c == '>' || c == '"' || c == '\'' || c == '/'
}

/// The replacement for one character: each HTML-significant character
/// becomes its character reference, every other character is kept.
pub open spec fn escape_char(c: char) -> Seq<char> {
    if c == '&' {
        seq!['&', 'a', 'm', 'p', ';']
    } else if c == '<' {
        seq!['&', 'l', 't', ';']
    } else if c == '>' {
        seq!['&', 'g', 't', ';']
    } else if c == '"' {
        seq!['&', 'q', 'u', 'o', 't', ';']
    } else if c == '\'' {
        seq!['&', '#', 'x', '2', '7', ';']
    } else if c == '/' {
        seq!['&', '#', 'x', '2', 'F', ';']
    } else {
        seq![c]
    }
}

/// The escaped form of a text: each character replaced by `escape_char`.
pub open spec fn escaped(s: Seq<char>) -> Seq<char>
    decreases s.len(),
{
    if s.len() == 0 {
        Seq::empty()
    } else {
        escape_char(s[0]) + escaped(s.drop_first())
    }
}

/// Relies on `html_escape::encode_safe`: each of `&` `<` `>` `"` `'` `/` is
/// replaced by `&amp;` `&lt;` `&gt;` `&quot;` `&#x27;` `&#x2F;` respectively,
/// and every other character is kept unchanged.
#[verifier::external_body]
pub(crate) fn escape_html(s: &str) -> (r: String)
    ensures
        r@ == escaped(s@),
{
    html_escape::encode_safe(s).into_owned()
}

/// Escaped text holds no raw `<`, `>`, `"` or `'` at all: each such
/// character of the input was replaced by a reference, and no reference
/// contains one.
pub proof fn lemma_escaped_free_of_raw_markup(s: Seq<char>)
    ensures
        forall|i: int|
            0 <= i < escaped(s).len() ==> escaped(s)[i] != '<' && escaped(s)[i] != '>'
                && escaped(s)[i] != '"' && escaped(s)[i] != '\'',
    decreases s.len(),
{
    if s.len() > 0 {
        let head = escape_char(s[0]);
        let rest = escaped(s.drop_first());
        lemma_escaped_free_of_raw_markup(s.drop_first());
        assert forall|i: int|
            0 <= i < escaped(s).len() implies escaped(s)[i] != '<' && escaped(s)[i] != '>'
            && escaped(s)[i] != '"' && escaped(s)[i] != '\'' by {
            if i < head.len() {
                assert(escaped(s)[i] == head[i]);
            } else {
                assert(escaped(s)[i] == rest[i - head.len()]);
            }
        }
    }
}

/// The shape of escaped text: it is a concatenation of blocks, each block
/// either a character reference written by `escape_char` or a single
/// character that is not HTML-significant. In particular every `&` begins a
/// character reference.
pub open spec fn well_escaped(t: Seq<char>) -> bool
    decreases t.len(),
{
    if t.len() == 0 {
        true
    } else if t[0] == '&' {
        ||| (escape_char('&').is_prefix_of(t) && well_escaped(t.skip(5)))
        ||| (escape_char('<').is_prefix_of(t) && well_escaped(t.skip(4)))
        ||| (escape_char('>').is_prefix_of(t) && well_escaped(t.skip(4)))
        ||| (escape_char('"').is_prefix_of(t) && well_escaped(t.skip(6)))
        ||| (escape_char('\'').is_prefix_of(t) && well_escaped(t.skip(6)))
        ||| (escape_char('/').is_prefix_of(t) && well_escaped(t.skip(6)))
    } else {
        !is_html_significant(t[0]) && well_escaped(t.skip(1))
    }
}

/// Putting one escaped block in front of well-escaped text keeps it
/// well escaped.
proof fn lemma_well_escaped_prepend(c: char, t: Seq<char>)
    requires
        well_escaped(t),
    ensures
        well_escaped(escape_char(c) + t),
{
    let u = escape_char(c) + t;
    if c == '&' || c == '<' || c == '>' || c == '"' || c == '\'' || c == '/' {
        let k = escape_char(c).len() as int;
        assert(escape_char(c) =~= u.subrange(0, k));
        assert(u.skip(k) =~= t);
    } else {
        assert(u[0] == c);
        assert(u.skip(1) =~= t);
    }
}

/// The output of `escaped` is well escaped: no raw markup, and every `&`
/// begins a character reference.
pub proof fn lemma_escaped_well_escaped(s: Seq<char>)
    ensures
        well_escaped(escaped(s)),
    decreases s.len(),
{
    if s.len() > 0 {
        lemma_escaped_well_escaped(s.drop_first());
        lemma_well_escaped_prepend(s[0], escaped(s.drop_first()));
    }
}

} // verus!
