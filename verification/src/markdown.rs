//! Conversion of lightweight markup to the channel's HTML.
//!
//! Raw angle brackets are turned into entities first, so that nothing in the
//! source text can pass for a tag of the channel. The markup is then rendered
//! by `pulldown_cmark`, and one paragraph container around the result is
//! taken away.

use crate::text::{chars_of, matches_at, string_of, trim_bounds, trimmed};
use vstd::prelude::*;

verus! {

/// The HTML that `pulldown_cmark` renders for a CommonMark text parsed
/// without options.
pub uninterp spec fn markdown_html(text: Seq<char>) -> Seq<char>;

/// Parses `text` with `pulldown_cmark::Parser::new` and renders the events
/// with `pulldown_cmark::html::push_html` into an empty string. The result
/// depends on `text` alone; nothing more is claimed of it.
#[verifier::external_body]
fn render_markdown(text: &str) -> (html: String)
    ensures
        html@ == markdown_html(text@),
{
    let mut html = String::new();
    pulldown_cmark::html::push_html(&mut html, pulldown_cmark::Parser::new(text));
    html
}

/// What stands for `c` once angle brackets are escaped.
pub open spec fn angle_entity(c: char) -> Seq<char> {
    if c == '<' {
        "&lt;"@
    } else if c == '>' {
        "&gt;"@
    } else {
        seq![c]
    }
}

/// `text` with every `<` and `>` replaced by its entity.
pub open spec fn escaped(text: Seq<char>) -> Seq<char>
    decreases text.len(),
{
    if text.len() == 0 {
        Seq::empty()
    } else {
        escaped(text.drop_last()) + angle_entity(text.last())
    }
}

/// Replaces every `<` and `>` of `text` by its entity.
pub fn escape_angles(text: &str) -> (out: String)
    ensures
        out@ == escaped(text@),
{
    let mut out = String::new();
    for c in it: text.chars()
        invariant
            it.seq() == text@,
            out@ == escaped(text@.take(it.index())),
    {
        assert(text@.take(it.index() + 1).drop_last() =~= text@.take(it.index()));
        if c == '<' {
            out.append("&lt;");
        } else if c == '>' {
            out.append("&gt;");
        } else {
            out.push(c);
        }
    }
    assert(text@.take(text@.len() as int) =~= text@);
    out
}

/// Escaped text holds no angle bracket.
pub proof fn lemma_escaped_has_no_angle(text: Seq<char>)
    ensures
        !escaped(text).contains('<'),
        !escaped(text).contains('>'),
    decreases text.len(),
{
    reveal_strlit("&lt;");
    reveal_strlit("&gt;");
    if text.len() > 0 {
        lemma_escaped_has_no_angle(text.drop_last());
        assert forall|i: int| 0 <= i < escaped(text).len() implies escaped(text)[i] != '<'
            && escaped(text)[i] != '>' by {}
    }
}

/// Escaping goes part by part: two texts in a row are escaped as the one
/// escaped, then the other escaped.
pub proof fn lemma_escaped_concat(a: Seq<char>, b: Seq<char>)
    ensures
        escaped(a + b) == escaped(a) + escaped(b),
    decreases b.len(),
{
    if b.len() == 0 {
        assert(a + b =~= a);
        assert(escaped(a) + escaped(b) =~= escaped(a));
    } else {
        lemma_escaped_concat(a, b.drop_last());
        assert((a + b).drop_last() =~= a + b.drop_last());
        assert((a + b).last() == b.last());
        assert(escaped(a + b) =~= escaped(a) + escaped(b));
    }
}

/// `s` without `prefix` in front, where it begins with it.
pub open spec fn without_prefix(s: Seq<char>, prefix: Seq<char>) -> Seq<char> {
    if prefix.is_prefix_of(s) {
        s.skip(prefix.len() as int)
    } else {
        s
    }
}

/// `s` without `suffix` at its end, where it ends with it.
pub open spec fn without_suffix(s: Seq<char>, suffix: Seq<char>) -> Seq<char> {
    if suffix.is_suffix_of(s) {
        s.take(s.len() - suffix.len())
    } else {
        s
    }
}

/// Rendered HTML without the white space around it and without one
/// paragraph container: one opening tag in front and one closing tag at the
/// end, each taken away where it is there.
pub open spec fn paragraph_content(html: Seq<char>) -> Seq<char> {
    without_suffix(without_prefix(trimmed(html), "<p>"@), "</p>"@)
}

/// Trims rendered HTML and takes one paragraph container away.
pub fn unwrap_paragraph(html: &str) -> (out: String)
    ensures
        out@ == paragraph_content(html@),
{
    let v = chars_of(html);
    let (start, end) = trim_bounds(&v);
    let opening = chars_of("<p>");
    let closing = chars_of("</p>");
    let mut from = start;
    let mut to = end;
    let ghost body = trimmed(html@);
    if opening.len() <= to - from && matches_at(&v, from, &opening) {
        from += opening.len();
    }
    proof {
        if "<p>"@.is_prefix_of(body) {
            assert(body.subrange(0, "<p>"@.len() as int) =~= v@.subrange(
                start as int,
                start + "<p>"@.len(),
            ));
        }
    }
    let ghost rest = without_prefix(body, "<p>"@);
    if closing.len() <= to - from && matches_at(&v, to - closing.len(), &closing) {
        to -= closing.len();
    }
    proof {
        let n = "</p>"@.len();
        if n <= rest.len() {
            assert(rest.subrange(rest.len() - n, rest.len() as int) =~= v@.subrange(
                end - n,
                end as int,
            ));
        }
    }
    string_of(&v, from, to)
}

/// What a text becomes: angle brackets escaped, markup rendered, the
/// paragraph container taken away.
pub open spec fn converted(text: Seq<char>) -> Seq<char> {
    paragraph_content(markdown_html(escaped(text)))
}

/// Converts lightweight markup to the channel's HTML.
pub fn md2html(text: String) -> (html: String)
    ensures
        html@ == converted(text@),
{
    let safe = escape_angles(text.as_str());
    let rendered = render_markdown(safe.as_str());
    unwrap_paragraph(rendered.as_str())
}

} // verus!
