//! HTML escaping of text that is placed inside a fragment.

use vstd::prelude::*;

verus! {

/// What one character becomes when it is written into HTML text or into a
/// double-quoted attribute value.
pub open spec fn escaped_char(c: char) -> Seq<char> {
    if c == '<' {
        seq!['&', 'l', 't', ';']
    } else if c == '>' {
        seq!['&', 'g', 't', ';']
    } else if c == '&' {
        seq!['&', 'a', 'm', 'p', ';']
    } else if c == '"' {
        seq!['&', 'q', 'u', 'o', 't', ';']
    } else if c == '\'' {
        seq!['&', '#', 'x', '2', '7', ';']
    } else {
        seq![c]
    }
}

/// The escaped form of a whole text: each character replaced by its escaped
/// form, in order.
pub open spec fn html_escaped(text: Seq<char>) -> Seq<char>
    decreases text.len(),
{
    if text.len() == 0 {
        Seq::empty()
    } else {
        html_escaped(text.drop_last()) + escaped_char(text.last())
    }
}

/// Calls `askama::MarkupDisplay::new_unsafe` with the `askama::Html` escaper and
/// formats the value, which is how a compiled askama HTML template writes an
/// expression. Trusted: the escaper replaces `<`, `>`, `&`, `"` and `'` by
/// `&lt;`, `&gt;`, `&amp;`, `&quot;` and `&#x27;` and copies every other
/// character.
#[verifier::external_body]
pub(crate) fn escape_html(text: &str) -> (out: String)
    ensures
        out@ == html_escaped(text@),
{
    askama::MarkupDisplay::new_unsafe(text, askama::Html).to_string()
}

/// Whether `c` is one of the five characters that escaping replaces.
pub open spec fn is_markup_char(c: char) -> bool {
    c == '<' || c == '>' || c == '&' || c == '"' || c == '\''
}

/// Escaping a text in two parts gives the two escaped parts, one after the
/// other.
pub proof fn lemma_escape_concat(a: Seq<char>, b: Seq<char>)
    ensures
        html_escaped(a + b) == html_escaped(a) + html_escaped(b),
    decreases b.len(),
{
    if b.len() == 0 {
        assert(a + b =~= a);
        assert(html_escaped(a) + html_escaped(b) =~= html_escaped(a));
    } else {
        lemma_escape_concat(a, b.drop_last());
        assert((a + b).drop_last() =~= a + b.drop_last());
        assert((a + b).last() == b.last());
        assert(html_escaped(a + b) =~= html_escaped(a) + html_escaped(b));
    }
}

/// Escaped text holds no `<`, `>`, `"` or `'`: whatever the text was, it
/// cannot open or close a tag, nor end a quoted attribute value.
pub proof fn lemma_escaped_has_no_markup(text: Seq<char>)
    ensures
        forall|i: int|
            0 <= i < html_escaped(text).len() ==> {
                let c = #[trigger] html_escaped(text)[i];
                c != '<' && c != '>' && c != '"' && c != '\''
            },
    decreases text.len(),
{
    if text.len() > 0 {
        lemma_escaped_has_no_markup(text.drop_last());
        let front = html_escaped(text.drop_last());
        let tail = escaped_char(text.last());
        assert forall|i: int| 0 <= i < html_escaped(text).len() implies {
            let c = #[trigger] html_escaped(text)[i];
            c != '<' && c != '>' && c != '"' && c != '\''
        } by {
            if i < front.len() {
                assert(html_escaped(text)[i] == front[i]);
            } else {
                assert(html_escaped(text)[i] == tail[i - front.len()]);
            }
        }
    }
}

/// Text without any of the five characters is its own escaped form.
pub proof fn lemma_escape_plain(text: Seq<char>)
    requires
        forall|i: int| 0 <= i < text.len() ==> !is_markup_char(#[trigger] text[i]),
    ensures
        html_escaped(text) == text,
    decreases text.len(),
{
    if text.len() > 0 {
        lemma_escape_plain(text.drop_last());
        assert(text.drop_last().push(text.last()) =~= text);
        assert(html_escaped(text) =~= text);
    } else {
        assert(html_escaped(text) =~= text);
    }
}

} // verus!
