//! The few pieces of XML that the protocol's bodies are made of.

use vstd::prelude::*;
use vstd::string::*;

verus! {

/// What a character of text is written as inside an element.
pub open spec fn escaped_char(c: char) -> Seq<char> {
    if c == '<' {
        "&lt;"@
    } else if c == '>' {
        "&gt;"@
    } else if c == '&' {
        "&amp;"@
    } else if c == '\'' {
        "&apos;"@
    } else if c == '"' {
        "&quot;"@
    } else {
        seq![c]
    }
}

/// `text` with each of its characters escaped.
pub open spec fn escaped(text: Seq<char>) -> Seq<char>
    decreases text.len(),
{
    if text.len() == 0 {
        Seq::empty()
    } else {
        escaped_char(text.first()) + escaped(text.drop_first())
    }
}

/// The element `name` that holds `text`. An element without text is written
/// as one self-closing tag.
pub open spec fn element(name: Seq<char>, text: Seq<char>) -> Seq<char> {
    if text.len() == 0 {
        "<"@ + name + "/>"@
    } else {
        "<"@ + name + ">"@ + escaped(text) + "</"@ + name + ">"@
    }
}

/// The element `name` around `inner`, which is written as it stands.
pub open spec fn wrapped(name: Seq<char>, inner: Seq<char>) -> Seq<char> {
    if inner.len() == 0 {
        "<"@ + name + "/>"@
    } else {
        "<"@ + name + ">"@ + inner + "</"@ + name + ">"@
    }
}

/// The first line of every body.
pub open spec fn declaration() -> Seq<char> {
    "<?xml version=\"1.0\" encoding=\"UTF-8\"?>\n"@
}

/// A whole body: the declaration, the document, and a line end.
pub open spec fn document(root: Seq<char>) -> Seq<char> {
    declaration() + root + "\n"@
}

/// Calls `quick_xml::escape::escape`, which replaces each of `<`, `>`, `&`,
/// `'` and `"` by its entity and leaves every other character as it is.
#[verifier::external_body]
fn escape(text: &str) -> (out: String)
    ensures
        out@ == escaped(text@),
{
    quick_xml::escape::escape(text).into_owned()
}

/// Appends the element `name` that holds `text` to `out`.
pub fn push_element(out: &mut String, name: &str, text: &str)
    ensures
        final(out)@ == old(out)@ + element(name@, text@),
{
    if text.is_empty() {
        out.append("<");
        out.append(name);
        out.append("/>");
        assert(out@ =~= old(out)@ + element(name@, text@));
    } else {
        let inner = escape(text);
        out.append("<");
        out.append(name);
        out.append(">");
        out.append(inner.as_str());
        out.append("</");
        out.append(name);
        out.append(">");
        assert(out@ =~= old(out)@ + element(name@, text@));
    }
}

/// Appends the element `name` around `inner` to `out`.
pub fn push_wrapped(out: &mut String, name: &str, inner: &str)
    ensures
        final(out)@ == old(out)@ + wrapped(name@, inner@),
{
    if inner.is_empty() {
        out.append("<");
        out.append(name);
        out.append("/>");
        assert(out@ =~= old(out)@ + wrapped(name@, inner@));
    } else {
        out.append("<");
        out.append(name);
        out.append(">");
        out.append(inner);
        out.append("</");
        out.append(name);
        out.append(">");
        assert(out@ =~= old(out)@ + wrapped(name@, inner@));
    }
}

/// The body that holds the document `root`.
pub fn into_document(root: &str) -> (body: String)
    ensures
        body@ == document(root@),
{
    let mut body = String::from_str("<?xml version=\"1.0\" encoding=\"UTF-8\"?>\n");
    body.append(root);
    body.append("\n");
    body
}

} // verus!
