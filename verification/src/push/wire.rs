//! The wire document: the XML body of a push request.
//!
//! A notification is written as one `Data` element inside a
//! `PolycomIPPhone` root. The handset's firmware does not decode character
//! references: a body that holds `&lt;` where `<` was meant is answered
//! with status 200 and thrown away. So the document is first written the
//! way any XML writer would, with the text escaped, and the escaping is then
//! undone on the whole document. That the two steps together leave the text
//! as it was given is what [`encode`] promises.

use vstd::prelude::*;
use crate::errors::PolyRestError;
use crate::push::{MessageLevel, Notification};

verus! {

/// What [`quick_xml::escape::partial_escape`] writes in place of `c`.
pub open spec fn escaped_char(c: char) -> Seq<char> {
    if c == '<' {
        seq!['&', 'l', 't', ';']
    } else if c == '>' {
        seq!['&', 'g', 't', ';']
    } else if c == '&' {
        seq!['&', 'a', 'm', 'p', ';']
    } else if c == '\r' {
        seq!['&', '#', '1', '3', ';']
    } else {
        seq![c]
    }
}

/// `text` with each of its characters escaped.
pub open spec fn escaped(text: Seq<char>) -> Seq<char>
    decreases text.len(),
{
    if text.len() == 0 {
        Seq::empty()
    } else {
        escaped_char(text[0]) + escaped(text.skip(1))
    }
}

/// The character that a reference at the start of `s` stands for, and the
/// length of that reference. The references are the five that XML
/// predefines and the one that escaping writes for a carriage return.
pub open spec fn leading_reference(s: Seq<char>) -> Option<(char, int)> {
    if s.len() >= 4 && s[0] == '&' && s[1] == 'l' && s[2] == 't' && s[3] == ';' {
        Some(('<', 4))
    } else if s.len() >= 4 && s[0] == '&' && s[1] == 'g' && s[2] == 't' && s[3] == ';' {
        Some(('>', 4))
    } else if s.len() >= 5 && s[0] == '&' && s[1] == 'a' && s[2] == 'm' && s[3] == 'p' && s[4]
        == ';' {
        Some(('&', 5))
    } else if s.len() >= 6 && s[0] == '&' && s[1] == 'a' && s[2] == 'p' && s[3] == 'o' && s[4]
        == 's' && s[5] == ';' {
        Some(('\'', 6))
    } else if s.len() >= 6 && s[0] == '&' && s[1] == 'q' && s[2] == 'u' && s[3] == 'o' && s[4]
        == 't' && s[5] == ';' {
        Some(('"', 6))
    } else if s.len() >= 5 && s[0] == '&' && s[1] == '#' && s[2] == '1' && s[3] == '3' && s[4]
        == ';' {
        Some(('\r', 5))
    } else {
        None
    }
}

/// Every `&` in `s` begins one of the references of [`leading_reference`].
pub open spec fn references_known(s: Seq<char>) -> bool
    decreases s.len(),
{
    if s.len() == 0 {
        true
    } else if s[0] == '&' {
        match leading_reference(s) {
            Some((_, n)) => references_known(s.skip(n)),
            None => false,
        }
    } else {
        references_known(s.skip(1))
    }
}

/// `s` with each reference of [`leading_reference`] replaced by the
/// character it stands for. Meant for an `s` that meets
/// [`references_known`].
pub open spec fn restored(s: Seq<char>) -> Seq<char>
    decreases s.len(),
{
    if s.len() == 0 {
        s
    } else if s[0] == '&' {
        match leading_reference(s) {
            Some((c, n)) => seq![c] + restored(s.skip(n)),
            None => s,
        }
    } else {
        seq![s[0]] + restored(s.skip(1))
    }
}

/// What [`quick_xml::escape::unescape`] makes of `raw`: the text with its
/// references resolved, or `None` where it reports an error.
pub uninterp spec fn unescaped(raw: Seq<char>) -> Option<Seq<char>>;

#[verifier::external_type_specification]
#[verifier::external_body]
pub struct ExEscapeError(quick_xml::escape::EscapeError);

/// Calls [`quick_xml::escape::partial_escape`], the escaping that XML
/// writers apply to text content. Claimed of it: each `<`, `>`, `&` and
/// carriage return is replaced by its reference, as the table in its
/// documentation lists them, and every other character is kept.
#[verifier::external_body]
fn partial_escape(text: &str) -> (out: String)
    ensures
        out@ == escaped(text@),
{
    quick_xml::escape::partial_escape(text).into_owned()
}

/// Calls [`quick_xml::escape::unescape`]. Claimed of it: its outcome is a
/// function of `raw` alone, and where every `&` of `raw` begins one of the
/// references of [`leading_reference`] it succeeds and replaces each of them
/// by its character, keeping the rest.
#[verifier::external_body]
fn unescape(raw: &str) -> (out: Result<String, quick_xml::escape::EscapeError>)
    ensures
        match out {
            Ok(text) => unescaped(raw@) == Some(text@),
            Err(_) => unescaped(raw@) is None,
        },
        references_known(raw@) ==> out is Ok && out->Ok_0@ == restored(raw@),
{
    quick_xml::escape::unescape(raw).map(|text| text.into_owned())
}

/// No character of `s` is `&`.
pub open spec fn plain(s: Seq<char>) -> bool {
    forall|i: int| 0 <= i < s.len() ==> s[i] != '&'
}

/// The start of every document, up to the opening quote of the attribute.
pub open spec fn document_head() -> Seq<char> {
    "<PolycomIPPhone><Data priority=\""@
}

/// What follows the attribute where there is text.
pub open spec fn attribute_end() -> Seq<char> {
    "\">"@
}

/// The end of a document that holds text.
pub open spec fn document_tail() -> Seq<char> {
    "</Data></PolycomIPPhone>"@
}

/// What follows the attribute where the text is empty.
pub open spec fn empty_tail() -> Seq<char> {
    "\"/></PolycomIPPhone>"@
}

/// The document around `content`: the root element, the `Data` element with
/// the level's name as its `priority` attribute, and `content` inside it. An
/// empty content leaves a self-closed `Data` element.
pub open spec fn document(level: MessageLevel, content: Seq<char>) -> Seq<char> {
    if content.len() == 0 {
        document_head() + level.name() + empty_tail()
    } else {
        document_head() + level.name() + attribute_end() + content + document_tail()
    }
}

/// The document as an XML writer leaves it: with the text escaped.
pub open spec fn serialized(level: MessageLevel, text: Seq<char>) -> Seq<char> {
    document(level, escaped(text))
}

/// The document as it goes on the wire: with the text as it was given.
pub open spec fn wire_document(level: MessageLevel, text: Seq<char>) -> Seq<char> {
    document(level, text)
}

/// A run of characters without `&` passes through unchanged.
proof fn lemma_plain_passes(run: Seq<char>, rest: Seq<char>)
    requires
        plain(run),
    ensures
        references_known(run + rest) == references_known(rest),
        restored(run + rest) == run + restored(rest),
    decreases run.len(),
{
    let s = run + rest;
    if run.len() == 0 {
        assert(s =~= rest);
        assert(run + restored(rest) =~= restored(rest));
    } else {
        assert(s[0] == run[0]);
        assert(s.skip(1) =~= run.skip(1) + rest);
        lemma_plain_passes(run.skip(1), rest);
        assert(seq![s[0]] + (run.skip(1) + restored(rest)) =~= run + restored(rest));
    }
}

/// Escaped text in front of `rest` is brought back to the text itself.
proof fn lemma_escaped_restores(text: Seq<char>, rest: Seq<char>)
    ensures
        references_known(escaped(text) + rest) == references_known(rest),
        restored(escaped(text) + rest) == text + restored(rest),
    decreases text.len(),
{
    let s = escaped(text) + rest;
    if text.len() == 0 {
        assert(s =~= rest);
        assert(text + restored(rest) =~= restored(rest));
    } else {
        let c = text[0];
        let reference = escaped_char(c);
        let after = escaped(text.skip(1)) + rest;
        assert(s =~= reference + after);
        lemma_escaped_restores(text.skip(1), rest);
        if c == '<' || c == '>' || c == '&' || c == '\r' {
            assert(leading_reference(s) == Some((c, reference.len() as int)));
            assert(s.skip(reference.len() as int) =~= after);
        } else {
            assert(s[0] == c);
            assert(s.skip(1) =~= after);
        }
        assert(seq![c] + (text.skip(1) + restored(rest)) =~= text + restored(rest));
    }
}

/// Escaping leaves nothing of a text only where the text is empty.
proof fn lemma_escaped_empty(text: Seq<char>)
    ensures
        escaped(text).len() == 0 <==> text.len() == 0,
{
    if text.len() > 0 {
        assert(escaped(text) == escaped_char(text[0]) + escaped(text.skip(1)));
        assert(escaped_char(text[0]).len() > 0);
    }
}

/// The fixed parts of a document and the names of the levels hold no `&`.
proof fn lemma_frame_is_plain(level: MessageLevel)
    ensures
        plain(document_head()),
        plain(level.name()),
        plain(attribute_end()),
        plain(document_tail()),
        plain(empty_tail()),
{
    reveal_strlit("<PolycomIPPhone><Data priority=\"");
    reveal_strlit("\">");
    reveal_strlit("</Data></PolycomIPPhone>");
    reveal_strlit("\"/></PolycomIPPhone>");
}

/// Undoing the escaping of a text gives the text back, whatever it holds:
/// every reference that escaping writes is one that is resolved again.
pub proof fn escaping_is_undone(text: Seq<char>)
    ensures
        references_known(escaped(text)),
        restored(escaped(text)) == text,
{
    lemma_escaped_restores(text, Seq::empty());
    assert(escaped(text) + Seq::<char>::empty() =~= escaped(text));
    assert(text + Seq::<char>::empty() =~= text);
}

/// Undoing the escaping on a whole written document changes nothing but
/// the text: the result is the wire document, in which the text stands as
/// it was given.
pub proof fn written_document_is_restored(level: MessageLevel, text: Seq<char>)
    ensures
        references_known(serialized(level, text)),
        restored(serialized(level, text)) == wire_document(level, text),
{
    lemma_frame_is_plain(level);
    lemma_escaped_empty(text);
    let none = Seq::<char>::empty();
    if text.len() == 0 {
        let frame = document_head() + level.name() + empty_tail();
        assert(escaped(text) =~= none);
        lemma_plain_passes(frame, none);
        assert(frame + none =~= frame);
    } else {
        let front = document_head() + level.name() + attribute_end();
        let tail = document_tail();
        lemma_plain_passes(tail, none);
        assert(tail + none =~= tail);
        lemma_escaped_restores(text, tail);
        lemma_plain_passes(front, escaped(text) + tail);
        assert(serialized(level, text) =~= front + (escaped(text) + tail));
        assert(wire_document(level, text) =~= front + (text + tail));
    }
}

/// The `priority` attribute of a wire document holds the level's name, in
/// double quotes, whatever the text is.
pub proof fn priority_is_level_name(level: MessageLevel, text: Seq<char>)
    ensures
        ({
            let doc = wire_document(level, text);
            let from = document_head().len() as int;
            let to = from + level.name().len();
            &&& to < doc.len()
            &&& doc.subrange(0, from) == document_head()
            &&& doc.subrange(from, to) == level.name()
            &&& doc[from - 1] == '"'
            &&& doc[to] == '"'
        }),
{
    reveal_strlit("<PolycomIPPhone><Data priority=\"");
    reveal_strlit("\">");
    reveal_strlit("\"/></PolycomIPPhone>");
    let doc = wire_document(level, text);
    let from = document_head().len() as int;
    let to = from + level.name().len();
    assert(doc.subrange(0, from) =~= document_head());
    assert(doc.subrange(from, to) =~= level.name());
}

/// Where there is text, it stands in the wire document character for
/// character, right behind the attribute: nothing in it is replaced by a
/// reference.
pub proof fn text_stands_literally(level: MessageLevel, text: Seq<char>)
    requires
        text.len() > 0,
    ensures
        ({
            let doc = wire_document(level, text);
            let from = (document_head().len() + level.name().len() + attribute_end().len()) as int;
            &&& from + text.len() <= doc.len()
            &&& doc.subrange(from, from + text.len()) == text
        }),
{
    let doc = wire_document(level, text);
    let from = (document_head().len() + level.name().len() + attribute_end().len()) as int;
    assert(doc.subrange(from, from + text.len()) =~= text);
}

/// Writes the document as an XML writer would: the text escaped, the rest
/// as [`document`] lays it out.
pub fn serialize(level: MessageLevel, text: &str) -> (written: String)
    ensures
        written@ == serialized(level, text@),
{
    proof {
        lemma_escaped_empty(text@);
    }
    let mut written = String::from_str("<PolycomIPPhone><Data priority=\"");
    let name = level.to_string();
    written.append(name.as_str());
    if text.is_empty() {
        written.append("\"/></PolycomIPPhone>");
    } else {
        let content = partial_escape(text);
        written.append("\">");
        written.append(content.as_str());
        written.append("</Data></PolycomIPPhone>");
    }
    written
}

/// Undoes XML escaping on a whole document, so that the handset finds `&`,
/// `<`, `>`, `"` and `'` as themselves. This is no repair of broken XML: it
/// is what the firmware asks for. A document with a reference that cannot
/// be resolved is refused with [`PolyRestError::EncodingError`].
pub fn restore_markup(written: &str) -> (wire: Result<String, PolyRestError>)
    ensures
        match wire {
            Ok(text) => unescaped(written@) == Some(text@),
            Err(e) => unescaped(written@) is None && e == PolyRestError::EncodingError,
        },
        references_known(written@) ==> wire is Ok && wire->Ok_0@ == restored(written@),
{
    match unescape(written) {
        Ok(text) => Ok(text),
        Err(_) => Err(PolyRestError::EncodingError),
    }
}

/// Brings a notification into the form that goes on the wire: the document
/// of [`wire_document`], with the level's lower-case name as the `priority`
/// attribute and the text exactly as given. It never fails.
pub fn encode(notification: &Notification) -> (wire: Result<String, PolyRestError>)
    ensures
        wire is Ok,
        wire->Ok_0@ == wire_document(notification.priority, notification.text@),
{
    let written = serialize(notification.priority, notification.text.as_str());
    proof {
        written_document_is_restored(notification.priority, notification.text@);
    }
    restore_markup(written.as_str())
}

} // verus!
