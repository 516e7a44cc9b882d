//! The streaming XML writer that renders profile documents.
//!
//! The writer itself is the `xmlwriter` crate. This module declares its
//! type, records the operations applied to a writer as a sequence, and names
//! the text that the writer produces for such a sequence. Nothing here is
//! proved of the writer: each function below states what the crate's source
//! shows.

use vstd::prelude::*;
use xmlwriter::XmlWriter;

verus! {

/// The writer of the `xmlwriter` crate, carried as an opaque value.
#[verifier::external_type_specification]
#[verifier::external_body]
pub struct ExXmlWriter(XmlWriter);

/// How a writer lays out what it writes.
#[derive(Clone, Copy, Debug, PartialEq, Eq, Structural)]
pub enum Indentation {
    /// No indentation and no line breaks.
    Flat,
    /// The given number of spaces per level.
    Spaces(u8),
    /// One tab per level.
    Tabs,
}

/// The settings that a writer is created with.
#[derive(Clone, Copy, Debug, PartialEq, Eq, Structural)]
pub struct Layout {
    /// Attribute values stand in single quotes instead of double quotes.
    pub single_quote: bool,
    /// Indentation of nested nodes.
    pub nodes: Indentation,
    /// Indentation of attributes; `Flat` keeps them on the element's line.
    pub attributes: Indentation,
}

/// One operation applied to a writer.
pub enum XmlOp {
    /// A writer was created with this layout.
    Create(Layout),
    /// An element with this name was started.
    Start(Seq<char>),
    /// An attribute with this name and value was written.
    Attribute(Seq<char>, Seq<char>),
    /// The whitespace-preserving flag was set to this value.
    Preserve(bool),
    /// A text node with this content was written.
    Text(Seq<char>),
    /// The innermost open element was closed.
    End,
}

/// The operations applied to a writer since it was created, oldest first.
pub uninterp spec fn written(w: XmlWriter) -> Seq<XmlOp>;

/// The document that a writer returns once the operations `ops` have been
/// applied to it and it is asked to finish.
pub uninterp spec fn document_text(ops: Seq<XmlOp>) -> Seq<char>;

/// The number of elements that are open after `ops`.
pub open spec fn open_depth(ops: Seq<XmlOp>) -> nat
    decreases ops.len(),
{
    if ops.len() == 0 {
        0
    } else {
        let before = open_depth(ops.drop_last());
        match ops.last() {
            XmlOp::Start(_) => before + 1,
            XmlOp::End => if before > 0 {
                (before - 1) as nat
            } else {
                0
            },
            _ => before,
        }
    }
}

/// Whether the writer stands inside a start tag after `ops`, so that an
/// attribute may follow: an element was started and nothing but attributes
/// and changes of the whitespace flag came after it.
pub open spec fn in_start_tag(ops: Seq<XmlOp>) -> bool
    decreases ops.len(),
{
    if ops.len() == 0 {
        false
    } else {
        match ops.last() {
            XmlOp::Start(_) => true,
            XmlOp::Attribute(_, _) => in_start_tag(ops.drop_last()),
            XmlOp::Preserve(_) => in_start_tag(ops.drop_last()),
            _ => false,
        }
    }
}

/// Calls `XmlWriter::new` with the options that `layout` stands for. The new
/// writer has had no operation applied but its creation.
#[verifier::external_body]
pub(crate) fn new_writer(layout: Layout) -> (w: XmlWriter)
    ensures
        written(w) == seq![XmlOp::Create(layout)],
{
    let indent = |i: Indentation| match i {
        Indentation::Flat => xmlwriter::Indent::None,
        Indentation::Spaces(n) => xmlwriter::Indent::Spaces(n),
        Indentation::Tabs => xmlwriter::Indent::Tabs,
    };
    XmlWriter::new(xmlwriter::Options {
        use_single_quote: layout.single_quote,
        indent: indent(layout.nodes),
        attributes_indent: indent(layout.attributes),
    })
}

/// Calls `XmlWriter::start_element`, which never panics and opens one more
/// element.
#[verifier::external_body]
pub(crate) fn start_element(w: &mut XmlWriter, name: &str)
    ensures
        written(*final(w)) == written(*old(w)).push(XmlOp::Start(name@)),
{
    w.start_element(name)
}

/// Calls `XmlWriter::write_attribute` with a string value. The crate panics
/// unless the writer stands inside a start tag, which `requires` asks for.
#[verifier::external_body]
pub(crate) fn write_attribute(w: &mut XmlWriter, name: &str, value: &str)
    requires
        in_start_tag(written(*old(w))),
    ensures
        written(*final(w)) == written(*old(w)).push(XmlOp::Attribute(name@, value@)),
{
    w.write_attribute(name, value)
}

/// Calls `XmlWriter::set_preserve_whitespaces`, which only stores the flag.
#[verifier::external_body]
pub(crate) fn set_preserve_whitespaces(w: &mut XmlWriter, preserve: bool)
    ensures
        written(*final(w)) == written(*old(w)).push(XmlOp::Preserve(preserve)),
{
    w.set_preserve_whitespaces(preserve)
}

/// Calls `XmlWriter::write_text`. The crate panics when no element is open,
/// which `requires` leaves out.
#[verifier::external_body]
pub(crate) fn write_text(w: &mut XmlWriter, text: &str)
    requires
        open_depth(written(*old(w))) > 0,
    ensures
        written(*final(w)) == written(*old(w)).push(XmlOp::Text(text@)),
{
    w.write_text(text)
}

/// Calls `XmlWriter::end_element`, which closes the innermost open element
/// and does nothing to the element stack when none is open.
#[verifier::external_body]
pub(crate) fn end_element(w: &mut XmlWriter)
    ensures
        written(*final(w)) == written(*old(w)).push(XmlOp::End),
{
    w.end_element()
}

/// Calls `XmlWriter::end_document`, which closes every open element and
/// returns the buffer. The text depends on nothing but the operations that
/// were applied to the writer.
#[verifier::external_body]
pub(crate) fn end_document(w: XmlWriter) -> (text: String)
    ensures
        text@ == document_text(written(w)),
{
    w.end_document()
}

} // verus!
