//! The markup dialect as a stream of events, and the gateway to the XML
//! reader and writer that turn text into events and events into text.

use vstd::prelude::*;

verus! {

/// One `name="value"` pair on an opening tag.
#[derive(Debug, Clone, PartialEq, Eq)]
pub struct Attribute {
    pub name: String,
    pub value: String,
}

/// One step of a markup document, read left to right.
#[derive(Debug, Clone, PartialEq, Eq)]
pub enum MarkupEvent {
    /// An opening tag.
    Start { name: String, attributes: Vec<Attribute> },
    /// A closing tag, with the name of the element that it closes.
    End { name: String },
    /// Character data between tags.
    Text(String),
    /// Anything else: the document's start and end, comments, white space,
    /// processing instructions, CDATA sections.
    Other,
}

/// The mathematical value of an [`Attribute`].
pub struct AttributeView {
    pub name: Seq<char>,
    pub value: Seq<char>,
}

/// The mathematical value of a [`MarkupEvent`].
pub enum MarkupEventView {
    Start { name: Seq<char>, attributes: Seq<AttributeView> },
    End { name: Seq<char> },
    Text(Seq<char>),
    Other,
}

impl View for Attribute {
    type V = AttributeView;

    open spec fn view(&self) -> AttributeView {
        AttributeView { name: self.name@, value: self.value@ }
    }
}

impl DeepView for Attribute {
    type V = AttributeView;

    open spec fn deep_view(&self) -> AttributeView {
        self@
    }
}

impl View for MarkupEvent {
    type V = MarkupEventView;

    open spec fn view(&self) -> MarkupEventView {
        match self {
            MarkupEvent::Start { name, attributes } => MarkupEventView::Start {
                name: name@,
                attributes: attributes.deep_view(),
            },
            MarkupEvent::End { name } => MarkupEventView::End { name: name@ },
            MarkupEvent::Text(text) => MarkupEventView::Text(text@),
            MarkupEvent::Other => MarkupEventView::Other,
        }
    }
}

impl DeepView for MarkupEvent {
    type V = MarkupEventView;

    open spec fn deep_view(&self) -> MarkupEventView {
        self@
    }
}

/// An opening tag without attributes.
pub open spec fn start(name: Seq<char>) -> MarkupEventView {
    MarkupEventView::Start { name, attributes: Seq::empty() }
}

/// A closing tag.
pub open spec fn end(name: Seq<char>) -> MarkupEventView {
    MarkupEventView::End { name }
}

/// Character data.
pub open spec fn text(content: Seq<char>) -> MarkupEventView {
    MarkupEventView::Text(content)
}

/// The names of the elements that are open after `events`, outermost first.
/// A closing tag closes the innermost open element; one that finds no open
/// element changes nothing.
pub open spec fn open_elements(events: Seq<MarkupEventView>) -> Seq<Seq<char>>
    decreases events.len(),
{
    if events.len() == 0 {
        Seq::empty()
    } else {
        let before = open_elements(events.drop_last());
        match events.last() {
            MarkupEventView::Start { name, .. } => before.push(name),
            MarkupEventView::End { .. } => if before.len() > 0 {
                before.drop_last()
            } else {
                before
            },
            _ => before,
        }
    }
}

/// `xml::reader::Error`: what the reader reports of a malformed document.
/// Nothing is known of what is inside.
#[verifier::external_type_specification]
#[verifier::external_body]
pub struct ExReaderError(xml::reader::Error);

/// The events that `xml::EventReader` with the default configuration yields
/// for a document, or `None` where it reports the document as malformed.
pub uninterp spec fn parsed_events(document: Seq<char>) -> Option<Seq<MarkupEventView>>;

/// `xml::EventReader::from_str` and its iterator, run to the end of the
/// document or to the first error. The outcome depends on the document
/// alone. An element's name is its local name, and so is an attribute's.
#[verifier::external_body]
pub(crate) fn read_events(document: &str) -> (outcome: Result<Vec<MarkupEvent>, xml::reader::Error>)
    ensures
        match outcome {
            Ok(events) => parsed_events(document@) == Some(events.deep_view()),
            Err(_) => parsed_events(document@) is None,
        },
{
    xml::EventReader::from_str(document).into_iter().map(|event| Ok(match event? {
        xml::reader::XmlEvent::StartElement { name, attributes, .. } => MarkupEvent::Start {
            name: name.local_name,
            attributes: attributes.into_iter().map(|a| Attribute {
                name: a.name.local_name,
                value: a.value,
            }).collect(),
        },
        xml::reader::XmlEvent::EndElement { name } => MarkupEvent::End { name: name.local_name },
        xml::reader::XmlEvent::Characters(content) => MarkupEvent::Text(content),
        _ => MarkupEvent::Other,
    })).collect()
}

/// `xml::EventWriter`: the writer of markup. Nothing is known of what is
/// inside but what the functions below say.
#[verifier::external_type_specification]
#[verifier::external_body]
#[verifier::reject_recursive_types(W)]
pub struct ExEventWriter<W>(xml::EventWriter<W>);

/// The events that an `xml::EventWriter` has been handed since it was made,
/// oldest first. Every writer here is made by `writer_new` and handed its
/// events by the three functions behind it, so that each closing tag is
/// listed with the name of the element that the writer closed.
pub uninterp spec fn emitted(writer: xml::EventWriter<Vec<u8>>) -> Seq<MarkupEventView>;

/// The document text that an `xml::EventWriter` with the default
/// configuration produces for a sequence of events.
pub uninterp spec fn rendered(events: Seq<MarkupEventView>) -> Seq<char>;

/// `xml::EventWriter::new` on an empty buffer: a writer with the default
/// configuration that has been handed nothing yet.
#[verifier::external_body]
fn writer_new() -> (writer: xml::EventWriter<Vec<u8>>)
    ensures
        emitted(writer) == Seq::<MarkupEventView>::empty(),
{
    xml::EventWriter::new(Vec::new())
}

/// `xml::EventWriter::write` with an opening tag. Writing into a buffer
/// cannot fail, and the writer accepts any name and any attributes.
#[verifier::external_body]
fn writer_start(writer: &mut xml::EventWriter<Vec<u8>>, name: &str, attributes: &Vec<Attribute>)
    ensures
        emitted(*final(writer)) == emitted(*old(writer)).push(
            MarkupEventView::Start { name: name@, attributes: attributes.deep_view() },
        ),
{
    let mut tag = xml::writer::XmlEvent::start_element(name);
    for attribute in attributes {
        tag = tag.attr(attribute.name.as_str(), attribute.value.as_str());
    }
    writer.write(tag).unwrap();
}

/// `xml::EventWriter::write` with character data, which cannot fail on a
/// buffer.
#[verifier::external_body]
fn writer_text(writer: &mut xml::EventWriter<Vec<u8>>, content: &str)
    ensures
        emitted(*final(writer)) == emitted(*old(writer)).push(MarkupEventView::Text(content@)),
{
    writer.write(xml::writer::XmlEvent::characters(content)).unwrap();
}

/// `xml::EventWriter::write` with an unnamed closing tag. The writer closes
/// the innermost open element, and fails only where none is open.
#[verifier::external_body]
fn writer_end(writer: &mut xml::EventWriter<Vec<u8>>)
    requires
        open_elements(emitted(*old(writer))).len() > 0,
    ensures
        emitted(*final(writer)) == emitted(*old(writer)).push(
            MarkupEventView::End { name: open_elements(emitted(*old(writer))).last() },
        ),
{
    writer.write(xml::writer::XmlEvent::end_element()).unwrap();
}

/// `xml::EventWriter::into_inner`, and the buffer as text: what the writer
/// made of the events it was handed. The writer writes nothing but text, so
/// the conversion leaves the buffer as it is.
#[verifier::external_body]
fn writer_into_text(writer: xml::EventWriter<Vec<u8>>) -> (document: String)
    ensures
        document@ == rendered(emitted(writer)),
{
    String::from_utf8_lossy(&writer.into_inner()).into_owned()
}

/// What one more event does to the open elements.
pub proof fn lemma_open_elements_push(events: Seq<MarkupEventView>, event: MarkupEventView)
    ensures
        open_elements(events.push(event)) == match event {
            MarkupEventView::Start { name, .. } => open_elements(events).push(name),
            MarkupEventView::End { .. } => if open_elements(events).len() > 0 {
                open_elements(events).drop_last()
            } else {
                open_elements(events)
            },
            _ => open_elements(events),
        },
{
    assert(events.push(event).drop_last() =~= events);
}

/// A markup document in the making: the events written so far, in order.
pub struct MarkupWriter {
    inner: xml::EventWriter<Vec<u8>>,
}

impl MarkupWriter {
    /// The events written so far.
    pub closed spec fn events(&self) -> Seq<MarkupEventView> {
        emitted(self.inner)
    }

    /// The names of the elements that are open, outermost first.
    pub open spec fn open(&self) -> Seq<Seq<char>> {
        open_elements(self.events())
    }

    /// A writer that has written nothing.
    pub fn new() -> (writer: MarkupWriter)
        ensures
            writer.events() == Seq::<MarkupEventView>::empty(),
            writer.open() == Seq::<Seq<char>>::empty(),
    {
        MarkupWriter { inner: writer_new() }
    }

    /// Opens an element that has the given attributes.
    pub fn start_element_with(&mut self, name: &str, attributes: &Vec<Attribute>)
        ensures
            final(self).events() == old(self).events().push(
                MarkupEventView::Start { name: name@, attributes: attributes.deep_view() },
            ),
            final(self).open() == old(self).open().push(name@),
    {
        proof {
            lemma_open_elements_push(
                self.events(),
                MarkupEventView::Start { name: name@, attributes: attributes.deep_view() },
            );
        }
        writer_start(&mut self.inner, name, attributes);
    }

    /// Opens an element without attributes.
    pub fn start_element(&mut self, name: &str)
        ensures
            final(self).events() == old(self).events().push(start(name@)),
            final(self).open() == old(self).open().push(name@),
    {
        let attributes: Vec<Attribute> = Vec::new();
        assert(attributes.deep_view() =~= Seq::empty());
        self.start_element_with(name, &attributes);
    }

    /// Writes character data.
    pub fn characters(&mut self, content: &str)
        ensures
            final(self).events() == old(self).events().push(text(content@)),
            final(self).open() == old(self).open(),
    {
        proof {
            lemma_open_elements_push(self.events(), text(content@));
        }
        writer_text(&mut self.inner, content);
    }

    /// Closes the innermost open element.
    pub fn end_element(&mut self)
        requires
            old(self).open().len() > 0,
        ensures
            final(self).events() == old(self).events().push(end(old(self).open().last())),
            final(self).open() == old(self).open().drop_last(),
    {
        proof {
            lemma_open_elements_push(self.events(), end(self.open().last()));
        }
        writer_end(&mut self.inner);
    }

    /// The document as text.
    pub fn into_text(self) -> (document: String)
        ensures
            document@ == rendered(self.events()),
    {
        writer_into_text(self.inner)
    }
}

} // verus!
