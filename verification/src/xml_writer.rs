//! From levels to the markup document that holds them.

use vstd::prelude::*;
use crate::markup::{
    end, open_elements, rendered, start, text, Attribute, AttributeView, MarkupEventView,
    MarkupWriter,
};
use crate::rawlevel::{level_events, RawLevel, RawLevelView};
use crate::text::{decimal, push_decimal};

verus! {

/// The attributes of the document's root element.
pub open spec fn root_attributes() -> Seq<AttributeView> {
    seq![
        AttributeView { name: "version"@, value: "1.0"@ },
        AttributeView { name: "gjver"@, value: "2.0"@ },
    ]
}

/// What opens every document: the root, its dictionary, and in it the
/// container of the levels, which starts by declaring itself an array.
pub open spec fn header_events() -> Seq<MarkupEventView> {
    seq![
        MarkupEventView::Start { name: "plist"@, attributes: root_attributes() },
        start("dict"@),
        start("k"@),
        text("LLM_01"@),
        end("k"@),
        start("d"@),
        start("k"@),
        text("_isArr"@),
        end("k"@),
        start("t"@),
        end("t"@),
    ]
}

/// What closes every document: the end of the container of the levels, a
/// second entry of the dialect, and the ends of the dictionary and the root.
pub open spec fn footer_events() -> Seq<MarkupEventView> {
    seq![
        end("d"@),
        start("k"@),
        text("LLM_02"@),
        end("k"@),
        start("i"@),
        text("35"@),
        end("i"@),
        end("dict"@),
        end("plist"@),
    ]
}

/// The key under which the level at `index` stands in the document.
pub open spec fn index_label(index: nat) -> Seq<char> {
    "k_"@ + decimal(index)
}

/// The events of the level at `index`: its key, then a container with its
/// fields.
pub open spec fn record_events(index: nat, level: RawLevelView) -> Seq<MarkupEventView> {
    seq![start("k"@), text(index_label(index)), end("k"@), start("d"@)] + level_events(level)
        + seq![end("d"@)]
}

/// The events of the levels, each at its index.
pub open spec fn records_events(levels: Seq<RawLevelView>) -> Seq<MarkupEventView>
    decreases levels.len(),
{
    if levels.len() == 0 {
        Seq::empty()
    } else {
        records_events(levels.drop_last()) + record_events(
            (levels.len() - 1) as nat,
            levels.last(),
        )
    }
}

/// The events of the whole document.
pub open spec fn document_events(levels: Seq<RawLevelView>) -> Seq<MarkupEventView> {
    header_events() + records_events(levels) + footer_events()
}

/// The elements that the header leaves open.
pub open spec fn envelope() -> Seq<Seq<char>> {
    seq!["plist"@, "dict"@, "d"@]
}

/// Writes the opening of the document.
pub fn generate_header(w: &mut MarkupWriter)
    ensures
        final(w).events() == old(w).events() + header_events(),
        final(w).open() == old(w).open() + envelope(),
{
    let mut attributes: Vec<Attribute> = Vec::new();
    attributes.push(Attribute { name: "version".to_owned(), value: "1.0".to_owned() });
    attributes.push(Attribute { name: "gjver".to_owned(), value: "2.0".to_owned() });
    assert(attributes.deep_view() =~= root_attributes());
    w.start_element_with("plist", &attributes);
    w.start_element("dict");
    w.start_element("k");
    w.characters("LLM_01");
    w.end_element();
    w.start_element("d");
    w.start_element("k");
    w.characters("_isArr");
    w.end_element();
    w.start_element("t");
    w.end_element();
}

/// Writes the closing of the document, onto what the header left open.
pub fn generate_footer(w: &mut MarkupWriter)
    requires
        old(w).open().len() >= 3,
        old(w).open().skip(old(w).open().len() - 3) == envelope(),
    ensures
        final(w).events() == old(w).events() + footer_events(),
        final(w).open() == old(w).open().take(old(w).open().len() - 3),
{
    w.end_element();
    w.start_element("k");
    w.characters("LLM_02");
    w.end_element();
    w.start_element("i");
    w.characters("35");
    w.end_element();
    w.end_element();
    w.end_element();
}

/// Writes the whole document: the header, every level under the key of its
/// index, the footer.
pub fn generate_xml(w: &mut MarkupWriter, levels: &[RawLevel])
    ensures
        final(w).events() == old(w).events() + document_events(levels.deep_view()),
        final(w).open() == old(w).open(),
{
    let ghost all = levels.deep_view();
    generate_header(w);
    let ghost inside = w.open();
    let mut i: usize = 0;
    while i < levels.len()
        invariant
            i <= levels.len(),
            all == levels.deep_view(),
            inside == old(w).open() + envelope(),
            w.open() == inside,
            w.events() == old(w).events() + header_events() + records_events(all.take(i as int)),
        decreases levels.len() - i,
    {
        let mut label = "k_".to_owned();
        push_decimal(&mut label, i);
        w.start_element("k");
        w.characters(label.as_str());
        w.end_element();
        w.start_element("d");
        levels[i].write_xml(w);
        w.end_element();
        assert(all.take(i + 1).drop_last() =~= all.take(i as int));
        i += 1;
    }
    assert(all.take(i as int) =~= all);
    assert(inside.skip(inside.len() - 3) =~= envelope());
    generate_footer(w);
}

/// The markup document that holds the given levels, as text. The document
/// closes every element that it opens.
pub fn xml_from_level_list(levels: &[RawLevel]) -> (document: String)
    ensures
        document@ == rendered(document_events(levels.deep_view())),
        open_elements(document_events(levels.deep_view())).len() == 0,
{
    let mut xml = MarkupWriter::new();
    generate_xml(&mut xml, levels);
    xml.into_text()
}

} // verus!
