use gdsave::extractor::{extract_levels, parse_xml_to_level_list, KEY_DEPTH, RECORD_CLOSE_DEPTH};
use gdsave::markup::{Attribute, MarkupEvent};
use gdsave::rawlevel::{RawLevel, UnknownField};

const SAMPLE: &str = "<?xml version=\"1.0\"?><plist version=\"1.0\" gjver=\"2.0\"><dict><k>LLM_01</k><d><k>_isArr</k><t /><k>k_0</k><d><k>kCEK</k><i>4</i><k>k1</k><i>42</i><k>k2</k><s>First</s><k>k4</k><s>H4sIAAAAAAAAC6WQ</s><k>k5</k><s>someone</s><k>k13</k><t /><k>k21</k><i>2</i><k>k18</k><i>7</i><k>kI1</k><r>118.972</r><k>kI6</k><d><k>0</k><s>0</s><k>1</k><s>0</s></d></d><k>k_1</k><d><k>kCEK</k><i>4</i><k>k2</k><s>Second &amp; last</s><k>k3</k><s>QSBsZXZlbA==</s><k>k6</k><s>1234</s><k>k8</k><i>3</i><k>k19</k><t /><k>k20</k><f /><k>k42</k><i>99</i><k>k43</k><t /></d></d><k>LLM_02</k><i>35</i></dict></plist>";

fn start(name: &str) -> MarkupEvent {
    MarkupEvent::Start { name: name.to_string(), attributes: Vec::new() }
}

fn end(name: &str) -> MarkupEvent {
    MarkupEvent::End { name: name.to_string() }
}

fn text(content: &str) -> MarkupEvent {
    MarkupEvent::Text(content.to_string())
}

fn extra(key: &str, value: &str, ty: &str) -> UnknownField {
    UnknownField::new(key.to_string(), value.to_string(), ty.to_string())
}

fn some(text: &str) -> Option<String> {
    Some(text.to_string())
}

#[test]
fn mod_test_parse_xml_to_level_list() {
    let levels = parse_xml_to_level_list(SAMPLE);
    assert!(
        levels.is_ok(),
        "Failed to parse XML: {:?}",
        levels.err().unwrap()
    );
    for level in levels.unwrap() {
        println!("Level: {:?}", level);
    }
}

#[test]
fn sample_document_gives_its_two_levels() {
    let levels = parse_xml_to_level_list(SAMPLE).unwrap();
    let mut first = RawLevel::new();
    first.level_id = some("42");
    first.level_name = some("First");
    first.level_string = some("H4sIAAAAAAAAC6WQ");
    first.creator = some("someone");
    first.attempts = some("7");
    first.extra = vec![
        extra("kCEK", "4", "i"),
        extra("k13", "t", "bool"),
        extra("k21", "2", "i"),
        extra("kI1", "118.972", "r"),
        extra("kI6", "0", "s"),
    ];
    let mut second = RawLevel::new();
    second.level_name = some("Second & last");
    second.description_b64 = some("QSBsZXZlbA==");
    second.user_id = some("1234");
    second.song_id = some("3");
    second.normal_mode = some("t");
    second.practice_mode = some("f");
    second.original = some("99");
    second.two_player = some("t");
    second.extra = vec![extra("kCEK", "4", "i")];
    assert_eq!(levels, vec![first, second]);
}

#[test]
fn minimal_document_with_one_level() {
    let xml = "<plist><dict><k>LLM_01</k><d><k>k_0</k><d><k>k1</k><i>42</i><k>k19</k><t /></d></d></dict></plist>";
    let levels = parse_xml_to_level_list(xml).unwrap();
    assert_eq!(levels.len(), 1);
    assert_eq!(levels[0].level_id, some("42"));
    assert_eq!(levels[0].normal_mode, some("t"));
    let mut expected = RawLevel::new();
    expected.level_id = some("42");
    expected.normal_mode = some("t");
    assert_eq!(levels[0], expected);
}

#[test]
fn two_sibling_levels_are_kept_apart() {
    let xml = "<plist><dict><k>LLM_01</k><d><k>k_0</k><d><k>k1</k><i>1</i><k>k2</k><s>one</s></d><k>k_1</k><d><k>k2</k><s>two</s><k>k5</k><s>me</s></d></d></dict></plist>";
    let levels = parse_xml_to_level_list(xml).unwrap();
    let mut one = RawLevel::new();
    one.level_id = some("1");
    one.level_name = some("one");
    let mut two = RawLevel::new();
    two.level_name = some("two");
    two.creator = some("me");
    assert_eq!(levels, vec![one, two]);
}

#[test]
fn depths_are_those_of_the_dialect() {
    assert_eq!(KEY_DEPTH, 5);
    assert_eq!(RECORD_CLOSE_DEPTH, 3);
}

#[test]
fn keys_at_another_depth_are_no_keys() {
    // One container less: the keys stand at depth 4, and nothing is read.
    let xml = "<plist><dict><k>k_0</k><d><k>k1</k><i>42</i></d></dict></plist>";
    assert_eq!(parse_xml_to_level_list(xml).unwrap(), Vec::<RawLevel>::new());
    // One container more: the keys of the levels stand at depth 5 and are taken for the
    // keys of fields, and the first value below each is filed under it.
    let xml = "<plist><dict><a><k>LLM_01</k><d><k>k_0</k><d><k>k1</k><i>42</i></d></d></a></dict></plist>";
    let mut misread = RawLevel::new();
    misread.extra = vec![extra("k_0", "42", "i")];
    assert_eq!(parse_xml_to_level_list(xml).unwrap(), vec![misread]);
}

#[test]
fn a_level_without_fields_is_not_a_level() {
    let xml = "<plist><dict><k>LLM_01</k><d><k>k_0</k><d></d><k>k_1</k><d><k>k1</k><i>7</i></d><k>k_2</k><d /></d></dict></plist>";
    let levels = parse_xml_to_level_list(xml).unwrap();
    assert_eq!(levels.len(), 1);
    assert_eq!(levels[0].level_id, some("7"));
}

#[test]
fn a_value_without_text_is_lost() {
    let xml = "<plist><dict><k>LLM_01</k><d><k>k_0</k><d><k>k2</k><s></s><k>k5</k><s>me</s></d></d></dict></plist>";
    let levels = parse_xml_to_level_list(xml).unwrap();
    let mut expected = RawLevel::new();
    expected.creator = some("me");
    assert_eq!(levels, vec![expected]);
}

#[test]
fn a_value_of_white_space_is_lost() {
    let xml = "<plist><dict><k>LLM_01</k><d><k>k_0</k><d><k>k2</k><s>  </s><k>k5</k><s> me </s></d></d></dict></plist>";
    let levels = parse_xml_to_level_list(xml).unwrap();
    let mut expected = RawLevel::new();
    expected.creator = some(" me ");
    assert_eq!(levels, vec![expected]);
}

#[test]
fn comments_and_white_space_between_tags_do_not_count() {
    let plain = "<plist><dict><k>LLM_01</k><d><k>k_0</k><d><k>k1</k><i>42</i><k>k19</k><t /></d></d></dict></plist>";
    let spaced = "<?xml version=\"1.0\"?>\n<!-- a save -->\n<plist>\n <dict>\n  <k>LLM_01</k>\n  <d>\n   <k>k_0</k>\n   <d>\n    <k>k1</k> <i>42</i>\n    <!-- a flag -->\n    <k>k19</k><t />\n   </d>\n  </d>\n </dict>\n</plist>\n";
    assert_eq!(
        parse_xml_to_level_list(spaced).unwrap(),
        parse_xml_to_level_list(plain).unwrap()
    );
    assert_eq!(parse_xml_to_level_list(spaced).unwrap().len(), 1);
}

#[test]
fn a_repeated_key_keeps_the_last_value() {
    let xml = "<plist><dict><k>LLM_01</k><d><k>k_0</k><d><k>k2</k><s>old</s><k>k2</k><s>new</s><k>k99</k><i>1</i><k>k99</k><i>2</i></d></d></dict></plist>";
    let levels = parse_xml_to_level_list(xml).unwrap();
    let mut expected = RawLevel::new();
    expected.level_name = some("new");
    expected.extra = vec![extra("k99", "1", "i"), extra("k99", "2", "i")];
    assert_eq!(levels, vec![expected]);
}

#[test]
fn a_value_of_another_type_is_passed_over() {
    let xml = "<plist><dict><k>LLM_01</k><d><k>k_0</k><d><k>k2</k><x>no</x><s>yes</s></d></d></dict></plist>";
    let levels = parse_xml_to_level_list(xml).unwrap();
    let mut expected = RawLevel::new();
    expected.level_name = some("yes");
    assert_eq!(levels, vec![expected]);
}

#[test]
fn malformed_markup_is_an_error() {
    assert!(parse_xml_to_level_list("<plist><dict></plist>").is_err());
    assert!(parse_xml_to_level_list("<a><b></a></b>").is_err());
    assert!(parse_xml_to_level_list("<a>").is_err());
    assert!(parse_xml_to_level_list("").is_err());
    assert!(parse_xml_to_level_list("no markup").is_err());
    assert!(parse_xml_to_level_list("<a>&unknown;</a>").is_err());
}

#[test]
fn error_comes_even_behind_complete_levels() {
    let xml = "<plist><dict><k>LLM_01</k><d><k>k_0</k><d><k>k1</k><i>42</i></d></d></dict>";
    assert!(parse_xml_to_level_list(xml).is_err());
}

#[test]
fn events_of_one_level() {
    let events = vec![
        MarkupEvent::Other,
        MarkupEvent::Start {
            name: "plist".to_string(),
            attributes: vec![Attribute { name: "version".to_string(), value: "1.0".to_string() }],
        },
        start("dict"),
        start("k"),
        text("LLM_01"),
        end("k"),
        start("d"),
        start("k"),
        text("k_0"),
        end("k"),
        start("d"),
        start("k"),
        text("k1"),
        end("k"),
        start("i"),
        text("42"),
        end("i"),
        MarkupEvent::Other,
        start("k"),
        text("k19"),
        end("k"),
        start("t"),
        end("t"),
        start("k"),
        text("k77"),
        end("k"),
        start("f"),
        end("f"),
        end("d"),
        end("d"),
        end("dict"),
        end("plist"),
        MarkupEvent::Other,
    ];
    let levels = extract_levels(&events);
    let mut expected = RawLevel::new();
    expected.level_id = some("42");
    expected.normal_mode = some("t");
    expected.extra = vec![extra("k77", "f", "bool")];
    assert_eq!(levels, vec![expected]);
}

#[test]
fn events_that_do_not_balance_are_no_error() {
    // Closing tags first: the depth goes below zero and comes back.
    let events = vec![
        end("x"),
        end("x"),
        start("a"),
        start("a"),
        start("a"),
        start("a"),
        start("a"),
        start("a"),
        start("k"),
        text("k2"),
        end("k"),
        start("s"),
        text("deep"),
        end("s"),
        end("a"),
    ];
    let levels = extract_levels(&events);
    let mut expected = RawLevel::new();
    expected.level_name = some("deep");
    assert_eq!(levels, vec![expected]);
    // A level that is never closed does not come out.
    let events = vec![
        start("a"),
        start("a"),
        start("a"),
        start("a"),
        start("k"),
        text("k2"),
        end("k"),
        start("s"),
        text("open"),
        end("s"),
    ];
    assert_eq!(extract_levels(&events), Vec::<RawLevel>::new());
    assert_eq!(extract_levels(&Vec::new()), Vec::<RawLevel>::new());
}

#[test]
fn a_level_is_closed_once() {
    // Two closing tags in a row come back to the closing depth only once.
    let events = vec![
        start("a"),
        start("a"),
        start("a"),
        start("a"),
        start("k"),
        text("k2"),
        end("k"),
        start("s"),
        text("x"),
        end("s"),
        end("a"),
        start("b"),
        end("b"),
        end("a"),
    ];
    let levels = extract_levels(&events);
    assert_eq!(levels.len(), 1);
    assert_eq!(levels[0].level_name, some("x"));
}
