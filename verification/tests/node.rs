use gdsave::node::{convert, ConversionError, ParseError, XmlNode};
use gdsave::number::{is_float_text, parse_i32};
use gdsave::raw_node::{RawXmlNode, UnknownTypeError};

fn parse(tag: &str, text: &str) -> Result<XmlNode, ParseError> {
    XmlNode::try_from(RawXmlNode::new(tag, text).unwrap())
}

#[test]
fn unknown_tag_is_reported_with_the_tag() {
    let outcome = RawXmlNode::new("z", "x");
    match outcome {
        Err(UnknownTypeError(tag)) => assert_eq!(tag, "z"),
        Ok(_) => panic!("z names no type"),
    }
}

#[test]
fn unknown_tag_message() {
    let error = RawXmlNode::new("", "x").unwrap_err();
    assert_eq!(error.0, "");
    assert_eq!(error.message(), "Failed to parse node");
}

#[test]
fn tags_give_their_kinds() {
    assert!(matches!(RawXmlNode::new("i", "12").unwrap(), RawXmlNode::Integer(text) if text == "12"));
    assert!(matches!(RawXmlNode::new("r", "1.5").unwrap(), RawXmlNode::Float(text) if text == "1.5"));
    assert!(matches!(RawXmlNode::new("s", "abc").unwrap(), RawXmlNode::String(text) if text == "abc"));
    assert!(matches!(RawXmlNode::new("t", "").unwrap(), RawXmlNode::Boolean(text) if text == "true"));
    assert!(matches!(RawXmlNode::new("f", "").unwrap(), RawXmlNode::Boolean(text) if text == "false"));
    assert!(matches!(RawXmlNode::new("t", "ignored").unwrap(), RawXmlNode::Boolean(text) if text == "true"));
    assert!(RawXmlNode::new("d", "").is_err());
    assert!(RawXmlNode::new("I", "1").is_err());
    assert!(RawXmlNode::new("ii", "1").is_err());
}

#[test]
fn arrays_are_taken_as_they_are() {
    let raw = RawXmlNode::new_arr(vec![1, -2, 3]);
    assert!(matches!(&raw, RawXmlNode::IntArray(items) if items == &vec![1, -2, 3]));
    let node = XmlNode::try_from(raw).unwrap();
    assert_eq!(node.get_int_array(), Some(&vec![1, -2, 3]));
    assert_eq!(node.get_integer(), None);
}

#[test]
fn integers_parse_as_decimal() {
    assert_eq!(parse("i", "42").unwrap(), XmlNode::Integer(42));
    assert_eq!(parse("i", "-7").unwrap().get_integer(), Some(-7));
    assert_eq!(parse("i", "+7").unwrap().get_integer(), Some(7));
    assert_eq!(parse("i", "007").unwrap().get_integer(), Some(7));
    assert_eq!(parse("i", "-0").unwrap().get_integer(), Some(0));
    assert_eq!(parse("i", "2147483647").unwrap().get_integer(), Some(i32::MAX));
    assert_eq!(parse("i", "-2147483648").unwrap().get_integer(), Some(i32::MIN));
    assert_eq!(parse("i", "0000000000002147483647").unwrap().get_integer(), Some(i32::MAX));
}

#[test]
fn integers_that_do_not_parse_carry_tag_and_text() {
    for text in ["", "+", "-", "2147483648", "-2147483649", "99999999999999999999999", "1 ", " 1", "1.0", "0x10", "1_000", "--1", "+-1", "1e3", "١٢"] {
        let error = parse("i", text).unwrap_err();
        assert_eq!(error.tag, "i");
        assert_eq!(error.text, text);
        assert_eq!(error.message(), "Failed to parse node");
    }
}

#[test]
fn integer_parser_agrees_with_std() {
    for text in ["", "0", "-", "+", "+0", "-0", "12", "-12", "+12", "2147483647", "2147483648", "-2147483648", "-2147483649", "4294967296", "00000000000000000000001", "1a", "a1", "1-", "é", "1é", "٣"] {
        assert_eq!(parse_i32(text), text.parse::<i32>().ok(), "{:?}", text);
    }
}

#[test]
fn floats_are_checked_and_kept_as_text() {
    let node = parse("r", "118.972").unwrap();
    assert_eq!(node, XmlNode::Float("118.972".to_string()));
    assert_eq!(node.get_float(), Some(&"118.972".to_string()));
    assert_eq!(node.get_float().unwrap().parse::<f32>().unwrap(), 118.972_f32);
    assert_eq!(node.get_string(), None);
    let error = parse("r", "1.5.2").unwrap_err();
    assert_eq!(error.tag, "r");
    assert_eq!(error.text, "1.5.2");
}

#[test]
fn float_grammar_agrees_with_std() {
    for text in [
        "", "0", "1", "-1", "+1", "1.", ".1", ".", "+.", "-.", "1.5", "-1.5", "+1.5", "1e5", "1E5",
        "1e+5", "1e-5", "1e", "1e+", "1e-", "e5", ".e5", "1.e5", ".5e5", "1.5e5x", "1.5 ", " 1.5",
        "inf", "+inf", "-inf", "INF", "iNf", "infinity", "-Infinity", "INFINITY", "infinit",
        "infinityy", "nan", "NaN", "-nan", "+NAN", "na", "nann", "1_0", "0x10", "1e5.5", "1..5",
        "1.5.2", "--1", "+-1", "1e--5", "1e99999999999999999999", "000.000", "1,5", "１", "1é",
        "é", "infé", "١", "+", "-", "1f32", "1.0e0", "9".repeat(400).as_str(),
    ] {
        assert_eq!(is_float_text(text), text.parse::<f32>().is_ok(), "{:?}", text);
    }
}

#[test]
fn strings_are_taken_as_they_are() {
    let node = parse("s", " any <text> ").unwrap();
    assert_eq!(node.get_string(), Some(&" any <text> ".to_string()));
    assert_eq!(node.get_float(), None);
    assert_eq!(node.get_boolean(), None);
    assert_eq!(node.get_int_array(), None);
}

#[test]
fn booleans_come_from_their_tags() {
    assert_eq!(parse("t", "").unwrap(), XmlNode::Boolean(true));
    assert_eq!(parse("f", "").unwrap().get_boolean(), Some(false));
    assert_eq!(parse("t", "").unwrap().get_integer(), None);
}

#[test]
fn boolean_text_must_be_true_or_false() {
    assert_eq!(XmlNode::try_from(RawXmlNode::Boolean("true".to_string())).unwrap(), XmlNode::Boolean(true));
    assert_eq!(XmlNode::try_from(RawXmlNode::Boolean("false".to_string())).unwrap(), XmlNode::Boolean(false));
    for text in ["", "t", "f", "True", "1", "true "] {
        let error = XmlNode::try_from(RawXmlNode::Boolean(text.to_string())).unwrap_err();
        assert_eq!(error.tag, "bool");
        assert_eq!(error.text, text);
    }
}

#[test]
fn convert_of_an_unknown_tag() {
    match convert("z", "x") {
        Err(ConversionError::UnknownTypeTag(UnknownTypeError(tag))) => assert_eq!(tag, "z"),
        other => panic!("{:?}", other),
    }
}

#[test]
fn convert_of_tag_and_text() {
    assert_eq!(convert("i", "-12").unwrap(), XmlNode::Integer(-12));
    assert_eq!(convert("r", "1e3").unwrap(), XmlNode::Float("1e3".to_string()));
    assert_eq!(convert("s", "").unwrap(), XmlNode::String(String::new()));
    assert_eq!(convert("t", "").unwrap(), XmlNode::Boolean(true));
    assert_eq!(convert("f", "").unwrap(), XmlNode::Boolean(false));
    match convert("i", "twelve") {
        Err(ConversionError::ValueConversionError(error)) => {
            assert_eq!(error.tag, "i");
            assert_eq!(error.text, "twelve");
        }
        other => panic!("{:?}", other),
    }
    match convert("r", "1,5") {
        Err(ConversionError::ValueConversionError(error)) => {
            assert_eq!(error.tag, "r");
            assert_eq!(error.text, "1,5");
        }
        other => panic!("{:?}", other),
    }
    assert!(matches!(convert("d", ""), Err(ConversionError::UnknownTypeTag(_))));
}
