//! A value of the document, parsed: one of five kinds.

use vstd::prelude::*;
use crate::number::{is_float_literal, is_float_text, parse_i32, parsed_i32};
use crate::raw_node::{raw_node, RawXmlNode, RawXmlNodeView, UnknownTypeError};
use crate::text::str_eq;

verus! {

/// A parsed node.
#[derive(Debug, Clone, PartialEq)]
pub enum XmlNode {
    Integer(i32),
    /// A floating-point literal, checked against the grammar of such
    /// literals and kept as text.
    Float(String),
    String(String),
    Boolean(bool),
    IntArray(Vec<i32>),
}

/// The mathematical value of an [`XmlNode`].
pub enum XmlNodeView {
    Integer(i32),
    Float(Seq<char>),
    String(Seq<char>),
    Boolean(bool),
    IntArray(Seq<i32>),
}

impl View for XmlNode {
    type V = XmlNodeView;

    open spec fn view(&self) -> XmlNodeView {
        match self {
            XmlNode::Integer(value) => XmlNodeView::Integer(*value),
            XmlNode::Float(literal) => XmlNodeView::Float(literal@),
            XmlNode::String(text) => XmlNodeView::String(text@),
            XmlNode::Boolean(value) => XmlNodeView::Boolean(*value),
            XmlNode::IntArray(items) => XmlNodeView::IntArray(items@),
        }
    }
}

/// The text of a node is not a value of the node's kind. Holds the tag of
/// the kind, `i`, `r` or `bool`, and the text.
#[derive(Debug, Clone)]
pub struct ParseError {
    pub tag: String,
    pub text: String,
}

/// The mathematical value of a [`ParseError`].
pub struct ParseErrorView {
    pub tag: Seq<char>,
    pub text: Seq<char>,
}

impl View for ParseError {
    type V = ParseErrorView;

    open spec fn view(&self) -> ParseErrorView {
        ParseErrorView { tag: self.tag@, text: self.text@ }
    }
}

impl ParseError {
    /// The failure in words.
    pub fn message(&self) -> (words: String)
        ensures
            words@ == "Failed to parse node"@,
    {
        "Failed to parse node".to_owned()
    }
}

/// The boolean that a text names: `true` or `false`, and no other text.
pub open spec fn parsed_bool(text: Seq<char>) -> Option<bool> {
    if text == "true"@ {
        Some(true)
    } else if text == "false"@ {
        Some(false)
    } else {
        None
    }
}

/// The node that a raw node parses to, or the tag and the text that failed.
/// An integer is parsed as decimal and has to fit in an `i32`; a float has
/// to be a floating-point literal; a boolean has to be `true` or `false`. A
/// string and an array are taken as they are.
pub open spec fn parsed_node(raw: RawXmlNodeView) -> Result<XmlNodeView, ParseErrorView> {
    match raw {
        RawXmlNodeView::Integer(text) => match parsed_i32(text) {
            Some(value) => Ok(XmlNodeView::Integer(value)),
            None => Err(ParseErrorView { tag: "i"@, text }),
        },
        RawXmlNodeView::Float(text) => if is_float_literal(text) {
            Ok(XmlNodeView::Float(text))
        } else {
            Err(ParseErrorView { tag: "r"@, text })
        },
        RawXmlNodeView::String(text) => Ok(XmlNodeView::String(text)),
        RawXmlNodeView::Boolean(text) => match parsed_bool(text) {
            Some(value) => Ok(XmlNodeView::Boolean(value)),
            None => Err(ParseErrorView { tag: "bool"@, text }),
        },
        RawXmlNodeView::IntArray(items) => Ok(XmlNodeView::IntArray(items)),
    }
}

/// Why a tag and a text are no value.
#[derive(Debug, Clone)]
pub enum ConversionError {
    /// The tag names no type.
    UnknownTypeTag(UnknownTypeError),
    /// The tag names a type, and the text is no value of it.
    ValueConversionError(ParseError),
}

/// The mathematical value of a [`ConversionError`].
pub enum ConversionErrorView {
    UnknownTypeTag(Seq<char>),
    ValueConversionError(ParseErrorView),
}

impl View for ConversionError {
    type V = ConversionErrorView;

    open spec fn view(&self) -> ConversionErrorView {
        match self {
            ConversionError::UnknownTypeTag(error) => ConversionErrorView::UnknownTypeTag(error@),
            ConversionError::ValueConversionError(error) => ConversionErrorView::ValueConversionError(
                error@,
            ),
        }
    }
}

/// The value of a tag and the text inside it: the node that the raw node of
/// the two parses to.
pub open spec fn converted(tag: Seq<char>, raw_text: Seq<char>) -> Result<
    XmlNodeView,
    ConversionErrorView,
> {
    match raw_node(tag, raw_text) {
        None => Err(ConversionErrorView::UnknownTypeTag(tag)),
        Some(raw) => match parsed_node(raw) {
            Ok(node) => Ok(node),
            Err(error) => Err(ConversionErrorView::ValueConversionError(error)),
        },
    }
}

/// Converts a tag and the text inside it to a value.
pub fn convert(tag: &str, raw_text: &str) -> (outcome: Result<XmlNode, ConversionError>)
    ensures
        match outcome {
            Ok(node) => converted(tag@, raw_text@) == Ok::<XmlNodeView, ConversionErrorView>(node@),
            Err(error) => converted(tag@, raw_text@) == Err::<XmlNodeView, ConversionErrorView>(
                error@,
            ),
        },
{
    match RawXmlNode::new(tag, raw_text) {
        Ok(raw) => match XmlNode::try_from(raw) {
            Ok(node) => Ok(node),
            Err(error) => Err(ConversionError::ValueConversionError(error)),
        },
        Err(error) => Err(ConversionError::UnknownTypeTag(error)),
    }
}

impl XmlNode {
    /// The integer, if the node is one.
    pub fn get_integer(&self) -> (value: Option<i32>)
        ensures
            value == match self@ {
                XmlNodeView::Integer(value) => Some(value),
                _ => None,
            },
    {
        match self {
            XmlNode::Integer(i) => Some(*i),
            _ => None,
        }
    }

    /// The literal of the float, if the node is one.
    pub fn get_float(&self) -> (literal: Option<&String>)
        ensures
            literal.deep_view() == match self@ {
                XmlNodeView::Float(literal) => Some(literal),
                _ => None,
            },
    {
        match self {
            XmlNode::Float(f) => Some(f),
            _ => None,
        }
    }

    /// The string, if the node is one.
    pub fn get_string(&self) -> (text: Option<&String>)
        ensures
            text.deep_view() == match self@ {
                XmlNodeView::String(text) => Some(text),
                _ => None,
            },
    {
        match self {
            XmlNode::String(s) => Some(s),
            _ => None,
        }
    }

    /// The boolean, if the node is one.
    pub fn get_boolean(&self) -> (value: Option<bool>)
        ensures
            value == match self@ {
                XmlNodeView::Boolean(value) => Some(value),
                _ => None,
            },
    {
        match self {
            XmlNode::Boolean(b) => Some(*b),
            _ => None,
        }
    }

    /// The integers, if the node is an array.
    pub fn get_int_array(&self) -> (items: Option<&Vec<i32>>)
        ensures
            items.deep_view() == match self@ {
                XmlNodeView::IntArray(items) => Some(items),
                _ => None,
            },
    {
        match self {
            XmlNode::IntArray(a) => Some(a),
            _ => None,
        }
    }

    /// Parses a raw node.
    pub fn try_from(value: RawXmlNode) -> (outcome: Result<XmlNode, ParseError>)
        ensures
            match outcome {
                Ok(node) => parsed_node(value@) == Ok::<XmlNodeView, ParseErrorView>(node@),
                Err(error) => parsed_node(value@) == Err::<XmlNodeView, ParseErrorView>(error@),
            },
    {
        match value {
            RawXmlNode::Integer(i) => match parse_i32(i.as_str()) {
                Some(v) => Ok(XmlNode::Integer(v)),
                None => Err(ParseError { tag: "i".to_owned(), text: i }),
            },
            RawXmlNode::Float(f) => if is_float_text(f.as_str()) {
                Ok(XmlNode::Float(f))
            } else {
                Err(ParseError { tag: "r".to_owned(), text: f })
            },
            RawXmlNode::String(s) => Ok(XmlNode::String(s)),
            RawXmlNode::Boolean(b) => if str_eq(b.as_str(), "true") {
                Ok(XmlNode::Boolean(true))
            } else if str_eq(b.as_str(), "false") {
                Ok(XmlNode::Boolean(false))
            } else {
                Err(ParseError { tag: "bool".to_owned(), text: b })
            },
            RawXmlNode::IntArray(a) => Ok(XmlNode::IntArray(a)),
        }
    }
}

} // verus!
