//! A value of the document before it is parsed: its text, under the kind
//! that its tag announces.

use vstd::prelude::*;
use crate::text::str_eq;

verus! {

/// An unparsed node.
#[derive(Debug, Clone)]
pub enum RawXmlNode {
    /// An integer node.
    Integer(String),
    /// A float node.
    Float(String),
    /// A string node.
    String(String),
    /// A boolean node.
    Boolean(String),
    /// An integer array node. The document holds an array as a container
    /// of elements, so it arrives as the elements and not as text.
    IntArray(Vec<i32>),
}

/// The mathematical value of a [`RawXmlNode`].
pub enum RawXmlNodeView {
    Integer(Seq<char>),
    Float(Seq<char>),
    String(Seq<char>),
    Boolean(Seq<char>),
    IntArray(Seq<i32>),
}

impl View for RawXmlNode {
    type V = RawXmlNodeView;

    open spec fn view(&self) -> RawXmlNodeView {
        match self {
            RawXmlNode::Integer(text) => RawXmlNodeView::Integer(text@),
            RawXmlNode::Float(text) => RawXmlNodeView::Float(text@),
            RawXmlNode::String(text) => RawXmlNodeView::String(text@),
            RawXmlNode::Boolean(text) => RawXmlNodeView::Boolean(text@),
            RawXmlNode::IntArray(items) => RawXmlNodeView::IntArray(items@),
        }
    }
}

/// A tag that names no type. Holds the tag.
#[derive(Debug, Clone)]
pub struct UnknownTypeError(pub String);

impl View for UnknownTypeError {
    type V = Seq<char>;

    open spec fn view(&self) -> Seq<char> {
        self.0@
    }
}

impl UnknownTypeError {
    /// The failure in words.
    pub fn message(&self) -> (words: String)
        ensures
            words@ == "Failed to parse node"@,
    {
        "Failed to parse node".to_owned()
    }
}

/// The raw node of a tag and the text inside it, or `None` where the tag
/// names no type. `i`, `r` and `s` announce an integer, a float and a
/// string, and the text is the value. `t` and `f` are the two booleans: the
/// tag is the value, and the text does not count.
pub open spec fn raw_node(key_id: Seq<char>, value: Seq<char>) -> Option<RawXmlNodeView> {
    if key_id == "i"@ {
        Some(RawXmlNodeView::Integer(value))
    } else if key_id == "r"@ {
        Some(RawXmlNodeView::Float(value))
    } else if key_id == "s"@ {
        Some(RawXmlNodeView::String(value))
    } else if key_id == "t"@ {
        Some(RawXmlNodeView::Boolean("true"@))
    } else if key_id == "f"@ {
        Some(RawXmlNodeView::Boolean("false"@))
    } else {
        None
    }
}

impl RawXmlNode {
    /// Creates a new raw node from the tag of a value and its text.
    pub fn new(key_id: &str, value: &str) -> (outcome: Result<RawXmlNode, UnknownTypeError>)
        ensures
            match outcome {
                Ok(node) => raw_node(key_id@, value@) == Some(node@),
                Err(error) => raw_node(key_id@, value@) is None && error@ == key_id@,
            },
    {
        if str_eq(key_id, "i") {
            Ok(RawXmlNode::Integer(value.to_owned()))
        } else if str_eq(key_id, "r") {
            Ok(RawXmlNode::Float(value.to_owned()))
        } else if str_eq(key_id, "s") {
            Ok(RawXmlNode::String(value.to_owned()))
        } else if str_eq(key_id, "t") {
            Ok(RawXmlNode::Boolean("true".to_owned()))
        } else if str_eq(key_id, "f") {
            Ok(RawXmlNode::Boolean("false".to_owned()))
        } else {
            Err(UnknownTypeError(key_id.to_owned()))
        }
    }

    /// Creates the raw node of an integer array.
    pub fn new_arr(value: Vec<i32>) -> (node: RawXmlNode)
        ensures
            node@ == RawXmlNodeView::IntArray(value@),
    {
        RawXmlNode::IntArray(value)
    }
}

} // verus!
