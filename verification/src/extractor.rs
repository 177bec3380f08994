//! From a markup document to the levels in it, in one pass over its events.
//!
//! The dialect nests every level at the same depth, so the pass keeps no
//! tree: it counts how deep it is, and that tells it where a key stands and
//! where a level ends.

use vstd::prelude::*;
use crate::markup::{parsed_events, read_events, MarkupEvent, MarkupEventView};
use crate::rawlevel::{is_known_key, RawLevel, RawLevelView, UnknownFieldView};
use crate::text::str_eq;

verus! {

/// The depth at which the keys of a level's fields stand.
pub const KEY_DEPTH: i128 = 5;

/// The depth that a closing tag returns to when it closes a level.
pub const RECORD_CLOSE_DEPTH: i128 = 3;

/// The document is not well-formed markup. Holds what the reader reported.
#[derive(Debug)]
pub struct XmlParseError(pub xml::reader::Error);

/// Where the pass is within a level.
#[derive(Debug, Clone, PartialEq)]
pub enum ParseState {
    /// No key has been seen yet.
    Begin,
    /// Inside a key element: the next text is the key.
    InKey,
    /// Behind a key element: the next opening tag is the value's type.
    OutKey,
    /// Inside a value element of the given type: the next text is the value.
    InValue(String),
    /// Behind a value: the next key element starts a new field.
    SeekingKey,
    /// The level has just been closed.
    ParsedLevel,
}

/// The mathematical value of a [`ParseState`].
pub enum ParseStateView {
    Begin,
    InKey,
    OutKey,
    InValue(Seq<char>),
    SeekingKey,
    ParsedLevel,
}

impl View for ParseState {
    type V = ParseStateView;

    open spec fn view(&self) -> ParseStateView {
        match self {
            ParseState::Begin => ParseStateView::Begin,
            ParseState::InKey => ParseStateView::InKey,
            ParseState::OutKey => ParseStateView::OutKey,
            ParseState::InValue(ty) => ParseStateView::InValue(ty@),
            ParseState::SeekingKey => ParseStateView::SeekingKey,
            ParseState::ParsedLevel => ParseStateView::ParsedLevel,
        }
    }
}

/// All that the pass knows at one point of the document.
pub struct Extraction {
    /// How many elements are open; below zero where the document has closed
    /// more than it opened.
    pub depth: int,
    pub state: ParseStateView,
    /// The key that was read last.
    pub key: Seq<char>,
    /// The fields of the level that is being read.
    pub current: RawLevelView,
    /// The levels that are complete, in document order.
    pub levels: Seq<RawLevelView>,
}

/// Whether a tag names the type of a value that stands as text inside it.
pub open spec fn is_value_tag(name: Seq<char>) -> bool {
    name == "i"@ || name == "s"@ || name == "r"@
}

/// Whether an extra field has a type and a value that the pass can have
/// filed: a flag of type `bool` that is `t` or `f`, or a text of one of the
/// three value types.
pub open spec fn has_read_type(field: UnknownFieldView) -> bool {
    if field.ty == "bool"@ {
        field.value == "t"@ || field.value == "f"@
    } else {
        is_value_tag(field.ty)
    }
}

/// Whether a level can have been read: its extra fields stand under keys
/// that are none of the level's own, with types that the pass files.
pub open spec fn is_read_level(level: RawLevelView) -> bool {
    forall|i: int|
        0 <= i < level.extra.len() ==> !is_known_key((#[trigger] level.extra[i]).key)
            && has_read_type(level.extra[i])
}

impl Extraction {
    /// The pass before the first event.
    pub open spec fn initial() -> Extraction {
        Extraction {
            depth: 0,
            state: ParseStateView::Begin,
            key: Seq::empty(),
            current: RawLevelView::empty(),
            levels: Seq::empty(),
        }
    }

    /// An opening tag. At the key depth a `k` element starts a key. Behind a
    /// key, `t` and `f` are the value itself, a flag, and `i`, `s` and `r`
    /// announce a value of that type.
    pub open spec fn enter(self, name: Seq<char>) -> Extraction {
        let depth = self.depth + 1;
        if name == "k"@ && depth == KEY_DEPTH {
            Extraction { depth, state: ParseStateView::InKey, ..self }
        } else if self.state is OutKey {
            if name == "t"@ || name == "f"@ {
                Extraction {
                    depth,
                    state: ParseStateView::SeekingKey,
                    current: self.current.with_field(self.key, name, "bool"@),
                    ..self
                }
            } else if is_value_tag(name) {
                Extraction { depth, state: ParseStateView::InValue(name), ..self }
            } else {
                Extraction { depth, ..self }
            }
        } else {
            Extraction { depth, ..self }
        }
    }

    /// A closing tag. One that returns to the depth at which levels close,
    /// while a level is being read, completes that level. Otherwise the end
    /// of a key element turns to the value.
    pub open spec fn leave(self, name: Seq<char>) -> Extraction {
        let depth = self.depth - 1;
        if !(self.state is Begin) && !(self.state is ParsedLevel) && depth == RECORD_CLOSE_DEPTH {
            Extraction {
                depth,
                state: ParseStateView::ParsedLevel,
                current: RawLevelView::empty(),
                levels: self.levels.push(self.current),
                ..self
            }
        } else if name == "k"@ && self.state is InKey {
            Extraction { depth, state: ParseStateView::OutKey, ..self }
        } else {
            Extraction { depth, ..self }
        }
    }

    /// Character data: the key inside a key element, the value inside a
    /// value element, and nothing anywhere else.
    pub open spec fn characters(self, content: Seq<char>) -> Extraction {
        match self.state {
            ParseStateView::InKey => Extraction { key: content, ..self },
            ParseStateView::InValue(ty) => Extraction {
                state: ParseStateView::SeekingKey,
                current: self.current.with_field(self.key, content, ty),
                ..self
            },
            _ => self,
        }
    }

    /// The pass after one more event.
    pub open spec fn step(self, event: MarkupEventView) -> Extraction {
        match event {
            MarkupEventView::Start { name, .. } => self.enter(name),
            MarkupEventView::End { name } => self.leave(name),
            MarkupEventView::Text(content) => self.characters(content),
            MarkupEventView::Other => self,
        }
    }

    /// The pass after `events`, taken in order.
    pub open spec fn run(self, events: Seq<MarkupEventView>) -> Extraction
        decreases events.len(),
    {
        if events.len() == 0 {
            self
        } else {
            self.run(events.drop_last()).step(events.last())
        }
    }

    /// Every level, complete or in the making, is one that can have been
    /// read, and a value that is awaited is of one of the three value types.
    pub open spec fn wf(self) -> bool {
        &&& is_read_level(self.current)
        &&& forall|i: int| 0 <= i < self.levels.len() ==> is_read_level(#[trigger] self.levels[i])
        &&& self.state matches ParseStateView::InValue(ty) ==> is_value_tag(ty)
    }
}

/// The levels that stand complete in a sequence of events, in document
/// order.
pub open spec fn extracted(events: Seq<MarkupEventView>) -> Seq<RawLevelView> {
    Extraction::initial().run(events).levels
}

/// Filing a value of a type that the pass files keeps a level one that can
/// have been read.
proof fn lemma_with_field_is_read(
    level: RawLevelView,
    key: Seq<char>,
    value: Seq<char>,
    ty: Seq<char>,
)
    requires
        is_read_level(level),
        has_read_type(UnknownFieldView { key, value, ty }),
    ensures
        is_read_level(level.with_field(key, value, ty)),
{
}

/// What the pass files is what it has read: one step keeps every level one
/// that can have been read.
pub proof fn lemma_step_wf(before: Extraction, event: MarkupEventView)
    requires
        before.wf(),
    ensures
        before.step(event).wf(),
{
    reveal_strlit("bool");
    reveal_strlit("i");
    reveal_strlit("s");
    reveal_strlit("r");
    match event {
        MarkupEventView::Start { name, .. } => {
            if name == "t"@ || name == "f"@ {
                lemma_with_field_is_read(before.current, before.key, name, "bool"@);
            }
        },
        MarkupEventView::Text(content) => {
            if let ParseStateView::InValue(ty) = before.state {
                assert(ty.len() == 1 && "bool"@.len() == 4);
                lemma_with_field_is_read(before.current, before.key, content, ty);
            }
        },
        _ => {},
    }
}

/// So does every number of steps: the levels that are extracted from any
/// events are levels that can have been read.
pub proof fn lemma_extracted_levels_are_read(events: Seq<MarkupEventView>)
    ensures
        Extraction::initial().run(events).wf(),
        forall|i: int|
            0 <= i < extracted(events).len() ==> is_read_level(#[trigger] extracted(events)[i]),
    decreases events.len(),
{
    if events.len() > 0 {
        lemma_extracted_levels_are_read(events.drop_last());
        lemma_step_wf(Extraction::initial().run(events.drop_last()), events.last());
    }
}

/// The events without those that are neither tag nor text.
pub open spec fn without_other(events: Seq<MarkupEventView>) -> Seq<MarkupEventView> {
    events.filter(|event: MarkupEventView| !(event is Other))
}

/// What is neither tag nor text does not count: the pass over any events
/// ends where the pass over the tags and texts among them ends.
pub proof fn lemma_other_events_do_not_count(from: Extraction, events: Seq<MarkupEventView>)
    ensures
        from.run(events) == from.run(without_other(events)),
    decreases events.len(),
{
    reveal(Seq::filter);
    if events.len() > 0 {
        lemma_other_events_do_not_count(from, events.drop_last());
        let kept = without_other(events.drop_last());
        if !(events.last() is Other) {
            assert(kept.push(events.last()).drop_last() =~= kept);
        }
    }
}

/// Extracts the levels from the events of a document.
///
/// Tags that do not balance are no error: levels then come out incomplete,
/// or not at all.
pub fn extract_levels(events: &Vec<MarkupEvent>) -> (levels: Vec<RawLevel>)
    ensures
        levels.deep_view() == extracted(events.deep_view()),
        forall|i: int| 0 <= i < levels.len() ==> is_read_level(#[trigger] levels[i]@),
{
    let mut levels: Vec<RawLevel> = Vec::new();
    let mut current_level = RawLevel::new();
    let mut current_depth: i128 = 0;
    let mut current_key = String::new();
    let mut state = ParseState::Begin;
    let ghost all = events.deep_view();
    assert(levels.deep_view() =~= Seq::empty());

    let mut i: usize = 0;
    while i < events.len()
        invariant
            i <= events.len(),
            all == events.deep_view(),
            -(i as int) <= current_depth <= i as int,
            Extraction::initial().run(all.take(i as int)) == (Extraction {
                depth: current_depth as int,
                state: state@,
                key: current_key@,
                current: current_level@,
                levels: levels.deep_view(),
            }),
            Extraction::initial().run(all.take(i as int)).wf(),
        decreases events.len() - i,
    {
        let ghost before = Extraction::initial().run(all.take(i as int));
        proof {
            assert(all.take(i + 1).drop_last() =~= all.take(i as int));
            lemma_step_wf(before, events[i as int]@);
        }
        match &events[i] {
            MarkupEvent::Start { name, attributes: _ } => {
                current_depth += 1;
                if str_eq(name.as_str(), "k") && current_depth == KEY_DEPTH {
                    state = ParseState::InKey;
                } else if matches!(state, ParseState::OutKey) {
                    // A flag has no text of its own: its tag is its value.
                    if str_eq(name.as_str(), "t") {
                        current_level.key_value(current_key.as_str(), "t".to_owned(), "bool");
                        state = ParseState::SeekingKey;
                    } else if str_eq(name.as_str(), "f") {
                        current_level.key_value(current_key.as_str(), "f".to_owned(), "bool");
                        state = ParseState::SeekingKey;
                    } else if str_eq(name.as_str(), "i") || str_eq(name.as_str(), "s") || str_eq(
                        name.as_str(),
                        "r",
                    ) {
                        state = ParseState::InValue(name.clone());
                    }
                }
            },
            MarkupEvent::End { name } => {
                current_depth -= 1;
                let reading = match state {
                    ParseState::Begin => false,
                    ParseState::ParsedLevel => false,
                    _ => true,
                };
                if reading && current_depth == RECORD_CLOSE_DEPTH {
                    let ghost done = levels.deep_view();
                    levels.push(current_level);
                    assert(levels.deep_view() =~= done.push(before.current));
                    current_level = RawLevel::new();
                    state = ParseState::ParsedLevel;
                } else if str_eq(name.as_str(), "k") && matches!(state, ParseState::InKey) {
                    state = ParseState::OutKey;
                }
            },
            MarkupEvent::Text(data) => {
                match &state {
                    ParseState::InKey => {
                        current_key = data.clone();
                    },
                    ParseState::InValue(xml_type) => {
                        current_level.key_value(current_key.as_str(), data.clone(), xml_type.as_str());
                        state = ParseState::SeekingKey;
                    },
                    _ => {},
                }
            },
            MarkupEvent::Other => {},
        }
        i += 1;
    }
    proof {
        assert(all.take(i as int) =~= all);
        let last = Extraction::initial().run(all);
        assert forall|j: int| 0 <= j < levels.len() implies is_read_level(
            #[trigger] levels[j]@,
        ) by {
            assert(is_read_level(last.levels[j]));
        }
    }
    levels
}

/// Extracts the levels from a document.
///
/// Fails only where the reader finds the document malformed.
pub fn parse_xml_to_level_list(xml: &str) -> (outcome: Result<Vec<RawLevel>, XmlParseError>)
    ensures
        match parsed_events(xml@) {
            Some(events) => outcome is Ok && outcome->Ok_0.deep_view() == extracted(events),
            None => outcome is Err,
        },
        outcome matches Ok(levels) ==> forall|i: int|
            0 <= i < levels.len() ==> is_read_level(#[trigger] levels[i]@),
{
    match read_events(xml) {
        Ok(events) => Ok(extract_levels(&events)),
        Err(error) => Err(XmlParseError(error)),
    }
}

} // verus!
