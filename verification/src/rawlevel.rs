//! One level of a save, as it stands in the document: text fields under
//! their keys, untouched.

use vstd::prelude::*;
use crate::markup::{end, open_elements, start, text, MarkupEventView, MarkupWriter};
use crate::text::str_eq;

verus! {

/// A keyed value whose key is not one of the level's own fields. It is kept
/// as it was read, with the tag that wrapped it, so that it can be written
/// back.
#[derive(Debug, PartialEq, Clone)]
pub struct UnknownField {
    pub key: String,
    pub value: String,
    pub ty: String,
}

/// The mathematical value of an [`UnknownField`].
pub struct UnknownFieldView {
    pub key: Seq<char>,
    pub value: Seq<char>,
    pub ty: Seq<char>,
}

impl View for UnknownField {
    type V = UnknownFieldView;

    open spec fn view(&self) -> UnknownFieldView {
        UnknownFieldView { key: self.key@, value: self.value@, ty: self.ty@ }
    }
}

impl DeepView for UnknownField {
    type V = UnknownFieldView;

    open spec fn deep_view(&self) -> UnknownFieldView {
        self@
    }
}

impl UnknownField {
    /// An extra field of a key, the value under it and the type of the
    /// value.
    pub fn new(key: String, value: String, ty: String) -> (field: UnknownField)
        ensures
            field@ == (UnknownFieldView { key: key@, value: value@, ty: ty@ }),
    {
        UnknownField { key, value, ty }
    }
}

/// A raw level. Nothing has been done to it but taking it out of the
/// document: every field is the text that stood under its key, and a field
/// is `None` where the document had no such key.
///
/// Not every key that a level can have has a field here. The others are
/// collected in `extra`.
#[derive(Debug, PartialEq, Clone)]
pub struct RawLevel {
    /// Key `k1`: the id of the level.
    pub level_id: Option<String>,
    /// Key `k2`.
    pub level_name: Option<String>,
    /// Key `k3`.
    pub description_b64: Option<String>,
    /// Key `k4`: the inner level string. Typically huge.
    pub level_string: Option<String>,
    /// Key `k5`.
    pub creator: Option<String>,
    /// Key `k6`.
    pub user_id: Option<String>,
    /// Key `k8`: the official song id, `None` for a custom song.
    pub song_id: Option<String>,
    /// Key `k18`: the attempt count.
    pub attempts: Option<String>,
    /// Key `k19`, a flag: `t` or `f`.
    pub normal_mode: Option<String>,
    /// Key `k20`, a flag: `t` or `f`.
    pub practice_mode: Option<String>,
    /// Key `k42`, a flag: `t` or `f`.
    pub original: Option<String>,
    /// Key `k43`, a flag: `t` or `f`.
    pub two_player: Option<String>,
    /// The keyed values that have no field above, in document order.
    pub extra: Vec<UnknownField>,
}

/// The mathematical value of a [`RawLevel`].
pub struct RawLevelView {
    pub level_id: Option<Seq<char>>,
    pub level_name: Option<Seq<char>>,
    pub description_b64: Option<Seq<char>>,
    pub level_string: Option<Seq<char>>,
    pub creator: Option<Seq<char>>,
    pub user_id: Option<Seq<char>>,
    pub song_id: Option<Seq<char>>,
    pub attempts: Option<Seq<char>>,
    pub normal_mode: Option<Seq<char>>,
    pub practice_mode: Option<Seq<char>>,
    pub original: Option<Seq<char>>,
    pub two_player: Option<Seq<char>>,
    pub extra: Seq<UnknownFieldView>,
}

impl View for RawLevel {
    type V = RawLevelView;

    open spec fn view(&self) -> RawLevelView {
        RawLevelView {
            level_id: self.level_id.deep_view(),
            level_name: self.level_name.deep_view(),
            description_b64: self.description_b64.deep_view(),
            level_string: self.level_string.deep_view(),
            creator: self.creator.deep_view(),
            user_id: self.user_id.deep_view(),
            song_id: self.song_id.deep_view(),
            attempts: self.attempts.deep_view(),
            normal_mode: self.normal_mode.deep_view(),
            practice_mode: self.practice_mode.deep_view(),
            original: self.original.deep_view(),
            two_player: self.two_player.deep_view(),
            extra: self.extra.deep_view(),
        }
    }
}

impl DeepView for RawLevel {
    type V = RawLevelView;

    open spec fn deep_view(&self) -> RawLevelView {
        self@
    }
}

/// Whether `key` is the key of one of the level's own fields.
pub open spec fn is_known_key(key: Seq<char>) -> bool {
    ||| key == "k1"@
    ||| key == "k2"@
    ||| key == "k3"@
    ||| key == "k4"@
    ||| key == "k5"@
    ||| key == "k6"@
    ||| key == "k8"@
    ||| key == "k18"@
    ||| key == "k19"@
    ||| key == "k20"@
    ||| key == "k42"@
    ||| key == "k43"@
}

/// The key of the array of recent tabs, which the dialect writes as a nested
/// container. No reader here takes it apart, and the writer leaves it out.
pub open spec fn is_skipped_key(key: Seq<char>) -> bool {
    key == "kI6"@
}

impl RawLevelView {
    /// The level without any field.
    pub open spec fn empty() -> RawLevelView {
        RawLevelView {
            level_id: None,
            level_name: None,
            description_b64: None,
            level_string: None,
            creator: None,
            user_id: None,
            song_id: None,
            attempts: None,
            normal_mode: None,
            practice_mode: None,
            original: None,
            two_player: None,
            extra: Seq::empty(),
        }
    }

    /// No key of the level's own fields occurs among the extra fields.
    pub open spec fn wf(self) -> bool {
        forall|i: int| 0 <= i < self.extra.len() ==> !is_known_key(#[trigger] self.extra[i].key)
    }

    /// The level after `value`, which stood in a tag `ty`, has been filed
    /// under `key`: in the field that `key` names, or else at the end of the
    /// extra fields.
    pub open spec fn with_field(self, key: Seq<char>, value: Seq<char>, ty: Seq<char>) -> RawLevelView {
        if key == "k1"@ {
            RawLevelView { level_id: Some(value), ..self }
        } else if key == "k2"@ {
            RawLevelView { level_name: Some(value), ..self }
        } else if key == "k3"@ {
            RawLevelView { description_b64: Some(value), ..self }
        } else if key == "k4"@ {
            RawLevelView { level_string: Some(value), ..self }
        } else if key == "k5"@ {
            RawLevelView { creator: Some(value), ..self }
        } else if key == "k6"@ {
            RawLevelView { user_id: Some(value), ..self }
        } else if key == "k8"@ {
            RawLevelView { song_id: Some(value), ..self }
        } else if key == "k18"@ {
            RawLevelView { attempts: Some(value), ..self }
        } else if key == "k19"@ {
            RawLevelView { normal_mode: Some(value), ..self }
        } else if key == "k20"@ {
            RawLevelView { practice_mode: Some(value), ..self }
        } else if key == "k42"@ {
            RawLevelView { original: Some(value), ..self }
        } else if key == "k43"@ {
            RawLevelView { two_player: Some(value), ..self }
        } else {
            RawLevelView { extra: self.extra.push(UnknownFieldView { key, value, ty }), ..self }
        }
    }
}

/// The events of a key: its name inside a `k` element.
pub open spec fn key_events(key: Seq<char>) -> Seq<MarkupEventView> {
    seq![start("k"@), text(key), end("k"@)]
}

/// The events of a value of type `ty`. A flag, of type `bool`, is an empty
/// element: `t` where the value is exactly `t`, and `f` for any other value.
/// Every other value is its text inside an element named by its type.
pub open spec fn value_events(ty: Seq<char>, value: Seq<char>) -> Seq<MarkupEventView> {
    if ty == "bool"@ {
        if value == "t"@ {
            seq![start("t"@), end("t"@)]
        } else {
            seq![start("f"@), end("f"@)]
        }
    } else {
        seq![start(ty), text(value), end(ty)]
    }
}

/// The events of one field: the key, then the value.
pub open spec fn field_events(key: Seq<char>, ty: Seq<char>, value: Seq<char>) -> Seq<
    MarkupEventView,
> {
    key_events(key) + value_events(ty, value)
}

/// The events of one of the level's own fields: none where it is absent.
pub open spec fn optional_field_events(
    key: Seq<char>,
    ty: Seq<char>,
    value: Option<Seq<char>>,
) -> Seq<MarkupEventView> {
    match value {
        Some(value) => field_events(key, ty, value),
        None => Seq::empty(),
    }
}

/// The events of the extra fields, in their order, without the skipped key.
pub open spec fn extra_events(extra: Seq<UnknownFieldView>) -> Seq<MarkupEventView>
    decreases extra.len(),
{
    if extra.len() == 0 {
        Seq::empty()
    } else {
        let field = extra.last();
        extra_events(extra.drop_last()) + if is_skipped_key(field.key) {
            Seq::empty()
        } else {
            field_events(field.key, field.ty, field.value)
        }
    }
}

/// The events of the level's own fields, in their fixed order.
pub open spec fn known_events(level: RawLevelView) -> Seq<MarkupEventView> {
    optional_field_events("k1"@, "i"@, level.level_id)
        + optional_field_events("k2"@, "s"@, level.level_name)
        + optional_field_events("k3"@, "s"@, level.description_b64)
        + optional_field_events("k4"@, "s"@, level.level_string)
        + optional_field_events("k5"@, "s"@, level.creator)
        + optional_field_events("k6"@, "s"@, level.user_id)
        + optional_field_events("k8"@, "s"@, level.song_id)
        + optional_field_events("k18"@, "s"@, level.attempts)
        + optional_field_events("k19"@, "bool"@, level.normal_mode)
        + optional_field_events("k20"@, "bool"@, level.practice_mode)
        + optional_field_events("k42"@, "bool"@, level.original)
        + optional_field_events("k43"@, "bool"@, level.two_player)
}

/// The events of a level: its own fields, then the extra fields.
pub open spec fn level_events(level: RawLevelView) -> Seq<MarkupEventView> {
    known_events(level) + extra_events(level.extra)
}

/// Writes one field: the key, then the value as its type asks.
fn write_field(w: &mut MarkupWriter, key: &str, xml_type: &str, value: &str)
    ensures
        final(w).events() == old(w).events() + field_events(key@, xml_type@, value@),
        final(w).open() == old(w).open(),
{
    w.start_element("k");
    w.characters(key);
    w.end_element();
    if str_eq(xml_type, "bool") {
        if str_eq(value, "t") {
            w.start_element("t");
            w.end_element();
        } else {
            w.start_element("f");
            w.end_element();
        }
    } else {
        w.start_element(xml_type);
        w.characters(value);
        w.end_element();
    }
}

/// Writes one of the level's own fields, if it is there.
fn write_optional_field(w: &mut MarkupWriter, key: &str, xml_type: &str, value: &Option<String>)
    ensures
        final(w).events() == old(w).events() + optional_field_events(
            key@,
            xml_type@,
            value.deep_view(),
        ),
        final(w).open() == old(w).open(),
{
    if let Some(value) = value {
        write_field(w, key, xml_type, value.as_str());
    }
}

impl Default for RawLevel {
    fn default() -> (level: RawLevel)
        ensures
            level@ == RawLevelView::empty(),
    {
        RawLevel::new()
    }
}

impl RawLevel {
    /// Creates a new `RawLevel` with all fields set to `None`.
    pub fn new() -> (level: RawLevel)
        ensures
            level@ == RawLevelView::empty(),
    {
        let level = RawLevel {
            level_id: None,
            level_name: None,
            description_b64: None,
            level_string: None,
            creator: None,
            user_id: None,
            song_id: None,
            attempts: None,
            normal_mode: None,
            practice_mode: None,
            original: None,
            two_player: None,
            extra: Vec::new(),
        };
        assert(level@.extra =~= Seq::empty());
        level
    }

    /// Files `value` under `key`: in the field that `key` names, or else,
    /// with the tag `ty` that wrapped it, at the end of the extra fields.
    pub fn key_value(&mut self, key: &str, value: String, ty: &str)
        ensures
            final(self)@ == old(self)@.with_field(key@, value@, ty@),
            old(self)@.wf() ==> final(self)@.wf(),
    {
        if str_eq(key, "k1") {
            self.level_id = Some(value);
        } else if str_eq(key, "k2") {
            self.level_name = Some(value);
        } else if str_eq(key, "k3") {
            self.description_b64 = Some(value);
        } else if str_eq(key, "k4") {
            self.level_string = Some(value);
        } else if str_eq(key, "k5") {
            self.creator = Some(value);
        } else if str_eq(key, "k6") {
            self.user_id = Some(value);
        } else if str_eq(key, "k8") {
            self.song_id = Some(value);
        } else if str_eq(key, "k18") {
            self.attempts = Some(value);
        } else if str_eq(key, "k19") {
            self.normal_mode = Some(value);
        } else if str_eq(key, "k20") {
            self.practice_mode = Some(value);
        } else if str_eq(key, "k42") {
            self.original = Some(value);
        } else if str_eq(key, "k43") {
            self.two_player = Some(value);
        } else {
            let field = UnknownField::new(key.to_owned(), value, ty.to_owned());
            self.extra.push(field);
            assert(final(self)@.extra =~= old(self)@.extra.push(field@));
        }
    }

    /// Writes the level's fields: its own in their fixed order, each under
    /// its key, then the extra fields as they were read. The key of the
    /// array of recent tabs is left out.
    pub fn write_xml(&self, w: &mut MarkupWriter)
        ensures
            final(w).events() == old(w).events() + level_events(self@),
            final(w).open() == old(w).open(),
    {
        write_optional_field(w, "k1", "i", &self.level_id);
        write_optional_field(w, "k2", "s", &self.level_name);
        write_optional_field(w, "k3", "s", &self.description_b64);
        write_optional_field(w, "k4", "s", &self.level_string);
        write_optional_field(w, "k5", "s", &self.creator);
        write_optional_field(w, "k6", "s", &self.user_id);
        write_optional_field(w, "k8", "s", &self.song_id);
        write_optional_field(w, "k18", "s", &self.attempts);
        write_optional_field(w, "k19", "bool", &self.normal_mode);
        write_optional_field(w, "k20", "bool", &self.practice_mode);
        write_optional_field(w, "k42", "bool", &self.original);
        write_optional_field(w, "k43", "bool", &self.two_player);
        let mut i: usize = 0;
        while i < self.extra.len()
            invariant
                i <= self.extra.len(),
                w.events() == old(w).events() + known_events(self@) + extra_events(
                    self@.extra.take(i as int),
                ),
                w.open() == old(w).open(),
            decreases self.extra.len() - i,
        {
            let field = &self.extra[i];
            assert(self@.extra.take(i + 1).drop_last() =~= self@.extra.take(i as int));
            if !str_eq(field.key.as_str(), "kI6") {
                write_field(w, field.key.as_str(), field.ty.as_str(), field.value.as_str());
            }
            i += 1;
        }
        assert(self@.extra.take(i as int) =~= self@.extra);
    }
}

} // verus!
