//! What writing and extracting do to each other: the levels that are read
//! back from the events of a written document are the levels that were
//! written.

use vstd::prelude::*;
use crate::extractor::{
    extracted, has_read_type, is_read_level, is_value_tag, lemma_extracted_levels_are_read,
    Extraction, ParseStateView, KEY_DEPTH,
};
use crate::markup::{end, start, text, MarkupEventView};
use crate::rawlevel::{
    extra_events, field_events, is_known_key, is_skipped_key, key_events, known_events,
    level_events, optional_field_events, value_events, RawLevelView, UnknownFieldView,
};
use crate::xml_writer::{
    document_events, footer_events, header_events, index_label, record_events, records_events,
};

verus! {

/// The two texts that a flag can be read as.
pub open spec fn is_flag_value(value: Seq<char>) -> bool {
    value == "t"@ || value == "f"@
}

/// A flag that is absent, or holds one of the two texts of a flag.
pub open spec fn is_flag(value: Option<Seq<char>>) -> bool {
    match value {
        Some(value) => is_flag_value(value),
        None => true,
    }
}

/// An extra field that the writer writes and the extractor reads back as it
/// was: not under the skipped key, and of a type that the extractor files.
pub open spec fn is_faithful_extra(field: UnknownFieldView) -> bool {
    !is_skipped_key(field.key) && has_read_type(field)
}

/// Whether the level has any of its own fields.
pub open spec fn has_known_field(level: RawLevelView) -> bool {
    ||| level.level_id is Some
    ||| level.level_name is Some
    ||| level.description_b64 is Some
    ||| level.level_string is Some
    ||| level.creator is Some
    ||| level.user_id is Some
    ||| level.song_id is Some
    ||| level.attempts is Some
    ||| level.normal_mode is Some
    ||| level.practice_mode is Some
    ||| level.original is Some
    ||| level.two_player is Some
}

/// A level that comes back from a written document as it went in: it has a
/// field at all, its flags hold `t` or `f`, and its extra fields are
/// well-formed and faithful.
pub open spec fn round_trips(level: RawLevelView) -> bool {
    &&& level.wf()
    &&& has_known_field(level) || level.extra.len() > 0
    &&& is_flag(level.normal_mode)
    &&& is_flag(level.practice_mode)
    &&& is_flag(level.original)
    &&& is_flag(level.two_player)
    &&& forall|i: int| 0 <= i < level.extra.len() ==> is_faithful_extra(#[trigger] level.extra[i])
}

/// The value that is read back for a value written with type `ty`.
pub open spec fn stored_value(ty: Seq<char>, value: Seq<char>) -> Seq<char> {
    if ty == "bool"@ {
        if value == "t"@ {
            "t"@
        } else {
            "f"@
        }
    } else {
        value
    }
}

/// Running over two sequences on end is running over the first and then,
/// from there, over the second.
pub proof fn lemma_run_concat(
    from: Extraction,
    first: Seq<MarkupEventView>,
    second: Seq<MarkupEventView>,
)
    ensures
        from.run(first + second) == from.run(first).run(second),
    decreases second.len(),
{
    if second.len() == 0 {
    } else {
        assert((first + second).drop_last() =~= first + second.drop_last());
        lemma_run_concat(from, first, second.drop_last());
    }
}

proof fn lemma_run_push(from: Extraction, events: Seq<MarkupEventView>, event: MarkupEventView)
    ensures
        from.run(events.push(event)) == from.run(events).step(event),
{
    assert(events.push(event).drop_last() =~= events);
}

proof fn lemma_run_two(from: Extraction, a: MarkupEventView, b: MarkupEventView)
    ensures
        from.run(seq![a, b]) == from.step(a).step(b),
{
    lemma_run_push(from, Seq::empty(), a);
    lemma_run_push(from, seq![a], b);
    assert(seq![a].push(b) =~= seq![a, b]);
}

proof fn lemma_run_three(
    from: Extraction,
    a: MarkupEventView,
    b: MarkupEventView,
    c: MarkupEventView,
)
    ensures
        from.run(seq![a, b, c]) == from.step(a).step(b).step(c),
{
    lemma_run_two(from, a, b);
    lemma_run_push(from, seq![a, b], c);
    assert(seq![a, b].push(c) =~= seq![a, b, c]);
}

/// The tags of the dialect are different names.
proof fn lemma_tags()
    ensures
        "t"@ != "k"@,
        "f"@ != "k"@,
        "d"@ != "k"@,
        "t"@ != "f"@,
        "bool"@ != "i"@,
        "bool"@ != "s"@,
        "bool"@ != "r"@,
        forall|ty: Seq<char>| #[trigger]
            is_value_tag(ty) ==> ty != "k"@ && ty != "t"@ && ty != "f"@ && ty != "bool"@,
{
    reveal_strlit("t");
    reveal_strlit("f");
    reveal_strlit("k");
    reveal_strlit("d");
    reveal_strlit("i");
    reveal_strlit("s");
    reveal_strlit("r");
    reveal_strlit("bool");
    assert("i"@[0] != "k"@[0] && "i"@[0] != "t"@[0] && "i"@[0] != "f"@[0]);
    assert("s"@[0] != "k"@[0] && "s"@[0] != "t"@[0] && "s"@[0] != "f"@[0]);
    assert("r"@[0] != "k"@[0] && "r"@[0] != "t"@[0] && "r"@[0] != "f"@[0]);
}

/// A key element, met where the fields of a level stand, sets the key and
/// turns to the value.
proof fn lemma_run_key(from: Extraction, key: Seq<char>)
    requires
        from.depth == 4,
    ensures
        from.run(key_events(key)) == (Extraction {
            state: ParseStateView::OutKey,
            key: key,
            ..from
        }),
{
    lemma_run_three(from, start("k"@), text(key), end("k"@));
}

/// A value element behind a key files the value under that key.
proof fn lemma_run_value(from: Extraction, ty: Seq<char>, value: Seq<char>)
    requires
        from.depth == 4,
        from.state is OutKey,
        ty == "bool"@ || is_value_tag(ty),
    ensures
        from.run(value_events(ty, value)) == (Extraction {
            state: ParseStateView::SeekingKey,
            current: from.current.with_field(from.key, stored_value(ty, value), ty),
            ..from
        }),
{
    lemma_tags();
    if ty == "bool"@ {
        if value == "t"@ {
            lemma_run_two(from, start("t"@), end("t"@));
        } else {
            lemma_run_two(from, start("f"@), end("f"@));
        }
    } else {
        lemma_run_three(from, start(ty), text(value), end(ty));
    }
}

/// A field, met where the fields of a level stand, is filed under its key.
proof fn lemma_run_field(from: Extraction, key: Seq<char>, ty: Seq<char>, value: Seq<char>)
    requires
        from.depth == 4,
        ty == "bool"@ || is_value_tag(ty),
    ensures
        from.run(field_events(key, ty, value)) == (Extraction {
            state: ParseStateView::SeekingKey,
            key: key,
            current: from.current.with_field(key, stored_value(ty, value), ty),
            ..from
        }),
{
    lemma_run_concat(from, key_events(key), value_events(ty, value));
    lemma_run_key(from, key);
    lemma_run_value(from.run(key_events(key)), ty, value);
}

proof fn lemma_run_optional(
    from: Extraction,
    key: Seq<char>,
    ty: Seq<char>,
    value: Option<Seq<char>>,
)
    requires
        from.depth == 4,
        ty == "bool"@ || is_value_tag(ty),
    ensures
        from.run(optional_field_events(key, ty, value)) == match value {
            Some(value) => Extraction {
                state: ParseStateView::SeekingKey,
                key: key,
                current: from.current.with_field(key, stored_value(ty, value), ty),
                ..from
            },
            None => from,
        },
{
    match value {
        Some(value) => lemma_run_field(from, key, ty, value),
        None => {},
    }
}

/// Filing a value under the key of one of the level's own fields sets that
/// field and nothing else.
proof fn lemma_with_known_field(level: RawLevelView, value: Seq<char>, ty: Seq<char>)
    ensures
        level.with_field("k1"@, value, ty) == (RawLevelView { level_id: Some(value), ..level }),
        level.with_field("k2"@, value, ty) == (RawLevelView { level_name: Some(value), ..level }),
        level.with_field("k3"@, value, ty) == (RawLevelView {
            description_b64: Some(value),
            ..level
        }),
        level.with_field("k4"@, value, ty) == (RawLevelView {
            level_string: Some(value),
            ..level
        }),
        level.with_field("k5"@, value, ty) == (RawLevelView { creator: Some(value), ..level }),
        level.with_field("k6"@, value, ty) == (RawLevelView { user_id: Some(value), ..level }),
        level.with_field("k8"@, value, ty) == (RawLevelView { song_id: Some(value), ..level }),
        level.with_field("k18"@, value, ty) == (RawLevelView { attempts: Some(value), ..level }),
        level.with_field("k19"@, value, ty) == (RawLevelView {
            normal_mode: Some(value),
            ..level
        }),
        level.with_field("k20"@, value, ty) == (RawLevelView {
            practice_mode: Some(value),
            ..level
        }),
        level.with_field("k42"@, value, ty) == (RawLevelView { original: Some(value), ..level }),
        level.with_field("k43"@, value, ty) == (RawLevelView { two_player: Some(value), ..level }),
{
    reveal_strlit("k1");
    reveal_strlit("k2");
    reveal_strlit("k3");
    reveal_strlit("k4");
    reveal_strlit("k5");
    reveal_strlit("k6");
    reveal_strlit("k8");
    reveal_strlit("k18");
    reveal_strlit("k19");
    reveal_strlit("k20");
    reveal_strlit("k42");
    reveal_strlit("k43");
    assert("k1"@ =~= seq!['k', '1']);
    assert("k2"@ =~= seq!['k', '2']);
    assert("k3"@ =~= seq!['k', '3']);
    assert("k4"@ =~= seq!['k', '4']);
    assert("k5"@ =~= seq!['k', '5']);
    assert("k6"@ =~= seq!['k', '6']);
    assert("k8"@ =~= seq!['k', '8']);
    assert("k18"@ =~= seq!['k', '1', '8']);
    assert("k19"@ =~= seq!['k', '1', '9']);
    assert("k20"@ =~= seq!['k', '2', '0']);
    assert("k42"@ =~= seq!['k', '4', '2']);
    assert("k43"@ =~= seq!['k', '4', '3']);
}

spec fn or_else(new: Option<Seq<char>>, old: Option<Seq<char>>) -> Option<Seq<char>> {
    if new is Some {
        new
    } else {
        old
    }
}

/// `base` with every own field that `level` has taken from `level`.
spec fn overlay(base: RawLevelView, level: RawLevelView) -> RawLevelView {
    RawLevelView {
        level_id: or_else(level.level_id, base.level_id),
        level_name: or_else(level.level_name, base.level_name),
        description_b64: or_else(level.description_b64, base.description_b64),
        level_string: or_else(level.level_string, base.level_string),
        creator: or_else(level.creator, base.creator),
        user_id: or_else(level.user_id, base.user_id),
        song_id: or_else(level.song_id, base.song_id),
        attempts: or_else(level.attempts, base.attempts),
        normal_mode: or_else(level.normal_mode, base.normal_mode),
        practice_mode: or_else(level.practice_mode, base.practice_mode),
        original: or_else(level.original, base.original),
        two_player: or_else(level.two_player, base.two_player),
        extra: base.extra,
    }
}

/// One own field more, behind those before it.
proof fn lemma_run_next_known(
    from: Extraction,
    before: Seq<MarkupEventView>,
    key: Seq<char>,
    ty: Seq<char>,
    value: Option<Seq<char>>,
)
    requires
        from.run(before).depth == 4,
        ty == "bool"@ || is_value_tag(ty),
    ensures
        from.run(before + optional_field_events(key, ty, value)) == match value {
            Some(value) => Extraction {
                state: ParseStateView::SeekingKey,
                key: key,
                current: from.run(before).current.with_field(key, stored_value(ty, value), ty),
                ..from.run(before)
            },
            None => from.run(before),
        },
{
    lemma_run_concat(from, before, optional_field_events(key, ty, value));
    lemma_run_optional(from.run(before), key, ty, value);
}

/// The own fields of a level, met where the fields of a level stand, are
/// filed each in its place.
proof fn lemma_run_known(from: Extraction, level: RawLevelView)
    requires
        from.depth == 4,
        is_flag(level.normal_mode),
        is_flag(level.practice_mode),
        is_flag(level.original),
        is_flag(level.two_player),
    ensures
        from.run(known_events(level)).depth == 4,
        from.run(known_events(level)).levels == from.levels,
        from.run(known_events(level)).current == overlay(from.current, level),
        from.run(known_events(level)).state == if has_known_field(level) {
            ParseStateView::SeekingKey
        } else {
            from.state
        },
{
    lemma_tags();
    reveal_strlit("i");
    reveal_strlit("s");
    let e1 = optional_field_events("k1"@, "i"@, level.level_id);
    let e2 = e1 + optional_field_events("k2"@, "s"@, level.level_name);
    let e3 = e2 + optional_field_events("k3"@, "s"@, level.description_b64);
    let e4 = e3 + optional_field_events("k4"@, "s"@, level.level_string);
    let e5 = e4 + optional_field_events("k5"@, "s"@, level.creator);
    let e6 = e5 + optional_field_events("k6"@, "s"@, level.user_id);
    let e7 = e6 + optional_field_events("k8"@, "s"@, level.song_id);
    let e8 = e7 + optional_field_events("k18"@, "s"@, level.attempts);
    let e9 = e8 + optional_field_events("k19"@, "bool"@, level.normal_mode);
    let e10 = e9 + optional_field_events("k20"@, "bool"@, level.practice_mode);
    let e11 = e10 + optional_field_events("k42"@, "bool"@, level.original);
    lemma_run_optional(from, "k1"@, "i"@, level.level_id);
    let s1 = from.run(e1);
    lemma_with_known_field(from.current, stored_value("i"@, level.level_id.unwrap()), "i"@);
    lemma_run_next_known(from, e1, "k2"@, "s"@, level.level_name);
    let s2 = from.run(e2);
    lemma_with_known_field(s1.current, stored_value("s"@, level.level_name.unwrap()), "s"@);
    lemma_run_next_known(from, e2, "k3"@, "s"@, level.description_b64);
    let s3 = from.run(e3);
    lemma_with_known_field(s2.current, stored_value("s"@, level.description_b64.unwrap()), "s"@);
    lemma_run_next_known(from, e3, "k4"@, "s"@, level.level_string);
    let s4 = from.run(e4);
    lemma_with_known_field(s3.current, stored_value("s"@, level.level_string.unwrap()), "s"@);
    lemma_run_next_known(from, e4, "k5"@, "s"@, level.creator);
    let s5 = from.run(e5);
    lemma_with_known_field(s4.current, stored_value("s"@, level.creator.unwrap()), "s"@);
    lemma_run_next_known(from, e5, "k6"@, "s"@, level.user_id);
    let s6 = from.run(e6);
    lemma_with_known_field(s5.current, stored_value("s"@, level.user_id.unwrap()), "s"@);
    lemma_run_next_known(from, e6, "k8"@, "s"@, level.song_id);
    let s7 = from.run(e7);
    lemma_with_known_field(s6.current, stored_value("s"@, level.song_id.unwrap()), "s"@);
    lemma_run_next_known(from, e7, "k18"@, "s"@, level.attempts);
    let s8 = from.run(e8);
    lemma_with_known_field(s7.current, stored_value("s"@, level.attempts.unwrap()), "s"@);
    assert(s8.current == (RawLevelView {
        normal_mode: from.current.normal_mode,
        practice_mode: from.current.practice_mode,
        original: from.current.original,
        two_player: from.current.two_player,
        ..overlay(from.current, level)
    }));
    lemma_run_next_known(from, e8, "k19"@, "bool"@, level.normal_mode);
    let s9 = from.run(e9);
    lemma_with_known_field(s8.current, stored_value("bool"@, level.normal_mode.unwrap()), "bool"@);
    lemma_run_next_known(from, e9, "k20"@, "bool"@, level.practice_mode);
    let s10 = from.run(e10);
    lemma_with_known_field(
        s9.current,
        stored_value("bool"@, level.practice_mode.unwrap()),
        "bool"@,
    );
    lemma_run_next_known(from, e10, "k42"@, "bool"@, level.original);
    let s11 = from.run(e11);
    lemma_with_known_field(s10.current, stored_value("bool"@, level.original.unwrap()), "bool"@);
    lemma_run_next_known(from, e11, "k43"@, "bool"@, level.two_player);
    lemma_with_known_field(s11.current, stored_value("bool"@, level.two_player.unwrap()), "bool"@);
}

/// Faithful extra fields, met where the fields of a level stand, are filed
/// behind the extra fields that are there, in their order.
proof fn lemma_run_extras(from: Extraction, extra: Seq<UnknownFieldView>)
    requires
        from.depth == 4,
        forall|i: int| 0 <= i < extra.len() ==> !is_known_key(#[trigger] extra[i].key),
        forall|i: int| 0 <= i < extra.len() ==> is_faithful_extra(#[trigger] extra[i]),
    ensures
        from.run(extra_events(extra)).depth == 4,
        from.run(extra_events(extra)).levels == from.levels,
        from.run(extra_events(extra)).current == (RawLevelView {
            extra: from.current.extra + extra,
            ..from.current
        }),
        from.run(extra_events(extra)).state == if extra.len() > 0 {
            ParseStateView::SeekingKey
        } else {
            from.state
        },
    decreases extra.len(),
{
    if extra.len() > 0 {
        let field = extra.last();
        let before = extra.drop_last();
        lemma_run_extras(from, before);
        let middle = from.run(extra_events(before));
        lemma_run_concat(from, extra_events(before), field_events(field.key, field.ty, field.value));
        lemma_run_field(middle, field.key, field.ty, field.value);
        assert((from.current.extra + before).push(field) =~= from.current.extra + extra);
    }
}

/// The fields of a level that round-trips, met where the fields of a level
/// stand and with no field filed yet, give back the level.
proof fn lemma_run_level(from: Extraction, level: RawLevelView)
    requires
        from.depth == 4,
        from.current == RawLevelView::empty(),
        round_trips(level),
    ensures
        from.run(level_events(level)).depth == 4,
        from.run(level_events(level)).levels == from.levels,
        from.run(level_events(level)).current == level,
        from.run(level_events(level)).state is SeekingKey,
{
    lemma_run_concat(from, known_events(level), extra_events(level.extra));
    lemma_run_known(from, level);
    let middle = from.run(known_events(level));
    lemma_run_extras(middle, level.extra);
}

/// A level that round-trips, met between two levels, is added to the
/// levels.
proof fn lemma_run_record(from: Extraction, index: nat, level: RawLevelView)
    requires
        from.depth == 3,
        from.state is Begin || from.state is ParsedLevel,
        from.current == RawLevelView::empty(),
        round_trips(level),
    ensures
        from.run(record_events(index, level)).depth == 3,
        from.run(record_events(index, level)).state is ParsedLevel,
        from.run(record_events(index, level)).current == RawLevelView::empty(),
        from.run(record_events(index, level)).levels == from.levels.push(level),
{
    lemma_tags();
    let opening = seq![start("k"@), text(index_label(index)), end("k"@), start("d"@)];
    lemma_run_three(from, start("k"@), text(index_label(index)), end("k"@));
    lemma_run_push(from, seq![start("k"@), text(index_label(index)), end("k"@)], start("d"@));
    assert(seq![start("k"@), text(index_label(index)), end("k"@)].push(start("d"@)) =~= opening);
    let inside = from.run(opening);
    lemma_run_level(inside, level);
    lemma_run_concat(from, opening, level_events(level));
    lemma_run_push(from, opening + level_events(level), end("d"@));
    assert((opening + level_events(level)).push(end("d"@)) =~= record_events(index, level));
}

/// Levels that round-trip, met between two levels, are added to the levels
/// in their order.
proof fn lemma_run_records(from: Extraction, levels: Seq<RawLevelView>)
    requires
        from.depth == 3,
        from.state is Begin || from.state is ParsedLevel,
        from.current == RawLevelView::empty(),
        forall|i: int| 0 <= i < levels.len() ==> round_trips(#[trigger] levels[i]),
    ensures
        from.run(records_events(levels)).depth == 3,
        from.run(records_events(levels)).state is Begin || from.run(
            records_events(levels),
        ).state is ParsedLevel,
        from.run(records_events(levels)).current == RawLevelView::empty(),
        from.run(records_events(levels)).levels == from.levels + levels,
    decreases levels.len(),
{
    if levels.len() > 0 {
        let before = levels.drop_last();
        let index = (levels.len() - 1) as nat;
        lemma_run_records(from, before);
        lemma_run_concat(from, records_events(before), record_events(index, levels.last()));
        lemma_run_record(from.run(records_events(before)), index, levels.last());
    }
}

/// The header holds no level, and leaves the pass where the levels stand.
proof fn lemma_run_header()
    ensures
        Extraction::initial().run(header_events()) == (Extraction {
            depth: 3,
            ..Extraction::initial()
        }),
{
    lemma_tags();
    reveal_strlit("plist");
    reveal_strlit("dict");
    reveal_strlit("k");
    let from = Extraction::initial();
    let e0 = Seq::<MarkupEventView>::empty();
    let e1 = e0.push(header_events()[0]);
    let e2 = e1.push(start("dict"@));
    let e3 = e2.push(start("k"@));
    let e4 = e3.push(text("LLM_01"@));
    let e5 = e4.push(end("k"@));
    let e6 = e5.push(start("d"@));
    let e7 = e6.push(start("k"@));
    let e8 = e7.push(text("_isArr"@));
    let e9 = e8.push(end("k"@));
    let e10 = e9.push(start("t"@));
    let e11 = e10.push(end("t"@));
    assert(e11 =~= header_events());
    lemma_run_push(from, e0, header_events()[0]);
    lemma_run_push(from, e1, start("dict"@));
    lemma_run_push(from, e2, start("k"@));
    lemma_run_push(from, e3, text("LLM_01"@));
    lemma_run_push(from, e4, end("k"@));
    lemma_run_push(from, e5, start("d"@));
    lemma_run_push(from, e6, start("k"@));
    lemma_run_push(from, e7, text("_isArr"@));
    lemma_run_push(from, e8, end("k"@));
    lemma_run_push(from, e9, start("t"@));
    lemma_run_push(from, e10, end("t"@));
}

/// The footer holds no level.
proof fn lemma_run_footer(from: Extraction)
    requires
        from.depth == 3,
        from.state is Begin || from.state is ParsedLevel,
    ensures
        from.run(footer_events()).levels == from.levels,
{
    lemma_tags();
    let e0 = Seq::<MarkupEventView>::empty();
    let e1 = e0.push(end("d"@));
    let e2 = e1.push(start("k"@));
    let e3 = e2.push(text("LLM_02"@));
    let e4 = e3.push(end("k"@));
    let e5 = e4.push(start("i"@));
    let e6 = e5.push(text("35"@));
    let e7 = e6.push(end("i"@));
    let e8 = e7.push(end("dict"@));
    let e9 = e8.push(end("plist"@));
    assert(e9 =~= footer_events());
    lemma_run_push(from, e0, end("d"@));
    lemma_run_push(from, e1, start("k"@));
    lemma_run_push(from, e2, text("LLM_02"@));
    lemma_run_push(from, e3, end("k"@));
    lemma_run_push(from, e4, start("i"@));
    lemma_run_push(from, e5, text("35"@));
    lemma_run_push(from, e6, end("i"@));
    lemma_run_push(from, e7, end("dict"@));
    lemma_run_push(from, e8, end("plist"@));
}

/// Writing, then extracting, gives back what was written: where every level
/// round-trips, the levels extracted from the events of their document are
/// those levels, in their order.
pub proof fn lemma_write_then_extract(levels: Seq<RawLevelView>)
    requires
        forall|i: int| 0 <= i < levels.len() ==> round_trips(#[trigger] levels[i]),
    ensures
        extracted(document_events(levels)) == levels,
{
    let from = Extraction::initial();
    lemma_run_header();
    let inside = from.run(header_events());
    lemma_run_records(inside, levels);
    lemma_run_concat(from, header_events(), records_events(levels));
    let behind = from.run(header_events() + records_events(levels));
    lemma_run_footer(behind);
    lemma_run_concat(from, header_events() + records_events(levels), footer_events());
}

/// Levels that hold nothing but fields of their own come back as they were
/// written, provided that each has at least one field and that its flags
/// hold `t` or `f`.
pub proof fn lemma_known_fields_round_trip(levels: Seq<RawLevelView>)
    requires
        forall|i: int|
            0 <= i < levels.len() ==> {
                &&& (#[trigger] levels[i]).extra.len() == 0
                &&& has_known_field(levels[i])
                &&& is_flag(levels[i].normal_mode)
                &&& is_flag(levels[i].practice_mode)
                &&& is_flag(levels[i].original)
                &&& is_flag(levels[i].two_player)
            },
    ensures
        extracted(document_events(levels)) == levels,
{
    lemma_write_then_extract(levels);
}

/// A document of two levels gives two levels, in the order of the document,
/// each with the fields that stand inside it and no others.
pub proof fn lemma_two_levels_are_kept_apart(first: RawLevelView, second: RawLevelView)
    requires
        round_trips(first),
        round_trips(second),
    ensures
        extracted(document_events(seq![first, second])) == seq![first, second],
{
    lemma_write_then_extract(seq![first, second]);
}

/// A key that is none of the level's own is kept: read where the fields of
/// a level stand, it is filed with its value and its type behind the extra
/// fields, and the level then writes the very events that it was read from,
/// behind all that it wrote before.
pub proof fn lemma_unknown_key_is_kept(from: Extraction, field: UnknownFieldView)
    requires
        from.depth == KEY_DEPTH - 1,
        !is_known_key(field.key),
        is_faithful_extra(field),
    ensures
        from.run(field_events(field.key, field.ty, field.value)).current == (RawLevelView {
            extra: from.current.extra.push(field),
            ..from.current
        }),
        level_events(from.run(field_events(field.key, field.ty, field.value)).current)
            == level_events(from.current) + field_events(field.key, field.ty, field.value),
{
    lemma_run_field(from, field.key, field.ty, field.value);
    let after = from.run(field_events(field.key, field.ty, field.value)).current;
    assert(after.extra.drop_last() =~= from.current.extra);
}

/// Whether `part` stands in `whole` from the index `at` on.
pub open spec fn stands_at(
    whole: Seq<MarkupEventView>,
    at: int,
    part: Seq<MarkupEventView>,
) -> bool {
    0 <= at && at + part.len() <= whole.len() && whole.subrange(at, at + part.len()) == part
}

/// Whether `part` stands somewhere in `whole`, in one piece.
pub open spec fn holds(whole: Seq<MarkupEventView>, part: Seq<MarkupEventView>) -> bool {
    exists|at: int| stands_at(whole, at, part)
}

proof fn lemma_extra_events_hold(extra: Seq<UnknownFieldView>, j: int)
    requires
        0 <= j < extra.len(),
        !is_skipped_key(extra[j].key),
    ensures
        holds(extra_events(extra), field_events(extra[j].key, extra[j].ty, extra[j].value)),
    decreases extra.len(),
{
    let part = field_events(extra[j].key, extra[j].ty, extra[j].value);
    let before = extra_events(extra.drop_last());
    if j == extra.len() - 1 {
        assert((before + part).subrange(before.len() as int, (before.len() + part.len()) as int)
            =~= part);
        assert(stands_at(extra_events(extra), before.len() as int, part));
    } else {
        lemma_extra_events_hold(extra.drop_last(), j);
        let at = choose|at: int| stands_at(before, at, part);
        assert(extra_events(extra).subrange(at, at + part.len()) =~= before.subrange(
            at,
            at + part.len(),
        ));
        assert(stands_at(extra_events(extra), at, part));
    }
}

/// An extra field, unless it stands under the skipped key, is written with
/// its key, its type and its value.
pub proof fn lemma_extra_field_is_written(level: RawLevelView, j: int)
    requires
        0 <= j < level.extra.len(),
        !is_skipped_key(level.extra[j].key),
    ensures
        holds(
            level_events(level),
            field_events(level.extra[j].key, level.extra[j].ty, level.extra[j].value),
        ),
{
    let part = field_events(level.extra[j].key, level.extra[j].ty, level.extra[j].value);
    lemma_extra_events_hold(level.extra, j);
    let at = choose|at: int| stands_at(extra_events(level.extra), at, part);
    let shift = known_events(level).len() as int;
    assert(level_events(level).subrange(shift + at, shift + at + part.len()) =~= extra_events(
        level.extra,
    ).subrange(at, at + part.len()));
    assert(stands_at(level_events(level), shift + at, part));
}

/// Unknown keys are kept. Whatever the events of a document are, an extra
/// field of a level that is extracted from them stands under a key that is
/// none of the level's own, has the type that it was read with, and, unless
/// its key is the skipped one, is written by the level with that key, that
/// type and its value.
pub proof fn lemma_unknown_keys_are_written_back(events: Seq<MarkupEventView>, i: int, j: int)
    requires
        0 <= i < extracted(events).len(),
        0 <= j < extracted(events)[i].extra.len(),
    ensures
        !is_known_key(extracted(events)[i].extra[j].key),
        has_read_type(extracted(events)[i].extra[j]),
        !is_skipped_key(extracted(events)[i].extra[j].key) ==> holds(
            level_events(extracted(events)[i]),
            field_events(
                extracted(events)[i].extra[j].key,
                extracted(events)[i].extra[j].ty,
                extracted(events)[i].extra[j].value,
            ),
        ),
{
    lemma_extracted_levels_are_read(events);
    if !is_skipped_key(extracted(events)[i].extra[j].key) {
        lemma_extra_field_is_written(extracted(events)[i], j);
    }
}

/// A flag is written as an empty `t` element where its text is exactly `t`,
/// and as an empty `f` element for any other text; and behind a key each of
/// the two is read back as the text `t` or `f`, of type `bool`.
pub proof fn lemma_flag_fidelity(from: Extraction, value: Seq<char>)
    requires
        from.depth == KEY_DEPTH - 1,
        from.state is OutKey,
    ensures
        value == "t"@ ==> value_events("bool"@, value) == seq![start("t"@), end("t"@)],
        value != "t"@ ==> value_events("bool"@, value) == seq![start("f"@), end("f"@)],
        from.run(value_events("bool"@, value)).current == from.current.with_field(
            from.key,
            if value == "t"@ {
                "t"@
            } else {
                "f"@
            },
            "bool"@,
        ),
        from.run(value_events("bool"@, value)).state is SeekingKey,
{
    lemma_run_value(from, "bool"@, value);
}

} // verus!
