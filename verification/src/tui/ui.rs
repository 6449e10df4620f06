//! What the terminal interface writes: the short labels of statuses, types
//! and ratings, the filter summaries, the text of list rows and bars, and
//! where a dialog goes. Drawing it is left to the caller.
use vstd::prelude::*;

use super::{App, ProjectView, Screen};
use crate::models::{FeedbackStatus, FeedbackType, RatingType, RatingValue};
use crate::text::{
    chars_of, concat2, concat3, decimal, join, join_seq, push_char, push_decimal,
    truncate_ellipsis, truncate_with_ellipsis, views,
};

verus! {

// ============================================================================
// Labels
// ============================================================================

/// Shortens `s` to at most `max` characters, the last of which becomes `…`
/// when it is cut.
pub fn truncate(s: &str, max: usize) -> (res: String)
    ensures
        res@ == truncate_ellipsis(s@, max as nat),
{
    truncate_with_ellipsis(s, max)
}

/// The short name of a status in the feedback list.
pub open spec fn short_status_text(s: FeedbackStatus) -> Seq<char> {
    match s {
        FeedbackStatus::New => "NEW"@,
        FeedbackStatus::Active => "ACTIVE"@,
        FeedbackStatus::Assigned => "ASSIGN"@,
        FeedbackStatus::Hold => "HOLD"@,
        FeedbackStatus::Closed => "CLOSED"@,
        FeedbackStatus::Resolved => "RESOLV"@,
    }
}

/// The short name of a status in the feedback list.
pub fn short_status(s: &FeedbackStatus) -> (res: &'static str)
    ensures
        res@ == short_status_text(*s),
{
    match s {
        FeedbackStatus::New => "NEW",
        FeedbackStatus::Active => "ACTIVE",
        FeedbackStatus::Assigned => "ASSIGN",
        FeedbackStatus::Hold => "HOLD",
        FeedbackStatus::Closed => "CLOSED",
        FeedbackStatus::Resolved => "RESOLV",
    }
}

/// The short name of a type in the feedback list.
pub open spec fn short_type_text(t: FeedbackType) -> Seq<char> {
    match t {
        FeedbackType::Bug => "BUG"@,
        FeedbackType::Feature => "FEAT"@,
        FeedbackType::Praise => "♥"@,
        FeedbackType::Question => "?"@,
        FeedbackType::Improvement => "IMPR"@,
        FeedbackType::Other => "—"@,
    }
}

/// The short name of a type in the feedback list.
pub fn short_type(t: &FeedbackType) -> (res: &'static str)
    ensures
        res@ == short_type_text(*t),
{
    match t {
        FeedbackType::Bug => "BUG",
        FeedbackType::Feature => "FEAT",
        FeedbackType::Praise => "♥",
        FeedbackType::Question => "?",
        FeedbackType::Improvement => "IMPR",
        FeedbackType::Other => "—",
    }
}

/// The upper-case name of a rating type.
pub open spec fn rating_type_text(t: RatingType) -> Seq<char> {
    match t {
        RatingType::Helpful => "HELPFUL"@,
        RatingType::Star => "STAR"@,
        RatingType::Nps => "NPS"@,
    }
}

/// The upper-case name of a rating type.
pub fn rating_type_label(t: &RatingType) -> (res: &'static str)
    ensures
        res@ == rating_type_text(*t),
{
    match t {
        RatingType::Helpful => "HELPFUL",
        RatingType::Star => "STAR",
        RatingType::Nps => "NPS",
    }
}

/// The group of a Net Promoter Score answer: promoters gave 9 or 10,
/// passives 7 or 8, detractors the rest.
pub open spec fn nps_bucket(value: u8) -> Seq<char> {
    if value >= 9 {
        "promoter"@
    } else if value >= 7 {
        "passive"@
    } else {
        "detractor"@
    }
}

/// A rating value in the rating list: a thumb, `v/max★` or `v/10`.
pub open spec fn rating_value_short_text(v: RatingValue) -> Seq<char> {
    match v {
        RatingValue::Helpful { value } => if value {
            "👍"@
        } else {
            "👎"@
        },
        RatingValue::Star { value, max_stars } => decimal(value as nat) + "/"@ + decimal(
            max_stars as nat,
        ) + "★"@,
        RatingValue::Nps { value } => decimal(value as nat) + "/10"@,
    }
}

/// A rating value in the rating list.
pub fn rating_value_short(v: &RatingValue) -> (res: String)
    ensures
        res@ == rating_value_short_text(*v),
{
    match v {
        RatingValue::Helpful { value } => String::from_str(
            if *value {
                "👍"
            } else {
                "👎"
            },
        ),
        RatingValue::Star { value, max_stars } => {
            let mut s = String::new();
            push_decimal(&mut s, *value as u64);
            s.append("/");
            push_decimal(&mut s, *max_stars as u64);
            s.append("★");
            assert(s@ =~= rating_value_short_text(*v));
            s
        },
        RatingValue::Nps { value } => {
            let mut s = String::new();
            push_decimal(&mut s, *value as u64);
            s.append("/10");
            assert(s@ =~= rating_value_short_text(*v));
            s
        },
    }
}

/// A rating value in the rating detail, with the group of an NPS answer.
pub open spec fn rating_value_full_text(v: RatingValue) -> Seq<char> {
    match v {
        RatingValue::Helpful { value } => if value {
            "Helpful"@
        } else {
            "Not helpful"@
        },
        RatingValue::Star { value, max_stars } => decimal(value as nat) + " / "@ + decimal(
            max_stars as nat,
        ) + " stars"@,
        RatingValue::Nps { value } => decimal(value as nat) + " / 10 ("@ + nps_bucket(value)
            + ")"@,
    }
}

/// A rating value in the rating detail.
pub fn rating_value_full(v: &RatingValue) -> (res: String)
    ensures
        res@ == rating_value_full_text(*v),
{
    match v {
        RatingValue::Helpful { value } => String::from_str(
            if *value {
                "Helpful"
            } else {
                "Not helpful"
            },
        ),
        RatingValue::Star { value, max_stars } => {
            let mut s = String::new();
            push_decimal(&mut s, *value as u64);
            s.append(" / ");
            push_decimal(&mut s, *max_stars as u64);
            s.append(" stars");
            assert(s@ =~= rating_value_full_text(*v));
            s
        },
        RatingValue::Nps { value } => {
            let bucket = if *value >= 9 {
                "promoter"
            } else if *value >= 7 {
                "passive"
            } else {
                "detractor"
            };
            let mut s = String::new();
            push_decimal(&mut s, *value as u64);
            s.append(" / 10 (");
            s.append(bucket);
            s.append(")");
            assert(s@ =~= rating_value_full_text(*v));
            s
        },
    }
}

// ============================================================================
// Dates
// ============================================================================

/// An ISO timestamp as `YYYY-MM-DD HH:MM`: when its UTF-8 bytes number at
/// least 16 and the eleventh is `T`, the first ten bytes, a space, and bytes
/// 12 to 16; the text as it is otherwise.
pub open spec fn short_date(iso: Seq<char>) -> Seq<char> {
    let b = vstd::utf8::encode_utf8(iso);
    if b.len() >= 16 && b[10] == 84u8 {
        vstd::utf8::decode_utf8(b.subrange(0, 10)) + seq![' '] + vstd::utf8::decode_utf8(
            b.subrange(11, 16),
        )
    } else {
        iso
    }
}

/// The cut after byte 16 of a date-shaped text falls between characters.
pub open spec fn date_cut_ok(iso: Seq<char>) -> bool {
    let b = vstd::utf8::encode_utf8(iso);
    b.len() >= 16 && b[10] == 84u8 ==> vstd::utf8::is_char_boundary(b, 16)
}

/// An ISO timestamp as `YYYY-MM-DD HH:MM`.
pub fn format_date(iso: &str) -> (res: String)
    requires
        date_cut_ok(iso@),
    ensures
        res@ == short_date(iso@),
{
    broadcast use vstd::utf8::group_utf8_lib;

    let bytes = iso.as_bytes();
    if bytes.len() >= 16 && bytes[10] == 84u8 {
        let ghost b = vstd::utf8::encode_utf8(iso@);
        let (head, _tail) = iso.split_at(16);
        let ghost hb = vstd::utf8::encode_utf8(head@);
        assert(hb =~= b.subrange(0, 16));
        assert(vstd::utf8::valid_utf8(hb));
        assert(!vstd::utf8::is_continuation_byte(hb[10]));
        assert(vstd::utf8::is_char_boundary(hb, 10));
        let (date, rest) = head.split_at(10);
        let ghost rb = vstd::utf8::encode_utf8(rest@);
        assert(rb =~= b.subrange(10, 16));
        assert(vstd::utf8::valid_utf8(rb));
        assert(rb[0] == 84u8);
        assert(vstd::utf8::length_of_first_scalar(rb) == 1);
        assert(vstd::utf8::is_char_boundary(rb, 1)) by {
            reveal_with_fuel(vstd::utf8::is_char_boundary, 2);
        }
        let (_t, time) = rest.split_at(1);
        assert(vstd::utf8::encode_utf8(date@) =~= b.subrange(0, 10));
        assert(vstd::utf8::encode_utf8(time@) =~= b.subrange(11, 16));
        assert(date@ == vstd::utf8::decode_utf8(vstd::utf8::encode_utf8(date@)));
        assert(time@ == vstd::utf8::decode_utf8(vstd::utf8::encode_utf8(time@)));
        proof {
            reveal_strlit(" ");
        }
        concat3(date, " ", time)
    } else {
        String::from_str(iso)
    }
}

// ============================================================================
// Filter summaries
// ============================================================================

/// The summary of the filters that are set, shown in a list's title: the
/// parts after `· `, separated by spaces; empty when none is set.
pub open spec fn summary_of(parts: Seq<Seq<char>>) -> Seq<char> {
    if parts.len() == 0 {
        Seq::empty()
    } else {
        "· "@ + join_seq(parts, " "@)
    }
}

/// The part of a filter summary for an optional value.
pub open spec fn part_if<T>(value: Option<T>, part: spec_fn(T) -> Seq<char>) -> Seq<Seq<char>> {
    match value {
        Some(v) => seq![part(v)],
        None => Seq::empty(),
    }
}

/// The summary of the feedback filters: status, type and the search text
/// cut to 20 characters.
pub open spec fn feedback_filter_summary<H, S>(app: App<H, S>) -> Seq<char> {
    summary_of(
        part_if(app.status_filter, |s: FeedbackStatus| "status="@ + s.label()) + part_if(
            app.type_filter,
            |t: FeedbackType| "type="@ + t.label(),
        ) + part_if(
            app.search,
            |q: String| "q=\""@ + truncate_ellipsis(q@, 20) + "\""@,
        ),
    )
}

/// The summary of the rating filters: type and the path cut to 24
/// characters.
pub open spec fn ratings_filter_summary<H, S>(app: App<H, S>) -> Seq<char> {
    summary_of(
        part_if(app.rating_type_filter, |t: RatingType| "type="@ + rating_type_text(t)) + part_if(
            app.rating_path_filter,
            |p: String| "path=\""@ + truncate_ellipsis(p@, 24) + "\""@,
        ),
    )
}

fn summary(parts: &Vec<String>) -> (res: String)
    ensures
        res@ == summary_of(views(parts@)),
{
    if parts.len() == 0 {
        String::new()
    } else {
        let joined = join(parts, " ");
        concat2("· ", joined.as_str())
    }
}

/// The summary of the feedback filters that are set.
pub fn filter_summary<H, S>(app: &App<H, S>) -> (res: String)
    ensures
        res@ == feedback_filter_summary(*app),
{
    let mut parts: Vec<String> = Vec::new();
    if let Some(s) = &app.status_filter {
        parts.push(concat2("status=", s.as_str()));
    }
    let ghost a = views(parts@);
    if let Some(t) = &app.type_filter {
        parts.push(concat2("type=", t.as_str()));
    }
    let ghost b = views(parts@);
    if let Some(q) = &app.search {
        let cut = truncate(q.as_str(), 20);
        parts.push(concat3("q=\"", cut.as_str(), "\""));
    }
    let ghost c = views(parts@);
    let ghost ps = part_if(app.status_filter, |s: FeedbackStatus| "status="@ + s.label());
    let ghost pt = part_if(app.type_filter, |t: FeedbackType| "type="@ + t.label());
    let ghost pq = part_if(
        app.search,
        |q: String| "q=\""@ + truncate_ellipsis(q@, 20) + "\""@,
    );
    assert(a =~= ps);
    assert(b =~= ps + pt);
    assert(c =~= ps + pt + pq);
    summary(&parts)
}

/// The summary of the rating filters that are set.
pub fn rating_filter_summary<H, S>(app: &App<H, S>) -> (res: String)
    ensures
        res@ == ratings_filter_summary(*app),
{
    let mut parts: Vec<String> = Vec::new();
    if let Some(t) = &app.rating_type_filter {
        parts.push(concat2("type=", rating_type_label(t)));
    }
    let ghost a = views(parts@);
    if let Some(p) = &app.rating_path_filter {
        let cut = truncate(p.as_str(), 24);
        parts.push(concat3("path=\"", cut.as_str(), "\""));
    }
    let ghost b = views(parts@);
    let ghost pt = part_if(app.rating_type_filter, |t: RatingType| "type="@ + rating_type_text(t));
    let ghost pp = part_if(
        app.rating_path_filter,
        |p: String| "path=\""@ + truncate_ellipsis(p@, 24) + "\""@,
    );
    assert(a =~= pt);
    assert(b =~= pt + pp);
    summary(&parts)
}

// ============================================================================
// Layout
// ============================================================================

/// A rectangle of the terminal, in cells.
#[derive(Debug, Clone, Copy, PartialEq, Eq, Structural)]
pub struct Area {
    pub x: u16,
    pub y: u16,
    pub width: u16,
    pub height: u16,
}

/// The smaller of two sizes.
pub open spec fn min_u16(a: u16, b: u16) -> u16 {
    if a <= b {
        a
    } else {
        b
    }
}

/// A `width` by `height` box centred in `area`, shrunk to fit it.
pub open spec fn centered_in(area: Area, width: u16, height: u16) -> Area {
    let w = min_u16(width, area.width);
    let h = min_u16(height, area.height);
    Area {
        x: (area.x + (area.width - w) / 2) as u16,
        y: (area.y + (area.height - h) / 2) as u16,
        width: w,
        height: h,
    }
}

/// The box centred in `area` fits the terminal's coordinates.
pub open spec fn centering_fits(area: Area, width: u16, height: u16) -> bool {
    &&& area.x + (area.width - min_u16(width, area.width)) / 2 <= u16::MAX
    &&& area.y + (area.height - min_u16(height, area.height)) / 2 <= u16::MAX
}

/// A `width` by `height` box centred in `area`, shrunk to fit it; it lies
/// within `area`.
pub fn centered(area: Area, width: u16, height: u16) -> (r: Area)
    requires
        centering_fits(area, width, height),
    ensures
        r == centered_in(area, width, height),
        area.x <= r.x,
        r.x + r.width <= area.x + area.width,
        area.y <= r.y,
        r.y + r.height <= area.y + area.height,
{
    let w = if width <= area.width {
        width
    } else {
        area.width
    };
    let h = if height <= area.height {
        height
    } else {
        area.height
    };
    let x = area.x + (area.width - w) / 2;
    let y = area.y + (area.height - h) / 2;
    Area { x, y, width: w, height: h }
}

// ============================================================================
// Bars and tones
// ============================================================================

/// `n` copies of `c`.
pub open spec fn repeat_char(c: char, n: nat) -> Seq<char> {
    Seq::new(n, |i: int| c)
}

/// `n` copies of `c`.
pub fn repeat(c: char, n: usize) -> (res: String)
    ensures
        res@ == repeat_char(c, n as nat),
{
    let mut s = String::new();
    let mut i: usize = 0;
    while i < n
        invariant
            i <= n,
            s@ == repeat_char(c, i as nat),
        decreases n - i,
    {
        push_char(&mut s, c);
        i = i + 1;
        assert(s@ =~= repeat_char(c, i as nat));
    }
    s
}

/// The filled and the empty stars of a star rating: `value` filled ones
/// and one empty one for each star above it.
pub fn star_bar(value: u8, max_stars: u8) -> (res: (String, String))
    ensures
        res.0@ == repeat_char('★', value as nat),
        res.1@ == repeat_char('☆', (if max_stars >= value { max_stars - value } else { 0 }) as nat),
{
    let empty = if max_stars >= value {
        max_stars - value
    } else {
        0
    };
    (repeat('★', value as usize), repeat('☆', empty as usize))
}

/// How good a value looks.
#[derive(Debug, Clone, Copy, PartialEq, Eq, Structural)]
pub enum Tone {
    Good,
    Fair,
    Poor,
}

/// The tone of a Net Promoter Score answer: good for promoters, fair for
/// passives, poor for detractors.
pub open spec fn nps_tone_of(value: u8) -> Tone {
    if value >= 9 {
        Tone::Good
    } else if value >= 7 {
        Tone::Fair
    } else {
        Tone::Poor
    }
}

/// The tone of a Net Promoter Score answer.
pub fn nps_tone(value: u8) -> (t: Tone)
    ensures
        t == nps_tone_of(value),
{
    if value >= 9 {
        Tone::Good
    } else if value >= 7 {
        Tone::Fair
    } else {
        Tone::Poor
    }
}

/// The tone of a project's Net Promoter Score: good from 50, fair from 0,
/// poor below.
pub open spec fn nps_score_tone_of(score: i32) -> Tone {
    if score >= 50 {
        Tone::Good
    } else if score >= 0 {
        Tone::Fair
    } else {
        Tone::Poor
    }
}

/// The tone of a project's Net Promoter Score.
pub fn nps_score_tone(score: i32) -> (t: Tone)
    ensures
        t == nps_score_tone_of(score),
{
    if score >= 50 {
        Tone::Good
    } else if score >= 0 {
        Tone::Fair
    } else {
        Tone::Poor
    }
}

/// The ten-cell bar of an NPS answer, its value capped at 10: the filled
/// cells, the empty cells, the ` v/10` label and the tone.
pub fn nps_bar(value: u8) -> (res: (String, String, String, Tone))
    ensures
        ({
            let v: u8 = if value <= 10 { value } else { 10 };
            &&& res.0@ == repeat_char('█', v as nat)
            &&& res.1@ == repeat_char('░', (10 - v) as nat)
            &&& res.2@ == " "@ + decimal(v as nat) + "/10"@
            &&& res.3 == nps_tone_of(v)
        }),
{
    let v: u8 = if value <= 10 {
        value
    } else {
        10
    };
    let mut label = String::from_str(" ");
    push_decimal(&mut label, v as u64);
    label.append("/10");
    (repeat('█', v as usize), repeat('░', (10 - v) as usize), label, nps_tone(v))
}

// ============================================================================
// Rows of the lists
// ============================================================================

/// `s` padded with spaces on the right to `w` characters.
pub open spec fn padded_right(s: Seq<char>, w: nat) -> Seq<char> {
    if s.len() >= w {
        s
    } else {
        s + repeat_char(' ', (w - s.len()) as nat)
    }
}

/// `s` padded with spaces on the left to `w` characters.
pub open spec fn padded_left(s: Seq<char>, w: nat) -> Seq<char> {
    if s.len() >= w {
        s
    } else {
        repeat_char(' ', (w - s.len()) as nat) + s
    }
}

/// `s` padded with spaces on the right to `w` characters (`{:<w}`).
pub fn pad_right(s: &str, w: usize) -> (res: String)
    ensures
        res@ == padded_right(s@, w as nat),
{
    let n = chars_of(s).len();
    if n >= w {
        String::from_str(s)
    } else {
        let pad = repeat(' ', w - n);
        concat2(s, pad.as_str())
    }
}

/// `s` padded with spaces on the left to `w` characters (`{:>w}`).
pub fn pad_left(s: &str, w: usize) -> (res: String)
    ensures
        res@ == padded_left(s@, w as nat),
{
    let n = chars_of(s).len();
    if n >= w {
        String::from_str(s)
    } else {
        let pad = repeat(' ', w - n);
        concat2(pad.as_str(), s)
    }
}

/// `s` with each line break turned into a space.
pub open spec fn one_line(s: Seq<char>) -> Seq<char> {
    s.map_values(|c: char| if c == '\n' { ' ' } else { c })
}

/// `s` with each line break turned into a space.
pub fn flatten_lines(s: &str) -> (res: String)
    ensures
        res@ == one_line(s@),
{
    let cs = chars_of(s);
    let mut res = String::new();
    let mut i: usize = 0;
    while i < cs.len()
        invariant
            i <= cs@.len(),
            cs@ == s@,
            res@ == one_line(s@.take(i as int)),
        decreases cs@.len() - i,
    {
        let c = cs[i];
        push_char(&mut res, if c == '\n' { ' ' } else { c });
        i = i + 1;
        assert(res@ =~= one_line(s@.take(i as int)));
    }
    assert(s@.take(cs@.len() as int) =~= s@);
    res
}

/// The width left for the last column of a list row.
pub open spec fn rest_width(width: u16, used: u16) -> nat {
    if width >= used {
        (width - used) as nat
    } else {
        0
    }
}

/// The three cells of a project in the project list: the name cut and
/// padded to 28 characters, the feedback count right-aligned in six, and
/// the description cut to what the row leaves.
pub fn project_list_cells(p: &crate::models::Project, width: u16) -> (res: (String, String, String))
    ensures
        res.0@ == padded_right(truncate_ellipsis(p.name@, 28), 28),
        res.1@ == " "@ + padded_left(decimal(p.feedback_count as nat), 6) + " "@,
        res.2@ == " "@ + truncate_ellipsis(p.description@, rest_width(width, 38)),
{
    let name = truncate(p.name.as_str(), 28);
    let mut count = String::new();
    push_decimal(&mut count, p.feedback_count);
    let count_cell = concat3(" ", pad_left(count.as_str(), 6).as_str(), " ");
    let rest: u16 = if width >= 38 {
        width - 38
    } else {
        0
    };
    let desc = truncate(p.description.as_str(), rest as usize);
    (pad_right(name.as_str(), 28), count_cell, concat2(" ", desc.as_str()))
}

/// The three cells of a feedback item in the feedback list: status, type,
/// and the message on one line, cut to what the row leaves.
pub fn feedback_list_cells(f: &crate::models::Feedback, width: u16) -> (res: (String, String, String))
    ensures
        res.0@ == " "@ + padded_right(short_status_text(f.status), 8) + " "@,
        res.1@ == padded_right(short_type_text(f.feedback_type), 6) + " "@,
        res.2@ == truncate_ellipsis(one_line(f.message@), rest_width(width, 22)),
{
    let status = pad_right(short_status(&f.status), 8);
    let kind = pad_right(short_type(&f.feedback_type), 6);
    let rest: u16 = if width >= 22 {
        width - 22
    } else {
        0
    };
    let msg = flatten_lines(f.message.as_str());
    (concat3(" ", status.as_str(), " "), concat2(kind.as_str(), " "), truncate(msg.as_str(), rest as usize))
}

/// The three cells of a rating in the rating list: type, short value, and
/// the path (`—` without one) on one line, cut to what the row leaves.
pub fn rating_list_cells(r: &crate::models::Rating, width: u16) -> (res: (String, String, String))
    ensures
        res.0@ == " "@ + padded_right(rating_type_text(r.rating_type), 7) + " "@,
        res.1@ == padded_right(rating_value_short_text(r.value), 10) + " "@,
        res.2@ == truncate_ellipsis(
            one_line(
                match r.path {
                    Some(p) => p@,
                    None => "—"@,
                },
            ),
            rest_width(width, 22),
        ),
{
    let kind = pad_right(rating_type_label(&r.rating_type), 7);
    let value = rating_value_short(&r.value);
    let value_cell = pad_right(value.as_str(), 10);
    let rest: u16 = if width >= 22 {
        width - 22
    } else {
        0
    };
    let path = match &r.path {
        Some(p) => flatten_lines(p.as_str()),
        None => flatten_lines("—"),
    };
    (concat3(" ", kind.as_str(), " "), concat2(value_cell.as_str(), " "), truncate(path.as_str(), rest as usize))
}

// ============================================================================
// Titles and the status line
// ============================================================================

/// The title in the header bar: the project's name on the project screen
/// (`—` when none is open).
pub open spec fn header_text<H, S>(app: App<H, S>) -> Seq<char> {
    match app.screen {
        Screen::Projects => "SeggWat · Projects"@,
        Screen::Project => "SeggWat · "@ + match app.selected_project {
            Some(p) => p.name@,
            None => "—"@,
        },
    }
}

/// The title in the header bar.
pub fn header_title<H, S>(app: &App<H, S>) -> (res: String)
    ensures
        res@ == header_text(*app),
{
    match app.screen {
        Screen::Projects => String::from_str("SeggWat · Projects"),
        Screen::Project => match &app.selected_project {
            Some(p) => concat2("SeggWat · ", p.name.as_str()),
            None => concat2("SeggWat · ", "—"),
        },
    }
}

/// The title of the feedback list: page, page count and filters.
pub open spec fn feedback_title_text<H, S>(app: App<H, S>) -> Seq<char> {
    " Feedback ("@ + decimal(app.page as nat) + "/"@ + decimal(app.total_pages as nat) + ") "@
        + feedback_filter_summary(app) + " "@
}

/// The title of the feedback list.
pub fn feedback_list_title<H, S>(app: &App<H, S>) -> (res: String)
    ensures
        res@ == feedback_title_text(*app),
{
    let mut s = String::from_str(" Feedback (");
    push_decimal(&mut s, app.page);
    s.append("/");
    push_decimal(&mut s, app.total_pages);
    s.append(") ");
    let f = filter_summary(app);
    s.append(f.as_str());
    s.append(" ");
    assert(s@ =~= feedback_title_text(*app));
    s
}

/// The title of the rating list: page, page count and filters.
pub open spec fn ratings_title_text<H, S>(app: App<H, S>) -> Seq<char> {
    " Ratings ("@ + decimal(app.ratings_page as nat) + "/"@ + decimal(
        app.ratings_total_pages as nat,
    ) + ") "@ + ratings_filter_summary(app) + " "@
}

/// The title of the rating list.
pub fn ratings_list_title<H, S>(app: &App<H, S>) -> (res: String)
    ensures
        res@ == ratings_title_text(*app),
{
    let mut s = String::from_str(" Ratings (");
    push_decimal(&mut s, app.ratings_page);
    s.append("/");
    push_decimal(&mut s, app.ratings_total_pages);
    s.append(") ");
    let f = rating_filter_summary(app);
    s.append(f.as_str());
    s.append(" ");
    assert(s@ =~= ratings_title_text(*app));
    s
}

/// What the status line shows, by kind.
#[derive(Debug, Clone, Copy, PartialEq, Eq, Structural)]
pub enum StatusKind {
    Loading,
    Success,
    Failure,
    Info,
}

/// The status line: loading wins over a toast, a toast over the count of
/// what is shown.
pub open spec fn status_line_of<H, S>(app: App<H, S>) -> (Seq<char>, StatusKind) {
    if app.loading {
        (" Loading…"@, StatusKind::Loading)
    } else {
        match app.toast {
            Some(t) => (
                " "@ + t.text@,
                if t.is_error {
                    StatusKind::Failure
                } else {
                    StatusKind::Success
                },
            ),
            None => (
                if app.screen == Screen::Projects {
                    " "@ + decimal(app.projects@.len()) + " projects"@
                } else {
                    match app.project_view {
                        ProjectView::Overview => " overview"@,
                        ProjectView::Feedback => " "@ + decimal(app.feedback@.len()) + " feedback"@,
                        ProjectView::Ratings => " "@ + decimal(app.ratings@.len()) + " ratings"@,
                    }
                },
                StatusKind::Info,
            ),
        }
    }
}

/// The status line.
pub fn status_line<H, S>(app: &App<H, S>) -> (res: (String, StatusKind))
    ensures
        res.0@ == status_line_of(*app).0,
        res.1 == status_line_of(*app).1,
{
    if app.loading {
        return (String::from_str(" Loading…"), StatusKind::Loading);
    }
    match &app.toast {
        Some(t) => (
            concat2(" ", t.text.as_str()),
            if t.is_error {
                StatusKind::Failure
            } else {
                StatusKind::Success
            },
        ),
        None => {
            let text = if app.screen == Screen::Projects {
                let mut s = String::from_str(" ");
                push_decimal(&mut s, app.projects.len() as u64);
                s.append(" projects");
                s
            } else {
                match app.project_view {
                    ProjectView::Overview => String::from_str(" overview"),
                    ProjectView::Feedback => {
                        let mut s = String::from_str(" ");
                        push_decimal(&mut s, app.feedback.len() as u64);
                        s.append(" feedback");
                        s
                    },
                    ProjectView::Ratings => {
                        let mut s = String::from_str(" ");
                        push_decimal(&mut s, app.ratings.len() as u64);
                        s.append(" ratings");
                        s
                    },
                }
            };
            assert(text@ =~= status_line_of(*app).0);
            (text, StatusKind::Info)
        },
    }
}

// ============================================================================
// Key hints
// ============================================================================

/// The views of a list of text pairs.
pub open spec fn pair_views(v: Seq<(String, String)>) -> Seq<(Seq<char>, Seq<char>)> {
    v.map_values(|p: (String, String)| (p.0@, p.1@))
}

/// The keys and what they do, in the key bar at the bottom of each screen
/// and tab (the screen decides on the project list).
pub open spec fn keybar_hints_of(screen: Screen, view: ProjectView) -> Seq<(Seq<char>, Seq<char>)> {
    match screen {
        Screen::Projects => seq![
            ("↑↓/jk"@, "nav"@),
            ("⏎"@, "open"@),
            ("o"@, "browser"@),
            ("r"@, "refresh"@),
            ("?"@, "help"@),
            ("q"@, "quit"@),
        ],
        Screen::Project => match view {
            ProjectView::Overview => seq![
                ("0/1/2"@, "tab"@),
                ("p"@, "switch"@),
                ("o"@, "browser"@),
                ("r"@, "refresh"@),
                ("b"@, "back"@),
                ("?"@, "help"@),
                ("q"@, "quit"@),
            ],
            ProjectView::Feedback => seq![
                ("0/1/2"@, "tab"@),
                ("↑↓/jk"@, "nav"@),
                ("⇥"@, "pane"@),
                ("N"@, "new"@),
                ("e"@, "edit"@),
                ("s/S"@, "set/filter"@),
                ("t/T"@, "set/filter"@),
                ("/"@, "search"@),
                ("c"@, "clear"@),
                ("d"@, "del"@),
                ("o"@, "browser"@),
                ("p"@, "switch"@),
                ("n"@, "next"@),
                ("r"@, "refresh"@),
                ("b"@, "back"@),
                ("?"@, "help"@),
                ("q"@, "quit"@),
            ],
            ProjectView::Ratings => seq![
                ("0/1/2"@, "tab"@),
                ("↑↓/jk"@, "nav"@),
                ("⇥"@, "pane"@),
                ("t"@, "type"@),
                ("P"@, "path"@),
                ("c"@, "clear"@),
                ("d"@, "del"@),
                ("o"@, "browser"@),
                ("p"@, "switch"@),
                ("n"@, "next"@),
                ("r"@, "refresh"@),
                ("b"@, "back"@),
                ("?"@, "help"@),
                ("q"@, "quit"@),
            ],
        },
    }
}

fn keybar_hints_projects() -> (res: Vec<(String, String)>)
    ensures
        pair_views(res@) == keybar_hints_of(Screen::Projects, ProjectView::Overview),
{
    let mut v: Vec<(String, String)> = Vec::new();
    v.push((String::from_str("↑↓/jk"), String::from_str("nav")));
    v.push((String::from_str("⏎"), String::from_str("open")));
    v.push((String::from_str("o"), String::from_str("browser")));
    v.push((String::from_str("r"), String::from_str("refresh")));
    v.push((String::from_str("?"), String::from_str("help")));
    v.push((String::from_str("q"), String::from_str("quit")));
    assert(pair_views(v@) =~= keybar_hints_of(Screen::Projects, ProjectView::Overview));
    v
}

fn keybar_hints_overview() -> (res: Vec<(String, String)>)
    ensures
        pair_views(res@) == keybar_hints_of(Screen::Project, ProjectView::Overview),
{
    let mut v: Vec<(String, String)> = Vec::new();
    v.push((String::from_str("0/1/2"), String::from_str("tab")));
    v.push((String::from_str("p"), String::from_str("switch")));
    v.push((String::from_str("o"), String::from_str("browser")));
    v.push((String::from_str("r"), String::from_str("refresh")));
    v.push((String::from_str("b"), String::from_str("back")));
    v.push((String::from_str("?"), String::from_str("help")));
    v.push((String::from_str("q"), String::from_str("quit")));
    assert(pair_views(v@) =~= keybar_hints_of(Screen::Project, ProjectView::Overview));
    v
}

fn keybar_hints_feedback() -> (res: Vec<(String, String)>)
    ensures
        pair_views(res@) == keybar_hints_of(Screen::Project, ProjectView::Feedback),
{
    let mut v: Vec<(String, String)> = Vec::new();
    v.push((String::from_str("0/1/2"), String::from_str("tab")));
    v.push((String::from_str("↑↓/jk"), String::from_str("nav")));
    v.push((String::from_str("⇥"), String::from_str("pane")));
    v.push((String::from_str("N"), String::from_str("new")));
    v.push((String::from_str("e"), String::from_str("edit")));
    v.push((String::from_str("s/S"), String::from_str("set/filter")));
    v.push((String::from_str("t/T"), String::from_str("set/filter")));
    v.push((String::from_str("/"), String::from_str("search")));
    v.push((String::from_str("c"), String::from_str("clear")));
    v.push((String::from_str("d"), String::from_str("del")));
    v.push((String::from_str("o"), String::from_str("browser")));
    v.push((String::from_str("p"), String::from_str("switch")));
    v.push((String::from_str("n"), String::from_str("next")));
    v.push((String::from_str("r"), String::from_str("refresh")));
    v.push((String::from_str("b"), String::from_str("back")));
    v.push((String::from_str("?"), String::from_str("help")));
    v.push((String::from_str("q"), String::from_str("quit")));
    assert(pair_views(v@) =~= keybar_hints_of(Screen::Project, ProjectView::Feedback));
    v
}

fn keybar_hints_ratings() -> (res: Vec<(String, String)>)
    ensures
        pair_views(res@) == keybar_hints_of(Screen::Project, ProjectView::Ratings),
{
    let mut v: Vec<(String, String)> = Vec::new();
    v.push((String::from_str("0/1/2"), String::from_str("tab")));
    v.push((String::from_str("↑↓/jk"), String::from_str("nav")));
    v.push((String::from_str("⇥"), String::from_str("pane")));
    v.push((String::from_str("t"), String::from_str("type")));
    v.push((String::from_str("P"), String::from_str("path")));
    v.push((String::from_str("c"), String::from_str("clear")));
    v.push((String::from_str("d"), String::from_str("del")));
    v.push((String::from_str("o"), String::from_str("browser")));
    v.push((String::from_str("p"), String::from_str("switch")));
    v.push((String::from_str("n"), String::from_str("next")));
    v.push((String::from_str("r"), String::from_str("refresh")));
    v.push((String::from_str("b"), String::from_str("back")));
    v.push((String::from_str("?"), String::from_str("help")));
    v.push((String::from_str("q"), String::from_str("quit")));
    assert(pair_views(v@) =~= keybar_hints_of(Screen::Project, ProjectView::Ratings));
    v
}

/// The keys and what they do, in the key bar at the bottom of each screen
/// and tab (the screen decides on the project list).
pub fn keybar_hints(screen: Screen, view: ProjectView) -> (res: Vec<(String, String)>)
    ensures
        pair_views(res@) == keybar_hints_of(screen, view),
{
    match screen {
        Screen::Projects => keybar_hints_projects(),
        Screen::Project => match view {
            ProjectView::Overview => keybar_hints_overview(),
            ProjectView::Feedback => keybar_hints_feedback(),
            ProjectView::Ratings => keybar_hints_ratings(),
        },
    }
}

/// The keys and what they do, in the help overlay of each screen and tab
/// (the screen decides on the project list).
pub open spec fn help_rows_of(screen: Screen, view: ProjectView) -> Seq<(Seq<char>, Seq<char>)> {
    match screen {
        Screen::Projects => seq![
            ("↑/↓ or j/k"@, "navigate"@),
            ("g / G"@, "top / bottom"@),
            ("Enter"@, "open project"@),
            ("o"@, "open in browser"@),
            ("r"@, "refresh"@),
            ("q / Esc"@, "quit"@),
        ],
        Screen::Project => match view {
            ProjectView::Overview => seq![
                ("0 / 1 / 2"@, "Overview / Feedback / Ratings"@),
                ("p"@, "switch project"@),
                ("o"@, "open project in browser"@),
                ("r"@, "reload stats"@),
                ("b or Esc"@, "back to projects"@),
                ("q"@, "quit"@),
            ],
            ProjectView::Feedback => seq![
                ("0 / 1 / 2"@, "Overview / Feedback / Ratings"@),
                ("↑/↓ or j/k"@, "navigate"@),
                ("PgUp / PgDn"@, "jump 10"@),
                ("Tab"@, "switch pane (list ↔ detail)"@),
                ("N"@, "new feedback (compose)"@),
                ("e"@, "edit message"@),
                ("s"@, "set status (Resolved → note)"@),
                ("S"@, "filter by status"@),
                ("t"@, "set type on selected"@),
                ("T"@, "filter by type"@),
                ("/"@, "search"@),
                ("c"@, "clear filters"@),
                ("d"@, "delete (with confirm)"@),
                ("o"@, "open in browser"@),
                ("p"@, "switch project"@),
                ("n / p in modal"@, "next / prev page"@),
                ("r"@, "refresh"@),
                ("b or Esc"@, "back to projects"@),
                ("q"@, "quit"@),
            ],
            ProjectView::Ratings => seq![
                ("0 / 1 / 2"@, "Overview / Feedback / Ratings"@),
                ("↑/↓ or j/k"@, "navigate"@),
                ("PgUp / PgDn"@, "jump 10"@),
                ("Tab"@, "switch pane (list ↔ detail)"@),
                ("t"@, "filter by rating type"@),
                ("P"@, "filter by path"@),
                ("c"@, "clear filters"@),
                ("d"@, "delete (with confirm)"@),
                ("o"@, "open in browser"@),
                ("p"@, "switch project"@),
                ("n"@, "next page"@),
                ("r"@, "refresh"@),
                ("b or Esc"@, "back to projects"@),
                ("q"@, "quit"@),
            ],
        },
    }
}

fn help_rows_projects() -> (res: Vec<(String, String)>)
    ensures
        pair_views(res@) == help_rows_of(Screen::Projects, ProjectView::Overview),
{
    let mut v: Vec<(String, String)> = Vec::new();
    v.push((String::from_str("↑/↓ or j/k"), String::from_str("navigate")));
    v.push((String::from_str("g / G"), String::from_str("top / bottom")));
    v.push((String::from_str("Enter"), String::from_str("open project")));
    v.push((String::from_str("o"), String::from_str("open in browser")));
    v.push((String::from_str("r"), String::from_str("refresh")));
    v.push((String::from_str("q / Esc"), String::from_str("quit")));
    assert(pair_views(v@) =~= help_rows_of(Screen::Projects, ProjectView::Overview));
    v
}

fn help_rows_overview() -> (res: Vec<(String, String)>)
    ensures
        pair_views(res@) == help_rows_of(Screen::Project, ProjectView::Overview),
{
    let mut v: Vec<(String, String)> = Vec::new();
    v.push((String::from_str("0 / 1 / 2"), String::from_str("Overview / Feedback / Ratings")));
    v.push((String::from_str("p"), String::from_str("switch project")));
    v.push((String::from_str("o"), String::from_str("open project in browser")));
    v.push((String::from_str("r"), String::from_str("reload stats")));
    v.push((String::from_str("b or Esc"), String::from_str("back to projects")));
    v.push((String::from_str("q"), String::from_str("quit")));
    assert(pair_views(v@) =~= help_rows_of(Screen::Project, ProjectView::Overview));
    v
}

fn help_rows_feedback() -> (res: Vec<(String, String)>)
    ensures
        pair_views(res@) == help_rows_of(Screen::Project, ProjectView::Feedback),
{
    let mut v: Vec<(String, String)> = Vec::new();
    v.push((String::from_str("0 / 1 / 2"), String::from_str("Overview / Feedback / Ratings")));
    v.push((String::from_str("↑/↓ or j/k"), String::from_str("navigate")));
    v.push((String::from_str("PgUp / PgDn"), String::from_str("jump 10")));
    v.push((String::from_str("Tab"), String::from_str("switch pane (list ↔ detail)")));
    v.push((String::from_str("N"), String::from_str("new feedback (compose)")));
    v.push((String::from_str("e"), String::from_str("edit message")));
    v.push((String::from_str("s"), String::from_str("set status (Resolved → note)")));
    v.push((String::from_str("S"), String::from_str("filter by status")));
    v.push((String::from_str("t"), String::from_str("set type on selected")));
    v.push((String::from_str("T"), String::from_str("filter by type")));
    v.push((String::from_str("/"), String::from_str("search")));
    v.push((String::from_str("c"), String::from_str("clear filters")));
    v.push((String::from_str("d"), String::from_str("delete (with confirm)")));
    v.push((String::from_str("o"), String::from_str("open in browser")));
    v.push((String::from_str("p"), String::from_str("switch project")));
    v.push((String::from_str("n / p in modal"), String::from_str("next / prev page")));
    v.push((String::from_str("r"), String::from_str("refresh")));
    v.push((String::from_str("b or Esc"), String::from_str("back to projects")));
    v.push((String::from_str("q"), String::from_str("quit")));
    assert(pair_views(v@) =~= help_rows_of(Screen::Project, ProjectView::Feedback));
    v
}

fn help_rows_ratings() -> (res: Vec<(String, String)>)
    ensures
        pair_views(res@) == help_rows_of(Screen::Project, ProjectView::Ratings),
{
    let mut v: Vec<(String, String)> = Vec::new();
    v.push((String::from_str("0 / 1 / 2"), String::from_str("Overview / Feedback / Ratings")));
    v.push((String::from_str("↑/↓ or j/k"), String::from_str("navigate")));
    v.push((String::from_str("PgUp / PgDn"), String::from_str("jump 10")));
    v.push((String::from_str("Tab"), String::from_str("switch pane (list ↔ detail)")));
    v.push((String::from_str("t"), String::from_str("filter by rating type")));
    v.push((String::from_str("P"), String::from_str("filter by path")));
    v.push((String::from_str("c"), String::from_str("clear filters")));
    v.push((String::from_str("d"), String::from_str("delete (with confirm)")));
    v.push((String::from_str("o"), String::from_str("open in browser")));
    v.push((String::from_str("p"), String::from_str("switch project")));
    v.push((String::from_str("n"), String::from_str("next page")));
    v.push((String::from_str("r"), String::from_str("refresh")));
    v.push((String::from_str("b or Esc"), String::from_str("back to projects")));
    v.push((String::from_str("q"), String::from_str("quit")));
    assert(pair_views(v@) =~= help_rows_of(Screen::Project, ProjectView::Ratings));
    v
}

/// The keys and what they do, in the help overlay of each screen and tab
/// (the screen decides on the project list).
pub fn help_rows(screen: Screen, view: ProjectView) -> (res: Vec<(String, String)>)
    ensures
        pair_views(res@) == help_rows_of(screen, view),
{
    match screen {
        Screen::Projects => help_rows_projects(),
        Screen::Project => match view {
            ProjectView::Overview => help_rows_overview(),
            ProjectView::Feedback => help_rows_feedback(),
            ProjectView::Ratings => help_rows_ratings(),
        },
    }
}

} // verus!
