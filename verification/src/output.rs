//! What the command-line client prints for each kind of record: the lines
//! of a detail view, the cells of a table row, and the pagination footer.
//! Tables are drawn and lines are printed by the caller.
use vstd::prelude::*;

use crate::models::{
    format_rating_value, rating_value_text, Feedback, FeedbackCounts, NpsStats, PaginationInfo,
    Project, Rating, WhoamiResponse,
};
use crate::text::{
    concat2, decimal, decimal_string, join, join_seq, push_decimal, push_signed_decimal, signed_decimal,
    truncate_dots, truncate_with_dots, views,
};

verus! {

// ============================================================================
// Pieces
// ============================================================================

/// How a `bool` is printed.
pub open spec fn bool_text(b: bool) -> Seq<char> {
    if b {
        "true"@
    } else {
        "false"@
    }
}

/// `label` followed by the decimal digits of `n`.
fn labeled_number(label: &str, n: u64) -> (res: String)
    ensures
        res@ == label@ + decimal(n as nat),
{
    let mut s = String::from_str(label);
    push_decimal(&mut s, n);
    s
}

/// `label` followed by `true` or `false`.
fn labeled_bool(label: &str, b: bool) -> (res: String)
    ensures
        res@ == label@ + bool_text(b),
{
    concat2(label, if b { "true" } else { "false" })
}

/// Adds `label` followed by the optional value as a line, when there is a
/// value.
fn push_optional(lines: &mut Vec<String>, label: &str, value: &Option<String>)
    ensures
        views(final(lines)@) == views(old(lines)@) + optional_line(label@, *value),
{
    if let Some(v) = value {
        lines.push(concat2(label, v.as_str()));
        assert(views(lines@) =~= views(old(lines)@) + optional_line(label@, *value));
    } else {
        assert(views(lines@) =~= views(old(lines)@) + optional_line(label@, *value));
    }
}

/// The line of an optional field: none when the field is absent.
pub open spec fn optional_line(label: Seq<char>, value: Option<String>) -> Seq<Seq<char>> {
    match value {
        Some(v) => seq![label + v@],
        None => Seq::empty(),
    }
}

/// The name of an optional text shown in a table cell: `-` when absent.
pub open spec fn or_dash(value: Option<String>) -> Seq<char> {
    match value {
        Some(v) => v@,
        None => "-"@,
    }
}

// ============================================================================
// Text helpers of the tables
// ============================================================================

/// Shortens `s` to at most `max` characters, the last three of which
/// become `...` when it is cut.
pub fn truncate(s: &str, max: usize) -> (res: String)
    ensures
        res@ == truncate_dots(s@, max as nat),
{
    truncate_with_dots(s, max)
}

/// The date and time of an RFC 3339 timestamp to the minute, as
/// `%Y-%m-%d %H:%M` of `chrono` writes it: `None` when `ts` is no RFC 3339
/// timestamp.
pub uninterp spec fn rfc3339_minutes(ts: Seq<char>) -> Option<Seq<char>>;

/// `chrono::DateTime::parse_from_rfc3339` followed by
/// `format("%Y-%m-%d %H:%M")`: the timestamp to the minute in its own
/// offset, or `None` when it does not parse. Parsing and formatting are
/// named together, not stated.
#[verifier::external_body]
fn rfc3339_to_minutes(ts: &str) -> (res: Option<String>)
    ensures
        match res {
            Some(t) => rfc3339_minutes(ts@) == Some(t@),
            None => rfc3339_minutes(ts@) is None,
        },
{
    match chrono::DateTime::parse_from_rfc3339(ts) {
        Ok(dt) => Some(dt.format("%Y-%m-%d %H:%M").to_string()),
        Err(_) => None,
    }
}

/// A timestamp as printed: shortened to the minute when it is RFC 3339,
/// as it is otherwise.
pub open spec fn timestamp_text(ts: Seq<char>) -> Seq<char> {
    match rfc3339_minutes(ts) {
        Some(t) => t,
        None => ts,
    }
}

/// A timestamp as printed.
pub fn format_timestamp(ts: &str) -> (res: String)
    ensures
        res@ == timestamp_text(ts@),
{
    match rfc3339_to_minutes(ts) {
        Some(t) => t,
        None => String::from_str(ts),
    }
}

/// The footer below a page of a listing.
pub open spec fn pagination_text(p: PaginationInfo) -> Seq<char> {
    "Page "@ + signed_decimal(p.page as int) + " of "@ + signed_decimal(p.total_pages as int)
        + " ("@ + signed_decimal(p.total as int) + " total)"@
}

/// The footer below a page of a listing.
pub fn pagination_line(p: &PaginationInfo) -> (res: String)
    ensures
        res@ == pagination_text(*p),
{
    let mut s = String::from_str("Page ");
    push_signed_decimal(&mut s, p.page);
    s.append(" of ");
    push_signed_decimal(&mut s, p.total_pages);
    s.append(" (");
    push_signed_decimal(&mut s, p.total);
    s.append(" total)");
    assert(s@ =~= pagination_text(*p));
    s
}

// ============================================================================
// Projects
// ============================================================================

/// The header of the project table.
pub open spec fn project_header() -> Seq<Seq<char>> {
    seq!["ID"@, "Name"@, "Key"@, "Feedback"@]
}

/// The cells of a project in the project table.
pub open spec fn project_cells(p: Project) -> Seq<Seq<char>> {
    seq![p.id@, p.name@, p.key@, decimal(p.feedback_count as nat)]
}

/// The header of the project table.
pub fn project_table_header() -> (res: Vec<String>)
    ensures
        views(res@) == project_header(),
{
    let mut v: Vec<String> = Vec::new();
    v.push(String::from_str("ID"));
    v.push(String::from_str("Name"));
    v.push(String::from_str("Key"));
    v.push(String::from_str("Feedback"));
    assert(views(v@) =~= project_header());
    v
}

/// The cells of a project in the project table.
pub fn project_row(p: &Project) -> (res: Vec<String>)
    ensures
        views(res@) == project_cells(*p),
        res@.len() == 4,
        res@[0]@ == p.id@,
        res@[1]@ == p.name@,
        res@[2]@ == p.key@,
        res@[3]@ == decimal(p.feedback_count as nat),
{
    let mut v: Vec<String> = Vec::new();
    v.push(p.id.clone());
    v.push(p.name.clone());
    v.push(p.key.clone());
    v.push(decimal_string(p.feedback_count));
    assert(views(v@) =~= project_cells(*p));
    v
}

/// The lines that describe a project.
pub open spec fn project_detail(p: Project) -> Seq<Seq<char>> {
    seq![
        "ID:              "@ + p.id@,
        "Name:            "@ + p.name@,
        "Key:             "@ + p.key@,
        "Description:     "@ + p.description@,
        "Organization:    "@ + p.org_id@,
        "Feedback Count:  "@ + decimal(p.feedback_count as nat),
    ] + if p.allowed_origins@.len() > 0 {
        seq!["Allowed Origins: "@ + join_seq(views(p.allowed_origins@), ", "@)]
    } else {
        Seq::empty()
    }
}

/// The lines that describe a project.
pub fn project_detail_lines(p: &Project) -> (res: Vec<String>)
    ensures
        views(res@) == project_detail(*p),
{
    let mut v: Vec<String> = Vec::new();
    v.push(concat2("ID:              ", p.id.as_str()));
    v.push(concat2("Name:            ", p.name.as_str()));
    v.push(concat2("Key:             ", p.key.as_str()));
    v.push(concat2("Description:     ", p.description.as_str()));
    v.push(concat2("Organization:    ", p.org_id.as_str()));
    v.push(labeled_number("Feedback Count:  ", p.feedback_count));
    if p.allowed_origins.len() > 0 {
        let origins = join(&p.allowed_origins, ", ");
        v.push(concat2("Allowed Origins: ", origins.as_str()));
    }
    assert(views(v@) =~= project_detail(*p));
    v
}

// ============================================================================
// Feedback
// ============================================================================

/// The header of the feedback table.
pub open spec fn feedback_header() -> Seq<Seq<char>> {
    seq!["ID"@, "Type"@, "Status"@, "Message"@, "Created"@]
}

/// The cells of a feedback item in the feedback table: the message cut to
/// 60 characters.
pub open spec fn feedback_cells(f: Feedback) -> Seq<Seq<char>> {
    seq![
        f.id@,
        f.feedback_type.label(),
        f.status.label(),
        truncate_dots(f.message@, 60),
        timestamp_text(f.created_at@),
    ]
}

/// The header of the feedback table.
pub fn feedback_table_header() -> (res: Vec<String>)
    ensures
        views(res@) == feedback_header(),
{
    let mut v: Vec<String> = Vec::new();
    v.push(String::from_str("ID"));
    v.push(String::from_str("Type"));
    v.push(String::from_str("Status"));
    v.push(String::from_str("Message"));
    v.push(String::from_str("Created"));
    assert(views(v@) =~= feedback_header());
    v
}

/// The cells of a feedback item in the feedback table.
pub fn feedback_row(f: &Feedback) -> (res: Vec<String>)
    ensures
        views(res@) == feedback_cells(*f),
        res@.len() == 5,
        res@[0]@ == f.id@,
        res@[1]@ == f.feedback_type.label(),
        res@[2]@ == f.status.label(),
        res@[3]@ == truncate_dots(f.message@, 60),
        res@[4]@ == timestamp_text(f.created_at@),
{
    let mut v: Vec<String> = Vec::new();
    v.push(f.id.clone());
    v.push(String::from_str(f.feedback_type.as_str()));
    v.push(String::from_str(f.status.as_str()));
    v.push(truncate(f.message.as_str(), 60));
    v.push(format_timestamp(f.created_at.as_str()));
    assert(views(v@) =~= feedback_cells(*f));
    v
}

/// The lines that describe a feedback item, its message last.
pub open spec fn feedback_detail(f: Feedback) -> Seq<Seq<char>> {
    seq![
        "ID:              "@ + f.id@,
        "Project:         "@ + f.project_id@,
        "Type:            "@ + f.feedback_type.label(),
        "Status:          "@ + f.status.label(),
        "Source:          "@ + f.source.label(),
        "Created:         "@ + timestamp_text(f.created_at@),
        "Archived:        "@ + bool_text(f.archived),
    ] + optional_line("Path:            "@, f.path) + optional_line("Version:         "@, f.version)
        + optional_line("Submitted By:    "@, f.submitted_by) + optional_line(
        "Resolution Note: "@,
        f.resolution_note,
    ) + seq![Seq::empty(), "Message:"@, f.message@]
}

/// The lines that describe a feedback item.
pub fn feedback_detail_lines(f: &Feedback) -> (res: Vec<String>)
    ensures
        views(res@) == feedback_detail(*f),
{
    let mut v: Vec<String> = Vec::new();
    v.push(concat2("ID:              ", f.id.as_str()));
    v.push(concat2("Project:         ", f.project_id.as_str()));
    v.push(concat2("Type:            ", f.feedback_type.as_str()));
    v.push(concat2("Status:          ", f.status.as_str()));
    v.push(concat2("Source:          ", f.source.as_str()));
    let created = format_timestamp(f.created_at.as_str());
    v.push(concat2("Created:         ", created.as_str()));
    v.push(labeled_bool("Archived:        ", f.archived));
    let ghost head = views(v@);
    push_optional(&mut v, "Path:            ", &f.path);
    push_optional(&mut v, "Version:         ", &f.version);
    push_optional(&mut v, "Submitted By:    ", &f.submitted_by);
    push_optional(&mut v, "Resolution Note: ", &f.resolution_note);
    let ghost middle = views(v@);
    assert(middle =~= head + optional_line("Path:            "@, f.path) + optional_line(
        "Version:         "@,
        f.version,
    ) + optional_line("Submitted By:    "@, f.submitted_by) + optional_line(
        "Resolution Note: "@,
        f.resolution_note,
    ));
    v.push(String::new());
    v.push(String::from_str("Message:"));
    v.push(f.message.clone());
    assert(head =~= seq![
        "ID:              "@ + f.id@,
        "Project:         "@ + f.project_id@,
        "Type:            "@ + f.feedback_type.label(),
        "Status:          "@ + f.status.label(),
        "Source:          "@ + f.source.label(),
        "Created:         "@ + timestamp_text(f.created_at@),
        "Archived:        "@ + bool_text(f.archived),
    ]);
    assert(views(v@) =~= middle + seq![Seq::empty(), "Message:"@, f.message@]);
    assert(views(v@) =~= feedback_detail(*f));
    v
}

/// The lines of the feedback counts of a project.
pub open spec fn feedback_stats(c: FeedbackCounts) -> Seq<Seq<char>> {
    seq![
        "Total:        "@ + decimal(c.total as nat),
        "This Month:   "@ + decimal(c.current_month as nat),
        "Last Month:   "@ + decimal(c.last_month as nat),
    ]
}

/// The lines of the feedback counts of a project.
pub fn feedback_stats_lines(c: &FeedbackCounts) -> (res: Vec<String>)
    ensures
        views(res@) == feedback_stats(*c),
{
    let mut v: Vec<String> = Vec::new();
    v.push(labeled_number("Total:        ", c.total));
    v.push(labeled_number("This Month:   ", c.current_month));
    v.push(labeled_number("Last Month:   ", c.last_month));
    assert(views(v@) =~= feedback_stats(*c));
    v
}

// ============================================================================
// Ratings
// ============================================================================

/// The header of the rating table.
pub open spec fn rating_header() -> Seq<Seq<char>> {
    seq!["ID"@, "Type"@, "Value"@, "Path"@, "Created"@]
}

/// The cells of a rating in the rating table.
pub open spec fn rating_cells(r: Rating) -> Seq<Seq<char>> {
    seq![
        r.id@,
        r.rating_type.label(),
        rating_value_text(r.value),
        or_dash(r.path),
        timestamp_text(r.created_at@),
    ]
}

/// The header of the rating table.
pub fn rating_table_header() -> (res: Vec<String>)
    ensures
        views(res@) == rating_header(),
{
    let mut v: Vec<String> = Vec::new();
    v.push(String::from_str("ID"));
    v.push(String::from_str("Type"));
    v.push(String::from_str("Value"));
    v.push(String::from_str("Path"));
    v.push(String::from_str("Created"));
    assert(views(v@) =~= rating_header());
    v
}

/// The cells of a rating in the rating table.
pub fn rating_row(r: &Rating) -> (res: Vec<String>)
    ensures
        views(res@) == rating_cells(*r),
        res@.len() == 5,
        res@[0]@ == r.id@,
        res@[1]@ == r.rating_type.label(),
        res@[2]@ == rating_value_text(r.value),
        res@[3]@ == (match r.path {
            Some(p) => p@,
            None => "-"@,
        }),
        res@[4]@ == timestamp_text(r.created_at@),
{
    let mut v: Vec<String> = Vec::new();
    v.push(r.id.clone());
    v.push(String::from_str(r.rating_type.as_str()));
    v.push(format_rating_value(&r.value));
    v.push(
        match &r.path {
            Some(p) => p.clone(),
            None => String::from_str("-"),
        },
    );
    v.push(format_timestamp(r.created_at.as_str()));
    assert(views(v@) =~= rating_cells(*r));
    v
}

/// The lines that describe a rating.
pub open spec fn rating_detail(r: Rating) -> Seq<Seq<char>> {
    seq![
        "ID:           "@ + r.id@,
        "Project:      "@ + r.project_id@,
        "Type:         "@ + r.rating_type.label(),
        "Value:        "@ + rating_value_text(r.value),
        "Created:      "@ + timestamp_text(r.created_at@),
        "Archived:     "@ + bool_text(r.archived),
    ] + optional_line("Path:         "@, r.path) + optional_line("Version:      "@, r.version)
        + optional_line("Submitted By: "@, r.submitted_by)
}

/// The lines that describe a rating.
pub fn rating_detail_lines(r: &Rating) -> (res: Vec<String>)
    ensures
        views(res@) == rating_detail(*r),
{
    let mut v: Vec<String> = Vec::new();
    v.push(concat2("ID:           ", r.id.as_str()));
    v.push(concat2("Project:      ", r.project_id.as_str()));
    v.push(concat2("Type:         ", r.rating_type.as_str()));
    let value = format_rating_value(&r.value);
    v.push(concat2("Value:        ", value.as_str()));
    let created = format_timestamp(r.created_at.as_str());
    v.push(concat2("Created:      ", created.as_str()));
    v.push(labeled_bool("Archived:     ", r.archived));
    push_optional(&mut v, "Path:         ", &r.path);
    push_optional(&mut v, "Version:      ", &r.version);
    push_optional(&mut v, "Submitted By: ", &r.submitted_by);
    assert(views(v@) =~= rating_detail(*r));
    v
}

/// The lines of the Net Promoter Score statistics.
pub open spec fn nps_stats(s: NpsStats) -> Seq<Seq<char>> {
    seq![
        "--- NPS Stats ---"@,
        "Total:      "@ + decimal(s.total as nat),
        "NPS Score:  "@ + signed_decimal(s.score as int),
        "Promoters:  "@ + decimal(s.promoters as nat) + " (9-10)"@,
        "Passives:   "@ + decimal(s.passives as nat) + " (7-8)"@,
        "Detractors: "@ + decimal(s.detractors as nat) + " (0-6)"@,
    ]
}

/// The lines of the Net Promoter Score statistics.
pub fn nps_stats_lines(s: &NpsStats) -> (res: Vec<String>)
    ensures
        views(res@) == nps_stats(*s),
{
    let mut v: Vec<String> = Vec::new();
    v.push(String::from_str("--- NPS Stats ---"));
    v.push(labeled_number("Total:      ", s.total));
    let mut score = String::from_str("NPS Score:  ");
    push_signed_decimal(&mut score, s.score as i64);
    v.push(score);
    let mut p = labeled_number("Promoters:  ", s.promoters);
    p.append(" (9-10)");
    v.push(p);
    let mut q = labeled_number("Passives:   ", s.passives);
    q.append(" (7-8)");
    v.push(q);
    let mut d = labeled_number("Detractors: ", s.detractors);
    d.append(" (0-6)");
    v.push(d);
    assert(views(v@) =~= nps_stats(*s));
    v
}

// ============================================================================
// The signed-in user
// ============================================================================

/// The lines that describe the signed-in user.
pub open spec fn whoami_detail(w: WhoamiResponse) -> Seq<Seq<char>> {
    seq!["User ID:      "@ + w.user_id@, "Email:        "@ + w.email@] + optional_line(
        "Name:         "@,
        w.display_name,
    ) + seq!["Organization: "@ + w.org_id@] + optional_line("Org Name:     "@, w.org_name)
        + seq!["Role:         "@ + w.role@]
}

/// The lines that describe the signed-in user.
pub fn whoami_lines(w: &WhoamiResponse) -> (res: Vec<String>)
    ensures
        views(res@) == whoami_detail(*w),
{
    let mut v: Vec<String> = Vec::new();
    v.push(concat2("User ID:      ", w.user_id.as_str()));
    v.push(concat2("Email:        ", w.email.as_str()));
    let ghost a = views(v@);
    push_optional(&mut v, "Name:         ", &w.display_name);
    let ghost b = views(v@);
    v.push(concat2("Organization: ", w.org_id.as_str()));
    let ghost c = views(v@);
    assert(c =~= b.push("Organization: "@ + w.org_id@));
    push_optional(&mut v, "Org Name:     ", &w.org_name);
    let ghost d = views(v@);
    v.push(concat2("Role:         ", w.role.as_str()));
    assert(views(v@) =~= d.push("Role:         "@ + w.role@));
    assert(views(v@) =~= whoami_detail(*w));
    v
}

// ============================================================================
// Laws of the output
// ============================================================================

/// Each table row has one cell per header column, and each cell holds what
/// its header names: the record's own id under `ID`, and so on.
pub proof fn table_rows_follow_their_headers(p: Project, f: Feedback, r: Rating)
    ensures
        project_header() =~= seq!["ID"@, "Name"@, "Key"@, "Feedback"@],
        project_cells(p).len() == project_header().len(),
        project_cells(p)[0] == p.id@ && project_cells(p)[1] == p.name@ && project_cells(p)[2]
            == p.key@ && project_cells(p)[3] == decimal(p.feedback_count as nat),
        feedback_header() =~= seq!["ID"@, "Type"@, "Status"@, "Message"@, "Created"@],
        feedback_cells(f).len() == feedback_header().len(),
        feedback_cells(f)[0] == f.id@ && feedback_cells(f)[1] == f.feedback_type.label()
            && feedback_cells(f)[2] == f.status.label() && feedback_cells(f)[3] == truncate_dots(
            f.message@,
            60,
        ) && feedback_cells(f)[4] == timestamp_text(f.created_at@),
        rating_header() =~= seq!["ID"@, "Type"@, "Value"@, "Path"@, "Created"@],
        rating_cells(r).len() == rating_header().len(),
        rating_cells(r)[0] == r.id@ && rating_cells(r)[1] == r.rating_type.label()
            && rating_cells(r)[2] == rating_value_text(r.value) && rating_cells(r)[4]
            == timestamp_text(r.created_at@),
        r.path matches Some(path) ==> rating_cells(r)[3] == path@,
        r.path is None ==> rating_cells(r)[3] == "-"@,
{
}

/// A detail view opens with the record's own id and, for feedback, ends
/// with the whole message; an optional field shows as one line exactly
/// when it is there.
pub proof fn detail_views_show_the_record(p: Project, f: Feedback, r: Rating, w: WhoamiResponse)
    ensures
        project_detail(p)[0] == "ID:              "@ + p.id@,
        project_detail(p).len() == (if p.allowed_origins@.len() > 0 { 7int } else { 6int }),
        feedback_detail(f)[0] == "ID:              "@ + f.id@,
        feedback_detail(f)[1] == "Project:         "@ + f.project_id@,
        feedback_detail(f).last() == f.message@,
        feedback_detail(f).len() == 10 + (if f.path is Some { 1int } else { 0int }) + (if f.version
            is Some { 1int } else { 0int }) + (if f.submitted_by is Some { 1int } else { 0int }) + (
        if f.resolution_note is Some { 1int } else { 0int }),
        rating_detail(r)[0] == "ID:           "@ + r.id@,
        rating_detail(r)[3] == "Value:        "@ + rating_value_text(r.value),
        whoami_detail(w)[0] == "User ID:      "@ + w.user_id@,
        optional_line("x"@, None).len() == 0,
        forall|label: Seq<char>, v: String| #[trigger] optional_line(label, Some(v)) == seq![label + v@],
{
}

} // verus!
