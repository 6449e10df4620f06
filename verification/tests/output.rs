use seggwat_cli::models::{
    Feedback, FeedbackCounts, FeedbackSource, FeedbackStatus, FeedbackType, NpsStats,
    PaginationInfo, Project, Rating, RatingType, RatingValue, WhoamiResponse,
};
use seggwat_cli::output::{
    feedback_detail_lines, feedback_row, feedback_stats_lines, format_timestamp, nps_stats_lines,
    pagination_line, project_detail_lines, project_row, rating_detail_lines, rating_row, truncate,
    whoami_lines,
};
use std::collections::HashMap;

fn project() -> Project {
    Project {
        id: "p1".to_string(),
        key: "key1".to_string(),
        name: "Docs".to_string(),
        description: "Documentation site".to_string(),
        allowed_origins: vec!["https://a.io".to_string(), "https://b.io".to_string()],
        org_id: "org9".to_string(),
        feedback_count: 12,
    }
}

fn feedback() -> Feedback {
    Feedback {
        id: "f1".to_string(),
        project_id: "p1".to_string(),
        message: "The search box does not find anything when the query has umlauts in it at all".to_string(),
        status: FeedbackStatus::New,
        feedback_type: FeedbackType::Bug,
        source: FeedbackSource::Widget,
        created_at: "2024-03-05T14:07:09Z".to_string(),
        path: Some("/search".to_string()),
        version: None,
        archived: false,
        submitted_by: None,
        resolution_note: Some("fixed".to_string()),
    }
}

#[test]
fn table_helpers() {
    assert_eq!(truncate("abcdefgh", 5), "ab...");
    assert_eq!(format_timestamp("2024-03-05T14:07:09Z"), "2024-03-05 14:07");
    assert_eq!(format_timestamp("2024-03-05T14:07:09+02:00"), "2024-03-05 14:07");
    assert_eq!(format_timestamp("yesterday"), "yesterday");
    assert_eq!(pagination_line(&PaginationInfo { page: 2, limit: 20, total: 41, total_pages: 3 }), "Page 2 of 3 (41 total)");
}

#[test]
fn project_output() {
    assert_eq!(project_row(&project()), vec!["p1", "Docs", "key1", "12"]);
    let lines = project_detail_lines(&project());
    assert_eq!(lines[0], "ID:              p1");
    assert_eq!(lines[5], "Feedback Count:  12");
    assert_eq!(lines[6], "Allowed Origins: https://a.io, https://b.io");
    let mut bare = project();
    bare.allowed_origins = vec![];
    assert_eq!(project_detail_lines(&bare).len(), 6);
}

#[test]
fn feedback_output() {
    let row = feedback_row(&feedback());
    assert_eq!(row[1], "Bug");
    assert_eq!(row[2], "New");
    assert_eq!(row[3].chars().count(), 60);
    assert!(row[3].ends_with("..."));
    assert_eq!(row[4], "2024-03-05 14:07");
    let lines = feedback_detail_lines(&feedback());
    assert_eq!(lines[4], "Source:          Feedback Button");
    assert_eq!(lines[6], "Archived:        false");
    assert_eq!(lines[7], "Path:            /search");
    assert_eq!(lines[8], "Resolution Note: fixed");
    assert_eq!(lines[9], "");
    assert_eq!(lines[10], "Message:");
    assert_eq!(lines.len(), 12);
    assert_eq!(
        feedback_stats_lines(&FeedbackCounts { total: 7, current_month: 3, last_month: 4 }),
        vec!["Total:        7", "This Month:   3", "Last Month:   4"]
    );
}

#[test]
fn rating_output() {
    let r = Rating {
        id: "r1".to_string(),
        project_id: "p1".to_string(),
        rating_type: RatingType::Star,
        value: RatingValue::Star { value: 4, max_stars: 5 },
        path: None,
        version: Some("1.2".to_string()),
        submitted_by: None,
        archived: true,
        created_at: "not a date".to_string(),
    };
    assert_eq!(rating_row(&r), vec!["r1", "star", "4/5", "-", "not a date"]);
    let lines = rating_detail_lines(&r);
    assert_eq!(lines[3], "Value:        4/5");
    assert_eq!(lines[5], "Archived:     true");
    assert_eq!(lines[6], "Version:      1.2");
    assert_eq!(lines.len(), 7);
}

#[test]
fn nps_and_whoami_output() {
    let s = NpsStats { total: 10, score: -20, promoters: 2, passives: 4, detractors: 4, distribution: HashMap::new() };
    assert_eq!(
        nps_stats_lines(&s),
        vec![
            "--- NPS Stats ---",
            "Total:      10",
            "NPS Score:  -20",
            "Promoters:  2 (9-10)",
            "Passives:   4 (7-8)",
            "Detractors: 4 (0-6)",
        ]
    );
    let w = WhoamiResponse {
        user_id: "u".to_string(),
        email: "e@x.io".to_string(),
        display_name: None,
        org_id: "o".to_string(),
        org_name: Some("Acme".to_string()),
        role: "admin".to_string(),
    };
    assert_eq!(
        whoami_lines(&w),
        vec!["User ID:      u", "Email:        e@x.io", "Organization: o", "Org Name:     Acme", "Role:         admin"]
    );
}
