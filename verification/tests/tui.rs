use seggwat_cli::error::CliError;
use seggwat_cli::models::{
    Feedback, FeedbackListResponse, FeedbackSource, FeedbackStatus, FeedbackType,
    PaginationInfo, Project, ProjectListResponse, Rating, RatingType, RatingValue,
};
use seggwat_cli::tui::ui::{
    centered, help_rows, keybar_hints, feedback_list_cells, feedback_list_title, filter_summary, format_date,
    header_title, nps_bar, pad_left, pad_right, rating_list_cells, rating_type_label,
    rating_value_full, rating_value_short, short_status, short_type, star_bar, status_line,
    truncate, Area, StatusKind, Tone,
};
use seggwat_cli::tui::{
    cycle_type, dashboard_origin, feedback_dashboard_url, move_list, project_dashboard_url,
    rating_dashboard_url, rating_type_filter_options, status_filter_options,
    status_picker_options, type_filter_options, type_picker_options, App, Effect, Key, KeyPress,
    Modal, ProjectView, Screen, UpdatePurpose,
};

type Tui = App<(), ()>;

fn key(c: char) -> KeyPress {
    KeyPress { code: Key::Char(c), ctrl: false }
}

fn special(code: Key) -> KeyPress {
    KeyPress { code, ctrl: false }
}

fn project(id: &str, name: &str) -> Project {
    Project {
        id: id.to_string(),
        key: format!("k-{id}"),
        name: name.to_string(),
        description: "desc".to_string(),
        allowed_origins: vec![],
        org_id: "org".to_string(),
        feedback_count: 3,
    }
}

fn feedback(id: &str) -> Feedback {
    Feedback {
        id: id.to_string(),
        project_id: "p1".to_string(),
        message: format!("message {id}\nsecond line"),
        status: FeedbackStatus::New,
        feedback_type: FeedbackType::Bug,
        source: FeedbackSource::Manual,
        created_at: "2024-01-02T03:04:05Z".to_string(),
        path: None,
        version: None,
        archived: false,
        submitted_by: None,
        resolution_note: None,
    }
}

fn rating(id: &str, value: RatingValue, rating_type: RatingType) -> Rating {
    Rating {
        id: id.to_string(),
        project_id: "p1".to_string(),
        rating_type,
        value,
        path: Some("/docs/intro".to_string()),
        version: None,
        submitted_by: None,
        archived: false,
        created_at: "2024-01-02T03:04:05Z".to_string(),
    }
}

fn page(total_pages: i64) -> PaginationInfo {
    PaginationInfo { page: 1, limit: 50, total: 3, total_pages }
}

fn app_with_projects() -> Tui {
    let mut app: Tui = App::new("https://seggwat.com/".to_string());
    app.on_projects_loaded(
        Ok(ProjectListResponse { projects: vec![project("p1", "Docs"), project("p2", "Shop")] }),
        false,
    );
    app
}

fn app_in_project() -> Tui {
    let mut app = app_with_projects();
    let eff = app.handle_key(special(Key::Enter));
    assert!(matches!(eff, Effect::LoadFeedback { ref project_id, page: 1, limit: 50, .. } if project_id == "p1"));
    app.on_feedback_loaded(Ok(FeedbackListResponse {
        feedback: vec![feedback("f1"), feedback("f2"), feedback("f3")],
        pagination: page(2),
    }));
    app
}

#[test]
fn new_app_starts_on_the_project_list() {
    let app: Tui = App::new("https://seggwat.com".to_string());
    assert!(app.screen == Screen::Projects);
    assert!(app.projects.is_empty());
    assert!(matches!(app.modal, Modal::Inactive));
    assert!(!app.should_quit);
    assert_eq!(app.page, 1);
}

#[test]
fn loading_projects_selects_the_first() {
    let app = app_with_projects();
    assert_eq!(app.projects.len(), 2);
    assert_eq!(app.projects_selected, Some(0));
}

#[test]
fn failed_project_load_shows_an_error() {
    let mut app: Tui = App::new("u".to_string());
    app.on_projects_loaded(Err(CliError::Request("offline".to_string())), false);
    let toast = app.toast.clone().unwrap();
    assert!(toast.is_error);
    assert_eq!(toast.text, "Failed to load projects: HTTP request failed: offline");
}

#[test]
fn ctrl_c_quits_everywhere() {
    let mut app = app_in_project();
    app.handle_key(key('/'));
    assert!(matches!(app.modal, Modal::Search { .. }));
    let eff = app.handle_key(KeyPress { code: Key::Char('c'), ctrl: true });
    assert!(app.should_quit);
    assert!(matches!(eff, Effect::Nothing));
}

#[test]
fn escape_closes_overlays() {
    let mut app = app_in_project();
    app.handle_key(key('S'));
    assert!(matches!(app.modal, Modal::StatusFilter { cursor: 0 }));
    let eff = app.handle_key(special(Key::Esc));
    assert!(matches!(app.modal, Modal::Inactive));
    assert!(matches!(eff, Effect::Nothing));
    assert!(app.screen == Screen::Project);
}

#[test]
fn navigation_stays_in_the_list() {
    let mut app = app_in_project();
    assert_eq!(app.feedback_selected, Some(0));
    app.handle_key(key('k'));
    assert_eq!(app.feedback_selected, Some(0));
    app.handle_key(key('j'));
    app.handle_key(key('j'));
    app.handle_key(key('j'));
    assert_eq!(app.feedback_selected, Some(2));
    app.handle_key(key('g'));
    assert_eq!(app.feedback_selected, Some(0));
    app.handle_key(key('G'));
    assert_eq!(app.feedback_selected, Some(2));
    assert_eq!(move_list(Some(1), 3, -10), Some(0));
    assert_eq!(move_list(None, 0, 1), None);
}

#[test]
fn paging_asks_for_the_next_page() {
    let mut app = app_in_project();
    let eff = app.handle_key(key('n'));
    assert!(matches!(eff, Effect::LoadFeedback { page: 2, .. }));
    assert_eq!(app.page, 2);
    let eff = app.handle_key(key('n'));
    assert!(matches!(eff, Effect::Nothing));
    let eff = app.handle_key(key('p'));
    assert!(matches!(eff, Effect::Nothing));
    assert!(matches!(app.modal, Modal::ProjectSwitcher { cursor: 0 }));
}

#[test]
fn search_applies_on_enter() {
    let mut app = app_in_project();
    app.handle_key(key('/'));
    app.handle_key(key('x'));
    app.handle_key(key('y'));
    app.handle_key(special(Key::Backspace));
    let eff = app.handle_key(special(Key::Enter));
    assert_eq!(app.search.as_deref(), Some("x"));
    assert!(matches!(eff, Effect::LoadFeedback { ref search, .. } if search.as_deref() == Some("x")));
    assert_eq!(filter_summary(&app), "· q=\"x\"");
}

#[test]
fn status_picker_updates_the_selected_item() {
    let mut app = app_in_project();
    app.handle_key(key('s'));
    app.handle_key(key('j'));
    let eff = app.handle_key(special(Key::Enter));
    match eff {
        Effect::UpdateFeedback { feedback_id, body, purpose, .. } => {
            assert_eq!(feedback_id, "f1");
            assert!(body.status == Some(FeedbackStatus::Active));
            assert!(purpose == UpdatePurpose::Status(FeedbackStatus::Active));
        }
        other => panic!("unexpected {other:?}"),
    }
    let mut updated = feedback("f1");
    updated.status = FeedbackStatus::Active;
    app.on_feedback_updated(Ok(updated), UpdatePurpose::Status(FeedbackStatus::Active));
    assert!(app.feedback[0].status == FeedbackStatus::Active);
    assert_eq!(app.toast.clone().unwrap().text, "Status → Active");
}

#[test]
fn resolving_opens_the_note_editor() {
    let mut app = app_in_project();
    let mut updated = feedback("f1");
    updated.status = FeedbackStatus::Resolved;
    app.on_feedback_updated(Ok(updated), UpdatePurpose::Status(FeedbackStatus::Resolved));
    assert!(matches!(app.modal, Modal::ResolutionNote { ref id, ref note, .. } if id == "f1" && note.is_empty()));
}

#[test]
fn deleting_removes_the_item() {
    let mut app = app_in_project();
    app.handle_key(key('G'));
    app.handle_key(key('d'));
    assert!(matches!(app.modal, Modal::ConfirmDelete));
    let eff = app.handle_key(key('y'));
    assert!(matches!(eff, Effect::DeleteFeedback { ref feedback_id, .. } if feedback_id == "f3"));
    app.on_feedback_deleted(&"f3".to_string(), Ok(()));
    assert_eq!(app.feedback.len(), 2);
    assert!(app.feedback.iter().all(|f| f.id != "f3"));
    assert_eq!(app.feedback_selected, Some(1));
}

#[test]
fn composing_creates_feedback() {
    let mut app = app_in_project();
    app.handle_key(key('N'));
    app.handle_key(key('H'));
    app.handle_key(key('i'));
    let eff = app.handle_key(KeyPress { code: Key::Char('s'), ctrl: true });
    match eff {
        Effect::CreateFeedback { project_id, body } => {
            assert_eq!(project_id, "p1");
            assert_eq!(body.message, "Hi");
            assert!(body.feedback_type == Some(FeedbackType::Bug));
        }
        other => panic!("unexpected {other:?}"),
    }
}

#[test]
fn tabs_and_back() {
    let mut app = app_in_project();
    let eff = app.handle_key(key('2'));
    assert!(app.project_view == ProjectView::Ratings);
    assert!(matches!(eff, Effect::LoadRatings { .. }));
    let eff = app.handle_key(key('0'));
    assert!(app.project_view == ProjectView::Overview);
    assert!(matches!(eff, Effect::LoadStats { ref project_id } if project_id == "p1"));
    app.handle_key(key('b'));
    assert!(app.screen == Screen::Projects);
    assert!(app.feedback.is_empty());
}

#[test]
fn quitting_from_the_list() {
    let mut app = app_with_projects();
    app.handle_key(key('q'));
    assert!(app.should_quit);
}

#[test]
fn dashboard_links() {
    let p = project("p1", "Docs");
    assert_eq!(dashboard_origin("https://seggwat.com//"), "https://seggwat.com");
    assert_eq!(project_dashboard_url("https://seggwat.com/", &p), "https://seggwat.com/org/org/projects/p1/feedback");
    assert_eq!(feedback_dashboard_url("https://seggwat.com", &p, "f9"), "https://seggwat.com/org/org/projects/p1/feedback/f9");
    let r = rating("r1", RatingValue::Nps { value: 3 }, RatingType::Nps);
    assert_eq!(rating_dashboard_url("https://seggwat.com", &p, &r), "https://seggwat.com/org/org/projects/p1/nps");
    let h = rating("r2", RatingValue::Helpful { value: true }, RatingType::Helpful);
    assert_eq!(rating_dashboard_url("https://seggwat.com", &p, &h), "https://seggwat.com/org/org/projects/p1/insights");
}

#[test]
fn open_key_asks_for_the_browser() {
    let mut app = app_with_projects();
    let eff = app.handle_key(key('o'));
    assert!(matches!(eff, Effect::OpenUrl { ref url } if url == "https://seggwat.com/org/org/projects/p1/feedback"));
    app.on_url_opened("x", Err("no browser".to_string()));
    assert!(app.toast.clone().unwrap().is_error);
}

#[test]
fn picker_options() {
    assert_eq!(status_picker_options().len(), 6);
    let filters = status_filter_options();
    assert_eq!(filters.len(), 7);
    assert!(filters[0].is_none());
    assert!(filters[6] == Some(FeedbackStatus::Resolved));
    assert_eq!(type_filter_options().len(), 7);
    assert!(type_picker_options()[2] == FeedbackType::Praise);
    assert_eq!(rating_type_filter_options().len(), 4);
}

#[test]
fn type_cycling_wraps() {
    assert!(cycle_type(&FeedbackType::Other, 1) == FeedbackType::Bug);
    assert!(cycle_type(&FeedbackType::Bug, -1) == FeedbackType::Other);
    assert!(cycle_type(&FeedbackType::Praise, 6) == FeedbackType::Praise);
    assert!(cycle_type(&FeedbackType::Feature, -13) == FeedbackType::Bug);
}

#[test]
fn short_labels() {
    assert_eq!(short_status(&FeedbackStatus::Assigned), "ASSIGN");
    assert_eq!(short_status(&FeedbackStatus::Resolved), "RESOLV");
    assert_eq!(short_type(&FeedbackType::Praise), "♥");
    assert_eq!(short_type(&FeedbackType::Other), "—");
    assert_eq!(rating_type_label(&RatingType::Helpful), "HELPFUL");
    assert_eq!(truncate("abcdef", 4), "abc…");
    assert_eq!(truncate("abcdef", 0), "");
}

#[test]
fn rating_value_texts() {
    assert_eq!(rating_value_short(&RatingValue::Helpful { value: false }), "👎");
    assert_eq!(rating_value_short(&RatingValue::Star { value: 3, max_stars: 5 }), "3/5★");
    assert_eq!(rating_value_full(&RatingValue::Star { value: 3, max_stars: 5 }), "3 / 5 stars");
    assert_eq!(rating_value_full(&RatingValue::Nps { value: 9 }), "9 / 10 (promoter)");
    assert_eq!(rating_value_full(&RatingValue::Nps { value: 7 }), "7 / 10 (passive)");
    assert_eq!(rating_value_full(&RatingValue::Nps { value: 6 }), "6 / 10 (detractor)");
    assert_eq!(rating_value_full(&RatingValue::Helpful { value: false }), "Not helpful");
}

#[test]
fn dates_in_the_interface() {
    assert_eq!(format_date("2024-01-02T03:04:05Z"), "2024-01-02 03:04");
    assert_eq!(format_date("2024-01-02 03:04:05"), "2024-01-02 03:04:05");
    assert_eq!(format_date("short"), "short");
}

#[test]
fn bars() {
    assert_eq!(star_bar(3, 5), ("★★★".to_string(), "☆☆".to_string()));
    assert_eq!(star_bar(6, 5), ("★★★★★★".to_string(), String::new()));
    let (filled, empty, label, tone) = nps_bar(12);
    assert_eq!(filled.chars().count(), 10);
    assert_eq!(empty, "");
    assert_eq!(label, " 10/10");
    assert!(tone == Tone::Good);
    let (filled, empty, label, tone) = nps_bar(7);
    assert_eq!((filled.chars().count(), empty.chars().count()), (7, 3));
    assert_eq!(label, " 7/10");
    assert!(tone == Tone::Fair);
}

#[test]
fn layout_helpers() {
    let r = centered(Area { x: 0, y: 0, width: 100, height: 40 }, 60, 3);
    assert!(r == Area { x: 20, y: 18, width: 60, height: 3 });
    let small = centered(Area { x: 5, y: 5, width: 10, height: 2 }, 60, 3);
    assert!(small == Area { x: 5, y: 5, width: 10, height: 2 });
    assert_eq!(pad_right("ab", 4), "ab  ");
    assert_eq!(pad_left("7", 3), "  7");
    assert_eq!(pad_right("toolong", 3), "toolong");
}

#[test]
fn list_rows_and_titles() {
    let app = app_in_project();
    let (status, kind, msg) = feedback_list_cells(&app.feedback[0], 40);
    assert_eq!(status, " NEW      ");
    assert_eq!(kind, "BUG    ");
    assert_eq!(msg, "message f1 second…");
    let (t, v, p) = rating_list_cells(&rating("r", RatingValue::Star { value: 4, max_stars: 5 }, RatingType::Star), 100);
    assert_eq!(t, " STAR    ");
    assert_eq!(v, "4/5★       ");
    assert_eq!(p, "/docs/intro");
    assert_eq!(feedback_list_title(&app), " Feedback (1/2)  ");
    assert_eq!(header_title(&app), "SeggWat · Docs");
    let (text, kind) = status_line(&app);
    assert_eq!(text, " 3 feedback");
    assert!(kind == StatusKind::Info);
}

#[test]
fn key_hints_follow_the_screen() {
    let list = keybar_hints(Screen::Projects, ProjectView::Ratings);
    assert_eq!(list.len(), 6);
    assert_eq!(list[1], ("⏎".to_string(), "open".to_string()));
    let fb = keybar_hints(Screen::Project, ProjectView::Feedback);
    assert_eq!(fb.len(), 17);
    assert_eq!(fb[3], ("N".to_string(), "new".to_string()));
    let help = help_rows(Screen::Project, ProjectView::Ratings);
    assert_eq!(help.len(), 14);
    assert_eq!(help[5], ("P".to_string(), "filter by path".to_string()));
    assert_eq!(help_rows(Screen::Project, ProjectView::Overview)[3], ("r".to_string(), "reload stats".to_string()));
}

#[test]
fn changing_a_filter_returns_to_the_first_page() {
    let mut app = app_in_project();
    app.handle_key(key('n'));
    assert_eq!(app.page, 2);
    app.handle_key(key('S'));
    app.handle_key(key('j'));
    app.handle_key(key('j'));
    let eff = app.handle_key(special(Key::Enter));
    assert_eq!(app.page, 1);
    assert!(app.status_filter == Some(FeedbackStatus::Active));
    assert!(matches!(eff, Effect::LoadFeedback { page: 1, status: Some(FeedbackStatus::Active), .. }));
    let eff = app.handle_key(key('c'));
    assert!(app.status_filter.is_none());
    assert!(matches!(eff, Effect::LoadFeedback { page: 1, status: None, .. }));
}
