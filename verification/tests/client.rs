use seggwat_cli::client::{check_status, map_error, status_is_success, HttpMethod, RequestBody, SeggwatClient};
use seggwat_cli::error::CliError;
use seggwat_cli::models::{ApiError, FeedbackCreateRequest, FeedbackType};

fn query(r: &seggwat_cli::client::ApiRequest) -> Vec<(String, String)> {
    r.query.iter().map(|p| (p.name.clone(), p.value.clone())).collect()
}

#[test]
fn base_url_trailing_slashes_do_not_matter() {
    let a = SeggwatClient::with_api_key("https://seggwat.com/", "oat_k".to_string());
    let b = SeggwatClient::with_api_key("https://seggwat.com", "oat_k".to_string());
    assert_eq!(a.base_url, "https://seggwat.com/api/v1");
    assert_eq!(a.base_url, b.base_url);
}

#[test]
fn credentials_become_headers() {
    let k = SeggwatClient::with_api_key("https://seggwat.com", "oat_k".to_string());
    let h = k.auth_header();
    assert_eq!((h.name.as_str(), h.value.as_str()), ("X-API-Key", "oat_k"));
    let t = SeggwatClient::with_bearer_token("https://seggwat.com", "tok".to_string());
    let h = t.auth_header();
    assert_eq!((h.name.as_str(), h.value.as_str()), ("Authorization", "Bearer tok"));
}

#[test]
fn feedback_listing_query_in_order() {
    let c = SeggwatClient::with_bearer_token("http://localhost:3000", "t".to_string());
    let r = c.list_feedback("p1", 2, 50, Some("New"), None, Some("crash"));
    assert!(r.method == HttpMethod::Get);
    assert_eq!(r.url, "http://localhost:3000/api/v1/projects/p1/feedback");
    assert_eq!(
        query(&r),
        vec![
            ("page".to_string(), "2".to_string()),
            ("limit".to_string(), "50".to_string()),
            ("status".to_string(), "New".to_string()),
            ("search".to_string(), "crash".to_string()),
        ]
    );
}

#[test]
fn rating_listing_and_items() {
    let c = SeggwatClient::with_api_key("https://seggwat.com", "k".to_string());
    let r = c.list_ratings("p", 1, 20, Some("nps"), Some("/docs"));
    assert_eq!(r.url, "https://seggwat.com/api/v1/projects/p/ratings");
    assert_eq!(query(&r).len(), 4);
    assert_eq!(query(&r)[3], ("path".to_string(), "/docs".to_string()));
    let d = c.delete_rating("p", "r9");
    assert!(d.method == HttpMethod::Delete);
    assert_eq!(d.url, "https://seggwat.com/api/v1/projects/p/ratings/r9");
    assert_eq!(c.get_star_stats("p").url, "https://seggwat.com/api/v1/projects/p/ratings/stats/star");
    assert_eq!(c.get_helpful_stats("p").url, "https://seggwat.com/api/v1/projects/p/ratings/stats");
    assert_eq!(c.whoami().url, "https://seggwat.com/api/v1/me");
    assert_eq!(c.get_project_summary("p").url, "https://seggwat.com/api/v1/projects/p/summary");
}

#[test]
fn creating_feedback_posts_the_body() {
    let c = SeggwatClient::with_api_key("https://seggwat.com", "k".to_string());
    let body = FeedbackCreateRequest {
        message: "hi".to_string(),
        feedback_type: Some(FeedbackType::Bug),
        path: None,
        version: None,
    };
    let r = c.create_feedback("p", body);
    assert!(r.method == HttpMethod::Post);
    assert!(matches!(r.body, RequestBody::CreateFeedback(ref b) if b.message == "hi"));
}

#[test]
fn statuses() {
    assert!(status_is_success(200));
    assert!(status_is_success(204));
    assert!(!status_is_success(301));
    assert!(check_status(204, None).is_ok());
}

#[test]
fn errors_of_failed_answers() {
    match map_error(401, None) {
        CliError::Unauthorized { message } => assert_eq!(message, "HTTP 401 Unauthorized"),
        other => panic!("unexpected {other:?}"),
    }
    match map_error(404, Some(ApiError { error: "not_found".to_string(), message: "no such project".to_string() })) {
        CliError::NotFound { message } => assert_eq!(message, "no such project"),
        other => panic!("unexpected {other:?}"),
    }
    match check_status(500, None) {
        Err(CliError::ServerError { status, message }) => {
            assert_eq!(status, 500);
            assert_eq!(message, "HTTP 500 Internal Server Error");
        }
        other => panic!("unexpected {other:?}"),
    }
    match map_error(599, None) {
        CliError::ServerError { message, .. } => assert_eq!(message, "HTTP 599 <unknown status code>"),
        other => panic!("unexpected {other:?}"),
    }
    assert!(matches!(map_error(403, None), CliError::Forbidden { .. }));
    assert!(matches!(map_error(400, None), CliError::BadRequest { .. }));
}
