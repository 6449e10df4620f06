use seggwat_cli::auth::TokenStore;
use seggwat_cli::cli::{FeedbackCommand, FeedbackStatusArg, FeedbackTypeArg, ProjectCommand, RatingCommand, RatingTypeArg};
use seggwat_cli::client::{HttpMethod, RequestBody, SeggwatClient};
use seggwat_cli::commands::{
    feedback_request, plan_auth, project_request, rating_request, resolve_client_id,
    resolve_zitadel_domain, token_after_refresh, AuthPlan,
};
use seggwat_cli::models::{FeedbackStatus, FeedbackType};

fn client() -> SeggwatClient {
    SeggwatClient::with_api_key("https://seggwat.com", "oat_x".to_string())
}

#[test]
fn zitadel_domain_resolution() {
    assert_eq!(resolve_zitadel_domain("https://seggwat.com", Some("auth.example.org")), Ok("auth.example.org".to_string()));
    assert_eq!(resolve_zitadel_domain("https://seggwat.com", None), Ok("id.oxidt.com".to_string()));
    assert_eq!(resolve_zitadel_domain("http://localhost:3000", None), Ok("localhost:8085".to_string()));
    assert_eq!(resolve_zitadel_domain("http://127.0.0.1:3000", None), Ok("localhost:8085".to_string()));
    assert_eq!(
        resolve_zitadel_domain("https://feedback.example.org", None),
        Err("Cannot auto-detect Zitadel domain for 'https://feedback.example.org'.\nUse --zitadel-domain or set SEGGWAT_ZITADEL_DOMAIN.".to_string())
    );
}

#[test]
fn client_id_resolution() {
    assert_eq!(resolve_client_id("https://seggwat.com", None), Ok("364773505570443267".to_string()));
    assert_eq!(resolve_client_id("https://x.org", Some("abc")), Ok("abc".to_string()));
    assert_eq!(
        resolve_client_id("http://localhost:3000", None),
        Err("OAuth client ID required for non-SaaS instances.\nUse --client-id or set SEGGWAT_CLIENT_ID.".to_string())
    );
}

fn stored(expires_at: Option<i64>) -> TokenStore {
    TokenStore {
        access_token: "acc".to_string(),
        refresh_token: Some("ref".to_string()),
        expires_at,
        api_url: "https://seggwat.com".to_string(),
        zitadel_domain: "id.oxidt.com".to_string(),
        client_id: "cid".to_string(),
    }
}

#[test]
fn credentials_are_chosen_in_order() {
    assert!(matches!(plan_auth(Some("oat_k".to_string()), Some(stored(None)), 0), AuthPlan::ApiKey(k) if k == "oat_k"));
    assert!(matches!(plan_auth(None, Some(stored(Some(1_000_000))), 10), AuthPlan::Token(t) if t == "acc"));
    assert!(matches!(plan_auth(None, Some(stored(Some(100))), 90), AuthPlan::Refresh(_)));
    match plan_auth(None, None, 0) {
        AuthPlan::Missing(m) => assert_eq!(m, "Not authenticated. Run `seggwat login` or set --api-key / SEGGWAT_API_KEY environment variable."),
        other => panic!("unexpected {other:?}"),
    }
    assert_eq!(token_after_refresh::<()>(Ok(stored(None))), Ok("acc".to_string()));
    assert_eq!(token_after_refresh::<()>(Err(())), Err("Session expired. Run `seggwat login` to re-authenticate.".to_string()));
}

#[test]
fn project_commands() {
    let c = client();
    assert_eq!(project_request(&c, &ProjectCommand::List).url, "https://seggwat.com/api/v1/projects");
    assert_eq!(project_request(&c, &ProjectCommand::Get { project_id: "p".to_string() }).url, "https://seggwat.com/api/v1/projects/p");
    assert_eq!(project_request(&c, &ProjectCommand::Summary { project_id: "p".to_string() }).url, "https://seggwat.com/api/v1/projects/p/summary");
}

#[test]
fn feedback_list_sends_filter_labels() {
    let cmd = FeedbackCommand::List {
        project_id: "p".to_string(),
        page: 3,
        limit: 10,
        status: Some(FeedbackStatusArg::Hold),
        feedback_type: Some(FeedbackTypeArg::Feature),
        search: None,
    };
    let r = feedback_request(&client(), &cmd).unwrap();
    let q: Vec<(String, String)> = r.query.iter().map(|p| (p.name.clone(), p.value.clone())).collect();
    assert_eq!(q, vec![
        ("page".to_string(), "3".to_string()),
        ("limit".to_string(), "10".to_string()),
        ("status".to_string(), "Hold".to_string()),
        ("type".to_string(), "Feature".to_string()),
    ]);
}

#[test]
fn feedback_update_needs_a_change() {
    let nothing = FeedbackCommand::Update {
        project_id: "p".to_string(),
        feedback_id: "f".to_string(),
        message: None,
        feedback_type: None,
        status: None,
        resolution_note: None,
    };
    assert_eq!(
        feedback_request(&client(), &nothing).unwrap_err(),
        "Nothing to update. Provide at least one of --message, --type, --status, or --resolution-note."
    );
    let status_only = FeedbackCommand::Update {
        project_id: "p".to_string(),
        feedback_id: "f".to_string(),
        message: None,
        feedback_type: None,
        status: Some(FeedbackStatusArg::Closed),
        resolution_note: None,
    };
    let r = feedback_request(&client(), &status_only).unwrap();
    assert!(r.method == HttpMethod::Patch);
    assert_eq!(r.url, "https://seggwat.com/api/v1/projects/p/feedback/f");
    match r.body {
        RequestBody::UpdateFeedback(b) => {
            assert!(b.status == Some(FeedbackStatus::Closed));
            assert!(b.message.is_none() && b.feedback_type.is_none() && b.resolution_note.is_none());
        }
        _ => panic!("expected an update body"),
    }
}

#[test]
fn feedback_create_delete_stats() {
    let create = FeedbackCommand::Create {
        project_id: "p".to_string(),
        message: "Broken link".to_string(),
        feedback_type: Some(FeedbackTypeArg::Bug),
        path: Some("/docs".to_string()),
        version: None,
    };
    let r = feedback_request(&client(), &create).unwrap();
    assert!(r.method == HttpMethod::Post);
    match r.body {
        RequestBody::CreateFeedback(b) => {
            assert_eq!(b.message, "Broken link");
            assert!(b.feedback_type == Some(FeedbackType::Bug));
            assert_eq!(b.path.as_deref(), Some("/docs"));
        }
        _ => panic!("expected a create body"),
    }
    let del = feedback_request(&client(), &FeedbackCommand::Delete { project_id: "p".to_string(), feedback_id: "f".to_string() }).unwrap();
    assert!(del.method == HttpMethod::Delete);
    let stats = feedback_request(&client(), &FeedbackCommand::Stats { project_id: "p".to_string() }).unwrap();
    assert_eq!(stats.url, "https://seggwat.com/api/v1/projects/p/feedback/stats");
}

#[test]
fn rating_commands() {
    let c = client();
    let list = rating_request(&c, &RatingCommand::List { project_id: "p".to_string(), page: 1, limit: 20, rating_type: Some(RatingTypeArg::Nps), path: None });
    assert_eq!(list.query.len(), 3);
    assert_eq!(list.query[2].value, "nps");
    let nps = rating_request(&c, &RatingCommand::Stats { project_id: "p".to_string(), rating_type: RatingTypeArg::Nps });
    assert_eq!(nps.url, "https://seggwat.com/api/v1/projects/p/ratings/stats/nps");
    let helpful = rating_request(&c, &RatingCommand::Stats { project_id: "p".to_string(), rating_type: RatingTypeArg::Helpful });
    assert_eq!(helpful.url, "https://seggwat.com/api/v1/projects/p/ratings/stats");
    let get = rating_request(&c, &RatingCommand::Get { project_id: "p".to_string(), rating_id: "r".to_string() });
    assert_eq!(get.url, "https://seggwat.com/api/v1/projects/p/ratings/r");
}
