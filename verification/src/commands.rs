//! What each command asks of the API, and how the login finds its identity
//! provider.
use vstd::prelude::*;

use crate::auth::{expired_at, is_expired_at, TokenStore};
use crate::cli::{
    FeedbackCommand, FeedbackStatusArg, FeedbackTypeArg, ProjectCommand, RatingCommand,
    RatingTypeArg,
};
use crate::client::{
    listing_query, project_path, ApiRequest, HttpMethod, RequestBody, SeggwatClient,
};
use crate::models::{FeedbackCreateRequest, FeedbackStatus, FeedbackType, FeedbackUpdateRequest};
use crate::text::{clone_opt, concat3, contains, contains_seq, own};

verus! {

// ============================================================================
// Identity provider of a login
// ============================================================================

/// The identity provider of the hosted SeggWat service.
pub const SAAS_ZITADEL_DOMAIN: &'static str = "id.oxidt.com";

/// The OAuth client of the command-line tool at the hosted service.
pub const SAAS_CLIENT_ID: &'static str = "364773505570443267";

/// The identity provider for the API at `api_url`: the one given, the
/// hosted one for the hosted API, a local one for a local API; otherwise
/// the message asking for one.
pub open spec fn zitadel_domain_for(api_url: Seq<char>, given: Option<Seq<char>>) -> Result<
    Seq<char>,
    Seq<char>,
> {
    match given {
        Some(d) => Ok(d),
        None => if contains_seq(api_url, "seggwat.com"@) {
            Ok(SAAS_ZITADEL_DOMAIN@)
        } else if contains_seq(api_url, "localhost"@) || contains_seq(api_url, "127.0.0.1"@) {
            Ok("localhost:8085"@)
        } else {
            Err(
                "Cannot auto-detect Zitadel domain for '"@ + api_url
                    + "'.\nUse --zitadel-domain or set SEGGWAT_ZITADEL_DOMAIN."@,
            )
        },
    }
}

/// The OAuth client for the API at `api_url`: the one given, or the hosted
/// service's one for the hosted API; otherwise the message asking for one.
pub open spec fn client_id_for(api_url: Seq<char>, given: Option<Seq<char>>) -> Result<
    Seq<char>,
    Seq<char>,
> {
    match given {
        Some(id) => Ok(id),
        None => if contains_seq(api_url, "seggwat.com"@) {
            Ok(SAAS_CLIENT_ID@)
        } else {
            Err("OAuth client ID required for non-SaaS instances.\nUse --client-id or set SEGGWAT_CLIENT_ID."@)
        },
    }
}

/// The view of a resolution.
pub open spec fn resolved_view(r: Result<String, String>) -> Result<Seq<char>, Seq<char>> {
    match r {
        Ok(s) => Ok(s@),
        Err(m) => Err(m@),
    }
}

/// The identity provider to log in with.
pub fn resolve_zitadel_domain(api_url: &str, override_domain: Option<&str>) -> (res: Result<
    String,
    String,
>)
    ensures
        resolved_view(res) == zitadel_domain_for(api_url@, crate::client::opt_view(override_domain)),
{
    if let Some(domain) = override_domain {
        return Ok(own(domain));
    }
    if contains(api_url, "seggwat.com") {
        return Ok(own(SAAS_ZITADEL_DOMAIN));
    }
    if contains(api_url, "localhost") || contains(api_url, "127.0.0.1") {
        return Ok(String::from_str("localhost:8085"));
    }
    Err(
        concat3(
            "Cannot auto-detect Zitadel domain for '",
            api_url,
            "'.\nUse --zitadel-domain or set SEGGWAT_ZITADEL_DOMAIN.",
        ),
    )
}

/// The OAuth client to log in as.
pub fn resolve_client_id(api_url: &str, override_id: Option<&str>) -> (res: Result<String, String>)
    ensures
        resolved_view(res) == client_id_for(api_url@, crate::client::opt_view(override_id)),
{
    if let Some(id) = override_id {
        return Ok(own(id));
    }
    if contains(api_url, "seggwat.com") {
        return Ok(own(SAAS_CLIENT_ID));
    }
    Err(
        String::from_str(
            "OAuth client ID required for non-SaaS instances.\nUse --client-id or set SEGGWAT_CLIENT_ID.",
        ),
    )
}

// ============================================================================
// Credentials
// ============================================================================

/// How the client will authenticate.
#[derive(Debug, Clone)]
pub enum AuthPlan {
    /// With this API key.
    ApiKey(String),
    /// With this stored access token, still valid.
    Token(String),
    /// After refreshing the stored tokens, which have expired.
    Refresh(TokenStore),
    /// Not at all; the message to show.
    Missing(String),
}

/// An API key wins over stored tokens; stored tokens that have expired at
/// `now` are refreshed first.
pub fn plan_auth(api_key: Option<String>, stored: Option<TokenStore>, now: i64) -> (res: AuthPlan)
    requires
        stored matches Some(st) ==> (st.expires_at matches Some(exp) ==> exp >= i64::MIN + 30),
    ensures
        match api_key {
            Some(k) => res == AuthPlan::ApiKey(k),
            None => match stored {
                Some(st) => if expired_at(st.expires_at, now) {
                    res == AuthPlan::Refresh(st)
                } else {
                    res == AuthPlan::Token(st.access_token)
                },
                None => res matches AuthPlan::Missing(m) && m@
                    == "Not authenticated. Run `seggwat login` or set --api-key / SEGGWAT_API_KEY environment variable."@,
            },
        },
{
    match api_key {
        Some(k) => AuthPlan::ApiKey(k),
        None => match stored {
            Some(st) => if is_expired_at(&st, now) {
                AuthPlan::Refresh(st)
            } else {
                AuthPlan::Token(st.access_token)
            },
            None => AuthPlan::Missing(
                String::from_str(
                    "Not authenticated. Run `seggwat login` or set --api-key / SEGGWAT_API_KEY environment variable.",
                ),
            ),
        },
    }
}

/// The access token after a refresh, or the message that sends the user
/// back to `seggwat login` when the refresh failed.
pub fn token_after_refresh<E>(refreshed: Result<TokenStore, E>) -> (res: Result<String, String>)
    ensures
        match refreshed {
            Ok(st) => res == Ok::<String, String>(st.access_token),
            Err(_) => res matches Err(m) && m@
                == "Session expired. Run `seggwat login` to re-authenticate."@,
        },
{
    match refreshed {
        Ok(st) => Ok(st.access_token),
        Err(_) => Err(String::from_str("Session expired. Run `seggwat login` to re-authenticate.")),
    }
}

// ============================================================================
// Commands as requests
// ============================================================================

/// The status an optional option value names.
pub open spec fn status_of(s: Option<FeedbackStatusArg>) -> Option<FeedbackStatus> {
    match s {
        Some(a) => Some(a.model()),
        None => None,
    }
}

/// The type an optional option value names.
pub open spec fn type_of(t: Option<FeedbackTypeArg>) -> Option<FeedbackType> {
    match t {
        Some(a) => Some(a.model()),
        None => None,
    }
}

/// The label an optional option value is sent as.
pub open spec fn status_label_of(s: Option<FeedbackStatusArg>) -> Option<Seq<char>> {
    match s {
        Some(a) => Some(a.label()),
        None => None,
    }
}

/// The label an optional option value is sent as.
pub open spec fn type_label_of(t: Option<FeedbackTypeArg>) -> Option<Seq<char>> {
    match t {
        Some(a) => Some(a.label()),
        None => None,
    }
}

/// The label an optional rating type is sent as.
pub open spec fn rating_label_of(t: Option<RatingTypeArg>) -> Option<Seq<char>> {
    match t {
        Some(a) => Some(a.label()),
        None => None,
    }
}

/// The view of an optional string.
pub open spec fn opt_string_view(o: Option<String>) -> Option<Seq<char>> {
    match o {
        Some(s) => Some(s@),
        None => None,
    }
}

fn status_label(s: &Option<FeedbackStatusArg>) -> (res: Option<&'static str>)
    ensures
        crate::client::opt_view(res) == status_label_of(*s),
{
    match s {
        Some(a) => Some(a.as_str()),
        None => None,
    }
}

fn type_label(t: &Option<FeedbackTypeArg>) -> (res: Option<&'static str>)
    ensures
        crate::client::opt_view(res) == type_label_of(*t),
{
    match t {
        Some(a) => Some(a.as_str()),
        None => None,
    }
}

fn rating_label(t: &Option<RatingTypeArg>) -> (res: Option<&'static str>)
    ensures
        crate::client::opt_view(res) == rating_label_of(*t),
{
    match t {
        Some(a) => Some(a.as_str()),
        None => None,
    }
}

fn str_opt(o: &Option<String>) -> (res: Option<&str>)
    ensures
        crate::client::opt_view(res) == opt_string_view(*o),
{
    match o {
        Some(s) => Some(s.as_str()),
        None => None,
    }
}

/// The request of a `project` command.
pub fn project_request(client: &SeggwatClient, command: &ProjectCommand) -> (r: ApiRequest)
    ensures
        match *command {
            ProjectCommand::List => client.plain_request(
                r,
                HttpMethod::Get,
                "/projects"@,
                RequestBody::Empty,
            ),
            ProjectCommand::Get { project_id } => client.plain_request(
                r,
                HttpMethod::Get,
                project_path(project_id@, ""@),
                RequestBody::Empty,
            ),
            ProjectCommand::Summary { project_id } => client.plain_request(
                r,
                HttpMethod::Get,
                project_path(project_id@, "/summary"@),
                RequestBody::Empty,
            ),
        },
{
    match command {
        ProjectCommand::List => client.list_projects(),
        ProjectCommand::Get { project_id } => client.get_project(project_id.as_str()),
        ProjectCommand::Summary { project_id } => client.get_project_summary(project_id.as_str()),
    }
}

/// What an update asks to change: `None` when it asks to change nothing.
pub open spec fn update_body_of(
    message: Option<String>,
    feedback_type: Option<FeedbackTypeArg>,
    status: Option<FeedbackStatusArg>,
    resolution_note: Option<String>,
) -> Option<FeedbackUpdateRequest> {
    if message is None && feedback_type is None && status is None && resolution_note is None {
        None
    } else {
        Some(
            FeedbackUpdateRequest {
                message,
                feedback_type: type_of(feedback_type),
                status: status_of(status),
                resolution_note,
            },
        )
    }
}

/// The message of an update that changes nothing.
pub open spec fn nothing_to_update() -> Seq<char> {
    "Nothing to update. Provide at least one of --message, --type, --status, or --resolution-note."@
}

/// The request of a `feedback` command, or the message of an update that
/// asks to change nothing.
pub fn feedback_request(client: &SeggwatClient, command: &FeedbackCommand) -> (res: Result<
    ApiRequest,
    String,
>)
    ensures
        match *command {
            FeedbackCommand::List { project_id, page, limit, status, feedback_type, search } => res matches Ok(r)
                && client.listing_request(
                r,
                project_path(project_id@, "/feedback"@),
                listing_query(
                    page,
                    limit,
                    seq![
                        ("status"@, status_label_of(status)),
                        ("type"@, type_label_of(feedback_type)),
                        ("search"@, opt_string_view(search)),
                    ],
                ),
            ),
            FeedbackCommand::Get { project_id, feedback_id } => res matches Ok(r)
                && client.plain_request(
                r,
                HttpMethod::Get,
                project_path(project_id@, "/feedback/"@ + feedback_id@),
                RequestBody::Empty,
            ),
            FeedbackCommand::Create { project_id, message, feedback_type, path, version } => res matches Ok(r)
                && client.plain_request(
                r,
                HttpMethod::Post,
                project_path(project_id@, "/feedback"@),
                RequestBody::CreateFeedback(
                    FeedbackCreateRequest {
                        message,
                        feedback_type: type_of(feedback_type),
                        path,
                        version,
                    },
                ),
            ),
            FeedbackCommand::Update {
                project_id,
                feedback_id,
                message,
                feedback_type,
                status,
                resolution_note,
            } => match update_body_of(message, feedback_type, status, resolution_note) {
                Some(body) => res matches Ok(r) && client.plain_request(
                    r,
                    HttpMethod::Patch,
                    project_path(project_id@, "/feedback/"@ + feedback_id@),
                    RequestBody::UpdateFeedback(body),
                ),
                None => res matches Err(m) && m@ == nothing_to_update(),
            },
            FeedbackCommand::Delete { project_id, feedback_id } => res matches Ok(r)
                && client.plain_request(
                r,
                HttpMethod::Delete,
                project_path(project_id@, "/feedback/"@ + feedback_id@),
                RequestBody::Empty,
            ),
            FeedbackCommand::Stats { project_id } => res matches Ok(r) && client.plain_request(
                r,
                HttpMethod::Get,
                project_path(project_id@, "/feedback/stats"@),
                RequestBody::Empty,
            ),
        },
        command matches FeedbackCommand::Update { .. } ==> (res is Err <==> (command->Update_message is None
            && command->Update_feedback_type is None && command->Update_status is None
            && command->Update_resolution_note is None)),
        command matches FeedbackCommand::Update { .. } && res is Ok ==> (res->Ok_0.body matches RequestBody::UpdateFeedback(b)
            && b.message == command->Update_message
            && b.resolution_note == command->Update_resolution_note
            && (match command->Update_status {
                Some(a) => b.status == Some(a.model()),
                None => b.status is None,
            })
            && (match command->Update_feedback_type {
                Some(a) => b.feedback_type == Some(a.model()),
                None => b.feedback_type is None,
            })),
        command matches FeedbackCommand::Create { .. } ==> res is Ok && (res->Ok_0.body matches RequestBody::CreateFeedback(b)
            && b.message == command->Create_message && b.path == command->Create_path
            && b.version == command->Create_version
            && (match command->Create_feedback_type {
                Some(a) => b.feedback_type == Some(a.model()),
                None => b.feedback_type is None,
            })),
        !(command is Update) ==> res is Ok,
{
    match command {
        FeedbackCommand::List { project_id, page, limit, status, feedback_type, search } => Ok(
            client.list_feedback(
                project_id.as_str(),
                *page,
                *limit,
                status_label(status),
                type_label(feedback_type),
                str_opt(search),
            ),
        ),
        FeedbackCommand::Get { project_id, feedback_id } => Ok(
            client.get_feedback(project_id.as_str(), feedback_id.as_str()),
        ),
        FeedbackCommand::Create { project_id, message, feedback_type, path, version } => {
            let body = FeedbackCreateRequest {
                message: message.clone(),
                feedback_type: match feedback_type {
                    Some(t) => Some(t.to_model()),
                    None => None,
                },
                path: clone_opt(path),
                version: clone_opt(version),
            };
            Ok(client.create_feedback(project_id.as_str(), body))
        },
        FeedbackCommand::Update {
            project_id,
            feedback_id,
            message,
            feedback_type,
            status,
            resolution_note,
        } => {
            if message.is_none() && feedback_type.is_none() && status.is_none()
                && resolution_note.is_none() {
                return Err(
                    String::from_str(
                        "Nothing to update. Provide at least one of --message, --type, --status, or --resolution-note.",
                    ),
                );
            }
            let body = FeedbackUpdateRequest {
                message: clone_opt(message),
                feedback_type: match feedback_type {
                    Some(t) => Some(t.to_model()),
                    None => None,
                },
                status: match status {
                    Some(s) => Some(s.to_model()),
                    None => None,
                },
                resolution_note: clone_opt(resolution_note),
            };
            Ok(client.update_feedback(project_id.as_str(), feedback_id.as_str(), body))
        },
        FeedbackCommand::Delete { project_id, feedback_id } => Ok(
            client.delete_feedback(project_id.as_str(), feedback_id.as_str()),
        ),
        FeedbackCommand::Stats { project_id } => Ok(
            client.get_feedback_stats(project_id.as_str()),
        ),
    }
}

/// The request of a `rating` command.
pub fn rating_request(client: &SeggwatClient, command: &RatingCommand) -> (r: ApiRequest)
    ensures
        match *command {
            RatingCommand::List { project_id, page, limit, rating_type, path } => client.listing_request(
                r,
                project_path(project_id@, "/ratings"@),
                listing_query(
                    page,
                    limit,
                    seq![("type"@, rating_label_of(rating_type)), ("path"@, opt_string_view(path))],
                ),
            ),
            RatingCommand::Get { project_id, rating_id } => client.plain_request(
                r,
                HttpMethod::Get,
                project_path(project_id@, "/ratings/"@ + rating_id@),
                RequestBody::Empty,
            ),
            RatingCommand::Delete { project_id, rating_id } => client.plain_request(
                r,
                HttpMethod::Delete,
                project_path(project_id@, "/ratings/"@ + rating_id@),
                RequestBody::Empty,
            ),
            RatingCommand::Stats { project_id, rating_type } => client.plain_request(
                r,
                HttpMethod::Get,
                project_path(
                    project_id@,
                    match rating_type {
                        RatingTypeArg::Helpful => "/ratings/stats"@,
                        RatingTypeArg::Star => "/ratings/stats/star"@,
                        RatingTypeArg::Nps => "/ratings/stats/nps"@,
                    },
                ),
                RequestBody::Empty,
            ),
        },
{
    match command {
        RatingCommand::List { project_id, page, limit, rating_type, path } => client.list_ratings(
            project_id.as_str(),
            *page,
            *limit,
            rating_label(rating_type),
            str_opt(path),
        ),
        RatingCommand::Get { project_id, rating_id } => client.get_rating(
            project_id.as_str(),
            rating_id.as_str(),
        ),
        RatingCommand::Delete { project_id, rating_id } => client.delete_rating(
            project_id.as_str(),
            rating_id.as_str(),
        ),
        RatingCommand::Stats { project_id, rating_type } => match rating_type {
            RatingTypeArg::Helpful => client.get_helpful_stats(project_id.as_str()),
            RatingTypeArg::Star => client.get_star_stats(project_id.as_str()),
            RatingTypeArg::Nps => client.get_nps_stats(project_id.as_str()),
        },
    }
}

/// An option value names the model value of the same name, and is sent as
/// that name.
pub proof fn option_values_name_their_models(
    s: Option<FeedbackStatusArg>,
    t: Option<FeedbackTypeArg>,
    r: Option<RatingTypeArg>,
)
    ensures
        s is None ==> status_of(s) is None && status_label_of(s) is None,
        t is None ==> type_of(t) is None && type_label_of(t) is None,
        r is None ==> rating_label_of(r) is None,
        s matches Some(a) ==> status_of(s) == Some(a.model()) && status_label_of(s) == Some(
            a.model().label(),
        ),
        t matches Some(a) ==> type_of(t) == Some(a.model()) && type_label_of(t) == Some(
            a.model().label(),
        ),
        r matches Some(a) ==> rating_label_of(r) == Some(a.model().label()),
{
}

/// An update asks to change exactly what the command line gives, and is
/// refused only when it gives nothing to change.
pub proof fn update_body_carries_the_options(
    message: Option<String>,
    feedback_type: Option<FeedbackTypeArg>,
    status: Option<FeedbackStatusArg>,
    resolution_note: Option<String>,
)
    ensures
        update_body_of(message, feedback_type, status, resolution_note) is None <==> (message is None
            && feedback_type is None && status is None && resolution_note is None),
        update_body_of(message, feedback_type, status, resolution_note) matches Some(b) ==> b.message
            == message && b.resolution_note == resolution_note && (status matches Some(a) ==> b.status
            == Some(a.model())) && (status is None ==> b.status is None) && (feedback_type matches Some(
            a,
        ) ==> b.feedback_type == Some(a.model())) && (feedback_type is None ==> b.feedback_type is None),
{
}

/// The identity provider the user names, or the client id the user names,
/// is the one used, whatever the API URL.
pub proof fn given_identity_provider_wins(api_url: Seq<char>, domain: Seq<char>, client_id: Seq<char>)
    ensures
        zitadel_domain_for(api_url, Some(domain)) == Ok::<Seq<char>, Seq<char>>(domain),
        client_id_for(api_url, Some(client_id)) == Ok::<Seq<char>, Seq<char>>(client_id),
{
}

} // verus!
