//! The requests the client sends to the SeggWat REST API and how it reads
//! the status of an answer.
//!
//! A [`SeggwatClient`] knows the API's base URL and the credentials; each
//! endpoint method describes its request as an [`ApiRequest`], which the
//! caller sends over HTTP.
use vstd::prelude::*;

use crate::error::CliError;
use crate::models::{ApiError, FeedbackCreateRequest, FeedbackUpdateRequest};
use crate::text::{decimal, decimal_string, push_decimal, strip_trailing, trim_end_char};

verus! {

// ============================================================================
// Requests
// ============================================================================

/// How the client proves who it is.
#[derive(Debug, Clone)]
pub enum AuthMethod {
    /// An organisation API key, sent as `X-API-Key`.
    ApiKey(String),
    /// An OAuth access token, sent as `Authorization: Bearer`.
    Bearer(String),
}

/// The HTTP method of a request.
#[derive(Debug, Clone, Copy, PartialEq, Eq, Structural)]
pub enum HttpMethod {
    Get,
    Post,
    Patch,
    Delete,
}

/// The JSON body of a request.
#[derive(Debug, Clone)]
pub enum RequestBody {
    Empty,
    CreateFeedback(FeedbackCreateRequest),
    UpdateFeedback(FeedbackUpdateRequest),
}

/// Trailing slashes of the base URL make no difference to the API root.
pub proof fn api_root_ignores_trailing_slash(base_url: Seq<char>)
    ensures
        api_root(base_url.push('/')) == api_root(base_url),
{
    assert(base_url.push('/').drop_last() =~= base_url);
}

/// A name with a value: a query parameter, a header or a form field.
#[derive(Debug, Clone)]
pub struct Pair {
    pub name: String,
    pub value: String,
}

/// A request to the API: method, URL, query parameters in order, the
/// authentication header and the body.
#[derive(Debug, Clone)]
pub struct ApiRequest {
    pub method: HttpMethod,
    pub url: String,
    pub query: Vec<Pair>,
    pub auth_header: Pair,
    pub body: RequestBody,
}

/// The views of a list of pairs.
pub open spec fn pairs_view(q: Seq<Pair>) -> Seq<(Seq<char>, Seq<char>)> {
    q.map_values(|p: Pair| (p.name@, p.value@))
}

/// A pair of these two texts.
pub fn pair(name: &str, value: &str) -> (p: Pair)
    ensures
        p.name@ == name@,
        p.value@ == value@,
{
    Pair { name: name.to_owned(), value: value.to_owned() }
}

/// The API root under a base URL: its trailing slashes go and `/api/v1`
/// follows.
pub open spec fn api_root(base_url: Seq<char>) -> Seq<char> {
    strip_trailing(base_url, '/') + "/api/v1"@
}

/// The header that carries a credential.
pub open spec fn auth_header_of(auth: AuthMethod) -> (Seq<char>, Seq<char>) {
    match auth {
        AuthMethod::ApiKey(key) => ("X-API-Key"@, key@),
        AuthMethod::Bearer(token) => ("Authorization"@, "Bearer "@ + token@),
    }
}

/// The query of a listing: page and limit, then each filter that is given.
pub open spec fn listing_query(
    page: u64,
    limit: u64,
    filters: Seq<(Seq<char>, Option<Seq<char>>)>,
) -> Seq<(Seq<char>, Seq<char>)>
    decreases filters.len(),
{
    if filters.len() == 0 {
        seq![("page"@, decimal(page as nat)), ("limit"@, decimal(limit as nat))]
    } else {
        let rest = listing_query(page, limit, filters.drop_last());
        match filters.last().1 {
            Some(v) => rest.push((filters.last().0, v)),
            None => rest,
        }
    }
}

/// A listing asks for the page and the limit first, then for each filter
/// that is given, and for nothing else: a filter left out is not sent.
pub proof fn listing_query_asks_for_the_given_filters(
    page: u64,
    limit: u64,
    filters: Seq<(Seq<char>, Option<Seq<char>>)>,
)
    ensures
        listing_query(page, limit, filters).len() >= 2,
        listing_query(page, limit, filters)[0] == ("page"@, decimal(page as nat)),
        listing_query(page, limit, filters)[1] == ("limit"@, decimal(limit as nat)),
        forall|i: int|
            0 <= i < filters.len() && (#[trigger] filters[i]).1 is Some ==> listing_query(
                page,
                limit,
                filters,
            ).contains((filters[i].0, filters[i].1->0)),
        forall|j: int|
            2 <= j < listing_query(page, limit, filters).len() ==> exists|i: int|
                0 <= i < filters.len() && (#[trigger] filters[i]).0 == (#[trigger] listing_query(
                    page,
                    limit,
                    filters,
                )[j]).0 && filters[i].1 == Some(listing_query(page, limit, filters)[j].1),
    decreases filters.len(),
{
    let q = listing_query(page, limit, filters);
    if filters.len() > 0 {
        let init = filters.drop_last();
        let rest = listing_query(page, limit, init);
        listing_query_asks_for_the_given_filters(page, limit, init);
        assert forall|i: int|
            0 <= i < filters.len() && (#[trigger] filters[i]).1 is Some implies q.contains(
                (filters[i].0, filters[i].1->0),
            ) by {
            if i < filters.len() - 1 {
                assert(init[i] == filters[i]);
                let k = choose|k: int| 0 <= k < rest.len() && rest[k] == (filters[i].0, filters[i].1->0);
                assert(q[k] == rest[k]);
            } else {
                assert(q[q.len() - 1] == (filters[i].0, filters[i].1->0));
            }
        }
        assert forall|j: int| 2 <= j < q.len() implies exists|i: int|
            0 <= i < filters.len() && (#[trigger] filters[i]).0 == (#[trigger] q[j]).0 && filters[i].1 == Some(
                q[j].1,
            ) by {
            if j < rest.len() {
                assert(q[j] == rest[j]);
                let i = choose|i: int|
                    0 <= i < init.len() && (#[trigger] init[i]).0 == rest[j].0 && init[i].1 == Some(
                        rest[j].1,
                    );
                assert(filters[i] == init[i]);
            } else {
                assert(filters[filters.len() - 1].0 == q[j].0);
            }
        }
    }
}

/// The view of an optional string argument.
pub open spec fn opt_view(o: Option<&str>) -> Option<Seq<char>> {
    match o {
        Some(s) => Some(s@),
        None => None,
    }
}

/// A client of the SeggWat REST API.
#[derive(Debug, Clone)]
pub struct SeggwatClient {
    /// The API root, ending in `/api/v1`.
    pub base_url: String,
    pub auth: AuthMethod,
}

impl SeggwatClient {
    /// `r` is a request of this client with this method, URL below the API
    /// root, and body, and no query.
    pub open spec fn plain_request(
        self,
        r: ApiRequest,
        method: HttpMethod,
        path: Seq<char>,
        body: RequestBody,
    ) -> bool {
        &&& r.method == method
        &&& r.url@ == self.base_url@ + path
        &&& r.query@.len() == 0
        &&& (r.auth_header.name@, r.auth_header.value@) == auth_header_of(self.auth)
        &&& r.body == body
    }

    /// `r` is a listing of this client: a `GET` of `path` below the API
    /// root with this query and no body.
    pub open spec fn listing_request(
        self,
        r: ApiRequest,
        path: Seq<char>,
        query: Seq<(Seq<char>, Seq<char>)>,
    ) -> bool {
        &&& r.method == HttpMethod::Get
        &&& r.url@ == self.base_url@ + path
        &&& pairs_view(r.query@) == query
        &&& (r.auth_header.name@, r.auth_header.value@) == auth_header_of(self.auth)
        &&& r.body == RequestBody::Empty
    }

    /// A client authenticated with an API key. `base_url` is the root URL
    /// (e.g. `https://seggwat.com`); `/api/v1` is appended.
    pub fn with_api_key(base_url: &str, api_key: String) -> (c: Self)
        ensures
            c.base_url@ == api_root(base_url@),
            c.auth == AuthMethod::ApiKey(api_key),
    {
        let mut base = trim_end_char(base_url, '/');
        base.append("/api/v1");
        SeggwatClient { base_url: base, auth: AuthMethod::ApiKey(api_key) }
    }

    /// A client authenticated with a Bearer token.
    pub fn with_bearer_token(base_url: &str, token: String) -> (c: Self)
        ensures
            c.base_url@ == api_root(base_url@),
            c.auth == AuthMethod::Bearer(token),
    {
        let mut base = trim_end_char(base_url, '/');
        base.append("/api/v1");
        SeggwatClient { base_url: base, auth: AuthMethod::Bearer(token) }
    }

    /// The header that carries this client's credential.
    pub fn auth_header(&self) -> (h: Pair)
        ensures
            (h.name@, h.value@) == auth_header_of(self.auth),
    {
        match &self.auth {
            AuthMethod::ApiKey(key) => Pair { name: String::from_str("X-API-Key"), value: key.clone() },
            AuthMethod::Bearer(token) => {
                let mut v = String::from_str("Bearer ");
                v.append(token.as_str());
                Pair { name: String::from_str("Authorization"), value: v }
            },
        }
    }

    fn request(&self, method: HttpMethod, url: String, query: Vec<Pair>, body: RequestBody) -> (r:
        ApiRequest)
        ensures
            r.method == method,
            r.url == url,
            r.query == query,
            (r.auth_header.name@, r.auth_header.value@) == auth_header_of(self.auth),
            r.body == body,
    {
        ApiRequest { method, url, query, auth_header: self.auth_header(), body }
    }

    /// The URL of `tail` below the API root.
    fn url_of(&self, tail: &str) -> (u: String)
        ensures
            u@ == self.base_url@ + tail@,
    {
        let mut u = self.base_url.clone();
        u.append(tail);
        u
    }

    /// The URL of `tail` below a project.
    fn project_url(&self, project_id: &str, tail: &str) -> (u: String)
        ensures
            u@ == self.base_url@ + project_path(project_id@, tail@),
    {
        let mut u = self.base_url.clone();
        u.append("/projects/");
        u.append(project_id);
        u.append(tail);
        assert(u@ =~= self.base_url@ + project_path(project_id@, tail@));
        u
    }

    /// The URL of an item in a collection of a project.
    fn item_url(&self, project_id: &str, collection: &str, item_id: &str) -> (u: String)
        ensures
            u@ == self.base_url@ + project_path(project_id@, collection@ + item_id@),
    {
        let mut u = self.project_url(project_id, collection);
        u.append(item_id);
        assert(u@ =~= self.base_url@ + project_path(project_id@, collection@ + item_id@));
        u
    }

    /// `GET /projects`
    pub fn list_projects(&self) -> (r: ApiRequest)
        ensures
            self.plain_request(r, HttpMethod::Get, "/projects"@, RequestBody::Empty),
    {
        self.request(HttpMethod::Get, self.url_of("/projects"), Vec::new(), RequestBody::Empty)
    }

    /// `GET /projects/{project_id}`
    pub fn get_project(&self, project_id: &str) -> (r: ApiRequest)
        ensures
            self.plain_request(r, HttpMethod::Get, project_path(project_id@, ""@), RequestBody::Empty),
    {
        self.request(HttpMethod::Get, self.project_url(project_id, ""), Vec::new(), RequestBody::Empty)
    }

    /// `GET /projects/{project_id}/summary`
    pub fn get_project_summary(&self, project_id: &str) -> (r: ApiRequest)
        ensures
            self.plain_request(
                r,
                HttpMethod::Get,
                project_path(project_id@, "/summary"@),
                RequestBody::Empty,
            ),
    {
        self.request(
            HttpMethod::Get,
            self.project_url(project_id, "/summary"),
            Vec::new(),
            RequestBody::Empty,
        )
    }

    /// `GET /projects/{project_id}/feedback` with page, limit and the
    /// filters that are given (`status`, `type`, `search`), in that order.
    pub fn list_feedback(
        &self,
        project_id: &str,
        page: u64,
        limit: u64,
        status: Option<&str>,
        feedback_type: Option<&str>,
        search: Option<&str>,
    ) -> (r: ApiRequest)
        ensures
            self.listing_request(
                r,
                project_path(project_id@, "/feedback"@),
                listing_query(
                    page,
                    limit,
                    seq![
                        ("status"@, opt_view(status)),
                        ("type"@, opt_view(feedback_type)),
                        ("search"@, opt_view(search)),
                    ],
                ),
            ),
    {
        let mut query: Vec<Pair> = Vec::new();
        query.push(Pair { name: String::from_str("page"), value: decimal_string(page) });
        query.push(Pair { name: String::from_str("limit"), value: decimal_string(limit) });
        proof {
            reveal_with_fuel(listing_query, 4);
        }
        let ghost base = pairs_view(query@);
        assert(base =~= listing_query(page, limit, Seq::empty()));
        if let Some(st) = status {
            query.push(pair("status", st));
        }
        let ghost after_status = pairs_view(query@);
        assert(after_status =~= listing_query(page, limit, seq![("status"@, opt_view(status))]));
        if let Some(t) = feedback_type {
            query.push(pair("type", t));
        }
        let ghost after_type = pairs_view(query@);
        assert(after_type =~= listing_query(
            page,
            limit,
            seq![("status"@, opt_view(status)), ("type"@, opt_view(feedback_type))],
        )) by {
            assert(seq![("status"@, opt_view(status)), ("type"@, opt_view(feedback_type))].drop_last()
                =~= seq![("status"@, opt_view(status))]);
        }
        if let Some(q) = search {
            query.push(pair("search", q));
        }
        assert(pairs_view(query@) =~= listing_query(
            page,
            limit,
            seq![
                ("status"@, opt_view(status)),
                ("type"@, opt_view(feedback_type)),
                ("search"@, opt_view(search)),
            ],
        )) by {
            assert(seq![
                ("status"@, opt_view(status)),
                ("type"@, opt_view(feedback_type)),
                ("search"@, opt_view(search)),
            ].drop_last() =~= seq![("status"@, opt_view(status)), ("type"@, opt_view(feedback_type))]);
        }
        self.request(HttpMethod::Get, self.project_url(project_id, "/feedback"), query, RequestBody::Empty)
    }

    /// `GET /projects/{project_id}/feedback/{feedback_id}`
    pub fn get_feedback(&self, project_id: &str, feedback_id: &str) -> (r: ApiRequest)
        ensures
            self.plain_request(
                r,
                HttpMethod::Get,
                project_path(project_id@, "/feedback/"@ + feedback_id@),
                RequestBody::Empty,
            ),
    {
        self.request(
            HttpMethod::Get,
            self.item_url(project_id, "/feedback/", feedback_id),
            Vec::new(),
            RequestBody::Empty,
        )
    }

    /// `POST /projects/{project_id}/feedback` with the new item as body.
    pub fn create_feedback(&self, project_id: &str, body: FeedbackCreateRequest) -> (r: ApiRequest)
        ensures
            self.plain_request(
                r,
                HttpMethod::Post,
                project_path(project_id@, "/feedback"@),
                RequestBody::CreateFeedback(body),
            ),
    {
        self.request(
            HttpMethod::Post,
            self.project_url(project_id, "/feedback"),
            Vec::new(),
            RequestBody::CreateFeedback(body),
        )
    }

    /// `PATCH /projects/{project_id}/feedback/{feedback_id}` with the
    /// changes as body.
    pub fn update_feedback(&self, project_id: &str, feedback_id: &str, body: FeedbackUpdateRequest) -> (r:
        ApiRequest)
        ensures
            self.plain_request(
                r,
                HttpMethod::Patch,
                project_path(project_id@, "/feedback/"@ + feedback_id@),
                RequestBody::UpdateFeedback(body),
            ),
    {
        self.request(
            HttpMethod::Patch,
            self.item_url(project_id, "/feedback/", feedback_id),
            Vec::new(),
            RequestBody::UpdateFeedback(body),
        )
    }

    /// `DELETE /projects/{project_id}/feedback/{feedback_id}`
    pub fn delete_feedback(&self, project_id: &str, feedback_id: &str) -> (r: ApiRequest)
        ensures
            self.plain_request(
                r,
                HttpMethod::Delete,
                project_path(project_id@, "/feedback/"@ + feedback_id@),
                RequestBody::Empty,
            ),
    {
        self.request(
            HttpMethod::Delete,
            self.item_url(project_id, "/feedback/", feedback_id),
            Vec::new(),
            RequestBody::Empty,
        )
    }

    /// `GET /projects/{project_id}/feedback/stats`
    pub fn get_feedback_stats(&self, project_id: &str) -> (r: ApiRequest)
        ensures
            self.plain_request(
                r,
                HttpMethod::Get,
                project_path(project_id@, "/feedback/stats"@),
                RequestBody::Empty,
            ),
    {
        self.request(
            HttpMethod::Get,
            self.project_url(project_id, "/feedback/stats"),
            Vec::new(),
            RequestBody::Empty,
        )
    }

    /// `GET /projects/{project_id}/ratings` with page, limit and the
    /// filters that are given (`type`, `path`), in that order.
    pub fn list_ratings(
        &self,
        project_id: &str,
        page: u64,
        limit: u64,
        rating_type: Option<&str>,
        path: Option<&str>,
    ) -> (r: ApiRequest)
        ensures
            self.listing_request(
                r,
                project_path(project_id@, "/ratings"@),
                listing_query(
                    page,
                    limit,
                    seq![("type"@, opt_view(rating_type)), ("path"@, opt_view(path))],
                ),
            ),
    {
        let mut query: Vec<Pair> = Vec::new();
        query.push(Pair { name: String::from_str("page"), value: decimal_string(page) });
        query.push(Pair { name: String::from_str("limit"), value: decimal_string(limit) });
        proof {
            reveal_with_fuel(listing_query, 3);
        }
        let ghost base = pairs_view(query@);
        assert(base =~= listing_query(page, limit, Seq::empty()));
        if let Some(t) = rating_type {
            query.push(pair("type", t));
        }
        let ghost after_type = pairs_view(query@);
        assert(after_type =~= listing_query(page, limit, seq![("type"@, opt_view(rating_type))]));
        if let Some(p) = path {
            query.push(pair("path", p));
        }
        assert(pairs_view(query@) =~= listing_query(
            page,
            limit,
            seq![("type"@, opt_view(rating_type)), ("path"@, opt_view(path))],
        )) by {
            assert(seq![("type"@, opt_view(rating_type)), ("path"@, opt_view(path))].drop_last()
                =~= seq![("type"@, opt_view(rating_type))]);
        }
        self.request(HttpMethod::Get, self.project_url(project_id, "/ratings"), query, RequestBody::Empty)
    }

    /// `GET /projects/{project_id}/ratings/{rating_id}`
    pub fn get_rating(&self, project_id: &str, rating_id: &str) -> (r: ApiRequest)
        ensures
            self.plain_request(
                r,
                HttpMethod::Get,
                project_path(project_id@, "/ratings/"@ + rating_id@),
                RequestBody::Empty,
            ),
    {
        self.request(
            HttpMethod::Get,
            self.item_url(project_id, "/ratings/", rating_id),
            Vec::new(),
            RequestBody::Empty,
        )
    }

    /// `DELETE /projects/{project_id}/ratings/{rating_id}`
    pub fn delete_rating(&self, project_id: &str, rating_id: &str) -> (r: ApiRequest)
        ensures
            self.plain_request(
                r,
                HttpMethod::Delete,
                project_path(project_id@, "/ratings/"@ + rating_id@),
                RequestBody::Empty,
            ),
    {
        self.request(
            HttpMethod::Delete,
            self.item_url(project_id, "/ratings/", rating_id),
            Vec::new(),
            RequestBody::Empty,
        )
    }

    /// `GET /projects/{project_id}/ratings/stats` (helpful ratings)
    pub fn get_helpful_stats(&self, project_id: &str) -> (r: ApiRequest)
        ensures
            self.plain_request(
                r,
                HttpMethod::Get,
                project_path(project_id@, "/ratings/stats"@),
                RequestBody::Empty,
            ),
    {
        self.request(
            HttpMethod::Get,
            self.project_url(project_id, "/ratings/stats"),
            Vec::new(),
            RequestBody::Empty,
        )
    }

    /// `GET /projects/{project_id}/ratings/stats/star`
    pub fn get_star_stats(&self, project_id: &str) -> (r: ApiRequest)
        ensures
            self.plain_request(
                r,
                HttpMethod::Get,
                project_path(project_id@, "/ratings/stats/star"@),
                RequestBody::Empty,
            ),
    {
        self.request(
            HttpMethod::Get,
            self.project_url(project_id, "/ratings/stats/star"),
            Vec::new(),
            RequestBody::Empty,
        )
    }

    /// `GET /projects/{project_id}/ratings/stats/nps`
    pub fn get_nps_stats(&self, project_id: &str) -> (r: ApiRequest)
        ensures
            self.plain_request(
                r,
                HttpMethod::Get,
                project_path(project_id@, "/ratings/stats/nps"@),
                RequestBody::Empty,
            ),
    {
        self.request(
            HttpMethod::Get,
            self.project_url(project_id, "/ratings/stats/nps"),
            Vec::new(),
            RequestBody::Empty,
        )
    }

    /// `GET /me`
    pub fn whoami(&self) -> (r: ApiRequest)
        ensures
            self.plain_request(r, HttpMethod::Get, "/me"@, RequestBody::Empty),
    {
        self.request(HttpMethod::Get, self.url_of("/me"), Vec::new(), RequestBody::Empty)
    }
}

/// The path of `tail` below a project.
pub open spec fn project_path(project_id: Seq<char>, tail: Seq<char>) -> Seq<char> {
    "/projects/"@ + project_id + tail
}

// ============================================================================
// Answers
// ============================================================================

/// A status in the 2xx range.
pub open spec fn is_success(status: u16) -> bool {
    200 <= status <= 299
}

/// Whether an answer with this status carries what was asked for; an
/// answer without content (204) is one of them.
pub fn status_is_success(status: u16) -> (res: bool)
    ensures
        res == is_success(status),
{
    200 <= status && status <= 299
}

/// The reason phrase that the HTTP registry gives a status, as
/// `StatusCode::canonical_reason` knows it.
pub uninterp spec fn canonical_reason(status: u16) -> Option<Seq<char>>;

/// `StatusCode::canonical_reason` of the `http` crate (re-exported by
/// `reqwest`), on the code `StatusCode::from_u16` makes of `status`: the
/// registered reason phrase of a status, or nothing, also for a number
/// outside 100 to 999 that is no status. The table is named, not stated.
#[verifier::external_body]
fn status_reason(status: u16) -> (res: Option<&'static str>)
    ensures
        opt_view(res) == canonical_reason(status),
{
    match reqwest::StatusCode::from_u16(status) {
        Ok(code) => code.canonical_reason(),
        Err(_) => None,
    }
}

/// How a status displays: its number, then its reason phrase.
pub open spec fn status_text(status: u16) -> Seq<char> {
    decimal(status as nat) + " "@ + match canonical_reason(status) {
        Some(reason) => reason,
        None => "<unknown status code>"@,
    }
}

/// The message of a failed answer: the API's own message when the body
/// held one, else `HTTP` and the status.
pub open spec fn failure_message(status: u16, api_error: Option<ApiError>) -> Seq<char> {
    match api_error {
        Some(e) => e.message@,
        None => "HTTP "@ + status_text(status),
    }
}

/// The error for a failed answer: 401, 403, 404 and 400 have errors of
/// their own; any other status is a server error that keeps the status.
pub open spec fn error_for_status(e: CliError, status: u16, message: Seq<char>) -> bool {
    if status == 401 {
        e matches CliError::Unauthorized { message: m } && m@ == message
    } else if status == 403 {
        e matches CliError::Forbidden { message: m } && m@ == message
    } else if status == 404 {
        e matches CliError::NotFound { message: m } && m@ == message
    } else if status == 400 {
        e matches CliError::BadRequest { message: m } && m@ == message
    } else {
        e matches CliError::ServerError { status: s, message: m } && s == status && m@ == message
    }
}

/// The error for a failed answer with this status and, when its body could
/// be read as one, the API's error body.
pub fn map_error(status: u16, api_error: Option<ApiError>) -> (e: CliError)
    ensures
        error_for_status(e, status, failure_message(status, api_error)),
{
    let message = match api_error {
        Some(err) => err.message,
        None => {
            let mut m = String::from_str("HTTP ");
            push_decimal(&mut m, status as u64);
            m.append(" ");
            match status_reason(status) {
                Some(reason) => m.append(reason),
                None => m.append("<unknown status code>"),
            }
            assert(m@ =~= "HTTP "@ + status_text(status));
            m
        },
    };
    assert(message@ == failure_message(status, api_error));
    if status == 401 {
        CliError::Unauthorized { message }
    } else if status == 403 {
        CliError::Forbidden { message }
    } else if status == 404 {
        CliError::NotFound { message }
    } else if status == 400 {
        CliError::BadRequest { message }
    } else {
        CliError::ServerError { status, message }
    }
}

/// The verdict on an answer's status: nothing to report for a success,
/// else the error the status and body call for.
pub fn check_status(status: u16, api_error: Option<ApiError>) -> (res: Result<(), CliError>)
    ensures
        res is Ok <==> is_success(status),
        res matches Err(e) ==> error_for_status(e, status, failure_message(status, api_error)),
{
    if status_is_success(status) {
        Ok(())
    } else {
        Err(map_error(status, api_error))
    }
}

} // verus!
