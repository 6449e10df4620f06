use seggwat_cli::auth::{
    authorize_url, code_exchange_request, decode_or_raw, generate_pkce, generate_state,
    http_response, is_expired, is_expired_at, join_path, login_tokens, oauth_scheme, parse_callback,
    pkce_from_bytes, redirect_uri, refresh_request, refreshed_tokens, second_word_of,
    split_once_char, split_str, token_path_from, token_url, TokenReply, TokenResponse,
    TokenStore, OAUTH_SCOPES,
};
use seggwat_cli::error::CliError;

fn store(refresh: Option<&str>, expires_at: Option<i64>) -> TokenStore {
    TokenStore {
        access_token: "old-access".to_string(),
        refresh_token: refresh.map(|s| s.to_string()),
        expires_at,
        api_url: "https://seggwat.com".to_string(),
        zitadel_domain: "id.oxidt.com".to_string(),
        client_id: "cid".to_string(),
    }
}

fn granted(refresh: Option<&str>, expires_in: Option<i64>) -> TokenReply {
    TokenReply::Granted(TokenResponse {
        access_token: "new-access".to_string(),
        refresh_token: refresh.map(|s| s.to_string()),
        expires_in,
    })
}

fn login_message(r: Result<TokenStore, CliError>) -> String {
    match r {
        Err(CliError::LoginFailed { message }) => message,
        other => panic!("unexpected {other:?}"),
    }
}

fn refresh_message(r: Result<TokenStore, CliError>) -> String {
    match r {
        Err(CliError::TokenRefreshFailed { message }) => message,
        other => panic!("unexpected {other:?}"),
    }
}

#[test]
fn pkce_pair_from_known_bytes() {
    let bytes: Vec<u8> = (0u8..32).collect();
    let (verifier, challenge) = pkce_from_bytes(&bytes);
    assert_eq!(verifier, "AAECAwQFBgcICQoLDA0ODxAREhMUFRYXGBkaGxwdHh8");
    assert_eq!(challenge, "6oZqdX5MOLq_qBJ8vppAnT4fk6AP8UiP9zX8-Rev_9A");
}

#[test]
fn fresh_pkce_and_state() {
    let (v1, c1) = generate_pkce();
    let (v2, _) = generate_pkce();
    assert_eq!(v1.len(), 43);
    assert_eq!(c1.len(), 43);
    assert_ne!(v1, v2);
    assert_ne!(v1, c1);
    let s = generate_state();
    assert_eq!(s.len(), 22);
    assert!(s.chars().all(|c| c.is_ascii_alphanumeric() || c == '-' || c == '_'));
}

#[test]
fn expiry_has_a_thirty_second_margin() {
    assert!(!is_expired_at(&store(None, Some(1000)), 969));
    assert!(is_expired_at(&store(None, Some(1000)), 970));
    assert!(is_expired_at(&store(None, Some(1000)), 5000));
    assert!(!is_expired_at(&store(None, None), i64::MAX));
}

#[test]
fn expiry_against_the_clock() {
    assert!(is_expired(&store(None, Some(0))));
    assert!(!is_expired(&store(None, Some(i64::MAX))));
    assert!(!is_expired(&store(None, None)));
}

#[test]
fn identity_provider_urls() {
    assert_eq!(oauth_scheme("localhost:8085"), "http");
    assert_eq!(oauth_scheme("127.0.0.1:9000"), "http");
    assert_eq!(oauth_scheme("id.oxidt.com"), "https");
    assert_eq!(token_url("localhost:8085"), "http://localhost:8085/oauth/v2/token");
    assert_eq!(token_url("id.oxidt.com"), "https://id.oxidt.com/oauth/v2/token");
    assert_eq!(redirect_uri(53124), "http://localhost:53124");
    assert!(OAUTH_SCOPES.contains("offline_access"));
}

#[test]
fn authorize_url_encodes_redirect_and_scopes() {
    let url = authorize_url("id.oxidt.com", "cid", "http://localhost:8080", "CH", "ST");
    assert_eq!(
        url,
        "https://id.oxidt.com/oauth/v2/authorize?client_id=cid\
         &redirect_uri=http%3A%2F%2Flocalhost%3A8080\
         &response_type=code\
         &scope=openid%20profile%20email%20offline_access%20urn%3Azitadel%3Aiam%3Aorg%3Aproject%3Aid%3Azitadel%3Aaud\
         &code_challenge=CH&code_challenge_method=S256&state=ST"
    );
}

#[test]
fn token_requests() {
    let r = code_exchange_request("localhost:8085", "cid", "the-code", "http://localhost:1", "ver");
    assert_eq!(r.url, "http://localhost:8085/oauth/v2/token");
    let form: Vec<(String, String)> = r.form.iter().map(|p| (p.name.clone(), p.value.clone())).collect();
    assert_eq!(form[0], ("grant_type".to_string(), "authorization_code".to_string()));
    assert_eq!(form[2], ("code".to_string(), "the-code".to_string()));
    assert_eq!(form[4], ("code_verifier".to_string(), "ver".to_string()));

    let refresh = refresh_request(&store(Some("rt"), None)).unwrap();
    assert_eq!(refresh.url, "https://id.oxidt.com/oauth/v2/token");
    assert_eq!(refresh.form.len(), 3);
    assert_eq!(refresh.form[2].value, "rt");
    assert_eq!(refresh_message(refresh_request(&store(None, None)).map(|_| store(None, None))), "No refresh token available");
}

#[test]
fn login_answers() {
    let ok = login_tokens(granted(Some("r"), Some(3600)), 1000, "https://seggwat.com", "id.oxidt.com", "cid").unwrap();
    assert_eq!(ok.access_token, "new-access");
    assert_eq!(ok.refresh_token.as_deref(), Some("r"));
    assert_eq!(ok.expires_at, Some(4600));
    assert_eq!(ok.client_id, "cid");
    let no_expiry = login_tokens(granted(None, None), 1000, "a", "b", "c").unwrap();
    assert_eq!(no_expiry.expires_at, None);

    assert_eq!(login_message(login_tokens(TokenReply::SendFailed("dns".to_string()), 0, "a", "b", "c")), "Token exchange request failed: dns");
    assert_eq!(login_message(login_tokens(TokenReply::Rejected(None), 0, "a", "b", "c")), "Token exchange failed");
    assert_eq!(login_message(login_tokens(TokenReply::Rejected(Some("code expired".to_string())), 0, "a", "b", "c")), "code expired");
    assert_eq!(login_message(login_tokens(TokenReply::Unreadable("eof".to_string()), 0, "a", "b", "c")), "Failed to parse token response: eof");
}

#[test]
fn refresh_answers() {
    let old = store(Some("old-refresh"), Some(10));
    let kept = refreshed_tokens(granted(None, Some(60)), 100, &old).unwrap();
    assert_eq!(kept.access_token, "new-access");
    assert_eq!(kept.refresh_token.as_deref(), Some("old-refresh"));
    assert_eq!(kept.expires_at, Some(160));
    assert_eq!(kept.zitadel_domain, "id.oxidt.com");
    let rotated = refreshed_tokens(granted(Some("next"), None), 100, &old).unwrap();
    assert_eq!(rotated.refresh_token.as_deref(), Some("next"));

    assert_eq!(refresh_message(refreshed_tokens(TokenReply::SendFailed("reset".to_string()), 0, &old)), "Refresh request failed: reset");
    assert_eq!(refresh_message(refreshed_tokens(TokenReply::Rejected(None), 0, &old)), "Token refresh failed");
    assert_eq!(refresh_message(refreshed_tokens(TokenReply::Unreadable("bad".to_string()), 0, &old)), "Failed to parse refresh response: bad");
}

fn callback(line: &str, state: &str) -> (Option<(String, String)>, Result<String, String>) {
    let o = parse_callback(line, state);
    let reply = o.reply.map(|r| (r.status, r.body));
    let result = match o.result {
        Ok(code) => Ok(code),
        Err(CliError::LoginFailed { message }) => Err(message),
        Err(other) => panic!("unexpected {other:?}"),
    };
    (reply, result)
}

#[test]
fn callback_with_code_and_state() {
    let (reply, result) = callback("GET /?code=abc&state=xyz HTTP/1.1\r\n", "xyz");
    assert_eq!(result, Ok("abc".to_string()));
    let (status, body) = reply.unwrap();
    assert_eq!(status, "200 OK");
    assert!(body.contains("Login Successful"));
}

#[test]
fn callback_state_mismatch_is_refused() {
    let (reply, result) = callback("GET /?code=abc&state=evil HTTP/1.1", "xyz");
    assert_eq!(result, Err("State parameter mismatch — possible CSRF attack".to_string()));
    assert_eq!(reply.unwrap().0, "400 Bad Request");
}

#[test]
fn callback_error_from_provider() {
    let (reply, result) = callback("GET /?error=access_denied&error_description=User%20cancelled&state=xyz HTTP/1.1", "xyz");
    assert_eq!(result, Err("access_denied: User cancelled".to_string()));
    let (status, body) = reply.unwrap();
    assert_eq!(status, "400 Bad Request");
    assert_eq!(body, "<html><body><h1>Login Failed</h1><p>User cancelled</p><p>You can close this tab.</p></body></html>");
    let (_, result) = callback("GET /?error=server_error HTTP/1.1", "xyz");
    assert_eq!(result, Err("server_error: Unknown error".to_string()));
}

#[test]
fn callback_missing_pieces() {
    assert_eq!(callback("GET /?code=abc HTTP/1.1", "xyz"), (None, Err("Missing state parameter in callback".to_string())));
    assert_eq!(callback("GET /?state=xyz HTTP/1.1", "xyz"), (None, Err("Missing authorization code in callback".to_string())));
    assert_eq!(callback("GET", "xyz"), (None, Err("Invalid callback request".to_string())));
    assert_eq!(callback("", "xyz"), (None, Err("Invalid callback request".to_string())));
    assert_eq!(callback("GET / HTTP/1.1", "xyz").1, Err("Missing state parameter in callback".to_string()));
}

#[test]
fn callback_parameters_decode_and_last_wins() {
    assert_eq!(callback("GET /?state=a&state=xyz&code=1 HTTP/1.1", "xyz").1, Ok("1".to_string()));
    assert_eq!(callback("GET /cb?code=a%2Fb&state=x%20y HTTP/1.1", "x y").1, Ok("a/b".to_string()));
    assert_eq!(callback("GET /?junk&state=s&code=c&=x HTTP/1.1", "s").1, Ok("c".to_string()));
}

#[test]
fn pieces_of_the_request_line() {
    assert_eq!(second_word_of("GET /x HTTP/1.1"), Some("/x".to_string()));
    assert_eq!(second_word_of("  GET \t /y  "), Some("/y".to_string()));
    assert_eq!(second_word_of("GET"), None);
    assert_eq!(split_once_char("k=v=w", '='), Some(("k".to_string(), "v=w".to_string())));
    assert_eq!(split_once_char("kv", '='), None);
    assert_eq!(split_str("a&&b", '&'), vec!["a".to_string(), String::new(), "b".to_string()]);
    assert_eq!(split_str("", '&'), vec![String::new()]);
    assert_eq!(decode_or_raw("a%20b"), "a b");
    assert_eq!(decode_or_raw("%FF"), "%FF");
    assert_eq!(decode_or_raw("plain+text"), "plain+text");
}

#[test]
fn minimal_http_response() {
    assert_eq!(
        http_response("200 OK", "héllo"),
        "HTTP/1.1 200 OK\r\nContent-Type: text/html; charset=utf-8\r\nContent-Length: 6\r\nConnection: close\r\n\r\nhéllo"
    );
}

#[test]
fn token_file_location() {
    assert_eq!(token_path_from(Some("/home/u"), None), "/home/u/.config/seggwat/tokens.json");
    assert_eq!(token_path_from(None, None), "./.config/seggwat/tokens.json");
    assert_eq!(token_path_from(Some("/home/u"), Some("/xdg/")), "/xdg/seggwat/tokens.json");
    assert_eq!(token_path_from(Some("/home/u"), Some("/xdg")), "/xdg/seggwat/tokens.json");
    assert_eq!(token_path_from(None, Some("")), "seggwat/tokens.json");
    assert_eq!(join_path("a", "b"), "a/b");
}
