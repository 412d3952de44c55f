use git_reel_server::auth::{endpoint_value, EndpointReply, OAuthEndpoint};
use git_reel_server::github::GitHubError;
use git_reel_server::auth::{after_token_reply, after_user_reply, ConnectStep};
use git_reel_server::auth::{
    auth_access_token, auth_state_view, callback_step, connect_account, github_authorize_location, reel_connected,
    settings_view, start_oauth, AuthRow, CallbackQuery, CallbackStep,
};
use git_reel_server::config::{present, Config};
use git_reel_server::cookies::{cleared_state_cookie, find_cookie, state_cookie, state_from_cookie_header};
use git_reel_server::error::ApiError;
use git_reel_server::models::{DetailView, ReelResponse, RepoEventKind};

fn oauth_config() -> Config {
    let mut config = Config::test();
    config.github_client_id = Some("test-client".to_string());
    config.github_client_secret = Some("test-secret".to_string());
    config
}

#[test]
fn test_config_uses_memory_database_and_local_addresses() {
    let config = Config::test();
    assert_eq!(config.database_url, "sqlite::memory:");
    assert_eq!(config.github_client_id, None);
    assert_eq!(config.github_client_secret, None);
    assert_eq!(config.public_base_url, "http://127.0.0.1:4317");
    assert_eq!(config.public_app_url, "http://127.0.0.1:5173");
    assert_eq!(config.max_connections(), 1);
    assert!(!config.oauth_configured());
}

#[test]
fn config_from_values_applies_defaults() {
    let config = Config::from_values(None, Some("".to_string()), Some("s".to_string()), None, None);
    assert_eq!(config.database_url, "sqlite:git-reel.db");
    assert_eq!(config.github_client_id, None);
    assert_eq!(config.github_client_secret.as_deref(), Some("s"));
    assert_eq!(config.public_base_url, "http://127.0.0.1:4317");
    assert_eq!(config.public_app_url, "http://127.0.0.1:5173");
    assert_eq!(config.max_connections(), 5);
    let config = Config::from_values(
        Some("sqlite:other.db".to_string()),
        Some("id".to_string()),
        Some("secret".to_string()),
        Some("http://localhost:1".to_string()),
        Some("http://localhost:2".to_string()),
    );
    assert_eq!(config.database_url, "sqlite:other.db");
    assert!(config.oauth_configured());
    assert_eq!(config.callback_url(), "http://localhost:1/api/auth/github/callback");
    assert_eq!(present(Some("".to_string())), None);
    assert_eq!(present(Some("x".to_string())), Some("x".to_string()));
}

#[test]
fn oauth_credentials_name_the_missing_setting() {
    assert_eq!(
        Config::test().oauth_credentials(),
        Err(ApiError::OAuth("GITHUB_CLIENT_ID is not configured".to_string()))
    );
    let mut config = Config::test();
    config.github_client_id = Some("id".to_string());
    assert_eq!(
        config.oauth_credentials(),
        Err(ApiError::OAuth("GITHUB_CLIENT_SECRET is not configured".to_string()))
    );
    assert_eq!(oauth_config().oauth_credentials(), Ok(("test-client", "test-secret")));
    let error = Config::test().oauth_credentials().unwrap_err();
    assert_eq!(error.status_code(), 500);
    assert_eq!(error.message(), "oauth error: GITHUB_CLIENT_ID is not configured");
    assert_eq!(ApiError::NotFound.status_code(), 404);
    assert_eq!(ApiError::NotFound.message(), "not found");
}

#[test]
fn authorize_location_encodes_redirect_uri() {
    let config = oauth_config();
    let location =
        github_authorize_location("test-client", &config.callback_url(), "0d6b1c0e-state").unwrap();
    assert!(location.starts_with("https://github.com/login/oauth/authorize?"));
    assert!(location.contains("client_id=test-client"));
    assert!(location.contains("redirect_uri=http%3A%2F%2F127.0.0.1%3A4317%2Fapi%2Fauth%2Fgithub%2Fcallback"));
    assert!(location.contains("scope=read%3Auser"));
    assert!(location.contains("state=0d6b1c0e-state"));
}

#[test]
fn starting_oauth_keeps_the_state() {
    let started = start_oauth(None, "fresh-state".to_string());
    assert_eq!(started.connected, 0);
    assert_eq!(started.oauth_state.as_deref(), Some("fresh-state"));
    assert_eq!(started.access_token, None);
    let kept = start_oauth(
        Some(AuthRow {
            connected: 1,
            username: Some("octocat".to_string()),
            access_token: Some("gho_token".to_string()),
            oauth_state: None,
        }),
        "next".to_string(),
    );
    assert_eq!(kept.connected, 1);
    assert_eq!(kept.access_token.as_deref(), Some("gho_token"));
    assert_eq!(kept.oauth_state.as_deref(), Some("next"));
}

fn cookie() -> Option<String> {
    Some("expected-state".to_string())
}

fn query(code: Option<&str>, error: Option<&str>, state: Option<&str>) -> CallbackQuery {
    CallbackQuery {
        code: code.map(str::to_string),
        error: error.map(str::to_string),
        state: state.map(str::to_string),
    }
}

#[test]
fn callback_refuses_a_mismatched_state() {
    let row = Some(start_oauth(None, "expected-state".to_string()));
    let step = callback_step(query(Some("code-from-github"), None, Some("wrong-state")), &cookie(), &row, &oauth_config());
    let error = step.unwrap_err();
    assert_eq!(error, ApiError::OAuth("GitHub OAuth callback state did not match".to_string()));
    assert_eq!(error.status_code(), 500);
}

#[test]
fn github_callback_walks_through_its_checks() {
    let row = Some(start_oauth(None, "expected-state".to_string()));
    let config = oauth_config();
    assert!(matches!(
        callback_step(query(None, Some("access_denied"), None), &cookie(), &row, &config),
        Ok(CallbackStep::RedirectToApp)
    ));
    assert_eq!(
        callback_step(query(Some("c"), None, None), &cookie(), &row, &config).unwrap_err(),
        ApiError::OAuth("GitHub OAuth callback did not include state".to_string())
    );
    assert_eq!(
        callback_step(query(None, None, Some("expected-state")), &cookie(), &row, &config).unwrap_err(),
        ApiError::OAuth("GitHub OAuth callback did not include code".to_string())
    );
    assert_eq!(
        callback_step(query(Some("c"), None, Some("expected-state")), &cookie(), &None, &config).unwrap_err(),
        ApiError::OAuth("GitHub OAuth callback state did not match".to_string())
    );
    assert_eq!(
        callback_step(query(Some("c"), None, Some("expected-state")), &cookie(), &row, &Config::test()).unwrap_err(),
        ApiError::OAuth("GITHUB_CLIENT_ID is not configured".to_string())
    );
    match callback_step(query(Some("code-from-github"), None, Some("expected-state")), &cookie(), &row, &config) {
        Ok(CallbackStep::Exchange { code, client_id, client_secret, redirect_uri }) => {
            assert_eq!(code, "code-from-github");
            assert_eq!(client_id, "test-client");
            assert_eq!(client_secret, "test-secret");
            assert_eq!(redirect_uri, "http://127.0.0.1:4317/api/auth/github/callback");
        }
        other => panic!("unexpected {other:?}"),
    }
}

#[test]
fn connected_account_gives_its_token() {
    let row = Some(connect_account("octocat".to_string(), "gho_oauth_token".to_string()));
    assert_eq!(auth_access_token(&row).as_deref(), Some("gho_oauth_token"));
    assert!(reel_connected(&row));
    assert_eq!(row.as_ref().unwrap().oauth_state, None);
}

#[test]
fn no_token_when_disconnected_or_missing() {
    assert_eq!(auth_access_token(&None), None);
    let disconnected = Some(AuthRow {
        connected: 0,
        username: Some("octocat".to_string()),
        access_token: Some("gho_disconnected_token".to_string()),
        oauth_state: None,
    });
    assert_eq!(auth_access_token(&disconnected), None);
    let tokenless = Some(AuthRow {
        connected: 1,
        username: Some("local-dev".to_string()),
        access_token: None,
        oauth_state: None,
    });
    assert_eq!(auth_access_token(&tokenless), None);
    assert!(!reel_connected(&tokenless));
}

#[test]
fn auth_view_starts_disconnected() {
    let view = auth_state_view(&None, &Config::test());
    assert!(!view.connected);
    assert_eq!(view.username, None);
    assert!(!view.oauth_configured);
    let row = Some(connect_account("octocat".to_string(), "gho".to_string()));
    let view = auth_state_view(&row, &oauth_config());
    assert!(view.connected);
    assert_eq!(view.username.as_deref(), Some("octocat"));
    assert!(!auth_state_view(&row, &Config::test()).connected);
}

#[test]
fn settings_hide_the_user_while_disconnected() {
    let row = Some(connect_account("octocat".to_string(), "gho".to_string()));
    let settings = settings_view(&row, &oauth_config());
    assert!(settings.auth_connected);
    assert_eq!(settings.username.as_deref(), Some("octocat"));
    assert_eq!(settings.discovery_mix, vec!["recently_updated", "recently_created", "language_rotation"]);
    assert_eq!(settings.database, "sqlite");
    let settings = settings_view(&row, &Config::test());
    assert!(!settings.auth_connected);
    assert_eq!(settings.username, None);
}

#[test]
fn event_kinds_read_back_their_names() {
    for kind in [
        RepoEventKind::Viewed,
        RepoEventKind::Saved,
        RepoEventKind::Skipped,
        RepoEventKind::Returned,
        RepoEventKind::DetailOpened,
    ] {
        assert_eq!(RepoEventKind::from_name(kind.as_str()), Ok(kind));
        assert_eq!(RepoEventKind::try_from(kind.as_str().to_string()), Ok(kind));
    }
    assert_eq!(RepoEventKind::DetailOpened.as_str(), "detail_opened");
    assert_eq!(
        RepoEventKind::from_name("starred"),
        Err("unknown event kind: starred".to_string())
    );
}

#[test]
fn reel_responses_explain_an_empty_reel() {
    let required = ReelResponse::auth_required();
    assert!(required.repository.is_none());
    assert_eq!(required.empty_reason.as_deref(), Some("auth_required"));
    let empty = ReelResponse::from_queue(None);
    assert_eq!(empty.empty_reason.as_deref(), Some("queue_empty"));
    let back = ReelResponse::went_back(None);
    assert_eq!(back.empty_reason, None);
}

#[test]
fn detail_view_defaults_the_memo() {
    let view = DetailView::new(3, None, vec!["rust".to_string()], Some("README".to_string()));
    assert_eq!(view.memo, "");
    assert_eq!(view.repository_id, 3);
    assert_eq!(view.detail_error, None);
    let view = DetailView::new(3, Some("週末に試す".to_string()), vec![], None);
    assert_eq!(view.memo, "週末に試す");
}

#[test]
fn callback_requires_the_state_cookie() {
    let row = Some(start_oauth(None, "expected-state".to_string()));
    let config = oauth_config();
    let mismatch = ApiError::OAuth("GitHub OAuth callback state did not match".to_string());
    let q = || query(Some("code-from-github"), None, Some("expected-state"));
    assert_eq!(callback_step(q(), &None, &row, &config).unwrap_err(), mismatch);
    assert_eq!(callback_step(q(), &Some("other-state".to_string()), &row, &config).unwrap_err(), mismatch);
    assert!(matches!(callback_step(q(), &cookie(), &row, &config), Ok(CallbackStep::Exchange { .. })));
}

#[test]
fn state_cookie_is_http_only_and_scoped_to_the_oauth_routes() {
    assert_eq!(state_cookie("abc"), "git_reel_oauth_state=abc; HttpOnly; Path=/api/auth/github; SameSite=Lax");
    assert_eq!(
        cleared_state_cookie(),
        "git_reel_oauth_state=; HttpOnly; Path=/api/auth/github; SameSite=Lax; Max-Age=0"
    );
}

#[test]
fn state_is_read_back_from_the_cookie_header() {
    assert_eq!(state_from_cookie_header("git_reel_oauth_state=abc").as_deref(), Some("abc"));
    assert_eq!(state_from_cookie_header("a=1; git_reel_oauth_state=abc; b=2").as_deref(), Some("abc"));
    assert_eq!(state_from_cookie_header("a=1;git_reel_oauth_state=xyz").as_deref(), Some("xyz"));
    assert_eq!(state_from_cookie_header("a=1; b=2"), None);
    assert_eq!(state_from_cookie_header(""), None);
    assert_eq!(state_from_cookie_header("git_reel_oauth_state_other=abc"), None);
    assert_eq!(state_from_cookie_header("git_reel_oauth_state=").as_deref(), Some(""));
    assert_eq!(find_cookie("x=1; x=2", "x").as_deref(), Some("1"));
}

#[test]
fn state_cookie_round_trips_through_the_header() {
    let set = state_cookie("s-123");
    let pair = set.split(';').next().unwrap();
    assert_eq!(state_from_cookie_header(pair).as_deref(), Some("s-123"));
}

#[test]
fn auth_state_names_the_start_url_when_configured() {
    let view = auth_state_view(&None, &oauth_config());
    assert_eq!(view.oauth_start_url.as_deref(), Some("http://127.0.0.1:4317/api/auth/github/start"));
    assert_eq!(auth_state_view(&None, &Config::test()).oauth_start_url, None);
    assert_eq!(oauth_config().oauth_start_url().as_deref(), Some("http://127.0.0.1:4317/api/auth/github/start"));
}

#[test]
fn endpoint_replies_become_oauth_errors() {
    let oauth = |m: &str| Err(ApiError::OAuth(m.to_string()));
    assert_eq!(endpoint_value(OAuthEndpoint::Token, EndpointReply::NoAnswer("timed out".to_string())), oauth("timed out"));
    assert_eq!(
        endpoint_value(OAuthEndpoint::Token, EndpointReply::Refused(401)),
        oauth("GitHub token endpoint returned 401 Unauthorized")
    );
    assert_eq!(
        endpoint_value(OAuthEndpoint::User, EndpointReply::Refused(500)),
        oauth("GitHub user endpoint returned 500 Internal Server Error")
    );
    assert_eq!(endpoint_value(OAuthEndpoint::User, EndpointReply::Unreadable("cut off".to_string())), oauth("cut off"));
    assert_eq!(
        endpoint_value(OAuthEndpoint::Token, EndpointReply::Decoded(Err(GitHubError::Json("missing field".to_string())))),
        oauth("json error: missing field")
    );
    assert_eq!(
        endpoint_value(OAuthEndpoint::Token, EndpointReply::Decoded(Ok("gho_token".to_string()))),
        Ok("gho_token".to_string())
    );
}

#[test]
fn callback_connects_only_after_both_endpoints_answer() {
    match after_token_reply(EndpointReply::Decoded(Ok("gho_token".to_string()))) {
        ConnectStep::FetchUser { access_token } => assert_eq!(access_token, "gho_token"),
        other => panic!("unexpected {other:?}"),
    }
    match after_token_reply(EndpointReply::Refused(502)) {
        ConnectStep::Fail(error) => {
            assert_eq!(error, ApiError::OAuth("GitHub token endpoint returned 502 Bad Gateway".to_string()))
        }
        other => panic!("unexpected {other:?}"),
    }
    match after_user_reply("gho_token".to_string(), EndpointReply::Decoded(Ok("octocat".to_string()))) {
        ConnectStep::Store(row) => {
            assert_eq!(row.connected, 1);
            assert_eq!(row.username.as_deref(), Some("octocat"));
            assert_eq!(row.access_token.as_deref(), Some("gho_token"));
            assert_eq!(row.oauth_state, None);
        }
        other => panic!("unexpected {other:?}"),
    }
    match after_user_reply("gho_token".to_string(), EndpointReply::NoAnswer("connection reset".to_string())) {
        ConnectStep::Fail(error) => assert_eq!(error, ApiError::OAuth("connection reset".to_string())),
        other => panic!("unexpected {other:?}"),
    }
}
