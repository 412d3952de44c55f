use vstd::prelude::*;

use crate::config::{opt_text, Config};
use crate::error::ApiError;
use crate::github::{github_error_message, github_error_text, status_text, status_text_of, GitHubError};
use crate::text::joined;

verus! {

/// The stored GitHub connection: whether it is connected, the user's login, the OAuth
/// access token, and the state of an OAuth flow that has started.
#[derive(Clone, Debug)]
pub struct AuthRow {
    pub connected: i64,
    pub username: Option<String>,
    pub access_token: Option<String>,
    pub oauth_state: Option<String>,
}

/// The access token that discovery may use: the stored token of a connected account.
pub open spec fn usable_token(row: Option<AuthRow>) -> Option<Seq<char>> {
    match row {
        Some(a) => if a.connected == 1 {
            opt_text(a.access_token)
        } else {
            None
        },
        None => None,
    }
}

/// The stored access token, when the account is connected and a token is stored.
pub fn auth_access_token(row: &Option<AuthRow>) -> (r: Option<String>)
    ensures
        opt_text(r) == usable_token(*row),
{
    match row {
        Some(a) => {
            if a.connected == 1 {
                match &a.access_token {
                    Some(t) => Some(t.clone()),
                    None => None,
                }
            } else {
                None
            }
        },
        None => None,
    }
}

/// Whether the reel may run: the account is connected and holds a token. A connection
/// without a token (an old local one) does not count.
pub fn reel_connected(row: &Option<AuthRow>) -> (r: bool)
    ensures
        r == (usable_token(*row) is Some),
{
    match row {
        Some(a) => a.connected == 1 && a.access_token.is_some(),
        None => false,
    }
}

/// Whether the web app shows the account as connected: OAuth is configured and the
/// connected account holds a token.
pub open spec fn shown_connected(row: Option<AuthRow>, oauth_configured: bool) -> bool {
    oauth_configured && usable_token(row) is Some
}

/// What `/api/auth/state` answers: whether the account is shown as connected, the login,
/// whether OAuth is configured, and where the OAuth flow starts.
#[derive(Clone, Debug)]
pub struct AuthStateView {
    pub connected: bool,
    pub username: Option<String>,
    pub oauth_configured: bool,
    pub oauth_start_url: Option<String>,
}

/// The connection state for the web app.
pub fn auth_state_view(row: &Option<AuthRow>, config: &Config) -> (r: AuthStateView)
    ensures
        r.oauth_configured == config.spec_oauth_configured(),
        r.connected == shown_connected(*row, config.spec_oauth_configured()),
        opt_text(r.username) == match *row {
            Some(a) => opt_text(a.username),
            None => None,
        },
        opt_text(r.oauth_start_url) == if config.spec_oauth_configured() {
            Some(config.public_base_url@ + crate::config::start_path())
        } else {
            None
        },
{
    let oauth_configured = config.oauth_configured();
    let connected = oauth_configured && reel_connected(row);
    let username = match row {
        Some(a) => a.username.clone(),
        None => None,
    };
    AuthStateView { connected, username, oauth_configured, oauth_start_url: config.oauth_start_url() }
}

/// What `/api/settings` answers.
#[derive(Clone, Debug)]
pub struct SettingsView {
    pub auth_connected: bool,
    pub username: Option<String>,
    pub discovery_mix: Vec<&'static str>,
    pub database: &'static str,
}

/// The settings overview: the connection, and the user's login only while connected;
/// the discovery strategies and the kind of database.
pub fn settings_view(row: &Option<AuthRow>, config: &Config) -> (r: SettingsView)
    ensures
        r.auth_connected == shown_connected(*row, config.spec_oauth_configured()),
        opt_text(r.username) == if r.auth_connected {
            match *row {
                Some(a) => opt_text(a.username),
                None => None,
            }
        } else {
            None
        },
        r.discovery_mix@.len() == 3,
        r.discovery_mix@[0]@ == "recently_updated"@,
        r.discovery_mix@[1]@ == "recently_created"@,
        r.discovery_mix@[2]@ == "language_rotation"@,
        r.database@ == "sqlite"@,
{
    let auth_connected = config.oauth_configured() && reel_connected(row);
    let username = if auth_connected {
        match row {
            Some(a) => a.username.clone(),
            None => None,
        }
    } else {
        None
    };
    let mut discovery_mix: Vec<&'static str> = Vec::new();
    discovery_mix.push("recently_updated");
    discovery_mix.push("recently_created");
    discovery_mix.push("language_rotation");
    SettingsView { auth_connected, username, discovery_mix, database: "sqlite" }
}

/// The stored connection once an OAuth flow starts with `oauth_state`: the state is kept
/// for the callback, the rest stays (a new row starts disconnected).
pub open spec fn started_row(row: Option<AuthRow>, oauth_state: String) -> AuthRow {
    match row {
        Some(a) => AuthRow { oauth_state: Some(oauth_state), ..a },
        None => AuthRow { connected: 0, username: None, access_token: None, oauth_state: Some(oauth_state) },
    }
}

/// The row to store when an OAuth flow starts.
pub fn start_oauth(row: Option<AuthRow>, oauth_state: String) -> (r: AuthRow)
    ensures
        r == started_row(row, oauth_state),
{
    match row {
        Some(a) => AuthRow { oauth_state: Some(oauth_state), ..a },
        None => AuthRow { connected: 0, username: None, access_token: None, oauth_state: Some(oauth_state) },
    }
}

/// The stored connection once GitHub confirmed the user: connected with the login and
/// the token; the flow's state is used up.
pub open spec fn connected_row(username: String, access_token: String) -> AuthRow {
    AuthRow { connected: 1, username: Some(username), access_token: Some(access_token), oauth_state: None }
}

/// The row to store when the OAuth flow succeeds.
pub fn connect_account(username: String, access_token: String) -> (r: AuthRow)
    ensures
        r == connected_row(username, access_token),
{
    AuthRow { connected: 1, username: Some(username), access_token: Some(access_token), oauth_state: None }
}

/// The query GitHub calls the OAuth callback with.
#[derive(Clone, Debug)]
pub struct CallbackQuery {
    pub code: Option<String>,
    pub error: Option<String>,
    pub state: Option<String>,
}

/// What the OAuth callback goes on with.
#[derive(Clone, Debug)]
pub enum CallbackStep {
    /// The user declined: go back to the web app and store nothing.
    RedirectToApp,
    /// Exchange the code for a token with these credentials.
    Exchange { code: String, client_id: String, client_secret: String, redirect_uri: String },
}

/// The state a stored row expects the callback to bring back.
pub open spec fn expected_state(row: Option<AuthRow>) -> Option<Seq<char>> {
    match row {
        Some(a) => opt_text(a.oauth_state),
        None => None,
    }
}

/// The OAuth error with the given message.
pub open spec fn is_oauth_error(r: Result<CallbackStep, ApiError>, message: Seq<char>) -> bool {
    r matches Err(ApiError::OAuth(m)) && m@ == message
}

/// What the OAuth callback does, decided in this order: an error from GitHub sends the
/// user back; a missing state, a state other than the one in the browser's state cookie
/// or other than the stored one, or a missing code is refused before any exchange; without
/// configured credentials it is refused; otherwise the code is exchanged.
pub open spec fn callback_step_spec(
    query: CallbackQuery,
    cookie_state: Option<Seq<char>>,
    row: Option<AuthRow>,
    config: Config,
    r: Result<CallbackStep, ApiError>,
) -> bool {
    if query.error is Some {
        r matches Ok(CallbackStep::RedirectToApp)
    } else if query.state is None {
        is_oauth_error(r, "GitHub OAuth callback did not include state"@)
    } else if cookie_state != Some(query.state->0@) || expected_state(row) != Some(query.state->0@) {
        is_oauth_error(r, "GitHub OAuth callback state did not match"@)
    } else if query.code is None {
        is_oauth_error(r, "GitHub OAuth callback did not include code"@)
    } else if config.github_client_id is None {
        is_oauth_error(r, "GITHUB_CLIENT_ID is not configured"@)
    } else if config.github_client_secret is None {
        is_oauth_error(r, "GITHUB_CLIENT_SECRET is not configured"@)
    } else {
        r matches Ok(CallbackStep::Exchange { code, client_id, client_secret, redirect_uri })
            && code@ == query.code->0@ && client_id@ == config.github_client_id->0@
            && client_secret@ == config.github_client_secret->0@
            && redirect_uri@ == config.public_base_url@ + crate::config::callback_path()
    }
}

/// Whether the stored row expects exactly `state`.
fn state_matches(row: &Option<AuthRow>, state: &str) -> (r: bool)
    ensures
        r == (expected_state(*row) == Some(state@)),
{
    match row {
        Some(a) => match &a.oauth_state {
            Some(s) => crate::text::same_text(s.as_str(), state),
            None => false,
        },
        None => false,
    }
}

/// Decides what the OAuth callback does with GitHub's query, the state the browser's
/// cookie carries, and the stored row.
pub fn callback_step(
    query: CallbackQuery,
    cookie_state: &Option<String>,
    row: &Option<AuthRow>,
    config: &Config,
) -> (r: Result<CallbackStep, ApiError>)
    ensures
        callback_step_spec(query, opt_text(*cookie_state), *row, *config, r),
        query.error is Some ==> r matches Ok(CallbackStep::RedirectToApp),
{
    if query.error.is_some() {
        return Ok(CallbackStep::RedirectToApp);
    }
    let returned_state = match query.state {
        Some(s) => s,
        None => {
            return Err(ApiError::OAuth(String::from_str("GitHub OAuth callback did not include state")));
        },
    };
    let cookie_matches = match cookie_state {
        Some(c) => crate::text::same_text(c.as_str(), returned_state.as_str()),
        None => false,
    };
    if !cookie_matches || !state_matches(row, returned_state.as_str()) {
        return Err(ApiError::OAuth(String::from_str("GitHub OAuth callback state did not match")));
    }
    let code = match query.code {
        Some(c) => c,
        None => {
            return Err(ApiError::OAuth(String::from_str("GitHub OAuth callback did not include code")));
        },
    };
    let (client_id, client_secret) = match config.oauth_credentials() {
        Ok(pair) => pair,
        Err(e) => {
            return Err(e);
        },
    };
    Ok(
        CallbackStep::Exchange {
            code,
            client_id: String::from_str(client_id),
            client_secret: String::from_str(client_secret),
            redirect_uri: config.callback_url(),
        },
    )
}

/// The form posted to GitHub's token endpoint.
pub fn github_token_exchange_form<'a>(
    client_id: &'a str,
    client_secret: &'a str,
    code: &'a str,
    redirect_uri: &'a str,
) -> (form: Vec<(&'static str, &'a str)>)
    ensures
        form@.len() == 4,
        form@[0].0@ == "client_id"@ && form@[0].1 == client_id,
        form@[1].0@ == "client_secret"@ && form@[1].1 == client_secret,
        form@[2].0@ == "code"@ && form@[2].1 == code,
        form@[3].0@ == "redirect_uri"@ && form@[3].1 == redirect_uri,
{
    let mut form: Vec<(&'static str, &'a str)> = Vec::new();
    form.push(("client_id", client_id));
    form.push(("client_secret", client_secret));
    form.push(("code", code));
    form.push(("redirect_uri", redirect_uri));
    form
}

/// The text of the URL that `reqwest::Url::parse_with_params` builds from a base and
/// query pairs, or the text of its parse error.
pub uninterp spec fn url_with_params(base: Seq<char>, params: Seq<(Seq<char>, Seq<char>)>) -> Result<Seq<char>, Seq<char>>;

/// The views of a list of query pairs.
pub open spec fn pair_texts(params: Seq<(&'static str, String)>) -> Seq<(Seq<char>, Seq<char>)> {
    params.map_values(|p: (&'static str, String)| (p.0@, p.1@))
}

/// `reqwest::Url::parse_with_params` (the url crate's), taken as text: the URL with the
/// pairs form-encoded into its query, or the parse error's message. Both are named, not
/// spelled out.
#[verifier::external_body]
fn build_url(base: &str, params: &Vec<(&'static str, String)>) -> (r: Result<String, String>)
    ensures
        r matches Ok(u) ==> (url_with_params(base@, pair_texts(params@)) matches Ok(t) && t == u@),
        r matches Err(e) ==> (url_with_params(base@, pair_texts(params@)) matches Err(t) && t == e@),
{
    reqwest::Url::parse_with_params(base, params.iter().map(|(k, v)| (*k, v.as_str())))
        .map(|url| url.as_str().to_string())
        .map_err(|error| error.to_string())
}

/// The query pairs of GitHub's authorize page: the app, where to come back, read access
/// to the user, and the state of the flow.
pub open spec fn authorize_pairs(client_id: Seq<char>, redirect_uri: Seq<char>, oauth_state: Seq<char>) -> Seq<(Seq<char>, Seq<char>)> {
    seq![
        ("client_id"@, client_id),
        ("redirect_uri"@, redirect_uri),
        ("scope"@, "read:user"@),
        ("state"@, oauth_state),
    ]
}

/// GitHub's authorize page.
pub open spec fn authorize_base() -> Seq<char> {
    "https://github.com/login/oauth/authorize"@
}

/// Where the start of the OAuth flow sends the user: GitHub's authorize page with the
/// app's id, the callback address, the `read:user` scope and the flow's state.
pub fn github_authorize_location(client_id: &str, redirect_uri: &str, oauth_state: &str) -> (r: Result<String, ApiError>)
    ensures
        match url_with_params(authorize_base(), authorize_pairs(client_id@, redirect_uri@, oauth_state@)) {
            Ok(u) => r matches Ok(s) && s@ == u,
            Err(m) => r matches Err(ApiError::OAuth(e)) && e@ == m,
        },
{
    let mut params: Vec<(&'static str, String)> = Vec::new();
    params.push(("client_id", String::from_str(client_id)));
    params.push(("redirect_uri", String::from_str(redirect_uri)));
    params.push(("scope", String::from_str("read:user")));
    params.push(("state", String::from_str(oauth_state)));
    proof {
        assert(pair_texts(params@) =~= authorize_pairs(client_id@, redirect_uri@, oauth_state@));
    }
    match build_url("https://github.com/login/oauth/authorize", &params) {
        Ok(u) => Ok(u),
        Err(e) => Err(ApiError::OAuth(e)),
    }
}

/// The timeout of the OAuth flow's requests to GitHub: the discovery client's.
pub fn github_oauth_http_timeout() -> (d: std::time::Duration)
    ensures
        d == crate::github::duration_of_secs(crate::github::GITHUB_HTTP_TIMEOUT_SECS),
{
    crate::github::github_http_timeout()
}

/// The two GitHub endpoints the OAuth callback calls after the checks.
#[derive(Clone, Copy, Debug, PartialEq, Eq)]
pub enum OAuthEndpoint {
    /// `POST https://github.com/login/oauth/access_token`: the code for a token.
    Token,
    /// `GET https://api.github.com/user`: the login the token belongs to.
    User,
}

/// What a call to an OAuth endpoint came back with.
#[derive(Debug)]
pub enum EndpointReply {
    /// No answer: the HTTP client's message.
    NoAnswer(String),
    /// An answer with a status outside 200..=299; its body is not read.
    Refused(u16),
    /// A success answer whose body could not be read: the HTTP client's message.
    Unreadable(String),
    /// A success answer's body, decoded: the token or the login, or why decoding failed.
    Decoded(Result<String, GitHubError>),
}

/// The start of the message for a refused answer of an endpoint.
pub open spec fn refused_prefix(endpoint: OAuthEndpoint) -> Seq<char> {
    match endpoint {
        OAuthEndpoint::Token => "GitHub token endpoint returned "@,
        OAuthEndpoint::User => "GitHub user endpoint returned "@,
    }
}

/// What an endpoint's reply gives: the value it carries, or the message of the OAuth
/// error it is answered with.
pub open spec fn endpoint_outcome(endpoint: OAuthEndpoint, reply: EndpointReply) -> Result<Seq<char>, Seq<char>> {
    match reply {
        EndpointReply::NoAnswer(m) => Err(m@),
        EndpointReply::Refused(status) => Err(refused_prefix(endpoint) + status_text_of(status)),
        EndpointReply::Unreadable(m) => Err(m@),
        EndpointReply::Decoded(Ok(v)) => Ok(v@),
        EndpointReply::Decoded(Err(e)) => Err(github_error_message(e)),
    }
}

/// The value an endpoint's reply carries, or the OAuth error it is answered with.
pub fn endpoint_value(endpoint: OAuthEndpoint, reply: EndpointReply) -> (r: Result<String, ApiError>)
    ensures
        match endpoint_outcome(endpoint, reply) {
            Ok(v) => r matches Ok(x) && x@ == v,
            Err(m) => r matches Err(ApiError::OAuth(x)) && x@ == m,
        },
{
    match reply {
        EndpointReply::NoAnswer(m) => Err(ApiError::OAuth(m)),
        EndpointReply::Refused(status) => {
            let shown = status_text(status);
            let message = match endpoint {
                OAuthEndpoint::Token => joined("GitHub token endpoint returned ", shown.as_str()),
                OAuthEndpoint::User => joined("GitHub user endpoint returned ", shown.as_str()),
            };
            Err(ApiError::OAuth(message))
        },
        EndpointReply::Unreadable(m) => Err(ApiError::OAuth(m)),
        EndpointReply::Decoded(Ok(v)) => Ok(v),
        EndpointReply::Decoded(Err(e)) => Err(ApiError::OAuth(github_error_text(&e))),
    }
}

/// What the OAuth callback does after an exchange or a user lookup.
#[derive(Clone, Debug)]
pub enum ConnectStep {
    /// Ask GitHub which login the token belongs to.
    FetchUser { access_token: String },
    /// Store this row and send the user back to the web app.
    Store(AuthRow),
    /// Answer with this error and store nothing.
    Fail(ApiError),
}

/// After the token endpoint: a token leads to the user lookup; anything else is the
/// OAuth error of the reply.
pub open spec fn token_step_spec(reply: EndpointReply, r: ConnectStep) -> bool {
    match endpoint_outcome(OAuthEndpoint::Token, reply) {
        Ok(t) => r matches ConnectStep::FetchUser { access_token } && access_token@ == t,
        Err(m) => r matches ConnectStep::Fail(ApiError::OAuth(x)) && x@ == m,
    }
}

/// After the user endpoint: a login connects the account with the token; anything else is
/// the OAuth error of the reply.
pub open spec fn user_step_spec(access_token: String, reply: EndpointReply, r: ConnectStep) -> bool {
    match endpoint_outcome(OAuthEndpoint::User, reply) {
        Ok(u) => r matches ConnectStep::Store(row) && row.connected == 1 && (row.username matches Some(n)
            && n@ == u) && row.access_token == Some(access_token) && row.oauth_state is None,
        Err(m) => r matches ConnectStep::Fail(ApiError::OAuth(x)) && x@ == m,
    }
}

/// The callback's step once the token endpoint has replied.
pub fn after_token_reply(reply: EndpointReply) -> (r: ConnectStep)
    ensures
        token_step_spec(reply, r),
{
    match endpoint_value(OAuthEndpoint::Token, reply) {
        Ok(access_token) => ConnectStep::FetchUser { access_token },
        Err(e) => ConnectStep::Fail(e),
    }
}

/// The callback's step once the user endpoint has replied for `access_token`.
pub fn after_user_reply(access_token: String, reply: EndpointReply) -> (r: ConnectStep)
    ensures
        user_step_spec(access_token, reply, r),
{
    match endpoint_value(OAuthEndpoint::User, reply) {
        Ok(username) => ConnectStep::Store(connect_account(username, access_token)),
        Err(e) => ConnectStep::Fail(e),
    }
}

/// Every way the OAuth callback fails, from its own checks to the token and user
/// endpoints, is answered with an OAuth error, and only a login from the user endpoint
/// stores a row: the connected account with the exchanged token and no pending state. The
/// code is only exchanged for a callback that brings back, in its query and its state
/// cookie, the state that is stored.
pub proof fn law_callback_failures_are_oauth_errors(
    query: CallbackQuery,
    cookie_state: Option<Seq<char>>,
    row: Option<AuthRow>,
    config: Config,
    step: Result<CallbackStep, ApiError>,
    token_reply: EndpointReply,
    after_token: ConnectStep,
    user_reply: EndpointReply,
    after_user: ConnectStep,
)
    requires
        callback_step_spec(query, cookie_state, row, config, step),
        token_step_spec(token_reply, after_token),
        after_token matches ConnectStep::FetchUser { access_token } ==> user_step_spec(
            access_token,
            user_reply,
            after_user,
        ),
    ensures
        step is Err ==> step matches Err(ApiError::OAuth(_)),
        step matches Ok(CallbackStep::Exchange { .. }) ==> query.state is Some && expected_state(row) == Some(
            query.state->0@,
        ) && cookie_state == Some(query.state->0@),
        after_token is FetchUser || after_token matches ConnectStep::Fail(ApiError::OAuth(_)),
        after_token matches ConnectStep::FetchUser { access_token } ==> ((after_user matches ConnectStep::Fail(
            ApiError::OAuth(_),
        )) || (after_user matches ConnectStep::Store(stored) && stored.connected == 1
            && stored.access_token == Some(access_token) && stored.oauth_state is None)),
{
}

/// Once the account is connected with a token, discovery and the reel use exactly that
/// token, and the web app shows the account as connected when OAuth is configured.
pub proof fn law_connected_account_uses_its_token(username: String, access_token: String, oauth_configured: bool)
    ensures
        usable_token(Some(connected_row(username, access_token))) == Some(access_token@),
        shown_connected(Some(connected_row(username, access_token)), oauth_configured) == oauth_configured,
        expected_state(Some(connected_row(username, access_token))) is None,
{
}

/// Starting an OAuth flow changes nothing of the connection, and a callback that brings
/// back the state of the flow, in the query and in the browser's cookie, with a code and
/// no error, goes on to exchange the code once OAuth is configured; one whose query or
/// cookie carries any other state is refused.
pub proof fn law_callback_accepts_only_the_started_state(
    row: Option<AuthRow>,
    oauth_state: String,
    query: CallbackQuery,
    cookie_state: Option<Seq<char>>,
    config: Config,
    r: Result<CallbackStep, ApiError>,
)
    requires
        callback_step_spec(query, cookie_state, Some(started_row(row, oauth_state)), config, r),
        query.error is None,
        query.state is Some,
    ensures
        usable_token(Some(started_row(row, oauth_state))) == usable_token(row),
        query.state->0@ != oauth_state@ || cookie_state != Some(oauth_state@)
            ==> is_oauth_error(r, "GitHub OAuth callback state did not match"@),
        query.state->0@ == oauth_state@ && cookie_state == Some(oauth_state@) && query.code is Some
            && config.spec_oauth_configured()
            ==> (r matches Ok(CallbackStep::Exchange { code, .. }) && code@ == query.code->0@),
{
}

/// A callback that brings an error from GitHub (the user declined, say) sends the user back
/// to the web app, whatever state, cookie and code it carries and whatever is stored or
/// configured; it is never answered with an error.
pub proof fn law_declined_callback_goes_back(
    query: CallbackQuery,
    cookie_state: Option<Seq<char>>,
    row: Option<AuthRow>,
    config: Config,
    r: Result<CallbackStep, ApiError>,
)
    requires
        callback_step_spec(query, cookie_state, row, config, r),
        query.error is Some,
    ensures
        r matches Ok(CallbackStep::RedirectToApp),
{
}

/// Without a stored row nothing is connected and no token is used.
pub proof fn law_no_row_is_disconnected(oauth_configured: bool)
    ensures
        usable_token(None) is None,
        !shown_connected(None, oauth_configured),
        expected_state(None) is None,
{
}

} // verus!
