use vstd::prelude::*;

use crate::error::ApiError;
use crate::text::{joined, same_text};

verus! {

/// The server's settings.
#[derive(Clone, Debug)]
pub struct Config {
    pub database_url: String,
    pub github_client_id: Option<String>,
    pub github_client_secret: Option<String>,
    pub public_base_url: String,
    pub public_app_url: String,
}

/// The views of an optional string.
pub open spec fn opt_text(o: Option<String>) -> Option<Seq<char>> {
    match o {
        Some(s) => Some(s@),
        None => None,
    }
}

/// An optional setting counts only when it is set to something: an empty value counts
/// as unset.
pub open spec fn present_value(value: Option<Seq<char>>) -> Option<Seq<char>> {
    match value {
        Some(v) => if v.len() > 0 {
            Some(v)
        } else {
            None
        },
        None => None,
    }
}

/// The default database of a server.
pub open spec fn default_database_url() -> Seq<char> {
    "sqlite:git-reel.db"@
}

/// The default address the server is reached at.
pub open spec fn default_public_base_url() -> Seq<char> {
    "http://127.0.0.1:4317"@
}

/// The default address the web app is reached at.
pub open spec fn default_public_app_url() -> Seq<char> {
    "http://127.0.0.1:5173"@
}

/// The in-memory database that tests use.
pub open spec fn memory_database_url() -> Seq<char> {
    "sqlite::memory:"@
}

/// The path of the OAuth callback below the public base address.
pub open spec fn callback_path() -> Seq<char> {
    "/api/auth/github/callback"@
}

/// The path that starts the OAuth flow below the public base address.
pub open spec fn start_path() -> Seq<char> {
    "/api/auth/github/start"@
}

/// An optional setting, with an empty value taken as unset.
pub fn present(value: Option<String>) -> (r: Option<String>)
    ensures
        opt_text(r) == present_value(opt_text(value)),
{
    match value {
        Some(v) => {
            if v.as_str().unicode_len() > 0 {
                Some(v)
            } else {
                None
            }
        },
        None => None,
    }
}

/// A setting with a default for when it is not given.
fn or_default(value: Option<String>, default: &str) -> (r: String)
    ensures
        r@ == match value {
            Some(v) => v@,
            None => default@,
        },
{
    match value {
        Some(v) => v,
        None => String::from_str(default),
    }
}

impl Config {
    /// The settings of the test server: an in-memory database, no OAuth app, the local
    /// addresses.
    pub fn test() -> (r: Self)
        ensures
            r.database_url@ == memory_database_url(),
            r.github_client_id is None,
            r.github_client_secret is None,
            r.public_base_url@ == default_public_base_url(),
            r.public_app_url@ == default_public_app_url(),
    {
        Self {
            database_url: String::from_str("sqlite::memory:"),
            github_client_id: None,
            github_client_secret: None,
            public_base_url: String::from_str("http://127.0.0.1:4317"),
            public_app_url: String::from_str("http://127.0.0.1:5173"),
        }
    }

    /// The settings from the values of the environment variables `GIT_REEL_DATABASE_URL`,
    /// `GITHUB_CLIENT_ID`, `GITHUB_CLIENT_SECRET`, `GIT_REEL_PUBLIC_BASE_URL` and
    /// `GIT_REEL_PUBLIC_APP_URL` (`None` where a variable is not set): an unset address or
    /// database takes its default, an empty OAuth value counts as unset.
    pub fn from_values(
        database_url: Option<String>,
        github_client_id: Option<String>,
        github_client_secret: Option<String>,
        public_base_url: Option<String>,
        public_app_url: Option<String>,
    ) -> (r: Self)
        ensures
            r.database_url@ == match database_url {
                Some(v) => v@,
                None => default_database_url(),
            },
            opt_text(r.github_client_id) == present_value(opt_text(github_client_id)),
            opt_text(r.github_client_secret) == present_value(opt_text(github_client_secret)),
            r.public_base_url@ == match public_base_url {
                Some(v) => v@,
                None => default_public_base_url(),
            },
            r.public_app_url@ == match public_app_url {
                Some(v) => v@,
                None => default_public_app_url(),
            },
    {
        Self {
            database_url: or_default(database_url, "sqlite:git-reel.db"),
            github_client_id: present(github_client_id),
            github_client_secret: present(github_client_secret),
            public_base_url: or_default(public_base_url, "http://127.0.0.1:4317"),
            public_app_url: or_default(public_app_url, "http://127.0.0.1:5173"),
        }
    }

    /// Whether a GitHub OAuth app is configured: both its id and its secret are set.
    pub open spec fn spec_oauth_configured(&self) -> bool {
        self.github_client_id is Some && self.github_client_secret is Some
    }

    /// Whether a GitHub OAuth app is configured.
    pub fn oauth_configured(&self) -> (r: bool)
        ensures
            r == self.spec_oauth_configured(),
    {
        self.github_client_id.is_some() && self.github_client_secret.is_some()
    }

    /// The OAuth app's id and secret, or the error that names the one missing (the id
    /// first).
    pub fn oauth_credentials(&self) -> (r: Result<(&str, &str), ApiError>)
        ensures
            match (self.github_client_id, self.github_client_secret) {
                (Some(id), Some(secret)) => r matches Ok((i, s)) && i@ == id@ && s@ == secret@,
                (None, _) => r matches Err(ApiError::OAuth(m)) && m@
                    == "GITHUB_CLIENT_ID is not configured"@,
                (Some(_), None) => r matches Err(ApiError::OAuth(m)) && m@
                    == "GITHUB_CLIENT_SECRET is not configured"@,
            },
    {
        let client_id = match &self.github_client_id {
            Some(id) => id.as_str(),
            None => {
                return Err(ApiError::OAuth(String::from_str("GITHUB_CLIENT_ID is not configured")));
            },
        };
        let client_secret = match &self.github_client_secret {
            Some(secret) => secret.as_str(),
            None => {
                return Err(
                    ApiError::OAuth(String::from_str("GITHUB_CLIENT_SECRET is not configured")),
                );
            },
        };
        Ok((client_id, client_secret))
    }

    /// The address GitHub sends the user back to after authorizing.
    pub fn callback_url(&self) -> (r: String)
        ensures
            r@ == self.public_base_url@ + callback_path(),
    {
        joined(self.public_base_url.as_str(), "/api/auth/github/callback")
    }

    /// The address that starts the GitHub OAuth flow, when OAuth is configured.
    pub fn oauth_start_url(&self) -> (r: Option<String>)
        ensures
            opt_text(r) == if self.spec_oauth_configured() {
                Some(self.public_base_url@ + start_path())
            } else {
                None
            },
    {
        if self.oauth_configured() {
            Some(joined(self.public_base_url.as_str(), "/api/auth/github/start"))
        } else {
            None
        }
    }

    /// The size of the database connection pool: one connection for the in-memory database
    /// (every connection would get a database of its own), five otherwise.
    pub fn max_connections(&self) -> (r: u32)
        ensures
            r == if self.database_url@ == memory_database_url() {
                1u32
            } else {
                5u32
            },
    {
        if same_text(self.database_url.as_str(), "sqlite::memory:") {
            1
        } else {
            5
        }
    }
}

} // verus!
