//! Service configuration: the CalDAV base URL and the basic-auth
//! credentials, validated once at startup. All three values are required
//! and the URL must be well formed; a configuration that fails either
//! check is rejected, so the server never starts on it.

use vstd::prelude::*;

verus! {

/// Whether a string parses as an absolute URL, as the `url` crate
/// decides it. The outcome depends on the string alone.
pub uninterp spec fn url_well_formed(s: Seq<char>) -> bool;

/// Relies on url::Url::parse: whether a string is accepted as an
/// absolute URL depends on the string alone, and parsing never panics.
#[verifier::external_body]
fn url_parses(s: &str) -> (ok: bool)
    ensures
        ok == url_well_formed(s@),
{
    url::Url::parse(s).is_ok()
}

/// Why a configuration was rejected: a required value was missing, or
/// the base URL did not parse.
#[derive(Clone, Copy, Debug, PartialEq, Eq, Structural)]
pub enum ConfigError {
    MissingUrl,
    MissingUsername,
    MissingPassword,
    InvalidUrl,
}

impl ConfigError {
    /// A short description of the rejection, for a startup failure message.
    pub fn message(&self) -> (msg: &'static str)
        ensures
            self is MissingUrl ==> msg@ == "CALDAV_URL is not set"@,
            self is MissingUsername ==> msg@ == "CALDAV_USERNAME is not set"@,
            self is MissingPassword ==> msg@ == "CALDAV_PASSWORD is not set"@,
            self is InvalidUrl ==> msg@ == "CALDAV_URL is not a valid URL"@,
    {
        match self {
            ConfigError::MissingUrl => "CALDAV_URL is not set",
            ConfigError::MissingUsername => "CALDAV_USERNAME is not set",
            ConfigError::MissingPassword => "CALDAV_PASSWORD is not set",
            ConfigError::InvalidUrl => "CALDAV_URL is not a valid URL",
        }
    }
}

/// The basic-auth pair handed to the upstream CalDAV client. Held in
/// process memory only, never persisted.
pub struct Credentials {
    pub username: String,
    pub password: String,
}

/// The validated service configuration: a well-formed CalDAV base URL
/// and the credentials to present to it.
#[derive(Clone, Debug)]
pub struct Config {
    pub url: String,
    pub username: String,
    pub password: String,
}

impl Config {
    /// A configuration is well formed when its base URL parses.
    pub open spec fn wf(self) -> bool {
        url_well_formed(self.url@)
    }

    /// Builds the configuration from the three environment values, in
    /// the order they are read: the URL, the username, the password.
    /// It succeeds exactly when all three are present and the URL is
    /// well formed; otherwise it reports the first check that failed,
    /// so a server started on a missing or bad value never comes up.
    pub fn from_env(
        url: Option<String>,
        username: Option<String>,
        password: Option<String>,
    ) -> (result: Result<Config, ConfigError>)
        ensures
            result is Ok <==> (url is Some && username is Some && password is Some
                && url_well_formed(url.unwrap()@)),
            match result {
                Ok(config) => {
                    &&& config.url == url.unwrap()
                    &&& config.username == username.unwrap()
                    &&& config.password == password.unwrap()
                    &&& config.wf()
                },
                Err(e) => match e {
                    ConfigError::MissingUrl => url is None,
                    ConfigError::MissingUsername => url is Some && username is None,
                    ConfigError::MissingPassword => url is Some && username is Some
                        && password is None,
                    ConfigError::InvalidUrl => url is Some && username is Some
                        && password is Some && !url_well_formed(url.unwrap()@),
                },
            },
    {
        let url = match url {
            Some(url) => url,
            None => {
                return Err(ConfigError::MissingUrl);
            },
        };
        let username = match username {
            Some(username) => username,
            None => {
                return Err(ConfigError::MissingUsername);
            },
        };
        let password = match password {
            Some(password) => password,
            None => {
                return Err(ConfigError::MissingPassword);
            },
        };
        if !url_parses(url.as_str()) {
            return Err(ConfigError::InvalidUrl);
        }
        Ok(Config { url, username, password })
    }

    /// A fresh credentials value for one upstream request, copied from
    /// the configuration.
    pub fn credentials(&self) -> (credentials: Credentials)
        ensures
            credentials.username == self.username,
            credentials.password == self.password,
    {
        Credentials {
            username: self.username.clone(),
            password: self.password.clone(),
        }
    }
}

} // verus!
