//! Runtime configuration: the Spotify client id and the redirect URI, read from the environment
//! by the caller.

use vstd::prelude::*;

verus! {

/// The variable holding the Spotify client id.
pub const CLIENT_ID_VAR: &'static str = "SPOTTERM_CLIENT_ID";
/// The variable that may override the redirect URI.
pub const REDIRECT_URI_VAR: &'static str = "SPOTTERM_REDIRECT_URI";
/// The redirect URI used when none is configured.
pub const DEFAULT_REDIRECT_URI: &'static str = "http://127.0.0.1:8888/callback";

/// Runtime configuration.
#[derive(Debug)]
pub struct Config {
    pub client_id: String,
    pub redirect_uri: String,
}

impl Config {
    /// Build the configuration from the values of `SPOTTERM_CLIENT_ID` and `SPOTTERM_REDIRECT_URI`
    /// (`None` when unset): the client id is required, the redirect URI falls back to
    /// [`DEFAULT_REDIRECT_URI`].
    pub fn load(client_id: Option<String>, redirect_uri: Option<String>) -> (r: Result<Config, String>)
        ensures
            match client_id {
                None => r matches Err(e) && e@ == "SPOTTERM_CLIENT_ID is not set (check your environment)"@,
                Some(id) => r matches Ok(c) && c.client_id == id && match redirect_uri {
                    Some(u) => c.redirect_uri == u,
                    None => c.redirect_uri@ == DEFAULT_REDIRECT_URI@,
                },
            },
    {
        let client_id = match client_id {
            Some(id) => id,
            None => return Err(String::from_str("SPOTTERM_CLIENT_ID is not set (check your environment)")),
        };
        let redirect_uri = match redirect_uri {
            Some(u) => u,
            None => String::from_str(DEFAULT_REDIRECT_URI),
        };
        Ok(Config { client_id, redirect_uri })
    }
}

} // verus!
