//! Where the service sends its API calls and where it listens.
use vstd::prelude::*;

verus! {

/// The Domeneshop API that calls go to unless configured otherwise.
pub const DEFAULT_BASE_URL: &'static str = "https://api.domeneshop.no/v0";

/// The address the server binds to unless configured otherwise.
pub const DEFAULT_BIND: &'static str = "127.0.0.1:3000";

/// The service's settings.
pub struct Config {
    pub base_url: String,
    pub bind: String,
}

impl Config {
    /// The settings from the configured values, each falling back to its
    /// default where it is not set.
    pub fn from_values(base_url: Option<String>, bind: Option<String>) -> (c: Config)
        ensures
            c.base_url@ == (match base_url {
                Some(s) => s@,
                None => DEFAULT_BASE_URL@,
            }),
            c.bind@ == (match bind {
                Some(s) => s@,
                None => DEFAULT_BIND@,
            }),
    {
        let base_url = match base_url {
            Some(s) => s,
            None => DEFAULT_BASE_URL.to_owned(),
        };
        let bind = match bind {
            Some(s) => s,
            None => DEFAULT_BIND.to_owned(),
        };
        Config { base_url, bind }
    }
}

} // verus!
