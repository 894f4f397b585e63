//! Resolution of the base endpoint and the two routes appended to it.
//!
//! The base URL is resolved once from an optional override that the
//! embedding application reads from its environment: no override means
//! the fixed production endpoint, the sentinel `"local"` selects a
//! fixed loopback endpoint, and any other override is used as given.

use vstd::prelude::*;
use vstd::string::StringExecFns;

verus! {

/// Resolves the base endpoint from an optional override value.
pub fn resolve_base_url(override_url: Option<String>) -> (r: String)
    ensures
        override_url is None ==> r@ == "https://api.banana.dev/"@,
        override_url matches Some(v) ==> r@ == (if v@ == "local"@ {
            "http://localhost/"@
        } else {
            v@
        }),
{
    match override_url {
        None => String::from_str("https://api.banana.dev/"),
        Some(v) => {
            let sentinel = String::from_str("local");
            if v == sentinel {
                String::from_str("http://localhost/")
            } else {
                v
            }
        },
    }
}

/// The submission endpoint: the base URL with the submission route
/// appended.
pub fn submit_url(base: &str) -> (r: String)
    ensures
        r@ == base@ + "start/v4/"@,
{
    let mut url = base.to_owned();
    url.append("start/v4/");
    url
}

/// The status-check endpoint: the base URL with the check route
/// appended.
pub fn check_url(base: &str) -> (r: String)
    ensures
        r@ == base@ + "check/v4/"@,
{
    let mut url = base.to_owned();
    url.append("check/v4/");
    url
}

} // verus!
