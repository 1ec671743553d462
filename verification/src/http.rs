//! The HTTP client handle. The engine holds a `reqwest::Client` in its
//! provider clients; every request made with it is issued by the embedding
//! program, never from the verified code.

use vstd::prelude::*;

verus! {

#[verifier::external_type_specification]
#[verifier::external_body]
pub struct ExReqwestClient(reqwest::Client);

/// Relies on reqwest::Client::new: a client handle with default settings.
#[verifier::external_body]
pub fn new_http_client() -> reqwest::Client {
    reqwest::Client::new()
}

/// Relies on reqwest::Client::builder: a client handle with the given
/// request timeout and idle-connection pool size, or the default client
/// when the build fails.
#[verifier::external_body]
pub fn new_http_client_with(timeout_secs: u64, max_idle_per_host: usize) -> reqwest::Client {
    reqwest::Client::builder()
        .timeout(core::time::Duration::from_secs(timeout_secs))
        .pool_max_idle_per_host(max_idle_per_host)
        .build()
        .unwrap_or_default()
}

/// Relies on reqwest::Client::clone: another handle to the same pool.
pub assume_specification[ <reqwest::Client as Clone>::clone ](client: &reqwest::Client) -> reqwest::Client;

} // verus!
