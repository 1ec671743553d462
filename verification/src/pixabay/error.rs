//! Errors of the Pixabay client.

use vstd::prelude::*;

verus! {

/// What a Pixabay call can fail with. Carrier payloads of outside error
/// types are kept as their rendered text.
#[derive(Debug, Clone)]
pub enum PixabayError {
    RequestError(String),
    JsonError(String),
    UrlError(String),
    ApiError(String),
    RateLimitExceeded,
    InvalidApiKey,
}

} // verus!
