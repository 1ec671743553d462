//! Errors of the acquisition engine.

use crate::pixabay::error::PixabayError;
use vstd::prelude::*;

verus! {

/// What an engine operation can fail with. Payloads of outside error types
/// are kept as their rendered text.
#[derive(Debug, Clone)]
pub enum MediaError {
    /// The API key was not set or is empty.
    ApiKeyIsEmpty,
    /// A Pixabay call failed.
    PixabayError(PixabayError),
    /// A Pexels call failed.
    PexelsError(String),
    /// No provider is registered.
    NoProviders,
    /// Every registered provider failed for the query.
    AllProvidersFailed,
    /// A transfer failed.
    DownloadError(String),
    /// A local I/O operation failed.
    IoError(String),
    /// An HTTP request failed.
    HttpError(String),
    /// No variant satisfies the requested quality.
    InvalidQuality(String),
    /// The named provider is not known.
    UnknownProvider(String),
    /// The named provider is known but not enabled.
    ProviderNotEnabled(String),
}

} // verus!
