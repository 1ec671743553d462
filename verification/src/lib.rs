//! Media acquisition engine: multi-provider search aggregation, quality-tier
//! resolution, resumable transfer accounting with progress tracking, and a
//! bounded-concurrency scheduler.

pub mod downloader;
pub mod error;
pub mod http;
pub mod models;
pub mod pixabay;
pub mod pixabay_provider;
pub mod pexels;
pub mod pexels_provider;
pub mod scheduler;
pub mod text;
pub mod urlenc;
pub mod transfer;

use vstd::prelude::*;

verus! {

} // verus!
