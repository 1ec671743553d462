//! Pexels search client: request construction, response decoding rules,
//! the data model of its answers, and the transfer manager built on them.

pub mod client;
pub mod collections;
pub mod domain;
pub mod download;
pub mod models;
pub mod photos;
pub mod search;
pub mod types;
pub mod videos;
