//! Pixabay search client: request construction, response decoding rules,
//! and the data model of its answers.

pub mod client;
pub mod error;
pub mod models;
