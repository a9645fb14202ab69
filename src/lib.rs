//! Ingestion library for a foldered movie collection: file-name parsing,
//! directory traversal decisions, credit filtering, search-result selection,
//! asset placement and the persistence plan.

pub mod text;
pub mod movie_data;
pub mod credits;
pub mod search;
pub mod walker;
pub mod assets;
pub mod pipeline;
pub mod persist;
