//! Decision and formatting logic of the music client's command layer.
pub mod cache;
pub mod cache_laws;
pub mod json;
pub mod page_debug;
pub mod text;
