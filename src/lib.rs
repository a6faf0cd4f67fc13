//! Rendering and caching core of a personal blog: articles fetched as raw
//! markdown are split into a title and a body, rendered to HTML and kept in
//! an article cache; the article index is built from a manifest, ordered
//! newest first, and kept in a single-slot cache with a time-to-live.
pub mod types;
pub mod text;
pub mod markdown;
pub mod date;
pub mod order;
pub mod pages;
pub mod source;
pub mod article_cache;
pub mod list_cache;
