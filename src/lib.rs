//! Metadata enrichment for a now-playing widget: text sanitising, lyrics
//! extraction from HTML pages, URL encoding, catalog matching, prompt
//! construction, and the request flows that turn a track into album context
//! or a reading of its lyrics.
pub mod text;
pub mod html;
pub mod url;
pub mod json;
pub mod config;
pub mod catalog;
pub mod prompt;
pub mod enrich;
pub mod artwork;
pub mod track;
