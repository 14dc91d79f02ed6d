//! A verified core for a small pastebin and URL shortener: paste keys and
//! lookups, the language of the interface and its texts, and the decisions
//! that the web endpoints take.
pub mod text;
pub mod texts;
pub mod i18n;
pub mod pasta;
pub mod language;
pub mod create;
pub mod service;
pub mod laws;
