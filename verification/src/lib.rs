//! Verified core of a toolkit for Wikimedia data dumps: dump and namespace
//! types, an event-driven parser of dump XML into pages, page slugs,
//! wikitext categories and templates, page-store identifiers, chunks and
//! index batches, the decisions behind downloading and checking job files,
//! command-line and web decisions, and human-readable formatting.

pub mod text;
pub mod patterns;
pub mod slug;
pub mod order;
pub mod natural_order;
pub mod error;
pub mod dump;
pub mod wikitext;
pub mod store;
pub mod util;
pub mod paths;
pub mod types;
pub mod operations;
pub mod user_regex;
pub mod args;
pub mod temp_dir;
pub mod article_dump;
pub mod page_store;
pub mod commands;
pub mod web;
pub mod http;
pub mod render;
