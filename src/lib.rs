//! Catalog mirror core: credential lifecycle, resumable crawl, download
//! cache freshness, and the query plans sent to the search index.
pub mod crawler;
pub mod text;
pub mod search;
pub mod downloads;
pub mod config;
pub mod client;
pub mod credentials;
pub mod index;
pub mod ops;
pub mod types;
