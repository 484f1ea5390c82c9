//! Safety-gated URL fetching with a content-addressed snapshot cache.
//!
//! The library holds the decisions of the fetch pipeline and proves them:
//! URL canonicalization (`url`), the SSRF address guard (`ssrf`), robots.txt
//! caching (`robots`), response limits (`fetch`), cache keys (`cache_key`),
//! snapshot storage with its purge policies (`snapshots`), schema migration
//! planning (`migrations`), the bounded-concurrency batch scheduler
//! (`batch`), settings (`config`), the search provider's requests and answers
//! (`search`), link harvesting and Markdown normalization (`links`,
//! `extract`), and the single-URL open flow (`open`). Network and database
//! access happen in the caller, which hands plain values to these functions.

pub mod text;
pub mod error;
pub mod ssrf;
pub mod url;
pub mod robots;
pub mod fetch;
pub mod cache_key;
pub mod snapshots;
pub mod migrations;
pub mod batch;
pub mod config;
pub mod search;
pub mod extract;
pub mod links;
pub mod open;
pub mod render;

