//! Query resolution and cache orchestration for a meta search engine: the
//! safe-search policy, the regex blocklist gate, cache keys, the per-page
//! resolution state machine and the prefetch window of a search request.

pub mod blocklist;
pub mod cache_key;
pub mod models;
pub mod orchestrator;
pub mod resolver;
pub mod safe_search;
