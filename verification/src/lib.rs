//! Verified core of a rate-limited crawler for a paginated media-search API.
//!
//! The library holds the pieces with real invariants: the rating policy and
//! filter pipeline that decide which records are worth downloading, the
//! pagination state machine that drives the crawl, and the arithmetic of the
//! shared rate limiter. Network transport, JSON decoding and the filesystem
//! live outside the library and hand it plain values.

pub mod config;
pub mod danbooru;
pub mod filter;
pub mod rating;
pub mod record;
pub mod text;
pub mod timer;
