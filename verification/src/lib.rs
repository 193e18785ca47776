//! A status-line "usage" segment: reports API rate-limit utilization for a
//! five-hour and a seven-day window together with a reset indicator, backed
//! by a best-effort on-disk cache and a remote usage endpoint.
//!
//! The modules follow the segment's moving parts: plain-value text handling
//! in `numtext`, reset rendering in `timefmt`, the cache store in `cache`,
//! the remote client's logic in `client`, the configuration enums and icon
//! in `segment`, and the per-render decision chain in `render`. File,
//! network and clock access reach the logic only as plain values.
pub mod cache;
pub mod client;
pub mod jsonval;
pub mod numtext;
pub mod render;
pub mod segment;
pub mod timefmt;
