//! Live log-tailing and classification core.
//!
//! The crate turns raw log records (journal field maps or flat-file lines)
//! into typed events through ordered rule tables, pages through both kinds
//! of backend with resumable cursors, reconstructs lines backward from a
//! byte offset for the flat-file backend, and bounds the live-tail replay
//! buffer.  All of the decision logic is verified; the surrounding I/O
//! lives outside this crate and hands in plain values.

pub mod classify;
pub mod config;
pub mod cursor;
pub mod events;
pub mod journal;
pub mod names;
pub mod paginate;
pub mod parsers;
pub mod rules;
pub mod scan;
pub mod tables;
pub mod tail;
pub mod text;
