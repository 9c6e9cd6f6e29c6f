//! Verified core of a real-time collaborative drawing server.
//!
//! Many clients share one raster canvas per room. This crate holds the parts
//! of such a server that decide and compute: the wire-level message model and
//! its validation, the versioned raster tile with its snapshots, the
//! per-connection token bucket, the room registry, and the decisions of the
//! per-connection session. Sockets, timers, task scheduling, text
//! serialisation and rasterisation of dab geometry are left to the embedding
//! program, which hands this crate plain values and carries out the actions
//! it answers with.

pub mod encoding;
pub mod limiter;
pub mod model;
pub mod room;
pub mod session;
pub mod tile;
