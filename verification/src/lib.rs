//! Verified core of a system-wide input-capture layer.
//!
//! The crate holds the platform-independent logic of a global mouse and
//! keyboard hook: normalization of raw platform events into a canonical
//! press/release shape, the heuristic that classifies raw input devices,
//! and the start/stop lifecycle of the per-class hook state. The
//! platform's own interception primitives (hook installation, message
//! pumps, device reads) live outside this crate and act only on the
//! commands this core hands back.

pub mod backend;
pub mod classify;
pub mod controller;
pub mod devio;
pub mod events;
pub mod normalize;
pub mod pump;
