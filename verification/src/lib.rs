//! Asynchronous human-in-the-loop interaction coordinator.
//!
//! The library turns a single "show this to the user and wait for a reply"
//! request into a task with a stable identity, models the launch of a
//! detached UI process that collects the reply, persists enough state to
//! survive process restarts, and decodes the human's answer into structured
//! content parts.  All decision logic is verified; the surrounding shell
//! (file reads, process spawning, sleeping) lives outside the library and
//! feeds plain values in.

use vstd::prelude::*;

pub mod acemcp;
pub mod appmeta;
pub mod clip;
pub mod config;
pub mod coordinator;
pub mod docs;
pub mod history;
pub mod json;
pub mod launcher;
pub mod memory;
pub mod messages;
pub mod pantry;
pub mod protocol;
pub mod reply;
pub mod task;
pub mod text;

verus! {

/// Largest base64 payload, in characters, that is embedded verbatim in a
/// reply; anything longer is only described.
pub const MAX_EMBED_BASE64_LEN: usize = 8 * 1024 * 1024;

} // verus!
