//! Core engine of a chat-platform curation bot.
//!
//! The library holds the verified decision logic: per-community settings,
//! the dedup ledger of already-promoted messages, the durable reminder
//! ledger with its scheduler step, the curation decision itself, the
//! community counter, and the color-role records. All platform I/O (the
//! chat transport and the row store) lives outside, in the driver, which
//! hands these functions plain values and performs the actions they
//! decide on.

use vstd::prelude::*;

pub mod colors;
pub mod community;
pub mod curation;
pub mod events;
pub mod parse;
pub mod reminders;
pub mod settings;
pub mod starred;

verus! {

} // verus!
