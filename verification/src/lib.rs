//! Watch-and-deliver pipeline for forum news: freshness filtering, an
//! idempotent delivery ledger, codepoint-safe content chunking, and the
//! decision logic of the polling watchers and the publisher.

use vstd::prelude::*;

pub mod channel;
pub mod diablo;
pub mod ea_live_updates;
pub mod interval;
pub mod item;
pub mod last_epoch;
pub mod ledger;
pub mod markdown;
pub mod message;
pub mod message_handler;
pub mod poe_forum;
pub mod publisher;
pub mod source;
pub mod status;
pub mod teasers;
pub mod watcher;

verus! {

/// Hard upper bound on the character count of one chat embed description.
pub const EMBED_DESCRIPTION_MAX_CHARS: usize = 4096;

/// Smaller display limit used for the summary text of a primary message.
pub const EMBED_DESCRIPTION_CUSTOM_MAX_CHARS: usize = 1000;

} // verus!
