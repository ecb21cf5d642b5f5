//! The canonical item model every site adapter must produce, and the error
//! values the pipeline hands around.

use vstd::prelude::*;

verus! {

/// One candidate post, normalized. `item_key` is unique within a source and
/// stable across repeated fetches of the same post, e.g. derived from the
/// post URL; `published_at` is a UTC instant in Unix seconds. Items need not
/// arrive in timestamp order: a source may reorder or backfill.
pub struct NormalizedItem {
    pub source_id: String,
    pub item_key: String,
    pub title: String,
    pub url: String,
    pub author: Option<String>,
    pub published_at: i64,
    pub body: Option<String>,
    pub media_urls: Vec<String>,
}

impl NormalizedItem {
    /// The pair that identifies this item in the delivery ledger.
    pub open spec fn ledger_pair(&self) -> (Seq<char>, Seq<char>) {
        (self.source_id@, self.item_key@)
    }
}

/// A transient fetch failure: the tick is skipped, nothing is retried until
/// the next tick, and no state changes.
#[derive(Debug)]
pub struct FetchError {
    pub message: String,
}

} // verus!
