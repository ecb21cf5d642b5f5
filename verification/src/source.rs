//! Source configuration: one watched forum/subforum+locale combination.
//! Sources are created at startup from static configuration and never
//! mutated; one polling watcher runs per source.

use vstd::prelude::*;

verus! {

use vstd::string::StringExecFns;
use crate::channel::AppChannel;

/// The immutable configuration of one watched source. `descriptor` is an
/// opaque tag the fetch/parse adapters select on; the core never reads it.
pub struct Source {
    pub id: String,
    pub label: String,
    pub locale: String,
    pub channel: AppChannel,
    pub poll_interval_mins: u64,
    pub freshness_window_mins: i64,
    pub descriptor: String,
}

impl Source {
    /// A usable source names itself and polls at a positive interval with a
    /// positive freshness window.
    pub open spec fn well_formed(&self) -> bool {
        &&& self.id@.len() > 0
        &&& self.poll_interval_mins >= 1
        &&& self.freshness_window_mins >= 1
    }

    /// Builds a source configuration.
    pub fn new(
        id: &str,
        label: &str,
        locale: &str,
        channel: AppChannel,
        poll_interval_mins: u64,
        freshness_window_mins: i64,
        descriptor: &str,
    ) -> (s: Source)
        requires
            id@.len() > 0,
            poll_interval_mins >= 1,
            freshness_window_mins >= 1,
        ensures
            s.well_formed(),
            s.id@ == id@,
            s.label@ == label@,
            s.locale@ == locale@,
            s.channel == channel,
            s.poll_interval_mins == poll_interval_mins,
            s.freshness_window_mins == freshness_window_mins,
            s.descriptor@ == descriptor@,
    {
        Source {
            id: id.to_owned(),
            label: label.to_owned(),
            locale: locale.to_owned(),
            channel,
            poll_interval_mins,
            freshness_window_mins,
            descriptor: descriptor.to_owned(),
        }
    }
}

} // verus!
