//! Error taxonomy of a synchronization run. Every failure is terminal for
//! the run: no component retries internally.

use vstd::prelude::*;

verus! {

/// Why a synchronization run failed.
#[derive(Debug)]
pub enum SyncError {
    /// Transport, authentication or protocol failure while listing the
    /// calendars of the destination server.
    Discovery(String),
    /// Discovery succeeded, but no calendar carried the requested name
    /// (exact, case-sensitive match). Carries the requested name and the
    /// names that were actually available.
    CalendarNotFound { requested: String, available: Vec<String> },
    /// Discovery succeeded, but more than one calendar carried the requested
    /// name; the resolver never silently picks among duplicates.
    AmbiguousCalendar { requested: String },
    /// Transport or protocol failure while retrieving the source feed.
    Fetch(String),
    /// The feed body could not be parsed as an iCalendar document. Carries
    /// the underlying parse failure's description.
    Parse(String),
    /// The feed parsed, but held zero calendar objects.
    EmptyFeed,
    /// Writing one mapped event to the destination calendar failed.
    Persistence(String),
}

} // verus!
