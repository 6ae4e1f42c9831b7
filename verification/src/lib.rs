//! One-directional synchronization of events from a remote iCalendar feed
//! into a named calendar on a CalDAV server.
//!
//! The crate verifies the synchronization protocol itself: resolving the
//! destination calendar by exact name, parsing the feed into source events,
//! mapping each source event into a destination-compatible record, and the
//! state machine that drives one run. Network transport is left to the
//! caller, which feeds results back into the driver.

pub mod driver;
pub mod errors;
pub mod feed;
pub mod mapper;
pub mod model;
pub mod resolver;
