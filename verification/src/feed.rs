//! The feed side: turning the bytes of a retrieved iCalendar document into
//! the source calendar that a run synchronizes from.
//!
//! The iCalendar text grammar itself is an outside capability; what this
//! module verifies is the rule around it: the first calendar object of the
//! document is taken, a document with zero calendar objects is an empty-feed
//! failure, and an unparseable document is a parse failure.

use vstd::prelude::*;

use crate::errors::SyncError;
use crate::model::{SourceCalendar, SourceEvent, SourceProperty, SourcePropertyView};

verus! {

/// What parsing an iCalendar document yields, as a function of its bytes
/// alone: `None` when the document is not parseable; `Some(None)` when it
/// parses but holds zero calendar objects; `Some(Some(events))` when it has a
/// first calendar object, whose events these are, each an ordered sequence
/// of name/value properties.
pub uninterp spec fn feed_parse(bytes: Seq<u8>) -> Option<Option<Seq<Seq<SourcePropertyView>>>>;

/// Relies on ical's parser (`ical::IcalParser`): reading the first calendar
/// object out of a document is a function of the document bytes alone; the
/// iterator yields nothing for a document with no calendar object, an error
/// for an unparseable one, and otherwise the first calendar object with its
/// events' property lists intact.
#[verifier::external_body]
fn parse_first_calendar(bytes: &Vec<u8>) -> (r: Result<Option<SourceCalendar>, String>)
    ensures
        match feed_parse(bytes@) {
            Option::None => r is Err,
            Option::Some(Option::None) => r matches Ok(inner) && inner is None,
            Option::Some(Option::Some(evts)) => r matches Ok(inner) && inner matches Some(cal)
                && cal@ == evts,
        },
{
    let mut parser = ical::IcalParser::new(bytes.as_slice());
    match parser.next() {
        None => Ok(None),
        Some(Err(e)) => Err(format!("{}", e)),
        Some(Ok(cal)) => Ok(Some(SourceCalendar {
            events: cal.events.into_iter().map(|ev| SourceEvent {
                properties: ev.properties.into_iter().map(|p| SourceProperty {
                    name: p.name,
                    value: p.value,
                }).collect(),
            }).collect(),
        })),
    }
}

/// Parses the bytes of a retrieved feed document into the source calendar of
/// this run: the first calendar object found. An unparseable document is a
/// parse failure carrying the underlying description; a parseable one with
/// zero calendar objects is an empty-feed failure.
pub fn parse_feed(bytes: &Vec<u8>) -> (r: Result<SourceCalendar, SyncError>)
    ensures
        match feed_parse(bytes@) {
            Option::None => r matches Err(e) && e is Parse,
            Option::Some(Option::None) => r matches Err(e) && e is EmptyFeed,
            Option::Some(Option::Some(evts)) => r matches Ok(cal) && cal@ == evts,
        },
{
    match parse_first_calendar(bytes) {
        Ok(Option::Some(cal)) => Ok(cal),
        Ok(Option::None) => Err(SyncError::EmptyFeed),
        Err(msg) => Err(SyncError::Parse(msg)),
    }
}

} // verus!
