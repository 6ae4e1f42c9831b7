//! The sync driver: one run's state machine.
//!
//! A run moves through resolving the destination calendar, fetching the
//! feed, and then mapping and persisting each source event in feed order,
//! with any step's failure terminal for the whole run. The driver owns every
//! decision; the caller performs the I/O each returned action asks for and
//! hands the outcome back. Every persisted record carries no identity
//! reference, so every write is a creation: re-running against an unchanged
//! feed duplicates every event (see `lemma_rerun_creates_duplicates`).

use vstd::prelude::*;

use crate::errors::SyncError;
use crate::feed::{feed_parse, parse_feed};
use crate::mapper::{map_event, mapped_event};
use crate::model::{Calendar, CalendarView, DestEvent, DestEventView, SourceEvent, SourcePropertyView};
use crate::resolver::{calendar_names, resolve_calendar, some_match, two_matches};

verus! {

/// Where a run stands.
pub enum SyncPhase {
    /// Nothing has happened yet.
    Start,
    /// Waiting for the calendar discovery result.
    ResolvingCalendar,
    /// The calendar is resolved; waiting for the feed bytes.
    FetchingFeed,
    /// Persisting the mapped events one by one, in feed order.
    Persisting,
    /// The run completed: every source event was persisted.
    Done,
    /// The run failed; the driver's error says why.
    Failed,
}

/// What happened to one source event.
pub enum EventOutcome {
    /// The mapped record was written as a new destination event.
    Created,
    /// Writing the mapped record failed with this description.
    PersistFailed(String),
}

/// What the caller must do next.
pub enum SyncAction {
    /// List the calendars of the destination server and report the result.
    DiscoverCalendars,
    /// Retrieve the feed document's bytes and report the result.
    FetchFeed,
    /// Write this record to the destination calendar and report the result.
    PersistEvent(DestEvent),
    /// The run completed; there is nothing left to do.
    Finished,
    /// The run failed; the driver's error says why.
    Aborted,
}

/// The destination records one successful run writes, in order: one per
/// source event, each mapped from its event. Every `PersistEvent` action of
/// a run carries the element of this sequence at the run's position.
pub open spec fn run_writes(cal: CalendarView, events: Seq<Seq<SourcePropertyView>>) -> Seq<
    DestEventView,
> {
    events.map_values(|e: Seq<SourcePropertyView>| mapped_event(cal, e))
}

/// One run over a feed of N events issues N creation writes; a second run
/// against the unchanged feed issues the same N again, so the two runs
/// together write 2N destination events, and none carries an identity
/// reference that would have made the second run an update.
pub proof fn lemma_rerun_creates_duplicates(
    cal: CalendarView,
    events: Seq<Seq<SourcePropertyView>>,
)
    ensures
        run_writes(cal, events).len() == events.len(),
        (run_writes(cal, events) + run_writes(cal, events)).len() == 2 * events.len(),
        forall|i: int|
            0 <= i < 2 * events.len() ==> (run_writes(cal, events) + run_writes(cal, events))[i]
                == run_writes(cal, events)[if i < events.len() {
                i
            } else {
                i - events.len()
            }],
        forall|i: int|
            0 <= i < events.len() ==> (#[trigger] run_writes(cal, events)[i]).identity is None,
{
}

/// Drives one synchronization run.
pub struct SyncDriver {
    /// The display name the destination calendar must carry, exactly.
    pub target_name: String,
    /// Where the run stands.
    pub phase: SyncPhase,
    /// Why the run failed; present exactly in the failed phase.
    pub error: Option<SyncError>,
    /// The resolved destination calendar, once resolution succeeded.
    pub calendar: Option<Calendar>,
    /// The source events of the fetched feed, in feed order.
    pub events: Vec<SourceEvent>,
    /// How many source events have been persisted so far.
    pub next: usize,
    /// One outcome per source event handled so far, in feed order.
    pub report: Vec<EventOutcome>,
}

impl SyncDriver {
    /// What holds of a driver between calls.
    pub open spec fn wf(self) -> bool {
        &&& (self.phase is FetchingFeed || self.phase is Persisting) ==> (self.calendar matches
            Some(c) && c@.name == self.target_name@)
        &&& self.phase is Persisting ==> self.next < self.events@.len() && self.report@.len()
            == self.next
        &&& self.phase is Failed <==> self.error is Some
        &&& (self.phase is Start || self.phase is ResolvingCalendar || self.phase
            is FetchingFeed) ==> self.report@.len() == 0
    }

    /// A fresh driver for one run against the calendar of the given name.
    pub fn new(target_name: String) -> (d: SyncDriver)
        ensures
            d.wf(),
            d.phase is Start,
            d.target_name == target_name,
            d.report@.len() == 0,
            d.error is None,
    {
        SyncDriver {
            target_name,
            phase: SyncPhase::Start,
            error: Option::None,
            calendar: Option::None,
            events: Vec::new(),
            next: 0,
            report: Vec::new(),
        }
    }

    /// Begins the run: the first step is resolving the destination calendar.
    pub fn start(&mut self) -> (a: SyncAction)
        requires
            old(self).wf(),
            old(self).phase is Start,
        ensures
            final(self).wf(),
            final(self).phase is ResolvingCalendar,
            final(self).target_name == old(self).target_name,
            final(self).report == old(self).report,
            final(self).error is None,
            a is DiscoverCalendars,
    {
        self.phase = SyncPhase::ResolvingCalendar;
        SyncAction::DiscoverCalendars
    }

    /// Consumes the discovery result. A transport failure fails the run; a
    /// calendar list is resolved against the target name: the single exact
    /// match advances the run to fetching the feed, zero matches fail it
    /// naming the requested calendar and the names available, duplicates
    /// fail it without picking among them.
    pub fn on_calendars(&mut self, result: Result<Vec<Calendar>, String>) -> (a: SyncAction)
        requires
            old(self).wf(),
            old(self).phase is ResolvingCalendar,
        ensures
            final(self).wf(),
            final(self).target_name == old(self).target_name,
            final(self).report == old(self).report,
            match result {
                Result::Err(msg) => {
                    &&& final(self).phase is Failed
                    &&& final(self).error matches Some(SyncError::Discovery(m)) && m == msg
                    &&& a is Aborted
                },
                Result::Ok(cals) => {
                    let dv = cals.deep_view();
                    let name = old(self).target_name@;
                    &&& (some_match(dv, name) && !two_matches(dv, name)) ==> {
                        &&& final(self).phase is FetchingFeed
                        &&& final(self).calendar matches Some(c) && c@.name == name && (exists|
                            i: int,
                        | 0 <= i < dv.len() && c@ == dv[i])
                        &&& a is FetchFeed
                    }
                    &&& !some_match(dv, name) ==> {
                        &&& final(self).phase is Failed
                        &&& final(self).error matches Some(
                            SyncError::CalendarNotFound { requested, available },
                        ) && requested@ == name && available.deep_view() == calendar_names(dv)
                        &&& a is Aborted
                    }
                    &&& two_matches(dv, name) ==> {
                        &&& final(self).phase is Failed
                        &&& final(self).error matches Some(
                            SyncError::AmbiguousCalendar { requested },
                        ) && requested@ == name
                        &&& a is Aborted
                    }
                },
            },
    {
        match result {
            Result::Err(msg) => {
                self.error = Option::Some(SyncError::Discovery(msg));
                self.phase = SyncPhase::Failed;
                SyncAction::Aborted
            },
            Result::Ok(cals) => {
                match resolve_calendar(&cals, &self.target_name) {
                    Ok(c) => {
                        self.calendar = Option::Some(c);
                        self.phase = SyncPhase::FetchingFeed;
                        SyncAction::FetchFeed
                    },
                    Err(e) => {
                        self.error = Option::Some(e);
                        self.phase = SyncPhase::Failed;
                        SyncAction::Aborted
                    },
                }
            },
        }
    }

    /// Consumes the feed retrieval result. A transport failure fails the
    /// run, as does an unparseable body or a body with zero calendar
    /// objects. A feed with zero events completes the run at once, with an
    /// empty report; otherwise the first mapped record is handed out for
    /// persistence.
    pub fn on_feed(&mut self, result: Result<Vec<u8>, String>) -> (a: SyncAction)
        requires
            old(self).wf(),
            old(self).phase is FetchingFeed,
        ensures
            final(self).wf(),
            final(self).target_name == old(self).target_name,
            final(self).report == old(self).report,
            match result {
                Result::Err(msg) => {
                    &&& final(self).phase is Failed
                    &&& final(self).error matches Some(SyncError::Fetch(m)) && m == msg
                    &&& a is Aborted
                },
                Result::Ok(bytes) => match feed_parse(bytes@) {
                    Option::None => {
                        &&& final(self).phase is Failed
                        &&& final(self).error matches Some(e) && e is Parse
                        &&& a is Aborted
                    },
                    Option::Some(Option::None) => {
                        &&& final(self).phase is Failed
                        &&& final(self).error matches Some(e) && e is EmptyFeed
                        &&& a is Aborted
                    },
                    Option::Some(Option::Some(evts)) => {
                        if evts.len() == 0 {
                            &&& final(self).phase is Done
                            &&& final(self).report@.len() == 0
                            &&& a is Finished
                        } else {
                            &&& final(self).phase is Persisting
                            &&& final(self).events.deep_view() == evts
                            &&& final(self).next == 0
                            &&& final(self).calendar == old(self).calendar
                            &&& a matches SyncAction::PersistEvent(d) && d@ == mapped_event(
                                old(self).calendar->Some_0@,
                                evts[0],
                            )
                        }
                    },
                },
            },
    {
        match result {
            Result::Err(msg) => {
                self.error = Option::Some(SyncError::Fetch(msg));
                self.phase = SyncPhase::Failed;
                SyncAction::Aborted
            },
            Result::Ok(bytes) => {
                match parse_feed(&bytes) {
                    Err(e) => {
                        self.error = Option::Some(e);
                        self.phase = SyncPhase::Failed;
                        SyncAction::Aborted
                    },
                    Ok(cal) => {
                        if cal.events.len() == 0 {
                            self.phase = SyncPhase::Done;
                            SyncAction::Finished
                        } else {
                            self.events = cal.events;
                            self.next = 0;
                            self.phase = SyncPhase::Persisting;
                            let d = match &self.calendar {
                                Option::Some(c) => map_event(&self.events[0], c),
                                Option::None => unreached(),
                            };
                            SyncAction::PersistEvent(d)
                        }
                    },
                }
            },
        }
    }

    /// Consumes one persistence result. A failure is recorded and fails the
    /// whole run (remaining events are not attempted); a success is recorded
    /// and either completes the run — the report then holds one outcome per
    /// source event — or hands out the next mapped record.
    pub fn on_persist(&mut self, result: Result<(), String>) -> (a: SyncAction)
        requires
            old(self).wf(),
            old(self).phase is Persisting,
        ensures
            final(self).wf(),
            final(self).target_name == old(self).target_name,
            match result {
                Result::Err(msg) => {
                    &&& final(self).phase is Failed
                    &&& final(self).error matches Some(SyncError::Persistence(m)) && m == msg
                    &&& final(self).report@ == old(self).report@.push(
                        EventOutcome::PersistFailed(msg),
                    )
                    &&& a is Aborted
                },
                Result::Ok(_) => {
                    &&& final(self).report@ == old(self).report@.push(EventOutcome::Created)
                    &&& if old(self).next + 1 == old(self).events@.len() {
                        &&& final(self).phase is Done
                        &&& final(self).report@.len() == old(self).events@.len()
                        &&& a is Finished
                    } else {
                        &&& final(self).phase is Persisting
                        &&& final(self).next == old(self).next + 1
                        &&& final(self).events == old(self).events
                        &&& final(self).calendar == old(self).calendar
                        &&& a matches SyncAction::PersistEvent(d) && d@ == mapped_event(
                            old(self).calendar->Some_0@,
                            old(self).events.deep_view()[old(self).next + 1],
                        )
                    }
                },
            },
    {
        match result {
            Result::Err(msg) => {
                self.report.push(EventOutcome::PersistFailed(msg.clone()));
                self.error = Option::Some(SyncError::Persistence(msg));
                self.phase = SyncPhase::Failed;
                SyncAction::Aborted
            },
            Result::Ok(_) => {
                self.report.push(EventOutcome::Created);
                let len = self.events.len();
                self.next = self.next + 1;
                if self.next == len {
                    self.phase = SyncPhase::Done;
                    SyncAction::Finished
                } else {
                    let d = match &self.calendar {
                        Option::Some(c) => map_event(&self.events[self.next], c),
                        Option::None => unreached(),
                    };
                    SyncAction::PersistEvent(d)
                }
            },
        }
    }
}

} // verus!
