//! The calendar resolver: selects the destination calendar by exact,
//! case-sensitive display-name match from the list that discovery returned.
//!
//! Resolution returns the single matching calendar or fails: zero matches is
//! a not-found failure carrying the names that were available; more than one
//! match is an ambiguity failure, never a silent pick among duplicates.

use vstd::prelude::*;

use crate::errors::SyncError;
use crate::model::{Calendar, CalendarView};

verus! {

/// The names of the given calendars, in order.
pub open spec fn calendar_names(cals: Seq<CalendarView>) -> Seq<Seq<char>> {
    cals.map_values(|c: CalendarView| c.name)
}

/// Some calendar in the sequence carries the name.
pub open spec fn some_match(cals: Seq<CalendarView>, name: Seq<char>) -> bool {
    exists|i: int| 0 <= i < cals.len() && cals[i].name == name
}

/// At least two distinct calendars in the sequence carry the name.
pub open spec fn two_matches(cals: Seq<CalendarView>, name: Seq<char>) -> bool {
    exists|i: int, j: int|
        0 <= i < j < cals.len() && cals[i].name == name && cals[j].name == name
}

/// Scans the discovered calendars for the one whose name equals `name`
/// exactly (case-sensitive, no normalization). Returns the single match;
/// fails on zero matches with the requested name and the names actually
/// available, and on duplicates without picking among them.
pub fn resolve_calendar(calendars: &Vec<Calendar>, name: &String) -> (r: Result<
    Calendar,
    SyncError,
>)
    ensures
        match r {
            Ok(c) => {
                &&& some_match(calendars.deep_view(), name@)
                &&& !two_matches(calendars.deep_view(), name@)
                &&& c@.name == name@
                &&& exists|i: int|
                    0 <= i < calendars.deep_view().len() && c@ == calendars.deep_view()[i]
            },
            Err(SyncError::CalendarNotFound { requested, available }) => {
                &&& !some_match(calendars.deep_view(), name@)
                &&& requested@ == name@
                &&& available.deep_view() == calendar_names(calendars.deep_view())
            },
            Err(SyncError::AmbiguousCalendar { requested }) => {
                &&& two_matches(calendars.deep_view(), name@)
                &&& requested@ == name@
            },
            Err(_) => false,
        },
{
    let ghost dv = calendars.deep_view();
    let n = calendars.len();
    let mut found: Option<usize> = Option::None;
    let mut ambiguous = false;
    let mut names: Vec<String> = Vec::new();
    for i in 0..n
        invariant
            n == calendars.len(),
            dv == calendars.deep_view(),
            names.deep_view() =~= calendar_names(dv.take(i as int)),
            match found {
                Option::Some(k) => 0 <= k < i && dv[k as int].name == name@,
                Option::None => forall|j: int| 0 <= j < i ==> dv[j].name != name@,
            },
            ambiguous <==> two_matches(dv.take(i as int), name@),
            found is None ==> !ambiguous,
    {
        names.push(calendars[i].name.clone());
        if calendars[i].name == *name {
            match found {
                Option::Some(_) => {
                    ambiguous = true;
                },
                Option::None => {
                    found = Option::Some(i);
                },
            }
        }
        proof {
            let t1 = dv.take(i + 1);
            assert(t1 =~= dv.take(i as int).push(dv[i as int]));
            assert(calendar_names(t1) =~= calendar_names(dv.take(i as int)).push(
                dv[i as int].name,
            ));
            assert(names.deep_view() =~= calendar_names(t1));
            if two_matches(t1, name@) && !two_matches(dv.take(i as int), name@) {
                let (a, b) = choose|a: int, b: int|
                    0 <= a < b < t1.len() && t1[a].name == name@ && t1[b].name == name@;
                assert(b == i && dv[a].name == name@);
            }
            if ambiguous {
                if dv[i as int].name == name@ && found is Some && found->0 != i {
                    let k = found->0 as int;
                    assert(t1[k].name == name@ && t1[i as int].name == name@);
                }
                assert(two_matches(t1, name@));
            }
        }
    }
    proof {
        assert(dv.take(n as int) =~= dv);
    }
    if ambiguous {
        Err(SyncError::AmbiguousCalendar { requested: name.clone() })
    } else {
        match found {
            Option::Some(k) => Ok(calendars[k].duplicate()),
            Option::None => Err(
                SyncError::CalendarNotFound { requested: name.clone(), available: names },
            ),
        }
    }
}

} // verus!
