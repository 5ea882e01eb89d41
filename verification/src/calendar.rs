//! Calendar records and the calendar listing: mapping the outcome of an
//! upstream CalDAV fetch into the service's own response shape.

use vstd::prelude::*;

use crate::error::UpstreamError;

verus! {

/// A raw calendar record as the upstream CalDAV client reports it,
/// reduced to the plain values this service reads: its URL (already
/// rendered as a string), its display name, and an optional color.
#[derive(Debug)]
pub struct CalendarRecord {
    pub url: String,
    pub name: String,
    pub color: Option<String>,
}

/// A calendar as the service reports it: URL, name, optional color.
/// Its URL identifies it within one response.
#[derive(Debug)]
pub struct Calendar {
    pub url: String,
    pub name: String,
    pub color: Option<String>,
}

/// The calendar a raw record maps to: the same URL, name and color.
pub open spec fn calendar_of(record: CalendarRecord) -> Calendar {
    Calendar { url: record.url, name: record.name, color: record.color }
}

impl<'a> From<&'a CalendarRecord> for Calendar {
    fn from(record: &'a CalendarRecord) -> (calendar: Calendar) {
        Calendar {
            url: record.url.clone(),
            name: record.name.clone(),
            color: match &record.color {
                Some(color) => Some(color.clone()),
                None => None,
            },
        }
    }
}

impl<'a> vstd::std_specs::convert::FromSpecImpl<&'a CalendarRecord> for Calendar {
    open spec fn obeys_from_spec() -> bool {
        true
    }

    open spec fn from_spec(record: &'a CalendarRecord) -> Calendar {
        calendar_of(*record)
    }
}

/// The calendar listing, given the outcome of the upstream fetch: on a
/// successful fetch, every record maps to a calendar, in order; on a
/// failed fetch, the failure is passed through as an error value, so the
/// request ends in an error response rather than a crash.
pub fn get_calendars(fetched: Result<Vec<CalendarRecord>, UpstreamError>) -> (result: Result<
    Vec<Calendar>,
    UpstreamError,
>)
    ensures
        match fetched {
            Ok(records) => ({
                &&& result is Ok
                &&& result.unwrap()@.len() == records@.len()
                &&& forall|i: int|
                    0 <= i < records@.len() ==> result.unwrap()@[i] == calendar_of(records@[i])
            }),
            Err(e) => result == Err::<Vec<Calendar>, UpstreamError>(e),
        },
{
    match fetched {
        Ok(records) => {
            let mut calendars: Vec<Calendar> = Vec::new();
            let mut i: usize = 0;
            while i < records.len()
                invariant
                    i <= records.len(),
                    calendars@.len() == i,
                    forall|j: int| 0 <= j < i ==> calendars@[j] == calendar_of(records@[j]),
                decreases records.len() - i,
            {
                calendars.push(Calendar::from(&records[i]));
                i = i + 1;
            }
            Ok(calendars)
        },
        Err(e) => Err(e),
    }
}

} // verus!
