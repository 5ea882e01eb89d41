//! The event listing: a fixed placeholder list of two events.

use vstd::prelude::*;

verus! {

/// An event as the service reports it: nothing but a name.
pub struct Event {
    pub name: String,
}

/// The placeholder event list: always exactly the two events
/// "Event2" and "Event1", in that order.
pub fn get_events() -> (events: Vec<Event>)
    ensures
        events@.len() == 2,
        events@[0].name@ == "Event2"@,
        events@[1].name@ == "Event1"@,
{
    let mut events: Vec<Event> = Vec::new();
    events.push(Event { name: "Event2".to_owned() });
    events.push(Event { name: "Event1".to_owned() });
    events
}

} // verus!
