//! The way of the synthetic events of scripts to the virtual device.
use vstd::prelude::*;
use crate::codes::EV_REL;
use crate::device::{Emission, Sink};
use crate::magnus_ruby_runtime::SyntheticEvent;

verus! {

/// The record that a synthetic event becomes: the event as it is, on the
/// relative channel where it is a relative axis and on the key channel else.
pub open spec fn routed(event: SyntheticEvent) -> Emission {
    Emission {
        sink: if event.event_type == EV_REL {
            Sink::Axis
        } else {
            Sink::Keys
        },
        event_type: event.event_type,
        code: event.code,
        value: event.value,
    }
}

/// Sends the synthetic events of scripts on to the virtual device.
pub struct EventSender {
    synthetic_events: Vec<SyntheticEvent>,
}

impl EventSender {
    /// The events that are to be sent.
    pub closed spec fn events(&self) -> Seq<SyntheticEvent> {
        self.synthetic_events@
    }

    /// A sender for the events `synthetic_events`.
    pub fn new(synthetic_events: Vec<SyntheticEvent>) -> (sender: EventSender)
        ensures
            sender.events() == synthetic_events@,
    {
        EventSender { synthetic_events }
    }

    /// The record that `event` becomes.
    pub fn route(event: &SyntheticEvent) -> (emission: Emission)
        ensures
            emission == routed(*event),
    {
        Emission {
            sink: if event.event_type == EV_REL {
                Sink::Axis
            } else {
                Sink::Keys
            },
            event_type: event.event_type,
            code: event.code,
            value: event.value,
        }
    }

    /// The records for the virtual device: one for each event, in order.
    pub fn start(&self) -> (emissions: Vec<Emission>)
        ensures
            emissions@.len() == self.events().len(),
            forall|i: int|
                0 <= i < emissions@.len() ==> emissions@[i] == routed(#[trigger] self.events()[i]),
    {
        let mut emissions: Vec<Emission> = Vec::new();
        let mut i: usize = 0;
        while i < self.synthetic_events.len()
            invariant
                i <= self.synthetic_events@.len(),
                emissions@.len() == i,
                forall|j: int|
                    0 <= j < i ==> emissions@[j] == routed(#[trigger] self.synthetic_events@[j]),
            decreases self.synthetic_events@.len() - i,
        {
            emissions.push(EventSender::route(&self.synthetic_events[i]));
            i += 1;
        }
        emissions
    }
}

} // verus!
