//! The two ends of the engine: the records that the physical device hands in and
//! the records that go out to the virtual one.
use vstd::prelude::*;
use crate::codes::{EV_ABS, EV_KEY, EV_MSC, EV_REL};

verus! {

/// One record of the physical event stream.
#[derive(Debug, PartialEq, Eq, Structural, Hash, Clone, Copy)]
pub struct RawEvent {
    pub event_type: u16,
    pub code: u16,
    pub value: i32,
    pub timestamp_sec: u64,
    pub timestamp_nsec: u32,
}

/// The channels of the virtual device.
#[derive(Debug, PartialEq, Eq, Structural, Hash, Clone, Copy)]
pub enum Sink {
    /// Keys and buttons.
    Keys,
    /// Relative axes: pointer and scroll motion.
    Axis,
    /// Absolute axes: what a tablet reports.
    Abs,
}

/// One record for the virtual device: what is written, and on which channel.
#[derive(Debug, PartialEq, Eq, Structural, Hash, Clone, Copy)]
pub struct Emission {
    pub sink: Sink,
    pub event_type: u16,
    pub code: u16,
    pub value: i32,
}

/// The record that sets the key `code` to `value` on the key channel.
pub open spec fn key_emission(code: u16, value: i32) -> Emission {
    Emission { sink: Sink::Keys, event_type: EV_KEY, code, value }
}

/// The channel that takes an unchanged event of the given type, if any does: keys
/// for keys, the relative channel for relative axes, the absolute channel for
/// absolute axes and for miscellaneous events.
pub open spec fn sink_of(event_type: u16) -> Option<Sink> {
    if event_type == EV_KEY {
        Some(Sink::Keys)
    } else if event_type == EV_REL {
        Some(Sink::Axis)
    } else if event_type == EV_ABS || event_type == EV_MSC {
        Some(Sink::Abs)
    } else {
        None
    }
}

/// What passing `raw` on unchanged adds to what was sent: the event itself on the
/// channel of its type, nothing where no channel takes the type.
pub open spec fn with_default(sent: Seq<Emission>, raw: RawEvent) -> Seq<Emission> {
    match sink_of(raw.event_type) {
        Some(sink) => sent.push(
            Emission { sink, event_type: raw.event_type, code: raw.code, value: raw.value },
        ),
        None => sent,
    }
}

impl Emission {
    /// The record that sets the key `code` to `value` on the key channel.
    pub fn key(code: u16, value: i32) -> (emission: Emission)
        ensures
            emission == key_emission(code, value),
    {
        Emission { sink: Sink::Keys, event_type: EV_KEY, code, value }
    }
}

/// The channel that takes an unchanged event of the given type, if any does.
pub fn default_sink(event_type: u16) -> (sink: Option<Sink>)
    ensures
        sink == sink_of(event_type),
{
    if event_type == EV_KEY {
        Some(Sink::Keys)
    } else if event_type == EV_REL {
        Some(Sink::Axis)
    } else if event_type == EV_ABS || event_type == EV_MSC {
        Some(Sink::Abs)
    } else {
        None
    }
}

/// Passes `raw` on unchanged.
pub fn emit_default_event(raw: &RawEvent, out: &mut Vec<Emission>)
    ensures
        final(out)@ == with_default(old(out)@, *raw),
{
    match default_sink(raw.event_type) {
        Some(sink) => {
            out.push(
                Emission { sink, event_type: raw.event_type, code: raw.code, value: raw.value },
            );
        },
        None => {},
    }
}

} // verus!
