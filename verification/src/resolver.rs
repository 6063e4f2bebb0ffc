//! The event resolver and emitter: which binding an event falls to under the chord
//! that is held, and the records that the virtual device gets for it.
use vstd::prelude::*;
use crate::chord::{events_contain, toggled, Chord};
use crate::codes::EV_KEY;
use crate::config::{
    find, lookup, Binding, Bindings, Config, Cursor, Event, MappedModifiers, Relative, Scroll,
};
use crate::device::{emit_default_event, key_emission, with_default, Emission, RawEvent, Sink};

verus! {

/// The modifier chord tracker: the chord that is held, and whether a modifier was
/// used in a combination since a custom modifier last went down.
pub struct Tracker {
    pub chord: Chord,
    pub modifier_was_activated: bool,
}

/// The state of the tracker together with the records sent so far.
#[verifier::ext_equal]
pub struct Trace {
    pub chord: Seq<Event>,
    pub activated: bool,
    pub sent: Seq<Emission>,
}

/// The trace that a tracker and an output buffer stand for.
pub open spec fn trace(tracker: Tracker, out: Vec<Emission>) -> Trace {
    Trace { chord: tracker.chord@, activated: tracker.modifier_was_activated, sent: out@ }
}

impl Tracker {
    /// A tracker with the given chord and flag.
    pub fn new(chord: Chord, modifier_was_activated: bool) -> (tracker: Tracker)
        ensures
            tracker.chord@ == chord@,
            tracker.modifier_was_activated == modifier_was_activated,
    {
        Tracker { chord, modifier_was_activated }
    }
}

/// The binding that an event falls to.
#[derive(Debug, PartialEq, Eq, Structural, Hash, Clone, Copy)]
pub enum Resolution {
    /// A script takes the event over: the place of its rule in the script table.
    Script(usize),
    /// The remap rule for exactly the chord that is held: its place in the table.
    Exact(usize),
    /// The remap rule under the chord that holds `Hold` alone.
    Hold(usize),
    /// The movement rule for exactly the chord that is held.
    Movement(usize),
    /// The remap rule under the empty chord.
    Bare(usize),
    /// No rule: the event passes through.
    Passthrough,
}

/// The chord that holds `Hold` alone.
pub open spec fn hold_chord() -> Seq<Event> {
    seq![Event::Hold]
}

/// Resolution order. With scripts on, a script rule for the chord comes first.
/// Then the remap rule for exactly the chord; then the remap rule under `Hold`,
/// which needs a chord that is not empty unless `chain_only` is off; then the
/// movement rule for exactly the chord; then the remap rule under the empty
/// chord; and at last nothing, which lets the event pass through.
pub open spec fn resolution(
    bindings: Bindings,
    scripts: bool,
    chain_only: bool,
    trigger: Event,
    chord: Seq<Event>,
) -> Resolution {
    if scripts && find(bindings.rubies@, trigger, chord) is Some {
        Resolution::Script(find(bindings.rubies@, trigger, chord)->0 as usize)
    } else if find(bindings.remap@, trigger, chord) is Some {
        Resolution::Exact(find(bindings.remap@, trigger, chord)->0 as usize)
    } else if find(bindings.remap@, trigger, hold_chord()) is Some && (chord.len() > 0
        || !chain_only) {
        Resolution::Hold(find(bindings.remap@, trigger, hold_chord())->0 as usize)
    } else if find(bindings.movements@, trigger, chord) is Some {
        Resolution::Movement(find(bindings.movements@, trigger, chord)->0 as usize)
    } else if find(bindings.remap@, trigger, Seq::<Event>::empty()) is Some {
        Resolution::Bare(find(bindings.remap@, trigger, Seq::<Event>::empty())->0 as usize)
    } else {
        Resolution::Passthrough
    }
}

/// Resolves `trigger` under `chord`.
pub fn resolve(
    bindings: &Bindings,
    scripts: bool,
    chain_only: bool,
    trigger: Event,
    chord: &Vec<Event>,
) -> (r: Resolution)
    ensures
        r == resolution(*bindings, scripts, chain_only, trigger, chord@),
        match r {
            Resolution::Script(i) => i < bindings.rubies@.len(),
            Resolution::Exact(i) => i < bindings.remap@.len(),
            Resolution::Hold(i) => i < bindings.remap@.len(),
            Resolution::Movement(i) => i < bindings.movements@.len(),
            Resolution::Bare(i) => i < bindings.remap@.len(),
            Resolution::Passthrough => true,
        },
{
    if scripts {
        if let Some(i) = lookup(&bindings.rubies, trigger, chord) {
            return Resolution::Script(i);
        }
    }
    if let Some(i) = lookup(&bindings.remap, trigger, chord) {
        return Resolution::Exact(i);
    }
    if chord.len() > 0 || !chain_only {
        let mut hold: Vec<Event> = Vec::new();
        hold.push(Event::Hold);
        assert(hold@ =~= hold_chord());
        if let Some(i) = lookup(&bindings.remap, trigger, &hold) {
            return Resolution::Hold(i);
        }
    }
    if let Some(i) = lookup(&bindings.movements, trigger, chord) {
        return Resolution::Movement(i);
    }
    let bare: Vec<Event> = Vec::new();
    assert(bare@ =~= Seq::<Event>::empty());
    if let Some(i) = lookup(&bindings.remap, trigger, &bare) {
        return Resolution::Bare(i);
    }
    Resolution::Passthrough
}

/// Every output key that some remap rule binds under `chord`, whatever its
/// trigger, in the order of the table.
pub open spec fn bound_under(remap: Seq<Binding<Vec<u16>>>, chord: Seq<Event>) -> Seq<u16>
    decreases remap.len(),
{
    if remap.len() == 0 {
        Seq::empty()
    } else if remap.last().chord@ == chord {
        bound_under(remap.drop_last(), chord) + remap.last().output@
    } else {
        bound_under(remap.drop_last(), chord)
    }
}

/// The chord that the output keys of `list` leave of `chord` when they change to
/// `value`: each of them that is a custom modifier is toggled.
pub open spec fn own_update(
    chord: Seq<Event>,
    list: Seq<u16>,
    value: i32,
    modifiers: MappedModifiers,
) -> Seq<Event>
    decreases list.len(),
{
    if list.len() == 0 {
        chord
    } else {
        let before = own_update(chord, list.drop_last(), value, modifiers);
        if modifiers.custom@.contains(Event::Key(list.last())) {
            toggled(before, Event::Key(list.last()), value as int, modifiers.all@)
        } else {
            before
        }
    }
}

/// Release bookkeeping. Of the keys `bound`, each one that is not a member of
/// `target` is released in the virtual device, and leaves the chord if it is a
/// modifier. With `only_modifiers`, this is done for the modifiers among the keys
/// only.
pub open spec fn released(
    bound: Seq<u16>,
    target: Seq<Event>,
    all: Seq<Event>,
    only_modifiers: bool,
    t: Trace,
) -> Trace
    decreases bound.len(),
{
    if bound.len() == 0 {
        t
    } else {
        let before = released(bound.drop_last(), target, all, only_modifiers, t);
        let key = bound.last();
        if !target.contains(Event::Key(key)) && (!only_modifiers || all.contains(
            Event::Key(key),
        )) {
            Trace {
                chord: toggled(before.chord, Event::Key(key), 0, all),
                activated: before.activated,
                sent: before.sent.push(key_emission(key, 0)),
            }
        } else {
            before
        }
    }
}

/// What was sent, and then a release for every key among `members`.
pub open spec fn with_members_released(members: Seq<Event>, sent: Seq<Emission>) -> Seq<Emission>
    decreases members.len(),
{
    if members.len() == 0 {
        sent
    } else {
        let before = with_members_released(members.drop_last(), sent);
        match members.last() {
            Event::Key(code) => before.push(key_emission(code, 0)),
            _ => before,
        }
    }
}

/// Tap or combination. A custom modifier is never pressed in the virtual device
/// while it is held. When it goes up and nothing was sent while it was held, it
/// was tapped: a press and a release of `code` are sent, and the flag is set.
/// When it goes down the flag is cleared. Nothing else happens.
pub open spec fn tapped(event_type: u16, code: u16, value: i32, t: Trace) -> Trace {
    if value == 0 && !t.activated {
        Trace {
            chord: t.chord,
            activated: true,
            sent: t.sent.push(Emission { sink: Sink::Keys, event_type, code, value: 1 }).push(
                Emission { sink: Sink::Keys, event_type, code, value: 0 },
            ),
        }
    } else if value == 1 {
        Trace { chord: t.chord, activated: false, sent: t.sent }
    } else {
        t
    }
}

/// The output keys of `list`, one after the other. A custom modifier follows the
/// change into or out of the chord and is then handled as a tap or a combination;
/// any other key is sent with `value` and sets the flag.
pub open spec fn pressed(list: Seq<u16>, value: i32, modifiers: MappedModifiers, t: Trace) -> Trace
    decreases list.len(),
{
    if list.len() == 0 {
        t
    } else {
        let before = pressed(list.drop_last(), value, modifiers, t);
        let key = list.last();
        if modifiers.custom@.contains(Event::Key(key)) {
            tapped(
                EV_KEY,
                key,
                value,
                Trace {
                    chord: toggled(before.chord, Event::Key(key), value as int, modifiers.all@),
                    activated: before.activated,
                    sent: before.sent,
                },
            )
        } else {
            Trace {
                chord: before.chord,
                activated: true,
                sent: before.sent.push(key_emission(key, value)),
            }
        }
    }
}

/// The emission contract for a mapped output `list` at `value`.
///
/// With `release_keys`, unless `value` is the repeat value 2: every modifier key
/// that some remap rule binds under the chord of before, and that is not a member
/// of the chord as the output keys themselves leave it, is released and leaves
/// the chord. With `ignore_modifiers`: every key of the chord is
/// released in the virtual device, and stays in the chord. Then the output keys
/// follow, as `pressed` says.
pub open spec fn emitted(
    remap: Seq<Binding<Vec<u16>>>,
    modifiers: MappedModifiers,
    list: Seq<u16>,
    value: i32,
    release_keys: bool,
    ignore_modifiers: bool,
    t: Trace,
) -> Trace {
    let t1 = if release_keys && value != 2 {
        released(
            bound_under(remap, t.chord),
            own_update(t.chord, list, value, modifiers),
            modifiers.all@,
            true,
            t,
        )
    } else {
        t
    };
    let t2 = if ignore_modifiers {
        Trace {
            chord: t1.chord,
            activated: t1.activated,
            sent: with_members_released(t1.chord, t1.sent),
        }
    } else {
        t1
    };
    pressed(list, value, modifiers, t2)
}

/// The passthrough path for `event` at `value`, which came from the record `raw`.
///
/// Where the event is a modifier, and unless `value` is the repeat value 2, the
/// release bookkeeping runs against the chord as the event itself leaves it, and
/// for every key that is bound under the chord of before, modifier or not. The
/// chord follows the event. A custom modifier is then handled as a tap or a
/// combination, under the type and code of `raw`; anything else sets the flag,
/// and `raw` goes out unchanged.
pub open spec fn passed_through(
    remap: Seq<Binding<Vec<u16>>>,
    modifiers: MappedModifiers,
    raw: RawEvent,
    event: Event,
    value: i32,
    t: Trace,
) -> Trace {
    let t1 = if modifiers.all@.contains(event) && value != 2 {
        released(
            bound_under(remap, t.chord),
            toggled(t.chord, event, value as int, modifiers.all@),
            modifiers.all@,
            false,
            t,
        )
    } else {
        t
    };
    let t2 = Trace {
        chord: toggled(t1.chord, event, value as int, modifiers.all@),
        activated: t1.activated,
        sent: t1.sent,
    };
    if modifiers.custom@.contains(event) {
        tapped(raw.event_type, raw.code, value, t2)
    } else {
        Trace { chord: t2.chord, activated: true, sent: with_default(t2.sent, raw) }
    }
}

/// Collects the output keys that the remap rules bind under `chord`.
pub fn released_keys(remap: &Vec<Binding<Vec<u16>>>, chord: &Vec<Event>) -> (keys: Vec<u16>)
    ensures
        keys@ == bound_under(remap@, chord@),
{
    let mut keys: Vec<u16> = Vec::new();
    let mut i: usize = 0;
    while i < remap.len()
        invariant
            i <= remap@.len(),
            keys@ == bound_under(remap@.take(i as int), chord@),
        decreases remap@.len() - i,
    {
        assert(remap@.take(i as int + 1).drop_last() =~= remap@.take(i as int));
        if crate::chord::events_eq(&remap[i].chord, chord) {
            let ghost before = keys@;
            let mut j: usize = 0;
            while j < remap[i].output.len()
                invariant
                    i < remap@.len(),
                    j <= remap@[i as int].output@.len(),
                    keys@ == before + remap@[i as int].output@.take(j as int),
                decreases remap@[i as int].output@.len() - j,
            {
                keys.push(remap[i].output[j]);
                j += 1;
                assert(keys@ =~= before + remap@[i as int].output@.take(j as int));
            }
            assert(remap@[i as int].output@.take(j as int) =~= remap@[i as int].output@);
        }
        i += 1;
    }
    assert(remap@.take(i as int) =~= remap@);
    keys
}

/// Works out the chord that the output keys of `list` leave of `chord`.
fn updated_chord(chord: &Chord, list: &Vec<u16>, value: i32, modifiers: &MappedModifiers) -> (r:
    Chord)
    ensures
        r@ == own_update(chord@, list@, value, *modifiers),
{
    let mut r: Chord = Chord::from_events(&chord.snapshot());
    proof {
        crate::chord::lemma_canonical_fixed(chord@);
    }
    let mut i: usize = 0;
    while i < list.len()
        invariant
            i <= list@.len(),
            r@ == own_update(chord@, list@.take(i as int), value, *modifiers),
        decreases list@.len() - i,
    {
        assert(list@.take(i as int + 1).drop_last() =~= list@.take(i as int));
        if events_contain(&modifiers.custom, Event::Key(list[i])) {
            r.toggle(Event::Key(list[i]), value, &modifiers.all);
        }
        i += 1;
    }
    assert(list@.take(i as int) =~= list@);
    r
}

/// Runs the release bookkeeping over the keys `bound`.
fn release_bound(
    bound: &Vec<u16>,
    target: &Chord,
    all: &Vec<Event>,
    only_modifiers: bool,
    tracker: &mut Tracker,
    out: &mut Vec<Emission>,
)
    ensures
        trace(*final(tracker), *final(out)) == released(
            bound@,
            target@,
            all@,
            only_modifiers,
            trace(*old(tracker), *old(out)),
        ),
{
    let ghost t0 = trace(*tracker, *out);
    let mut i: usize = 0;
    while i < bound.len()
        invariant
            i <= bound@.len(),
            trace(*tracker, *out) == released(
                bound@.take(i as int),
                target@,
                all@,
                only_modifiers,
                t0,
            ),
        decreases bound@.len() - i,
    {
        assert(bound@.take(i as int + 1).drop_last() =~= bound@.take(i as int));
        let key: u16 = bound[i];
        if !target.contains(Event::Key(key)) && (!only_modifiers || events_contain(
            all,
            Event::Key(key),
        )) {
            tracker.chord.toggle(Event::Key(key), 0, all);
            out.push(Emission::key(key, 0));
        }
        i += 1;
    }
    assert(bound@.take(i as int) =~= bound@);
}

/// Releases every key of the chord in the virtual device.
fn release_members(members: &Vec<Event>, out: &mut Vec<Emission>)
    ensures
        final(out)@ == with_members_released(members@, old(out)@),
{
    let ghost sent0 = out@;
    let mut i: usize = 0;
    while i < members.len()
        invariant
            i <= members@.len(),
            out@ == with_members_released(members@.take(i as int), sent0),
        decreases members@.len() - i,
    {
        assert(members@.take(i as int + 1).drop_last() =~= members@.take(i as int));
        match members[i] {
            Event::Key(code) => {
                out.push(Emission::key(code, 0));
            },
            _ => {},
        }
        i += 1;
    }
    assert(members@.take(i as int) =~= members@);
}

/// Handles a custom modifier as a tap or as part of a combination.
fn tap(event_type: u16, code: u16, value: i32, tracker: &mut Tracker, out: &mut Vec<Emission>)
    ensures
        trace(*final(tracker), *final(out)) == tapped(
            event_type,
            code,
            value,
            trace(*old(tracker), *old(out)),
        ),
{
    if value == 0 && !tracker.modifier_was_activated {
        out.push(Emission { sink: Sink::Keys, event_type, code, value: 1 });
        out.push(Emission { sink: Sink::Keys, event_type, code, value: 0 });
        tracker.modifier_was_activated = true;
    } else if value == 1 {
        tracker.modifier_was_activated = false;
    }
}

/// Sends the output keys of `list`.
fn press(
    list: &Vec<u16>,
    value: i32,
    modifiers: &MappedModifiers,
    tracker: &mut Tracker,
    out: &mut Vec<Emission>,
)
    ensures
        trace(*final(tracker), *final(out)) == pressed(
            list@,
            value,
            *modifiers,
            trace(*old(tracker), *old(out)),
        ),
{
    let ghost t0 = trace(*tracker, *out);
    let mut i: usize = 0;
    while i < list.len()
        invariant
            i <= list@.len(),
            trace(*tracker, *out) == pressed(list@.take(i as int), value, *modifiers, t0),
        decreases list@.len() - i,
    {
        assert(list@.take(i as int + 1).drop_last() =~= list@.take(i as int));
        let key: u16 = list[i];
        if events_contain(&modifiers.custom, Event::Key(key)) {
            tracker.chord.toggle(Event::Key(key), value, &modifiers.all);
            tap(EV_KEY, key, value, tracker, out);
        } else {
            out.push(Emission::key(key, value));
            tracker.modifier_was_activated = true;
        }
        i += 1;
    }
    assert(list@.take(i as int) =~= list@);
}

/// Emits the mapped output `list` at `value`.
pub fn emit_event(
    remap: &Vec<Binding<Vec<u16>>>,
    modifiers: &MappedModifiers,
    list: &Vec<u16>,
    value: i32,
    release_keys: bool,
    ignore_modifiers: bool,
    tracker: &mut Tracker,
    out: &mut Vec<Emission>,
)
    ensures
        trace(*final(tracker), *final(out)) == emitted(
            remap@,
            *modifiers,
            list@,
            value,
            release_keys,
            ignore_modifiers,
            trace(*old(tracker), *old(out)),
        ),
{
    if release_keys && value != 2 {
        let before: Vec<Event> = tracker.chord.snapshot();
        let bound: Vec<u16> = released_keys(remap, &before);
        let target: Chord = updated_chord(&tracker.chord, list, value, modifiers);
        release_bound(&bound, &target, &modifiers.all, true, tracker, out);
    }
    if ignore_modifiers {
        let members: Vec<Event> = tracker.chord.snapshot();
        release_members(&members, out);
    }
    press(list, value, modifiers, tracker, out);
}

/// Lets `event` at `value` pass through; `raw` is the record that it came from.
pub fn emit_nonmapped_event(
    remap: &Vec<Binding<Vec<u16>>>,
    modifiers: &MappedModifiers,
    raw: &RawEvent,
    event: Event,
    value: i32,
    tracker: &mut Tracker,
    out: &mut Vec<Emission>,
)
    ensures
        trace(*final(tracker), *final(out)) == passed_through(
            remap@,
            *modifiers,
            *raw,
            event,
            value,
            trace(*old(tracker), *old(out)),
        ),
{
    if events_contain(&modifiers.all, event) && value != 2 {
        let before: Vec<Event> = tracker.chord.snapshot();
        let bound: Vec<u16> = released_keys(remap, &before);
        let mut target: Chord = Chord::from_events(&before);
        proof {
            crate::chord::lemma_canonical_fixed(before@);
        }
        target.toggle(event, value, &modifiers.all);
        release_bound(&bound, &target, &modifiers.all, false, tracker, out);
    }
    tracker.chord.toggle(event, value, &modifiers.all);
    if events_contain(&modifiers.custom, event) {
        tap(raw.event_type, raw.code, value, tracker, out);
    } else {
        tracker.modifier_was_activated = true;
        emit_default_event(raw, out);
    }
}

/// The two movement accumulators: for the pointer and for scrolling, the
/// direction on each axis that the held movement bindings ask for.
#[derive(Debug, PartialEq, Eq, Structural, Hash, Clone, Copy)]
pub struct Movements {
    pub cursor_x: i64,
    pub cursor_y: i64,
    pub scroll_x: i64,
    pub scroll_y: i64,
}

/// What the directive `movement` at `value` makes of the accumulators: the axis of
/// the directive is set to `value`, negated for up and for left.
pub open spec fn moved(m: Movements, movement: Relative, value: i32) -> Movements {
    match movement {
        Relative::Cursor(Cursor::CURSOR_UP) => Movements { cursor_y: (-(value as int)) as i64, ..m },
        Relative::Cursor(Cursor::CURSOR_DOWN) => Movements { cursor_y: value as i64, ..m },
        Relative::Cursor(Cursor::CURSOR_LEFT) => Movements { cursor_x: (-(value as int)) as i64, ..m },
        Relative::Cursor(Cursor::CURSOR_RIGHT) => Movements { cursor_x: value as i64, ..m },
        Relative::Scroll(Scroll::SCROLL_UP) => Movements { scroll_y: (-(value as int)) as i64, ..m },
        Relative::Scroll(Scroll::SCROLL_DOWN) => Movements { scroll_y: value as i64, ..m },
        Relative::Scroll(Scroll::SCROLL_LEFT) => Movements { scroll_x: (-(value as int)) as i64, ..m },
        Relative::Scroll(Scroll::SCROLL_RIGHT) => Movements { scroll_x: value as i64, ..m },
    }
}

impl Movements {
    /// Both accumulators at rest.
    pub fn new() -> (m: Movements)
        ensures
            m == (Movements { cursor_x: 0, cursor_y: 0, scroll_x: 0, scroll_y: 0 }),
    {
        Movements { cursor_x: 0, cursor_y: 0, scroll_x: 0, scroll_y: 0 }
    }
}

/// Feeds a movement directive to the accumulators.
pub fn emit_movement(m: &mut Movements, movement: Relative, value: i32)
    ensures
        *final(m) == moved(*old(m), movement, value),
{
    let v: i64 = value as i64;
    match movement {
        Relative::Cursor(Cursor::CURSOR_UP) => {
            m.cursor_y = -v;
        },
        Relative::Cursor(Cursor::CURSOR_DOWN) => {
            m.cursor_y = v;
        },
        Relative::Cursor(Cursor::CURSOR_LEFT) => {
            m.cursor_x = -v;
        },
        Relative::Cursor(Cursor::CURSOR_RIGHT) => {
            m.cursor_x = v;
        },
        Relative::Scroll(Scroll::SCROLL_UP) => {
            m.scroll_y = -v;
        },
        Relative::Scroll(Scroll::SCROLL_DOWN) => {
            m.scroll_y = v;
        },
        Relative::Scroll(Scroll::SCROLL_LEFT) => {
            m.scroll_x = -v;
        },
        Relative::Scroll(Scroll::SCROLL_RIGHT) => {
            m.scroll_x = v;
        },
    }
}

/// What converting one event comes to.
#[verifier::ext_equal]
pub struct Conversion {
    /// The tracker afterwards, and what was sent.
    pub trace: Trace,
    /// The movement accumulators afterwards.
    pub movements: Movements,
    /// The place of the script rule that takes the event over, if one does.
    pub script: Option<usize>,
}

/// The conversion of `event` at `value`, which came from the record `raw`, in the
/// context `config`.
///
/// A script rule takes the event and nothing else happens. A remap rule for
/// exactly the chord emits its keys, with `release_keys` where the chord is empty
/// and `ignore_modifiers` where it is not; a rule under `Hold` emits with neither;
/// a rule under the empty chord emits with `release_keys`. A movement rule feeds
/// the accumulators, unless `value` is over 1. Without a rule the event passes
/// through. With `send_zero`, a remap rule for exactly the chord or under the
/// empty chord emits a second time, at value 0 and under the chord as the first
/// emission left it.
pub open spec fn converted(
    config: Config,
    scripts: bool,
    chain_only: bool,
    raw: RawEvent,
    event: Event,
    value: i32,
    send_zero: bool,
    t: Trace,
    m: Movements,
) -> Conversion {
    let remap = config.bindings.remap@;
    let modifiers = config.mapped_modifiers;
    match resolution(config.bindings, scripts, chain_only, event, t.chord) {
        Resolution::Script(i) => Conversion { trace: t, movements: m, script: Some(i) },
        Resolution::Exact(i) => {
            let list = remap[i as int].output@;
            let t1 = emitted(remap, modifiers, list, value, t.chord.len() == 0, t.chord.len() > 0, t);
            let t2 = if send_zero {
                emitted(remap, modifiers, list, 0, t1.chord.len() == 0, t1.chord.len() > 0, t1)
            } else {
                t1
            };
            Conversion { trace: t2, movements: m, script: None }
        },
        Resolution::Hold(i) => Conversion {
            trace: emitted(remap, modifiers, remap[i as int].output@, value, false, false, t),
            movements: m,
            script: None,
        },
        Resolution::Movement(i) => Conversion {
            trace: t,
            movements: if value <= 1 {
                moved(m, config.bindings.movements@[i as int].output, value)
            } else {
                m
            },
            script: None,
        },
        Resolution::Bare(i) => {
            let list = remap[i as int].output@;
            let t1 = emitted(remap, modifiers, list, value, true, false, t);
            let t2 = if send_zero {
                emitted(remap, modifiers, list, 0, true, false, t1)
            } else {
                t1
            };
            Conversion { trace: t2, movements: m, script: None }
        },
        Resolution::Passthrough => Conversion {
            trace: passed_through(remap, modifiers, raw, event, value, t),
            movements: m,
            script: None,
        },
    }
}

/// Converts `event` at `value`, which came from the record `raw`: resolves it in
/// the context `config` under the chord that is held, and emits. The result is
/// the place of the script rule that takes the event over, if one does.
pub fn convert_event(
    config: &Config,
    scripts: bool,
    chain_only: bool,
    raw: &RawEvent,
    event: Event,
    value: i32,
    send_zero: bool,
    tracker: &mut Tracker,
    movements: &mut Movements,
    out: &mut Vec<Emission>,
) -> (script: Option<usize>)
    ensures
        (Conversion {
            trace: trace(*final(tracker), *final(out)),
            movements: *final(movements),
            script,
        }) == converted(
            *config,
            scripts,
            chain_only,
            *raw,
            event,
            value,
            send_zero,
            trace(*old(tracker), *old(out)),
            *old(movements),
        ),
        script matches Some(i) ==> i < config.bindings.rubies@.len(),
{
    let chord: Vec<Event> = tracker.chord.snapshot();
    let remap = &config.bindings.remap;
    let modifiers = &config.mapped_modifiers;
    match resolve(&config.bindings, scripts, chain_only, event, &chord) {
        Resolution::Script(i) => Some(i),
        Resolution::Exact(i) => {
            let bare: bool = chord.len() == 0;
            emit_event(remap, modifiers, &remap[i].output, value, bare, !bare, tracker, out);
            if send_zero {
                let bare: bool = tracker.chord.is_empty();
                emit_event(remap, modifiers, &remap[i].output, 0, bare, !bare, tracker, out);
            }
            None
        },
        Resolution::Hold(i) => {
            emit_event(remap, modifiers, &remap[i].output, value, false, false, tracker, out);
            None
        },
        Resolution::Movement(i) => {
            if value <= 1 {
                emit_movement(movements, config.bindings.movements[i].output, value);
            }
            None
        },
        Resolution::Bare(i) => {
            emit_event(remap, modifiers, &remap[i].output, value, true, false, tracker, out);
            if send_zero {
                emit_event(remap, modifiers, &remap[i].output, 0, true, false, tracker, out);
            }
            None
        },
        Resolution::Passthrough => {
            emit_nonmapped_event(remap, modifiers, raw, event, value, tracker, out);
            None
        },
    }
}

/// The release bookkeeping sends releases and nothing else, in the order of the
/// keys `bound`; it leaves the flag as it was; and of the chord it only takes
/// members away. Every key that it is there for is released, and is out of the
/// chord if it is a modifier.
pub proof fn lemma_released(
    bound: Seq<u16>,
    target: Seq<Event>,
    all: Seq<Event>,
    only_modifiers: bool,
    t: Trace,
)
    requires
        crate::chord::is_canonical(t.chord),
    ensures
        ({
            let r = released(bound, target, all, only_modifiers, t);
            &&& r.activated == t.activated
            &&& crate::chord::is_canonical(r.chord)
            &&& r.sent.len() >= t.sent.len()
            &&& r.sent.subrange(0, t.sent.len() as int) == t.sent
            &&& forall|i: int|
                t.sent.len() <= i < r.sent.len() ==> (#[trigger] r.sent[i]).value == 0
                    && r.sent[i].sink == Sink::Keys && r.sent[i].event_type == EV_KEY
                    && bound.contains(r.sent[i].code)
            &&& forall|e: Event| #[trigger] r.chord.contains(e) ==> t.chord.contains(e)
            &&& forall|k: u16|
                #![trigger bound.contains(k)]
                bound.contains(k) && !target.contains(Event::Key(k)) && (!only_modifiers
                    || all.contains(Event::Key(k))) ==> (all.contains(Event::Key(k))
                    ==> !r.chord.contains(Event::Key(k))) && exists|i: int|
                    t.sent.len() <= i < r.sent.len() && r.sent[i] == key_emission(k, 0)
        }),
    decreases bound.len(),
{
    let r = released(bound, target, all, only_modifiers, t);
    if bound.len() == 0 {
        assert(r.sent.subrange(0, t.sent.len() as int) =~= t.sent);
    } else {
        let b0 = bound.drop_last();
        let r0 = released(b0, target, all, only_modifiers, t);
        lemma_released(b0, target, all, only_modifiers, t);
        let key = bound.last();
        assert(bound.contains(key)) by {
            assert(bound[bound.len() - 1] == key);
        }
        assert forall|c: u16| b0.contains(c) implies bound.contains(c) by {
            let i = choose|i: int| 0 <= i < b0.len() && b0[i] == c;
            assert(bound[i] == c);
        }
        crate::chord::lemma_without_event(r0.chord, Event::Key(key));
        assert(r.sent.subrange(0, t.sent.len() as int) =~= t.sent) by {
            assert(r0.sent.subrange(0, t.sent.len() as int) == t.sent);
        }
        assert forall|e: Event| #[trigger] r.chord.contains(e) implies t.chord.contains(e) by {
            if r.chord != r0.chord {
                assert(r.chord.to_set().contains(e));
                assert(r0.chord.to_set().contains(e));
            }
            assert(r0.chord.contains(e));
        }
        assert forall|k: u16|
            #![trigger bound.contains(k)]
            bound.contains(k) && !target.contains(Event::Key(k)) && (!only_modifiers
                || all.contains(Event::Key(k))) implies (all.contains(Event::Key(k))
                ==> !r.chord.contains(Event::Key(k))) && exists|i: int|
                t.sent.len() <= i < r.sent.len() && r.sent[i] == key_emission(k, 0) by {
            if k == key {
                assert(r.sent[r.sent.len() - 1] == key_emission(k, 0));
                if all.contains(Event::Key(k)) && r.chord.contains(Event::Key(k)) {
                    assert(r.chord.to_set().contains(Event::Key(k)));
                }
            } else {
                let j = choose|j: int| 0 <= j < bound.len() && bound[j] == k;
                assert(b0[j] == k);
                assert(b0.contains(k));
                let i = choose|i: int|
                    t.sent.len() <= i < r0.sent.len() && r0.sent[i] == key_emission(k, 0);
                assert(r.sent[i] == key_emission(k, 0));
                if all.contains(Event::Key(k)) && r.chord.contains(Event::Key(k)) {
                    if r.chord != r0.chord {
                        assert(r.chord.to_set().contains(Event::Key(k)));
                        assert(r0.chord.to_set().contains(Event::Key(k)));
                    }
                    assert(r0.chord.contains(Event::Key(k)));
                }
            }
        }
    }
}

/// Resolution precedence. Where the remap table holds, for one trigger, a rule
/// under a chord that is not empty and a rule under the empty chord, and no script
/// takes the event: with that chord held the trigger emits the keys of the first
/// rule, in place of the chord; with no modifier held it emits the keys of the
/// second.
pub proof fn lemma_resolution_precedence(
    config: Config,
    scripts: bool,
    chain_only: bool,
    raw: RawEvent,
    trigger: Event,
    value: i32,
    chord: Seq<Event>,
    activated: bool,
    m: Movements,
)
    requires
        chord.len() > 0,
        find(config.bindings.remap@, trigger, chord) is Some,
        find(config.bindings.remap@, trigger, Seq::<Event>::empty()) is Some,
        !(scripts && find(config.bindings.rubies@, trigger, chord) is Some),
        !(scripts && find(config.bindings.rubies@, trigger, Seq::<Event>::empty()) is Some),
    ensures
        ({
            let remap = config.bindings.remap@;
            let under_chord = remap[find(remap, trigger, chord)->0].output@;
            let bare = remap[find(remap, trigger, Seq::<Event>::empty())->0].output@;
            let held = Trace { chord, activated, sent: Seq::empty() };
            let free = Trace { chord: Seq::empty(), activated, sent: Seq::empty() };
            &&& converted(config, scripts, chain_only, raw, trigger, value, false, held, m).trace
                == emitted(remap, config.mapped_modifiers, under_chord, value, false, true, held)
            &&& converted(config, scripts, chain_only, raw, trigger, value, false, free, m).trace
                == emitted(remap, config.mapped_modifiers, bare, value, true, false, free)
        }),
{
    let remap = config.bindings.remap@;
    crate::config::lemma_find(remap, trigger, chord);
    crate::config::lemma_find(remap, trigger, Seq::<Event>::empty());
    assert(config.bindings.remap.len() == remap.len());
    let i = find(remap, trigger, chord)->0;
    let j = find(remap, trigger, Seq::<Event>::empty())->0;
    assert((i as usize) as int == i);
    assert((j as usize) as int == j);
    let held = Trace { chord, activated, sent: Seq::empty() };
    let free = Trace { chord: Seq::empty(), activated, sent: Seq::empty() };
    assert(resolution(config.bindings, scripts, chain_only, trigger, chord) == Resolution::Exact(
        i as usize,
    ));
    assert(resolution(config.bindings, scripts, chain_only, trigger, Seq::<Event>::empty())
        == Resolution::Exact(j as usize));
}

/// Tap. A custom modifier that no rule takes as its trigger goes down and comes
/// up again, and nothing is resolved in between. Going down, it sends nothing but
/// the releases of the bookkeeping. Coming up, it sends those and then exactly one
/// press and one release of its own key; no other record of the two steps is a
/// press. Afterwards the flag is set.
pub proof fn lemma_tap(
    config: Config,
    scripts: bool,
    chain_only: bool,
    code: u16,
    chord: Seq<Event>,
    activated: bool,
    m: Movements,
)
    requires
        crate::chord::is_canonical(chord),
        config.mapped_modifiers.custom@.contains(Event::Key(code)),
        config.mapped_modifiers.all@.contains(Event::Key(code)),
        forall|c: Seq<Event>|
            resolution(config.bindings, scripts, chain_only, Event::Key(code), c)
                == Resolution::Passthrough,
    ensures
        ({
            let down = RawEvent {
                event_type: EV_KEY,
                code,
                value: 1,
                timestamp_sec: 0,
                timestamp_nsec: 0,
            };
            let up = RawEvent {
                event_type: EV_KEY,
                code,
                value: 0,
                timestamp_sec: 0,
                timestamp_nsec: 0,
            };
            let t0 = Trace { chord, activated, sent: Seq::empty() };
            let t1 = converted(
                config,
                scripts,
                chain_only,
                down,
                Event::Key(code),
                1,
                false,
                t0,
                m,
            ).trace;
            let t2 = converted(
                config,
                scripts,
                chain_only,
                up,
                Event::Key(code),
                0,
                false,
                t1,
                m,
            ).trace;
            let n = t2.sent.len() as int;
            &&& forall|i: int| 0 <= i < t1.sent.len() ==> (#[trigger] t1.sent[i]).value == 0
            &&& n >= t1.sent.len() + 2
            &&& t2.sent[n - 2] == key_emission(code, 1)
            &&& t2.sent[n - 1] == key_emission(code, 0)
            &&& forall|i: int| 0 <= i < n - 2 ==> (#[trigger] t2.sent[i]).value == 0
            &&& t2.activated
            &&& !t2.chord.contains(Event::Key(code))
        }),
{
    let remap = config.bindings.remap@;
    let modifiers = config.mapped_modifiers;
    let all = modifiers.all@;
    let event = Event::Key(code);
    let t0 = Trace { chord, activated, sent: Seq::empty() };
    // going down
    let target1 = toggled(chord, event, 1, all);
    let r1 = released(bound_under(remap, chord), target1, all, false, t0);
    lemma_released(bound_under(remap, chord), target1, all, false, t0);
    crate::chord::lemma_with_event(r1.chord, event);
    let t1 = Trace { chord: toggled(r1.chord, event, 1, all), activated: false, sent: r1.sent };
    assert(converted(config, scripts, chain_only, RawEvent {
        event_type: EV_KEY,
        code,
        value: 1,
        timestamp_sec: 0,
        timestamp_nsec: 0,
    }, event, 1, false, t0, m).trace == t1);
    // coming up
    let target2 = toggled(t1.chord, event, 0, all);
    let r2 = released(bound_under(remap, t1.chord), target2, all, false, t1);
    lemma_released(bound_under(remap, t1.chord), target2, all, false, t1);
    crate::chord::lemma_without_event(r2.chord, event);
    let c2 = toggled(r2.chord, event, 0, all);
    let t2 = Trace {
        chord: c2,
        activated: true,
        sent: r2.sent.push(key_emission(code, 1)).push(key_emission(code, 0)),
    };
    assert(converted(config, scripts, chain_only, RawEvent {
        event_type: EV_KEY,
        code,
        value: 0,
        timestamp_sec: 0,
        timestamp_nsec: 0,
    }, event, 0, false, t1, m).trace == t2);
    assert forall|i: int| 0 <= i < t2.sent.len() - 2 implies (#[trigger] t2.sent[i]).value
        == 0 by {
        assert(t2.sent[i] == r2.sent[i]);
        if i < t1.sent.len() {
            assert(r2.sent.subrange(0, t1.sent.len() as int)[i] == r2.sent[i]);
        }
    }
    if c2.contains(event) {
        assert(c2.to_set().contains(event));
    }
}

} // verus!
