//! The keys that are down in the virtual device, and why none of them sticks when
//! the chord changes.
use vstd::prelude::*;
use crate::chord::{is_canonical, lemma_with_event, lemma_without_event, toggled};
use crate::codes::EV_KEY;
use crate::config::{Binding, Event, MappedModifiers};
use crate::device::{key_emission, Emission, RawEvent, Sink};
use crate::config::Config;
use crate::resolver::{
    bound_under, converted, emitted, lemma_released, own_update, passed_through, pressed,
    released, resolution, with_members_released, Movements, Resolution, Trace,
};

verus! {

/// The keys that are down in the virtual device once the records `sent` are
/// written, where those of `down` were down before. A key record on the key
/// channel presses its key at value 1 and releases it at value 0; no other record
/// changes which keys are down.
pub open spec fn keys_down(down: Set<u16>, sent: Seq<Emission>) -> Set<u16>
    decreases sent.len(),
{
    if sent.len() == 0 {
        down
    } else {
        let before = keys_down(down, sent.drop_last());
        let last = sent.last();
        if last.sink == Sink::Keys && last.event_type == EV_KEY && last.value == 0 {
            before.remove(last.code)
        } else if last.sink == Sink::Keys && last.event_type == EV_KEY && last.value == 1 {
            before.insert(last.code)
        } else {
            before
        }
    }
}

/// A key stays up over records that do not press it.
pub proof fn lemma_stays_up(down: Set<u16>, sent: Seq<Emission>, from: int, key: u16)
    requires
        0 <= from <= sent.len(),
        !keys_down(down, sent.take(from)).contains(key),
        forall|i: int|
            from <= i < sent.len() ==> (#[trigger] sent[i]) != key_emission(key, 1),
    ensures
        !keys_down(down, sent).contains(key),
    decreases sent.len() - from,
{
    if from == sent.len() {
        assert(sent.take(from) =~= sent);
    } else {
        assert(sent.take(from + 1).drop_last() =~= sent.take(from));
        assert(sent.take(from + 1).last() == sent[from]);
        lemma_stays_up(down, sent, from + 1, key);
    }
}

/// A key is up after its release and records that do not press it.
pub proof fn lemma_up_after_release(down: Set<u16>, sent: Seq<Emission>, at: int, key: u16)
    requires
        0 <= at < sent.len(),
        sent[at] == key_emission(key, 0),
        forall|i: int| at < i < sent.len() ==> (#[trigger] sent[i]) != key_emission(key, 1),
    ensures
        !keys_down(down, sent).contains(key),
{
    assert(sent.take(at + 1).drop_last() =~= sent.take(at));
    assert(sent.take(at + 1).last() == sent[at]);
    lemma_stays_up(down, sent, at + 1, key);
}

/// The release bookkeeping presses nothing: a key that was up stays up, and a key
/// that the bookkeeping releases is up whatever it was before.
pub proof fn lemma_released_keys_up(
    bound: Seq<u16>,
    target: Seq<Event>,
    all: Seq<Event>,
    only_modifiers: bool,
    t: Trace,
    down: Set<u16>,
    key: u16,
)
    requires
        !keys_down(down, t.sent).contains(key) || (bound.contains(key) && !target.contains(
            Event::Key(key),
        ) && (!only_modifiers || all.contains(Event::Key(key)))),
    ensures
        !keys_down(down, released(bound, target, all, only_modifiers, t).sent).contains(key),
    decreases bound.len(),
{
    if bound.len() > 0 {
        let b0 = bound.drop_last();
        let r0 = released(b0, target, all, only_modifiers, t);
        let r = released(bound, target, all, only_modifiers, t);
        if r.sent != r0.sent {
            assert(r.sent.drop_last() =~= r0.sent);
        }
        if bound.last() != key || target.contains(Event::Key(key)) || (only_modifiers
            && !all.contains(Event::Key(key))) {
            if bound.contains(key) && bound.last() != key {
                let i = choose|i: int| 0 <= i < bound.len() && bound[i] == key;
                assert(b0[i] == key);
            }
            lemma_released_keys_up(b0, target, all, only_modifiers, t, down, key);
        }
    }
}

/// Releasing the keys of a chord presses nothing: a key that was up stays up.
pub proof fn lemma_members_released_keys_up(
    members: Seq<Event>,
    sent: Seq<Emission>,
    down: Set<u16>,
    key: u16,
)
    requires
        !keys_down(down, sent).contains(key),
    ensures
        !keys_down(down, with_members_released(members, sent)).contains(key),
    decreases members.len(),
{
    if members.len() > 0 {
        let r0 = with_members_released(members.drop_last(), sent);
        let r = with_members_released(members, sent);
        lemma_members_released_keys_up(members.drop_last(), sent, down, key);
        if r != r0 {
            assert(r.drop_last() =~= r0);
        }
    }
}

/// The output keys of a mapped list press none but themselves, and themselves
/// only when they go down: any other key that was up stays up.
pub proof fn lemma_pressed_keys_up(
    list: Seq<u16>,
    value: i32,
    modifiers: MappedModifiers,
    t: Trace,
    down: Set<u16>,
    key: u16,
)
    requires
        !keys_down(down, t.sent).contains(key),
        !(list.contains(key) && value == 1),
    ensures
        !keys_down(down, pressed(list, value, modifiers, t).sent).contains(key),
    decreases list.len(),
{
    if list.len() > 0 {
        let l0 = list.drop_last();
        let r0 = pressed(l0, value, modifiers, t);
        let r = pressed(list, value, modifiers, t);
        let last = list.last();
        assert(list[list.len() - 1] == last);
        if l0.contains(key) {
            let i = choose|i: int| 0 <= i < l0.len() && l0[i] == key;
            assert(list[i] == key);
        }
        lemma_pressed_keys_up(l0, value, modifiers, t, down, key);
        if modifiers.custom@.contains(Event::Key(last)) {
            if value == 0 && !r0.activated {
                let mid = r0.sent.push(key_emission(last, 1));
                assert(r.sent == mid.push(key_emission(last, 0)));
                assert(mid.drop_last() =~= r0.sent);
                assert(r.sent.drop_last() =~= mid);
                assert(keys_down(down, mid) == keys_down(down, r0.sent).insert(last));
                assert(keys_down(down, r.sent) == keys_down(down, mid).remove(last));
            }
        } else {
            assert(r.sent.drop_last() =~= r0.sent);
        }
    }
}

/// Stuck-key freedom when a modifier changes the chord. The event is a modifier
/// that no rule takes, and it goes down or comes up; where its record is a key
/// record, it is the record of that very key and value. Take any key that a remap
/// rule binds under the chord of before and that is no member of the chord as the
/// event leaves it. Whatever was down in the virtual device before, that key is
/// up afterwards, and it is out of the chord.
pub proof fn lemma_chord_change_releases(
    remap: Seq<Binding<Vec<u16>>>,
    modifiers: MappedModifiers,
    raw: RawEvent,
    event: Event,
    value: i32,
    chord: Seq<Event>,
    activated: bool,
    down: Set<u16>,
    key: u16,
)
    requires
        is_canonical(chord),
        modifiers.all@.contains(event),
        value != 2,
        raw.event_type == EV_KEY ==> event == Event::Key(raw.code) && raw.value == value,
        bound_under(remap, chord).contains(key),
        !toggled(chord, event, value as int, modifiers.all@).contains(Event::Key(key)),
    ensures
        ({
            let t = passed_through(
                remap,
                modifiers,
                raw,
                event,
                value,
                Trace { chord, activated, sent: Seq::empty() },
            );
            !keys_down(down, t.sent).contains(key) && !t.chord.contains(Event::Key(key))
        }),
{
    let all = modifiers.all@;
    let t0 = Trace { chord, activated, sent: Seq::empty() };
    let target = toggled(chord, event, value as int, all);
    let bound = bound_under(remap, chord);
    let r = released(bound, target, all, false, t0);
    lemma_released(bound, target, all, false, t0);
    let t = passed_through(remap, modifiers, raw, event, value, t0);
    let at = choose|i: int| 0 <= i < r.sent.len() && r.sent[i] == key_emission(key, 0);
    // the chord
    crate::chord::lemma_with_event(chord, event);
    crate::chord::lemma_with_event(r.chord, event);
    crate::chord::lemma_without_event(r.chord, event);
    if event == Event::Key(key) && value == 1 {
        assert(target.to_set().contains(event));
    }
    crate::chord::lemma_without_event(chord, event);
    if t.chord.contains(Event::Key(key)) {
        assert(t.chord.to_set().contains(Event::Key(key)));
        if event != Event::Key(key) {
            assert(r.chord.to_set().contains(Event::Key(key)));
            assert(r.chord.contains(Event::Key(key)));
            assert(chord.contains(Event::Key(key)));
            assert(chord.to_set().contains(Event::Key(key)));
            assert(target.to_set().contains(Event::Key(key)));
        }
    }
    // the keys
    if raw.event_type == EV_KEY && raw.code == key && value == 1 {
        assert(target.to_set().contains(event));
    }
    assert(t.sent.len() >= r.sent.len());
    assert forall|i: int| 0 <= i < r.sent.len() implies t.sent[i] == r.sent[i] by {}
    assert(t.sent[at] == key_emission(key, 0));
    if modifiers.custom@.contains(event) && value == 0 && !activated {
        // a tap: the press is followed by the release
        let n = t.sent.len() as int;
        assert(n == r.sent.len() + 2);
        if raw.event_type == EV_KEY && raw.code == key {
            assert(t.sent[n - 1] == key_emission(key, 0));
            lemma_up_after_release(down, t.sent, n - 1, key);
        } else {
            lemma_up_after_release(down, t.sent, at, key);
        }
    } else {
        lemma_up_after_release(down, t.sent, at, key);
    }
}

/// Stuck-key freedom when a mapped output is emitted with `release_keys`. Take
/// any modifier key that a remap rule binds under the chord of before and that is
/// no member of the chord as the output keys leave it. Whatever was down in the
/// virtual device before, that key is up afterwards, unless the output itself
/// presses it: it is among the output keys and these go down.
pub proof fn lemma_emission_releases(
    remap: Seq<Binding<Vec<u16>>>,
    modifiers: MappedModifiers,
    list: Seq<u16>,
    value: i32,
    ignore_modifiers: bool,
    chord: Seq<Event>,
    activated: bool,
    down: Set<u16>,
    key: u16,
)
    requires
        is_canonical(chord),
        value != 2,
        bound_under(remap, chord).contains(key),
        modifiers.all@.contains(Event::Key(key)),
        !own_update(chord, list, value, modifiers).contains(Event::Key(key)),
        !(list.contains(key) && value == 1),
    ensures
        ({
            let t = emitted(
                remap,
                modifiers,
                list,
                value,
                true,
                ignore_modifiers,
                Trace { chord, activated, sent: Seq::empty() },
            );
            !keys_down(down, t.sent).contains(key)
        }),
{
    let all = modifiers.all@;
    let t0 = Trace { chord, activated, sent: Seq::empty() };
    let target = own_update(chord, list, value, modifiers);
    let bound = bound_under(remap, chord);
    let t1 = released(bound, target, all, true, t0);
    lemma_released_keys_up(bound, target, all, true, t0, down, key);
    let t2 = if ignore_modifiers {
        Trace {
            chord: t1.chord,
            activated: t1.activated,
            sent: with_members_released(t1.chord, t1.sent),
        }
    } else {
        t1
    };
    lemma_members_released_keys_up(t1.chord, t1.sent, down, key);
    lemma_pressed_keys_up(list, value, modifiers, t2, down, key);
}

/// A release follows every press. When the output keys of a mapped list come up,
/// which is an emission at value 0, every key of the list that is no custom
/// modifier is up afterwards, whatever was down before. A custom modifier is
/// never held down by a mapping: it is down afterwards only if it was down
/// before.
pub proof fn lemma_release_follows_press(
    list: Seq<u16>,
    modifiers: MappedModifiers,
    t: Trace,
    down: Set<u16>,
    key: u16,
)
    requires
        list.contains(key),
    ensures
        ({
            let after = keys_down(down, pressed(list, 0, modifiers, t).sent);
            if modifiers.custom@.contains(Event::Key(key)) {
                after.contains(key) ==> keys_down(down, t.sent).contains(key)
            } else {
                !after.contains(key)
            }
        }),
    decreases list.len(),
{
    let l0 = list.drop_last();
    let r0 = pressed(l0, 0, modifiers, t);
    let r = pressed(list, 0, modifiers, t);
    let last = list.last();
    assert(list[list.len() - 1] == last);
    if modifiers.custom@.contains(Event::Key(last)) {
        if !r0.activated {
            let mid = r0.sent.push(key_emission(last, 1));
            assert(r.sent == mid.push(key_emission(last, 0)));
            assert(mid.drop_last() =~= r0.sent);
            assert(r.sent.drop_last() =~= mid);
            assert(keys_down(down, mid) == keys_down(down, r0.sent).insert(last));
            assert(keys_down(down, r.sent) == keys_down(down, mid).remove(last));
        }
    } else {
        assert(r.sent.drop_last() =~= r0.sent);
    }
    if l0.contains(key) {
        lemma_release_follows_press(l0, modifiers, t, down, key);
    } else {
        let i = choose|i: int| 0 <= i < list.len() && list[i] == key;
        if i < l0.len() {
            assert(l0[i] == key);
        }
        assert(last == key);
        if modifiers.custom@.contains(Event::Key(key)) {
            lemma_unchanged_by_others(l0, modifiers, t, down, key);
        }
    }
}

/// The output keys of a mapped list that come up change the state of no key but
/// their own.
pub proof fn lemma_unchanged_by_others(
    list: Seq<u16>,
    modifiers: MappedModifiers,
    t: Trace,
    down: Set<u16>,
    key: u16,
)
    requires
        !list.contains(key),
    ensures
        keys_down(down, pressed(list, 0, modifiers, t).sent).contains(key) == keys_down(
            down,
            t.sent,
        ).contains(key),
    decreases list.len(),
{
    if list.len() > 0 {
        let l0 = list.drop_last();
        let r0 = pressed(l0, 0, modifiers, t);
        let r = pressed(list, 0, modifiers, t);
        let last = list.last();
        assert(list[list.len() - 1] == last);
        if l0.contains(key) {
            let i = choose|i: int| 0 <= i < l0.len() && l0[i] == key;
            assert(list[i] == key);
        }
        lemma_unchanged_by_others(l0, modifiers, t, down, key);
        if modifiers.custom@.contains(Event::Key(last)) {
            if !r0.activated {
                let mid = r0.sent.push(key_emission(last, 1));
                assert(r.sent == mid.push(key_emission(last, 0)));
                assert(mid.drop_last() =~= r0.sent);
                assert(r.sent.drop_last() =~= mid);
                assert(keys_down(down, mid) == keys_down(down, r0.sent).insert(last));
                assert(keys_down(down, r.sent) == keys_down(down, mid).remove(last));
            }
        } else {
            assert(r.sent.drop_last() =~= r0.sent);
        }
    }
}

/// The chord stays canonical under a change of any event.
pub proof fn lemma_toggled_canonical(chord: Seq<Event>, event: Event, value: int, all: Seq<Event>)
    requires
        is_canonical(chord),
    ensures
        is_canonical(toggled(chord, event, value, all)),
{
    lemma_with_event(chord, event);
    lemma_without_event(chord, event);
}

/// The chord stays canonical while the output keys of a mapped list are sent.
pub proof fn lemma_pressed_canonical(
    list: Seq<u16>,
    value: i32,
    modifiers: MappedModifiers,
    t: Trace,
)
    requires
        is_canonical(t.chord),
    ensures
        is_canonical(pressed(list, value, modifiers, t).chord),
    decreases list.len(),
{
    if list.len() > 0 {
        lemma_pressed_canonical(list.drop_last(), value, modifiers, t);
        let before = pressed(list.drop_last(), value, modifiers, t);
        lemma_toggled_canonical(before.chord, Event::Key(list.last()), value as int, modifiers.all@);
    }
}

/// The chord stays canonical through an emission.
pub proof fn lemma_emitted_canonical(
    remap: Seq<Binding<Vec<u16>>>,
    modifiers: MappedModifiers,
    list: Seq<u16>,
    value: i32,
    release_keys: bool,
    ignore_modifiers: bool,
    t: Trace,
)
    requires
        is_canonical(t.chord),
    ensures
        is_canonical(
            emitted(remap, modifiers, list, value, release_keys, ignore_modifiers, t).chord,
        ),
{
    let target = own_update(t.chord, list, value, modifiers);
    lemma_released(bound_under(remap, t.chord), target, modifiers.all@, true, t);
    let t1 = if release_keys && value != 2 {
        released(bound_under(remap, t.chord), target, modifiers.all@, true, t)
    } else {
        t
    };
    let t2 = if ignore_modifiers {
        Trace {
            chord: t1.chord,
            activated: t1.activated,
            sent: with_members_released(t1.chord, t1.sent),
        }
    } else {
        t1
    };
    lemma_pressed_canonical(list, value, modifiers, t2);
}

/// The chord invariant: whatever event is converted, in whatever context, a
/// chord that was canonical is canonical afterwards.
pub proof fn lemma_converted_canonical(
    config: Config,
    scripts: bool,
    chain_only: bool,
    raw: RawEvent,
    event: Event,
    value: i32,
    send_zero: bool,
    t: Trace,
    m: Movements,
)
    requires
        is_canonical(t.chord),
    ensures
        is_canonical(
            converted(config, scripts, chain_only, raw, event, value, send_zero, t, m).trace.chord,
        ),
{
    let remap = config.bindings.remap@;
    let modifiers = config.mapped_modifiers;
    match resolution(config.bindings, scripts, chain_only, event, t.chord) {
        Resolution::Script(i) => {},
        Resolution::Exact(i) => {
            let list = remap[i as int].output@;
            let bare = t.chord.len() == 0;
            lemma_emitted_canonical(remap, modifiers, list, value, bare, !bare, t);
            let t1 = emitted(remap, modifiers, list, value, bare, !bare, t);
            let bare1 = t1.chord.len() == 0;
            lemma_emitted_canonical(remap, modifiers, list, 0, bare1, !bare1, t1);
        },
        Resolution::Hold(i) => {
            lemma_emitted_canonical(remap, modifiers, remap[i as int].output@, value, false, false, t);
        },
        Resolution::Movement(i) => {},
        Resolution::Bare(i) => {
            let list = remap[i as int].output@;
            lemma_emitted_canonical(remap, modifiers, list, value, true, false, t);
            let t1 = emitted(remap, modifiers, list, value, true, false, t);
            lemma_emitted_canonical(remap, modifiers, list, 0, true, false, t1);
        },
        Resolution::Passthrough => {
            let target = toggled(t.chord, event, value as int, modifiers.all@);
            lemma_released(bound_under(remap, t.chord), target, modifiers.all@, false, t);
            let t1 = if modifiers.all@.contains(event) && value != 2 {
                released(bound_under(remap, t.chord), target, modifiers.all@, false, t)
            } else {
                t
            };
            lemma_toggled_canonical(t1.chord, event, value as int, modifiers.all@);
        },
    }
}

} // verus!
