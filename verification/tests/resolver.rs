use makita::chord::Chord;
use makita::config::{Axis, Binding, Config, Cursor, Event, RawConfig, Relative, Scroll};
use makita::device::{default_sink, emit_default_event, Emission, RawEvent, Sink};
use makita::resolver::{
    convert_event, emit_event, emit_movement, emit_nonmapped_event, released_keys, resolve,
    Movements, Resolution, Tracker,
};

fn pairs(list: &[(&str, &str)]) -> Vec<(String, String)> {
    list.iter().map(|(k, v)| (k.to_string(), v.to_string())).collect()
}

fn config_of(
    remap: &[(&str, &[u16])],
    movements: &[(&str, &str)],
    settings: &[(&str, &str)],
    rubies: &[(&str, &str)],
) -> Config {
    Config::from_raw(
        RawConfig {
            remap: remap.iter().map(|(k, v)| (k.to_string(), v.to_vec())).collect(),
            movements: pairs(movements),
            settings: pairs(settings),
            rubies: pairs(rubies),
        },
        "Pad".to_string(),
    )
}

fn key(code: u16, value: i32) -> Emission {
    Emission { sink: Sink::Keys, event_type: 1, code, value }
}

fn raw_key(code: u16, value: i32) -> RawEvent {
    RawEvent { event_type: 1, code, value, timestamp_sec: 0, timestamp_nsec: 0 }
}

fn tracker_of(chord: &[Event], activated: bool) -> Tracker {
    Tracker::new(Chord::from_events(&chord.to_vec()), activated)
}

/// Converts a key event in `config` and gives what was sent.
fn send(config: &Config, tracker: &mut Tracker, code: u16, value: i32) -> Vec<Emission> {
    let mut out = Vec::new();
    let mut movements = Movements::new();
    let script = convert_event(
        config,
        false,
        true,
        &raw_key(code, value),
        Event::Key(code),
        value,
        false,
        tracker,
        &mut movements,
        &mut out,
    );
    assert_eq!(script, None);
    out
}

/// The keys that are down after `sent`.
fn down_after(sent: &[Emission]) -> Vec<u16> {
    let mut down: Vec<u16> = Vec::new();
    for e in sent {
        if e.sink == Sink::Keys && e.event_type == 1 {
            if e.value == 0 {
                down.retain(|c| *c != e.code);
            } else if e.value == 1 && !down.contains(&e.code) {
                down.push(e.code);
            }
        }
    }
    down.sort();
    down
}

#[test]
fn exact_chord_wins_over_the_bare_key() {
    let config =
        config_of(&[("KEY_LEFTSHIFT-KEY_LEFTCTRL-KEY_A", &[45]), ("KEY_A", &[21])], &[], &[], &[]);
    let held = vec![Event::Key(29), Event::Key(42)];
    assert_eq!(
        resolve(&config.bindings, false, true, Event::Key(30), &held),
        Resolution::Exact(0)
    );
    assert_eq!(
        resolve(&config.bindings, false, true, Event::Key(30), &Vec::new()),
        Resolution::Exact(1)
    );
    let mut tracker = tracker_of(&held, true);
    assert_eq!(send(&config, &mut tracker, 30, 1), vec![key(29, 0), key(42, 0), key(45, 1)]);
    assert_eq!(tracker.chord.snapshot(), held);
    let mut tracker = tracker_of(&[], true);
    assert_eq!(send(&config, &mut tracker, 30, 1), vec![key(21, 1)]);
}

#[test]
fn resolution_follows_its_order() {
    let config = config_of(
        &[("KEY_LEFTSHIFT-KEY_A", &[1]), ("-KEY_A", &[2]), ("KEY_A", &[3]), ("-KEY_B", &[4])],
        &[("KEY_LEFTCTRL-KEY_A", "CURSOR_UP"), ("KEY_C", "SCROLL_DOWN"), ("KEY_LEFTALT-KEY_B", "SCROLL_UP")],
        &[],
        &[("KEY_LEFTSHIFT-KEY_A", "first"), ("KEY_D", "second")],
    );
    let b = &config.bindings;
    let a = Event::Key(30);
    let shift = vec![Event::Key(42)];
    let ctrl = vec![Event::Key(29)];
    let alt = vec![Event::Key(56)];
    let none: Vec<Event> = Vec::new();
    assert_eq!(resolve(b, true, true, a, &shift), Resolution::Script(0));
    assert_eq!(resolve(b, false, true, a, &shift), Resolution::Exact(0));
    assert_eq!(resolve(b, false, true, a, &ctrl), Resolution::Hold(1));
    assert_eq!(resolve(b, false, true, a, &none), Resolution::Exact(2));
    assert_eq!(resolve(b, false, false, a, &none), Resolution::Exact(2));
    assert_eq!(resolve(b, false, true, Event::Key(48), &alt), Resolution::Hold(3));
    assert_eq!(resolve(b, false, true, Event::Key(48), &none), Resolution::Passthrough);
    assert_eq!(resolve(b, false, false, Event::Key(48), &none), Resolution::Hold(3));
    assert_eq!(resolve(b, false, true, Event::Key(46), &none), Resolution::Movement(1));
    assert_eq!(resolve(b, false, true, Event::Key(46), &shift), Resolution::Passthrough);
    assert_eq!(resolve(b, true, true, Event::Key(32), &none), Resolution::Script(1));
    assert_eq!(resolve(b, false, true, Event::Key(32), &none), Resolution::Passthrough);
    assert_eq!(resolve(b, false, true, Event::Hold, &none), Resolution::Passthrough);
}

#[test]
fn movement_comes_before_the_bare_key_and_after_hold() {
    let config = config_of(
        &[("KEY_A", &[3])],
        &[("KEY_LEFTCTRL-KEY_A", "CURSOR_UP")],
        &[],
        &[],
    );
    let ctrl = vec![Event::Key(29)];
    assert_eq!(
        resolve(&config.bindings, false, true, Event::Key(30), &ctrl),
        Resolution::Movement(0)
    );
    assert_eq!(
        resolve(&config.bindings, false, true, Event::Key(30), &vec![Event::Key(42)]),
        Resolution::Bare(0)
    );
}

#[test]
fn released_keys_are_those_bound_under_the_chord() {
    let config = config_of(
        &[
            ("KEY_A", &[1, 2]),
            ("KEY_LEFTSHIFT-KEY_A", &[3]),
            ("KEY_B", &[4]),
            ("KEY_LEFTSHIFT-KEY_B", &[5, 3]),
        ],
        &[],
        &[],
        &[],
    );
    assert_eq!(released_keys(&config.bindings.remap, &Vec::new()), vec![1, 2, 4]);
    assert_eq!(released_keys(&config.bindings.remap, &vec![Event::Key(42)]), vec![3, 5, 3]);
    assert_eq!(released_keys(&config.bindings.remap, &vec![Event::Key(29)]), Vec::<u16>::new());
}

#[test]
fn bare_key_releases_bound_modifiers_first() {
    let config = config_of(&[("BTN_SOUTH", &[29, 46]), ("BTN_EAST", &[56])], &[], &[], &[]);
    let mut tracker = tracker_of(&[], true);
    let pressed = send(&config, &mut tracker, 304, 1);
    assert_eq!(pressed, vec![key(29, 0), key(56, 0), key(29, 1), key(46, 1)]);
    assert!(tracker.chord.is_empty());
    assert!(tracker.modifier_was_activated);
    let released = send(&config, &mut tracker, 304, 0);
    assert_eq!(released, vec![key(29, 0), key(56, 0), key(29, 0), key(46, 0)]);
    let mut all = pressed.clone();
    all.extend(released);
    assert_eq!(down_after(&all), Vec::<u16>::new());
}

#[test]
fn repeat_value_skips_the_release_bookkeeping() {
    let config = config_of(&[("BTN_SOUTH", &[29, 46])], &[], &[], &[]);
    let mut tracker = tracker_of(&[], false);
    assert_eq!(send(&config, &mut tracker, 304, 2), vec![key(29, 2), key(46, 2)]);
    assert!(tracker.modifier_was_activated);
}

#[test]
fn exact_chord_releases_the_keys_of_the_chord() {
    let config = config_of(&[("KEY_LEFTSHIFT-BTN_TL2-KEY_A", &[45])], &[], &[], &[]);
    let held = [Event::Axis(Axis::BTN_TL2), Event::Key(42)];
    let mut tracker = tracker_of(&held, false);
    assert_eq!(send(&config, &mut tracker, 30, 1), vec![key(42, 0), key(45, 1)]);
    assert_eq!(tracker.chord.snapshot(), held.to_vec());
    assert!(tracker.modifier_was_activated);
    assert_eq!(send(&config, &mut tracker, 30, 0), vec![key(42, 0), key(45, 0)]);
}

#[test]
fn hold_rule_emits_the_keys_only() {
    let config = config_of(&[("-KEY_B", &[49, 50])], &[], &[], &[]);
    let mut tracker = tracker_of(&[Event::Key(42)], false);
    assert_eq!(send(&config, &mut tracker, 48, 1), vec![key(49, 1), key(50, 1)]);
    assert_eq!(tracker.chord.snapshot(), vec![Event::Key(42)]);
    assert!(tracker.modifier_was_activated);
    let mut tracker = tracker_of(&[], false);
    assert_eq!(send(&config, &mut tracker, 48, 1), vec![key(48, 1)]);
}

#[test]
fn hold_rule_fires_without_a_chord_when_chain_only_is_off() {
    let config = config_of(&[("-KEY_B", &[49])], &[], &[], &[]);
    let mut tracker = tracker_of(&[], false);
    let mut out = Vec::new();
    let mut movements = Movements::new();
    convert_event(
        &config,
        false,
        false,
        &raw_key(48, 1),
        Event::Key(48),
        1,
        false,
        &mut tracker,
        &mut movements,
        &mut out,
    );
    assert_eq!(out, vec![key(49, 1)]);
}

#[test]
fn movement_rule_feeds_the_accumulators() {
    let config = config_of(
        &[],
        &[
            ("KEY_W", "CURSOR_UP"),
            ("KEY_S", "CURSOR_DOWN"),
            ("KEY_A", "CURSOR_LEFT"),
            ("KEY_D", "CURSOR_RIGHT"),
            ("KEY_LEFTSHIFT-KEY_W", "SCROLL_UP"),
        ],
        &[],
        &[],
    );
    let mut tracker = tracker_of(&[], false);
    let mut movements = Movements::new();
    let mut out = Vec::new();
    let mut go = |code: u16, value: i32, movements: &mut Movements, tracker: &mut Tracker| {
        convert_event(
            &config,
            false,
            true,
            &raw_key(code, value),
            Event::Key(code),
            value,
            false,
            tracker,
            movements,
            &mut out,
        );
    };
    go(17, 1, &mut movements, &mut tracker);
    assert_eq!(movements, Movements { cursor_x: 0, cursor_y: -1, scroll_x: 0, scroll_y: 0 });
    go(32, 1, &mut movements, &mut tracker);
    assert_eq!(movements, Movements { cursor_x: 1, cursor_y: -1, scroll_x: 0, scroll_y: 0 });
    go(32, 2, &mut movements, &mut tracker);
    assert_eq!(movements, Movements { cursor_x: 1, cursor_y: -1, scroll_x: 0, scroll_y: 0 });
    go(17, 0, &mut movements, &mut tracker);
    go(30, 1, &mut movements, &mut tracker);
    assert_eq!(movements, Movements { cursor_x: -1, cursor_y: 0, scroll_x: 0, scroll_y: 0 });
    go(31, -7, &mut movements, &mut tracker);
    assert_eq!(movements, Movements { cursor_x: -1, cursor_y: -7, scroll_x: 0, scroll_y: 0 });
    let mut shifted = tracker_of(&[Event::Key(42)], false);
    go(17, 1, &mut movements, &mut shifted);
    assert_eq!(movements, Movements { cursor_x: -1, cursor_y: -7, scroll_x: 0, scroll_y: -1 });
    assert!(out.is_empty());
    assert!(!tracker.modifier_was_activated);
}

#[test]
fn emit_movement_sets_the_axis_of_the_directive() {
    let mut m = Movements::new();
    emit_movement(&mut m, Relative::Scroll(Scroll::SCROLL_LEFT), 1);
    emit_movement(&mut m, Relative::Scroll(Scroll::SCROLL_DOWN), 1);
    emit_movement(&mut m, Relative::Cursor(Cursor::CURSOR_RIGHT), 0);
    emit_movement(&mut m, Relative::Cursor(Cursor::CURSOR_UP), i32::MIN);
    assert_eq!(
        m,
        Movements { cursor_x: 0, cursor_y: 2147483648, scroll_x: -1, scroll_y: 1 }
    );
}

#[test]
fn unmapped_key_passes_through() {
    let config = config_of(&[], &[], &[], &[]);
    let mut tracker = tracker_of(&[], false);
    assert_eq!(send(&config, &mut tracker, 16, 1), vec![key(16, 1)]);
    assert!(tracker.modifier_was_activated);
    assert!(tracker.chord.is_empty());
    assert_eq!(send(&config, &mut tracker, 16, 2), vec![key(16, 2)]);
    assert_eq!(send(&config, &mut tracker, 16, 0), vec![key(16, 0)]);
}

#[test]
fn default_modifier_passes_through_and_joins_the_chord() {
    let config = config_of(&[], &[], &[], &[]);
    let mut tracker = tracker_of(&[], false);
    assert_eq!(send(&config, &mut tracker, 42, 1), vec![key(42, 1)]);
    assert_eq!(tracker.chord.snapshot(), vec![Event::Key(42)]);
    assert_eq!(send(&config, &mut tracker, 42, 2), vec![key(42, 2)]);
    assert_eq!(tracker.chord.snapshot(), vec![Event::Key(42)]);
    assert_eq!(send(&config, &mut tracker, 42, 0), vec![key(42, 0)]);
    assert!(tracker.chord.is_empty());
}

#[test]
fn passthrough_keeps_type_code_and_value_of_the_record() {
    let config = config_of(&[], &[], &[], &[]);
    let mut tracker = tracker_of(&[], false);
    let mut movements = Movements::new();
    let mut out = Vec::new();
    let raw = RawEvent { event_type: 3, code: 16, value: -1, timestamp_sec: 5, timestamp_nsec: 6 };
    convert_event(
        &config,
        false,
        true,
        &raw,
        Event::Axis(Axis::BTN_DPAD_LEFT),
        1,
        false,
        &mut tracker,
        &mut movements,
        &mut out,
    );
    assert_eq!(out, vec![Emission { sink: Sink::Abs, event_type: 3, code: 16, value: -1 }]);
}

#[test]
fn tap_of_a_custom_modifier_is_one_press_and_release() {
    let config = config_of(&[], &[], &[("CUSTOM_MODIFIERS", "KEY_CAPSLOCK")], &[]);
    let mut tracker = tracker_of(&[], true);
    assert_eq!(send(&config, &mut tracker, 58, 1), Vec::<Emission>::new());
    assert_eq!(tracker.chord.snapshot(), vec![Event::Key(58)]);
    assert!(!tracker.modifier_was_activated);
    assert_eq!(send(&config, &mut tracker, 58, 0), vec![key(58, 1), key(58, 0)]);
    assert!(tracker.chord.is_empty());
    assert!(tracker.modifier_was_activated);
}

#[test]
fn custom_modifier_in_a_combination_is_not_tapped() {
    let config = config_of(&[("KEY_CAPSLOCK-KEY_A", &[105])], &[], &[], &[]);
    let mut tracker = tracker_of(&[], true);
    assert_eq!(send(&config, &mut tracker, 58, 1), Vec::<Emission>::new());
    assert_eq!(send(&config, &mut tracker, 30, 1), vec![key(58, 0), key(105, 1)]);
    assert_eq!(send(&config, &mut tracker, 30, 0), vec![key(58, 0), key(105, 0)]);
    assert_eq!(send(&config, &mut tracker, 58, 0), vec![key(105, 0)]);
    assert!(tracker.chord.is_empty());
}

#[test]
fn custom_modifier_repeat_sends_nothing() {
    let config = config_of(&[], &[], &[("CUSTOM_MODIFIERS", "KEY_CAPSLOCK")], &[]);
    let mut tracker = tracker_of(&[], true);
    send(&config, &mut tracker, 58, 1);
    assert_eq!(send(&config, &mut tracker, 58, 2), Vec::<Emission>::new());
    assert!(!tracker.modifier_was_activated);
}

#[test]
fn tap_of_a_custom_axis_modifier_uses_the_record() {
    let config = config_of(&[], &[], &[("CUSTOM_MODIFIERS", "LSTICK_UP")], &[]);
    let mut tracker = tracker_of(&[Event::Axis(Axis::LSTICK_UP)], false);
    let mut movements = Movements::new();
    let mut out = Vec::new();
    let raw = RawEvent { event_type: 3, code: 1, value: 128, timestamp_sec: 0, timestamp_nsec: 0 };
    emit_nonmapped_event(
        &config.bindings.remap,
        &config.mapped_modifiers,
        &raw,
        Event::Axis(Axis::LSTICK_UP),
        0,
        &mut tracker,
        &mut out,
    );
    assert_eq!(
        out,
        vec![
            Emission { sink: Sink::Keys, event_type: 3, code: 1, value: 1 },
            Emission { sink: Sink::Keys, event_type: 3, code: 1, value: 0 },
        ]
    );
    assert!(tracker.chord.is_empty());
    assert_eq!(movements, Movements::new());
    emit_movement(&mut movements, Relative::Cursor(Cursor::CURSOR_DOWN), 1);
    assert_eq!(movements.cursor_y, 1);
}

#[test]
fn keys_do_not_stick_when_the_chord_changes() {
    let config = config_of(&[("KEY_CAPSLOCK-KEY_A", &[29, 46])], &[], &[], &[]);
    let mut tracker = tracker_of(&[], true);
    let mut sent = Vec::new();
    sent.extend(send(&config, &mut tracker, 58, 1));
    sent.extend(send(&config, &mut tracker, 30, 1));
    assert_eq!(sent, vec![key(58, 0), key(29, 1), key(46, 1)]);
    assert_eq!(down_after(&sent), vec![29, 46]);
    let on_release = send(&config, &mut tracker, 58, 0);
    assert_eq!(on_release, vec![key(29, 0), key(46, 0)]);
    sent.extend(on_release);
    assert_eq!(down_after(&sent), Vec::<u16>::new());
    assert!(tracker.chord.is_empty());
    sent.extend(send(&config, &mut tracker, 30, 0));
    assert_eq!(down_after(&sent), Vec::<u16>::new());
}

#[test]
fn pressing_a_modifier_releases_what_the_bare_keys_hold() {
    let config = config_of(&[("KEY_A", &[46]), ("KEY_B", &[42, 47])], &[], &[], &[]);
    let mut tracker = tracker_of(&[], true);
    let mut sent = send(&config, &mut tracker, 30, 1);
    assert_eq!(sent, vec![key(42, 0), key(46, 1)]);
    let on_shift = send(&config, &mut tracker, 42, 1);
    assert_eq!(on_shift, vec![key(46, 0), key(47, 0), key(42, 1)]);
    sent.extend(on_shift);
    assert_eq!(down_after(&sent), vec![42]);
    assert_eq!(tracker.chord.snapshot(), vec![Event::Key(42)]);
}

#[test]
fn mapped_custom_modifier_joins_the_chord_without_being_pressed() {
    let config = config_of(&[("BTN_SOUTH", &[58, 30])], &[], &[("CUSTOM_MODIFIERS", "KEY_CAPSLOCK")], &[]);
    let mut tracker = tracker_of(&[], true);
    assert_eq!(send(&config, &mut tracker, 304, 1), vec![key(30, 1)]);
    assert_eq!(tracker.chord.snapshot(), vec![Event::Key(58)]);
    assert!(tracker.modifier_was_activated);
    assert_eq!(send(&config, &mut tracker, 304, 0), vec![key(30, 0)]);
    assert!(tracker.chord.is_empty());
}

#[test]
fn mapped_custom_modifier_alone_is_tapped_on_release() {
    let config = config_of(&[("BTN_SOUTH", &[58])], &[], &[("CUSTOM_MODIFIERS", "KEY_CAPSLOCK")], &[]);
    let mut tracker = tracker_of(&[], true);
    assert_eq!(send(&config, &mut tracker, 304, 1), Vec::<Emission>::new());
    assert!(!tracker.modifier_was_activated);
    assert_eq!(tracker.chord.snapshot(), vec![Event::Key(58)]);
    assert_eq!(send(&config, &mut tracker, 304, 0), vec![key(58, 1), key(58, 0)]);
    assert!(tracker.modifier_was_activated);
    assert!(tracker.chord.is_empty());
}

#[test]
fn send_zero_lets_a_release_follow() {
    let config = config_of(&[("SCROLL_WHEEL_UP", &[103]), ("KEY_LEFTSHIFT-SCROLL_WHEEL_UP", &[104])], &[], &[], &[]);
    let raw = RawEvent { event_type: 2, code: 8, value: 1, timestamp_sec: 0, timestamp_nsec: 0 };
    let wheel = Event::Axis(Axis::SCROLL_WHEEL_UP);
    let mut movements = Movements::new();
    let mut tracker = tracker_of(&[], true);
    let mut out = Vec::new();
    convert_event(&config, false, true, &raw, wheel, 1, true, &mut tracker, &mut movements, &mut out);
    assert_eq!(out, vec![key(103, 1), key(103, 0)]);
    let mut tracker = tracker_of(&[Event::Key(42)], true);
    let mut out = Vec::new();
    convert_event(&config, false, true, &raw, wheel, 1, true, &mut tracker, &mut movements, &mut out);
    assert_eq!(out, vec![key(42, 0), key(104, 1), key(42, 0), key(104, 0)]);
    let mut tracker = tracker_of(&[Event::Key(29)], true);
    let mut out = Vec::new();
    convert_event(&config, false, true, &raw, wheel, 1, true, &mut tracker, &mut movements, &mut out);
    assert_eq!(out, vec![key(103, 1), key(103, 0)]);
}

#[test]
fn unmapped_wheel_tick_passes_through_once() {
    let config = config_of(&[], &[], &[], &[]);
    let raw = RawEvent { event_type: 2, code: 8, value: -1, timestamp_sec: 0, timestamp_nsec: 0 };
    let mut movements = Movements::new();
    let mut tracker = tracker_of(&[], true);
    let mut out = Vec::new();
    convert_event(
        &config,
        false,
        true,
        &raw,
        Event::Axis(Axis::SCROLL_WHEEL_DOWN),
        1,
        true,
        &mut tracker,
        &mut movements,
        &mut out,
    );
    assert_eq!(out, vec![Emission { sink: Sink::Axis, event_type: 2, code: 8, value: -1 }]);
}

#[test]
fn script_rule_takes_the_event_over() {
    let config = config_of(&[("KEY_A", &[3])], &[], &[], &[("KEY_B", "other"), ("KEY_A", "mine")]);
    let mut tracker = tracker_of(&[], false);
    let mut movements = Movements::new();
    let mut out = Vec::new();
    let script = convert_event(
        &config,
        true,
        true,
        &raw_key(30, 1),
        Event::Key(30),
        1,
        false,
        &mut tracker,
        &mut movements,
        &mut out,
    );
    assert_eq!(script, Some(1));
    assert_eq!(config.bindings.rubies[1].output, "mine");
    assert!(out.is_empty());
    assert!(!tracker.modifier_was_activated);
    let script = convert_event(
        &config,
        false,
        true,
        &raw_key(30, 1),
        Event::Key(30),
        1,
        false,
        &mut tracker,
        &mut movements,
        &mut out,
    );
    assert_eq!(script, None);
    assert_eq!(out, vec![key(3, 1)]);
}

#[test]
fn emit_event_with_both_switches_runs_both() {
    let config = config_of(&[("KEY_LEFTSHIFT-KEY_A", &[56])], &[], &[], &[]);
    let mut tracker = tracker_of(&[Event::Key(42)], false);
    let mut out = Vec::new();
    emit_event(
        &config.bindings.remap,
        &config.mapped_modifiers,
        &vec![30],
        1,
        true,
        true,
        &mut tracker,
        &mut out,
    );
    assert_eq!(out, vec![key(56, 0), key(42, 0), key(30, 1)]);
    assert_eq!(tracker.chord.snapshot(), vec![Event::Key(42)]);
}

#[test]
fn default_sink_goes_by_the_type() {
    assert_eq!(default_sink(1), Some(Sink::Keys));
    assert_eq!(default_sink(2), Some(Sink::Axis));
    assert_eq!(default_sink(3), Some(Sink::Abs));
    assert_eq!(default_sink(4), Some(Sink::Abs));
    assert_eq!(default_sink(0), None);
    assert_eq!(default_sink(5), None);
    assert_eq!(default_sink(17), None);
    let mut out = Vec::new();
    emit_default_event(
        &RawEvent { event_type: 0, code: 0, value: 0, timestamp_sec: 0, timestamp_nsec: 0 },
        &mut out,
    );
    emit_default_event(
        &RawEvent { event_type: 4, code: 4, value: 9, timestamp_sec: 0, timestamp_nsec: 0 },
        &mut out,
    );
    assert_eq!(out, vec![Emission { sink: Sink::Abs, event_type: 4, code: 4, value: 9 }]);
    assert_eq!(Emission::key(30, 1), key(30, 1));
}

#[test]
fn rules_can_be_written_by_hand() {
    let mut config = Config::new_empty("Pad".to_string());
    config.bindings.remap.push(Binding { trigger: Event::Key(30), chord: vec![], output: vec![31] });
    let mut tracker = tracker_of(&[], false);
    assert_eq!(send(&config, &mut tracker, 30, 1), vec![key(31, 1)]);
}
