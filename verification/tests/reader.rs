use makita::config::{Associations, Axis, Config, Event, RawConfig};
use makita::device::{Emission, RawEvent, Sink};
use makita::digitizer::AxisState;
use makita::event_reader::{max_abs_wheel, EventReader, ReaderError, Sample, Side, Step};
use makita::magnus_ruby_runtime::{StateQuery, StateResponse};
use makita::resolver::Movements;
use makita::settings::{SettingsError, StickFunction};
use makita::udev_monitor::Client;

fn pairs(list: &[(&str, &str)]) -> Vec<(String, String)> {
    list.iter().map(|(k, v)| (k.to_string(), v.to_string())).collect()
}

fn context(
    window: Option<&str>,
    layout: u16,
    remap: &[(&str, &[u16])],
    settings: &[(&str, &str)],
    rubies: &[(&str, &str)],
) -> Config {
    let mut config = Config::from_raw(
        RawConfig {
            remap: remap.iter().map(|(k, v)| (k.to_string(), v.to_vec())).collect(),
            movements: Vec::new(),
            settings: pairs(settings),
            rubies: pairs(rubies),
        },
        "Pad".to_string(),
    );
    config.associations = Associations {
        client: match window {
            Some(class) => Client::Class(class.to_string()),
            None => Client::Default,
        },
        layout,
    };
    config
}

fn reader_of(configs: Vec<Config>) -> EventReader {
    EventReader::new(configs, false, &vec![100], &Vec::new(), true, false).unwrap()
}

fn raw(event_type: u16, code: u16, value: i32) -> RawEvent {
    RawEvent { event_type, code, value, timestamp_sec: 11, timestamp_nsec: 22 }
}

fn key(code: u16, value: i32) -> Emission {
    Emission { sink: Sink::Keys, event_type: 1, code, value }
}

fn firefox() -> Client {
    Client::Class("firefox".to_string())
}

fn emitted(step: Step) -> Vec<Emission> {
    assert_eq!(step.notice, None);
    assert!(step.script.is_none());
    step.emissions
}

#[test]
fn reader_needs_a_default_context() {
    let configs = vec![context(Some("firefox"), 0, &[], &[], &[]), context(None, 1, &[], &[], &[])];
    assert_eq!(
        EventReader::new(configs, false, &Vec::new(), &Vec::new(), true, false).err(),
        Some(ReaderError::NoDefaultContext)
    );
    assert_eq!(
        EventReader::new(Vec::new(), false, &Vec::new(), &Vec::new(), true, false).err(),
        Some(ReaderError::NoDefaultContext)
    );
}

#[test]
fn reader_reads_the_settings_of_the_default_context() {
    let configs = vec![
        context(Some("firefox"), 0, &[], &[("STADIA", "nonsense")], &[]),
        context(None, 0, &[], &[("CHAIN_ONLY", "false"), ("LSTICK", "bind")], &[]),
    ];
    let reader = reader_of(configs);
    assert!(!reader.settings().chain_only);
    assert_eq!(reader.settings().lstick.function, StickFunction::Bind);
    assert!(!reader.settings().stadia);
    let broken = vec![context(None, 0, &[], &[("STADIA", "nonsense")], &[])];
    assert_eq!(
        EventReader::new(broken, false, &Vec::new(), &Vec::new(), true, false).err(),
        Some(ReaderError::Settings(SettingsError::Stadia))
    );
}

#[test]
fn reader_starts_at_rest() {
    let modifiers = vec![Event::Key(42), Event::Key(29), Event::Key(42)];
    let reader = EventReader::new(
        vec![context(None, 0, &[], &[], &[])],
        true,
        &vec![5, 1023, -4, 255],
        &modifiers,
        false,
        true,
    )
    .unwrap();
    assert_eq!(reader.modifiers(), vec![Event::Key(29), Event::Key(42)]);
    assert!(!reader.modifier_was_activated());
    assert!(reader.device_is_connected());
    assert_eq!(reader.active_layout(), 0);
    assert_eq!(reader.movements(), Movements::new());
    assert_eq!(reader.axes(), AxisState::new());
    assert_eq!(reader.current_config().name, "Pad");
}

#[test]
fn max_abs_wheel_is_the_largest_maximum() {
    assert_eq!(max_abs_wheel(&vec![5, 1023, -4, 255]), 1023);
    assert_eq!(max_abs_wheel(&vec![-5, -1]), 0);
    assert_eq!(max_abs_wheel(&Vec::new()), 0);
}

#[test]
fn reader_remaps_a_key() {
    let mut reader = reader_of(vec![context(None, 0, &[("KEY_A", &[48])], &[], &[])]);
    assert_eq!(emitted(reader.handle_event(&raw(1, 30, 1), &Client::Default)), vec![key(48, 1)]);
    assert_eq!(emitted(reader.handle_event(&raw(1, 30, 0), &Client::Default)), vec![key(48, 0)]);
    assert_eq!(emitted(reader.handle_event(&raw(1, 31, 1), &Client::Default)), vec![key(31, 1)]);
    assert_eq!(
        emitted(reader.handle_event(&raw(0, 0, 0), &Client::Default)),
        Vec::<Emission>::new()
    );
    assert_eq!(
        emitted(reader.handle_event(&raw(2, 0, -3), &Client::Default)),
        vec![Emission { sink: Sink::Axis, event_type: 2, code: 0, value: -3 }]
    );
}

#[test]
fn reader_follows_the_window_on_a_press() {
    let configs = vec![
        context(None, 0, &[("KEY_A", &[48])], &[], &[]),
        context(Some("firefox"), 0, &[("KEY_A", &[49])], &[], &[]),
    ];
    let mut reader = reader_of(configs);
    assert_eq!(emitted(reader.handle_event(&raw(1, 30, 1), &firefox())), vec![key(49, 1)]);
    assert_eq!(
        reader.current_config().associations,
        Associations { client: firefox(), layout: 0 }
    );
    assert_eq!(emitted(reader.handle_event(&raw(1, 30, 0), &Client::Default)), vec![key(49, 0)]);
    assert_eq!(emitted(reader.handle_event(&raw(1, 30, 1), &Client::Default)), vec![key(48, 1)]);
}

#[test]
fn reader_switches_layouts_on_the_switcher() {
    let configs = vec![
        context(None, 0, &[("KEY_A", &[48])], &[], &[]),
        context(None, 2, &[("KEY_A", &[50])], &[], &[]),
    ];
    let mut reader = reader_of(configs);
    assert!(reader.needs_window(&raw(1, 256, 1)));
    assert!(!reader.needs_window(&raw(1, 256, 0)));
    assert!(reader.needs_window(&raw(1, 30, 1)));
    assert!(!reader.needs_window(&raw(1, 30, 0)));
    assert!(!reader.needs_window(&raw(3, 0, 255)));
    assert_eq!(
        emitted(reader.handle_event(&raw(1, 256, 1), &Client::Default)),
        Vec::<Emission>::new()
    );
    assert_eq!(reader.active_layout(), 2);
    assert_eq!(reader.current_config().associations.layout, 0);
    assert_eq!(emitted(reader.handle_event(&raw(1, 30, 1), &Client::Default)), vec![key(50, 1)]);
    assert_eq!(reader.current_config().associations.layout, 2);
    reader.handle_event(&raw(1, 256, 1), &Client::Default);
    assert_eq!(reader.active_layout(), 0);
}

#[test]
fn reader_tells_about_a_layout_switch_when_asked() {
    let configs = vec![
        context(None, 0, &[], &[("NOTIFY_LAYOUT_SWITCH", "true")], &[]),
        context(None, 3, &[], &[], &[]),
        context(Some("firefox"), 1, &[("KEY_A", &[7])], &[], &[]),
    ];
    let mut reader = EventReader::new(configs, false, &Vec::new(), &Vec::new(), false, false).unwrap();
    let step = reader.handle_event(&raw(1, 256, 1), &Client::Default);
    assert_eq!(step.notice, Some(3));
    assert!(step.emissions.is_empty());
    assert!(reader.modifier_was_activated());
    let step = reader.handle_event(&raw(1, 30, 1), &firefox());
    assert_eq!(step.notice, Some(1));
    assert_eq!(step.emissions, vec![key(7, 1)]);
    assert_eq!(reader.active_layout(), 1);
    let step = reader.handle_event(&raw(1, 30, 1), &firefox());
    assert_eq!(step.notice, None);
}

#[test]
fn reader_falls_back_to_the_default_context() {
    let configs = vec![
        context(Some("firefox"), 7, &[("KEY_A", &[49])], &[], &[]),
        context(None, 0, &[("KEY_A", &[48])], &[], &[]),
    ];
    let mut reader = reader_of(configs);
    assert_eq!(emitted(reader.handle_event(&raw(1, 30, 1), &firefox())), vec![key(48, 1)]);
    assert_eq!(reader.active_layout(), 0);
    assert_eq!(emitted(reader.handle_event(&raw(1, 256, 1), &firefox())), Vec::<Emission>::new());
    assert_eq!(reader.active_layout(), 0);
}

#[test]
fn reader_hands_script_events_out() {
    let configs = vec![context(None, 0, &[("KEY_A", &[48])], &[], &[("KEY_A", "macro")])];
    let mut reader =
        EventReader::new(configs, false, &Vec::new(), &Vec::new(), true, true).unwrap();
    let step = reader.handle_event(&raw(1, 30, 1), &Client::Default);
    assert!(step.emissions.is_empty());
    let script = step.script.unwrap();
    assert_eq!(script.script, "macro");
    assert_eq!((script.event_type, script.code, script.value), (1, 30, 1));
    assert_eq!((script.timestamp_sec, script.timestamp_nsec), (11, 22));
}

#[test]
fn reader_digitizes_the_dpad() {
    let mut reader = reader_of(vec![context(None, 0, &[("BTN_DPAD_LEFT", &[105])], &[], &[])]);
    assert_eq!(emitted(reader.handle_event(&raw(3, 16, -1), &Client::Default)), vec![key(105, 1)]);
    assert_eq!(emitted(reader.handle_event(&raw(3, 16, 0), &Client::Default)), vec![key(105, 0)]);
    assert_eq!(
        emitted(reader.handle_event(&raw(3, 16, 1), &Client::Default)),
        vec![Emission { sink: Sink::Abs, event_type: 3, code: 16, value: 1 }]
    );
}

#[test]
fn reader_turns_wheel_ticks_into_pulses() {
    let mut reader = reader_of(vec![context(
        None,
        0,
        &[("SCROLL_WHEEL_UP", &[103]), ("ABS_WHEEL_CCW", &[105])],
        &[],
        &[],
    )]);
    assert_eq!(
        emitted(reader.handle_event(&raw(2, 8, 1), &Client::Default)),
        vec![key(103, 1), key(103, 0)]
    );
    assert_eq!(
        emitted(reader.handle_event(&raw(3, 8, 10), &Client::Default)),
        Vec::<Emission>::new()
    );
    assert_eq!(
        emitted(reader.handle_event(&raw(3, 8, 95), &Client::Default)),
        vec![key(105, 1), key(105, 0)]
    );
}

#[test]
fn reader_batches_the_pen_events_of_a_tablet() {
    let mut reader = EventReader::new(
        vec![context(None, 0, &[], &[], &[])],
        true,
        &Vec::new(),
        &Vec::new(),
        true,
        false,
    )
    .unwrap();
    assert!(emitted(reader.handle_event(&raw(1, 320, 1), &Client::Default)).is_empty());
    assert!(emitted(reader.handle_event(&raw(3, 0, 700), &Client::Default)).is_empty());
    assert!(emitted(reader.handle_event(&raw(3, 1, 900), &Client::Default)).is_empty());
    assert_eq!(
        emitted(reader.handle_event(&raw(4, 0, 1234), &Client::Default)),
        vec![
            Emission { sink: Sink::Abs, event_type: 1, code: 320, value: 1 },
            Emission { sink: Sink::Abs, event_type: 3, code: 0, value: 700 },
            Emission { sink: Sink::Abs, event_type: 3, code: 1, value: 900 },
            Emission { sink: Sink::Abs, event_type: 4, code: 0, value: 1234 },
        ]
    );
    assert_eq!(
        emitted(reader.handle_event(&raw(4, 0, 5), &Client::Default)),
        vec![Emission { sink: Sink::Abs, event_type: 4, code: 0, value: 5 }]
    );
}

#[test]
fn event_loop_handles_the_stream_and_disconnects() {
    let mut reader = reader_of(vec![context(None, 0, &[("KEY_A", &[48])], &[], &[])]);
    let stream = vec![
        Sample { raw: raw(1, 30, 1), window: Client::Default },
        Sample { raw: raw(1, 42, 1), window: Client::Default },
        Sample { raw: raw(1, 30, 0), window: Client::Default },
    ];
    let steps = reader.event_loop(&stream);
    assert_eq!(steps.len(), 3);
    assert_eq!(steps[0].emissions, vec![key(48, 1)]);
    assert_eq!(steps[1].emissions, vec![key(48, 0), key(42, 1)]);
    assert_eq!(steps[2].emissions, vec![key(48, 0)]);
    assert!(!reader.device_is_connected());
    assert_eq!(reader.modifiers(), vec![Event::Key(42)]);
    assert!(reader.event_loop(&Vec::new()).is_empty());
}

#[test]
fn stick_moves_the_pointer_on_each_tick() {
    let configs = vec![context(None, 0, &[], &[("LSTICK_SENSITIVITY", "10")], &[])];
    let mut reader = reader_of(configs);
    assert_eq!(reader.loop_2d_generator(StickFunction::Cursor), Some((Side::Left, 10)));
    assert_eq!(reader.loop_2d_generator(StickFunction::Scroll), None);
    assert_eq!(reader.loop_2d_generator(StickFunction::Bind), None);
    assert!(reader.loop_2d(StickFunction::Cursor, false, 0, 1).is_empty());
    reader.handle_event(&raw(3, 0, 255), &Client::Default);
    assert_eq!(
        reader.loop_2d(StickFunction::Cursor, false, 0, 1),
        vec![Emission { sink: Sink::Axis, event_type: 2, code: 0, value: 13 }]
    );
    reader.handle_event(&raw(3, 1, 0), &Client::Default);
    assert_eq!(
        reader.loop_2d(StickFunction::Cursor, false, 0, 1),
        vec![
            Emission { sink: Sink::Axis, event_type: 2, code: 0, value: 13 },
            Emission { sink: Sink::Axis, event_type: 2, code: 1, value: -11 },
        ]
    );
    assert_eq!(
        reader.loop_2d(StickFunction::Cursor, true, 0, 1),
        vec![
            Emission { sink: Sink::Axis, event_type: 2, code: 0, value: -13 },
            Emission { sink: Sink::Axis, event_type: 2, code: 1, value: 11 },
        ]
    );
    assert!(reader.loop_2d(StickFunction::Scroll, false, 12, 11).is_empty());
    reader.disconnect();
    assert!(!reader.device_is_connected());
    assert!(reader.loop_2d(StickFunction::Cursor, false, 0, 1).is_empty());
}

#[test]
fn stick_waits_for_its_activation_chord() {
    let configs = vec![context(
        None,
        0,
        &[],
        &[
            ("RSTICK_SENSITIVITY", "5"),
            ("RSTICK_ACTIVATION_MODIFIERS", "KEY_LEFTSHIFT-KEY_LEFTCTRL"),
        ],
        &[],
    )];
    let mut reader = reader_of(configs);
    assert_eq!(reader.loop_2d_generator(StickFunction::Scroll), Some((Side::Right, 5)));
    reader.handle_event(&raw(3, 4, 255), &Client::Default);
    assert!(reader.loop_2d(StickFunction::Scroll, false, 12, 11).is_empty());
    reader.handle_event(&raw(1, 29, 1), &Client::Default);
    assert!(reader.loop_2d(StickFunction::Scroll, false, 12, 11).is_empty());
    reader.handle_event(&raw(1, 42, 1), &Client::Default);
    assert_eq!(
        reader.loop_2d(StickFunction::Scroll, false, 12, 11),
        vec![Emission { sink: Sink::Axis, event_type: 2, code: 11, value: 13 }]
    );
    reader.handle_event(&raw(1, 56, 1), &Client::Default);
    assert!(reader.loop_2d(StickFunction::Scroll, false, 12, 11).is_empty());
}

#[test]
fn reader_answers_the_questions_of_scripts() {
    let mut reader = reader_of(vec![context(
        None,
        0,
        &[],
        &[("CUSTOM_MODIFIERS", "BTN_TL2-KEY_Z")],
        &[],
    )]);
    reader.handle_event(&raw(1, 44, 1), &Client::Default);
    reader.handle_event(&raw(1, 42, 1), &Client::Default);
    assert_eq!(reader.answer(StateQuery::KeyState(42)), StateResponse::KeyState(false));
    assert_eq!(reader.answer(StateQuery::ModifierState), StateResponse::ModifierState(vec![42, 44]));
    assert_eq!(reader.answer(StateQuery::DeviceConnected), StateResponse::DeviceConnected(true));
    let with_axis = EventReader::new(
        vec![context(None, 0, &[], &[], &[])],
        false,
        &Vec::new(),
        &vec![Event::Key(29), Event::Axis(Axis::BTN_TL2)],
        true,
        false,
    )
    .unwrap();
    assert_eq!(with_axis.answer(StateQuery::ModifierState), StateResponse::ModifierState(vec![0, 29]));
}
