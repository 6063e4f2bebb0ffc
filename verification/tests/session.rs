use makita::active_client::{
    match_window, sway_window, window_from_kdotool, window_from_reply, window_of_member, wm_class,
};
use makita::config::{Associations, Config};
use makita::device::{Emission, Sink};
use makita::event_sender::EventSender;
use makita::magnus_ruby_runtime::SyntheticEvent;
use makita::text::{find_text, matches_at, remove_char, split_on_colons};
use makita::udev_monitor::{
    associations_for, bus_address, classify_session, has_device_access, is_mapped, layout_notice,
    needs_default, should_grab, Client, Environment, Server, Spawn,
};

fn chars(s: &str) -> Vec<char> {
    s.chars().collect()
}

fn context(window: Option<&str>, layout: u16) -> Config {
    let mut config = Config::new_empty("Pad".to_string());
    config.associations = Associations {
        client: match window {
            Some(class) => Client::Class(class.to_string()),
            None => Client::Default,
        },
        layout,
    };
    config
}

fn class(name: &str) -> Client {
    Client::Class(name.to_string())
}

fn association(window: Option<&str>, layout: u16) -> Option<Associations> {
    Some(context(window, layout).associations)
}

#[test]
fn split_on_colons_agrees_with_std() {
    for s in ["", "Pad", "Pad::2", "Pad::firefox::2", "::", ":::", "::::", "a:b", "a::", "::a", "a:::b"] {
        let expected: Vec<Vec<char>> = s.split("::").map(|p| p.chars().collect()).collect();
        assert_eq!(split_on_colons(&chars(s)), expected, "for {:?}", s);
    }
}

#[test]
fn remove_char_takes_every_occurrence_out() {
    assert_eq!(remove_char(&chars("a/b//c/"), '/'), chars("abc"));
    assert_eq!(remove_char(&chars("///"), '/'), chars(""));
    assert_eq!(remove_char(&chars("abc"), '/'), chars("abc"));
}

#[test]
fn find_text_agrees_with_std() {
    let cases = [
        ("input wheel", "input"),
        ("wheel input", "input"),
        ("wheel inpu", "input"),
        ("", ""),
        ("abc", ""),
        ("", "a"),
        ("aab", "ab"),
        ("abab", "bab"),
        ("root", "root"),
        ("roo", "root"),
    ];
    for (hay, needle) in cases {
        assert_eq!(find_text(&chars(hay), &chars(needle)), hay.contains(needle), "{:?}", (hay, needle));
    }
    assert!(matches_at(&chars("abcd"), &chars("cd"), 2));
    assert!(!matches_at(&chars("abcd"), &chars("cd"), 1));
}

#[test]
fn context_names_tell_window_and_layout() {
    assert_eq!(associations_for("Pad", "Pad"), association(None, 0));
    assert_eq!(associations_for("Pad::2", "Pad"), association(None, 2));
    assert_eq!(associations_for("Pad::firefox", "Pad"), association(Some("firefox"), 0));
    assert_eq!(associations_for("Pad::1::firefox", "Pad"), association(Some("firefox"), 1));
    assert_eq!(associations_for("Pad::firefox::3", "Pad"), association(Some("firefox"), 3));
    assert_eq!(associations_for("Pad::1::2", "Pad"), association(Some("2"), 1));
    assert_eq!(associations_for("Pad::firefox::mpv", "Pad"), association(None, 0));
    assert_eq!(associations_for("Pad::1::firefox::x", "Pad"), association(None, 0));
    assert_eq!(associations_for("Pad::70000", "Pad"), association(Some("70000"), 0));
    assert_eq!(associations_for("Pad::", "Pad"), association(Some(""), 0));
    assert_eq!(associations_for("Pad::-1", "Pad"), association(Some("-1"), 0));
}

#[test]
fn context_names_belong_to_their_device_only() {
    assert_eq!(associations_for("Pad::2", "Other"), None);
    assert_eq!(associations_for("Pad", "Pad "), None);
    assert_eq!(associations_for("Sony PLAYSTATION::1", "Sony/ PLAY/STATION"), association(None, 1));
    assert_eq!(associations_for("a/b", "a/b"), None);
    assert_eq!(associations_for("", ""), association(None, 0));
}

#[test]
fn is_mapped_looks_for_the_device_name() {
    assert!(is_mapped("Pad::firefox::2", "Pad"));
    assert!(is_mapped("My Pad", "Pad"));
    assert!(is_mapped("Sony PLAYSTATION", "Sony/ PLAYSTATION"));
    assert!(!is_mapped("Pad", "Pad 2"));
    assert!(is_mapped("Pad", ""));
}

#[test]
fn devices_are_grabbed_unless_the_settings_say_no() {
    let pair = |k: &str, v: &str| (k.to_string(), v.to_string());
    assert!(should_grab(&Vec::new()));
    assert!(should_grab(&vec![pair("GRAB_DEVICE", "true")]));
    assert!(!should_grab(&vec![pair("GRAB_DEVICE", "false")]));
    assert!(!should_grab(&vec![pair("GRAB_DEVICE", "True")]));
    assert!(!should_grab(&vec![pair("GRAB_DEVICE", "")]));
    assert!(should_grab(&vec![pair("OTHER", "false")]));
}

#[test]
fn a_default_context_is_added_where_it_is_missing() {
    assert!(!needs_default(&Vec::new()));
    assert!(!needs_default(&vec![context(Some("firefox"), 1), context(None, 0)]));
    assert!(needs_default(&vec![context(Some("firefox"), 0)]));
    assert!(needs_default(&vec![context(None, 1)]));
}

#[test]
fn groups_give_access_to_devices() {
    assert!(has_device_access("user wheel input audio\n"));
    assert!(has_device_access("root\n"));
    assert!(!has_device_access("user wheel audio\n"));
    assert!(!has_device_access(""));
}

#[test]
fn sessions_are_classified() {
    let connected = |name: &str| Some(name.to_string());
    let name_of = |server: Option<Server>| match server {
        Some(Server::Connected(name)) => Some(name),
        _ => None,
    };
    for desktop in ["Hyprland", "sway", "niri", "KDE"] {
        assert_eq!(
            name_of(classify_session(Some("wayland"), false, Some(desktop), true)),
            connected(desktop)
        );
    }
    assert_eq!(name_of(classify_session(Some("wayland"), false, Some("Hyprland"), false)), connected("Hyprland"));
    assert!(matches!(
        classify_session(Some("wayland"), false, Some("KDE"), false),
        Some(Server::Unsupported)
    ));
    assert!(matches!(
        classify_session(Some("wayland"), false, Some("GNOME"), true),
        Some(Server::Unsupported)
    ));
    assert!(matches!(classify_session(Some("wayland"), true, None, true), Some(Server::Unsupported)));
    assert_eq!(name_of(classify_session(Some("x11"), false, Some("KDE"), false)), connected("x11"));
    assert_eq!(name_of(classify_session(Some("x11"), false, None, false)), connected("x11"));
    assert!(matches!(classify_session(Some("tty"), false, Some("sway"), true), Some(Server::Failed)));
    assert!(matches!(classify_session(Some("tty"), true, None, true), Some(Server::Failed)));
    assert!(classify_session(None, false, Some("sway"), true).is_none());
    assert_eq!(name_of(classify_session(None, true, Some("sway"), true)), connected("sway"));
}

#[test]
fn commands_run_on_behalf_of_the_user() {
    let environment = |user: Option<&str>, sudo_user: Option<&str>| Environment {
        user: user.map(|s| s.to_string()),
        sudo_user: sudo_user.map(|s| s.to_string()),
        server: Server::Failed,
    };
    let root = environment(Some("root"), Some("ann"));
    assert_eq!(root.acting_user(), Some((&"ann".to_string(), true)));
    assert_eq!(
        root.spawn_subprocess("notify-send hi", false),
        Some(Spawn::RunUser { user: "ann".to_string(), command: "notify-send hi".to_string() })
    );
    let user = environment(Some("bob"), None);
    assert_eq!(user.acting_user(), Some((&"bob".to_string(), false)));
    assert_eq!(
        user.spawn_subprocess("notify-send hi", false),
        Some(Spawn::Shell { line: "systemd-run --user -M bob@ notify-send hi".to_string() })
    );
    assert_eq!(
        user.spawn_subprocess("kdotool getactivewindow getwindowclassname", true),
        Some(Spawn::Shell {
            line: "systemd-run --user --scope -M bob@ kdotool getactivewindow getwindowclassname"
                .to_string()
        })
    );
    let nobody = environment(None, None);
    assert_eq!(nobody.acting_user(), None);
    assert_eq!(nobody.spawn_subprocess("x", false), None);
}

#[test]
fn layout_notice_names_the_layout() {
    assert_eq!(layout_notice(2), "notify-send -t 500 'Makita' 'Switching to layout 2'");
    assert_eq!(layout_notice(0), "notify-send -t 500 'Makita' 'Switching to layout 0'");
    assert_eq!(layout_notice(65535), "notify-send -t 500 'Makita' 'Switching to layout 65535'");
}

#[test]
fn bus_address_is_that_of_the_user() {
    assert_eq!(bus_address("1000"), Some("unix:path=/run/user/1000/bus".to_string()));
    assert_eq!(bus_address("0"), None);
    assert_eq!(bus_address("00"), Some("unix:path=/run/user/00/bus".to_string()));
}

#[test]
fn match_window_knows_the_windows_with_a_context() {
    let configs = vec![context(None, 0), context(Some("firefox"), 2)];
    assert_eq!(match_window(&configs, class("firefox")), class("firefox"));
    assert_eq!(match_window(&configs, class("mpv")), Client::Default);
    assert_eq!(match_window(&configs, Client::Default), Client::Default);
    assert_eq!(match_window(&Vec::new(), class("firefox")), Client::Default);
}

#[test]
fn wm_class_is_what_follows_the_first_zero() {
    assert_eq!(wm_class(&b"navigator\0Firefox\0".to_vec()), Some(b"Firefox".to_vec()));
    assert_eq!(wm_class(&b"navigator\0Firefox".to_vec()), Some(b"Firefox".to_vec()));
    assert_eq!(wm_class(&b"navigator\0".to_vec()), Some(Vec::new()));
    assert_eq!(wm_class(&b"\0\0".to_vec()), Some(Vec::new()));
    assert_eq!(wm_class(&b"a\0b\0c\0".to_vec()), Some(b"b\0c".to_vec()));
    assert_eq!(wm_class(&b"navigator".to_vec()), None);
    assert_eq!(wm_class(&Vec::new()), None);
}

#[test]
fn sway_window_goes_by_the_application_id_first() {
    assert_eq!(sway_window(Some("foot".to_string()), Some("Foot".to_string())), class("foot"));
    assert_eq!(sway_window(None, Some("Foot".to_string())), class("Foot"));
    assert_eq!(sway_window(None, None), Client::Default);
}

#[test]
fn window_is_read_from_a_json_reply() {
    let configs = vec![context(None, 0), context(Some("firefox"), 0), context(Some("null"), 0)];
    let reply = "{\"address\": \"0x1\", \"class\": \"firefox\", \"app_id\": \"mpv\", \"n\": 3}";
    assert_eq!(window_from_reply(&configs, reply, "class"), class("firefox"));
    assert_eq!(window_from_reply(&configs, reply, "app_id"), Client::Default);
    assert_eq!(window_from_reply(&configs, reply, "title"), class("null"));
    assert_eq!(window_from_reply(&configs, "[1, 2]", "class"), class("null"));
    assert_eq!(window_from_reply(&configs, "not json", "class"), Client::Default);
    assert_eq!(window_from_reply(&configs, "", "class"), Client::Default);
}

#[test]
fn window_of_member_drops_the_quotation_marks() {
    let configs = vec![context(Some("a b"), 0)];
    assert_eq!(window_of_member(&configs, Some("\"a b\"".to_string())), class("a b"));
    assert_eq!(window_of_member(&configs, Some("a\" \"b".to_string())), class("a b"));
    assert_eq!(window_of_member(&configs, Some("a".to_string())), Client::Default);
    assert_eq!(window_of_member(&configs, None), Client::Default);
}

#[test]
fn window_is_read_from_the_output_of_kdotool() {
    let configs = vec![context(Some("org.kde.dolphin"), 0)];
    assert_eq!(window_from_kdotool(&configs, "org.kde.dolphin\n"), class("org.kde.dolphin"));
    assert_eq!(window_from_kdotool(&configs, "  org.kde.dolphin \t"), class("org.kde.dolphin"));
    assert_eq!(window_from_kdotool(&configs, "org.kde.kate\n"), Client::Default);
    assert_eq!(window_from_kdotool(&configs, ""), Client::Default);
}

#[test]
fn synthetic_events_go_to_their_channel() {
    let key = SyntheticEvent { event_type: 1, code: 30, value: 1 };
    let switch = SyntheticEvent { event_type: 5, code: 0, value: 1 };
    let relative = SyntheticEvent { event_type: 2, code: 8, value: -1 };
    let absolute = SyntheticEvent { event_type: 3, code: 0, value: 7 };
    assert_eq!(EventSender::route(&key), Emission { sink: Sink::Keys, event_type: 1, code: 30, value: 1 });
    assert_eq!(EventSender::route(&switch).sink, Sink::Keys);
    assert_eq!(
        EventSender::route(&relative),
        Emission { sink: Sink::Axis, event_type: 2, code: 8, value: -1 }
    );
    assert_eq!(EventSender::route(&absolute).sink, Sink::Keys);
    let sender = EventSender::new(vec![key, relative]);
    assert_eq!(
        sender.start(),
        vec![
            Emission { sink: Sink::Keys, event_type: 1, code: 30, value: 1 },
            Emission { sink: Sink::Axis, event_type: 2, code: 8, value: -1 },
        ]
    );
}
