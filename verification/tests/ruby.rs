use makita::magnus_ruby_runtime::{
    parse_query, render, MagnusRubyService, PhysicalEvent, RubyCommand, ServiceError, StateQuery,
    StateResponse, SyntheticEvent,
};
use makita::ruby_runtime::RubyService;

fn event(script: &str, code: u16) -> PhysicalEvent {
    PhysicalEvent {
        script: script.to_string(),
        event_type: 1,
        code,
        value: 1,
        timestamp_sec: 0,
        timestamp_nsec: 0,
    }
}

#[test]
fn test_magnus_ruby_service_creation() {
    let service = MagnusRubyService::new(|query| match query {
        StateQuery::KeyState(_) => StateResponse::KeyState(false),
        StateQuery::ModifierState => StateResponse::ModifierState(vec![]),
        StateQuery::DeviceConnected => StateResponse::DeviceConnected(true),
    });

    assert!(service.is_ok());
}

#[test]
fn test_command_sending() {
    let mut service = MagnusRubyService::new(|query| match query {
        StateQuery::KeyState(_) => StateResponse::KeyState(false),
        StateQuery::ModifierState => StateResponse::ModifierState(vec![]),
        StateQuery::DeviceConnected => StateResponse::DeviceConnected(true),
    })
    .expect("Failed to create service");

    // Test script loading
    let result = service.load_script("test".to_string(), "/tmp/test.rb".to_string());
    assert!(result.is_ok());

    // Test event sending
    let event = PhysicalEvent {
        script: "test".to_string(),
        event_type: 1,
        code: 30,
        value: 1,
        timestamp_sec: 0,
        timestamp_nsec: 0,
    };
    let result = service.send_event(event);
    assert!(result.is_ok());

    // Test event loop start
    let result = service.start_event_loop();
    assert!(result.is_ok());

    // Test stop
    let result = service.stop();
    assert!(result.is_ok());
}

#[test]
fn test_synthetic_event_reception() {
    let mut service = MagnusRubyService::new(|query| match query {
        StateQuery::KeyState(_) => StateResponse::KeyState(false),
        StateQuery::ModifierState => StateResponse::ModifierState(vec![]),
        StateQuery::DeviceConnected => StateResponse::DeviceConnected(true),
    })
    .expect("Failed to create service");

    // Initially should have no events
    let events = service.receive_synthetic_events();
    assert!(events.is_empty());
}

#[test]
fn commands_come_out_in_the_order_they_went_in() {
    let mut service = MagnusRubyService::new(|_| StateResponse::KeyState(false)).unwrap();
    service.load_script("a".to_string(), "/s/a.rb".to_string()).unwrap();
    service.start_event_loop().unwrap();
    service.stop().unwrap();
    match service.take_command() {
        Some(RubyCommand::LoadScript { name, path }) => {
            assert_eq!(name, "a");
            assert_eq!(path, "/s/a.rb");
        }
        other => panic!("unexpected command {:?}", other),
    }
    assert!(matches!(service.take_command(), Some(RubyCommand::StartEventLoop)));
    assert!(matches!(service.take_command(), Some(RubyCommand::Stop)));
    assert!(service.take_command().is_none());
}

#[test]
fn a_stopped_service_takes_no_commands() {
    let mut service = MagnusRubyService::new(|_| StateResponse::KeyState(false)).unwrap();
    service.send_event(event("a", 30)).unwrap();
    service.stop().unwrap();
    assert_eq!(service.stop(), Ok(()));
    assert!(matches!(service.take_command(), Some(RubyCommand::Stop)));
    assert_eq!(service.stop(), Err(ServiceError::Disconnected));
    assert_eq!(service.start_event_loop(), Err(ServiceError::Disconnected));
    assert_eq!(
        service.load_script("a".to_string(), "b".to_string()),
        Err(ServiceError::Disconnected)
    );
    assert!(service.send_event(event("b", 31)).is_ok());
    assert!(service.ruby_get_events().is_empty());
    service.ruby_send_synthetic_event(1, 30, 1);
    assert!(service.receive_synthetic_events().is_empty());
    assert!(matches!(service.take_command(), Some(RubyCommand::Stop)));
    assert!(service.take_command().is_none());
}

#[test]
fn events_wait_until_a_script_fetches_them() {
    let mut service = MagnusRubyService::new(|_| StateResponse::KeyState(false)).unwrap();
    service.send_event(event("a", 30)).unwrap();
    service.send_event(event("b", 31)).unwrap();
    let events = service.ruby_get_events();
    assert_eq!(events.len(), 2);
    assert_eq!((events[0].script.as_str(), events[0].code), ("a", 30));
    assert_eq!((events[1].script.as_str(), events[1].code), ("b", 31));
    assert!(service.ruby_get_events().is_empty());
}

#[test]
fn synthetic_events_are_received_once() {
    let mut service = MagnusRubyService::new(|_| StateResponse::KeyState(false)).unwrap();
    service.ruby_send_synthetic_event(1, 30, 1);
    service.ruby_send_synthetic_event(2, 8, -1);
    assert_eq!(
        service.receive_synthetic_events(),
        vec![
            SyntheticEvent { event_type: 1, code: 30, value: 1 },
            SyntheticEvent { event_type: 2, code: 8, value: -1 },
        ]
    );
    assert!(service.receive_synthetic_events().is_empty());
}

#[test]
fn queries_are_read_from_their_words() {
    assert_eq!(parse_query("KeyState", Some(30)), Some(StateQuery::KeyState(30)));
    assert_eq!(parse_query("KeyState", None), None);
    assert_eq!(parse_query("ModifierState", None), Some(StateQuery::ModifierState));
    assert_eq!(parse_query("ModifierState", Some(1)), Some(StateQuery::ModifierState));
    assert_eq!(parse_query("DeviceConnected", None), Some(StateQuery::DeviceConnected));
    assert_eq!(parse_query("deviceconnected", None), None);
    assert_eq!(parse_query("", Some(1)), None);
}

#[test]
fn answers_are_written_out() {
    assert_eq!(render(&StateResponse::KeyState(true)), "true");
    assert_eq!(render(&StateResponse::KeyState(false)), "false");
    assert_eq!(render(&StateResponse::DeviceConnected(true)), "true");
    assert_eq!(render(&StateResponse::ModifierState(vec![])), "[]");
    assert_eq!(render(&StateResponse::ModifierState(vec![42])), "[42]");
    assert_eq!(render(&StateResponse::ModifierState(vec![29, 0, 65535, 100])), "[29,0,65535,100]");
}

#[test]
fn a_script_gets_the_answer_of_the_handler() {
    let service = MagnusRubyService::new(|query| match query {
        StateQuery::KeyState(code) => StateResponse::KeyState(code == 30),
        StateQuery::ModifierState => StateResponse::ModifierState(vec![29, 42]),
        StateQuery::DeviceConnected => StateResponse::DeviceConnected(true),
    })
    .unwrap();
    assert_eq!(service.ruby_query_state("KeyState", Some(30)), "true");
    assert_eq!(service.ruby_query_state("KeyState", Some(31)), "false");
    assert_eq!(service.ruby_query_state("KeyState", None), "false");
    assert_eq!(service.ruby_query_state("ModifierState", None), "[29,42]");
    assert_eq!(service.ruby_query_state("DeviceConnected", None), "true");
    assert_eq!(service.ruby_query_state("Nonsense", Some(1)), "false");
}

#[test]
fn session_service_signals_each_event() {
    let mut service = RubyService::new().unwrap();
    service.load_script("a".to_string(), "/s/a.rb".to_string());
    service.start_event_loop();
    service.send_event(event("a", 30));
    service.send_event(event("a", 31));
    assert_eq!(service.take_signals(), vec![1u8, 1u8]);
    assert!(service.take_signals().is_empty());
    let events = service.ruby_get_events();
    assert_eq!(events.iter().map(|e| e.code).collect::<Vec<u16>>(), vec![30, 31]);
    assert!(service.ruby_get_events().is_empty());
    assert!(matches!(service.take_command(), Some(RubyCommand::LoadScript { .. })));
    assert!(matches!(service.take_command(), Some(RubyCommand::StartEventLoop)));
    assert!(service.take_command().is_none());
    service.ruby_send_synthetic_event(1, 30, 0);
    assert_eq!(
        service.take_synthetic_events(),
        vec![SyntheticEvent { event_type: 1, code: 30, value: 0 }]
    );
    assert!(service.take_synthetic_events().is_empty());
}
