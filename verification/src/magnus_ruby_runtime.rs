//! The script service: the queues between the engine and the interpreter that runs
//! the user's scripts, and the questions that a script may ask of the engine.
//!
//! The engine puts commands and physical events in; the side that drives the
//! interpreter takes them out in order, and puts in the synthetic events that the
//! scripts send back.
use vstd::prelude::*;
use crate::text::{chars_of, chars_are, push_decimal, push_str, string_of, digits_of};

verus! {

/// A physical event that a script takes over, under the name of the script.
#[derive(Clone, Debug)]
pub struct PhysicalEvent {
    pub script: String,
    pub event_type: u16,
    pub code: u16,
    pub value: i32,
    pub timestamp_sec: u64,
    pub timestamp_nsec: u32,
}

/// What a `PhysicalEvent` says.
pub struct PhysicalEventView {
    pub script: Seq<char>,
    pub event_type: u16,
    pub code: u16,
    pub value: i32,
    pub timestamp_sec: u64,
    pub timestamp_nsec: u32,
}

impl View for PhysicalEvent {
    type V = PhysicalEventView;

    open spec fn view(&self) -> PhysicalEventView {
        PhysicalEventView {
            script: self.script@,
            event_type: self.event_type,
            code: self.code,
            value: self.value,
            timestamp_sec: self.timestamp_sec,
            timestamp_nsec: self.timestamp_nsec,
        }
    }
}

/// An event that a script sends to the virtual device.
#[derive(Debug, PartialEq, Eq, Structural, Hash, Clone, Copy)]
pub struct SyntheticEvent {
    pub event_type: u16,
    pub code: u16,
    pub value: i32,
}

/// A question that a script asks of the engine.
#[derive(Debug, PartialEq, Eq, Structural, Hash, Clone, Copy)]
pub enum StateQuery {
    KeyState(u16),
    ModifierState,
    DeviceConnected,
}

/// The answer to a `StateQuery`.
#[derive(Debug, PartialEq, Eq, Clone)]
pub enum StateResponse {
    KeyState(bool),
    ModifierState(Vec<u16>),
    DeviceConnected(bool),
}

/// What the interpreter is told to do.
#[derive(Debug, Clone)]
pub enum RubyCommand {
    LoadScript { name: String, path: String },
    StartEventLoop,
    Stop,
}

/// Why the service did not take a command.
#[derive(Debug, PartialEq, Eq, Structural, Hash, Clone, Copy)]
pub enum ServiceError {
    /// The interpreter has stopped and takes no commands any more.
    Disconnected,
}

/// The question that a script asks with `query_type` and `key_code`, where these
/// make a question: `KeyState` needs a key code.
pub open spec fn state_query(query_type: Seq<char>, key_code: Option<u16>) -> Option<StateQuery> {
    if query_type == "KeyState"@ {
        match key_code {
            Some(code) => Some(StateQuery::KeyState(code)),
            None => None,
        }
    } else if query_type == "ModifierState"@ {
        Some(StateQuery::ModifierState)
    } else if query_type == "DeviceConnected"@ {
        Some(StateQuery::DeviceConnected)
    } else {
        None
    }
}

/// `true` or `false`, written out.
pub open spec fn bool_text(b: bool) -> Seq<char> {
    if b {
        "true"@
    } else {
        "false"@
    }
}

/// The key codes in decimal, with a comma between one and the next.
pub open spec fn joined(keys: Seq<u16>) -> Seq<char>
    decreases keys.len(),
{
    if keys.len() == 0 {
        Seq::empty()
    } else if keys.len() == 1 {
        digits_of(keys[0] as nat)
    } else {
        joined(keys.drop_last()) + ","@ + digits_of(keys.last() as nat)
    }
}

/// An answer as the script gets it: a truth value written out, or the key codes
/// in square brackets.
pub open spec fn rendered(response: StateResponse) -> Seq<char> {
    match response {
        StateResponse::KeyState(pressed) => bool_text(pressed),
        StateResponse::ModifierState(keys) => "["@ + joined(keys@) + "]"@,
        StateResponse::DeviceConnected(connected) => bool_text(connected),
    }
}

/// Reads the question of a script.
pub fn parse_query(query_type: &str, key_code: Option<u16>) -> (query: Option<StateQuery>)
    ensures
        query == state_query(query_type@, key_code),
{
    let word: Vec<char> = chars_of(query_type);
    if chars_are(&word, "KeyState") {
        match key_code {
            Some(code) => Some(StateQuery::KeyState(code)),
            None => None,
        }
    } else if chars_are(&word, "ModifierState") {
        Some(StateQuery::ModifierState)
    } else if chars_are(&word, "DeviceConnected") {
        Some(StateQuery::DeviceConnected)
    } else {
        None
    }
}

/// Writes an answer out for the script.
pub fn render(response: &StateResponse) -> (text: String)
    ensures
        text@ == rendered(*response),
{
    let mut out: Vec<char> = Vec::new();
    match response {
        StateResponse::KeyState(pressed) => {
            push_str(&mut out, if *pressed { "true" } else { "false" });
        },
        StateResponse::DeviceConnected(connected) => {
            push_str(&mut out, if *connected { "true" } else { "false" });
        },
        StateResponse::ModifierState(keys) => {
            push_str(&mut out, "[");
            let ghost open = out@;
            let mut i: usize = 0;
            while i < keys.len()
                invariant
                    i <= keys@.len(),
                    out@ == open + joined(keys@.take(i as int)),
                decreases keys@.len() - i,
            {
                assert(keys@.take(i as int + 1).drop_last() =~= keys@.take(i as int));
                if i > 0 {
                    push_str(&mut out, ",");
                }
                push_decimal(&mut out, keys[i]);
                i += 1;
                assert(out@ =~= open + joined(keys@.take(i as int)));
            }
            assert(keys@.take(i as int) =~= keys@);
            push_str(&mut out, "]");
            assert(out@ =~= "["@ + joined(keys@) + "]"@);
        },
    }
    assert(out@ =~= rendered(*response));
    string_of(&out)
}

/// The line of script that carries a command out in the interpreter.
pub open spec fn command_text(command: RubyCommand) -> Seq<char> {
    match command {
        RubyCommand::LoadScript { name, path } => "$makita_runtime.load_script('"@ + name@
            + "', '"@ + path@ + "')"@,
        RubyCommand::StartEventLoop => "$makita_runtime.start_event_loop"@,
        RubyCommand::Stop => "$makita_runtime.stop"@,
    }
}

/// Writes the line of script that carries a command out in the interpreter.
pub fn command_script(command: &RubyCommand) -> (script: String)
    ensures
        script@ == command_text(*command),
{
    let mut line: Vec<char> = Vec::new();
    match command {
        RubyCommand::LoadScript { name, path } => {
            push_str(&mut line, "$makita_runtime.load_script('");
            push_str(&mut line, name.as_str());
            push_str(&mut line, "', '");
            push_str(&mut line, path.as_str());
            push_str(&mut line, "')");
        },
        RubyCommand::StartEventLoop => {
            push_str(&mut line, "$makita_runtime.start_event_loop");
        },
        RubyCommand::Stop => {
            push_str(&mut line, "$makita_runtime.stop");
        },
    }
    string_of(&line)
}

/// A message of a script for the log: the line, and whether it goes to the error
/// stream, which the level `error` does.
pub fn ruby_log_message(level: &str, message: &str) -> (r: (String, bool))
    ensures
        r.0@ == "Ruby "@ + level@ + ": "@ + message@,
        r.1 == (level@ == "error"@),
{
    let mut line: Vec<char> = Vec::new();
    push_str(&mut line, "Ruby ");
    push_str(&mut line, level);
    push_str(&mut line, ": ");
    push_str(&mut line, message);
    (string_of(&line), crate::text::str_eq(level, "error"))
}

/// The script service. `F` answers the questions of the scripts.
pub struct MagnusRubyService<F> {
    commands: Vec<RubyCommand>,
    events: Vec<PhysicalEvent>,
    synthetic: Vec<SyntheticEvent>,
    running: bool,
    state_handler: F,
}

impl<F: Fn(StateQuery) -> StateResponse> MagnusRubyService<F> {
    /// The commands that the interpreter has not taken yet, oldest first.
    pub closed spec fn commands(&self) -> Seq<RubyCommand> {
        self.commands@
    }

    /// The physical events that the scripts have not fetched yet, oldest first.
    pub closed spec fn events(&self) -> Seq<PhysicalEvent> {
        self.events@
    }

    /// The synthetic events that the engine has not received yet, oldest first.
    pub closed spec fn synthetic(&self) -> Seq<SyntheticEvent> {
        self.synthetic@
    }

    /// Whether the interpreter still takes commands.
    pub closed spec fn running(&self) -> bool {
        self.running
    }

    /// The function that answers the questions of the scripts.
    pub closed spec fn handler(&self) -> F {
        self.state_handler
    }

    /// A service with empty queues, whose interpreter takes commands.
    pub fn new(state_handler: F) -> (r: Result<MagnusRubyService<F>, ServiceError>)
        ensures
            r matches Ok(service) && service.running() && service.commands().len() == 0
                && service.events().len() == 0 && service.synthetic().len() == 0
                && service.handler() == state_handler,
    {
        Ok(
            MagnusRubyService {
                commands: Vec::new(),
                events: Vec::new(),
                synthetic: Vec::new(),
                running: true,
                state_handler,
            },
        )
    }

    /// Queues `command`, unless the interpreter has stopped.
    fn send_command(&mut self, command: RubyCommand) -> (r: Result<(), ServiceError>)
        ensures
            final(self).events() == old(self).events(),
            final(self).synthetic() == old(self).synthetic(),
            final(self).running() == old(self).running(),
            final(self).handler() == old(self).handler(),
            old(self).running() ==> r is Ok && final(self).commands() == old(self).commands().push(
                command,
            ),
            !old(self).running() ==> r == Err::<(), ServiceError>(ServiceError::Disconnected)
                && final(self).commands() == old(self).commands(),
    {
        if self.running {
            self.commands.push(command);
            Ok(())
        } else {
            Err(ServiceError::Disconnected)
        }
    }

    /// Tells the interpreter to start its event loop.
    pub fn start_event_loop(&mut self) -> (r: Result<(), ServiceError>)
        ensures
            final(self).events() == old(self).events(),
            final(self).synthetic() == old(self).synthetic(),
            final(self).running() == old(self).running(),
            final(self).handler() == old(self).handler(),
            old(self).running() ==> r is Ok && final(self).commands() == old(self).commands().push(
                RubyCommand::StartEventLoop,
            ),
            !old(self).running() ==> r == Err::<(), ServiceError>(ServiceError::Disconnected)
                && final(self).commands() == old(self).commands(),
    {
        self.send_command(RubyCommand::StartEventLoop)
    }

    /// Tells the interpreter to load the script `name` from `path`.
    pub fn load_script(&mut self, name: String, path: String) -> (r: Result<(), ServiceError>)
        ensures
            final(self).events() == old(self).events(),
            final(self).synthetic() == old(self).synthetic(),
            final(self).running() == old(self).running(),
            final(self).handler() == old(self).handler(),
            old(self).running() ==> r is Ok && final(self).commands() == old(self).commands().push(
                RubyCommand::LoadScript { name, path },
            ),
            !old(self).running() ==> r == Err::<(), ServiceError>(ServiceError::Disconnected)
                && final(self).commands() == old(self).commands(),
    {
        self.send_command(RubyCommand::LoadScript { name, path })
    }

    /// Tells the interpreter to stop. It stops when it takes the command.
    pub fn stop(&mut self) -> (r: Result<(), ServiceError>)
        ensures
            final(self).events() == old(self).events(),
            final(self).synthetic() == old(self).synthetic(),
            final(self).running() == old(self).running(),
            final(self).handler() == old(self).handler(),
            old(self).running() ==> r is Ok && final(self).commands() == old(self).commands().push(
                RubyCommand::Stop,
            ),
            !old(self).running() ==> r == Err::<(), ServiceError>(ServiceError::Disconnected)
                && final(self).commands() == old(self).commands(),
    {
        self.send_command(RubyCommand::Stop)
    }

    /// Hands a physical event to the scripts. Once the interpreter has stopped the
    /// event is dropped; this is no error.
    pub fn send_event(&mut self, event: PhysicalEvent) -> (r: Result<(), ServiceError>)
        ensures
            r is Ok,
            final(self).commands() == old(self).commands(),
            final(self).synthetic() == old(self).synthetic(),
            final(self).running() == old(self).running(),
            final(self).handler() == old(self).handler(),
            final(self).events() == if old(self).running() {
                old(self).events().push(event)
            } else {
                old(self).events()
            },
    {
        if self.running {
            self.events.push(event);
        }
        Ok(())
    }

    /// Takes the synthetic events that the scripts have sent, oldest first, and
    /// leaves none behind.
    pub fn receive_synthetic_events(&mut self) -> (events: Vec<SyntheticEvent>)
        ensures
            events@ == old(self).synthetic(),
            final(self).synthetic() == Seq::<SyntheticEvent>::empty(),
            final(self).commands() == old(self).commands(),
            final(self).events() == old(self).events(),
            final(self).running() == old(self).running(),
            final(self).handler() == old(self).handler(),
    {
        let mut events: Vec<SyntheticEvent> = Vec::new();
        std::mem::swap(&mut self.synthetic, &mut events);
        events
    }

    /// The interpreter's side: takes the oldest command. Taking `Stop` stops the
    /// interpreter: the events that no script has fetched are dropped.
    pub fn take_command(&mut self) -> (command: Option<RubyCommand>)
        ensures
            final(self).synthetic() == old(self).synthetic(),
            final(self).handler() == old(self).handler(),
            ({
                let commands = old(self).commands();
                if commands.len() == 0 {
                    &&& command is None
                    &&& final(self).commands() == commands
                    &&& final(self).running() == old(self).running()
                    &&& final(self).events() == old(self).events()
                } else {
                    &&& command == Some(commands[0])
                    &&& final(self).commands() == commands.drop_first()
                    &&& final(self).running() == (old(self).running() && !(commands[0] is Stop))
                    &&& final(self).events() == if commands[0] is Stop {
                        Seq::<PhysicalEvent>::empty()
                    } else {
                        old(self).events()
                    }
                }
            }),
    {
        if self.commands.len() == 0 {
            return None;
        }
        let command: RubyCommand = self.commands.remove(0);
        assert(self.commands@ =~= old(self).commands@.drop_first());
        match command {
            RubyCommand::Stop => {
                self.running = false;
                self.events = Vec::new();
            },
            _ => {},
        }
        Some(command)
    }

    /// A script sends an event to the virtual device. Once the interpreter has
    /// stopped the event is dropped.
    pub fn ruby_send_synthetic_event(&mut self, event_type: u16, code: u16, value: i32)
        ensures
            final(self).commands() == old(self).commands(),
            final(self).events() == old(self).events(),
            final(self).running() == old(self).running(),
            final(self).handler() == old(self).handler(),
            final(self).synthetic() == if old(self).running() {
                old(self).synthetic().push(SyntheticEvent { event_type, code, value })
            } else {
                old(self).synthetic()
            },
    {
        if self.running {
            self.synthetic.push(SyntheticEvent { event_type, code, value });
        }
    }

    /// A script fetches the physical events that wait for it, oldest first, and
    /// leaves none behind.
    pub fn ruby_get_events(&mut self) -> (events: Vec<PhysicalEvent>)
        ensures
            events@ == old(self).events(),
            final(self).events() == Seq::<PhysicalEvent>::empty(),
            final(self).commands() == old(self).commands(),
            final(self).synthetic() == old(self).synthetic(),
            final(self).running() == old(self).running(),
            final(self).handler() == old(self).handler(),
    {
        let mut events: Vec<PhysicalEvent> = Vec::new();
        std::mem::swap(&mut self.events, &mut events);
        events
    }

    /// A script asks about the state of the engine. What is no question is
    /// answered `false`; a question goes to the handler, and its answer comes
    /// back written out.
    pub fn ruby_query_state(&self, query_type: &str, key_code: Option<u16>) -> (answer: String)
        requires
            forall|query: StateQuery| call_requires(self.handler(), (query,)),
        ensures
            match state_query(query_type@, key_code) {
                Some(query) => exists|response: StateResponse|
                    call_ensures(self.handler(), (query,), response) && answer@ == rendered(
                        response,
                    ),
                None => answer@ == "false"@,
            },
    {
        match parse_query(query_type, key_code) {
            Some(query) => {
                assert(call_requires(self.handler(), (query,)));
                let response: StateResponse = (self.state_handler)(query);
                assert(call_ensures(self.handler(), (query,), response));
                render(&response)
            },
            None => render(&StateResponse::KeyState(false)),
        }
    }
}

} // verus!
