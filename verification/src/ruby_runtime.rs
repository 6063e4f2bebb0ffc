//! The script service of a whole session: one pair of queues for all devices, and
//! a signal that wakes the interpreter when an event waits for it.
use vstd::prelude::*;
use crate::magnus_ruby_runtime::{RubyCommand, ServiceError};
pub use crate::magnus_ruby_runtime::{PhysicalEvent, SyntheticEvent};

verus! {

/// The byte that is written to the signal pipe for each event.
pub const SIGNAL: u8 = 1;

/// The script service of a session.
pub struct RubyService {
    commands: Vec<RubyCommand>,
    physical: Vec<PhysicalEvent>,
    synthetic: Vec<SyntheticEvent>,
    signals: Vec<u8>,
}

impl RubyService {
    /// The commands that the interpreter has not taken yet, oldest first.
    pub closed spec fn commands(&self) -> Seq<RubyCommand> {
        self.commands@
    }

    /// The physical events that the scripts have not fetched yet, oldest first.
    pub closed spec fn events(&self) -> Seq<PhysicalEvent> {
        self.physical@
    }

    /// The synthetic events that wait for the virtual device, oldest first.
    pub closed spec fn synthetic(&self) -> Seq<SyntheticEvent> {
        self.synthetic@
    }

    /// The bytes that wait to be written to the signal pipe.
    pub closed spec fn signals(&self) -> Seq<u8> {
        self.signals@
    }

    /// A service with empty queues. It is always made.
    pub fn new() -> (r: Result<RubyService, ServiceError>)
        ensures
            r matches Ok(service) && service.commands().len() == 0 && service.events().len() == 0
                && service.synthetic().len() == 0 && service.signals().len() == 0,
    {
        Ok(
            RubyService {
                commands: Vec::new(),
                physical: Vec::new(),
                synthetic: Vec::new(),
                signals: Vec::new(),
            },
        )
    }

    /// Tells the interpreter to start its event loop.
    pub fn start_event_loop(&mut self)
        ensures
            final(self).commands() == old(self).commands().push(RubyCommand::StartEventLoop),
            final(self).events() == old(self).events(),
            final(self).synthetic() == old(self).synthetic(),
            final(self).signals() == old(self).signals(),
    {
        self.commands.push(RubyCommand::StartEventLoop);
    }

    /// Tells the interpreter to load the script `name` from `path`.
    pub fn load_script(&mut self, name: String, path: String)
        ensures
            final(self).commands() == old(self).commands().push(
                RubyCommand::LoadScript { name, path },
            ),
            final(self).events() == old(self).events(),
            final(self).synthetic() == old(self).synthetic(),
            final(self).signals() == old(self).signals(),
    {
        self.commands.push(RubyCommand::LoadScript { name, path });
    }

    /// Hands a physical event to the scripts, and signals that one waits.
    pub fn send_event(&mut self, event: PhysicalEvent)
        ensures
            final(self).events() == old(self).events().push(event),
            final(self).signals() == old(self).signals().push(SIGNAL),
            final(self).commands() == old(self).commands(),
            final(self).synthetic() == old(self).synthetic(),
    {
        self.physical.push(event);
        self.signal_that_events_are_available();
    }

    /// Signals that an event waits: one byte for the signal pipe.
    fn signal_that_events_are_available(&mut self)
        ensures
            final(self).signals() == old(self).signals().push(SIGNAL),
            final(self).events() == old(self).events(),
            final(self).commands() == old(self).commands(),
            final(self).synthetic() == old(self).synthetic(),
    {
        self.signals.push(SIGNAL);
    }

    /// Takes the bytes that wait to be written to the signal pipe.
    pub fn take_signals(&mut self) -> (bytes: Vec<u8>)
        ensures
            bytes@ == old(self).signals(),
            final(self).signals() == Seq::<u8>::empty(),
            final(self).events() == old(self).events(),
            final(self).commands() == old(self).commands(),
            final(self).synthetic() == old(self).synthetic(),
    {
        let mut bytes: Vec<u8> = Vec::new();
        std::mem::swap(&mut self.signals, &mut bytes);
        bytes
    }

    /// Takes the synthetic events that wait for the virtual device, oldest first.
    pub fn take_synthetic_events(&mut self) -> (events: Vec<SyntheticEvent>)
        ensures
            events@ == old(self).synthetic(),
            final(self).synthetic() == Seq::<SyntheticEvent>::empty(),
            final(self).events() == old(self).events(),
            final(self).commands() == old(self).commands(),
            final(self).signals() == old(self).signals(),
    {
        let mut events: Vec<SyntheticEvent> = Vec::new();
        std::mem::swap(&mut self.synthetic, &mut events);
        events
    }

    /// The interpreter's side: takes the oldest command.
    pub fn take_command(&mut self) -> (command: Option<RubyCommand>)
        ensures
            final(self).events() == old(self).events(),
            final(self).synthetic() == old(self).synthetic(),
            final(self).signals() == old(self).signals(),
            ({
                let commands = old(self).commands();
                if commands.len() == 0 {
                    command is None && final(self).commands() == commands
                } else {
                    command == Some(commands[0]) && final(self).commands()
                        == commands.drop_first()
                }
            }),
    {
        if self.commands.len() == 0 {
            return None;
        }
        let command: RubyCommand = self.commands.remove(0);
        assert(self.commands@ =~= old(self).commands@.drop_first());
        Some(command)
    }

    /// A script sends an event to the virtual device.
    pub fn ruby_send_synthetic_event(&mut self, event_type: u16, code: u16, value: i32)
        ensures
            final(self).synthetic() == old(self).synthetic().push(
                SyntheticEvent { event_type, code, value },
            ),
            final(self).events() == old(self).events(),
            final(self).commands() == old(self).commands(),
            final(self).signals() == old(self).signals(),
    {
        self.synthetic.push(SyntheticEvent { event_type, code, value });
    }

    /// A script fetches the physical events that wait for it, oldest first, and
    /// leaves none behind.
    pub fn ruby_get_events(&mut self) -> (events: Vec<PhysicalEvent>)
        ensures
            events@ == old(self).events(),
            final(self).events() == Seq::<PhysicalEvent>::empty(),
            final(self).commands() == old(self).commands(),
            final(self).synthetic() == old(self).synthetic(),
            final(self).signals() == old(self).signals(),
    {
        let mut events: Vec<PhysicalEvent> = Vec::new();
        std::mem::swap(&mut self.physical, &mut events);
        events
    }
}

} // verus!
