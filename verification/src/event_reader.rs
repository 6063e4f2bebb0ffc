//! The reader of one device: it takes the physical records one by one, digitizes
//! them, keeps the active context up to date, resolves, and gives back what the
//! virtual device is to get.
use vstd::prelude::*;
use crate::chord::{canonical, is_canonical, Chord};
use crate::codes::EV_REL;
use crate::config::{Config, Event};
use crate::device::{emit_default_event, with_default, Emission, RawEvent, Sink};
use crate::digitizer::{digitize, digitized_event, Action, AxisState};
use crate::layout::{
    advanced, change_active_layout, context_index, find_context, selected, update_config,
    Selection, LAYOUT_SLOTS,
};
use crate::magnus_ruby_runtime::{
    PhysicalEvent, PhysicalEventView, StateQuery, StateResponse,
};
use crate::resolver::{convert_event, converted, trace, Movements, Trace, Tracker};
use crate::settings::{Settings, SettingsError, StickFunction};
use crate::udev_monitor::Client;

verus! {

/// Why a reader could not be made.
#[derive(Debug, PartialEq, Eq, Structural, Hash, Clone, Copy)]
pub enum ReaderError {
    /// No context is made for the default window class and layout 0.
    NoDefaultContext,
    /// A setting of the default context cannot be read.
    Settings(SettingsError),
}

/// What changes while a reader runs.
#[verifier::ext_equal]
pub struct ReaderState {
    /// What the digitizer remembers, and the positions of the sticks.
    pub axes: AxisState,
    /// The chord that is held.
    pub chord: Seq<Event>,
    /// Whether a modifier was used in a combination.
    pub activated: bool,
    /// The movement accumulators.
    pub movements: Movements,
    /// The layout that is chosen.
    pub layout: u16,
    /// The place of the active context among the contexts of the device.
    pub context: usize,
    /// Whether the device is connected.
    pub connected: bool,
    /// The pen events of a tablet that have not gone out yet.
    pub pen: Seq<RawEvent>,
}

/// What one step of a reader asks of its surroundings.
#[verifier::ext_equal]
pub struct Outcome {
    /// The records for the virtual device, in order.
    pub emissions: Seq<Emission>,
    /// The layout to tell the user about, where the layout was switched and the
    /// settings ask for a notification.
    pub notice: Option<u16>,
    /// The event that a script takes over.
    pub script: Option<PhysicalEventView>,
}

/// What one step of a reader asks of its surroundings.
#[derive(Debug, Clone)]
pub struct Step {
    pub emissions: Vec<Emission>,
    pub notice: Option<u16>,
    pub script: Option<PhysicalEvent>,
}

impl View for Step {
    type V = Outcome;

    open spec fn view(&self) -> Outcome {
        Outcome {
            emissions: self.emissions@,
            notice: self.notice,
            script: match self.script {
                Some(event) => Some(event@),
                None => None,
            },
        }
    }
}

/// One record of the physical stream, with the class of the window that had the
/// focus when it came.
#[derive(Debug, Clone)]
pub struct Sample {
    pub raw: RawEvent,
    pub window: Client,
}

/// What does not change while a reader runs.
pub struct Device {
    pub contexts: Seq<Config>,
    pub settings: Settings,
    pub is_tablet: bool,
    pub max_abs_wheel: i32,
    pub scripts: bool,
    pub default_context: usize,
}

/// The pen events as they go out: each on the absolute channel, as it came.
pub open spec fn pen_emissions(pen: Seq<RawEvent>) -> Seq<Emission> {
    Seq::new(
        pen.len(),
        |i: int|
            Emission {
                sink: Sink::Abs,
                event_type: pen[i].event_type,
                code: pen[i].code,
                value: pen[i].value,
            },
    )
}

/// A step that asks for nothing.
pub open spec fn quiet() -> Outcome {
    Outcome { emissions: Seq::empty(), notice: None, script: None }
}

/// A step of the reader on the layout switcher: the layout advances to the next
/// slot that has a context for the window; where the settings ask for it the user
/// is told, which counts as a use of the modifiers. Nothing happens where no slot
/// has a context for the window.
pub open spec fn switched(device: Device, state: ReaderState, window: Option<Seq<char>>) -> (
    ReaderState,
    Outcome,
) {
    match advanced(device.contexts, window, state.layout, LAYOUT_SLOTS as nat) {
        Some(slot) => (
            ReaderState {
                layout: slot,
                activated: state.activated || device.settings.notify_layout_switch,
                ..state
            },
            Outcome {
                emissions: Seq::empty(),
                notice: if device.settings.notify_layout_switch {
                    Some(slot)
                } else {
                    None
                },
                script: None,
            },
        ),
        None => (state, quiet()),
    }
}

/// A step of the reader on an event for the resolver. A press first brings the
/// active context up to date with the window and the layout; where the layout had
/// to advance for that and the settings ask for it, the user is told. Then the
/// event is converted in the active context.
pub open spec fn resolved(
    device: Device,
    state: ReaderState,
    raw: RawEvent,
    window: Option<Seq<char>>,
    event: Event,
    value: i32,
    send_zero: bool,
) -> (ReaderState, Outcome) {
    let selection = if value == 1 {
        selected(device.contexts, window, state.layout, device.default_context)
    } else {
        Selection { context: state.context, layout: state.layout, switched: false }
    };
    let notice = if selection.switched && device.settings.notify_layout_switch {
        Some(selection.layout)
    } else {
        None
    };
    let context = device.contexts[selection.context as int];
    let c = converted(
        context,
        device.scripts,
        device.settings.chain_only,
        raw,
        event,
        value,
        send_zero,
        Trace {
            chord: state.chord,
            activated: state.activated || notice is Some,
            sent: Seq::empty(),
        },
        state.movements,
    );
    (
        ReaderState {
            chord: c.trace.chord,
            activated: c.trace.activated,
            movements: c.movements,
            layout: selection.layout,
            context: selection.context,
            ..state
        },
        Outcome {
            emissions: c.trace.sent,
            notice,
            script: match c.script {
                Some(i) => Some(
                    PhysicalEventView {
                        script: context.bindings.rubies@[i as int].output@,
                        event_type: raw.event_type,
                        code: raw.code,
                        value,
                        timestamp_sec: raw.timestamp_sec,
                        timestamp_nsec: raw.timestamp_nsec,
                    },
                ),
                None => None,
            },
        },
    )
}

/// One step of the reader: the record `raw` came while `window` had the focus.
/// The digitizer says what the record stands for; the rest follows from that.
pub open spec fn stepped(
    device: Device,
    state: ReaderState,
    raw: RawEvent,
    window: Option<Seq<char>>,
) -> (ReaderState, Outcome) {
    let d = digitized_event(
        device.settings,
        device.is_tablet,
        device.max_abs_wheel,
        state.axes,
        raw,
    );
    let state = ReaderState { axes: d.0, ..state };
    match d.1 {
        Action::Nothing => (state, quiet()),
        Action::Default => (
            state,
            Outcome { emissions: with_default(Seq::empty(), raw), notice: None, script: None },
        ),
        Action::HoldPen => (ReaderState { pen: state.pen.push(raw), ..state }, quiet()),
        Action::FlushPen => (
            ReaderState { pen: Seq::empty(), ..state },
            Outcome { emissions: pen_emissions(state.pen.push(raw)), notice: None, script: None },
        ),
        Action::SwitchLayout => switched(device, state, window),
        Action::Convert { event, value, send_zero } => resolved(
            device,
            state,
            raw,
            window,
            event,
            value,
            send_zero,
        ),
    }
}

/// The state of a reader after the records of `stream`, taken in order.
pub open spec fn state_after(
    device: Device,
    state: ReaderState,
    stream: Seq<(RawEvent, Option<Seq<char>>)>,
) -> ReaderState
    decreases stream.len(),
{
    if stream.len() == 0 {
        state
    } else {
        stepped(
            device,
            state_after(device, state, stream.drop_last()),
            stream.last().0,
            stream.last().1,
        ).0
    }
}

/// The records of a stream with the window of each, as `state_after` takes them.
pub open spec fn samples_view(stream: Seq<Sample>) -> Seq<(RawEvent, Option<Seq<char>>)> {
    Seq::new(stream.len(), |i: int| (stream[i].raw, stream[i].window@))
}

/// Whether the window has to be known for the record `raw`: it is where the
/// record is a press for the resolver or switches layouts.
pub open spec fn wants_window(device: Device, state: ReaderState, raw: RawEvent) -> bool {
    match digitized_event(
        device.settings,
        device.is_tablet,
        device.max_abs_wheel,
        state.axes,
        raw,
    ).1 {
        Action::SwitchLayout => true,
        Action::Convert { event, value, send_zero } => value == 1,
        _ => false,
    }
}

/// The largest of `maxima`, and 0 where none is above 0.
pub open spec fn largest(maxima: Seq<i32>) -> i32
    decreases maxima.len(),
{
    if maxima.len() == 0 {
        0
    } else if maxima.last() > largest(maxima.drop_last()) {
        maxima.last()
    } else {
        largest(maxima.drop_last())
    }
}

/// Finds the largest of `maxima`, and 0 where none is above 0.
pub fn max_abs_wheel(maxima: &Vec<i32>) -> (r: i32)
    ensures
        r == largest(maxima@),
{
    let mut r: i32 = 0;
    let mut i: usize = 0;
    while i < maxima.len()
        invariant
            i <= maxima@.len(),
            r == largest(maxima@.take(i as int)),
        decreases maxima@.len() - i,
    {
        assert(maxima@.take(i as int + 1).drop_last() =~= maxima@.take(i as int));
        if maxima[i] > r {
            r = maxima[i];
        }
        i += 1;
    }
    assert(maxima@.take(i as int) =~= maxima@);
    r
}

/// The key codes of a chord, as a script gets them: the code of each key, and 0
/// for each member that is no key.
pub open spec fn modifier_codes(chord: Seq<Event>) -> Seq<u16> {
    Seq::new(
        chord.len(),
        |i: int|
            match chord[i] {
                Event::Key(code) => code,
                _ => 0,
            },
    )
}

/// One of the two sticks.
#[derive(Debug, PartialEq, Eq, Structural, Hash, Clone, Copy)]
pub enum Side {
    Left,
    Right,
}

/// The stick that drives the motion `subject`, pointer or scroll, and the interval
/// between two of its ticks in milliseconds: the left stick where it has that
/// function, else the right stick where it has. `None` where neither has, where
/// `subject` is no motion, or where the sensitivity of the stick is 0, which
/// switches its motion off.
pub open spec fn generator(settings: Settings, subject: StickFunction) -> Option<(Side, u64)> {
    if subject != StickFunction::Cursor && subject != StickFunction::Scroll {
        None
    } else if settings.lstick.function == subject {
        if settings.lstick.sensitivity != 0 {
            Some((Side::Left, settings.lstick.sensitivity))
        } else {
            None
        }
    } else if settings.rstick.function == subject {
        if settings.rstick.sensitivity != 0 {
            Some((Side::Right, settings.rstick.sensitivity))
        } else {
            None
        }
    } else {
        None
    }
}

/// A relative-motion record, or none for no motion.
pub open spec fn relative_motion(code: u16, amount: int) -> Seq<Emission> {
    if amount != 0 {
        seq![Emission { sink: Sink::Axis, event_type: EV_REL, code, value: amount as i32 }]
    } else {
        Seq::empty()
    }
}

/// One tick of the position-driven generator of the motion `subject`. While the
/// device is connected, the stick is off its centre, and its activation chord is
/// empty or is the chord that is held, each axis of the stick that is off its
/// centre sends its position as relative motion, under `event_x_id` or
/// `event_y_id`; with `invert_axis` the opposite of the position.
pub open spec fn motion(
    device: Device,
    state: ReaderState,
    subject: StickFunction,
    invert_axis: bool,
    event_x_id: u16,
    event_y_id: u16,
) -> Seq<Emission> {
    match generator(device.settings, subject) {
        None => Seq::empty(),
        Some((side, interval)) => {
            let x = if side == Side::Left {
                state.axes.lstick_position_x
            } else {
                state.axes.rstick_position_x
            };
            let y = if side == Side::Left {
                state.axes.lstick_position_y
            } else {
                state.axes.rstick_position_y
            };
            let activation = if side == Side::Left {
                device.settings.lstick.activation_modifiers@
            } else {
                device.settings.rstick.activation_modifiers@
            };
            if state.connected && (x != 0 || y != 0) && (activation.len() == 0 || activation
                == state.chord) {
                if invert_axis {
                    relative_motion(event_x_id, -x) + relative_motion(event_y_id, -y)
                } else {
                    relative_motion(event_x_id, x as int) + relative_motion(event_y_id, y as int)
                }
            } else {
                Seq::empty()
            }
        },
    }
}

/// The reader of one device.
pub struct EventReader {
    config: Vec<Config>,
    default_context: usize,
    current: usize,
    settings: Settings,
    is_tablet: bool,
    max_abs_wheel: i32,
    scripts: bool,
    axes: AxisState,
    tracker: Tracker,
    movements: Movements,
    active_layout: u16,
    device_is_connected: bool,
    pen_events: Vec<RawEvent>,
}

impl View for EventReader {
    type V = ReaderState;

    closed spec fn view(&self) -> ReaderState {
        ReaderState {
            axes: self.axes,
            chord: self.tracker.chord@,
            activated: self.tracker.modifier_was_activated,
            movements: self.movements,
            layout: self.active_layout,
            context: self.current,
            connected: self.device_is_connected,
            pen: self.pen_events@,
        }
    }
}

impl EventReader {
    /// What does not change while the reader runs.
    pub closed spec fn device(&self) -> Device {
        Device {
            contexts: self.config@,
            settings: self.settings,
            is_tablet: self.is_tablet,
            max_abs_wheel: self.max_abs_wheel,
            scripts: self.scripts,
            default_context: self.default_context,
        }
    }

    /// What holds of every reader: its default context and its active context are
    /// among its contexts, the default context is made for the default window
    /// class and layout 0, and the stick positions are such as the digitizer
    /// gives.
    pub closed spec fn wf(&self) -> bool {
        &&& self.default_context < self.config@.len()
        &&& self.current < self.config@.len()
        &&& self.config@[self.default_context as int].associations@ == (None::<Seq<char>>, 0u16)
        &&& self.axes.in_range()
    }

    /// A reader for the device with the contexts `config`. The settings are those
    /// of the default context, which is active at first, under layout 0. The
    /// chord starts as that of `modifiers`. `abs_maxima` are the largest values
    /// that the absolute axes of the device report; `scripts` says whether a
    /// script service is there to take events over.
    pub fn new(
        config: Vec<Config>,
        is_tablet: bool,
        abs_maxima: &Vec<i32>,
        modifiers: &Vec<Event>,
        modifier_was_activated: bool,
        scripts: bool,
    ) -> (r: Result<EventReader, ReaderError>)
        ensures
            match r {
                Ok(reader) => {
                    &&& reader.wf()
                    &&& context_index(config@, None, 0) == Some(
                        reader.device().default_context as int,
                    )
                    &&& crate::settings::first_error(
                        config@[reader.device().default_context as int].settings@,
                    ) is None
                    &&& reader.device().settings.reads(
                        config@[reader.device().default_context as int].settings@,
                    )
                    &&& reader.device().contexts == config@
                    &&& reader.device().is_tablet == is_tablet
                    &&& reader.device().max_abs_wheel == largest(abs_maxima@)
                    &&& reader.device().scripts == scripts
                    &&& reader@ == (ReaderState {
                        axes: AxisState::at_rest(),
                        chord: canonical(modifiers@),
                        activated: modifier_was_activated,
                        movements: Movements { cursor_x: 0, cursor_y: 0, scroll_x: 0, scroll_y: 0 },
                        layout: 0,
                        context: reader.device().default_context,
                        connected: true,
                        pen: Seq::empty(),
                    })
                },
                Err(ReaderError::NoDefaultContext) => context_index(config@, None, 0) is None,
                Err(ReaderError::Settings(error)) => context_index(config@, None, 0) matches Some(
                    i,
                ) && crate::settings::first_error(config@[i].settings@) == Some(error),
            },
    {
        let default_context: usize = match find_context(&config, &Client::Default, 0) {
            Some(i) => i,
            None => { return Err(ReaderError::NoDefaultContext); },
        };
        proof {
            crate::layout::lemma_context_index(config@, None, 0);
        }
        let settings: Settings = match Settings::parse(&config[default_context].settings) {
            Ok(settings) => settings,
            Err(error) => { return Err(ReaderError::Settings(error)); },
        };
        let largest: i32 = max_abs_wheel(abs_maxima);
        Ok(
            EventReader {
                config,
                default_context,
                current: default_context,
                settings,
                is_tablet,
                max_abs_wheel: largest,
                scripts,
                axes: AxisState::new(),
                tracker: Tracker::new(Chord::from_events(modifiers), modifier_was_activated),
                movements: Movements::new(),
                active_layout: 0,
                device_is_connected: true,
                pen_events: Vec::new(),
            },
        )
    }

    /// The settings of the device.
    pub fn settings(&self) -> (settings: &Settings)
        ensures
            *settings == self.device().settings,
    {
        &self.settings
    }

    /// The context that is active.
    pub fn current_config(&self) -> (config: &Config)
        requires
            self.wf(),
        ensures
            *config == self.device().contexts[self@.context as int],
    {
        &self.config[self.current]
    }

    /// The layout that is chosen.
    pub fn active_layout(&self) -> (layout: u16)
        ensures
            layout == self@.layout,
    {
        self.active_layout
    }

    /// The chord that is held, in canonical order.
    pub fn modifiers(&self) -> (chord: Vec<Event>)
        ensures
            chord@ == self@.chord,
            is_canonical(chord@),
    {
        self.tracker.chord.snapshot()
    }

    /// Whether a modifier was used in a combination.
    pub fn modifier_was_activated(&self) -> (flag: bool)
        ensures
            flag == self@.activated,
    {
        self.tracker.modifier_was_activated
    }

    /// Whether the device is connected.
    pub fn device_is_connected(&self) -> (connected: bool)
        ensures
            connected == self@.connected,
    {
        self.device_is_connected
    }

    /// The movement accumulators.
    pub fn movements(&self) -> (movements: Movements)
        ensures
            movements == self@.movements,
    {
        self.movements
    }

    /// What the digitizer remembers, and the positions of the sticks.
    pub fn axes(&self) -> (axes: AxisState)
        ensures
            axes == self@.axes,
    {
        self.axes
    }

    /// Answers a question of a script from the state of the reader. No key state
    /// is kept, so no key counts as pressed.
    pub fn answer(&self, query: StateQuery) -> (response: StateResponse)
        ensures
            match query {
                StateQuery::KeyState(code) => response == StateResponse::KeyState(false),
                StateQuery::ModifierState => response matches StateResponse::ModifierState(codes)
                    && codes@ == modifier_codes(self@.chord),
                StateQuery::DeviceConnected => response == StateResponse::DeviceConnected(
                    self@.connected,
                ),
            },
    {
        match query {
            StateQuery::KeyState(_) => StateResponse::KeyState(false),
            StateQuery::ModifierState => {
                let chord: Vec<Event> = self.tracker.chord.snapshot();
                let mut codes: Vec<u16> = Vec::new();
                let mut i: usize = 0;
                while i < chord.len()
                    invariant
                        i <= chord@.len(),
                        codes@ == modifier_codes(chord@).take(i as int),
                    decreases chord@.len() - i,
                {
                    let code: u16 = match chord[i] {
                        Event::Key(code) => code,
                        _ => 0,
                    };
                    codes.push(code);
                    i += 1;
                    assert(codes@ =~= modifier_codes(chord@).take(i as int));
                }
                assert(modifier_codes(chord@).take(i as int) =~= modifier_codes(chord@));
                StateResponse::ModifierState(codes)
            },
            StateQuery::DeviceConnected => StateResponse::DeviceConnected(self.device_is_connected),
        }
    }

    /// Whether the window has to be asked for before `raw` is handled.
    pub fn needs_window(&self, raw: &RawEvent) -> (r: bool)
        ensures
            r == wants_window(self.device(), self@, *raw),
    {
        let mut axes: AxisState = self.axes;
        match digitize(&self.settings, self.is_tablet, self.max_abs_wheel, &mut axes, raw) {
            Action::SwitchLayout => true,
            Action::Convert { event, value, send_zero } => value == 1,
            _ => false,
        }
    }

    /// Handles one record of the physical stream; `window` is the class of the
    /// window that has the focus.
    pub fn handle_event(&mut self, raw: &RawEvent, window: &Client) -> (step: Step)
        requires
            old(self).wf(),
        ensures
            final(self).wf(),
            final(self).device() == old(self).device(),
            (final(self)@, step@) == stepped(old(self).device(), old(self)@, *raw, window@),
    {
        let action: Action = digitize(
            &self.settings,
            self.is_tablet,
            self.max_abs_wheel,
            &mut self.axes,
            raw,
        );
        let mut emissions: Vec<Emission> = Vec::new();
        let mut notice: Option<u16> = None;
        let mut script: Option<PhysicalEvent> = None;
        match action {
            Action::Nothing => {},
            Action::Default => {
                emit_default_event(raw, &mut emissions);
            },
            Action::HoldPen => {
                self.pen_events.push(*raw);
            },
            Action::FlushPen => {
                self.pen_events.push(*raw);
                let mut i: usize = 0;
                while i < self.pen_events.len()
                    invariant
                        i <= self.pen_events@.len(),
                        emissions@ == pen_emissions(self.pen_events@).take(i as int),
                    decreases self.pen_events@.len() - i,
                {
                    let pen: RawEvent = self.pen_events[i];
                    emissions.push(
                        Emission {
                            sink: Sink::Abs,
                            event_type: pen.event_type,
                            code: pen.code,
                            value: pen.value,
                        },
                    );
                    i += 1;
                    assert(emissions@ =~= pen_emissions(self.pen_events@).take(i as int));
                }
                assert(pen_emissions(self.pen_events@).take(i as int) =~= pen_emissions(
                    self.pen_events@,
                ));
                self.pen_events = Vec::new();
            },
            Action::SwitchLayout => {
                match change_active_layout(&self.config, window, self.active_layout) {
                    Some(slot) => {
                        self.active_layout = slot;
                        if self.settings.notify_layout_switch {
                            notice = Some(slot);
                            self.tracker.modifier_was_activated = true;
                        }
                    },
                    None => {},
                }
            },
            Action::Convert { event, value, send_zero } => {
                if value == 1 {
                    let selection: Selection = update_config(
                        &self.config,
                        window,
                        self.active_layout,
                        self.default_context,
                    );
                    self.current = selection.context;
                    self.active_layout = selection.layout;
                    if selection.switched && self.settings.notify_layout_switch {
                        notice = Some(selection.layout);
                        self.tracker.modifier_was_activated = true;
                    }
                }
                let taken: Option<usize> = convert_event(
                    &self.config[self.current],
                    self.scripts,
                    self.settings.chain_only,
                    raw,
                    event,
                    value,
                    send_zero,
                    &mut self.tracker,
                    &mut self.movements,
                    &mut emissions,
                );
                match taken {
                    Some(i) => {
                        script = Some(
                            PhysicalEvent {
                                script: self.config[self.current].bindings.rubies[i].output.clone(),
                                event_type: raw.event_type,
                                code: raw.code,
                                value,
                                timestamp_sec: raw.timestamp_sec,
                                timestamp_nsec: raw.timestamp_nsec,
                            },
                        );
                    },
                    None => {},
                }
            },
        }
        Step { emissions, notice, script }
    }

    /// Marks the device as disconnected: its stream has ended.
    pub fn disconnect(&mut self)
        requires
            old(self).wf(),
        ensures
            final(self).wf(),
            final(self).device() == old(self).device(),
            final(self)@ == (ReaderState { connected: false, ..old(self)@ }),
    {
        self.device_is_connected = false;
    }

    /// The stick that drives the motion `subject`, and the interval between two of
    /// its ticks in milliseconds; `None` where the motion is switched off.
    pub fn loop_2d_generator(&self, subject: StickFunction) -> (r: Option<(Side, u64)>)
        ensures
            r == generator(self.device().settings, subject),
    {
        match subject {
            StickFunction::Cursor | StickFunction::Scroll => {
                if self.settings.lstick.function == subject {
                    if self.settings.lstick.sensitivity != 0 {
                        Some((Side::Left, self.settings.lstick.sensitivity))
                    } else {
                        None
                    }
                } else if self.settings.rstick.function == subject {
                    if self.settings.rstick.sensitivity != 0 {
                        Some((Side::Right, self.settings.rstick.sensitivity))
                    } else {
                        None
                    }
                } else {
                    None
                }
            },
            _ => None,
        }
    }

    /// One tick of the position-driven generator of the motion `subject`.
    pub fn loop_2d(
        &self,
        subject: StickFunction,
        invert_axis: bool,
        event_x_id: u16,
        event_y_id: u16,
    ) -> (emissions: Vec<Emission>)
        requires
            self.wf(),
        ensures
            emissions@ == motion(
                self.device(),
                self@,
                subject,
                invert_axis,
                event_x_id,
                event_y_id,
            ),
    {
        let mut emissions: Vec<Emission> = Vec::new();
        let side: Side = match self.loop_2d_generator(subject) {
            Some((side, _)) => side,
            None => { return emissions; },
        };
        if !self.device_is_connected {
            return emissions;
        }
        let (x, y, left): (i32, i32, bool) = match side {
            Side::Left => (self.axes.lstick_position_x, self.axes.lstick_position_y, true),
            Side::Right => (self.axes.rstick_position_x, self.axes.rstick_position_y, false),
        };
        if x == 0 && y == 0 {
            return emissions;
        }
        let activation: &Vec<Event> = if left {
            &self.settings.lstick.activation_modifiers
        } else {
            &self.settings.rstick.activation_modifiers
        };
        if !(activation.len() == 0 || self.tracker.chord.matches(activation)) {
            return emissions;
        }
        let (dx, dy): (i32, i32) = if invert_axis {
            (-x, -y)
        } else {
            (x, y)
        };
        if dx != 0 {
            emissions.push(
                Emission { sink: Sink::Axis, event_type: EV_REL, code: event_x_id, value: dx },
            );
        }
        if dy != 0 {
            emissions.push(
                Emission { sink: Sink::Axis, event_type: EV_REL, code: event_y_id, value: dy },
            );
        }
        assert(emissions@ =~= relative_motion(event_x_id, dx as int) + relative_motion(
            event_y_id,
            dy as int,
        ));
        emissions
    }

    /// Runs the reader over a whole stream: handles the records of `stream` in
    /// order, and marks the device as disconnected when the stream has ended. The
    /// result holds one step for each record.
    pub fn event_loop(&mut self, stream: &Vec<Sample>) -> (steps: Vec<Step>)
        requires
            old(self).wf(),
        ensures
            final(self).wf(),
            final(self).device() == old(self).device(),
            final(self)@ == (ReaderState {
                connected: false,
                ..state_after(old(self).device(), old(self)@, samples_view(stream@))
            }),
            steps@.len() == stream@.len(),
            forall|i: int|
                0 <= i < stream@.len() ==> (#[trigger] steps@[i])@ == stepped(
                    old(self).device(),
                    state_after(old(self).device(), old(self)@, samples_view(stream@).take(i)),
                    stream@[i].raw,
                    stream@[i].window@,
                ).1,
    {
        let ghost device = self.device();
        let ghost start = self@;
        let ghost samples = samples_view(stream@);
        let mut steps: Vec<Step> = Vec::new();
        let mut i: usize = 0;
        assert(samples.take(0) =~= Seq::empty());
        while i < stream.len()
            invariant
                i <= stream@.len(),
                self.wf(),
                self.device() == device,
                samples == samples_view(stream@),
                self@ == state_after(device, start, samples.take(i as int)),
                steps@.len() == i,
                forall|j: int|
                    0 <= j < i ==> (#[trigger] steps@[j])@ == stepped(
                        device,
                        state_after(device, start, samples.take(j)),
                        stream@[j].raw,
                        stream@[j].window@,
                    ).1,
            decreases stream@.len() - i,
        {
            assert(samples.take(i as int + 1).drop_last() =~= samples.take(i as int));
            assert(samples.take(i as int + 1).last() == (stream@[i as int].raw, stream@[i as int].window@));
            let step: Step = self.handle_event(&stream[i].raw, &stream[i].window);
            steps.push(step);
            i += 1;
        }
        assert(samples.take(i as int) =~= samples);
        self.disconnect();
        steps
    }
}

} // verus!
