//! The axis digitizer: raw samples of sticks, triggers, wheels and the D-pad become
//! presses and releases of directions. Only a change is an event.
use vstd::prelude::*;
use crate::codes::{
    ABS_HAT0X, ABS_HAT0Y, ABS_MISC, ABS_RX, ABS_RY, ABS_RZ, ABS_WHEEL, ABS_X, ABS_Y, ABS_Z,
    BTN_TL2, BTN_TOOL_AIRBRUSH, BTN_TOOL_BRUSH, BTN_TOOL_LENS, BTN_TOOL_MOUSE, BTN_TOOL_PEN,
    BTN_TOOL_PENCIL, BTN_TOOL_RUBBER, BTN_TR2, EV_ABS, EV_KEY, EV_MSC, EV_REL, MSC_SERIAL,
    REL_WHEEL, REL_WHEEL_HI_RES,
};
use crate::config::{Axis, Event};
use crate::device::RawEvent;
use crate::settings::{Settings, StickFunction};

verus! {

/// The quotient of `a` by a positive `b`, rounded toward zero.
pub open spec fn toward_zero(a: int, b: int) -> int {
    if a >= 0 {
        a / b
    } else {
        -((-a) / b)
    }
}

/// A raw stick sample on the common scale, centred on 0: a 16-bit sample as it
/// is, an 8-bit sample moved by 128 and stretched by 200.
pub open spec fn normalized(value: i32, axis_16_bit: bool) -> int {
    if axis_16_bit {
        value as int
    } else {
        (value - 128) * 200
    }
}

/// The digitized value of a normalized sample under the deadzone `deadzone`, in
/// raw units: 0 within the deadzone, which reaches 200 times as far on the common
/// scale; beyond it the sample and 1999, divided by 2000 and rounded toward zero.
pub open spec fn digitized(sample: int, deadzone: int) -> int {
    if -(deadzone * 200) <= sample <= deadzone * 200 {
        0
    } else {
        toward_zero(sample + 1999, 2000)
    }
}

/// Within the deadzone every sample digitizes to 0.
pub proof fn lemma_deadzone(sample: int, deadzone: int)
    requires
        -(deadzone * 200) <= sample <= deadzone * 200,
    ensures
        digitized(sample, deadzone) == 0,
{
}

/// Digitizing is odd at a sample, which is to say that the opposite sample gives
/// the opposite value, exactly where the sample lies within the deadzone or is 0.
/// Beyond the deadzone the rounding of a sample and that of its opposite differ.
pub proof fn lemma_digitized_odd(sample: int, deadzone: int)
    ensures
        (digitized(-sample, deadzone) == -digitized(sample, deadzone)) <==> (-(deadzone * 200)
            <= sample <= deadzone * 200 || sample == 0),
{
}

/// Digitizes the sample of a stick axis.
pub fn get_axis_value(value: i32, deadzone: i32, axis_16_bit: bool) -> (r: i32)
    ensures
        r == digitized(normalized(value, axis_16_bit), deadzone as int),
        -214748400 < r < 214748400,
{
    let sample: i64 = if axis_16_bit {
        value as i64
    } else {
        (value as i64 - 128) * 200
    };
    let reach: i64 = deadzone as i64 * 200;
    if -reach <= sample && sample <= reach {
        0
    } else {
        let shifted: i64 = sample + 1999;
        if shifted >= 0 {
            (shifted / 2000) as i32
        } else {
            (-((-shifted) / 2000)) as i32
        }
    }
}

/// What the digitizer remembers between samples: the direction that each axis of
/// the D-pad and, in bind mode, of the sticks is held in (-1, 0 or 1); whether
/// each trigger is pressed; the last position of the absolute wheel, 0 for
/// none; and the digitized positions of the sticks, for the motion generators.
#[derive(Debug, PartialEq, Eq, Structural, Hash, Clone, Copy)]
pub struct AxisState {
    pub dpad_x: i32,
    pub dpad_y: i32,
    pub lstick_x: i32,
    pub lstick_y: i32,
    pub rstick_x: i32,
    pub rstick_y: i32,
    pub trigger_left: bool,
    pub trigger_right: bool,
    pub abs_wheel_position: i32,
    pub lstick_position_x: i32,
    pub lstick_position_y: i32,
    pub rstick_position_x: i32,
    pub rstick_position_y: i32,
}

impl AxisState {
    /// Everything at rest.
    pub fn new() -> (state: AxisState)
        ensures
            state == AxisState::at_rest(),
    {
        AxisState {
            dpad_x: 0,
            dpad_y: 0,
            lstick_x: 0,
            lstick_y: 0,
            rstick_x: 0,
            rstick_y: 0,
            trigger_left: false,
            trigger_right: false,
            abs_wheel_position: 0,
            lstick_position_x: 0,
            lstick_position_y: 0,
            rstick_position_x: 0,
            rstick_position_y: 0,
        }
    }

    /// Everything at rest.
    pub open spec fn at_rest() -> AxisState {
        AxisState {
            dpad_x: 0,
            dpad_y: 0,
            lstick_x: 0,
            lstick_y: 0,
            rstick_x: 0,
            rstick_y: 0,
            trigger_left: false,
            trigger_right: false,
            abs_wheel_position: 0,
            lstick_position_x: 0,
            lstick_position_y: 0,
            rstick_position_x: 0,
            rstick_position_y: 0,
        }
    }

    /// Whether the stick positions are such as the digitizer gives.
    pub open spec fn in_range(self) -> bool {
        &&& -214748400 < self.lstick_position_x < 214748400
        &&& -214748400 < self.lstick_position_y < 214748400
        &&& -214748400 < self.rstick_position_x < 214748400
        &&& -214748400 < self.rstick_position_y < 214748400
    }
}

/// What is to be done about a physical record.
#[derive(Debug, PartialEq, Eq, Structural, Hash, Clone, Copy)]
pub enum Action {
    /// Nothing.
    Nothing,
    /// The record stands for `event` at `value`, which goes to the resolver. With
    /// `send_zero` the event is a pulse: the resolver lets a release follow.
    Convert { event: Event, value: i32, send_zero: bool },
    /// The record goes to the virtual device as it is.
    Default,
    /// The layouts are switched.
    SwitchLayout,
    /// The record is kept with the pen events of the tablet.
    HoldPen,
    /// The record is kept with the pen events, and all of them go out.
    FlushPen,
}

/// A press of `event`.
pub open spec fn press(event: Axis) -> Action {
    Action::Convert { event: Event::Axis(event), value: 1, send_zero: false }
}

/// A release of `event`.
pub open spec fn release(event: Axis) -> Action {
    Action::Convert { event: Event::Axis(event), value: 0, send_zero: false }
}

/// A pulse of `event`: a press that its release follows at once.
pub open spec fn pulse(event: Axis) -> Action {
    Action::Convert { event: Event::Axis(event), value: 1, send_zero: true }
}

/// One axis of the D-pad hat, held in `direction`, at the sample `value`. -1
/// presses the negative direction and 1 the positive one, each time it is
/// reported; 0 releases the direction that was held; any other sample is ignored.
pub open spec fn hat(direction: i32, value: i32, negative: Axis, positive: Axis) -> (i32, Action) {
    if value == -1 {
        (-1i32, press(negative))
    } else if value == 1 {
        (1, press(positive))
    } else if value == 0 {
        (
            0,
            if direction == -1 {
                release(negative)
            } else if direction == 1 {
                release(positive)
            } else {
                Action::Nothing
            },
        )
    } else {
        (direction, Action::Nothing)
    }
}

/// One axis of a stick in bind mode, held in `direction`, at the digitized sample
/// `sample`. A sample below 0 presses the negative direction and one above 0 the
/// positive one, unless it is held already; 0 releases the direction that was
/// held.
pub open spec fn stick_edge(direction: i32, sample: i32, negative: Axis, positive: Axis) -> (
    i32,
    Action,
) {
    if sample < 0 {
        if direction != -1 {
            (-1i32, press(negative))
        } else {
            (direction, Action::Nothing)
        }
    } else if sample > 0 {
        if direction != 1 {
            (1, press(positive))
        } else {
            (direction, Action::Nothing)
        }
    } else if direction != 0 {
        (
            0,
            if direction == -1 {
                release(negative)
            } else if direction == 1 {
                release(positive)
            } else {
                Action::Nothing
            },
        )
    } else {
        (direction, Action::Nothing)
    }
}

/// One axis of a stick with the given function, at the digitized sample
/// `sample`: the direction it is held in, its position, and the action. As
/// pointer or scroll stick it takes the sample as its position; in bind mode it
/// gives the edges of `stick_edge`; else nothing happens.
pub open spec fn stick_axis(
    function: StickFunction,
    direction: i32,
    position: i32,
    sample: i32,
    negative: Axis,
    positive: Axis,
) -> (i32, i32, Action) {
    match function {
        StickFunction::Cursor | StickFunction::Scroll => (direction, sample, Action::Nothing),
        StickFunction::Bind => (
            stick_edge(direction, sample, negative, positive).0,
            position,
            stick_edge(direction, sample, negative, positive).1,
        ),
        StickFunction::Disabled => (direction, position, Action::Nothing),
    }
}

/// A trigger as a button: any sample but 0 presses it, 0 releases it, and only a
/// change is an event.
pub open spec fn trigger_edge(pressed: bool, value: i32, button: Axis) -> (bool, Action) {
    if value != 0 && !pressed {
        (true, press(button))
    } else if value == 0 && pressed {
        (false, release(button))
    } else {
        (pressed, Action::Nothing)
    }
}

/// The absolute wheel at `position`, 0 for none, at the sample `value`, where
/// `max` is the largest value that the axes of the device report. Between two
/// positions the wheel turned clockwise where the sample grew and
/// counterclockwise where it shrank, unless the step is longer than half of
/// `max`: then the wheel passed its zero point, and the direction is the other
/// one. The sample 0 and the position 0 give no event. The sample becomes the
/// position.
pub open spec fn wheel(position: i32, value: i32, max: i32) -> (i32, Action) {
    let gap = value - position;
    let half = toward_zero(max as int, 2);
    (
        value,
        if value == 0 || position == 0 {
            Action::Nothing
        } else if gap < -half {
            pulse(Axis::ABS_WHEEL_CW)
        } else if gap > half {
            pulse(Axis::ABS_WHEEL_CCW)
        } else if value > position {
            pulse(Axis::ABS_WHEEL_CW)
        } else if value < position {
            pulse(Axis::ABS_WHEEL_CCW)
        } else {
            Action::Nothing
        },
    )
}

/// Whether `code` is one of the tool buttons of a tablet.
pub open spec fn is_pen_tool(code: u16) -> bool {
    code == BTN_TOOL_PEN || code == BTN_TOOL_RUBBER || code == BTN_TOOL_BRUSH || code
        == BTN_TOOL_PENCIL || code == BTN_TOOL_AIRBRUSH || code == BTN_TOOL_MOUSE || code
        == BTN_TOOL_LENS
}

/// What a key record comes to. The two trigger buttons are ignored, for the
/// trigger axes stand for them; a tablet keeps its tool buttons with the pen
/// events; a press of the layout switcher switches layouts; every other key goes
/// to the resolver with its value.
pub open spec fn key_action(settings: Settings, is_tablet: bool, raw: RawEvent) -> Action {
    if raw.code == BTN_TL2 || raw.code == BTN_TR2 {
        Action::Nothing
    } else if is_tablet && is_pen_tool(raw.code) {
        Action::HoldPen
    } else if raw.code == settings.layout_switcher && raw.value == 1 {
        Action::SwitchLayout
    } else {
        Action::Convert { event: Event::Key(raw.code), value: raw.value, send_zero: false }
    }
}

/// One step of the digitizer: the state after the record `raw`, and what is to be
/// done about the record.
pub open spec fn digitized_event(
    settings: Settings,
    is_tablet: bool,
    max_abs_wheel: i32,
    state: AxisState,
    raw: RawEvent,
) -> (AxisState, Action) {
    let lsample = digitized(
        normalized(raw.value, settings.axis_16_bit),
        settings.lstick.deadzone as int,
    ) as i32;
    let rsample = digitized(
        normalized(raw.value, settings.axis_16_bit),
        settings.rstick.deadzone as int,
    ) as i32;
    if raw.event_type == EV_KEY {
        (state, key_action(settings, is_tablet, raw))
    } else if raw.event_type == EV_REL && (raw.code == REL_WHEEL || raw.code == REL_WHEEL_HI_RES) {
        (
            state,
            if raw.value == -1 {
                pulse(Axis::SCROLL_WHEEL_DOWN)
            } else if raw.value == 1 {
                pulse(Axis::SCROLL_WHEEL_UP)
            } else {
                Action::Nothing
            },
        )
    } else if raw.event_type == EV_ABS && raw.code == ABS_WHEEL {
        let w = wheel(state.abs_wheel_position, raw.value, max_abs_wheel);
        (AxisState { abs_wheel_position: w.0, ..state }, w.1)
    } else if raw.event_type == EV_ABS && raw.code == ABS_MISC {
        if !is_tablet && raw.value == 0 {
            (AxisState { abs_wheel_position: 0, ..state }, Action::Nothing)
        } else {
            (state, Action::Default)
        }
    } else if raw.event_type == EV_ABS && is_tablet {
        (state, Action::HoldPen)
    } else if raw.code == ABS_HAT0X {
        let h = hat(state.dpad_x, raw.value, Axis::BTN_DPAD_LEFT, Axis::BTN_DPAD_RIGHT);
        (AxisState { dpad_x: h.0, ..state }, h.1)
    } else if raw.code == ABS_HAT0Y {
        let h = hat(state.dpad_y, raw.value, Axis::BTN_DPAD_UP, Axis::BTN_DPAD_DOWN);
        (AxisState { dpad_y: h.0, ..state }, h.1)
    } else if raw.event_type == EV_ABS && raw.code == ABS_X {
        let s = stick_axis(
            settings.lstick.function,
            state.lstick_x,
            state.lstick_position_x,
            lsample,
            Axis::LSTICK_LEFT,
            Axis::LSTICK_RIGHT,
        );
        (AxisState { lstick_x: s.0, lstick_position_x: s.1, ..state }, s.2)
    } else if raw.event_type == EV_ABS && raw.code == ABS_Y {
        let s = stick_axis(
            settings.lstick.function,
            state.lstick_y,
            state.lstick_position_y,
            lsample,
            Axis::LSTICK_UP,
            Axis::LSTICK_DOWN,
        );
        (AxisState { lstick_y: s.0, lstick_position_y: s.1, ..state }, s.2)
    } else if raw.event_type == EV_ABS && (raw.code == ABS_RX || (raw.code == ABS_Z
        && settings.stadia)) {
        let s = stick_axis(
            settings.rstick.function,
            state.rstick_x,
            state.rstick_position_x,
            rsample,
            Axis::RSTICK_LEFT,
            Axis::RSTICK_RIGHT,
        );
        (AxisState { rstick_x: s.0, rstick_position_x: s.1, ..state }, s.2)
    } else if raw.event_type == EV_ABS && (raw.code == ABS_RY || (raw.code == ABS_RZ
        && settings.stadia)) {
        let s = stick_axis(
            settings.rstick.function,
            state.rstick_y,
            state.rstick_position_y,
            rsample,
            Axis::RSTICK_UP,
            Axis::RSTICK_DOWN,
        );
        (AxisState { rstick_y: s.0, rstick_position_y: s.1, ..state }, s.2)
    } else if raw.event_type == EV_ABS && raw.code == ABS_Z {
        let t = trigger_edge(state.trigger_left, raw.value, Axis::BTN_TL2);
        (AxisState { trigger_left: t.0, ..state }, t.1)
    } else if raw.event_type == EV_ABS && raw.code == ABS_RZ {
        let t = trigger_edge(state.trigger_right, raw.value, Axis::BTN_TR2);
        (AxisState { trigger_right: t.0, ..state }, t.1)
    } else if raw.event_type == EV_MSC && is_tablet {
        (
            state,
            if raw.code == MSC_SERIAL {
                Action::FlushPen
            } else {
                Action::Nothing
            },
        )
    } else {
        (state, Action::Default)
    }
}

/// One axis of the D-pad hat.
pub fn digitize_hat(direction: i32, value: i32, negative: Axis, positive: Axis) -> (r: (
    i32,
    Action,
))
    ensures
        r == hat(direction, value, negative, positive),
{
    if value == -1 {
        (-1, Action::Convert { event: Event::Axis(negative), value: 1, send_zero: false })
    } else if value == 1 {
        (1, Action::Convert { event: Event::Axis(positive), value: 1, send_zero: false })
    } else if value == 0 {
        if direction == -1 {
            (0, Action::Convert { event: Event::Axis(negative), value: 0, send_zero: false })
        } else if direction == 1 {
            (0, Action::Convert { event: Event::Axis(positive), value: 0, send_zero: false })
        } else {
            (0, Action::Nothing)
        }
    } else {
        (direction, Action::Nothing)
    }
}

/// One axis of a stick with the given function.
pub fn digitize_stick(
    function: StickFunction,
    direction: i32,
    position: i32,
    sample: i32,
    negative: Axis,
    positive: Axis,
) -> (r: (i32, i32, Action))
    ensures
        r == stick_axis(function, direction, position, sample, negative, positive),
{
    match function {
        StickFunction::Cursor | StickFunction::Scroll => (direction, sample, Action::Nothing),
        StickFunction::Disabled => (direction, position, Action::Nothing),
        StickFunction::Bind => {
            if sample < 0 {
                if direction != -1 {
                    (
                        -1,
                        position,
                        Action::Convert {
                            event: Event::Axis(negative),
                            value: 1,
                            send_zero: false,
                        },
                    )
                } else {
                    (direction, position, Action::Nothing)
                }
            } else if sample > 0 {
                if direction != 1 {
                    (
                        1,
                        position,
                        Action::Convert {
                            event: Event::Axis(positive),
                            value: 1,
                            send_zero: false,
                        },
                    )
                } else {
                    (direction, position, Action::Nothing)
                }
            } else if direction == -1 {
                (
                    0,
                    position,
                    Action::Convert { event: Event::Axis(negative), value: 0, send_zero: false },
                )
            } else if direction == 1 {
                (
                    0,
                    position,
                    Action::Convert { event: Event::Axis(positive), value: 0, send_zero: false },
                )
            } else {
                (0, position, Action::Nothing)
            }
        },
    }
}

/// A trigger as a button.
pub fn digitize_trigger(pressed: bool, value: i32, button: Axis) -> (r: (bool, Action))
    ensures
        r == trigger_edge(pressed, value, button),
{
    if value != 0 && !pressed {
        (true, Action::Convert { event: Event::Axis(button), value: 1, send_zero: false })
    } else if value == 0 && pressed {
        (false, Action::Convert { event: Event::Axis(button), value: 0, send_zero: false })
    } else {
        (pressed, Action::Nothing)
    }
}

/// The absolute wheel.
pub fn digitize_wheel(position: i32, value: i32, max: i32) -> (r: (i32, Action))
    ensures
        r == wheel(position, value, max),
{
    let gap: i64 = value as i64 - position as i64;
    let half: i64 = if max >= 0 {
        max as i64 / 2
    } else {
        -((-(max as i64)) / 2)
    };
    let action = if value == 0 || position == 0 {
        Action::Nothing
    } else if gap < -half {
        Action::Convert { event: Event::Axis(Axis::ABS_WHEEL_CW), value: 1, send_zero: true }
    } else if gap > half {
        Action::Convert { event: Event::Axis(Axis::ABS_WHEEL_CCW), value: 1, send_zero: true }
    } else if value > position {
        Action::Convert { event: Event::Axis(Axis::ABS_WHEEL_CW), value: 1, send_zero: true }
    } else if value < position {
        Action::Convert { event: Event::Axis(Axis::ABS_WHEEL_CCW), value: 1, send_zero: true }
    } else {
        Action::Nothing
    };
    (value, action)
}

/// Digitizes one physical record.
pub fn digitize(
    settings: &Settings,
    is_tablet: bool,
    max_abs_wheel: i32,
    state: &mut AxisState,
    raw: &RawEvent,
) -> (action: Action)
    ensures
        (*final(state), action) == digitized_event(
            *settings,
            is_tablet,
            max_abs_wheel,
            *old(state),
            *raw,
        ),
        old(state).in_range() ==> final(state).in_range(),
{
    let code: u16 = raw.code;
    if raw.event_type == EV_KEY {
        if code == BTN_TL2 || code == BTN_TR2 {
            Action::Nothing
        } else if is_tablet && (code == BTN_TOOL_PEN || code == BTN_TOOL_RUBBER || code
            == BTN_TOOL_BRUSH || code == BTN_TOOL_PENCIL || code == BTN_TOOL_AIRBRUSH || code
            == BTN_TOOL_MOUSE || code == BTN_TOOL_LENS) {
            Action::HoldPen
        } else if code == settings.layout_switcher && raw.value == 1 {
            Action::SwitchLayout
        } else {
            Action::Convert { event: Event::Key(code), value: raw.value, send_zero: false }
        }
    } else if raw.event_type == EV_REL && (code == REL_WHEEL || code == REL_WHEEL_HI_RES) {
        if raw.value == -1 {
            Action::Convert {
                event: Event::Axis(Axis::SCROLL_WHEEL_DOWN),
                value: 1,
                send_zero: true,
            }
        } else if raw.value == 1 {
            Action::Convert { event: Event::Axis(Axis::SCROLL_WHEEL_UP), value: 1, send_zero: true }
        } else {
            Action::Nothing
        }
    } else if raw.event_type == EV_ABS && code == ABS_WHEEL {
        let (position, action) = digitize_wheel(state.abs_wheel_position, raw.value, max_abs_wheel);
        state.abs_wheel_position = position;
        action
    } else if raw.event_type == EV_ABS && code == ABS_MISC {
        if !is_tablet && raw.value == 0 {
            state.abs_wheel_position = 0;
            Action::Nothing
        } else {
            Action::Default
        }
    } else if raw.event_type == EV_ABS && is_tablet {
        Action::HoldPen
    } else if code == ABS_HAT0X {
        let (direction, action) = digitize_hat(
            state.dpad_x,
            raw.value,
            Axis::BTN_DPAD_LEFT,
            Axis::BTN_DPAD_RIGHT,
        );
        state.dpad_x = direction;
        action
    } else if code == ABS_HAT0Y {
        let (direction, action) = digitize_hat(
            state.dpad_y,
            raw.value,
            Axis::BTN_DPAD_UP,
            Axis::BTN_DPAD_DOWN,
        );
        state.dpad_y = direction;
        action
    } else if raw.event_type == EV_ABS && code == ABS_X {
        let sample = get_axis_value(raw.value, settings.lstick.deadzone, settings.axis_16_bit);
        let (direction, position, action) = digitize_stick(
            settings.lstick.function,
            state.lstick_x,
            state.lstick_position_x,
            sample,
            Axis::LSTICK_LEFT,
            Axis::LSTICK_RIGHT,
        );
        state.lstick_x = direction;
        state.lstick_position_x = position;
        action
    } else if raw.event_type == EV_ABS && code == ABS_Y {
        let sample = get_axis_value(raw.value, settings.lstick.deadzone, settings.axis_16_bit);
        let (direction, position, action) = digitize_stick(
            settings.lstick.function,
            state.lstick_y,
            state.lstick_position_y,
            sample,
            Axis::LSTICK_UP,
            Axis::LSTICK_DOWN,
        );
        state.lstick_y = direction;
        state.lstick_position_y = position;
        action
    } else if raw.event_type == EV_ABS && (code == ABS_RX || (code == ABS_Z && settings.stadia)) {
        let sample = get_axis_value(raw.value, settings.rstick.deadzone, settings.axis_16_bit);
        let (direction, position, action) = digitize_stick(
            settings.rstick.function,
            state.rstick_x,
            state.rstick_position_x,
            sample,
            Axis::RSTICK_LEFT,
            Axis::RSTICK_RIGHT,
        );
        state.rstick_x = direction;
        state.rstick_position_x = position;
        action
    } else if raw.event_type == EV_ABS && (code == ABS_RY || (code == ABS_RZ && settings.stadia)) {
        let sample = get_axis_value(raw.value, settings.rstick.deadzone, settings.axis_16_bit);
        let (direction, position, action) = digitize_stick(
            settings.rstick.function,
            state.rstick_y,
            state.rstick_position_y,
            sample,
            Axis::RSTICK_UP,
            Axis::RSTICK_DOWN,
        );
        state.rstick_y = direction;
        state.rstick_position_y = position;
        action
    } else if raw.event_type == EV_ABS && code == ABS_Z {
        let (pressed, action) = digitize_trigger(state.trigger_left, raw.value, Axis::BTN_TL2);
        state.trigger_left = pressed;
        action
    } else if raw.event_type == EV_ABS && code == ABS_RZ {
        let (pressed, action) = digitize_trigger(state.trigger_right, raw.value, Axis::BTN_TR2);
        state.trigger_right = pressed;
        action
    } else if raw.event_type == EV_MSC && is_tablet {
        if code == MSC_SERIAL {
            Action::FlushPen
        } else {
            Action::Nothing
        }
    } else {
        Action::Default
    }
}

} // verus!
