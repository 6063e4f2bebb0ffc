//! The numbers of the Linux input interface that the engine looks at: event
//! types, axis codes and key codes, as `linux/input-event-codes.h` gives them.
use vstd::prelude::*;

verus! {

/// Event type of a key or button.
pub const EV_KEY: u16 = 1;

/// Event type of a relative axis.
pub const EV_REL: u16 = 2;

/// Event type of an absolute axis.
pub const EV_ABS: u16 = 3;

/// Event type of the miscellaneous events.
pub const EV_MSC: u16 = 4;

/// Horizontal pointer motion.
pub const REL_X: u16 = 0;

/// Vertical pointer motion.
pub const REL_Y: u16 = 1;

/// Vertical scroll wheel.
pub const REL_WHEEL: u16 = 8;

/// Vertical scroll wheel, in high resolution.
pub const REL_WHEEL_HI_RES: u16 = 11;

/// Horizontal scroll wheel, in high resolution.
pub const REL_HWHEEL_HI_RES: u16 = 12;

/// Left stick, horizontal.
pub const ABS_X: u16 = 0;

/// Left stick, vertical.
pub const ABS_Y: u16 = 1;

/// Left analog trigger.
pub const ABS_Z: u16 = 2;

/// Right stick, horizontal.
pub const ABS_RX: u16 = 3;

/// Right stick, vertical.
pub const ABS_RY: u16 = 4;

/// Right analog trigger.
pub const ABS_RZ: u16 = 5;

/// Absolute wheel position.
pub const ABS_WHEEL: u16 = 8;

/// D-pad hat, horizontal.
pub const ABS_HAT0X: u16 = 16;

/// D-pad hat, vertical.
pub const ABS_HAT0Y: u16 = 17;

/// Miscellaneous absolute axis; a zero on it marks a wheel that was let go.
pub const ABS_MISC: u16 = 40;

/// Serial number of a tablet tool; closes a batch of pen events.
pub const MSC_SERIAL: u16 = 0;

/// The left control key.
pub const KEY_LEFTCTRL: u16 = 29;

/// The left shift key.
pub const KEY_LEFTSHIFT: u16 = 42;

/// The right shift key.
pub const KEY_RIGHTSHIFT: u16 = 54;

/// The left alt key.
pub const KEY_LEFTALT: u16 = 56;

/// The right control key.
pub const KEY_RIGHTCTRL: u16 = 97;

/// The right alt key.
pub const KEY_RIGHTALT: u16 = 100;

/// The left meta key.
pub const KEY_LEFTMETA: u16 = 125;

/// The key that switches layouts where the settings name none.
pub const BTN_0: u16 = 256;

/// The button of the left trigger.
pub const BTN_TL2: u16 = 312;

/// The button of the right trigger.
pub const BTN_TR2: u16 = 313;

/// Tablet tool: pen.
pub const BTN_TOOL_PEN: u16 = 320;

/// Tablet tool: rubber.
pub const BTN_TOOL_RUBBER: u16 = 321;

/// Tablet tool: brush.
pub const BTN_TOOL_BRUSH: u16 = 322;

/// Tablet tool: pencil.
pub const BTN_TOOL_PENCIL: u16 = 323;

/// Tablet tool: airbrush.
pub const BTN_TOOL_AIRBRUSH: u16 = 324;

/// Tablet tool: mouse.
pub const BTN_TOOL_MOUSE: u16 = 326;

/// Tablet tool: lens.
pub const BTN_TOOL_LENS: u16 = 327;

} // verus!
