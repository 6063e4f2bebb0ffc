//! The settings of a device, read once from the default context: what the sticks
//! do, how sensitive they are, and the switches of the resolver.
use vstd::prelude::*;
use crate::chord::{canonical, Chord};
use crate::codes::BTN_0;
use crate::config::{
    get_setting, key_code_by_name, key_from_name, modifiers_setting, parse_modifiers, setting, Event,
};
use crate::text::{
    chars_are, parse_bool, parse_bool_spec, parse_i32, parse_i32_spec, parse_u64,
    parse_unsigned_spec,
};

verus! {

/// What a stick is used for.
#[derive(Debug, PartialEq, Eq, Structural, Hash, Clone, Copy)]
pub enum StickFunction {
    /// The stick moves the pointer.
    Cursor,
    /// The stick scrolls.
    Scroll,
    /// The four directions of the stick are events that rules can bind.
    Bind,
    /// The stick does nothing.
    Disabled,
}

/// The function that a word of the settings stands for: `cursor`, `scroll` or
/// `bind`; with any other word the stick does nothing.
pub open spec fn stick_function(word: Seq<char>) -> StickFunction {
    if word == "cursor"@ {
        StickFunction::Cursor
    } else if word == "scroll"@ {
        StickFunction::Scroll
    } else if word == "bind"@ {
        StickFunction::Bind
    } else {
        StickFunction::Disabled
    }
}

/// The settings of one stick.
#[derive(Debug, Clone)]
pub struct Stick {
    pub function: StickFunction,
    /// The interval between two motion events, in milliseconds; 0 switches the
    /// motion of the stick off.
    pub sensitivity: u64,
    /// The radius around the centre that counts as no input, in raw units.
    pub deadzone: i32,
    /// The chord that has to be held for the stick to move anything; the empty
    /// chord asks for nothing.
    pub activation_modifiers: Vec<Event>,
}

/// The settings of one button-driven motion.
#[derive(Debug, PartialEq, Eq, Structural, Hash, Clone, Copy)]
pub struct Movement {
    /// The largest speed; 0 switches the motion off.
    pub speed: i32,
}

/// The settings of a device.
#[derive(Debug, Clone)]
pub struct Settings {
    pub lstick: Stick,
    pub rstick: Stick,
    pub invert_cursor_axis: bool,
    pub invert_scroll_axis: bool,
    pub axis_16_bit: bool,
    pub stadia: bool,
    pub cursor: Movement,
    pub scroll: Movement,
    pub chain_only: bool,
    /// The code of the key that switches layouts.
    pub layout_switcher: u16,
    pub notify_layout_switch: bool,
}

/// The setting whose value cannot be read.
#[derive(Debug, PartialEq, Eq, Structural, Hash, Clone, Copy)]
pub enum SettingsError {
    LstickSensitivity,
    LstickDeadzone,
    RstickSensitivity,
    RstickDeadzone,
    Axis16Bit,
    Stadia,
    ChainOnly,
    InvertCursorAxis,
    InvertScrollAxis,
    CursorSpeed,
    ScrollSpeed,
    LayoutSwitcher,
    NotifyLayoutSwitch,
}

impl SettingsError {
    /// What to tell the user.
    pub fn message(&self) -> (text: &'static str)
        ensures
            text@ == match self {
                SettingsError::LstickSensitivity => "Invalid LSTICK_SENSITIVITY, use integer >= 0"@,
                SettingsError::LstickDeadzone => "Invalid LSTICK_DEADZONE, use integer 0 to 128."@,
                SettingsError::RstickSensitivity => "Invalid RSTICK_SENSITIVITY, use integer >= 0"@,
                SettingsError::RstickDeadzone => "Invalid RSTICK_DEADZONE, use integer 0 to 128."@,
                SettingsError::Axis16Bit => "Invalid 16_BIT_AXIS use true/false."@,
                SettingsError::Stadia => "Invalid STADIA use true/false."@,
                SettingsError::ChainOnly => "Invalid CHAIN_ONLY use true/false."@,
                SettingsError::InvertCursorAxis => "Invalid INVERT_CURSOR_AXIS use true/false."@,
                SettingsError::InvertScrollAxis => "Invalid INVERT_SCROLL_AXIS use true/false."@,
                SettingsError::CursorSpeed => "Invalid CURSOR_SPEED, use integer."@,
                SettingsError::ScrollSpeed => "Invalid SCROLL_SPEED, use integer."@,
                SettingsError::LayoutSwitcher => "LAYOUT_SWITCHER is not a valid Key."@,
                SettingsError::NotifyLayoutSwitch => "Invalid NOTIFY_LAYOUT_SWITCH use true/false."@,
            },
    {
        match self {
            SettingsError::LstickSensitivity => "Invalid LSTICK_SENSITIVITY, use integer >= 0",
            SettingsError::LstickDeadzone => "Invalid LSTICK_DEADZONE, use integer 0 to 128.",
            SettingsError::RstickSensitivity => "Invalid RSTICK_SENSITIVITY, use integer >= 0",
            SettingsError::RstickDeadzone => "Invalid RSTICK_DEADZONE, use integer 0 to 128.",
            SettingsError::Axis16Bit => "Invalid 16_BIT_AXIS use true/false.",
            SettingsError::Stadia => "Invalid STADIA use true/false.",
            SettingsError::ChainOnly => "Invalid CHAIN_ONLY use true/false.",
            SettingsError::InvertCursorAxis => "Invalid INVERT_CURSOR_AXIS use true/false.",
            SettingsError::InvertScrollAxis => "Invalid INVERT_SCROLL_AXIS use true/false.",
            SettingsError::CursorSpeed => "Invalid CURSOR_SPEED, use integer.",
            SettingsError::ScrollSpeed => "Invalid SCROLL_SPEED, use integer.",
            SettingsError::LayoutSwitcher => "LAYOUT_SWITCHER is not a valid Key.",
            SettingsError::NotifyLayoutSwitch => "Invalid NOTIFY_LAYOUT_SWITCH use true/false.",
        }
    }
}

/// The function of a stick: that of the word under `name`, or `otherwise` where
/// the setting is missing.
pub open spec fn function_setting(
    settings: Seq<(String, String)>,
    name: Seq<char>,
    otherwise: StickFunction,
) -> StickFunction {
    match setting(settings, name) {
        Some(word) => stick_function(word),
        None => otherwise,
    }
}

/// The number under `name`, or `otherwise` where the setting is missing; `None`
/// where the value is no decimal `u64`.
pub open spec fn u64_setting(settings: Seq<(String, String)>, name: Seq<char>, otherwise: u64)
    -> Option<u64> {
    match setting(settings, name) {
        Some(text) => match parse_unsigned_spec(text, u64::MAX as nat) {
            Some(v) => Some(v as u64),
            None => None,
        },
        None => Some(otherwise),
    }
}

/// The number under `name`, or `otherwise` where the setting is missing; `None`
/// where the value is no decimal `i32`.
pub open spec fn i32_setting(settings: Seq<(String, String)>, name: Seq<char>, otherwise: i32)
    -> Option<i32> {
    match setting(settings, name) {
        Some(text) => parse_i32_spec(text),
        None => Some(otherwise),
    }
}

/// The switch under `name`, or `otherwise` where the setting is missing; `None`
/// where the value is neither `true` nor `false`.
pub open spec fn bool_setting(settings: Seq<(String, String)>, name: Seq<char>, otherwise: bool)
    -> Option<bool> {
    match setting(settings, name) {
        Some(text) => parse_bool_spec(text),
        None => Some(otherwise),
    }
}

/// The code of the key named under `name`, or `otherwise` where the setting is
/// missing; `None` where the value names no key.
pub open spec fn key_setting(settings: Seq<(String, String)>, name: Seq<char>, otherwise: u16)
    -> Option<u16> {
    match setting(settings, name) {
        Some(text) => key_code_by_name(text),
        None => Some(otherwise),
    }
}

/// The first setting, in the order in which they are read, whose value cannot be
/// read; `None` where all can.
pub open spec fn first_error(s: Seq<(String, String)>) -> Option<SettingsError> {
    if u64_setting(s, "LSTICK_SENSITIVITY"@, 0) is None {
        Some(SettingsError::LstickSensitivity)
    } else if i32_setting(s, "LSTICK_DEADZONE"@, 5) is None {
        Some(SettingsError::LstickDeadzone)
    } else if u64_setting(s, "RSTICK_SENSITIVITY"@, 0) is None {
        Some(SettingsError::RstickSensitivity)
    } else if i32_setting(s, "RSTICK_DEADZONE"@, 5) is None {
        Some(SettingsError::RstickDeadzone)
    } else if bool_setting(s, "16_BIT_AXIS"@, false) is None {
        Some(SettingsError::Axis16Bit)
    } else if bool_setting(s, "STADIA"@, false) is None {
        Some(SettingsError::Stadia)
    } else if bool_setting(s, "CHAIN_ONLY"@, true) is None {
        Some(SettingsError::ChainOnly)
    } else if bool_setting(s, "INVERT_CURSOR_AXIS"@, false) is None {
        Some(SettingsError::InvertCursorAxis)
    } else if bool_setting(s, "INVERT_SCROLL_AXIS"@, false) is None {
        Some(SettingsError::InvertScrollAxis)
    } else if i32_setting(s, "CURSOR_SPEED"@, 0) is None {
        Some(SettingsError::CursorSpeed)
    } else if i32_setting(s, "SCROLL_SPEED"@, 0) is None {
        Some(SettingsError::ScrollSpeed)
    } else if key_setting(s, "LAYOUT_SWITCHER"@, BTN_0) is None {
        Some(SettingsError::LayoutSwitcher)
    } else if bool_setting(s, "NOTIFY_LAYOUT_SWITCH"@, false) is None {
        Some(SettingsError::NotifyLayoutSwitch)
    } else {
        None
    }
}

impl Settings {
    /// Whether these are the settings that the pairs `s` give: every field has the
    /// value of its setting, or the default of the setting where it is missing.
    /// The left stick moves the pointer and the right stick scrolls by default;
    /// sensitivities and speeds are 0, deadzones 5; `CHAIN_ONLY` is on, the other
    /// switches are off; and `BTN_0` switches layouts.
    pub open spec fn reads(self, s: Seq<(String, String)>) -> bool {
        &&& self.lstick.function == function_setting(s, "LSTICK"@, StickFunction::Cursor)
        &&& Some(self.lstick.sensitivity) == u64_setting(s, "LSTICK_SENSITIVITY"@, 0)
        &&& Some(self.lstick.deadzone) == i32_setting(s, "LSTICK_DEADZONE"@, 5)
        &&& self.lstick.activation_modifiers@ == canonical(
            modifiers_setting(s, "LSTICK_ACTIVATION_MODIFIERS"@),
        )
        &&& self.rstick.function == function_setting(s, "RSTICK"@, StickFunction::Scroll)
        &&& Some(self.rstick.sensitivity) == u64_setting(s, "RSTICK_SENSITIVITY"@, 0)
        &&& Some(self.rstick.deadzone) == i32_setting(s, "RSTICK_DEADZONE"@, 5)
        &&& self.rstick.activation_modifiers@ == canonical(
            modifiers_setting(s, "RSTICK_ACTIVATION_MODIFIERS"@),
        )
        &&& Some(self.axis_16_bit) == bool_setting(s, "16_BIT_AXIS"@, false)
        &&& Some(self.stadia) == bool_setting(s, "STADIA"@, false)
        &&& Some(self.chain_only) == bool_setting(s, "CHAIN_ONLY"@, true)
        &&& Some(self.invert_cursor_axis) == bool_setting(s, "INVERT_CURSOR_AXIS"@, false)
        &&& Some(self.invert_scroll_axis) == bool_setting(s, "INVERT_SCROLL_AXIS"@, false)
        &&& Some(self.cursor.speed) == i32_setting(s, "CURSOR_SPEED"@, 0)
        &&& Some(self.scroll.speed) == i32_setting(s, "SCROLL_SPEED"@, 0)
        &&& Some(self.layout_switcher) == key_setting(s, "LAYOUT_SWITCHER"@, BTN_0)
        &&& Some(self.notify_layout_switch) == bool_setting(s, "NOTIFY_LAYOUT_SWITCH"@, false)
    }

    /// Reads the settings of a device. The first value that cannot be read is the
    /// error.
    pub fn parse(s: &Vec<(String, String)>) -> (r: Result<Settings, SettingsError>)
        ensures
            match r {
                Ok(settings) => first_error(s@) is None && settings.reads(s@),
                Err(error) => first_error(s@) == Some(error),
            },
    {
        let lstick_function = read_function(s, "LSTICK", StickFunction::Cursor);
        let lstick_sensitivity = match read_u64(s, "LSTICK_SENSITIVITY", 0) {
            Some(v) => v,
            None => { return Err(SettingsError::LstickSensitivity); },
        };
        let lstick_deadzone = match read_i32(s, "LSTICK_DEADZONE", 5) {
            Some(v) => v,
            None => { return Err(SettingsError::LstickDeadzone); },
        };
        let lstick_activation = Chord::from_events(
            &parse_modifiers(s, "LSTICK_ACTIVATION_MODIFIERS"),
        ).snapshot();
        let rstick_function = read_function(s, "RSTICK", StickFunction::Scroll);
        let rstick_sensitivity = match read_u64(s, "RSTICK_SENSITIVITY", 0) {
            Some(v) => v,
            None => { return Err(SettingsError::RstickSensitivity); },
        };
        let rstick_deadzone = match read_i32(s, "RSTICK_DEADZONE", 5) {
            Some(v) => v,
            None => { return Err(SettingsError::RstickDeadzone); },
        };
        let rstick_activation = Chord::from_events(
            &parse_modifiers(s, "RSTICK_ACTIVATION_MODIFIERS"),
        ).snapshot();
        let axis_16_bit = match read_bool(s, "16_BIT_AXIS", false) {
            Some(v) => v,
            None => { return Err(SettingsError::Axis16Bit); },
        };
        let stadia = match read_bool(s, "STADIA", false) {
            Some(v) => v,
            None => { return Err(SettingsError::Stadia); },
        };
        let chain_only = match read_bool(s, "CHAIN_ONLY", true) {
            Some(v) => v,
            None => { return Err(SettingsError::ChainOnly); },
        };
        let invert_cursor_axis = match read_bool(s, "INVERT_CURSOR_AXIS", false) {
            Some(v) => v,
            None => { return Err(SettingsError::InvertCursorAxis); },
        };
        let invert_scroll_axis = match read_bool(s, "INVERT_SCROLL_AXIS", false) {
            Some(v) => v,
            None => { return Err(SettingsError::InvertScrollAxis); },
        };
        let cursor_speed = match read_i32(s, "CURSOR_SPEED", 0) {
            Some(v) => v,
            None => { return Err(SettingsError::CursorSpeed); },
        };
        let scroll_speed = match read_i32(s, "SCROLL_SPEED", 0) {
            Some(v) => v,
            None => { return Err(SettingsError::ScrollSpeed); },
        };
        let layout_switcher = match read_key(s, "LAYOUT_SWITCHER", BTN_0) {
            Some(v) => v,
            None => { return Err(SettingsError::LayoutSwitcher); },
        };
        let notify_layout_switch = match read_bool(s, "NOTIFY_LAYOUT_SWITCH", false) {
            Some(v) => v,
            None => { return Err(SettingsError::NotifyLayoutSwitch); },
        };
        Ok(
            Settings {
                lstick: Stick {
                    function: lstick_function,
                    sensitivity: lstick_sensitivity,
                    deadzone: lstick_deadzone,
                    activation_modifiers: lstick_activation,
                },
                rstick: Stick {
                    function: rstick_function,
                    sensitivity: rstick_sensitivity,
                    deadzone: rstick_deadzone,
                    activation_modifiers: rstick_activation,
                },
                invert_cursor_axis,
                invert_scroll_axis,
                axis_16_bit,
                stadia,
                cursor: Movement { speed: cursor_speed },
                scroll: Movement { speed: scroll_speed },
                chain_only,
                layout_switcher,
                notify_layout_switch,
            },
        )
    }
}

/// Reads what a stick is used for.
pub fn read_function(s: &Vec<(String, String)>, name: &str, otherwise: StickFunction) -> (r:
    StickFunction)
    ensures
        r == function_setting(s@, name@, otherwise),
{
    match get_setting(s, name) {
        Some(word) => {
            if chars_are(&word, "cursor") {
                StickFunction::Cursor
            } else if chars_are(&word, "scroll") {
                StickFunction::Scroll
            } else if chars_are(&word, "bind") {
                StickFunction::Bind
            } else {
                StickFunction::Disabled
            }
        },
        None => otherwise,
    }
}

/// Reads a setting that is a `u64`.
pub fn read_u64(s: &Vec<(String, String)>, name: &str, otherwise: u64) -> (r: Option<u64>)
    ensures
        r == u64_setting(s@, name@, otherwise),
{
    match get_setting(s, name) {
        Some(text) => parse_u64(&text),
        None => Some(otherwise),
    }
}

/// Reads a setting that is an `i32`.
pub fn read_i32(s: &Vec<(String, String)>, name: &str, otherwise: i32) -> (r: Option<i32>)
    ensures
        r == i32_setting(s@, name@, otherwise),
{
    match get_setting(s, name) {
        Some(text) => parse_i32(&text),
        None => Some(otherwise),
    }
}

/// Reads a setting that is a switch.
pub fn read_bool(s: &Vec<(String, String)>, name: &str, otherwise: bool) -> (r: Option<bool>)
    ensures
        r == bool_setting(s@, name@, otherwise),
{
    match get_setting(s, name) {
        Some(text) => parse_bool(&text),
        None => Some(otherwise),
    }
}

/// Reads a setting that names a key.
pub fn read_key(s: &Vec<(String, String)>, name: &str, otherwise: u16) -> (r: Option<u16>)
    ensures
        r == key_setting(s@, name@, otherwise),
{
    match get_setting(s, name) {
        Some(text) => key_from_name(&text),
        None => Some(otherwise),
    }
}

} // verus!
