//! The binding model: events, chords as binding keys, the three binding tables
//! of a context, and how a context is built from its declarative rules.
use vstd::prelude::*;
use crate::chord::{canonical, events_contain, events_eq, Chord};
use crate::codes::{
    KEY_LEFTALT, KEY_LEFTCTRL, KEY_LEFTMETA, KEY_LEFTSHIFT, KEY_RIGHTALT, KEY_RIGHTCTRL,
    KEY_RIGHTSHIFT,
};
use crate::text::{chars_are, chars_of, last_index_of, rfind, slice_of, split, split_on, texts};
use crate::udev_monitor::Client;

verus! {

/// A directional or analog input that is no plain key.
#[allow(non_camel_case_types)]
#[derive(Debug, PartialEq, Eq, Structural, PartialOrd, Ord, Hash, Clone, Copy)]
pub enum Axis {
    BTN_DPAD_UP,
    BTN_DPAD_DOWN,
    BTN_DPAD_LEFT,
    BTN_DPAD_RIGHT,
    LSTICK_UP,
    LSTICK_DOWN,
    LSTICK_LEFT,
    LSTICK_RIGHT,
    RSTICK_UP,
    RSTICK_DOWN,
    RSTICK_LEFT,
    RSTICK_RIGHT,
    SCROLL_WHEEL_UP,
    SCROLL_WHEEL_DOWN,
    BTN_TL2,
    BTN_TR2,
    ABS_WHEEL_CW,
    ABS_WHEEL_CCW,
}

/// The axis that a name stands for.
pub open spec fn axis_by_name(name: Seq<char>) -> Option<Axis> {
    if name == "BTN_DPAD_UP"@ {
        Some(Axis::BTN_DPAD_UP)
    } else if name == "BTN_DPAD_DOWN"@ {
        Some(Axis::BTN_DPAD_DOWN)
    } else if name == "BTN_DPAD_LEFT"@ {
        Some(Axis::BTN_DPAD_LEFT)
    } else if name == "BTN_DPAD_RIGHT"@ {
        Some(Axis::BTN_DPAD_RIGHT)
    } else if name == "LSTICK_UP"@ {
        Some(Axis::LSTICK_UP)
    } else if name == "LSTICK_DOWN"@ {
        Some(Axis::LSTICK_DOWN)
    } else if name == "LSTICK_LEFT"@ {
        Some(Axis::LSTICK_LEFT)
    } else if name == "LSTICK_RIGHT"@ {
        Some(Axis::LSTICK_RIGHT)
    } else if name == "RSTICK_UP"@ {
        Some(Axis::RSTICK_UP)
    } else if name == "RSTICK_DOWN"@ {
        Some(Axis::RSTICK_DOWN)
    } else if name == "RSTICK_LEFT"@ {
        Some(Axis::RSTICK_LEFT)
    } else if name == "RSTICK_RIGHT"@ {
        Some(Axis::RSTICK_RIGHT)
    } else if name == "SCROLL_WHEEL_UP"@ {
        Some(Axis::SCROLL_WHEEL_UP)
    } else if name == "SCROLL_WHEEL_DOWN"@ {
        Some(Axis::SCROLL_WHEEL_DOWN)
    } else if name == "BTN_TL2"@ {
        Some(Axis::BTN_TL2)
    } else if name == "BTN_TR2"@ {
        Some(Axis::BTN_TR2)
    } else if name == "ABS_WHEEL_CW"@ {
        Some(Axis::ABS_WHEEL_CW)
    } else if name == "ABS_WHEEL_CCW"@ {
        Some(Axis::ABS_WHEEL_CCW)
    } else {
        None
    }
}

impl Axis {
    /// The place of the axis in the order of its declaration, from 0.
    pub open spec fn index(self) -> nat {
        match self {
            Axis::BTN_DPAD_UP => 0,
            Axis::BTN_DPAD_DOWN => 1,
            Axis::BTN_DPAD_LEFT => 2,
            Axis::BTN_DPAD_RIGHT => 3,
            Axis::LSTICK_UP => 4,
            Axis::LSTICK_DOWN => 5,
            Axis::LSTICK_LEFT => 6,
            Axis::LSTICK_RIGHT => 7,
            Axis::RSTICK_UP => 8,
            Axis::RSTICK_DOWN => 9,
            Axis::RSTICK_LEFT => 10,
            Axis::RSTICK_RIGHT => 11,
            Axis::SCROLL_WHEEL_UP => 12,
            Axis::SCROLL_WHEEL_DOWN => 13,
            Axis::BTN_TL2 => 14,
            Axis::BTN_TR2 => 15,
            Axis::ABS_WHEEL_CW => 16,
            Axis::ABS_WHEEL_CCW => 17,
        }
    }

    /// The place of the axis in the order of its declaration, from 0.
    pub fn ordinal(self) -> (r: u32)
        ensures
            r == self.index(),
    {
        match self {
            Axis::BTN_DPAD_UP => 0,
            Axis::BTN_DPAD_DOWN => 1,
            Axis::BTN_DPAD_LEFT => 2,
            Axis::BTN_DPAD_RIGHT => 3,
            Axis::LSTICK_UP => 4,
            Axis::LSTICK_DOWN => 5,
            Axis::LSTICK_LEFT => 6,
            Axis::LSTICK_RIGHT => 7,
            Axis::RSTICK_UP => 8,
            Axis::RSTICK_DOWN => 9,
            Axis::RSTICK_LEFT => 10,
            Axis::RSTICK_RIGHT => 11,
            Axis::SCROLL_WHEEL_UP => 12,
            Axis::SCROLL_WHEEL_DOWN => 13,
            Axis::BTN_TL2 => 14,
            Axis::BTN_TR2 => 15,
            Axis::ABS_WHEEL_CW => 16,
            Axis::ABS_WHEEL_CCW => 17,
        }
    }

    /// The axis that the characters of `name` spell, if any.
    pub fn from_chars(name: &Vec<char>) -> (r: Option<Axis>)
        ensures
            r == axis_by_name(name@),
    {
        if chars_are(name, "BTN_DPAD_UP") {
            Some(Axis::BTN_DPAD_UP)
        } else if chars_are(name, "BTN_DPAD_DOWN") {
            Some(Axis::BTN_DPAD_DOWN)
        } else if chars_are(name, "BTN_DPAD_LEFT") {
            Some(Axis::BTN_DPAD_LEFT)
        } else if chars_are(name, "BTN_DPAD_RIGHT") {
            Some(Axis::BTN_DPAD_RIGHT)
        } else if chars_are(name, "LSTICK_UP") {
            Some(Axis::LSTICK_UP)
        } else if chars_are(name, "LSTICK_DOWN") {
            Some(Axis::LSTICK_DOWN)
        } else if chars_are(name, "LSTICK_LEFT") {
            Some(Axis::LSTICK_LEFT)
        } else if chars_are(name, "LSTICK_RIGHT") {
            Some(Axis::LSTICK_RIGHT)
        } else if chars_are(name, "RSTICK_UP") {
            Some(Axis::RSTICK_UP)
        } else if chars_are(name, "RSTICK_DOWN") {
            Some(Axis::RSTICK_DOWN)
        } else if chars_are(name, "RSTICK_LEFT") {
            Some(Axis::RSTICK_LEFT)
        } else if chars_are(name, "RSTICK_RIGHT") {
            Some(Axis::RSTICK_RIGHT)
        } else if chars_are(name, "SCROLL_WHEEL_UP") {
            Some(Axis::SCROLL_WHEEL_UP)
        } else if chars_are(name, "SCROLL_WHEEL_DOWN") {
            Some(Axis::SCROLL_WHEEL_DOWN)
        } else if chars_are(name, "BTN_TL2") {
            Some(Axis::BTN_TL2)
        } else if chars_are(name, "BTN_TR2") {
            Some(Axis::BTN_TR2)
        } else if chars_are(name, "ABS_WHEEL_CW") {
            Some(Axis::ABS_WHEEL_CW)
        } else if chars_are(name, "ABS_WHEEL_CCW") {
            Some(Axis::ABS_WHEEL_CCW)
        } else {
            None
        }
    }

    /// Reads an axis from its name; an unknown name comes back as the error.
    pub fn from_str(s: &str) -> (r: Result<Axis, String>)
        ensures
            match r {
                Ok(axis) => axis_by_name(s@) == Some(axis),
                Err(name) => axis_by_name(s@) is None && name@ == s@,
            },
    {
        let name: Vec<char> = chars_of(s);
        match Axis::from_chars(&name) {
            Some(axis) => Ok(axis),
            None => Err(s.to_owned()),
        }
    }
}

/// A direction of pointer motion.
#[allow(non_camel_case_types)]
#[derive(Debug, PartialEq, Eq, Structural, PartialOrd, Ord, Hash, Clone, Copy)]
pub enum Cursor {
    CURSOR_UP,
    CURSOR_DOWN,
    CURSOR_LEFT,
    CURSOR_RIGHT,
}

/// A direction of scrolling.
#[allow(non_camel_case_types)]
#[derive(Debug, PartialEq, Eq, Structural, PartialOrd, Ord, Hash, Clone, Copy)]
pub enum Scroll {
    SCROLL_UP,
    SCROLL_DOWN,
    SCROLL_LEFT,
    SCROLL_RIGHT,
}

/// A relative-motion directive: what a movement binding asks for.
#[derive(Debug, PartialEq, Eq, Structural, PartialOrd, Ord, Hash, Clone, Copy)]
pub enum Relative {
    Cursor(Cursor),
    Scroll(Scroll),
}

/// The directive that a name stands for.
pub open spec fn relative_by_name(name: Seq<char>) -> Option<Relative> {
    if name == "CURSOR_UP"@ {
        Some(Relative::Cursor(Cursor::CURSOR_UP))
    } else if name == "CURSOR_DOWN"@ {
        Some(Relative::Cursor(Cursor::CURSOR_DOWN))
    } else if name == "CURSOR_LEFT"@ {
        Some(Relative::Cursor(Cursor::CURSOR_LEFT))
    } else if name == "CURSOR_RIGHT"@ {
        Some(Relative::Cursor(Cursor::CURSOR_RIGHT))
    } else if name == "SCROLL_UP"@ {
        Some(Relative::Scroll(Scroll::SCROLL_UP))
    } else if name == "SCROLL_DOWN"@ {
        Some(Relative::Scroll(Scroll::SCROLL_DOWN))
    } else if name == "SCROLL_LEFT"@ {
        Some(Relative::Scroll(Scroll::SCROLL_LEFT))
    } else if name == "SCROLL_RIGHT"@ {
        Some(Relative::Scroll(Scroll::SCROLL_RIGHT))
    } else {
        None
    }
}

impl Relative {
    /// The directive that the characters of `name` spell, if any.
    pub fn from_chars(name: &Vec<char>) -> (r: Option<Relative>)
        ensures
            r == relative_by_name(name@),
    {
        if chars_are(name, "CURSOR_UP") {
            Some(Relative::Cursor(Cursor::CURSOR_UP))
        } else if chars_are(name, "CURSOR_DOWN") {
            Some(Relative::Cursor(Cursor::CURSOR_DOWN))
        } else if chars_are(name, "CURSOR_LEFT") {
            Some(Relative::Cursor(Cursor::CURSOR_LEFT))
        } else if chars_are(name, "CURSOR_RIGHT") {
            Some(Relative::Cursor(Cursor::CURSOR_RIGHT))
        } else if chars_are(name, "SCROLL_UP") {
            Some(Relative::Scroll(Scroll::SCROLL_UP))
        } else if chars_are(name, "SCROLL_DOWN") {
            Some(Relative::Scroll(Scroll::SCROLL_DOWN))
        } else if chars_are(name, "SCROLL_LEFT") {
            Some(Relative::Scroll(Scroll::SCROLL_LEFT))
        } else if chars_are(name, "SCROLL_RIGHT") {
            Some(Relative::Scroll(Scroll::SCROLL_RIGHT))
        } else {
            None
        }
    }

    /// Reads a directive from its name; an unknown name comes back as the error.
    pub fn from_str(s: &str) -> (r: Result<Relative, String>)
        ensures
            match r {
                Ok(relative) => relative_by_name(s@) == Some(relative),
                Err(name) => relative_by_name(s@) is None && name@ == s@,
            },
    {
        let name: Vec<char> = chars_of(s);
        match Relative::from_chars(&name) {
            Some(relative) => Ok(relative),
            None => Err(s.to_owned()),
        }
    }
}

/// What a binding is keyed by and what a chord is made of: a key, by its code; an
/// axis; or `Hold`, which no hardware produces and which only binding keys hold.
///
/// Events are ordered: every axis before every key, every key before `Hold`, axes
/// by their declaration and keys by their code.
#[derive(Debug, PartialEq, Eq, Structural, PartialOrd, Ord, Hash, Clone, Copy)]
pub enum Event {
    Axis(Axis),
    Key(u16),
    Hold,
}

impl Event {
    /// The place of the event in the order of events: a number that is smaller
    /// exactly where the event comes earlier.
    pub open spec fn rank(self) -> nat {
        match self {
            Event::Axis(axis) => axis.index(),
            Event::Key(code) => 18 + code as nat,
            Event::Hold => 18 + 65536,
        }
    }

    /// The place of the event in the order of events.
    pub fn ordinal(self) -> (r: u32)
        ensures
            r == self.rank(),
    {
        match self {
            Event::Axis(axis) => axis.ordinal(),
            Event::Key(code) => 18 + code as u32,
            Event::Hold => 18 + 65536,
        }
    }
}

/// Two events with the same rank are the same event.
pub proof fn lemma_rank_injective(a: Event, b: Event)
    requires
        a.rank() == b.rank(),
    ensures
        a == b,
{
}

/// One rule of a binding table: while `chord` is held, `trigger` gives `output`.
#[derive(Debug, Clone)]
pub struct Binding<T> {
    pub trigger: Event,
    pub chord: Vec<Event>,
    pub output: T,
}

impl<T> Binding<T> {
    /// Whether the rule is the one for `trigger` under `chord`.
    pub open spec fn is_for(self, trigger: Event, chord: Seq<Event>) -> bool {
        self.trigger == trigger && self.chord@ == chord
    }
}

/// The place of the rule for `trigger` under `chord` in `rules`: that of the first
/// one, should the table hold several.
pub open spec fn find<T>(rules: Seq<Binding<T>>, trigger: Event, chord: Seq<Event>) -> Option<int>
    decreases rules.len(),
{
    if rules.len() == 0 {
        None
    } else {
        match find(rules.drop_last(), trigger, chord) {
            Some(i) => Some(i),
            None => if rules.last().is_for(trigger, chord) {
                Some(rules.len() - 1)
            } else {
                None
            },
        }
    }
}

/// `find` gives the first rule that fits, and none exactly where no rule fits.
pub proof fn lemma_find<T>(rules: Seq<Binding<T>>, trigger: Event, chord: Seq<Event>)
    ensures
        match find(rules, trigger, chord) {
            Some(i) => 0 <= i < rules.len() && rules[i].is_for(trigger, chord) && forall|j: int|
                0 <= j < i ==> !(#[trigger] rules[j]).is_for(trigger, chord),
            None => forall|j: int|
                0 <= j < rules.len() ==> !(#[trigger] rules[j]).is_for(trigger, chord),
        },
    decreases rules.len(),
{
    if rules.len() > 0 {
        let r0 = rules.drop_last();
        lemma_find(r0, trigger, chord);
        assert(forall|j: int| 0 <= j < r0.len() ==> r0[j] == rules[j]);
    }
}

/// Whether `rules` holds a rule for `trigger` under `chord`.
pub open spec fn binds<T>(rules: Seq<Binding<T>>, trigger: Event, chord: Seq<Event>) -> bool {
    find(rules, trigger, chord) is Some
}

/// The table `rules` with `rule` put in: in the place of the rule for the same
/// trigger and chord where there is one, at the end where there is none.
pub open spec fn with_rule<T>(rules: Seq<Binding<T>>, rule: Binding<T>) -> Seq<Binding<T>> {
    match find(rules, rule.trigger, rule.chord@) {
        Some(i) => rules.update(i, rule),
        None => rules.push(rule),
    }
}

/// Looks up the rule for `trigger` under `chord`.
pub fn lookup<T>(rules: &Vec<Binding<T>>, trigger: Event, chord: &Vec<Event>) -> (r: Option<usize>)
    ensures
        match r {
            Some(i) => find(rules@, trigger, chord@) == Some(i as int) && i < rules@.len(),
            None => find(rules@, trigger, chord@) is None,
        },
{
    proof {
        lemma_find(rules@, trigger, chord@);
    }
    let mut i: usize = 0;
    while i < rules.len()
        invariant
            i <= rules@.len(),
            forall|j: int| 0 <= j < i ==> !(#[trigger] rules@[j]).is_for(trigger, chord@),
        decreases rules@.len() - i,
    {
        if rules[i].trigger == trigger && events_eq(&rules[i].chord, chord) {
            proof {
                lemma_find(rules@, trigger, chord@);
            }
            return Some(i);
        }
        i += 1;
    }
    None
}

/// Puts `rule` into the table: a rule for the same trigger and chord is replaced.
pub fn insert_rule<T>(rules: &mut Vec<Binding<T>>, rule: Binding<T>)
    ensures
        final(rules)@ == with_rule(old(rules)@, rule),
{
    match lookup(rules, rule.trigger, &rule.chord) {
        Some(i) => {
            rules.set(i, rule);
        },
        None => {
            rules.push(rule);
        },
    }
}

/// What a rule says, apart from how its parts are stored: the view of a `Binding`.
pub struct Rule<V> {
    pub trigger: Event,
    pub chord: Seq<Event>,
    pub output: V,
}

impl<T: View> View for Binding<T> {
    type V = Rule<T::V>;

    open spec fn view(&self) -> Rule<T::V> {
        Rule { trigger: self.trigger, chord: self.chord@, output: self.output@ }
    }
}

impl View for Relative {
    type V = Relative;

    open spec fn view(&self) -> Relative {
        *self
    }
}

/// What the rules of a table say, in the order of the table.
pub open spec fn rules_view<T: View>(rules: Seq<Binding<T>>) -> Seq<Rule<T::V>> {
    Seq::new(rules.len(), |i: int| rules[i]@)
}

/// The place of the rule for `trigger` under `chord` among `rules`: that of the
/// first one, should there be several.
pub open spec fn find_rule<V>(rules: Seq<Rule<V>>, trigger: Event, chord: Seq<Event>) -> Option<
    int,
>
    decreases rules.len(),
{
    if rules.len() == 0 {
        None
    } else {
        match find_rule(rules.drop_last(), trigger, chord) {
            Some(i) => Some(i),
            None => if rules.last().trigger == trigger && rules.last().chord == chord {
                Some(rules.len() - 1)
            } else {
                None
            },
        }
    }
}

/// The rules with `rule` put in: in the place of the rule for the same trigger and
/// chord where there is one, at the end where there is none.
pub open spec fn placed<V>(rules: Seq<Rule<V>>, rule: Rule<V>) -> Seq<Rule<V>> {
    match find_rule(rules, rule.trigger, rule.chord) {
        Some(i) => rules.update(i, rule),
        None => rules.push(rule),
    }
}

/// A rule is found in a table where it is found among what the table says.
pub proof fn lemma_find_rule<T: View>(rules: Seq<Binding<T>>, trigger: Event, chord: Seq<Event>)
    ensures
        find_rule(rules_view(rules), trigger, chord) == find(rules, trigger, chord),
    decreases rules.len(),
{
    if rules.len() > 0 {
        lemma_find_rule(rules.drop_last(), trigger, chord);
        assert(rules_view(rules).drop_last() =~= rules_view(rules.drop_last()));
    }
}

/// Putting a rule into a table puts what it says in among what the table says.
pub proof fn lemma_with_rule<T: View>(rules: Seq<Binding<T>>, rule: Binding<T>)
    ensures
        rules_view(with_rule(rules, rule)) == placed(rules_view(rules), rule@),
{
    lemma_find_rule(rules, rule.trigger, rule.chord@);
    lemma_find(rules, rule.trigger, rule.chord@);
    assert(rules_view(with_rule(rules, rule)) =~= placed(rules_view(rules), rule@));
}

/// The three binding tables of a context.
#[derive(Debug, Clone)]
pub struct Bindings {
    /// Output keys, several for a macro.
    pub remap: Vec<Binding<Vec<u16>>>,
    /// Relative-motion directives.
    pub movements: Vec<Binding<Relative>>,
    /// Names of scripts that take the event over.
    pub rubies: Vec<Binding<String>>,
}

impl Bindings {
    /// Three empty tables.
    pub fn new() -> (bindings: Bindings)
        ensures
            bindings.remap@.len() == 0,
            bindings.movements@.len() == 0,
            bindings.rubies@.len() == 0,
    {
        Bindings { remap: Vec::new(), movements: Vec::new(), rubies: Vec::new() }
    }
}

impl Default for Bindings {
    fn default() -> (bindings: Bindings)
        ensures
            bindings.remap@.len() == 0,
            bindings.movements@.len() == 0,
            bindings.rubies@.len() == 0,
    {
        Bindings::new()
    }
}

/// The events that count as modifiers in a context.
#[derive(Debug, Clone)]
pub struct MappedModifiers {
    /// The standard hardware modifier keys.
    pub default: Vec<Event>,
    /// The events that the context makes modifiers, by its settings or by using
    /// them in the chord of a rule.
    pub custom: Vec<Event>,
    /// Both together, as a canonical chord.
    pub all: Vec<Event>,
}

impl MappedModifiers {
    /// No modifiers at all.
    pub fn new() -> (modifiers: MappedModifiers)
        ensures
            modifiers.default@.len() == 0,
            modifiers.custom@.len() == 0,
            modifiers.all@.len() == 0,
    {
        MappedModifiers { default: Vec::new(), custom: Vec::new(), all: Vec::new() }
    }
}

impl Default for MappedModifiers {
    fn default() -> (modifiers: MappedModifiers)
        ensures
            modifiers.default@.len() == 0,
            modifiers.custom@.len() == 0,
            modifiers.all@.len() == 0,
    {
        MappedModifiers::new()
    }
}

/// What a context is made for: a window class and a layout.
#[derive(Debug, PartialEq, Eq, Clone)]
pub struct Associations {
    pub client: Client,
    pub layout: u16,
}

impl View for Associations {
    type V = (Option<Seq<char>>, u16);

    open spec fn view(&self) -> (Option<Seq<char>>, u16) {
        (self.client@, self.layout)
    }
}

impl Associations {
    /// Whether two associations name the same window class and layout.
    pub fn same(&self, other: &Associations) -> (r: bool)
        ensures
            r == (self@ == other@),
    {
        self.layout == other.layout && self.client.same(&other.client)
    }

    /// Whether this is the association of the default context: the default window
    /// class, layout 0.
    pub fn is_default(&self) -> (r: bool)
        ensures
            r == (self@ == (None::<Seq<char>>, 0u16)),
    {
        self.layout == 0 && self.client.same(&Client::Default)
    }
}

impl Default for Associations {
    fn default() -> (associations: Associations)
        ensures
            associations@ == (None::<Seq<char>>, 0u16),
    {
        Associations { client: Client::Default, layout: 0 }
    }
}

/// A context: the binding tables and settings that hold while a window of one
/// class has the focus and one layout is chosen.
#[derive(Debug, Clone)]
pub struct Config {
    pub name: String,
    pub associations: Associations,
    pub bindings: Bindings,
    /// The settings as they were written, name and value.
    pub settings: Vec<(String, String)>,
    pub mapped_modifiers: MappedModifiers,
}

impl Config {
    /// A context without rules, settings or modifiers, for the default window class
    /// and layout 0.
    pub fn new_empty(file_name: String) -> (config: Config)
        ensures
            config.name@ == file_name@,
            config.associations@ == (None::<Seq<char>>, 0u16),
            config.bindings.remap@.len() == 0,
            config.bindings.movements@.len() == 0,
            config.bindings.rubies@.len() == 0,
            config.settings@.len() == 0,
            config.mapped_modifiers.default@.len() == 0,
            config.mapped_modifiers.custom@.len() == 0,
            config.mapped_modifiers.all@.len() == 0,
    {
        Config {
            name: file_name,
            associations: Associations { client: Client::Default, layout: 0 },
            bindings: Bindings::new(),
            settings: Vec::new(),
            mapped_modifiers: MappedModifiers::new(),
        }
    }
}

/// The code of the key that goes by `name` in `evdev`'s table of keys, where one
/// does.
pub uninterp spec fn key_code_by_name(name: Seq<char>) -> Option<u16>;

/// Looks a key up by its name with `evdev::Key`'s `from_str`, which searches the
/// crate's table of key names for exactly that name. The result is the code of the
/// key that was found: the same code for the same name, whenever it is asked.
#[verifier::external_body]
pub(crate) fn key_from_name(name: &Vec<char>) -> (code: Option<u16>)
    ensures
        code == key_code_by_name(name@),
{
    let text: String = name.iter().collect();
    match text.parse::<evdev::Key>() {
        Ok(key) => Some(key.code()),
        Err(_) => None,
    }
}

/// The event that a name stands for, given what the table of axes and the table
/// of keys each make of it: the one that is asked first wins.
pub open spec fn event_of(axis: Option<Axis>, key: Option<u16>, key_first: bool) -> Option<Event> {
    if key_first {
        match key {
            Some(code) => Some(Event::Key(code)),
            None => match axis {
                Some(a) => Some(Event::Axis(a)),
                None => None,
            },
        }
    } else {
        match axis {
            Some(a) => Some(Event::Axis(a)),
            None => match key {
                Some(code) => Some(Event::Key(code)),
                None => None,
            },
        }
    }
}

/// The event that `name` stands for; `None` where neither table knows the name.
pub open spec fn named_event(name: Seq<char>, key_first: bool) -> Option<Event> {
    event_of(axis_by_name(name), key_code_by_name(name), key_first)
}

/// The events that the names `tokens` stand for, in their order; a name that
/// neither table knows is left out.
pub open spec fn named_events(tokens: Seq<Seq<char>>, key_first: bool) -> Seq<Event>
    decreases tokens.len(),
{
    if tokens.len() == 0 {
        Seq::empty()
    } else {
        let before = named_events(tokens.drop_last(), key_first);
        match named_event(tokens.last(), key_first) {
            Some(event) => before.push(event),
            None => before,
        }
    }
}

/// Picks the event for a name from what the two tables make of it.
pub fn pick_event(axis: Option<Axis>, key: Option<u16>, key_first: bool) -> (event: Option<Event>)
    ensures
        event == event_of(axis, key, key_first),
{
    if key_first {
        match key {
            Some(code) => Some(Event::Key(code)),
            None => match axis {
                Some(a) => Some(Event::Axis(a)),
                None => None,
            },
        }
    } else {
        match axis {
            Some(a) => Some(Event::Axis(a)),
            None => match key {
                Some(code) => Some(Event::Key(code)),
                None => None,
            },
        }
    }
}

/// Resolves one name against the table of axes and the table of keys.
pub fn resolve_name(name: &Vec<char>, key_first: bool) -> (event: Option<Event>)
    ensures
        event == named_event(name@, key_first),
{
    pick_event(Axis::from_chars(name), key_from_name(name), key_first)
}

/// Resolves a list of names, leaving out those that neither table knows.
pub fn resolve_names(tokens: &Vec<Vec<char>>, key_first: bool) -> (events: Vec<Event>)
    ensures
        events@ == named_events(texts(tokens@), key_first),
{
    let mut events: Vec<Event> = Vec::new();
    let mut i: usize = 0;
    while i < tokens.len()
        invariant
            i <= tokens@.len(),
            events@ == named_events(texts(tokens@).take(i as int), key_first),
        decreases tokens@.len() - i,
    {
        assert(texts(tokens@).take(i as int + 1).drop_last() =~= texts(tokens@).take(i as int));
        assert(texts(tokens@).take(i as int + 1).last() == tokens@[i as int]@);
        match resolve_name(&tokens[i], key_first) {
            Some(event) => {
                events.push(event);
            },
            None => {},
        }
        i += 1;
    }
    assert(texts(tokens@).take(i as int) =~= texts(tokens@));
    events
}

/// The value of the setting `name`: that of the first pair with this name.
pub open spec fn setting(settings: Seq<(String, String)>, name: Seq<char>) -> Option<Seq<char>>
    decreases settings.len(),
{
    if settings.len() == 0 {
        None
    } else {
        match setting(settings.drop_last(), name) {
            Some(value) => Some(value),
            None => if settings.last().0@ == name {
                Some(settings.last().1@)
            } else {
                None
            },
        }
    }
}

/// A setting that is found among the first pairs is the one found among all.
pub proof fn lemma_setting_prefix(settings: Seq<(String, String)>, name: Seq<char>, k: int)
    requires
        0 <= k <= settings.len(),
        setting(settings.take(k), name) is Some,
    ensures
        setting(settings, name) == setting(settings.take(k), name),
    decreases settings.len() - k,
{
    if k < settings.len() {
        assert(settings.take(k + 1).drop_last() =~= settings.take(k));
        lemma_setting_prefix(settings, name, k + 1);
    } else {
        assert(settings.take(k) =~= settings);
    }
}

/// Reads the value of the setting `name`.
pub fn get_setting(settings: &Vec<(String, String)>, name: &str) -> (value: Option<Vec<char>>)
    ensures
        match value {
            Some(text) => setting(settings@, name@) == Some(text@),
            None => setting(settings@, name@) is None,
        },
{
    let mut i: usize = 0;
    while i < settings.len()
        invariant
            i <= settings@.len(),
            setting(settings@.take(i as int), name@) is None,
        decreases settings@.len() - i,
    {
        assert(settings@.take(i as int + 1).drop_last() =~= settings@.take(i as int));
        if crate::text::str_eq(settings[i].0.as_str(), name) {
            proof {
                lemma_setting_prefix(settings@, name@, i as int + 1);
            }
            return Some(chars_of(settings[i].1.as_str()));
        }
        i += 1;
    }
    assert(settings@.take(i as int) =~= settings@);
    None
}

/// The modifiers that the setting `parameter` names: its value is a list of names
/// joined by dashes, each resolved against the keys first and the axes second;
/// names that neither knows are left out. No modifiers where the setting is
/// missing.
pub open spec fn modifiers_setting(settings: Seq<(String, String)>, parameter: Seq<char>) -> Seq<
    Event,
> {
    match setting(settings, parameter) {
        Some(text) => named_events(split(text, '-'), true),
        None => Seq::empty(),
    }
}

/// Reads the modifiers that the setting `parameter` names.
pub fn parse_modifiers(settings: &Vec<(String, String)>, parameter: &str) -> (modifiers: Vec<Event>)
    ensures
        modifiers@ == modifiers_setting(settings@, parameter@),
{
    match get_setting(settings, parameter) {
        Some(text) => {
            let tokens: Vec<Vec<char>> = split_on(&text, '-');
            resolve_names(&tokens, true)
        },
        None => Vec::new(),
    }
}

/// The events of `events` that are not among `known`, in their order.
pub open spec fn not_among(events: Seq<Event>, known: Seq<Event>) -> Seq<Event>
    decreases events.len(),
{
    if events.len() == 0 {
        Seq::empty()
    } else if known.contains(events.last()) {
        not_among(events.drop_last(), known)
    } else {
        not_among(events.drop_last(), known).push(events.last())
    }
}

/// The chord of a rule whose modifier prefix is `mods`: the events that the names
/// of the prefix stand for, axes asked before keys, and also `Hold` where the
/// prefix begins with an empty name; in canonical form.
pub open spec fn rule_chord(mods: Seq<char>) -> Seq<Event> {
    let tokens = split(mods, '-');
    let named = named_events(tokens, false);
    if tokens[0].len() == 0 {
        canonical(named.push(Event::Hold))
    } else {
        canonical(named)
    }
}

/// The modifiers that a rule with the modifier prefix `mods` adds to the custom
/// modifiers: those of its prefix that are no default modifiers.
pub open spec fn rule_customs(mods: Seq<char>, default: Seq<Event>) -> Seq<Event> {
    not_among(named_events(split(mods, '-'), false), default)
}

/// Reads the modifier prefix of a rule: its chord, and the custom modifiers that
/// it brings.
pub fn get_multi_modifiers(mods: &Vec<char>, default: &Vec<Event>) -> (r: (Vec<Event>, Vec<Event>))
    ensures
        r.0@ == rule_chord(mods@),
        r.1@ == rule_customs(mods@, default@),
{
    let tokens: Vec<Vec<char>> = split_on(mods, '-');
    proof {
        crate::text::lemma_split_nonempty(mods@, '-');
        assert(texts(tokens@)[0] == tokens@[0]@);
    }
    let mut modifiers: Vec<Event> = resolve_names(&tokens, false);
    let mut custom_modifiers: Vec<Event> = Vec::new();
    let mut i: usize = 0;
    while i < modifiers.len()
        invariant
            i <= modifiers@.len(),
            custom_modifiers@ == not_among(modifiers@.take(i as int), default@),
        decreases modifiers@.len() - i,
    {
        assert(modifiers@.take(i as int + 1).drop_last() =~= modifiers@.take(i as int));
        if !events_contain(default, modifiers[i]) {
            custom_modifiers.push(modifiers[i]);
        }
        i += 1;
    }
    assert(modifiers@.take(i as int) =~= modifiers@);
    if tokens[0].len() == 0 {
        modifiers.push(Event::Hold);
    }
    let chord: Chord = Chord::from_events(&modifiers);
    (chord.snapshot(), custom_modifiers)
}

/// Makes the rule for the trigger that `event_string` names, if it names one: axes
/// are asked before keys.
pub fn get_bindings<T>(modifiers: Vec<Event>, event_string: &Vec<char>, output: T) -> (r: Option<
    Binding<T>,
>)
    ensures
        match r {
            Some(rule) => named_event(event_string@, false) == Some(rule.trigger) && rule.chord
                == modifiers && rule.output == output,
            None => named_event(event_string@, false) is None,
        },
{
    match resolve_name(event_string, false) {
        Some(trigger) => Some(Binding { trigger, chord: modifiers, output }),
        None => None,
    }
}

/// What the input side of a rule says.
pub struct Input {
    /// The chord under which the rule holds.
    pub chord: Seq<Event>,
    /// The custom modifiers that the rule brings.
    pub customs: Seq<Event>,
    /// The trigger, where its name is known.
    pub trigger: Option<Event>,
}

/// The input side of a rule. The text is split at its last dash into a modifier
/// prefix and the name of the trigger; without a dash it is the name of the
/// trigger, with the empty chord.
pub open spec fn parsed_input(input: Seq<char>, default: Seq<Event>) -> Input {
    match last_index_of(input, '-') {
        Some(i) => Input {
            chord: rule_chord(input.subrange(0, i)),
            customs: rule_customs(input.subrange(0, i), default),
            trigger: named_event(input.subrange(i + 1, input.len() as int), false),
        },
        None => Input {
            chord: Seq::empty(),
            customs: Seq::empty(),
            trigger: named_event(input, false),
        },
    }
}

/// Reads the input side of a rule and makes the rule, if the trigger is known;
/// gives also the custom modifiers that the rule brings, known trigger or not.
pub fn get_bindings_and_modifiers<T>(input: &str, output: T, default: &Vec<Event>) -> (r: (
    Option<Binding<T>>,
    Vec<Event>,
))
    ensures
        r.1@ == parsed_input(input@, default@).customs,
        match r.0 {
            Some(rule) => parsed_input(input@, default@).trigger == Some(rule.trigger)
                && rule.chord@ == parsed_input(input@, default@).chord && rule.output == output,
            None => parsed_input(input@, default@).trigger is None,
        },
{
    let text: Vec<char> = chars_of(input);
    match rfind(&text, '-') {
        Some(i) => {
            proof {
                crate::text::lemma_last_index_of(text@, '-');
            }
            let mods: Vec<char> = slice_of(&text, 0, i);
            let event_string: Vec<char> = slice_of(&text, i + 1, text.len());
            let (modifiers, custom_modifiers) = get_multi_modifiers(&mods, default);
            (get_bindings(modifiers, &event_string, output), custom_modifiers)
        },
        None => (get_bindings(Vec::new(), &text, output), Vec::new()),
    }
}

/// Appends the events of `more` to `events`.
pub fn append_events(events: &mut Vec<Event>, more: &Vec<Event>)
    ensures
        final(events)@ == old(events)@ + more@,
{
    let ghost before = events@;
    let mut i: usize = 0;
    while i < more.len()
        invariant
            i <= more@.len(),
            events@ == before + more@.take(i as int),
        decreases more@.len() - i,
    {
        events.push(more[i]);
        i += 1;
        assert(events@ =~= before + more@.take(i as int));
    }
    assert(more@.take(i as int) =~= more@);
}

/// What one declarative rule makes of a table and of the custom modifiers. The
/// modifiers of its input side join the custom modifiers. The rule itself is put
/// into the table where its trigger is known and its output is valid; else it is
/// dropped.
pub open spec fn added<V>(
    table: Seq<Rule<V>>,
    customs: Seq<Event>,
    input: Seq<char>,
    output: Option<V>,
    default: Seq<Event>,
) -> (Seq<Rule<V>>, Seq<Event>) {
    let parsed = parsed_input(input, default);
    (
        match (parsed.trigger, output) {
            (Some(trigger), Some(o)) => placed(
                table,
                Rule { trigger, chord: parsed.chord, output: o },
            ),
            _ => table,
        },
        customs + parsed.customs,
    )
}

/// What a list of declarative rules, taken in order, makes of a table and of the
/// custom modifiers. Each rule is its input text and its output, `None` for an
/// output that is not valid.
pub open spec fn built<V>(
    rules: Seq<(Seq<char>, Option<V>)>,
    default: Seq<Event>,
    start: (Seq<Rule<V>>, Seq<Event>),
) -> (Seq<Rule<V>>, Seq<Event>)
    decreases rules.len(),
{
    if rules.len() == 0 {
        start
    } else {
        let before = built(rules.drop_last(), default, start);
        added(before.0, before.1, rules.last().0, rules.last().1, default)
    }
}

/// The view of an output that may be missing.
pub open spec fn output_view<T: View>(output: Option<T>) -> Option<T::V> {
    match output {
        Some(o) => Some(o@),
        None => None,
    }
}

/// Takes one declarative rule into a table and into the custom modifiers.
pub fn add_rule<T: View>(
    table: &mut Vec<Binding<T>>,
    customs: &mut Vec<Event>,
    input: &str,
    output: Option<T>,
    default: &Vec<Event>,
)
    ensures
        (rules_view(final(table)@), final(customs)@) == added(
            rules_view(old(table)@),
            old(customs)@,
            input@,
            output_view(output),
            default@,
        ),
{
    match output {
        Some(o) => {
            let (rule, more) = get_bindings_and_modifiers(input, o, default);
            append_events(customs, &more);
            match rule {
                Some(rule) => {
                    proof {
                        lemma_with_rule(table@, rule);
                    }
                    insert_rule(table, rule);
                },
                None => {},
            }
        },
        None => {
            let (_, more) = get_bindings_and_modifiers(input, (), default);
            append_events(customs, &more);
        },
    }
}

/// The rules of a context as they are written: each table as pairs of an input
/// text and an output, and the settings as pairs of name and value.
#[derive(Debug, Clone)]
pub struct RawConfig {
    pub remap: Vec<(String, Vec<u16>)>,
    pub movements: Vec<(String, String)>,
    pub settings: Vec<(String, String)>,
    pub rubies: Vec<(String, String)>,
}

/// The standard hardware modifier keys.
pub open spec fn default_modifiers() -> Seq<Event> {
    seq![
        Event::Key(KEY_LEFTSHIFT),
        Event::Key(KEY_LEFTCTRL),
        Event::Key(KEY_LEFTALT),
        Event::Key(KEY_RIGHTSHIFT),
        Event::Key(KEY_RIGHTCTRL),
        Event::Key(KEY_RIGHTALT),
        Event::Key(KEY_LEFTMETA),
    ]
}

/// The remap rules as `built` takes them: every list of keys is a valid output.
pub open spec fn remap_rules(raw: Seq<(String, Vec<u16>)>) -> Seq<(Seq<char>, Option<Seq<u16>>)> {
    Seq::new(raw.len(), |i: int| (raw[i].0@, Some(raw[i].1@)))
}

/// The script rules as `built` takes them: every name is a valid output.
pub open spec fn script_rules(raw: Seq<(String, String)>) -> Seq<(Seq<char>, Option<Seq<char>>)> {
    Seq::new(raw.len(), |i: int| (raw[i].0@, Some(raw[i].1@)))
}

/// The movement rules as `built` takes them: the output is valid where it names a
/// relative-motion directive.
pub open spec fn movement_rules(raw: Seq<(String, String)>) -> Seq<(Seq<char>, Option<Relative>)> {
    Seq::new(raw.len(), |i: int| (raw[i].0@, relative_by_name(raw[i].1@)))
}

/// What the rules of a context come to.
pub struct Model {
    pub remap: Seq<Rule<Seq<u16>>>,
    pub rubies: Seq<Rule<Seq<char>>>,
    pub movements: Seq<Rule<Relative>>,
    pub default: Seq<Event>,
    pub custom: Seq<Event>,
    pub all: Seq<Event>,
}

/// The binding model of the rules `raw`. The custom modifiers start with those
/// that the settings name, as custom modifiers and as activation modifiers of the
/// two sticks. The remap rules are taken first, then the script rules, then the
/// movement rules; each table starts empty, and the custom modifiers run through
/// all three. All modifiers are the default and the custom ones, as a canonical
/// chord.
pub open spec fn model_of(raw: RawConfig) -> Model {
    let default = default_modifiers();
    let named = modifiers_setting(raw.settings@, "CUSTOM_MODIFIERS"@) + modifiers_setting(
        raw.settings@,
        "LSTICK_ACTIVATION_MODIFIERS"@,
    ) + modifiers_setting(raw.settings@, "RSTICK_ACTIVATION_MODIFIERS"@);
    let remap = built(remap_rules(raw.remap@), default, (Seq::empty(), named));
    let rubies = built(script_rules(raw.rubies@), default, (Seq::empty(), remap.1));
    let movements = built(movement_rules(raw.movements@), default, (Seq::empty(), rubies.1));
    Model {
        remap: remap.0,
        rubies: rubies.0,
        movements: movements.0,
        default,
        custom: movements.1,
        all: canonical(default + movements.1),
    }
}

/// Builds the binding model of a context from its rules, and hands the settings
/// on as they are. A rule that cannot be read is dropped; the others stand.
pub fn parse_raw_config(raw_config: RawConfig) -> (r: (
    Bindings,
    Vec<(String, String)>,
    MappedModifiers,
))
    ensures
        rules_view(r.0.remap@) == model_of(raw_config).remap,
        rules_view(r.0.rubies@) == model_of(raw_config).rubies,
        rules_view(r.0.movements@) == model_of(raw_config).movements,
        r.1 == raw_config.settings,
        r.2.default@ == model_of(raw_config).default,
        r.2.custom@ == model_of(raw_config).custom,
        r.2.all@ == model_of(raw_config).all,
        crate::chord::is_canonical(r.2.all@),
{
    let mut default: Vec<Event> = Vec::new();
    default.push(Event::Key(KEY_LEFTSHIFT));
    default.push(Event::Key(KEY_LEFTCTRL));
    default.push(Event::Key(KEY_LEFTALT));
    default.push(Event::Key(KEY_RIGHTSHIFT));
    default.push(Event::Key(KEY_RIGHTCTRL));
    default.push(Event::Key(KEY_RIGHTALT));
    default.push(Event::Key(KEY_LEFTMETA));
    assert(default@ =~= default_modifiers());
    let mut custom: Vec<Event> = parse_modifiers(&raw_config.settings, "CUSTOM_MODIFIERS");
    let lstick: Vec<Event> = parse_modifiers(&raw_config.settings, "LSTICK_ACTIVATION_MODIFIERS");
    let rstick: Vec<Event> = parse_modifiers(&raw_config.settings, "RSTICK_ACTIVATION_MODIFIERS");
    append_events(&mut custom, &lstick);
    append_events(&mut custom, &rstick);
    let ghost named = custom@;

    let mut remap: Vec<Binding<Vec<u16>>> = Vec::new();
    let mut i: usize = 0;
    assert(rules_view(remap@) =~= Seq::empty());
    while i < raw_config.remap.len()
        invariant
            i <= raw_config.remap@.len(),
            default@ == default_modifiers(),
            (rules_view(remap@), custom@) == built(
                remap_rules(raw_config.remap@).take(i as int),
                default@,
                (Seq::empty(), named),
            ),
        decreases raw_config.remap@.len() - i,
    {
        let ghost rules = remap_rules(raw_config.remap@);
        assert(rules.take(i as int + 1).drop_last() =~= rules.take(i as int));
        let output: Vec<u16> = raw_config.remap[i].1.clone();
        assert(output@ =~= raw_config.remap@[i as int].1@);
        add_rule(&mut remap, &mut custom, raw_config.remap[i].0.as_str(), Some(output), &default);
        i += 1;
    }
    assert(remap_rules(raw_config.remap@).take(i as int) =~= remap_rules(raw_config.remap@));
    let ghost after_remap = custom@;

    let mut rubies: Vec<Binding<String>> = Vec::new();
    let mut i: usize = 0;
    assert(rules_view(rubies@) =~= Seq::empty());
    while i < raw_config.rubies.len()
        invariant
            i <= raw_config.rubies@.len(),
            default@ == default_modifiers(),
            (rules_view(rubies@), custom@) == built(
                script_rules(raw_config.rubies@).take(i as int),
                default@,
                (Seq::empty(), after_remap),
            ),
        decreases raw_config.rubies@.len() - i,
    {
        let ghost rules = script_rules(raw_config.rubies@);
        assert(rules.take(i as int + 1).drop_last() =~= rules.take(i as int));
        let output: String = raw_config.rubies[i].1.clone();
        add_rule(&mut rubies, &mut custom, raw_config.rubies[i].0.as_str(), Some(output), &default);
        i += 1;
    }
    assert(script_rules(raw_config.rubies@).take(i as int) =~= script_rules(raw_config.rubies@));
    let ghost after_rubies = custom@;

    let mut movements: Vec<Binding<Relative>> = Vec::new();
    let mut i: usize = 0;
    assert(rules_view(movements@) =~= Seq::empty());
    while i < raw_config.movements.len()
        invariant
            i <= raw_config.movements@.len(),
            default@ == default_modifiers(),
            (rules_view(movements@), custom@) == built(
                movement_rules(raw_config.movements@).take(i as int),
                default@,
                (Seq::empty(), after_rubies),
            ),
        decreases raw_config.movements@.len() - i,
    {
        let ghost rules = movement_rules(raw_config.movements@);
        assert(rules.take(i as int + 1).drop_last() =~= rules.take(i as int));
        let name: Vec<char> = chars_of(raw_config.movements[i].1.as_str());
        let output: Option<Relative> = Relative::from_chars(&name);
        add_rule(&mut movements, &mut custom, raw_config.movements[i].0.as_str(), output, &default);
        i += 1;
    }
    assert(movement_rules(raw_config.movements@).take(i as int) =~= movement_rules(
        raw_config.movements@,
    ));

    let mut every: Vec<Event> = Vec::new();
    append_events(&mut every, &default);
    append_events(&mut every, &custom);
    assert(every@ =~= default@ + custom@);
    let all: Vec<Event> = Chord::from_events(&every).snapshot();
    (
        Bindings { remap, movements, rubies },
        raw_config.settings,
        MappedModifiers { default, custom, all },
    )
}

impl Config {
    /// The context that the rules `raw_config` describe, under the name
    /// `file_name` and for the default window class and layout 0.
    pub fn from_raw(raw_config: RawConfig, file_name: String) -> (config: Config)
        ensures
            config.name == file_name,
            config.associations@ == (None::<Seq<char>>, 0u16),
            rules_view(config.bindings.remap@) == model_of(raw_config).remap,
            rules_view(config.bindings.rubies@) == model_of(raw_config).rubies,
            rules_view(config.bindings.movements@) == model_of(raw_config).movements,
            config.settings == raw_config.settings,
            config.mapped_modifiers.default@ == model_of(raw_config).default,
            config.mapped_modifiers.custom@ == model_of(raw_config).custom,
            config.mapped_modifiers.all@ == model_of(raw_config).all,
    {
        let (bindings, settings, mapped_modifiers) = parse_raw_config(raw_config);
        Config {
            name: file_name,
            associations: Associations { client: Client::Default, layout: 0 },
            bindings,
            settings,
            mapped_modifiers,
        }
    }
}

} // verus!
