//! The class of the window that has the focus, made out of what the display
//! server answers.
use vstd::prelude::*;
use crate::config::Config;
use crate::text::{chars_of, remove_char, string_of, without_char};
use crate::udev_monitor::Client;

verus! {

/// Whether some context is made for the window class `window`.
pub open spec fn is_known(config: Seq<Config>, window: Option<Seq<char>>) -> bool {
    exists|i: int| 0 <= i < config.len() && (#[trigger] config[i]).associations.client@ == window
}

/// The window class to go by: `active_window` where some context is made for it,
/// else the default.
pub fn match_window(config: &Vec<Config>, active_window: Client) -> (window: Client)
    ensures
        window@ == if is_known(config@, active_window@) {
            active_window@
        } else {
            None
        },
{
    let mut i: usize = 0;
    while i < config.len()
        invariant
            i <= config@.len(),
            forall|j: int|
                0 <= j < i ==> (#[trigger] config@[j]).associations.client@ != active_window@,
        decreases config@.len() - i,
    {
        if config[i].associations.client.same(&active_window) {
            return active_window;
        }
        i += 1;
    }
    Client::Default
}

/// The place of the first zero byte in `value`.
pub open spec fn first_zero(value: Seq<u8>) -> Option<int>
    decreases value.len(),
{
    if value.len() == 0 {
        None
    } else {
        match first_zero(value.drop_last()) {
            Some(i) => Some(i),
            None => if value.last() == 0 {
                Some(value.len() - 1)
            } else {
                None
            },
        }
    }
}

/// The class name in the value of a `WM_CLASS` property, which holds the name of
/// the instance, a zero byte, and the name of the class: what follows the first
/// zero byte, without one zero byte at its end. `None` where no zero byte occurs.
pub open spec fn class_bytes(value: Seq<u8>) -> Option<Seq<u8>> {
    match first_zero(value) {
        Some(i) => {
            let class = value.subrange(i + 1, value.len() as int);
            if class.len() > 0 && class.last() == 0 {
                Some(class.drop_last())
            } else {
                Some(class)
            }
        },
        None => None,
    }
}

/// Reads the class name out of the value of a `WM_CLASS` property.
pub fn wm_class(value: &Vec<u8>) -> (class: Option<Vec<u8>>)
    ensures
        match class {
            Some(bytes) => class_bytes(value@) == Some(bytes@),
            None => class_bytes(value@) is None,
        },
{
    let mut middle: usize = 0;
    while middle < value.len()
        invariant
            middle <= value@.len(),
            first_zero(value@.take(middle as int)) is None,
        decreases value@.len() - middle,
    {
        assert(value@.take(middle as int + 1).drop_last() =~= value@.take(middle as int));
        if value[middle] == 0 {
            proof {
                lemma_first_zero_prefix(value@, middle as int + 1);
            }
            let mut end: usize = value.len();
            if end > middle + 1 && value[end - 1] == 0 {
                end -= 1;
            }
            let mut class: Vec<u8> = Vec::new();
            let mut i: usize = middle + 1;
            while i < end
                invariant
                    middle + 1 <= i <= end <= value@.len(),
                    class@ == value@.subrange(middle + 1, i as int),
                decreases end - i,
            {
                class.push(value[i]);
                i += 1;
                assert(class@ =~= value@.subrange(middle + 1, i as int));
            }
            proof {
                let whole = value@.subrange(middle + 1, value@.len() as int);
                if end < value@.len() {
                    assert(whole.drop_last() =~= value@.subrange(middle + 1, value@.len() - 1));
                }
            }
            return Some(class);
        }
        middle += 1;
    }
    assert(value@.take(middle as int) =~= value@);
    None
}

/// A zero byte that is found among the first bytes is the one found among all.
pub proof fn lemma_first_zero_prefix(value: Seq<u8>, k: int)
    requires
        0 <= k <= value.len(),
        first_zero(value.take(k)) is Some,
    ensures
        first_zero(value) == first_zero(value.take(k)),
    decreases value.len() - k,
{
    if k < value.len() {
        assert(value.take(k + 1).drop_last() =~= value.take(k));
        lemma_first_zero_prefix(value, k + 1);
    } else {
        assert(value.take(k) =~= value);
    }
}

/// The window class that Sway reports for the focused window: its application id
/// where it has one, else the class of its window properties, else the default.
pub fn sway_window(app_id: Option<String>, class: Option<String>) -> (window: Client)
    ensures
        window@ == match app_id {
            Some(id) => Some(id@),
            None => match class {
                Some(name) => Some(name@),
                None => None,
            },
        },
{
    match app_id {
        Some(id) => Client::Class(id),
        None => match class {
            Some(name) => Client::Class(name),
            None => Client::Default,
        },
    }
}

/// What `serde_json` makes of the member `member` of the JSON text `reply`,
/// written out as JSON again; `None` where `reply` is no JSON text.
pub uninterp spec fn json_member(reply: Seq<char>, member: Seq<char>) -> Option<Seq<char>>;

/// Parses `reply` with `serde_json::from_str` into a `serde_json::Value`, takes
/// its member `member` by indexing, which gives null for what is no object or
/// has no such member, and writes the member out with `to_string`. The result
/// depends on the two texts only.
#[verifier::external_body]
pub(crate) fn json_member_text(reply: &str, member: &str) -> (text: Option<String>)
    ensures
        match text {
            Some(t) => json_member(reply@, member@) == Some(t@),
            None => json_member(reply@, member@) is None,
        },
{
    match serde_json::from_str::<serde_json::Value>(reply) {
        Ok(value) => Some(value[member].to_string()),
        Err(_) => None,
    }
}

/// The window class in a member of a JSON reply, given as it is written out:
/// the text without its quotation marks, where some context is made for that
/// class; else the default. No reply, no class.
pub fn window_of_member(config: &Vec<Config>, member: Option<String>) -> (window: Client)
    ensures
        window@ == match member {
            Some(text) => if is_known(config@, Some(without_char(text@, '"'))) {
                Some(without_char(text@, '"'))
            } else {
                None
            },
            None => None,
        },
{
    match member {
        Some(text) => {
            let name: Vec<char> = remove_char(&chars_of(text.as_str()), '"');
            match_window(config, Client::Class(string_of(&name)))
        },
        None => Client::Default,
    }
}

/// The window class that a compositor reports in the member `member` of its JSON
/// reply `reply`.
pub fn window_from_reply(config: &Vec<Config>, reply: &str, member: &str) -> (window: Client)
    ensures
        window@ == match json_member(reply@, member@) {
            Some(text) => if is_known(config@, Some(without_char(text, '"'))) {
                Some(without_char(text, '"'))
            } else {
                None
            },
            None => None,
        },
{
    window_of_member(config, json_member_text(reply, member))
}

/// `text` without the white space at its two ends, as `str::trim` gives it.
pub uninterp spec fn trimmed(text: Seq<char>) -> Seq<char>;

/// Trims `text` with `str::trim`, which takes the white space off both ends. The
/// result depends on the text only.
#[verifier::external_body]
pub(crate) fn trim_text(text: &str) -> (r: String)
    ensures
        r@ == trimmed(text@),
{
    text.trim().to_string()
}

/// The window class that `kdotool` prints: its output without the white space
/// around it, where some context is made for that class; else the default.
pub fn window_from_kdotool(config: &Vec<Config>, output: &str) -> (window: Client)
    ensures
        window@ == if is_known(config@, Some(trimmed(output@))) {
            Some(trimmed(output@))
        } else {
            None
        },
{
    match_window(config, Client::Class(trim_text(output)))
}

} // verus!
