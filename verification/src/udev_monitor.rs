//! What the engine knows of the session that it runs in: the class of the window
//! that has the focus, and the display server that can tell it.
use vstd::prelude::*;
use crate::text::{
    chars_are, chars_eq, chars_of, contains_text, find_text, parse_u16, parse_unsigned_spec,
    push_str, remove_char, split_colons, split_on_colons, string_of, texts, without_char,
};

verus! {

/// The class of a window: that of a given application, or the default, which
/// stands for every window that no context is made for.
#[derive(Debug, Eq, PartialEq, Hash, Clone)]
pub enum Client {
    Default,
    Class(String),
}

impl View for Client {
    type V = Option<Seq<char>>;

    open spec fn view(&self) -> Option<Seq<char>> {
        match self {
            Client::Default => None,
            Client::Class(name) => Some(name@),
        }
    }
}

impl Client {
    /// Whether two window classes are the same class.
    pub fn same(&self, other: &Client) -> (r: bool)
        ensures
            r == (self@ == other@),
    {
        match (self, other) {
            (Client::Default, Client::Default) => true,
            (Client::Class(a), Client::Class(b)) => *a == *b,
            _ => false,
        }
    }

    /// A copy of the window class.
    pub fn duplicate(&self) -> (r: Client)
        ensures
            r@ == self@,
    {
        match self {
            Client::Default => Client::Default,
            Client::Class(name) => Client::Class(name.clone()),
        }
    }
}

impl Default for Client {
    fn default() -> (client: Client)
        ensures
            client@ is None,
    {
        Client::Default
    }
}

/// The display server of the session, as far as window classes can be asked of it.
#[derive(Debug, Clone)]
pub enum Server {
    /// A server that tells the class of the focused window; the name says which.
    Connected(String),
    /// A server that cannot be asked.
    Unsupported,
    /// No server could be made out.
    Failed,
}

/// What a `Server` says.
pub enum ServerView {
    Connected(Seq<char>),
    Unsupported,
    Failed,
}

impl View for Server {
    type V = ServerView;

    open spec fn view(&self) -> ServerView {
        match self {
            Server::Connected(name) => ServerView::Connected(name@),
            Server::Unsupported => ServerView::Unsupported,
            Server::Failed => ServerView::Failed,
        }
    }
}

/// The session that the engine runs in: the user, the user who called `sudo`,
/// and the display server.
#[derive(Debug, Clone)]
pub struct Environment {
    pub user: Option<String>,
    pub sudo_user: Option<String>,
    pub server: Server,
}

/// Whether `desktop` is a compositor whose focused window can be asked for.
pub open spec fn is_supported_compositor(desktop: Seq<char>) -> bool {
    desktop == "Hyprland"@ || desktop == "sway"@ || desktop == "KDE"@ || desktop == "niri"@
}

/// The display server of a session, or `None` where the engine cannot run at
/// all. `session` is the session type, `desktop` the current desktop, each where
/// the environment names one; `wayland_display` says whether a Wayland display is
/// named, which makes up for a missing session type; `kdotool` says whether
/// `kdotool` can be run.
///
/// On Wayland a supported compositor is connected, but KDE only with `kdotool`;
/// any other compositor, or none, is unsupported. X11 is connected, under the
/// name `x11`. Without a session type the engine cannot run. Any other session
/// type fails.
pub open spec fn session_server(
    session: Option<Seq<char>>,
    wayland_display: bool,
    desktop: Option<Seq<char>>,
    kdotool: bool,
) -> Option<ServerView> {
    let session = if session is None && wayland_display {
        Some("wayland"@)
    } else {
        session
    };
    match session {
        None => None,
        Some(kind) => if kind == "wayland"@ {
            match desktop {
                Some(name) => if is_supported_compositor(name) {
                    if name == "KDE"@ && !kdotool {
                        Some(ServerView::Unsupported)
                    } else {
                        Some(ServerView::Connected(name))
                    }
                } else {
                    Some(ServerView::Unsupported)
                },
                None => Some(ServerView::Unsupported),
            }
        } else if kind == "x11"@ {
            Some(ServerView::Connected("x11"@))
        } else {
            Some(ServerView::Failed)
        },
    }
}

/// Makes out the display server of a session.
pub fn classify_session(
    session: Option<&str>,
    wayland_display: bool,
    desktop: Option<&str>,
    kdotool: bool,
) -> (server: Option<Server>)
    ensures
        match server {
            Some(s) => session_server(
                match session {
                    Some(text) => Some(text@),
                    None => None,
                },
                wayland_display,
                match desktop {
                    Some(text) => Some(text@),
                    None => None,
                },
                kdotool,
            ) == Some(s@),
            None => session_server(
                match session {
                    Some(text) => Some(text@),
                    None => None,
                },
                wayland_display,
                match desktop {
                    Some(text) => Some(text@),
                    None => None,
                },
                kdotool,
            ) is None,
        },
{
    let kind: Vec<char> = match session {
        Some(text) => chars_of(text),
        None => {
            if wayland_display {
                chars_of("wayland")
            } else {
                return None;
            }
        },
    };
    if chars_are(&kind, "wayland") {
        match desktop {
            Some(name) => {
                let word: Vec<char> = chars_of(name);
                let kde: bool = chars_are(&word, "KDE");
                if chars_are(&word, "Hyprland") || chars_are(&word, "sway") || kde || chars_are(
                    &word,
                    "niri",
                ) {
                    if kde && !kdotool {
                        Some(Server::Unsupported)
                    } else {
                        Some(Server::Connected(string_of(&word)))
                    }
                } else {
                    Some(Server::Unsupported)
                }
            },
            None => Some(Server::Unsupported),
        }
    } else if chars_are(&kind, "x11") {
        Some(Server::Connected(string_of(&chars_of("x11"))))
    } else {
        Some(Server::Failed)
    }
}

/// The user that commands run as, and whether the engine itself runs as root:
/// the user who called `sudo` where there is one, which means root; else the
/// user of the session; else nobody.
pub open spec fn acting_user(environment: Environment) -> Option<(Seq<char>, bool)> {
    match environment.sudo_user {
        Some(name) => Some((name@, true)),
        None => match environment.user {
            Some(name) => Some((name@, false)),
            None => None,
        },
    }
}

/// How a command is to be run on behalf of the user.
#[derive(Debug, PartialEq, Eq, Clone)]
pub enum Spawn {
    /// With `runuser`, as `user`, detached from the engine.
    RunUser { user: String, command: String },
    /// With `sh -c`, the whole command line being `line`.
    Shell { line: String },
}

/// What a `Spawn` says.
pub enum SpawnView {
    RunUser { user: Seq<char>, command: Seq<char> },
    Shell { line: Seq<char> },
}

impl View for Spawn {
    type V = SpawnView;

    open spec fn view(&self) -> SpawnView {
        match self {
            Spawn::RunUser { user, command } => SpawnView::RunUser {
                user: user@,
                command: command@,
            },
            Spawn::Shell { line } => SpawnView::Shell { line: line@ },
        }
    }
}

/// How `command` is to be run: as root it is handed to `runuser` for the user;
/// else it runs in the user's own systemd instance, with `scope` in a transient
/// scope; and for nobody it does not run.
pub open spec fn spawned(environment: Environment, command: Seq<char>, scope: bool) -> Option<
    SpawnView,
> {
    match acting_user(environment) {
        Some((user, true)) => Some(SpawnView::RunUser { user, command }),
        Some((user, false)) => Some(
            SpawnView::Shell {
                line: if scope {
                    "systemd-run --user --scope -M "@ + user + "@ "@ + command
                } else {
                    "systemd-run --user -M "@ + user + "@ "@ + command
                },
            },
        ),
        None => None,
    }
}

/// The command that tells the user about a switch to `layout`.
pub open spec fn notice_text(layout: u16) -> Seq<char> {
    "notify-send -t 500 'Makita' 'Switching to layout "@ + crate::text::digits_of(layout as nat)
        + "'"@
}

/// The command that asks KDE for the class of the focused window.
pub open spec fn kde_query_text() -> Seq<char> {
    "kdotool getactivewindow getwindowclassname"@
}

impl Environment {
    /// The user that commands run as, and whether the engine itself runs as root.
    pub fn acting_user(&self) -> (r: Option<(&String, bool)>)
        ensures
            match r {
                Some((name, root)) => acting_user(*self) == Some((name@, root)),
                None => acting_user(*self) is None,
            },
    {
        match &self.sudo_user {
            Some(name) => Some((name, true)),
            None => match &self.user {
                Some(name) => Some((name, false)),
                None => None,
            },
        }
    }

    /// Plans how `command` is to be run on behalf of the user.
    pub fn spawn_subprocess(&self, command: &str, scope: bool) -> (r: Option<Spawn>)
        ensures
            match r {
                Some(plan) => spawned(*self, command@, scope) == Some(plan@),
                None => spawned(*self, command@, scope) is None,
            },
    {
        match self.acting_user() {
            Some((user, true)) => Some(
                Spawn::RunUser { user: user.clone(), command: string_of(&chars_of(command)) },
            ),
            Some((user, false)) => {
                let mut line: Vec<char> = Vec::new();
                if scope {
                    push_str(&mut line, "systemd-run --user --scope -M ");
                } else {
                    push_str(&mut line, "systemd-run --user -M ");
                }
                push_str(&mut line, user.as_str());
                push_str(&mut line, "@ ");
                push_str(&mut line, command);
                Some(Spawn::Shell { line: string_of(&line) })
            },
            None => None,
        }
    }
}

/// Writes the command that tells the user about a switch to `layout`.
pub fn layout_notice(layout: u16) -> (command: String)
    ensures
        command@ == notice_text(layout),
{
    let mut line: Vec<char> = Vec::new();
    push_str(&mut line, "notify-send -t 500 'Makita' 'Switching to layout ");
    crate::text::push_decimal(&mut line, layout);
    push_str(&mut line, "'");
    string_of(&line)
}

/// The address of the session bus of the user with the id `uid`; none for root,
/// whose id is 0.
pub open spec fn bus_address_text(uid: Seq<char>) -> Option<Seq<char>> {
    if uid == "0"@ {
        None
    } else {
        Some("unix:path=/run/user/"@ + uid + "/bus"@)
    }
}

/// Writes the address of the session bus of the user with the id `uid`.
pub fn bus_address(uid: &str) -> (address: Option<String>)
    ensures
        match address {
            Some(text) => bus_address_text(uid@) == Some(text@),
            None => bus_address_text(uid@) is None,
        },
{
    let id: Vec<char> = chars_of(uid);
    if chars_are(&id, "0") {
        None
    } else {
        let mut line: Vec<char> = Vec::new();
        push_str(&mut line, "unix:path=/run/user/");
        push_str(&mut line, uid);
        push_str(&mut line, "/bus");
        Some(string_of(&line))
    }
}

/// Whether the groups of the user, as `groups` prints them, give access to event
/// devices: the group `input` does, and so does `root`.
pub open spec fn groups_give_access(groups: Seq<char>) -> bool {
    contains_text(groups, "input"@) || contains_text(groups, "root"@)
}

/// Whether the groups of the user give access to event devices.
pub fn has_device_access(groups: &str) -> (r: bool)
    ensures
        r == groups_give_access(groups@),
{
    let text: Vec<char> = chars_of(groups);
    find_text(&text, &chars_of("input")) || find_text(&text, &chars_of("root"))
}

/// What the name of a context says about its window class and layout. The parts
/// of the name stand between double colons, and the first is the name of the
/// device. One more part is a layout where it is a number, else a window class.
/// Two more parts are a layout and a window class, in either order. Anything
/// else stands for the default window class and layout 0.
pub open spec fn name_association(parts: Seq<Seq<char>>) -> (Option<Seq<char>>, u16) {
    if parts.len() == 2 {
        match parse_unsigned_spec(parts[1], u16::MAX as nat) {
            Some(layout) => (None, layout as u16),
            None => (Some(parts[1]), 0),
        }
    } else if parts.len() == 3 {
        match parse_unsigned_spec(parts[1], u16::MAX as nat) {
            Some(layout) => (Some(parts[2]), layout as u16),
            None => match parse_unsigned_spec(parts[2], u16::MAX as nat) {
                Some(layout) => (Some(parts[1]), layout as u16),
                None => (None, 0),
            },
        }
    } else {
        (None, 0)
    }
}

/// The window class and layout of the context named `config_name`, where it is a
/// context of the device named `device_name`: it is where the first part of its
/// name is the name of the device without its slashes.
pub open spec fn association_of(config_name: Seq<char>, device_name: Seq<char>) -> Option<
    (Option<Seq<char>>, u16),
> {
    let parts = split_colons(config_name);
    if parts[0] == without_char(device_name, '/') {
        Some(name_association(parts))
    } else {
        None
    }
}

/// Reads the window class and layout of a context off its name, where it is a
/// context of the device.
pub fn associations_for(config_name: &str, device_name: &str) -> (r: Option<
    crate::config::Associations,
>)
    ensures
        match r {
            Some(a) => association_of(config_name@, device_name@) == Some(a@),
            None => association_of(config_name@, device_name@) is None,
        },
{
    let parts: Vec<Vec<char>> = split_on_colons(&chars_of(config_name));
    let device: Vec<char> = remove_char(&chars_of(device_name), '/');
    proof {
        assert(texts(parts@).len() == parts@.len());
        crate::text::lemma_split_colons_nonempty(config_name@);
        assert(texts(parts@)[0] == parts@[0]@);
    }
    if !chars_eq(&parts[0], &device) {
        return None;
    }
    proof {
        if parts@.len() > 1 {
            assert(texts(parts@)[1] == parts@[1]@);
        }
        if parts@.len() > 2 {
            assert(texts(parts@)[2] == parts@[2]@);
        }
    }
    let default = crate::config::Associations { client: Client::Default, layout: 0 };
    if parts.len() == 2 {
        match parse_u16(&parts[1]) {
            Some(layout) => Some(crate::config::Associations { client: Client::Default, layout }),
            None => Some(
                crate::config::Associations {
                    client: Client::Class(string_of(&parts[1])),
                    layout: 0,
                },
            ),
        }
    } else if parts.len() == 3 {
        match parse_u16(&parts[1]) {
            Some(layout) => Some(
                crate::config::Associations { client: Client::Class(string_of(&parts[2])), layout },
            ),
            None => match parse_u16(&parts[2]) {
                Some(layout) => Some(
                    crate::config::Associations {
                        client: Client::Class(string_of(&parts[1])),
                        layout,
                    },
                ),
                None => Some(default),
            },
        }
    } else {
        Some(default)
    }
}

/// Whether the context named `config_name` is mapped to the device named
/// `device_name`: it is where the name of the device, without its slashes, occurs
/// in the name of the context.
pub fn is_mapped(config_name: &str, device_name: &str) -> (r: bool)
    ensures
        r == contains_text(config_name@, without_char(device_name@, '/')),
{
    let device: Vec<char> = remove_char(&chars_of(device_name), '/');
    find_text(&chars_of(config_name), &device)
}

/// Whether the device is to be grabbed: it is unless the setting `GRAB_DEVICE` is
/// there and is anything but `true`.
pub fn should_grab(settings: &Vec<(String, String)>) -> (r: bool)
    ensures
        r == match crate::config::setting(settings@, "GRAB_DEVICE"@) {
            Some(value) => value == "true"@,
            None => true,
        },
{
    match crate::config::get_setting(settings, "GRAB_DEVICE") {
        Some(value) => chars_are(&value, "true"),
        None => true,
    }
}

/// Whether the contexts of a device lack the default one: there are contexts, and
/// none of them is made for the default window class and layout 0.
pub fn needs_default(config_list: &Vec<crate::config::Config>) -> (r: bool)
    ensures
        r == (config_list@.len() > 0 && crate::layout::context_index(config_list@, None, 0)
            is None),
{
    config_list.len() > 0 && crate::layout::find_context(config_list, &Client::Default, 0).is_none()
}

} // verus!
