//! What the engine works out when it starts: where its contexts are, what they
//! are called, and which scripts the script service is to load.
use vstd::prelude::*;
use crate::config::Config;
use crate::ruby_runtime::RubyService;
use crate::magnus_ruby_runtime::RubyCommand;
use crate::text::{
    chars_of, find_first, is_first_occurrence, matches_at, occurs_at, push_str, slice_of,
    string_of,
};

verus! {

/// The home of the user whose contexts are used: the home that the environment
/// names; but for root, where `sudo` was called, the home of the user who called
/// it; and the home of root where the environment names none.
pub open spec fn user_home(home: Option<Seq<char>>, sudo_user: Option<Seq<char>>) -> Seq<char> {
    match home {
        Some(dir) => if dir == "/root"@ {
            match sudo_user {
                Some(user) => "/home/"@ + user,
                None => dir,
            }
        } else {
            dir
        },
        None => "/root"@,
    }
}

/// The directory of the contexts: `makita_config` where it is set, else
/// `.config/makita` in the home of the user.
pub open spec fn config_directory_text(
    makita_config: Option<Seq<char>>,
    home: Option<Seq<char>>,
    sudo_user: Option<Seq<char>>,
) -> Seq<char> {
    match makita_config {
        Some(dir) => dir,
        None => user_home(home, sudo_user) + "/.config/makita"@,
    }
}

/// The text of a string slice that may be missing.
pub open spec fn text_of(s: Option<&str>) -> Option<Seq<char>> {
    match s {
        Some(text) => Some(text@),
        None => None,
    }
}

/// Works out the directory of the contexts from the environment.
pub fn config_directory(makita_config: Option<&str>, home: Option<&str>, sudo_user: Option<&str>)
    -> (directory: String)
    ensures
        directory@ == config_directory_text(
            text_of(makita_config),
            text_of(home),
            text_of(sudo_user),
        ),
{
    let mut line: Vec<char> = Vec::new();
    match makita_config {
        Some(dir) => {
            push_str(&mut line, dir);
        },
        None => {
            match home {
                Some(dir) => {
                    if crate::text::str_eq(dir, "/root") {
                        match sudo_user {
                            Some(user) => {
                                push_str(&mut line, "/home/");
                                push_str(&mut line, user);
                            },
                            None => {
                                push_str(&mut line, dir);
                            },
                        }
                    } else {
                        push_str(&mut line, dir);
                    }
                },
                None => {
                    push_str(&mut line, "/root");
                },
            }
            push_str(&mut line, "/.config/makita");
        },
    }
    string_of(&line)
}

/// The name of the context in the file `filename`, where the file holds a
/// context: it does where its name ends in `.toml` and does not begin with a dot,
/// and the name of the context is what stands before the first `.toml`.
pub open spec fn context_name(filename: Seq<char>, name: Option<Seq<char>>) -> bool {
    let ending = ".toml"@;
    if occurs_at(filename, ending, filename.len() - ending.len()) && filename[0] != '.' {
        name matches Some(text) && exists|at: int|
            is_first_occurrence(filename, ending, at) && text == filename.subrange(0, at)
    } else {
        name is None
    }
}

/// Reads the name of a context off the name of its file.
pub fn config_name(filename: &str) -> (name: Option<String>)
    ensures
        context_name(
            filename@,
            match name {
                Some(text) => Some(text@),
                None => None,
            },
        ),
{
    let file: Vec<char> = chars_of(filename);
    let ending: Vec<char> = chars_of(".toml");
    proof {
        reveal_strlit(".toml");
    }
    if file.len() < ending.len() {
        return None;
    }
    if !matches_at(&file, &ending, file.len() - ending.len()) || file[0] == '.' {
        return None;
    }
    match find_first(&file, &ending) {
        Some(at) => Some(string_of(&slice_of(&file, 0, at))),
        None => None,
    }
}

/// The file of the script `name` in the directory `directory`.
pub fn script_path(directory: &str, name: &str) -> (path: String)
    ensures
        path@ == directory@ + "/"@ + name@ + ".rb"@,
{
    let mut line: Vec<char> = Vec::new();
    push_str(&mut line, directory);
    push_str(&mut line, "/");
    push_str(&mut line, name);
    push_str(&mut line, ".rb");
    string_of(&line)
}

/// The directory of the scripts where the environment names none: `scripts` in
/// the directory of the contexts.
pub fn scripts_directory(config_directory: &str) -> (directory: String)
    ensures
        directory@ == config_directory@ + "/scripts"@,
{
    let mut line: Vec<char> = Vec::new();
    push_str(&mut line, config_directory);
    push_str(&mut line, "/scripts");
    string_of(&line)
}

/// The names of the scripts of a table of script rules, rule after rule.
pub open spec fn rule_scripts(rules: Seq<crate::config::Binding<String>>) -> Seq<Seq<char>> {
    Seq::new(rules.len(), |j: int| rules[j].output@)
}

/// The names of the scripts of all contexts: one for every script rule, context
/// after context and rule after rule.
pub open spec fn script_names(configs: Seq<Config>) -> Seq<Seq<char>>
    decreases configs.len(),
{
    if configs.len() == 0 {
        Seq::empty()
    } else {
        script_names(configs.drop_last()) + rule_scripts(configs.last().bindings.rubies@)
    }
}

/// The names in a list of scripts, each of which is a name and a file.
pub open spec fn listed_names(rubies: Seq<(String, String)>) -> Seq<Seq<char>> {
    Seq::new(rubies.len(), |k: int| rubies[k].0@)
}

/// The scripts of all contexts, each with its file in `directory`.
pub fn script_list(configs: &Vec<Config>, directory: &str) -> (rubies: Vec<(String, String)>)
    ensures
        listed_names(rubies@) == script_names(configs@),
        forall|k: int|
            0 <= k < rubies@.len() ==> (#[trigger] rubies@[k]).1@ == directory@ + "/"@
                + rubies@[k].0@ + ".rb"@,
{
    let mut rubies: Vec<(String, String)> = Vec::new();
    let mut i: usize = 0;
    assert(listed_names(rubies@) =~= script_names(configs@.take(0)));
    while i < configs.len()
        invariant
            i <= configs@.len(),
            listed_names(rubies@) == script_names(configs@.take(i as int)),
            forall|k: int|
                0 <= k < rubies@.len() ==> (#[trigger] rubies@[k]).1@ == directory@ + "/"@
                    + rubies@[k].0@ + ".rb"@,
        decreases configs@.len() - i,
    {
        let ghost before = listed_names(rubies@);
        let ghost rules = rule_scripts(configs@[i as int].bindings.rubies@);
        assert(configs@.take(i as int + 1).drop_last() =~= configs@.take(i as int));
        let mut j: usize = 0;
        assert(listed_names(rubies@) =~= before + rules.take(0));
        while j < configs[i].bindings.rubies.len()
            invariant
                i < configs@.len(),
                j <= configs@[i as int].bindings.rubies@.len(),
                rules == rule_scripts(configs@[i as int].bindings.rubies@),
                listed_names(rubies@) == before + rules.take(j as int),
                forall|k: int|
                    0 <= k < rubies@.len() ==> (#[trigger] rubies@[k]).1@ == directory@ + "/"@
                        + rubies@[k].0@ + ".rb"@,
            decreases configs@[i as int].bindings.rubies@.len() - j,
        {
            let name: String = configs[i].bindings.rubies[j].output.clone();
            let path: String = script_path(directory, name.as_str());
            let ghost listed = listed_names(rubies@);
            rubies.push((name, path));
            j += 1;
            assert(listed_names(rubies@) =~= listed.push(name@));
            assert(listed_names(rubies@) =~= before + rules.take(j as int));
        }
        assert(rules.take(j as int) =~= rules);
        i += 1;
    }
    assert(configs@.take(i as int) =~= configs@);
    rubies
}

/// Whether `command` tells the interpreter to load the script of `entry`, which
/// is its name and its file.
pub open spec fn loads(command: RubyCommand, entry: (String, String)) -> bool {
    match command {
        RubyCommand::LoadScript { name, path } => name@ == entry.0@ && path@ == entry.1@,
        _ => false,
    }
}

/// The script service of a session with the scripts `rubies`, each a name and a
/// file: none where there are no scripts; else a service that is told to load
/// every script, in order, and then to start its event loop.
pub fn start_ruby_service(rubies: Vec<(String, String)>) -> (service: Option<RubyService>)
    ensures
        match service {
            None => rubies@.len() == 0,
            Some(s) => {
                &&& rubies@.len() > 0
                &&& s.events().len() == 0
                &&& s.synthetic().len() == 0
                &&& s.signals().len() == 0
                &&& s.commands().len() == rubies@.len() + 1
                &&& s.commands().last() is StartEventLoop
                &&& forall|i: int|
                    0 <= i < rubies@.len() ==> loads(#[trigger] s.commands()[i], rubies@[i])
            },
        },
{
    if rubies.len() == 0 {
        return None;
    }
    let mut service: RubyService = match RubyService::new() {
        Ok(service) => service,
        Err(_) => { return None; },
    };
    let mut i: usize = 0;
    while i < rubies.len()
        invariant
            i <= rubies@.len(),
            service.events().len() == 0,
            service.synthetic().len() == 0,
            service.signals().len() == 0,
            service.commands().len() == i,
            forall|k: int| 0 <= k < i ==> loads(#[trigger] service.commands()[k], rubies@[k]),
        decreases rubies@.len() - i,
    {
        service.load_script(rubies[i].0.clone(), rubies[i].1.clone());
        i += 1;
    }
    service.start_event_loop();
    Some(service)
}

} // verus!
