//! The command that launches an application again, built from its record and
//! from what was looked up on the machine.

use vstd::prelude::*;
use vstd::string::*;
use crate::model::opt_text;
use crate::text::{
    eq_ignore_ascii_case, has_prefix, same_ignoring_ascii_case, same_text, starts_with, text_of,
    trim, trimmed,
};
use crate::title::{
    extract_multiplexer_session, extract_project_path, multiplexer_session, project_path,
};

verus! {

/// A workspace that the browser keeps, as its cache file lists it.
#[derive(Debug, PartialEq, Eq)]
pub struct BrowserWorkspace {
    pub name: String,
    pub id: String,
}

/// What was looked up on the machine before a restore.
#[derive(Debug, PartialEq, Eq)]
pub struct Surroundings {
    /// The user's home directory, where it could be resolved.
    pub home: Option<String>,
    /// What the system's host name file holds, where it could be read.
    pub hostname: Option<String>,
    /// The entries of the browser's workspace cache, in the order of the
    /// file; empty where the file is missing or cannot be read.
    pub browser_workspaces: Vec<BrowserWorkspace>,
}

/// The texts of a sequence of strings.
pub open spec fn texts(v: Seq<String>) -> Seq<Seq<char>> {
    v.map_values(|s: String| s@)
}

/// A copy of a sequence of strings.
pub fn clone_words(v: &Vec<String>) -> (r: Vec<String>)
    ensures
        texts(r@) == texts(v@),
{
    let mut words: Vec<String> = Vec::new();
    let mut i: usize = 0;
    while i < v.len()
        invariant
            i <= v@.len(),
            words@.len() == i,
            forall|j: int| 0 <= j < i ==> (#[trigger] words@[j])@ == v@[j]@,
        decreases v@.len() - i,
    {
        words.push(v[i].clone());
        i += 1;
    }
    assert(texts(words@) =~= texts(v@));
    words
}

/// An optional string as an optional slice.
pub fn as_text(o: &Option<String>) -> (r: Option<&str>)
    ensures
        text_of(r) == opt_text(*o),
{
    match o {
        Some(s) => Some(s.as_str()),
        None => None,
    }
}

/// The identifier of the first workspace at or after `i` that is named
/// `name`.
pub open spec fn workspace_id_from(cache: Seq<BrowserWorkspace>, name: Seq<char>, i: int)
    -> Option<Seq<char>>
    decreases cache.len() - i,
{
    if i < 0 || i >= cache.len() {
        None
    } else if cache[i].name@ == name {
        Some(cache[i].id@)
    } else {
        workspace_id_from(cache, name, i + 1)
    }
}

/// The identifier of the first workspace of the browser that is named
/// exactly `name`.
pub open spec fn workspace_id(cache: Seq<BrowserWorkspace>, name: Seq<char>) -> Option<Seq<char>> {
    workspace_id_from(cache, name, 0)
}

/// Looks up the identifier of the browser workspace named `name`.
pub fn find_workspace_id<'a>(cache: &'a [BrowserWorkspace], name: &str) -> (r: Option<&'a str>)
    ensures
        text_of(r) == workspace_id(cache@, name@),
{
    let mut i: usize = 0;
    while i < cache.len()
        invariant
            i <= cache@.len(),
            workspace_id(cache@, name@) == workspace_id_from(cache@, name@, i as int),
        decreases cache@.len() - i,
    {
        let entry = &cache[i];
        if same_text(entry.name.as_str(), name) {
            return Some(entry.id.as_str());
        }
        i += 1;
    }
    None
}

/// Whether `host` is this machine: the local host name is known and, without
/// the white space around it, equals `host` up to the case of ASCII letters.
pub open spec fn is_local_host(host: Seq<char>, local: Option<Seq<char>>) -> bool {
    match local {
        Some(l) => same_ignoring_ascii_case(trimmed(l), host),
        None => false,
    }
}

/// Tells a session on this machine from one on another host.
pub fn is_local(host: &str, local: Option<&str>) -> (r: bool)
    ensures
        r == is_local_host(host@, text_of(local)),
{
    match local {
        Some(l) => eq_ignore_ascii_case(trim(l), host),
        None => false,
    }
}

/// The shell script that waits for the multiplexer session `session`, at
/// most twenty times a quarter of a second, attaches to it once it is there,
/// and otherwise starts a new session with the session picker open.
pub open spec fn attach_script(session: Seq<char>) -> Seq<char> {
    "for i in $(seq 1 20); do tmux has-session -t '"@ + session
        + "' 2>/dev/null && exec tmux attach-session -t '"@ + session
        + "'; sleep 0.25; done; exec tmux new-session \\; choose-tree -s"@
}

/// Writes the script that attaches to the multiplexer session `session`.
pub fn build_attach_script(session: &str) -> (r: String)
    ensures
        r@ == attach_script(session@),
{
    let mut script = String::from_str("for i in $(seq 1 20); do tmux has-session -t '");
    script.append(session);
    script.append("' 2>/dev/null && exec tmux attach-session -t '");
    script.append(session);
    script.append("'; sleep 0.25; done; exec tmux new-session \\; choose-tree -s");
    script
}

/// What is appended to the launch command of an IDE: the project path in the
/// title, where there is one.
pub open spec fn ide_arguments(title: Option<Seq<char>>, home: Option<Seq<char>>) -> Seq<
    Seq<char>,
> {
    match title {
        Some(t) => match project_path(t, home) {
            Some(p) => seq![p],
            None => seq![],
        },
        None => seq![],
    }
}

/// What is appended to the launch command of the browser: the workspace to
/// open, where the cache knows one under the title.
pub open spec fn browser_arguments(title: Option<Seq<char>>, cache: Seq<BrowserWorkspace>) -> Seq<
    Seq<char>,
> {
    match title {
        Some(t) => match workspace_id(cache, t) {
            Some(id) => seq!["--launch-workspace="@ + id],
            None => seq![],
        },
        None => seq![],
    }
}

/// What is appended to the launch command of the terminal: a shell that
/// attaches to the session in the title, on this machine or through a remote
/// login to the session's host.
pub open spec fn terminal_arguments(title: Option<Seq<char>>, local: Option<Seq<char>>) -> Seq<
    Seq<char>,
> {
    match title {
        Some(t) => match multiplexer_session(t) {
            Some((host, session)) => if is_local_host(host, local) {
                seq!["-e"@, "sh"@, "-c"@, attach_script(session)]
            } else {
                seq!["-e"@, "ssh"@, "-t"@, host, attach_script(session)]
            },
            None => seq![],
        },
        None => seq![],
    }
}

/// The arguments that the class of the application adds to its launch
/// command.
pub open spec fn extra_arguments(
    app_id: Seq<char>,
    title: Option<Seq<char>>,
    surroundings: Surroundings,
) -> Seq<Seq<char>> {
    if has_prefix(app_id, "jetbrains-"@) {
        ide_arguments(title, opt_text(surroundings.home))
    } else if app_id == "zen"@ {
        browser_arguments(title, surroundings.browser_workspaces@)
    } else if app_id == "kitty"@ {
        terminal_arguments(title, opt_text(surroundings.hostname))
    } else {
        seq![]
    }
}

/// The command to spawn: the launch command, then the extra arguments of
/// the application's class.
pub open spec fn spawn_command(
    launch_command: Seq<char>,
    app_id: Seq<char>,
    title: Option<Seq<char>>,
    surroundings: Surroundings,
) -> Seq<Seq<char>> {
    seq![launch_command] + extra_arguments(app_id, title, surroundings)
}

/// Builds the command that launches the application of a record again.
pub fn build_spawn_command(
    launch_command: &str,
    app_id: &str,
    title: Option<&str>,
    surroundings: &Surroundings,
) -> (r: Vec<String>)
    ensures
        texts(r@) == spawn_command(launch_command@, app_id@, text_of(title), *surroundings),
{
    let mut command: Vec<String> = Vec::new();
    command.push(String::from_str(launch_command));
    if starts_with(app_id, "jetbrains-") {
        if let Some(t) = title {
            if let Some(path) = extract_project_path(t, as_text(&surroundings.home)) {
                command.push(path);
            }
        }
    } else if same_text(app_id, "zen") {
        if let Some(t) = title {
            if let Some(id) = find_workspace_id(surroundings.browser_workspaces.as_slice(), t) {
                command.push(String::from_str("--launch-workspace=").concat(id));
            }
        }
    } else if same_text(app_id, "kitty") {
        if let Some(t) = title {
            if let Some(found) = extract_multiplexer_session(t) {
                let (host, session) = found;
                let script = build_attach_script(session.as_str());
                command.push(String::from_str("-e"));
                if is_local(host.as_str(), as_text(&surroundings.hostname)) {
                    command.push(String::from_str("sh"));
                    command.push(String::from_str("-c"));
                } else {
                    command.push(String::from_str("ssh"));
                    command.push(String::from_str("-t"));
                    command.push(host);
                }
                command.push(script);
            }
        }
    }
    assert(texts(command@) =~= spawn_command(
        launch_command@,
        app_id@,
        text_of(title),
        *surroundings,
    ));
    command
}

} // verus!
