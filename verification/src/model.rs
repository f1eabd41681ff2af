//! The snapshot model: what is persisted of a window, the live state it is
//! taken from, and the user's configuration.

use vstd::prelude::*;
use vstd::string::*;
use vstd::hash_map::StringHashMap;
use crate::text::same_text;

verus! {

/// The text of an optional string.
pub open spec fn opt_text(o: Option<String>) -> Option<Seq<char>> {
    match o {
        Some(s) => Some(s@),
        None => None,
    }
}

/// A copy of an optional string.
pub fn clone_opt(o: &Option<String>) -> (r: Option<String>)
    ensures
        opt_text(r) == opt_text(*o),
{
    match o {
        Some(s) => Some(s.clone()),
        None => None,
    }
}

/// A window as the compositor reports it.
#[derive(Debug, PartialEq, Eq)]
pub struct LiveWindow {
    /// Handle of the window, valid for this compositor session only.
    pub id: u64,
    pub title: Option<String>,
    pub app_id: Option<String>,
    /// Handle of the workspace the window is on.
    pub workspace_id: Option<u64>,
    pub is_focused: bool,
    /// Width and height in logical pixels.
    pub size: Option<(i32, i32)>,
}

/// A workspace as the compositor reports it.
#[derive(Debug, PartialEq, Eq)]
pub struct LiveWorkspace {
    /// Handle of the workspace, valid for this compositor session only.
    pub id: u64,
    /// Position of the workspace on its output.
    pub idx: u8,
    /// Name, for a workspace the user named.
    pub name: Option<String>,
    /// Output the workspace is on.
    pub output: Option<String>,
}

/// What is persisted of one window.
#[derive(Debug, PartialEq, Eq)]
pub struct WindowRecord {
    /// Handle at save time. It means nothing after a restart.
    pub id: u64,
    pub app_id: Option<String>,
    /// Title at save time, read by the title heuristics only.
    pub title: Option<String>,
    /// Command that launches the application again.
    pub launch_command: Option<String>,
    pub workspace_idx: Option<u8>,
    /// Name of the workspace; where present it decides the target.
    pub workspace_name: Option<String>,
    pub workspace_output: Option<String>,
    /// Recorded, never replayed.
    pub is_focused: bool,
    pub window_size: Option<(i32, i32)>,
}

/// A persisted session: the records in the order of the live query.
pub type Session = Vec<WindowRecord>;

/// The mathematical content of a `WindowRecord`.
pub ghost struct RecordModel {
    pub id: u64,
    pub app_id: Option<Seq<char>>,
    pub title: Option<Seq<char>>,
    pub launch_command: Option<Seq<char>>,
    pub workspace_idx: Option<u8>,
    pub workspace_name: Option<Seq<char>>,
    pub workspace_output: Option<Seq<char>>,
    pub is_focused: bool,
    pub window_size: Option<(i32, i32)>,
}

impl View for WindowRecord {
    type V = RecordModel;

    open spec fn view(&self) -> RecordModel {
        RecordModel {
            id: self.id,
            app_id: opt_text(self.app_id),
            title: opt_text(self.title),
            launch_command: opt_text(self.launch_command),
            workspace_idx: self.workspace_idx,
            workspace_name: opt_text(self.workspace_name),
            workspace_output: opt_text(self.workspace_output),
            is_focused: self.is_focused,
            window_size: self.window_size,
        }
    }
}

impl WindowRecord {
    /// A copy of the record.
    pub fn duplicate(&self) -> (r: WindowRecord)
        ensures
            r@ == self@,
    {
        WindowRecord {
            id: self.id,
            app_id: clone_opt(&self.app_id),
            title: clone_opt(&self.title),
            launch_command: clone_opt(&self.launch_command),
            workspace_idx: self.workspace_idx,
            workspace_name: clone_opt(&self.workspace_name),
            workspace_output: clone_opt(&self.workspace_output),
            is_focused: self.is_focused,
            window_size: self.window_size,
        }
    }
}

/// The user's configuration: launch commands never to replay, and the launch
/// command of each application identifier that has one of its own.
pub struct Config {
    pub skip: Vec<String>,
    pub launch: StringHashMap<String>,
}

impl Config {
    /// Whether `command` is on the skip-list.
    pub open spec fn skips(&self, command: Seq<char>) -> bool {
        exists|i: int| 0 <= i < self.skip@.len() && (#[trigger] self.skip@[i])@ == command
    }

    /// The launch command configured for `app_id`, if there is one.
    pub open spec fn mapped(&self, app_id: Seq<char>) -> Option<Seq<char>> {
        if self.launch@.contains_key(app_id) {
            Some(self.launch@[app_id]@)
        } else {
            None
        }
    }

    /// The empty configuration: nothing skipped, nothing mapped.
    pub fn new() -> (c: Config)
        ensures
            c.skip@.len() == 0,
            c.launch@ == Map::<Seq<char>, String>::empty(),
            forall|s: Seq<char>| !c.skips(s) && c.mapped(s).is_none(),
    {
        Config { skip: Vec::new(), launch: StringHashMap::new() }
    }

    /// Puts `command` on the skip-list.
    pub fn add_skip(&mut self, command: String)
        ensures
            final(self).skip@ == old(self).skip@.push(command),
            final(self).launch@ == old(self).launch@,
            forall|s: Seq<char>| final(self).skips(s) == (old(self).skips(s) || s == command@),
    {
        let ghost before = self.skip@;
        self.skip.push(command);
        proof {
            let after = self.skip@;
            assert forall|s: Seq<char>| self.skips(s) == (old(self).skips(s) || s == command@) by {
                if old(self).skips(s) {
                    let i = choose|i: int| 0 <= i < before.len() && (#[trigger] before[i])@ == s;
                    assert(after[i] == before[i]);
                }
                if s == command@ {
                    assert(after[before.len() as int]@ == s);
                }
                if self.skips(s) {
                    let i = choose|i: int| 0 <= i < after.len() && (#[trigger] after[i])@ == s;
                    if i < before.len() {
                        assert(before[i] == after[i]);
                    }
                }
            }
        }
    }

    /// Maps `app_id` to `command`, in place of an earlier mapping of `app_id`.
    pub fn add_launch(&mut self, app_id: String, command: String)
        ensures
            final(self).skip@ == old(self).skip@,
            final(self).launch@ == old(self).launch@.insert(app_id@, command),
            forall|s: Seq<char>|
                final(self).mapped(s) == if s == app_id@ {
                    Some(command@)
                } else {
                    old(self).mapped(s)
                },
    {
        self.launch.insert(app_id, command);
    }

    /// Whether `command` is on the skip-list.
    pub fn is_skipped(&self, command: &str) -> (r: bool)
        ensures
            r == self.skips(command@),
    {
        let mut i: usize = 0;
        while i < self.skip.len()
            invariant
                i <= self.skip@.len(),
                forall|j: int| 0 <= j < i ==> (#[trigger] self.skip@[j])@ != command@,
            decreases self.skip@.len() - i,
        {
            if same_text(self.skip[i].as_str(), command) {
                return true;
            }
            i += 1;
        }
        false
    }
}

/// Why a request to the compositor failed.
#[derive(Debug, PartialEq, Eq)]
pub enum NiriError {
    /// The compositor answered with an error, or with a reply of another
    /// kind than the request calls for.
    Reply(String),
    /// The control socket could not be reached.
    Connect(String),
    /// The request could not be written to the control socket.
    Send(String),
}

/// The mathematical content of a `NiriError`.
pub ghost enum ErrorModel {
    Reply(Seq<char>),
    Connect(Seq<char>),
    Send(Seq<char>),
}

impl View for NiriError {
    type V = ErrorModel;

    open spec fn view(&self) -> ErrorModel {
        match self {
            NiriError::Reply(s) => ErrorModel::Reply(s@),
            NiriError::Connect(s) => ErrorModel::Connect(s@),
            NiriError::Send(s) => ErrorModel::Send(s@),
        }
    }
}

impl NiriError {
    /// The error for a reply of another kind than the request calls for.
    pub fn unexpected() -> (e: NiriError)
        ensures
            e@ == ErrorModel::Reply("Unexpected response from Niri"@),
    {
        NiriError::Reply(String::from_str("Unexpected response from Niri"))
    }

    /// The detail that the error carries.
    pub open spec fn detail(&self) -> Seq<char> {
        match self {
            NiriError::Reply(s) => s@,
            NiriError::Connect(s) => s@,
            NiriError::Send(s) => s@,
        }
    }

    /// What stands before the detail in the error's message.
    pub open spec fn heading(&self) -> Seq<char> {
        match self {
            NiriError::Reply(_) => "Failed to communicate with Niri via IPC: "@,
            NiriError::Connect(_) => "Failed to connect to Niri's IPC socket: "@,
            NiriError::Send(_) => "Failed to send data to Niri's IPC socket: "@,
        }
    }

    /// The error as a line of text.
    pub fn message(&self) -> (r: String)
        ensures
            r@ == self.heading() + self.detail(),
    {
        match self {
            NiriError::Reply(s) => String::from_str(
                "Failed to communicate with Niri via IPC: ",
            ).concat(s.as_str()),
            NiriError::Connect(s) => String::from_str(
                "Failed to connect to Niri's IPC socket: ",
            ).concat(s.as_str()),
            NiriError::Send(s) => String::from_str(
                "Failed to send data to Niri's IPC socket: ",
            ).concat(s.as_str()),
        }
    }
}

} // verus!
