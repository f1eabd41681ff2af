//! Saving: the join of live windows with live workspaces that gives the
//! records of a snapshot.
//!
//! The two lists come from two independent queries. A workspace that went
//! away between them leaves the placement fields of its windows absent.

use vstd::prelude::*;
use vstd::string::*;
use crate::model::{clone_opt, opt_text, Config, LiveWindow, LiveWorkspace, RecordModel, Session, WindowRecord};

verus! {

/// Index of the first workspace at or after `i` whose handle is `id`, or
/// `workspaces.len()` when there is none.
pub open spec fn workspace_position_from(workspaces: Seq<LiveWorkspace>, id: u64, i: int) -> int
    decreases workspaces.len() - i,
{
    if i < 0 || i >= workspaces.len() {
        workspaces.len() as int
    } else if workspaces[i].id == id {
        i
    } else {
        workspace_position_from(workspaces, id, i + 1)
    }
}

/// The workspace that `window` is on: the first one whose handle is the one
/// the window names.
pub open spec fn joined_workspace(window: LiveWindow, workspaces: Seq<LiveWorkspace>) -> Option<
    LiveWorkspace,
> {
    match window.workspace_id {
        None => None,
        Some(id) => {
            let i = workspace_position_from(workspaces, id, 0);
            if i < workspaces.len() {
                Some(workspaces[i])
            } else {
                None
            }
        },
    }
}

/// `workspace_position_from` gives the least index from `i` on whose
/// workspace has the handle `id`.
proof fn lemma_workspace_position_from(workspaces: Seq<LiveWorkspace>, id: u64, i: int)
    requires
        0 <= i <= workspaces.len(),
    ensures
        i <= workspace_position_from(workspaces, id, i) <= workspaces.len(),
        forall|j: int|
            i <= j < workspace_position_from(workspaces, id, i) ==> workspaces[j].id != id,
        workspace_position_from(workspaces, id, i) < workspaces.len()
            ==> workspaces[workspace_position_from(workspaces, id, i)].id == id,
    decreases workspaces.len() - i,
{
    if i < workspaces.len() && workspaces[i].id != id {
        lemma_workspace_position_from(workspaces, id, i + 1);
    }
}

/// The workspace a window is on, among those the compositor listed.
pub fn find_workspace_for_window<'a>(window: &LiveWindow, workspaces: &'a [LiveWorkspace]) -> (r:
    Option<&'a LiveWorkspace>)
    ensures
        match joined_workspace(*window, workspaces@) {
            Some(w) => r == Some(&w),
            None => r.is_none(),
        },
{
    match window.workspace_id {
        None => None,
        Some(id) => {
            let mut i: usize = 0;
            while i < workspaces.len()
                invariant
                    i <= workspaces@.len(),
                    window.workspace_id == Some(id),
                    workspace_position_from(workspaces@, id, 0) == workspace_position_from(
                        workspaces@,
                        id,
                        i as int,
                    ),
                decreases workspaces@.len() - i,
            {
                let w = &workspaces[i];
                if w.id == id {
                    return Some(w);
                }
                i += 1;
            }
            None
        },
    }
}

/// A window is joined to the first workspace that has the handle the window
/// names; without such a workspace, or without a handle, it is joined to
/// none.
pub proof fn lemma_joined_workspace(window: LiveWindow, workspaces: Seq<LiveWorkspace>)
    ensures
        match joined_workspace(window, workspaces) {
            Some(w) => exists|i: int|
                0 <= i < workspaces.len() && #[trigger] workspaces[i] == w && window.workspace_id
                    == Some(w.id) && forall|j: int|
                    0 <= j < i ==> Some((#[trigger] workspaces[j]).id) != window.workspace_id,
            None => forall|j: int|
                0 <= j < workspaces.len() ==> Some((#[trigger] workspaces[j]).id)
                    != window.workspace_id,
        },
{
    match window.workspace_id {
        Some(id) => {
            lemma_workspace_position_from(workspaces, id, 0);
            let i = workspace_position_from(workspaces, id, 0);
            if i < workspaces.len() {
                assert(workspaces[i] == workspaces[i]);
            }
        },
        None => {},
    }
}

/// The launch command of an application: the one the configuration maps its
/// identifier to, else the identifier itself; none without an identifier.
pub open spec fn resolved_command(app_id: Option<Seq<char>>, config: Config) -> Option<Seq<char>> {
    match app_id {
        None => None,
        Some(a) => match config.mapped(a) {
            Some(c) => Some(c),
            None => Some(a),
        },
    }
}

/// Resolves the launch command of a window from its application identifier.
pub fn resolve_launch_command(app_id: &Option<String>, config: &Config) -> (r: Option<String>)
    ensures
        opt_text(r) == resolved_command(opt_text(*app_id), *config),
{
    match app_id {
        None => None,
        Some(a) => match config.launch.get(a.as_str()) {
            Some(c) => Some(c.clone()),
            None => Some(a.clone()),
        },
    }
}

/// The record that a save makes of `window`.
pub open spec fn record_for(window: LiveWindow, workspaces: Seq<LiveWorkspace>, config: Config)
    -> RecordModel {
    let joined = joined_workspace(window, workspaces);
    RecordModel {
        id: window.id,
        app_id: opt_text(window.app_id),
        title: opt_text(window.title),
        launch_command: resolved_command(opt_text(window.app_id), config),
        workspace_idx: match joined {
            Some(w) => Some(w.idx),
            None => None,
        },
        workspace_name: match joined {
            Some(w) => opt_text(w.name),
            None => None,
        },
        workspace_output: match joined {
            Some(w) => opt_text(w.output),
            None => None,
        },
        is_focused: window.is_focused,
        window_size: window.size,
    }
}

/// Makes the record of one window.
pub fn capture_window(window: &LiveWindow, workspaces: &[LiveWorkspace], config: &Config) -> (r:
    WindowRecord)
    ensures
        r@ == record_for(*window, workspaces@, *config),
{
    let joined = find_workspace_for_window(window, workspaces);
    let launch_command = resolve_launch_command(&window.app_id, config);
    match joined {
        Some(w) => WindowRecord {
            id: window.id,
            app_id: clone_opt(&window.app_id),
            title: clone_opt(&window.title),
            launch_command,
            workspace_idx: Some(w.idx),
            workspace_name: clone_opt(&w.name),
            workspace_output: clone_opt(&w.output),
            is_focused: window.is_focused,
            window_size: window.size,
        },
        None => WindowRecord {
            id: window.id,
            app_id: clone_opt(&window.app_id),
            title: clone_opt(&window.title),
            launch_command,
            workspace_idx: None,
            workspace_name: None,
            workspace_output: None,
            is_focused: window.is_focused,
            window_size: window.size,
        },
    }
}

/// Makes the session of the live state: one record per window, in the order
/// in which the compositor listed the windows.
pub fn capture_session(windows: &[LiveWindow], workspaces: &[LiveWorkspace], config: &Config) -> (r:
    Session)
    ensures
        r@.len() == windows@.len(),
        forall|i: int|
            0 <= i < windows@.len() ==> (#[trigger] r@[i])@ == record_for(
                windows@[i],
                workspaces@,
                *config,
            ),
{
    let mut session: Vec<WindowRecord> = Vec::new();
    let mut i: usize = 0;
    while i < windows.len()
        invariant
            i <= windows@.len(),
            session@.len() == i,
            forall|j: int|
                0 <= j < i ==> (#[trigger] session@[j])@ == record_for(
                    windows@[j],
                    workspaces@,
                    *config,
                ),
        decreases windows@.len() - i,
    {
        let record = capture_window(&windows[i], workspaces, config);
        session.push(record);
        i += 1;
    }
    session
}

} // verus!
