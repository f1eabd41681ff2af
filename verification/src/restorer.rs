//! Restoring: the placement protocol as a state machine.
//!
//! The machine decides; its caller talks to the compositor. Each step takes
//! the compositor's answer to the last action and gives the next action.
//! Windows are placed one after the other: a window is placed, or given up,
//! before the next application is spawned.

use vstd::prelude::*;
use vstd::string::*;
use crate::command::{clone_words, Surroundings};
use crate::model::{opt_text, Config, ErrorModel, LiveWindow, NiriError, Session};
use crate::plan::{
    is_restore_plan, placement_models, plan_restore, Placement, PlacementModel, TargetModel,
    WorkspaceRef,
};
use crate::text::same_text;

verus! {

/// How often the window list is polled for a new window before it is given
/// up.
pub const POLL_LIMIT: u8 = 20;

/// The time between two polls, in milliseconds.
pub const POLL_INTERVAL_MS: u64 = 250;

/// What the snapshot file held when the restore began.
#[derive(Debug, PartialEq, Eq)]
pub enum SnapshotFile {
    /// There is no file.
    Missing,
    /// The file is empty.
    Empty,
    /// The file holds a session.
    Loaded(Session),
}

/// How a restore begins.
#[derive(Debug, PartialEq, Eq)]
pub enum Opening {
    /// Nothing was ever saved: save the live session now, restore nothing.
    Bootstrap,
    /// There is nothing to restore.
    Nothing,
    /// Replay these placements.
    Replay(Vec<Placement>),
}

/// Decides how a restore begins. Without a snapshot it begins, and ends,
/// with a save; this is never an error.
pub fn open_restore(snapshot: SnapshotFile, config: &Config, surroundings: &Surroundings) -> (r:
    Opening)
    ensures
        match snapshot {
            SnapshotFile::Missing => r is Bootstrap,
            SnapshotFile::Empty => r is Nothing,
            SnapshotFile::Loaded(session) => r is Replay && is_restore_plan(
                session@,
                *config,
                *surroundings,
                placement_models(r->Replay_0@),
            ),
        },
{
    match snapshot {
        SnapshotFile::Missing => Opening::Bootstrap,
        SnapshotFile::Empty => Opening::Nothing,
        SnapshotFile::Loaded(session) => Opening::Replay(
            plan_restore(&session, config, surroundings),
        ),
    }
}

/// Where the machine stands in the placement of the current window.
#[derive(Clone, Copy, PartialEq, Eq, Structural, Debug)]
pub enum Phase {
    /// The windows that exist before the spawn are being listed.
    Snapshotting,
    /// The spawn was issued.
    Spawning,
    /// The new window is awaited.
    Waiting,
    /// The move to the output was issued.
    MovingToOutput,
    /// The move to the workspace was issued.
    MovingToWorkspace,
    /// The width was issued.
    SettingWidth,
    /// The height was issued.
    SettingHeight,
    /// Every placement was gone through.
    Finished,
    /// The restore was aborted.
    Failed,
}

/// How the placement of one window ended.
#[derive(Clone, Copy, PartialEq, Eq, Structural, Debug)]
pub enum Outcome {
    /// The compositor did not acknowledge the spawn.
    SpawnRefused,
    /// The application was spawned; its record names no workspace.
    Untargeted,
    /// No new window of the application appeared within the poll limit.
    TimedOut,
    /// The window was moved to its workspace.
    Placed,
}

/// What the caller is to do next.
#[derive(Debug, PartialEq, Eq)]
pub enum Action {
    /// List the live windows.
    ListWindows,
    /// Spawn this command.
    Spawn(Vec<String>),
    /// Wait for the poll interval, then list the live windows.
    Poll,
    /// Move the window to the output.
    MoveToOutput { window: u64, output: String },
    /// Move the window to the workspace, without focusing it.
    MoveToWorkspace { window: u64, target: WorkspaceRef },
    /// Set the window's width.
    SetWidth { window: u64, width: i32 },
    /// Set the window's height.
    SetHeight { window: u64, height: i32 },
    /// The restore is complete.
    Done,
    /// The restore is aborted with this error.
    Abort(NiriError),
}

/// The mathematical content of an `Action`.
pub ghost enum ActionModel {
    ListWindows,
    Spawn(Seq<Seq<char>>),
    Poll,
    MoveToOutput { window: u64, output: Seq<char> },
    MoveToWorkspace { window: u64, target: TargetModel },
    SetWidth { window: u64, width: i32 },
    SetHeight { window: u64, height: i32 },
    Done,
    Abort(ErrorModel),
}

impl View for Action {
    type V = ActionModel;

    open spec fn view(&self) -> ActionModel {
        match self {
            Action::ListWindows => ActionModel::ListWindows,
            Action::Spawn(c) => ActionModel::Spawn(crate::command::texts(c@)),
            Action::Poll => ActionModel::Poll,
            Action::MoveToOutput { window, output } => ActionModel::MoveToOutput {
                window: *window,
                output: output@,
            },
            Action::MoveToWorkspace { window, target } => ActionModel::MoveToWorkspace {
                window: *window,
                target: target@,
            },
            Action::SetWidth { window, width } => ActionModel::SetWidth {
                window: *window,
                width: *width,
            },
            Action::SetHeight { window, height } => ActionModel::SetHeight {
                window: *window,
                height: *height,
            },
            Action::Done => ActionModel::Done,
            Action::Abort(e) => ActionModel::Abort(e@),
        }
    }
}

/// The compositor's answer to the last action.
#[derive(Debug, PartialEq, Eq)]
pub enum Event {
    /// The live windows, in answer to a listing.
    Windows(Vec<LiveWindow>),
    /// The action was carried out.
    Handled,
    /// The request failed.
    Failed(NiriError),
}

/// The state of a restore.
#[derive(Debug, PartialEq, Eq)]
pub struct Restorer {
    /// The placements to go through.
    pub plan: Vec<Placement>,
    /// The index of the placement at work.
    pub current: usize,
    pub phase: Phase,
    /// The handles of the windows that existed before the spawn.
    pub known: Vec<u64>,
    /// How many polls found no new window.
    pub polls: u8,
    /// The handle of the new window.
    pub window: u64,
    /// How the placements before the current one ended.
    pub outcomes: Vec<Outcome>,
}

/// The mathematical content of a `Restorer`.
pub ghost struct RestorerModel {
    pub plan: Seq<PlacementModel>,
    pub current: int,
    pub phase: Phase,
    pub known: Seq<u64>,
    pub polls: int,
    pub window: u64,
    pub outcomes: Seq<Outcome>,
}

impl View for Restorer {
    type V = RestorerModel;

    open spec fn view(&self) -> RestorerModel {
        RestorerModel {
            plan: placement_models(self.plan@),
            current: self.current as int,
            phase: self.phase,
            known: self.known@,
            polls: self.polls as int,
            window: self.window,
            outcomes: self.outcomes@,
        }
    }
}

/// The handles of `windows`.
pub open spec fn ids(windows: Seq<LiveWindow>) -> Seq<u64> {
    windows.map_values(|w: LiveWindow| w.id)
}

/// The handle of the first window at or after `i` that belongs to the
/// application `app_id` and whose handle is not among `known`.
pub open spec fn fresh_window_from(
    windows: Seq<LiveWindow>,
    app_id: Seq<char>,
    known: Seq<u64>,
    i: int,
) -> Option<u64>
    decreases windows.len() - i,
{
    if i < 0 || i >= windows.len() {
        None
    } else if opt_text(windows[i].app_id) == Some(app_id) && !known.contains(windows[i].id) {
        Some(windows[i].id)
    } else {
        fresh_window_from(windows, app_id, known, i + 1)
    }
}

/// The window that the spawn brought: the first one of the application that
/// did not exist before.
pub open spec fn fresh_window(windows: Seq<LiveWindow>, app_id: Seq<char>, known: Seq<u64>)
    -> Option<u64> {
    fresh_window_from(windows, app_id, known, 0)
}

/// The machine at the placement `current`. For a placement with a workspace
/// it first lists the windows that exist, to tell the new window from them
/// later; one without a workspace is spawned at once, since its window is
/// never looked for. Where the plan has no such placement the machine is
/// finished.
pub open spec fn enter(m: RestorerModel, current: int) -> (RestorerModel, ActionModel) {
    if 0 <= current < m.plan.len() {
        if m.plan[current].target.is_some() {
            (RestorerModel { current, phase: Phase::Snapshotting, ..m }, ActionModel::ListWindows)
        } else {
            (
                RestorerModel { current, phase: Phase::Spawning, known: seq![], ..m },
                ActionModel::Spawn(m.plan[current].command),
            )
        }
    } else {
        (RestorerModel { current, phase: Phase::Finished, ..m }, ActionModel::Done)
    }
}

/// The current placement ends with `outcome`; the machine goes on to the
/// next.
pub open spec fn conclude(m: RestorerModel, outcome: Outcome) -> (RestorerModel, ActionModel) {
    enter(RestorerModel { outcomes: m.outcomes.push(outcome), ..m }, m.current + 1)
}

/// The restore is aborted with `error`.
pub open spec fn abort(m: RestorerModel, error: ErrorModel) -> (RestorerModel, ActionModel) {
    (RestorerModel { phase: Phase::Failed, ..m }, ActionModel::Abort(error))
}

/// The error for an answer of the wrong kind.
pub open spec fn unexpected() -> ErrorModel {
    ErrorModel::Reply("Unexpected response from Niri"@)
}

/// The window `window` is moved to the workspace of the current placement.
pub open spec fn to_workspace(m: RestorerModel, window: u64) -> (RestorerModel, ActionModel) {
    match m.plan[m.current].target {
        Some(target) => (
            RestorerModel { phase: Phase::MovingToWorkspace, window, ..m },
            ActionModel::MoveToWorkspace { window, target },
        ),
        None => conclude(m, Outcome::Untargeted),
    }
}

/// The window of the current placement is given its recorded width, where
/// one was recorded.
pub open spec fn to_width(m: RestorerModel) -> (RestorerModel, ActionModel) {
    match m.plan[m.current].size {
        Some(size) => (
            RestorerModel { phase: Phase::SettingWidth, ..m },
            ActionModel::SetWidth { window: m.window, width: size.0 },
        ),
        None => conclude(m, Outcome::Placed),
    }
}

/// The window of the current placement is given its recorded height.
pub open spec fn to_height(m: RestorerModel) -> (RestorerModel, ActionModel) {
    match m.plan[m.current].size {
        Some(size) => (
            RestorerModel { phase: Phase::SettingHeight, ..m },
            ActionModel::SetHeight { window: m.window, height: size.1 },
        ),
        None => conclude(m, Outcome::Placed),
    }
}

/// The transition of the machine: the state and the action that follow the
/// state `m` and the answer `event`.
///
/// A listing that fails aborts the restore. A spawn that the compositor
/// refuses ends the placement; one that could not be sent aborts the
/// restore. A move to the output and the two resizes are best effort: the
/// machine goes on whatever the answer. A move to the workspace that fails
/// aborts the restore.
pub open spec fn next(m: RestorerModel, event: Event) -> (RestorerModel, ActionModel) {
    if m.phase == Phase::Finished {
        (m, ActionModel::Done)
    } else if m.phase == Phase::Failed {
        (m, ActionModel::Abort(unexpected()))
    } else if !(0 <= m.current < m.plan.len()) {
        (RestorerModel { phase: Phase::Finished, ..m }, ActionModel::Done)
    } else {
        let p = m.plan[m.current];
        match m.phase {
            Phase::Snapshotting => match event {
                Event::Windows(windows) => (
                    RestorerModel { phase: Phase::Spawning, known: ids(windows@), ..m },
                    ActionModel::Spawn(p.command),
                ),
                Event::Failed(e) => abort(m, e@),
                Event::Handled => abort(m, unexpected()),
            },
            Phase::Spawning => match event {
                Event::Handled => if p.target.is_some() {
                    (RestorerModel { phase: Phase::Waiting, polls: 0, ..m }, ActionModel::Poll)
                } else {
                    conclude(m, Outcome::Untargeted)
                },
                Event::Failed(NiriError::Reply(_)) => conclude(m, Outcome::SpawnRefused),
                Event::Failed(e) => abort(m, e@),
                Event::Windows(_) => conclude(m, Outcome::SpawnRefused),
            },
            Phase::Waiting => match event {
                Event::Windows(windows) => match fresh_window(windows@, p.app_id, m.known) {
                    Some(window) => match p.output {
                        Some(output) => (
                            RestorerModel { phase: Phase::MovingToOutput, window, ..m },
                            ActionModel::MoveToOutput { window, output },
                        ),
                        None => to_workspace(m, window),
                    },
                    None => if m.polls + 1 >= POLL_LIMIT {
                        conclude(m, Outcome::TimedOut)
                    } else {
                        (RestorerModel { polls: m.polls + 1, ..m }, ActionModel::Poll)
                    },
                },
                Event::Failed(e) => abort(m, e@),
                Event::Handled => abort(m, unexpected()),
            },
            Phase::MovingToOutput => to_workspace(m, m.window),
            Phase::MovingToWorkspace => match event {
                Event::Handled => to_width(m),
                Event::Failed(e) => abort(m, e@),
                Event::Windows(_) => abort(m, unexpected()),
            },
            Phase::SettingWidth => to_height(m),
            _ => conclude(m, Outcome::Placed),
        }
    }
}

/// The state in which a restore of `plan` begins, before its first action.
pub open spec fn initial(plan: Seq<PlacementModel>) -> RestorerModel {
    RestorerModel {
        plan,
        current: 0,
        phase: Phase::Snapshotting,
        known: seq![],
        polls: 0,
        window: 0,
        outcomes: seq![],
    }
}

/// The handles of the live windows.
pub fn window_ids(windows: &[LiveWindow]) -> (r: Vec<u64>)
    ensures
        r@ == ids(windows@),
{
    let mut found: Vec<u64> = Vec::new();
    let mut i: usize = 0;
    while i < windows.len()
        invariant
            i <= windows@.len(),
            found@.len() == i,
            forall|j: int| 0 <= j < i ==> found@[j] == windows@[j].id,
        decreases windows@.len() - i,
    {
        found.push(windows[i].id);
        i += 1;
    }
    assert(found@ =~= ids(windows@));
    found
}

/// Whether `id` is among `known`.
pub fn knows(known: &[u64], id: u64) -> (r: bool)
    ensures
        r == known@.contains(id),
{
    let mut i: usize = 0;
    while i < known.len()
        invariant
            i <= known@.len(),
            forall|j: int| 0 <= j < i ==> known@[j] != id,
        decreases known@.len() - i,
    {
        if known[i] == id {
            return true;
        }
        i += 1;
    }
    false
}

/// Finds the window that a spawn brought: the first window of the
/// application `app_id` whose handle was not seen before the spawn.
pub fn find_fresh_window(windows: &[LiveWindow], app_id: &str, known: &[u64]) -> (r: Option<u64>)
    ensures
        r == fresh_window(windows@, app_id@, known@),
{
    let mut i: usize = 0;
    while i < windows.len()
        invariant
            i <= windows@.len(),
            fresh_window(windows@, app_id@, known@) == fresh_window_from(
                windows@,
                app_id@,
                known@,
                i as int,
            ),
        decreases windows@.len() - i,
    {
        let w = &windows[i];
        let same_app = match &w.app_id {
            Some(a) => same_text(a.as_str(), app_id),
            None => false,
        };
        if same_app && !knows(known, w.id) {
            return Some(w.id);
        }
        i += 1;
    }
    None
}

/// The window that is taken for the new one belongs to the application and
/// did not exist before the spawn.
pub proof fn lemma_fresh_window_is_new(
    windows: Seq<LiveWindow>,
    app_id: Seq<char>,
    known: Seq<u64>,
    i: int,
)
    requires
        0 <= i <= windows.len(),
    ensures
        match fresh_window_from(windows, app_id, known, i) {
            Some(id) => !known.contains(id) && exists|j: int|
                i <= j < windows.len() && (#[trigger] windows[j]).id == id && opt_text(
                    windows[j].app_id,
                ) == Some(app_id),
            None => forall|j: int|
                i <= j < windows.len() && opt_text((#[trigger] windows[j]).app_id) == Some(app_id)
                    ==> known.contains(windows[j].id),
        },
    decreases windows.len() - i,
{
    if i < windows.len() {
        if opt_text(windows[i].app_id) == Some(app_id) && !known.contains(windows[i].id) {
            assert(windows[i].id == windows[i].id);
        } else {
            lemma_fresh_window_is_new(windows, app_id, known, i + 1);
        }
    }
}

/// The state after the answers `events`, taken one after the other.
pub open spec fn run(m: RestorerModel, events: Seq<Event>) -> RestorerModel
    decreases events.len(),
{
    if events.len() == 0 {
        m
    } else {
        next(run(m, events.drop_last()), events.last()).0
    }
}

/// Whether `event` is a listing without a new window for the current
/// placement of `m`.
pub open spec fn finds_nothing(m: RestorerModel, event: Event) -> bool {
    match event {
        Event::Windows(windows) => fresh_window(
            windows@,
            m.plan[m.current].app_id,
            m.known,
        ).is_none(),
        _ => false,
    }
}

/// What holds of every state that a restore reaches: the placements before
/// the current one have their outcomes, fewer polls than the limit have
/// failed, and windows are listed, awaited or moved only for a placement
/// with a workspace.
pub open spec fn consistent(m: RestorerModel) -> bool {
    &&& 0 <= m.current <= m.plan.len()
    &&& m.outcomes.len() == m.current
    &&& 0 <= m.polls < POLL_LIMIT
    &&& m.phase == Phase::Finished ==> m.current == m.plan.len()
    &&& m.phase != Phase::Finished && m.phase != Phase::Failed ==> m.current < m.plan.len()
    &&& m.phase == Phase::Snapshotting || m.phase == Phase::Waiting || m.phase
        == Phase::MovingToOutput || m.phase
        == Phase::MovingToWorkspace || m.phase == Phase::SettingWidth || m.phase
        == Phase::SettingHeight ==> m.plan[m.current].target.is_some()
    &&& m.phase == Phase::SettingWidth || m.phase == Phase::SettingHeight
        ==> m.plan[m.current].size.is_some()
}

/// A restore begins in a consistent state.
pub proof fn lemma_start_consistent(plan: Seq<PlacementModel>)
    ensures
        consistent(enter(initial(plan), 0).0),
        enter(initial(plan), 0).0.plan == plan,
        plan.len() == 0 <==> enter(initial(plan), 0).1 == ActionModel::Done,
{
}

/// A step keeps the state consistent and the plan unchanged, never goes
/// back to an earlier placement, and never takes an outcome back. When the
/// restore is finished every placement has its outcome.
pub proof fn lemma_step_consistent(m: RestorerModel, event: Event)
    requires
        consistent(m),
    ensures
        consistent(next(m, event).0),
        next(m, event).0.plan == m.plan,
        m.current <= next(m, event).0.current <= m.current + 1,
        m.outcomes.is_prefix_of(next(m, event).0.outcomes),
        next(m, event).0.phase == Phase::Finished ==> next(m, event).0.outcomes.len()
            == m.plan.len(),
        next(m, event).1 == ActionModel::Done <==> next(m, event).0.phase == Phase::Finished,
        next(m, event).1 is Abort <==> next(m, event).0.phase == Phase::Failed,
        next(m, event).1 is Spawn ==> next(m, event).1 == ActionModel::Spawn(
            m.plan[next(m, event).0.current].command,
        ),
{
}

/// A window that is moved is one that the last listing shows, of the
/// application that was spawned, and not one that was there before the
/// spawn.
pub proof fn lemma_moved_window_is_new(m: RestorerModel, windows: Vec<LiveWindow>)
    requires
        consistent(m),
        m.phase == Phase::Waiting,
    ensures
        ({
            let after = next(m, Event::Windows(windows));
            let app_id = m.plan[m.current].app_id;
            (after.1 is MoveToOutput || after.1 is MoveToWorkspace) ==> {
                &&& after.1 is MoveToOutput ==> after.1->MoveToOutput_window == after.0.window
                &&& after.1 is MoveToWorkspace ==> after.1->MoveToWorkspace_window
                    == after.0.window
                &&& !m.known.contains(after.0.window)
                &&& exists|j: int|
                    0 <= j < windows@.len() && (#[trigger] windows@[j]).id == after.0.window
                        && opt_text(windows@[j].app_id) == Some(app_id)
            }
        }),
{
    lemma_fresh_window_is_new(windows@, m.plan[m.current].app_id, m.known, 0);
}

/// How many steps a restore can still take, at most.
pub open spec fn steps_left(m: RestorerModel) -> int {
    if m.phase == Phase::Finished || m.phase == Phase::Failed {
        0
    } else {
        (m.plan.len() - m.current - 1) * (POLL_LIMIT + 12) + match m.phase {
            Phase::Snapshotting => POLL_LIMIT + 10,
            Phase::Spawning => POLL_LIMIT + 9,
            Phase::Waiting => POLL_LIMIT + 8 - m.polls,
            Phase::MovingToOutput => 5,
            Phase::MovingToWorkspace => 4,
            Phase::SettingWidth => 3,
            _ => 2,
        }
    }
}

/// A restore never blocks: whatever the compositor answers, each step
/// brings the end nearer, so a restore of `n` placements is over after at
/// most `n * (POLL_LIMIT + 12)` steps.
pub proof fn lemma_step_progress(m: RestorerModel, event: Event)
    requires
        consistent(m),
        m.phase != Phase::Finished,
        m.phase != Phase::Failed,
    ensures
        0 <= steps_left(next(m, event).0) < steps_left(m),
        steps_left(m) <= m.plan.len() * (POLL_LIMIT + 12),
{
    let n = m.plan.len() - m.current;
    assert(n >= 1);
    assert(0 <= (n - 1) * 32 <= (m.plan.len() - 1) * 32) by (nonlinear_arith)
        requires
            1 <= n <= m.plan.len(),
    ;
    assert((n - 1) * 32 == (n - 2) * 32 + 32);
    assert(m.plan.len() * 32 == (m.plan.len() - 1) * 32 + 32);
}

/// While the listings show no new window, the machine keeps polling for the
/// same placement: after `k` such listings, fewer than the limit, it has
/// counted `k` and asks for another poll.
pub proof fn lemma_waiting_goes_on(m: RestorerModel, events: Seq<Event>, k: int)
    requires
        m.phase == Phase::Waiting,
        0 <= m.current < m.plan.len(),
        m.polls == 0,
        0 <= k < POLL_LIMIT,
        k <= events.len(),
        forall|i: int| 0 <= i < k ==> finds_nothing(m, #[trigger] events[i]),
    ensures
        run(m, events.take(k)) == (RestorerModel { polls: k, ..m }),
        k > 0 ==> next(run(m, events.take(k - 1)), events[k - 1]).1 == ActionModel::Poll,
    decreases k,
{
    if k > 0 {
        lemma_waiting_goes_on(m, events, k - 1);
        assert(events.take(k).drop_last() =~= events.take(k - 1));
        assert(events.take(k).last() == events[k - 1]);
        assert(finds_nothing(m, events[k - 1]));
    }
}

/// Where no new window ever appears, the machine gives the placement up at
/// the listing that reaches the poll limit, neither sooner nor later: it
/// records a timeout and goes on to the next placement.
pub proof fn lemma_timeout_bound(m: RestorerModel, events: Seq<Event>)
    requires
        m.phase == Phase::Waiting,
        0 <= m.current < m.plan.len(),
        m.polls == 0,
        events.len() == POLL_LIMIT,
        forall|i: int| 0 <= i < events.len() ==> finds_nothing(m, #[trigger] events[i]),
    ensures
        forall|k: int|
            0 <= k < POLL_LIMIT ==> #[trigger] run(m, events.take(k)) == (RestorerModel {
                polls: k,
                ..m
            }),
        run(m, events) == conclude(
            RestorerModel { polls: POLL_LIMIT - 1, ..m },
            Outcome::TimedOut,
        ).0,
        run(m, events).outcomes == m.outcomes.push(Outcome::TimedOut),
        run(m, events).current == m.current + 1,
        run(m, events).phase == Phase::Snapshotting || run(m, events).phase == Phase::Spawning
            || run(m, events).phase == Phase::Finished,
{
    assert forall|k: int| 0 <= k < POLL_LIMIT implies #[trigger] run(m, events.take(k)) == (
    RestorerModel { polls: k, ..m }) by {
        lemma_waiting_goes_on(m, events, k);
    }
    let last = POLL_LIMIT - 1;
    lemma_waiting_goes_on(m, events, last);
    assert(events.drop_last() =~= events.take(last));
    assert(finds_nothing(m, events[last]));
}

impl Restorer {
    /// Begins the restore of `plan`: the machine and its first action.
    pub fn start(plan: Vec<Placement>) -> (r: (Restorer, Action))
        ensures
            (r.0@, r.1@) == enter(initial(placement_models(plan@)), 0),
            consistent(r.0@),
    {
        let mut machine = Restorer {
            plan,
            current: 0,
            phase: Phase::Snapshotting,
            known: Vec::new(),
            polls: 0,
            window: 0,
            outcomes: Vec::new(),
        };
        let action = machine.enter(0);
        (machine, action)
    }

    /// Whether the restore is over, completed or aborted.
    pub fn is_over(&self) -> (r: bool)
        ensures
            r == (self@.phase == Phase::Finished || self@.phase == Phase::Failed),
    {
        match self.phase {
            Phase::Finished => true,
            Phase::Failed => true,
            _ => false,
        }
    }

    fn enter(&mut self, current: usize) -> (a: Action)
        ensures
            (final(self)@, a@) == enter(old(self)@, current as int),
    {
        self.current = current;
        if current < self.plan.len() {
            if self.plan[current].target.is_some() {
                self.phase = Phase::Snapshotting;
                Action::ListWindows
            } else {
                self.phase = Phase::Spawning;
                self.known = Vec::new();
                Action::Spawn(clone_words(&self.plan[current].command))
            }
        } else {
            self.phase = Phase::Finished;
            Action::Done
        }
    }

    fn conclude(&mut self, outcome: Outcome) -> (a: Action)
        requires
            old(self).current < old(self).plan@.len(),
        ensures
            (final(self)@, a@) == conclude(old(self)@, outcome),
    {
        assert(self.plan.len() == self.plan@.len());
        let following: usize = self.current + 1;
        self.outcomes.push(outcome);
        self.enter(following)
    }

    fn abort(&mut self, error: NiriError) -> (a: Action)
        ensures
            (final(self)@, a@) == abort(old(self)@, error@),
    {
        self.phase = Phase::Failed;
        Action::Abort(error)
    }

    fn to_workspace(&mut self, window: u64) -> (a: Action)
        requires
            old(self).current < old(self).plan@.len(),
        ensures
            (final(self)@, a@) == to_workspace(old(self)@, window),
    {
        match &self.plan[self.current].target {
            Some(t) => {
                let target = t.duplicate();
                self.phase = Phase::MovingToWorkspace;
                self.window = window;
                Action::MoveToWorkspace { window, target }
            },
            None => self.conclude(Outcome::Untargeted),
        }
    }

    fn to_width(&mut self) -> (a: Action)
        requires
            old(self).current < old(self).plan@.len(),
        ensures
            (final(self)@, a@) == to_width(old(self)@),
    {
        match self.plan[self.current].size {
            Some(size) => {
                self.phase = Phase::SettingWidth;
                Action::SetWidth { window: self.window, width: size.0 }
            },
            None => self.conclude(Outcome::Placed),
        }
    }

    fn to_height(&mut self) -> (a: Action)
        requires
            old(self).current < old(self).plan@.len(),
        ensures
            (final(self)@, a@) == to_height(old(self)@),
    {
        match self.plan[self.current].size {
            Some(size) => {
                self.phase = Phase::SettingHeight;
                Action::SetHeight { window: self.window, height: size.1 }
            },
            None => self.conclude(Outcome::Placed),
        }
    }

    fn after_listing(&mut self, windows: Vec<LiveWindow>) -> (a: Action)
        requires
            old(self).current < old(self).plan@.len(),
            old(self).phase == Phase::Waiting,
        ensures
            (final(self)@, a@) == next(old(self)@, Event::Windows(windows)),
    {
        let found = find_fresh_window(
            windows.as_slice(),
            self.plan[self.current].app_id.as_str(),
            self.known.as_slice(),
        );
        match found {
            Some(window) => match &self.plan[self.current].output {
                Some(o) => {
                    let output = o.clone();
                    self.phase = Phase::MovingToOutput;
                    self.window = window;
                    Action::MoveToOutput { window, output }
                },
                None => self.to_workspace(window),
            },
            None => {
                if self.polls >= POLL_LIMIT - 1 {
                    self.conclude(Outcome::TimedOut)
                } else {
                    self.polls = self.polls + 1;
                    Action::Poll
                }
            },
        }
    }

    /// Takes the compositor's answer to the last action and gives the next
    /// action.
    pub fn step(&mut self, event: Event) -> (a: Action)
        ensures
            (final(self)@, a@) == next(old(self)@, event),
            consistent(old(self)@) ==> consistent(final(self)@),
    {
        proof {
            if consistent(self@) {
                lemma_step_consistent(self@, event);
            }
        }
        match self.phase {
            Phase::Finished => {
                return Action::Done;
            },
            Phase::Failed => {
                return Action::Abort(NiriError::unexpected());
            },
            _ => {},
        }
        if self.current >= self.plan.len() {
            self.phase = Phase::Finished;
            return Action::Done;
        }
        match self.phase {
            Phase::Snapshotting => match event {
                Event::Windows(windows) => {
                    self.known = window_ids(windows.as_slice());
                    self.phase = Phase::Spawning;
                    Action::Spawn(clone_words(&self.plan[self.current].command))
                },
                Event::Failed(e) => self.abort(e),
                Event::Handled => self.abort(NiriError::unexpected()),
            },
            Phase::Spawning => match event {
                Event::Handled => {
                    if self.plan[self.current].target.is_some() {
                        self.phase = Phase::Waiting;
                        self.polls = 0;
                        Action::Poll
                    } else {
                        self.conclude(Outcome::Untargeted)
                    }
                },
                Event::Failed(NiriError::Reply(_)) => self.conclude(Outcome::SpawnRefused),
                Event::Failed(e) => self.abort(e),
                Event::Windows(_) => self.conclude(Outcome::SpawnRefused),
            },
            Phase::Waiting => match event {
                Event::Windows(windows) => self.after_listing(windows),
                Event::Failed(e) => self.abort(e),
                Event::Handled => self.abort(NiriError::unexpected()),
            },
            Phase::MovingToOutput => {
                let window = self.window;
                self.to_workspace(window)
            },
            Phase::MovingToWorkspace => match event {
                Event::Handled => self.to_width(),
                Event::Failed(e) => self.abort(e),
                Event::Windows(_) => self.abort(NiriError::unexpected()),
            },
            Phase::SettingWidth => self.to_height(),
            _ => self.conclude(Outcome::Placed),
        }
    }
}

} // verus!
