//! What a restore will do: for each record that is replayed, the command to
//! spawn and the place its window is to be moved to.

use vstd::prelude::*;
use vstd::string::*;
use crate::command::{as_text, build_spawn_command, spawn_command, texts, Surroundings};
use crate::model::{clone_opt, opt_text, Config, RecordModel, Session, WindowRecord};
use crate::replay::{is_replay_order, lemma_replay_order_unique, replay_order};

verus! {

/// How a workspace is named to the compositor.
#[derive(Debug, PartialEq, Eq)]
pub enum WorkspaceRef {
    Name(String),
    Index(u8),
}

/// The mathematical content of a `WorkspaceRef`.
pub ghost enum TargetModel {
    Name(Seq<char>),
    Index(u8),
}

impl View for WorkspaceRef {
    type V = TargetModel;

    open spec fn view(&self) -> TargetModel {
        match self {
            WorkspaceRef::Name(n) => TargetModel::Name(n@),
            WorkspaceRef::Index(i) => TargetModel::Index(*i),
        }
    }
}

impl WorkspaceRef {
    /// A copy of the reference.
    pub fn duplicate(&self) -> (r: WorkspaceRef)
        ensures
            r@ == self@,
    {
        match self {
            WorkspaceRef::Name(n) => WorkspaceRef::Name(n.clone()),
            WorkspaceRef::Index(i) => WorkspaceRef::Index(*i),
        }
    }
}

/// The view of an optional workspace reference.
pub open spec fn opt_target(t: Option<WorkspaceRef>) -> Option<TargetModel> {
    match t {
        Some(r) => Some(r@),
        None => None,
    }
}

/// One step of a restore: an application to launch and where to put its
/// window.
#[derive(Debug, PartialEq, Eq)]
pub struct Placement {
    /// The launch command of the record.
    pub launch_command: String,
    /// The command to spawn: the launch command and its extra arguments.
    pub command: Vec<String>,
    /// The application identifier by which the new window is recognised.
    pub app_id: String,
    /// The workspace to move the window to.
    pub target: Option<WorkspaceRef>,
    /// The output to move the window to first.
    pub output: Option<String>,
    /// The width and height to give the window.
    pub size: Option<(i32, i32)>,
}

/// The mathematical content of a `Placement`.
pub ghost struct PlacementModel {
    pub launch_command: Seq<char>,
    pub command: Seq<Seq<char>>,
    pub app_id: Seq<char>,
    pub target: Option<TargetModel>,
    pub output: Option<Seq<char>>,
    pub size: Option<(i32, i32)>,
}

impl View for Placement {
    type V = PlacementModel;

    open spec fn view(&self) -> PlacementModel {
        PlacementModel {
            launch_command: self.launch_command@,
            command: texts(self.command@),
            app_id: self.app_id@,
            target: opt_target(self.target),
            output: opt_text(self.output),
            size: self.size,
        }
    }
}

/// The views of a sequence of placements.
pub open spec fn placement_models(v: Seq<Placement>) -> Seq<PlacementModel> {
    v.map_values(|p: Placement| p@)
}

/// The workspace a record's window belongs on: the named one where the
/// record has a name, else the indexed one.
pub open spec fn target_of(record: RecordModel) -> Option<TargetModel> {
    match record.workspace_name {
        Some(n) => Some(TargetModel::Name(n)),
        None => match record.workspace_idx {
            Some(i) => Some(TargetModel::Index(i)),
            None => None,
        },
    }
}

/// The placement that a record asks for. There is none for a record without
/// a launch command, for one whose launch command is on the skip-list, and
/// for one without an application identifier to recognise its window by.
pub open spec fn placement_of(record: RecordModel, config: Config, surroundings: Surroundings)
    -> Option<PlacementModel> {
    match (record.launch_command, record.app_id) {
        (Some(launch), Some(app)) => if config.skips(launch) {
            None
        } else {
            Some(
                PlacementModel {
                    launch_command: launch,
                    command: spawn_command(launch, app, record.title, surroundings),
                    app_id: app,
                    target: target_of(record),
                    output: record.workspace_output,
                    size: record.window_size,
                },
            )
        },
        _ => None,
    }
}

/// The placements of `records`, in their order.
pub open spec fn plan_of(records: Seq<RecordModel>, config: Config, surroundings: Surroundings)
    -> Seq<PlacementModel>
    decreases records.len(),
{
    if records.len() == 0 {
        seq![]
    } else {
        let before = plan_of(records.drop_last(), config, surroundings);
        match placement_of(records.last(), config, surroundings) {
            Some(p) => before.push(p),
            None => before,
        }
    }
}

/// The records of `s` in the order `p`.
pub open spec fn replayed(s: Seq<WindowRecord>, p: Seq<usize>) -> Seq<RecordModel> {
    Seq::new(p.len(), |k: int| s[p[k] as int]@)
}

/// Nothing on the skip-list is ever planned, and every planned placement
/// spawns the launch command of a record, as its first word.
pub proof fn lemma_plan_respects_skip_list(
    records: Seq<RecordModel>,
    config: Config,
    surroundings: Surroundings,
)
    ensures
        forall|i: int|
            0 <= i < plan_of(records, config, surroundings).len() ==> {
                let p = #[trigger] plan_of(records, config, surroundings)[i];
                &&& !config.skips(p.launch_command)
                &&& p.command.len() > 0
                &&& p.command[0] == p.launch_command
                &&& exists|j: int|
                    0 <= j < records.len() && (#[trigger] records[j]).launch_command == Some(
                        p.launch_command,
                    )
            },
    decreases records.len(),
{
    if records.len() > 0 {
        let shorter = records.drop_last();
        lemma_plan_respects_skip_list(shorter, config, surroundings);
        let plan = plan_of(records, config, surroundings);
        let before = plan_of(shorter, config, surroundings);
        assert forall|i: int| 0 <= i < plan.len() implies {
            let p = #[trigger] plan[i];
            &&& !config.skips(p.launch_command)
            &&& p.command.len() > 0
            &&& p.command[0] == p.launch_command
            &&& exists|j: int|
                0 <= j < records.len() && (#[trigger] records[j]).launch_command == Some(
                    p.launch_command,
                )
        } by {
            if i < before.len() {
                let p = before[i];
                assert(plan[i] == p);
                let j = choose|j: int|
                    0 <= j < shorter.len() && (#[trigger] shorter[j]).launch_command == Some(
                        p.launch_command,
                    );
                assert(records[j] == shorter[j]);
            } else {
                assert(records[records.len() - 1] == records.last());
            }
        }
    }
}

/// A session has one restore plan.
pub proof fn lemma_restore_plan_unique(
    session: Seq<WindowRecord>,
    config: Config,
    surroundings: Surroundings,
    a: Seq<PlacementModel>,
    b: Seq<PlacementModel>,
)
    requires
        is_restore_plan(session, config, surroundings, a),
        is_restore_plan(session, config, surroundings, b),
    ensures
        a == b,
{
    let p = choose|p: Seq<usize>|
        is_replay_order(session, p) && a == plan_of(
            #[trigger] replayed(session, p),
            config,
            surroundings,
        );
    let q = choose|q: Seq<usize>|
        is_replay_order(session, q) && b == plan_of(
            #[trigger] replayed(session, q),
            config,
            surroundings,
        );
    lemma_replay_order_unique(session, p, q);
}

/// A restore never spawns what is on the skip-list: no placement of a
/// restore plan has a launch command that the configuration skips.
pub proof fn lemma_restore_plan_skips(
    session: Seq<WindowRecord>,
    config: Config,
    surroundings: Surroundings,
    plan: Seq<PlacementModel>,
)
    requires
        is_restore_plan(session, config, surroundings, plan),
    ensures
        forall|i: int| 0 <= i < plan.len() ==> !config.skips((#[trigger] plan[i]).launch_command),
        forall|i: int|
            0 <= i < plan.len() ==> exists|j: int|
                0 <= j < session.len() && (#[trigger] session[j])@.launch_command == Some(
                    (#[trigger] plan[i]).launch_command,
                ),
{
    let p = choose|p: Seq<usize>|
        is_replay_order(session, p) && plan == plan_of(
            #[trigger] replayed(session, p),
            config,
            surroundings,
        );
    let records = replayed(session, p);
    lemma_plan_respects_skip_list(records, config, surroundings);
    assert forall|i: int| 0 <= i < plan.len() implies exists|j: int|
        0 <= j < session.len() && (#[trigger] session[j])@.launch_command == Some(
            (#[trigger] plan[i]).launch_command,
        ) by {
        let k = choose|k: int|
            0 <= k < records.len() && (#[trigger] records[k]).launch_command == Some(
                plan[i].launch_command,
            );
        assert(records[k] == session[p[k] as int]@);
    }
}

/// Plans the placement of one record.
pub fn plan_record(record: &WindowRecord, config: &Config, surroundings: &Surroundings) -> (r:
    Option<Placement>)
    ensures
        match r {
            Some(p) => placement_of(record@, *config, *surroundings) == Some(p@),
            None => placement_of(record@, *config, *surroundings).is_none(),
        },
{
    let launch = match &record.launch_command {
        Some(l) => l,
        None => {
            return None;
        },
    };
    if config.is_skipped(launch.as_str()) {
        return None;
    }
    let app = match &record.app_id {
        Some(a) => a,
        None => {
            return None;
        },
    };
    let command = build_spawn_command(
        launch.as_str(),
        app.as_str(),
        as_text(&record.title),
        surroundings,
    );
    let target = match &record.workspace_name {
        Some(n) => Some(WorkspaceRef::Name(n.clone())),
        None => match record.workspace_idx {
            Some(i) => Some(WorkspaceRef::Index(i)),
            None => None,
        },
    };
    Some(
        Placement {
            launch_command: launch.clone(),
            command,
            app_id: app.clone(),
            target,
            output: clone_opt(&record.workspace_output),
            size: record.window_size,
        },
    )
}

/// Whether `plan` holds the placements of the records of `session`, taken in
/// the order of their replay.
pub open spec fn is_restore_plan(
    session: Seq<WindowRecord>,
    config: Config,
    surroundings: Surroundings,
    plan: Seq<PlacementModel>,
) -> bool {
    exists|p: Seq<usize>|
        is_replay_order(session, p) && plan == plan_of(
            #[trigger] replayed(session, p),
            config,
            surroundings,
        )
}

/// Plans a restore: the placements of the records of `session`, in the
/// order of their replay.
pub fn plan_restore(session: &Session, config: &Config, surroundings: &Surroundings) -> (r: Vec<
    Placement,
>)
    ensures
        is_restore_plan(session@, *config, *surroundings, placement_models(r@)),
{
    let order = replay_order(session);
    let mut plan: Vec<Placement> = Vec::new();
    let ghost records = replayed(session@, order@);
    let mut k: usize = 0;
    while k < order.len()
        invariant
            is_replay_order(session@, order@),
            records == replayed(session@, order@),
            k <= order@.len(),
            placement_models(plan@) =~= plan_of(records.take(k as int), *config, *surroundings),
        decreases order@.len() - k,
    {
        let planned = plan_record(&session[order[k]], config, surroundings);
        proof {
            assert(records.take(k + 1).drop_last() =~= records.take(k as int));
            assert(records.take(k + 1).last() == session@[order@[k as int] as int]@);
        }
        if let Some(p) = planned {
            plan.push(p);
        }
        k += 1;
    }
    proof {
        assert(records.take(k as int) =~= records);
    }
    plan
}

} // verus!
