use nirinit::command::Surroundings;
use nirinit::model::{Config, LiveWindow, NiriError, WindowRecord};
use nirinit::plan::{Placement, WorkspaceRef};
use nirinit::restorer::{
    find_fresh_window, open_restore, Action, Event, Opening, Outcome, Phase, Restorer,
    SnapshotFile, POLL_INTERVAL_MS, POLL_LIMIT,
};

fn placement(app: &str, target: Option<WorkspaceRef>, output: Option<&str>, size: Option<(i32, i32)>) -> Placement {
    Placement {
        launch_command: String::from(app),
        command: vec![String::from(app), String::from("--flag")],
        app_id: String::from(app),
        target,
        output: output.map(String::from),
        size,
    }
}

fn window(id: u64, app_id: Option<&str>) -> LiveWindow {
    LiveWindow {
        id,
        title: None,
        app_id: app_id.map(String::from),
        workspace_id: None,
        is_focused: false,
        size: None,
    }
}

fn listing(windows: &[(u64, &str)]) -> Event {
    Event::Windows(windows.iter().map(|(id, app)| window(*id, Some(app))).collect())
}

#[test]
fn constants_of_the_protocol() {
    assert_eq!(POLL_LIMIT, 20);
    assert_eq!(POLL_INTERVAL_MS, 250);
}

#[test]
fn missing_snapshot_bootstraps() {
    let surroundings = Surroundings { home: None, hostname: None, browser_workspaces: Vec::new() };
    let opening = open_restore(SnapshotFile::Missing, &Config::new(), &surroundings);
    assert_eq!(opening, Opening::Bootstrap);
}

#[test]
fn empty_snapshot_restores_nothing() {
    let surroundings = Surroundings { home: None, hostname: None, browser_workspaces: Vec::new() };
    let opening = open_restore(SnapshotFile::Empty, &Config::new(), &surroundings);
    assert_eq!(opening, Opening::Nothing);
}

#[test]
fn loaded_snapshot_is_replayed() {
    let surroundings = Surroundings { home: None, hostname: None, browser_workspaces: Vec::new() };
    let session = vec![WindowRecord {
        id: 9,
        app_id: Some(String::from("foot")),
        title: None,
        launch_command: Some(String::from("footclient")),
        workspace_idx: Some(1),
        workspace_name: None,
        workspace_output: None,
        is_focused: false,
        window_size: None,
    }];
    let opening = open_restore(SnapshotFile::Loaded(session), &Config::new(), &surroundings);
    assert_eq!(
        opening,
        Opening::Replay(vec![Placement {
            launch_command: String::from("footclient"),
            command: vec![String::from("footclient")],
            app_id: String::from("foot"),
            target: Some(WorkspaceRef::Index(1)),
            output: None,
            size: None,
        }])
    );
    let empty = open_restore(SnapshotFile::Loaded(Vec::new()), &Config::new(), &surroundings);
    assert_eq!(empty, Opening::Replay(Vec::new()));
}

#[test]
fn empty_plan_is_done_at_once() {
    let (machine, action) = Restorer::start(Vec::new());
    assert_eq!(action, Action::Done);
    assert!(machine.is_over());
    assert_eq!(machine.phase, Phase::Finished);
}

#[test]
fn full_placement_runs_every_step() {
    let plan = vec![placement("foot", Some(WorkspaceRef::Name(String::from("term"))), Some("DP-1"), Some((800, 600)))];
    let (mut m, action) = Restorer::start(plan);
    assert_eq!(action, Action::ListWindows);
    let action = m.step(listing(&[(5, "foot"), (6, "firefox")]));
    assert_eq!(action, Action::Spawn(vec![String::from("foot"), String::from("--flag")]));
    assert_eq!(m.known, vec![5, 6]);
    let action = m.step(Event::Handled);
    assert_eq!(action, Action::Poll);
    let action = m.step(listing(&[(5, "foot"), (6, "firefox")]));
    assert_eq!(action, Action::Poll);
    let action = m.step(listing(&[(5, "foot"), (7, "firefox"), (8, "foot"), (9, "foot")]));
    assert_eq!(action, Action::MoveToOutput { window: 8, output: String::from("DP-1") });
    let action = m.step(Event::Handled);
    assert_eq!(
        action,
        Action::MoveToWorkspace { window: 8, target: WorkspaceRef::Name(String::from("term")) }
    );
    let action = m.step(Event::Handled);
    assert_eq!(action, Action::SetWidth { window: 8, width: 800 });
    let action = m.step(Event::Handled);
    assert_eq!(action, Action::SetHeight { window: 8, height: 600 });
    let action = m.step(Event::Handled);
    assert_eq!(action, Action::Done);
    assert!(m.is_over());
    assert_eq!(m.outcomes, vec![Outcome::Placed]);
    assert_eq!(m.step(Event::Handled), Action::Done);
}

#[test]
fn window_that_existed_before_is_never_taken() {
    let known = [5u64, 6];
    let windows = vec![window(5, Some("foot")), window(6, Some("foot"))];
    assert_eq!(find_fresh_window(&windows, "foot", &known), None);
    let windows = vec![window(5, Some("foot")), window(7, None), window(8, Some("foot"))];
    assert_eq!(find_fresh_window(&windows, "foot", &known), Some(8));
    assert_eq!(find_fresh_window(&windows, "foot", &[]), Some(5));
    assert_eq!(find_fresh_window(&windows, "Foot", &[]), None);
}

#[test]
fn placement_gives_up_after_exactly_twenty_polls() {
    let plan = vec![
        placement("ghost", Some(WorkspaceRef::Index(1)), None, None),
        placement("foot", Some(WorkspaceRef::Index(2)), None, None),
    ];
    let (mut m, _) = Restorer::start(plan);
    m.step(listing(&[(1, "ghost")]));
    let mut polls = 0;
    let mut action = m.step(Event::Handled);
    while action == Action::Poll {
        polls += 1;
        assert_eq!(m.phase, Phase::Waiting);
        assert_eq!(m.current, 0);
        action = m.step(listing(&[(1, "ghost"), (2, "other")]));
    }
    assert_eq!(polls, 20);
    assert_eq!(action, Action::ListWindows);
    assert_eq!(m.outcomes, vec![Outcome::TimedOut]);
    assert_eq!(m.current, 1);
    assert!(!m.is_over());
}

#[test]
fn spawn_that_is_refused_is_passed_over() {
    let plan = vec![
        placement("a", Some(WorkspaceRef::Index(1)), None, None),
        placement("b", Some(WorkspaceRef::Index(1)), None, None),
    ];
    let (mut m, _) = Restorer::start(plan);
    m.step(listing(&[]));
    let action = m.step(Event::Failed(NiriError::Reply(String::from("no such program"))));
    assert_eq!(action, Action::ListWindows);
    assert_eq!(m.outcomes, vec![Outcome::SpawnRefused]);
    m.step(listing(&[]));
    let action = m.step(Event::Windows(Vec::new()));
    assert_eq!(action, Action::Done);
    assert_eq!(m.outcomes, vec![Outcome::SpawnRefused, Outcome::SpawnRefused]);
}

#[test]
fn spawn_that_cannot_be_sent_aborts() {
    let (mut m, action) = Restorer::start(vec![placement("a", None, None, None)]);
    assert_eq!(action, Action::Spawn(vec![String::from("a"), String::from("--flag")]));
    let action = m.step(Event::Failed(NiriError::Send(String::from("broken pipe"))));
    assert_eq!(action, Action::Abort(NiriError::Send(String::from("broken pipe"))));
    assert!(m.is_over());
    assert_eq!(m.phase, Phase::Failed);
    assert_eq!(m.step(Event::Handled), Action::Abort(NiriError::unexpected()));
}

#[test]
fn listing_that_fails_aborts() {
    let (mut m, _) = Restorer::start(vec![placement("a", Some(WorkspaceRef::Index(1)), None, None)]);
    let action = m.step(Event::Failed(NiriError::Connect(String::from("no socket"))));
    assert_eq!(action, Action::Abort(NiriError::Connect(String::from("no socket"))));

    let (mut m, _) = Restorer::start(vec![placement("a", Some(WorkspaceRef::Index(1)), None, None)]);
    m.step(listing(&[]));
    m.step(Event::Handled);
    let action = m.step(Event::Failed(NiriError::Reply(String::from("busy"))));
    assert_eq!(action, Action::Abort(NiriError::Reply(String::from("busy"))));

    let (mut m, _) = Restorer::start(vec![placement("a", Some(WorkspaceRef::Index(1)), None, None)]);
    assert_eq!(m.step(Event::Handled), Action::Abort(NiriError::unexpected()));
}

#[test]
fn untargeted_record_is_only_spawned() {
    let plan = vec![
        placement("a", None, Some("DP-1"), Some((1, 2))),
        placement("b", Some(WorkspaceRef::Index(1)), None, None),
        placement("c", None, None, None),
    ];
    let (mut m, action) = Restorer::start(plan);
    assert_eq!(action, Action::Spawn(vec![String::from("a"), String::from("--flag")]));
    assert_eq!(m.phase, Phase::Spawning);
    let action = m.step(Event::Handled);
    assert_eq!(action, Action::ListWindows);
    assert_eq!(m.outcomes, vec![Outcome::Untargeted]);
    m.step(listing(&[]));
    m.step(Event::Handled);
    m.step(listing(&[(1, "b")]));
    let action = m.step(Event::Handled);
    assert_eq!(action, Action::Spawn(vec![String::from("c"), String::from("--flag")]));
    let action = m.step(Event::Failed(NiriError::Reply(String::from("no"))));
    assert_eq!(action, Action::Done);
    assert_eq!(m.outcomes, vec![Outcome::Untargeted, Outcome::Placed, Outcome::SpawnRefused]);
}

#[test]
fn output_move_failure_does_not_stop_placement() {
    let plan = vec![placement("a", Some(WorkspaceRef::Index(3)), Some("DP-9"), None)];
    let (mut m, _) = Restorer::start(plan);
    m.step(listing(&[]));
    m.step(Event::Handled);
    let action = m.step(listing(&[(4, "a")]));
    assert_eq!(action, Action::MoveToOutput { window: 4, output: String::from("DP-9") });
    let action = m.step(Event::Failed(NiriError::Reply(String::from("no such output"))));
    assert_eq!(action, Action::MoveToWorkspace { window: 4, target: WorkspaceRef::Index(3) });
    let action = m.step(Event::Handled);
    assert_eq!(action, Action::Done);
    assert_eq!(m.outcomes, vec![Outcome::Placed]);
}

#[test]
fn workspace_move_failure_aborts_the_restore() {
    let plan = vec![
        placement("a", Some(WorkspaceRef::Index(3)), None, None),
        placement("b", Some(WorkspaceRef::Index(4)), None, None),
    ];
    let (mut m, _) = Restorer::start(plan);
    m.step(listing(&[]));
    m.step(Event::Handled);
    let action = m.step(listing(&[(4, "a")]));
    assert_eq!(action, Action::MoveToWorkspace { window: 4, target: WorkspaceRef::Index(3) });
    let action = m.step(Event::Failed(NiriError::Reply(String::from("denied"))));
    assert_eq!(action, Action::Abort(NiriError::Reply(String::from("denied"))));
    assert!(m.is_over());
    assert!(m.outcomes.is_empty());
    assert_eq!(m.current, 0);
}

#[test]
fn resize_failures_do_not_stop_placement() {
    let plan = vec![placement("a", Some(WorkspaceRef::Index(3)), None, Some((640, 480)))];
    let (mut m, _) = Restorer::start(plan);
    m.step(listing(&[]));
    m.step(Event::Handled);
    m.step(listing(&[(4, "a")]));
    let action = m.step(Event::Handled);
    assert_eq!(action, Action::SetWidth { window: 4, width: 640 });
    let action = m.step(Event::Failed(NiriError::Reply(String::from("no"))));
    assert_eq!(action, Action::SetHeight { window: 4, height: 480 });
    let action = m.step(Event::Failed(NiriError::Send(String::from("no"))));
    assert_eq!(action, Action::Done);
    assert_eq!(m.outcomes, vec![Outcome::Placed]);
}

#[test]
fn second_window_of_an_application_is_told_from_the_first() {
    let plan = vec![
        placement("foot", Some(WorkspaceRef::Index(1)), None, None),
        placement("foot", Some(WorkspaceRef::Index(2)), None, None),
    ];
    let (mut m, _) = Restorer::start(plan);
    m.step(listing(&[]));
    m.step(Event::Handled);
    let action = m.step(listing(&[(10, "foot")]));
    assert_eq!(action, Action::MoveToWorkspace { window: 10, target: WorkspaceRef::Index(1) });
    assert_eq!(m.step(Event::Handled), Action::ListWindows);
    m.step(listing(&[(10, "foot")]));
    m.step(Event::Handled);
    assert_eq!(m.step(listing(&[(10, "foot")])), Action::Poll);
    let action = m.step(listing(&[(10, "foot"), (11, "foot")]));
    assert_eq!(action, Action::MoveToWorkspace { window: 11, target: WorkspaceRef::Index(2) });
    assert_eq!(m.step(Event::Handled), Action::Done);
    assert_eq!(m.outcomes, vec![Outcome::Placed, Outcome::Placed]);
}

#[test]
fn restore_is_over_within_its_bound_of_steps() {
    let mut plan = Vec::new();
    for i in 0..5 {
        plan.push(placement("a", Some(WorkspaceRef::Index(i)), Some("DP-1"), Some((1, 2))));
        plan.push(placement("b", None, None, None));
    }
    let bound = plan.len() * (usize::from(POLL_LIMIT) + 12);
    let (mut m, mut action) = Restorer::start(plan);
    let mut steps = 0;
    while action != Action::Done {
        let event = match action {
            Action::ListWindows | Action::Poll => listing(&[(1, "a")]),
            _ => Event::Handled,
        };
        action = m.step(event);
        steps += 1;
        assert!(steps <= bound);
    }
    assert_eq!(m.outcomes.len(), 10);
    assert_eq!(m.outcomes[0], Outcome::TimedOut);
    assert_eq!(m.outcomes[1], Outcome::Untargeted);
    assert_eq!(steps, 5 * (2 + 20) + 5);
}
