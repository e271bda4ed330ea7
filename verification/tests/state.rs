use komofake::config::{Config, Monitor, Workspace};
use komofake::error::Error;
use komofake::live::{LiveState, MonitorState};
use komofake::offset::Offset;
use komofake::policy::{ResolvedPolicy, Rule};
use komofake::snapshot::{MonitorSnapshot, StateSnapshot, WorkspaceState};
use komofake::state::{handle_state, initialize_app_state, should_update, AppState, OffsetUpdate};

fn margins(value: i32) -> Offset {
    Offset { left: value, top: value, right: value, bottom: value }
}

fn windows(window_count: usize) -> WorkspaceState {
    WorkspaceState { window_count, monocle_active: false }
}

fn monocle(window_count: usize) -> WorkspaceState {
    WorkspaceState { window_count, monocle_active: true }
}

fn monitor(focused_workspace: usize, workspaces: Vec<WorkspaceState>) -> MonitorSnapshot {
    MonitorSnapshot { focused_workspace, workspaces }
}

fn snapshot(monitors: Vec<MonitorSnapshot>) -> StateSnapshot {
    StateSnapshot { monitors }
}

fn plain_monitor() -> Monitor {
    Monitor { workspaces: None, rules: None, default: None, monocle: None }
}

fn plain_workspace() -> Workspace {
    Workspace { rules: None, default: None, monocle: None }
}

/// One rule on the only monitor, a monitor default and a global default.
fn small_config(offset_delay: Option<usize>) -> Config {
    Config {
        monitors: vec![Monitor {
            rules: Some(vec![Rule { count: 1, padding: margins(10) }]),
            default: Some(margins(5)),
            ..plain_monitor()
        }],
        rules: None,
        default: margins(0),
        monocle: None,
        offset_delay,
    }
}

/// Two monitors; the second has per-workspace overrides and a monocle offset.
fn wide_config() -> Config {
    Config {
        monitors: vec![
            Monitor { default: Some(margins(1)), ..plain_monitor() },
            Monitor {
                workspaces: Some(vec![
                    Workspace { default: Some(margins(20)), ..plain_workspace() },
                    Workspace { default: Some(margins(21)), ..plain_workspace() },
                ]),
                monocle: Some(margins(29)),
                ..plain_monitor()
            },
        ],
        rules: Some(vec![Rule { count: 2, padding: margins(7) }]),
        default: margins(0),
        monocle: None,
        offset_delay: Some(150),
    }
}

fn wide_snapshot(first: usize, second_focus: usize, second: [WorkspaceState; 2]) -> StateSnapshot {
    snapshot(vec![monitor(0, vec![windows(first)]), monitor(second_focus, second.to_vec())])
}

fn update(monitor_index: usize, value: i32) -> OffsetUpdate {
    OffsetUpdate { monitor_index, offset: margins(value) }
}

#[test]
fn a_new_state_is_empty() {
    let state = AppState::new();
    assert_eq!(state.live().monitor_count(), 0);
    assert_eq!(state.policies().rows.len(), 0);
    assert_eq!(state.offset_changes(), 0);
    assert_eq!(state.offset_delay(), 0);
    assert_eq!(state.plan_updates(), vec![]);
    assert_eq!(state.desired_offset(0), None);
    assert_eq!(LiveState::new().monitor_count(), 0);
}

#[test]
fn initialization_resolves_policies_and_mirrors_the_snapshot() {
    let first = wide_snapshot(3, 1, [windows(0), monocle(4)]);
    let state = initialize_app_state(&wide_config(), &first).unwrap();
    let rules = vec![Rule { count: 2, padding: margins(7) }];
    assert_eq!(
        state.policies().rows,
        vec![
            vec![ResolvedPolicy { rules: rules.clone(), default: margins(1), monocle: None }],
            vec![
                ResolvedPolicy {
                    rules: rules.clone(),
                    default: margins(20),
                    monocle: Some(margins(29)),
                },
                ResolvedPolicy {
                    rules: rules.clone(),
                    default: margins(21),
                    monocle: Some(margins(29)),
                },
            ],
        ]
    );
    assert_eq!(state.live().monitor_count(), 2);
    assert_eq!(
        state.live().monitor(0),
        Some(&MonitorState {
            focused_workspace: 0,
            workspaces: vec![windows(3)],
            last_applied: None,
        })
    );
    assert_eq!(
        state.live().monitor(1),
        Some(&MonitorState {
            focused_workspace: 1,
            workspaces: vec![windows(0), monocle(4)],
            last_applied: None,
        })
    );
    assert_eq!(state.live().monitor(2), None);
    assert_eq!(state.offset_changes(), 0);
    assert_eq!(state.offset_delay(), 150);
}

#[test]
fn a_missing_delay_disables_retiling() {
    let first = snapshot(vec![monitor(0, vec![windows(1)])]);
    let state = initialize_app_state(&small_config(None), &first).unwrap();
    assert_eq!(state.offset_delay(), 0);
}

#[test]
fn initialization_fails_without_a_monitor_entry() {
    let first = snapshot(vec![monitor(0, vec![windows(1)]), monitor(0, vec![windows(1)])]);
    assert_eq!(
        initialize_app_state(&small_config(None), &first),
        Err(Error::MissingMonitor { monitor_index: 1 })
    );
}

#[test]
fn initialization_fails_without_a_workspace_entry() {
    let first = wide_snapshot(3, 0, [windows(0), windows(0)]);
    let mut config = wide_config();
    config.monitors[1].workspaces = Some(vec![plain_workspace()]);
    assert_eq!(
        initialize_app_state(&config, &first),
        Err(Error::MissingWorkspace { monitor_index: 1, workspace_index: 1 })
    );
}

#[test]
fn initialization_rejects_a_focus_outside_the_workspaces() {
    let first =
        snapshot(vec![monitor(0, vec![windows(1)]), monitor(2, vec![windows(0), windows(0)])]);
    assert_eq!(
        initialize_app_state(&wide_config(), &first),
        Err(Error::InvalidFocus { monitor_index: 1 })
    );
    let no_workspaces = snapshot(vec![monitor(0, vec![])]);
    assert_eq!(
        initialize_app_state(&small_config(None), &no_workspaces),
        Err(Error::InvalidFocus { monitor_index: 0 })
    );
    assert_eq!(
        LiveState::apply_snapshot(&no_workspaces),
        Err(Error::InvalidFocus { monitor_index: 0 })
    );
}

#[test]
fn a_configuration_fault_is_reported_before_a_focus_fault() {
    let first = snapshot(vec![monitor(5, vec![windows(1)]), monitor(0, vec![windows(1)])]);
    assert_eq!(
        initialize_app_state(&small_config(None), &first),
        Err(Error::MissingMonitor { monitor_index: 1 })
    );
}

#[test]
fn apply_snapshot_starts_with_nothing_applied() {
    let first = wide_snapshot(3, 1, [windows(0), monocle(4)]);
    let live = LiveState::apply_snapshot(&first).unwrap();
    assert_eq!(live.monitor_count(), 2);
    assert!(live.has_topology_of(&first));
    for index in 0..2 {
        let monitor = live.monitor(index).unwrap();
        assert_eq!(monitor.focused_workspace, first.monitors[index].focused_workspace);
        assert_eq!(monitor.workspaces, first.monitors[index].workspaces);
        assert_eq!(monitor.last_applied, None);
    }
}

#[test]
fn apply_event_takes_over_counts_focus_and_monocle() {
    let first = wide_snapshot(3, 1, [windows(0), monocle(4)]);
    let mut live = LiveState::apply_snapshot(&first).unwrap();
    assert_eq!(live.record_applied(1, margins(29)), Ok(()));
    let next = wide_snapshot(8, 0, [monocle(2), windows(5)]);
    assert_eq!(live.apply_event(&next), Ok(()));
    assert_eq!(
        live.monitor(0),
        Some(&MonitorState {
            focused_workspace: 0,
            workspaces: vec![windows(8)],
            last_applied: None,
        })
    );
    assert_eq!(
        live.monitor(1),
        Some(&MonitorState {
            focused_workspace: 0,
            workspaces: vec![monocle(2), windows(5)],
            last_applied: Some(margins(29)),
        })
    );
}

#[test]
fn apply_event_is_idempotent() {
    let first = wide_snapshot(3, 1, [windows(0), monocle(4)]);
    let next = wide_snapshot(8, 0, [monocle(2), windows(5)]);
    let mut once = LiveState::apply_snapshot(&first).unwrap();
    let mut twice = LiveState::apply_snapshot(&first).unwrap();
    assert_eq!(once.apply_event(&next), Ok(()));
    assert_eq!(twice.apply_event(&next), Ok(()));
    assert_eq!(twice.apply_event(&next), Ok(()));
    assert_eq!(once, twice);
    let mut unchanged = LiveState::apply_snapshot(&first).unwrap();
    assert_eq!(unchanged.apply_event(&first), Ok(()));
    assert_eq!(unchanged, LiveState::apply_snapshot(&first).unwrap());
}

#[test]
fn apply_event_rejects_another_topology() {
    let first = wide_snapshot(3, 1, [windows(0), monocle(4)]);
    let mut state = initialize_app_state(&wide_config(), &first).unwrap();
    let fewer_monitors = snapshot(vec![monitor(0, vec![windows(3)])]);
    let more_monitors = snapshot(vec![
        monitor(0, vec![windows(3)]),
        monitor(1, vec![windows(0), windows(4)]),
        monitor(0, vec![windows(1)]),
    ]);
    let fewer_workspaces =
        snapshot(vec![monitor(0, vec![windows(3)]), monitor(0, vec![windows(0)])]);
    let more_workspaces = snapshot(vec![
        monitor(0, vec![windows(3), windows(1)]),
        monitor(1, vec![windows(0), windows(4)]),
    ]);
    for other in [fewer_monitors, more_monitors, fewer_workspaces, more_workspaces] {
        assert!(!state.live().has_topology_of(&other));
        assert_eq!(state.apply_event(&other), Err(Error::TopologyChanged));
        assert_eq!(handle_state(&other, &mut state), Err(Error::TopologyChanged));
        assert_eq!(state, initialize_app_state(&wide_config(), &first).unwrap());
    }
}

#[test]
fn apply_event_rejects_a_focus_outside_the_workspaces() {
    let first = wide_snapshot(3, 1, [windows(0), monocle(4)]);
    let mut state = initialize_app_state(&wide_config(), &first).unwrap();
    let bad_focus = wide_snapshot(9, 2, [windows(9), windows(9)]);
    assert_eq!(state.apply_event(&bad_focus), Err(Error::InvalidFocus { monitor_index: 1 }));
    assert_eq!(handle_state(&bad_focus, &mut state), Err(Error::InvalidFocus { monitor_index: 1 }));
    assert_eq!(state, initialize_app_state(&wide_config(), &first).unwrap());
    assert_eq!(bad_focus.validate(), Err(Error::InvalidFocus { monitor_index: 1 }));
    assert_eq!(first.validate(), Ok(()));
}

#[test]
fn topology_is_checked_before_focus() {
    let first = wide_snapshot(3, 1, [windows(0), monocle(4)]);
    let mut state = initialize_app_state(&wide_config(), &first).unwrap();
    let other = snapshot(vec![monitor(7, vec![windows(3)])]);
    assert_eq!(state.apply_event(&other), Err(Error::TopologyChanged));
}

#[test]
fn workspace_counts_give_the_topology() {
    let first = wide_snapshot(3, 1, [windows(0), monocle(4)]);
    assert_eq!(first.workspace_counts(), vec![1, 2]);
    assert_eq!(snapshot(vec![]).workspace_counts(), vec![]);
    assert_eq!(snapshot(vec![monitor(0, vec![])]).workspace_counts(), vec![0]);
}

#[test]
fn the_focused_workspace_decides_the_desired_offset() {
    let first = wide_snapshot(3, 1, [windows(0), windows(4)]);
    let mut state = initialize_app_state(&wide_config(), &first).unwrap();
    assert_eq!(state.desired_offset(0), Some(margins(1)));
    assert_eq!(state.desired_offset(1), Some(margins(21)));
    assert_eq!(state.desired_offset(2), None);
    let next = wide_snapshot(2, 0, [windows(0), windows(4)]);
    assert_eq!(state.apply_event(&next), Ok(()));
    assert_eq!(state.desired_offset(0), Some(margins(7)));
    assert_eq!(state.desired_offset(1), Some(margins(7)));
    let next = wide_snapshot(2, 0, [windows(3), windows(1)]);
    assert_eq!(state.apply_event(&next), Ok(()));
    assert_eq!(state.desired_offset(1), Some(margins(20)));
}

#[test]
fn only_the_focused_workspace_monocle_counts() {
    let first = wide_snapshot(3, 0, [windows(3), monocle(3)]);
    let mut state = initialize_app_state(&wide_config(), &first).unwrap();
    assert_eq!(state.desired_offset(1), Some(margins(20)));
    let next = wide_snapshot(3, 1, [windows(3), monocle(3)]);
    assert_eq!(state.apply_event(&next), Ok(()));
    assert_eq!(state.desired_offset(1), Some(margins(29)));
    let next = wide_snapshot(3, 1, [monocle(3), windows(3)]);
    assert_eq!(state.apply_event(&next), Ok(()));
    assert_eq!(state.desired_offset(1), Some(margins(21)));
}

#[test]
fn monocle_on_a_monitor_without_monocle_offset_changes_nothing() {
    let first = snapshot(vec![monitor(0, vec![monocle(1)])]);
    let state = initialize_app_state(&small_config(None), &first).unwrap();
    assert_eq!(state.desired_offset(0), Some(margins(10)));
}

#[test]
fn should_update_compares_with_the_last_applied_offset() {
    assert!(should_update(None, margins(0)));
    assert!(should_update(Some(margins(1)), margins(0)));
    assert!(should_update(Some(Offset { left: 0, top: 0, right: 0, bottom: 1 }), margins(0)));
    assert!(!should_update(Some(margins(0)), margins(0)));
}

#[test]
fn the_same_desired_offset_is_sent_once() {
    let first = snapshot(vec![monitor(0, vec![windows(1)])]);
    let mut state = initialize_app_state(&small_config(Some(100)), &first).unwrap();
    assert_eq!(state.pending_update(0), Some(update(0, 10)));
    assert_eq!(state.plan_updates(), vec![update(0, 10)]);
    assert_eq!(state.confirm_update(update(0, 10)), Ok(true));
    assert_eq!(state.pending_update(0), None);
    assert_eq!(state.plan_updates(), vec![]);
    assert_eq!(handle_state(&first, &mut state), Ok(vec![]));
    assert_eq!(state.offset_changes(), 1);
}

#[test]
fn an_unconfirmed_update_stays_due() {
    let first = snapshot(vec![monitor(0, vec![windows(1)])]);
    let mut state = initialize_app_state(&small_config(Some(100)), &first).unwrap();
    assert_eq!(handle_state(&first, &mut state), Ok(vec![update(0, 10)]));
    assert_eq!(handle_state(&first, &mut state), Ok(vec![update(0, 10)]));
    assert_eq!(state.live().monitor(0).unwrap().last_applied, None);
    assert_eq!(state.offset_changes(), 0);
}

#[test]
fn offsets_follow_the_window_count_from_start_to_steady_state() {
    let config = small_config(Some(100));
    let one_window = snapshot(vec![monitor(0, vec![windows(1)])]);
    let two_windows = snapshot(vec![monitor(0, vec![windows(2)])]);
    let mut state = initialize_app_state(&config, &one_window).unwrap();

    let updates = handle_state(&one_window, &mut state).unwrap();
    assert_eq!(updates, vec![update(0, 10)]);
    assert_eq!(state.confirm_update(updates[0]), Ok(true));

    let updates = handle_state(&two_windows, &mut state).unwrap();
    assert_eq!(updates, vec![update(0, 5)]);
    assert_eq!(state.confirm_update(updates[0]), Ok(true));

    let updates = handle_state(&two_windows, &mut state).unwrap();
    assert_eq!(updates, vec![]);
    assert_eq!(state.offset_changes(), 2);
    assert_eq!(state.live().monitor(0).unwrap().last_applied, Some(margins(5)));
}

#[test]
fn updates_come_in_monitor_order_for_the_monitors_that_changed() {
    let first = wide_snapshot(3, 1, [windows(0), windows(4)]);
    let mut state = initialize_app_state(&wide_config(), &first).unwrap();
    let updates = handle_state(&first, &mut state).unwrap();
    assert_eq!(updates, vec![update(0, 1), update(1, 21)]);
    for due in updates {
        assert_eq!(state.confirm_update(due), Ok(true));
    }
    let next = wide_snapshot(3, 0, [windows(0), windows(4)]);
    assert_eq!(handle_state(&next, &mut state), Ok(vec![update(1, 7)]));
    assert_eq!(state.confirm_update(update(1, 7)), Ok(true));
    let next = wide_snapshot(1, 0, [windows(1), windows(4)]);
    assert_eq!(handle_state(&next, &mut state), Ok(vec![update(0, 7)]));
    assert_eq!(state.pending_update(1), None);
    assert_eq!(state.offset_changes(), 3);
}

#[test]
fn confirming_records_the_offset_and_counts_the_change() {
    let first = wide_snapshot(3, 1, [windows(0), windows(4)]);
    let mut state = initialize_app_state(&wide_config(), &first).unwrap();
    assert_eq!(state.confirm_update(update(1, 42)), Ok(true));
    assert_eq!(state.offset_changes(), 1);
    assert_eq!(state.live().monitor(0).unwrap().last_applied, None);
    assert_eq!(state.live().monitor(1).unwrap().last_applied, Some(margins(42)));
    assert_eq!(state.live().monitor(1).unwrap().workspaces, vec![windows(0), windows(4)]);
    assert_eq!(state.pending_update(1), Some(update(1, 21)));
    assert_eq!(state.policies(), initialize_app_state(&wide_config(), &first).unwrap().policies());
}

#[test]
fn confirming_asks_for_a_signal_only_with_a_delay() {
    let first = snapshot(vec![monitor(0, vec![windows(1)])]);
    let mut with_delay = initialize_app_state(&small_config(Some(1)), &first).unwrap();
    assert_eq!(with_delay.confirm_update(update(0, 10)), Ok(true));
    let mut zero_delay = initialize_app_state(&small_config(Some(0)), &first).unwrap();
    assert_eq!(zero_delay.confirm_update(update(0, 10)), Ok(false));
    assert_eq!(zero_delay.offset_changes(), 1);
    let mut no_delay = initialize_app_state(&small_config(None), &first).unwrap();
    assert_eq!(no_delay.confirm_update(update(0, 10)), Ok(false));
    assert_eq!(no_delay.live().monitor(0).unwrap().last_applied, Some(margins(10)));
}

#[test]
fn confirming_for_an_unknown_monitor_changes_nothing() {
    let first = snapshot(vec![monitor(0, vec![windows(1)])]);
    let mut state = initialize_app_state(&small_config(Some(100)), &first).unwrap();
    assert_eq!(
        state.confirm_update(update(1, 10)),
        Err(Error::UnknownMonitor { monitor_index: 1 })
    );
    assert_eq!(state, initialize_app_state(&small_config(Some(100)), &first).unwrap());
    let mut live = LiveState::new();
    assert_eq!(
        live.record_applied(0, margins(1)),
        Err(Error::UnknownMonitor { monitor_index: 0 })
    );
}
