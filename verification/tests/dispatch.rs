use chief::dispatch::{
    exit_line, launch_failure_line, outcome_of, request_for, status_line, step, ChildResult,
    DispatchAction, DispatchEvent, DispatchState, ExecutionOutcome, FailureCause, RunPolicy,
    SubprocessRequest, LAUNCH_FAILED_CODE, NO_STATUS_CODE,
};
use chief::resolver::{resolve, ResolvedCommand};

const COMMANDS: [ResolvedCommand; 7] = [
    ResolvedCommand::RunDev,
    ResolvedCommand::RunProd,
    ResolvedCommand::Test,
    ResolvedCommand::Build { release: false },
    ResolvedCommand::Build { release: true },
    ResolvedCommand::Clean,
    ResolvedCommand::Unrecognized,
];

fn cargo(args: &[&str]) -> SubprocessRequest {
    SubprocessRequest {
        program: "cargo".to_string(),
        args: args.iter().map(|a| a.to_string()).collect(),
        policy: RunPolicy::Foreground,
    }
}

fn dispatch(command: ResolvedCommand, child: ChildResult) -> (Vec<DispatchAction>, Option<ExecutionOutcome>, DispatchState) {
    let mut actions = Vec::new();
    let (mut state, action) = step(DispatchState::Idle, DispatchEvent::Submit { command });
    let spawned = matches!(action, DispatchAction::Spawn { .. });
    actions.push(action);
    if spawned {
        let (next, action) = step(state, DispatchEvent::Returned { child });
        state = next;
        actions.push(action);
    }
    let outcome = state.outcome();
    let (state, action) = step(state, DispatchEvent::Collect);
    actions.push(action);
    (actions, outcome, state)
}

#[test]
fn run_dev_watches() {
    assert_eq!(request_for(ResolvedCommand::RunDev), Some(cargo(&["watch", "-x", "run"])));
}

#[test]
fn run_prod_runs_the_release() {
    assert_eq!(request_for(ResolvedCommand::RunProd), Some(cargo(&["run", "--release"])));
}

#[test]
fn test_runs_the_tests() {
    assert_eq!(request_for(ResolvedCommand::Test), Some(cargo(&["test"])));
}

#[test]
fn build_builds() {
    assert_eq!(request_for(ResolvedCommand::Build { release: false }), Some(cargo(&["build"])));
    assert_eq!(
        request_for(ResolvedCommand::Build { release: true }),
        Some(cargo(&["build", "--release"]))
    );
}

#[test]
fn clean_cleans() {
    assert_eq!(request_for(ResolvedCommand::Clean), Some(cargo(&["clean"])));
}

#[test]
fn unrecognized_runs_nothing() {
    assert_eq!(request_for(ResolvedCommand::Unrecognized), None);
}

#[test]
fn status_lines() {
    assert_eq!(status_line(ResolvedCommand::RunDev), "Running the app in development mode...");
    assert_eq!(status_line(ResolvedCommand::RunProd), "Running your framework in production mode...");
    assert_eq!(status_line(ResolvedCommand::Test), "Running your tests...");
    assert_eq!(status_line(ResolvedCommand::Build { release: false }), "Building the application...");
    assert_eq!(
        status_line(ResolvedCommand::Build { release: true }),
        "Building the application in release mode..."
    );
    assert_eq!(status_line(ResolvedCommand::Clean), "Cleaning the project...");
    assert_eq!(status_line(ResolvedCommand::Unrecognized), "No valid command was provided.");
}

#[test]
fn launch_failure_lines() {
    assert_eq!(launch_failure_line(ResolvedCommand::RunDev), "Failed to execute cargo watch");
    assert_eq!(launch_failure_line(ResolvedCommand::RunProd), "Failed to execute cargo run");
    assert_eq!(launch_failure_line(ResolvedCommand::Test), "Failed to execute cargo test");
    assert_eq!(launch_failure_line(ResolvedCommand::Build { release: false }), "Failed to execute cargo build");
    assert_eq!(
        launch_failure_line(ResolvedCommand::Build { release: true }),
        "Failed to execute cargo build --release"
    );
    assert_eq!(launch_failure_line(ResolvedCommand::Clean), "Failed to execute cargo clean");
    assert_eq!(launch_failure_line(ResolvedCommand::Unrecognized), "Failed to execute cargo");
}

#[test]
fn exit_lines_name_the_code() {
    assert_eq!(exit_line(7), "Exited with code: 7");
    assert_eq!(exit_line(1), "Exited with code: 1");
    assert_eq!(exit_line(101), "Exited with code: 101");
    assert_eq!(exit_line(-1), "Exited with code: -1");
    assert_eq!(exit_line(0), "Exited with code: 0");
    assert_eq!(exit_line(i32::MAX), "Exited with code: 2147483647");
    assert_eq!(exit_line(i32::MIN), "Exited with code: -2147483648");
}

#[test]
fn outcome_of_a_child() {
    assert_eq!(outcome_of(ChildResult::Exited { code: 0 }), ExecutionOutcome::Success);
    assert_eq!(
        outcome_of(ChildResult::Exited { code: 7 }),
        ExecutionOutcome::Failure { code: 7, cause: FailureCause::NonZeroExit }
    );
    assert_eq!(
        outcome_of(ChildResult::Exited { code: -3 }),
        ExecutionOutcome::Failure { code: -3, cause: FailureCause::NonZeroExit }
    );
    assert_eq!(
        outcome_of(ChildResult::Killed),
        ExecutionOutcome::Failure { code: -1, cause: FailureCause::NonZeroExit }
    );
    assert_eq!(
        outcome_of(ChildResult::LaunchFailed),
        ExecutionOutcome::Failure { code: 101, cause: FailureCause::LaunchFailed }
    );
    assert_eq!(NO_STATUS_CODE, -1);
    assert_eq!(LAUNCH_FAILED_CODE, 101);
}

#[test]
fn exit_code_of_an_outcome() {
    assert_eq!(ExecutionOutcome::Success.exit_code(), 0);
    assert_eq!(ExecutionOutcome::Failure { code: 7, cause: FailureCause::NonZeroExit }.exit_code(), 7);
    assert_eq!(ExecutionOutcome::Failure { code: -1, cause: FailureCause::NonZeroExit }.exit_code(), -1);
    assert_eq!(ExecutionOutcome::Failure { code: 101, cause: FailureCause::LaunchFailed }.exit_code(), 101);
}

#[test]
fn submit_asks_for_the_status_line_and_the_child() {
    for command in COMMANDS {
        let (state, action) = step(DispatchState::Idle, DispatchEvent::Submit { command });
        match request_for(command) {
            Some(request) => {
                assert_eq!(state, DispatchState::Spawning { command });
                assert_eq!(action, DispatchAction::Spawn { line: status_line(command).to_string(), request });
            }
            None => {
                assert_eq!(command, ResolvedCommand::Unrecognized);
                assert_eq!(state, DispatchState::Succeeded);
                assert_eq!(
                    action,
                    DispatchAction::Announce { line: "No valid command was provided.".to_string() }
                );
            }
        }
    }
}

#[test]
fn successful_child_succeeds_quietly() {
    let state = DispatchState::Spawning { command: ResolvedCommand::Test };
    let (state, action) = step(state, DispatchEvent::Returned { child: ChildResult::Exited { code: 0 } });
    assert_eq!(state, DispatchState::Succeeded);
    assert_eq!(action, DispatchAction::Rest);
    assert_eq!(state.outcome(), Some(ExecutionOutcome::Success));
}

#[test]
fn exit_status_seven_is_propagated() {
    let (actions, outcome, state) = dispatch(ResolvedCommand::Test, ChildResult::Exited { code: 7 });
    assert_eq!(actions.len(), 3);
    assert_eq!(
        actions[0],
        DispatchAction::Spawn { line: "Running your tests...".to_string(), request: cargo(&["test"]) }
    );
    assert_eq!(actions[1], DispatchAction::Exit { line: "Exited with code: 7".to_string(), code: 7 });
    assert_eq!(actions[2], DispatchAction::Rest);
    let outcome = outcome.unwrap();
    assert_eq!(outcome, ExecutionOutcome::Failure { code: 7, cause: FailureCause::NonZeroExit });
    assert_eq!(outcome.exit_code(), 7);
    assert_eq!(state, DispatchState::Idle);
    match &actions[1] {
        DispatchAction::Exit { line, .. } => assert!(line.contains("7")),
        other => panic!("{:?}", other),
    }
}

#[test]
fn every_failing_status_is_propagated() {
    for command in COMMANDS {
        for code in [1, 2, 7, 101, 255, 256, -1, -7, i32::MAX, i32::MIN] {
            let state = DispatchState::Spawning { command };
            let (state, action) = step(state, DispatchEvent::Returned { child: ChildResult::Exited { code } });
            assert_eq!(state, DispatchState::Failed { code, cause: FailureCause::NonZeroExit });
            assert_eq!(action, DispatchAction::Exit { line: format!("Exited with code: {}", code), code });
            assert_eq!(state.outcome().unwrap().exit_code(), code);
        }
    }
}

#[test]
fn killed_child_fails_with_the_sentinel() {
    let (actions, outcome, _) = dispatch(ResolvedCommand::RunDev, ChildResult::Killed);
    assert_eq!(actions[1], DispatchAction::Exit { line: "Exited with code: -1".to_string(), code: -1 });
    assert_eq!(outcome, Some(ExecutionOutcome::Failure { code: -1, cause: FailureCause::NonZeroExit }));
}

#[test]
fn failed_launch_aborts() {
    let (actions, outcome, state) = dispatch(ResolvedCommand::Build { release: true }, ChildResult::LaunchFailed);
    assert_eq!(
        actions[1],
        DispatchAction::Abort { line: "Failed to execute cargo build --release".to_string() }
    );
    assert_eq!(outcome, Some(ExecutionOutcome::Failure { code: 101, cause: FailureCause::LaunchFailed }));
    assert_eq!(state, DispatchState::Idle);
}

#[test]
fn clean_twice_succeeds_twice() {
    let exited = ChildResult::Exited { code: 0 };
    let first = dispatch(ResolvedCommand::Clean, exited);
    let second = dispatch(ResolvedCommand::Clean, exited);
    assert_eq!(first.1, Some(ExecutionOutcome::Success));
    assert_eq!(second.1, Some(ExecutionOutcome::Success));
    assert_eq!(first.2, DispatchState::Idle);
    assert_eq!(second.2, DispatchState::Idle);
    assert_eq!(first.0, second.0);
    assert_eq!(
        first.0,
        vec![
            DispatchAction::Spawn { line: "Cleaning the project...".to_string(), request: cargo(&["clean"]) },
            DispatchAction::Rest,
            DispatchAction::Rest,
        ]
    );
}

#[test]
fn a_failure_leaves_nothing_behind() {
    let failed = dispatch(ResolvedCommand::Clean, ChildResult::Exited { code: 7 });
    assert_eq!(failed.2, DispatchState::Idle);
    let after = dispatch(ResolvedCommand::Clean, ChildResult::Exited { code: 0 });
    let fresh = dispatch(ResolvedCommand::Clean, ChildResult::Exited { code: 0 });
    assert_eq!(after, fresh);
    assert_eq!(after.1, Some(ExecutionOutcome::Success));
}

#[test]
fn unrecognized_input_is_answered_on_standard_output_and_exits_zero() {
    for words in [vec![], vec!["nothing"], vec!["run"], vec!["run", "fast"], vec!["test", "x"]] {
        let tokens: Vec<String> = words.iter().map(|w| w.to_string()).collect();
        let command = resolve(&tokens);
        assert_eq!(command, ResolvedCommand::Unrecognized);
        for child in [ChildResult::LaunchFailed, ChildResult::Killed, ChildResult::Exited { code: 7 }] {
            let (actions, outcome, state) = dispatch(command, child);
            assert_eq!(
                actions,
                vec![
                    DispatchAction::Announce { line: "No valid command was provided.".to_string() },
                    DispatchAction::Rest,
                ]
            );
            assert_eq!(outcome, Some(ExecutionOutcome::Success));
            assert_eq!(outcome.unwrap().exit_code(), 0);
            assert_eq!(state, DispatchState::Idle);
        }
    }
}

#[test]
fn events_out_of_turn_change_nothing() {
    let child = ChildResult::Exited { code: 7 };
    let submit = DispatchEvent::Submit { command: ResolvedCommand::Clean };
    let returned = DispatchEvent::Returned { child };
    let spawning = DispatchState::Spawning { command: ResolvedCommand::Test };
    let failed = DispatchState::Failed { code: 7, cause: FailureCause::NonZeroExit };
    for (state, event) in [
        (DispatchState::Idle, returned),
        (DispatchState::Idle, DispatchEvent::Collect),
        (spawning, submit),
        (spawning, DispatchEvent::Collect),
        (DispatchState::Succeeded, submit),
        (DispatchState::Succeeded, returned),
        (failed, submit),
        (failed, returned),
    ] {
        assert_eq!(step(state, event), (state, DispatchAction::Rest), "{:?} {:?}", state, event);
    }
}

#[test]
fn outcome_is_there_only_after_a_dispatch() {
    assert_eq!(DispatchState::Idle.outcome(), None);
    assert_eq!(DispatchState::Spawning { command: ResolvedCommand::Clean }.outcome(), None);
    assert_eq!(DispatchState::Succeeded.outcome(), Some(ExecutionOutcome::Success));
    assert_eq!(
        DispatchState::Failed { code: 3, cause: FailureCause::NonZeroExit }.outcome(),
        Some(ExecutionOutcome::Failure { code: 3, cause: FailureCause::NonZeroExit })
    );
}

#[test]
fn collect_returns_to_idle() {
    assert_eq!(
        step(DispatchState::Succeeded, DispatchEvent::Collect),
        (DispatchState::Idle, DispatchAction::Rest)
    );
    assert_eq!(
        step(DispatchState::Failed { code: 7, cause: FailureCause::NonZeroExit }, DispatchEvent::Collect),
        (DispatchState::Idle, DispatchAction::Rest)
    );
}
