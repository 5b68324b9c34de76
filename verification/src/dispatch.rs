//! From a resolved command to a build-tool invocation and back to an outcome.
//!
//! The dispatcher never runs anything itself. [`step`] takes the dispatcher's
//! state and an event and gives the next state and the one action that the
//! caller has to perform: print a line, run a child process in the foreground,
//! or leave with an exit code. The caller reports the child's fate back as the
//! next event.

use vstd::prelude::*;
use vstd::string::*;
use crate::resolver::ResolvedCommand;
use crate::text::{decimal, decimal_text, word};

verus! {

/// How a child process is run. There is one way: in the foreground, with the
/// caller's standard input, output and error streams, the caller blocked until
/// the child has exited.
#[derive(Debug, Clone, Copy, PartialEq, Eq, Structural)]
pub enum RunPolicy {
    Foreground,
}

/// One invocation of an external program.
#[derive(Debug, PartialEq, Eq)]
pub struct SubprocessRequest {
    pub program: String,
    pub args: Vec<String>,
    pub policy: RunPolicy,
}

/// Mathematical model of a [`SubprocessRequest`].
pub struct RequestView {
    pub program: Seq<char>,
    pub args: Seq<Seq<char>>,
    pub policy: RunPolicy,
}

impl View for SubprocessRequest {
    type V = RequestView;

    open spec fn view(&self) -> RequestView {
        RequestView { program: self.program@, args: self.args.deep_view(), policy: self.policy }
    }
}

/// Why a dispatch failed.
#[derive(Debug, Clone, Copy, PartialEq, Eq, Structural)]
pub enum FailureCause {
    /// The program could not be started at all.
    LaunchFailed,
    /// The program ran and ended with a status other than zero, or without one.
    NonZeroExit,
}

/// How a dispatch ended. A failure carries the exit code that the process
/// itself is to end with.
#[derive(Debug, Clone, Copy, PartialEq, Eq, Structural)]
pub enum ExecutionOutcome {
    Success,
    Failure { code: i32, cause: FailureCause },
}

/// What became of a child process that the caller was asked to run.
#[derive(Debug, Clone, Copy, PartialEq, Eq, Structural)]
pub enum ChildResult {
    /// It could not be started.
    LaunchFailed,
    /// It ran and exited with this status.
    Exited { code: i32 },
    /// It ran and was ended without reporting a status, as by a signal.
    Killed,
}

/// The exit code that stands for a child that reported none.
pub const NO_STATUS_CODE: i32 = -1;

/// The exit code of a process that gives up because the build tool could not
/// be started.
pub const LAUNCH_FAILED_CODE: i32 = 101;

/// The external build tool.
pub open spec fn build_tool() -> Seq<char> {
    "cargo"@
}

/// The arguments that the build tool is given for a command.
pub open spec fn tool_args(command: ResolvedCommand) -> Seq<Seq<char>> {
    match command {
        ResolvedCommand::RunDev => seq!["watch"@, "-x"@, "run"@],
        ResolvedCommand::RunProd => seq!["run"@, "--release"@],
        ResolvedCommand::Test => seq!["test"@],
        ResolvedCommand::Build { release } => if release {
            seq!["build"@, "--release"@]
        } else {
            seq!["build"@]
        },
        ResolvedCommand::Clean => seq!["clean"@],
        ResolvedCommand::Unrecognized => Seq::empty(),
    }
}

/// The invocation that a command stands for. An unrecognized command stands
/// for none.
pub open spec fn request_spec(command: ResolvedCommand) -> Option<RequestView> {
    match command {
        ResolvedCommand::Unrecognized => None,
        _ => Some(
            RequestView {
                program: build_tool(),
                args: tool_args(command),
                policy: RunPolicy::Foreground,
            },
        ),
    }
}

/// The line that is printed to standard output before a command is acted on.
pub open spec fn status_line_spec(command: ResolvedCommand) -> Seq<char> {
    match command {
        ResolvedCommand::RunDev => "Running the app in development mode..."@,
        ResolvedCommand::RunProd => "Running your framework in production mode..."@,
        ResolvedCommand::Test => "Running your tests..."@,
        ResolvedCommand::Build { release } => if release {
            "Building the application in release mode..."@
        } else {
            "Building the application..."@
        },
        ResolvedCommand::Clean => "Cleaning the project..."@,
        ResolvedCommand::Unrecognized => "No valid command was provided."@,
    }
}

/// The diagnostic for a build tool that could not be started.
pub open spec fn launch_failure_line_spec(command: ResolvedCommand) -> Seq<char> {
    match command {
        ResolvedCommand::RunDev => "Failed to execute cargo watch"@,
        ResolvedCommand::RunProd => "Failed to execute cargo run"@,
        ResolvedCommand::Test => "Failed to execute cargo test"@,
        ResolvedCommand::Build { release } => if release {
            "Failed to execute cargo build --release"@
        } else {
            "Failed to execute cargo build"@
        },
        ResolvedCommand::Clean => "Failed to execute cargo clean"@,
        ResolvedCommand::Unrecognized => "Failed to execute cargo"@,
    }
}

/// The diagnostic for a child that ended in failure: a fixed prefix and the
/// decimal text of the code.
pub open spec fn exit_line_spec(code: int) -> Seq<char> {
    "Exited with code: "@ + decimal(code)
}

/// How a dispatch ended, given what became of the child.
pub open spec fn outcome_spec(child: ChildResult) -> ExecutionOutcome {
    match child {
        ChildResult::LaunchFailed => ExecutionOutcome::Failure {
            code: LAUNCH_FAILED_CODE,
            cause: FailureCause::LaunchFailed,
        },
        ChildResult::Exited { code } => if code == 0 {
            ExecutionOutcome::Success
        } else {
            ExecutionOutcome::Failure { code, cause: FailureCause::NonZeroExit }
        },
        ChildResult::Killed => ExecutionOutcome::Failure {
            code: NO_STATUS_CODE,
            cause: FailureCause::NonZeroExit,
        },
    }
}

impl ExecutionOutcome {
    /// The exit code that the process ends with after this outcome.
    pub open spec fn exit_code_spec(self) -> int {
        match self {
            ExecutionOutcome::Success => 0,
            ExecutionOutcome::Failure { code, .. } => code as int,
        }
    }

    /// The exit code that the process ends with after this outcome: zero
    /// after a success, the failure's own code otherwise.
    pub fn exit_code(self) -> (r: i32)
        ensures
            r == self.exit_code_spec(),
    {
        match self {
            ExecutionOutcome::Success => 0,
            ExecutionOutcome::Failure { code, .. } => code,
        }
    }
}

/// The invocation that a command stands for.
pub fn request_for(command: ResolvedCommand) -> (r: Option<SubprocessRequest>)
    ensures
        match r {
            Some(request) => request_spec(command) == Some(request@),
            None => request_spec(command) == None::<RequestView>,
        },
{
    let mut args: Vec<String> = Vec::new();
    match command {
        ResolvedCommand::Unrecognized => {
            return None;
        },
        ResolvedCommand::RunDev => {
            args.push(word("watch"));
            args.push(word("-x"));
            args.push(word("run"));
        },
        ResolvedCommand::RunProd => {
            args.push(word("run"));
            args.push(word("--release"));
        },
        ResolvedCommand::Test => {
            args.push(word("test"));
        },
        ResolvedCommand::Build { release } => {
            args.push(word("build"));
            if release {
                args.push(word("--release"));
            }
        },
        ResolvedCommand::Clean => {
            args.push(word("clean"));
        },
    }
    let request = SubprocessRequest { program: word("cargo"), args, policy: RunPolicy::Foreground };
    assert(request@.args =~= tool_args(command));
    Some(request)
}

/// The line that is printed to standard output before a command is acted on.
pub fn status_line(command: ResolvedCommand) -> (r: &'static str)
    ensures
        r@ == status_line_spec(command),
{
    match command {
        ResolvedCommand::RunDev => "Running the app in development mode...",
        ResolvedCommand::RunProd => "Running your framework in production mode...",
        ResolvedCommand::Test => "Running your tests...",
        ResolvedCommand::Build { release } => if release {
            "Building the application in release mode..."
        } else {
            "Building the application..."
        },
        ResolvedCommand::Clean => "Cleaning the project...",
        ResolvedCommand::Unrecognized => "No valid command was provided.",
    }
}

/// The diagnostic for a build tool that could not be started.
pub fn launch_failure_line(command: ResolvedCommand) -> (r: &'static str)
    ensures
        r@ == launch_failure_line_spec(command),
{
    match command {
        ResolvedCommand::RunDev => "Failed to execute cargo watch",
        ResolvedCommand::RunProd => "Failed to execute cargo run",
        ResolvedCommand::Test => "Failed to execute cargo test",
        ResolvedCommand::Build { release } => if release {
            "Failed to execute cargo build --release"
        } else {
            "Failed to execute cargo build"
        },
        ResolvedCommand::Clean => "Failed to execute cargo clean",
        ResolvedCommand::Unrecognized => "Failed to execute cargo",
    }
}

/// The diagnostic for a child that ended in failure with `code`.
pub fn exit_line(code: i32) -> (r: String)
    ensures
        r@ == exit_line_spec(code as int),
{
    let mut line = String::from_str("Exited with code: ");
    let number = decimal_text(code);
    line.append(number.as_str());
    line
}

/// How a dispatch ended, given what became of the child.
pub fn outcome_of(child: ChildResult) -> (r: ExecutionOutcome)
    ensures
        r == outcome_spec(child),
{
    match child {
        ChildResult::LaunchFailed => ExecutionOutcome::Failure {
            code: LAUNCH_FAILED_CODE,
            cause: FailureCause::LaunchFailed,
        },
        ChildResult::Exited { code } => if code == 0 {
            ExecutionOutcome::Success
        } else {
            ExecutionOutcome::Failure { code, cause: FailureCause::NonZeroExit }
        },
        ChildResult::Killed => ExecutionOutcome::Failure {
            code: NO_STATUS_CODE,
            cause: FailureCause::NonZeroExit,
        },
    }
}

/// The state of the dispatcher. It starts `Idle`; a dispatch leads through
/// `Spawning` to `Succeeded` or `Failed`, and back to `Idle` once the caller
/// has collected the outcome. Nothing else is kept from one dispatch to the
/// next.
#[derive(Debug, Clone, Copy, PartialEq, Eq, Structural)]
pub enum DispatchState {
    Idle,
    Spawning { command: ResolvedCommand },
    Succeeded,
    Failed { code: i32, cause: FailureCause },
}

/// What the caller tells the dispatcher.
#[derive(Debug, Clone, Copy, PartialEq, Eq, Structural)]
pub enum DispatchEvent {
    /// A command is to be dispatched.
    Submit { command: ResolvedCommand },
    /// The child that the caller was asked to run has come to this end.
    Returned { child: ChildResult },
    /// The caller has taken the outcome of the dispatch.
    Collect,
}

/// What the dispatcher asks the caller to do.
#[derive(Debug, PartialEq, Eq)]
pub enum DispatchAction {
    /// Nothing.
    Rest,
    /// Print `line` to standard output.
    Announce { line: String },
    /// Print `line` to standard output, then run `request` and report what
    /// became of the child.
    Spawn { line: String, request: SubprocessRequest },
    /// Print `line` to the error stream and end the process with `code`.
    Exit { line: String, code: i32 },
    /// Give up at once, with `line` as the diagnostic on the error stream.
    Abort { line: String },
}

/// Mathematical model of a [`DispatchAction`].
pub enum ActionView {
    Rest,
    Announce { line: Seq<char> },
    Spawn { line: Seq<char>, request: RequestView },
    Exit { line: Seq<char>, code: i32 },
    Abort { line: Seq<char> },
}

impl View for DispatchAction {
    type V = ActionView;

    open spec fn view(&self) -> ActionView {
        match *self {
            DispatchAction::Rest => ActionView::Rest,
            DispatchAction::Announce { line } => ActionView::Announce { line: line@ },
            DispatchAction::Spawn { line, request } => ActionView::Spawn {
                line: line@,
                request: request@,
            },
            DispatchAction::Exit { line, code } => ActionView::Exit { line: line@, code },
            DispatchAction::Abort { line } => ActionView::Abort { line: line@ },
        }
    }
}

impl ActionView {
    /// What the action writes to standard output, if anything.
    pub open spec fn output(self) -> Option<Seq<char>> {
        match self {
            ActionView::Announce { line } => Some(line),
            ActionView::Spawn { line, .. } => Some(line),
            _ => None,
        }
    }

    /// What the action writes to the error stream, if anything.
    pub open spec fn diagnostic(self) -> Option<Seq<char>> {
        match self {
            ActionView::Exit { line, .. } => Some(line),
            ActionView::Abort { line } => Some(line),
            _ => None,
        }
    }
}

impl DispatchState {
    /// Whether a dispatcher can be in this state: it is only ever `Spawning`
    /// a command that stands for an invocation.
    pub open spec fn reachable(self) -> bool {
        self matches DispatchState::Spawning { command } ==> request_spec(command) is Some
    }

    /// The outcome of the dispatch that has just ended, if one has.
    pub open spec fn outcome_spec(self) -> Option<ExecutionOutcome> {
        match self {
            DispatchState::Succeeded => Some(ExecutionOutcome::Success),
            DispatchState::Failed { code, cause } => Some(ExecutionOutcome::Failure { code, cause }),
            _ => None,
        }
    }

    /// The outcome of the dispatch that has just ended, if one has.
    pub fn outcome(self) -> (r: Option<ExecutionOutcome>)
        ensures
            r == self.outcome_spec(),
    {
        match self {
            DispatchState::Succeeded => Some(ExecutionOutcome::Success),
            DispatchState::Failed { code, cause } => Some(ExecutionOutcome::Failure { code, cause }),
            _ => None,
        }
    }
}

/// The state in which an outcome leaves the dispatcher.
pub open spec fn settled(outcome: ExecutionOutcome) -> DispatchState {
    match outcome {
        ExecutionOutcome::Success => DispatchState::Succeeded,
        ExecutionOutcome::Failure { code, cause } => DispatchState::Failed { code, cause },
    }
}

/// What an outcome asks of the caller: nothing after a success; after a
/// failure, the diagnostic, and the exit code unless the launch itself failed.
pub open spec fn closing_action(command: ResolvedCommand, outcome: ExecutionOutcome) -> ActionView {
    match outcome {
        ExecutionOutcome::Success => ActionView::Rest,
        ExecutionOutcome::Failure { code, cause } => match cause {
            FailureCause::LaunchFailed => ActionView::Abort {
                line: launch_failure_line_spec(command),
            },
            FailureCause::NonZeroExit => ActionView::Exit { line: exit_line_spec(code as int), code },
        },
    }
}

/// The transition function of the dispatcher.
///
/// - `Idle`, on `Submit`: a command that stands for an invocation leads to
///   `Spawning`, with its status line and the invocation to run; an
///   unrecognized command leads straight to `Succeeded`, with its notice.
/// - `Spawning`, on `Returned`: the outcome of the child decides between
///   `Succeeded` and `Failed`, and a failure is reported.
/// - `Succeeded` or `Failed`, on `Collect`: back to `Idle`.
/// - Any other event leaves the state as it is and asks for nothing. So no
///   second child is started while one is awaited.
pub open spec fn step_spec(state: DispatchState, event: DispatchEvent) -> (DispatchState, ActionView) {
    match (state, event) {
        (DispatchState::Idle, DispatchEvent::Submit { command }) => match request_spec(command) {
            Some(request) => (
                DispatchState::Spawning { command },
                ActionView::Spawn { line: status_line_spec(command), request },
            ),
            None => (
                DispatchState::Succeeded,
                ActionView::Announce { line: status_line_spec(command) },
            ),
        },
        (DispatchState::Spawning { command }, DispatchEvent::Returned { child }) => (
            settled(outcome_spec(child)),
            closing_action(command, outcome_spec(child)),
        ),
        (DispatchState::Succeeded, DispatchEvent::Collect) => (DispatchState::Idle, ActionView::Rest),
        (DispatchState::Failed { .. }, DispatchEvent::Collect) => (
            DispatchState::Idle,
            ActionView::Rest,
        ),
        _ => (state, ActionView::Rest),
    }
}

/// Takes the dispatcher from `state` through `event`: the next state, and
/// the action that the caller has to perform.
pub fn step(state: DispatchState, event: DispatchEvent) -> (r: (DispatchState, DispatchAction))
    ensures
        r.0 == step_spec(state, event).0,
        r.1@ == step_spec(state, event).1,
{
    match state {
        DispatchState::Idle => match event {
            DispatchEvent::Submit { command } => {
                let line = word(status_line(command));
                match request_for(command) {
                    Some(request) => (
                        DispatchState::Spawning { command },
                        DispatchAction::Spawn { line, request },
                    ),
                    None => (DispatchState::Succeeded, DispatchAction::Announce { line }),
                }
            },
            _ => (state, DispatchAction::Rest),
        },
        DispatchState::Spawning { command } => match event {
            DispatchEvent::Returned { child } => match outcome_of(child) {
                ExecutionOutcome::Success => (DispatchState::Succeeded, DispatchAction::Rest),
                ExecutionOutcome::Failure { code, cause } => {
                    let action = match cause {
                        FailureCause::LaunchFailed => DispatchAction::Abort {
                            line: word(launch_failure_line(command)),
                        },
                        FailureCause::NonZeroExit => DispatchAction::Exit {
                            line: exit_line(code),
                            code,
                        },
                    };
                    (DispatchState::Failed { code, cause }, action)
                },
            },
            _ => (state, DispatchAction::Rest),
        },
        DispatchState::Succeeded => match event {
            DispatchEvent::Collect => (DispatchState::Idle, DispatchAction::Rest),
            _ => (state, DispatchAction::Rest),
        },
        DispatchState::Failed { .. } => match event {
            DispatchEvent::Collect => (DispatchState::Idle, DispatchAction::Rest),
            _ => (state, DispatchAction::Rest),
        },
    }
}

} // verus!
