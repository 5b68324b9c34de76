//! What holds of resolution and dispatch on every input.

use vstd::prelude::*;
use vstd::seq_lib::to_multiset_contains;
use crate::grammar::GrammarView;
use crate::resolver::{ResolvedCommand, resolve_spec, is_release_flag, release_requested};
use crate::invocation::{Invocation, ReservedRequest};
use crate::dispatch::{
    ActionView, ChildResult, DispatchEvent, DispatchState, ExecutionOutcome, FailureCause,
    exit_line_spec, outcome_spec, request_spec, status_line_spec, step_spec,
};
use crate::text::decimal;

verus! {

/// Each supported invocation resolves to its own command.
pub proof fn lemma_supported_invocations()
    ensures
        resolve_spec(seq!["run"@, "dev"@]) == ResolvedCommand::RunDev,
        resolve_spec(seq!["run"@, "prod"@]) == ResolvedCommand::RunProd,
        resolve_spec(seq!["test"@]) == ResolvedCommand::Test,
        resolve_spec(seq!["build"@]) == (ResolvedCommand::Build { release: false }),
        resolve_spec(seq!["build"@, "--release"@]) == (ResolvedCommand::Build { release: true }),
        resolve_spec(seq!["build"@, "-r"@]) == (ResolvedCommand::Build { release: true }),
        resolve_spec(seq!["clean"@]) == ResolvedCommand::Clean,
{
    lemma_command_words_differ();
    reveal_strlit("dev");
    reveal_strlit("prod");
    assert("dev"@.len() == 3 && "prod"@.len() == 4);
}

/// The four command words are four different words.
proof fn lemma_command_words_differ()
    ensures
        "run"@ != "test"@,
        "run"@ != "build"@,
        "run"@ != "clean"@,
        "test"@ != "build"@,
        "test"@ != "clean"@,
        "build"@ != "clean"@,
{
    reveal_strlit("run");
    reveal_strlit("test");
    reveal_strlit("build");
    reveal_strlit("clean");
    assert("run"@.len() == 3 && "test"@.len() == 4 && "build"@.len() == 5);
    assert("build"@[0] != "clean"@[0]);
}

/// An argument vector that is empty, or whose first token is none of `run`,
/// `test`, `build` and `clean`, is unrecognized, whatever follows.
pub proof fn lemma_unknown_command_is_unrecognized(tokens: Seq<Seq<char>>)
    requires
        tokens.len() > 0 ==> tokens[0] != "run"@ && tokens[0] != "test"@ && tokens[0] != "build"@
            && tokens[0] != "clean"@,
    ensures
        resolve_spec(tokens) == ResolvedCommand::Unrecognized,
{
}

/// `run` without a second token, or with a second token that is neither `dev`
/// nor `prod`, is unrecognized.
pub proof fn lemma_run_needs_a_mode(tokens: Seq<Seq<char>>)
    requires
        tokens.len() > 0,
        tokens[0] == "run"@,
        tokens.len() > 1 ==> tokens[1] != "dev"@ && tokens[1] != "prod"@,
    ensures
        resolve_spec(tokens) == ResolvedCommand::Unrecognized,
{
}

/// `build` with no release flag after it is a plain build.
pub proof fn lemma_build_without_flag(tokens: Seq<Seq<char>>)
    requires
        tokens.len() > 0,
        tokens[0] == "build"@,
        forall|i: int| 1 <= i < tokens.len() ==> !is_release_flag(#[trigger] tokens[i]),
    ensures
        resolve_spec(tokens) == (ResolvedCommand::Build { release: false }),
{
    lemma_command_words_differ();
}

/// `build` with `--release` or `-r` at any position after it is a release
/// build.
pub proof fn lemma_build_with_flag(tokens: Seq<Seq<char>>, position: int)
    requires
        tokens.len() > 0,
        tokens[0] == "build"@,
        1 <= position < tokens.len(),
        is_release_flag(tokens[position]),
    ensures
        resolve_spec(tokens) == (ResolvedCommand::Build { release: true }),
{
    lemma_command_words_differ();
}

/// The order of the tokens after `build` has no part in the result: two
/// vectors that hold the same tokens after `build`, each as many times as the
/// other, resolve alike.
pub proof fn lemma_build_ignores_order(first: Seq<Seq<char>>, second: Seq<Seq<char>>)
    requires
        first.len() > 0,
        second.len() > 0,
        first[0] == "build"@,
        second[0] == "build"@,
        first.skip(1).to_multiset() == second.skip(1).to_multiset(),
    ensures
        resolve_spec(first) == resolve_spec(second),
{
    lemma_command_words_differ();
    lemma_release_survives_reordering(first, second);
    lemma_release_survives_reordering(second, first);
}

/// A release flag after the first token of `from` is found again in any
/// vector that holds the same tokens after its first.
proof fn lemma_release_survives_reordering(from: Seq<Seq<char>>, to: Seq<Seq<char>>)
    requires
        from.len() > 0,
        to.len() > 0,
        from.skip(1).to_multiset() == to.skip(1).to_multiset(),
    ensures
        release_requested(from) ==> release_requested(to),
{
    if release_requested(from) {
        let i = choose|i: int| 1 <= i < from.len() && is_release_flag(#[trigger] from[i]);
        let token = from[i];
        assert(from.skip(1)[i - 1] == token);
        to_multiset_contains(from.skip(1), token);
        to_multiset_contains(to.skip(1), token);
        let j = choose|j: int| 0 <= j < to.skip(1).len() && to.skip(1)[j] == token;
        assert(is_release_flag(to[j + 1]));
    }
}

/// The release flag belongs to `build` alone: no vector that begins with
/// another token resolves to a build, whatever flags it holds.
pub proof fn lemma_flag_is_scoped_to_build(tokens: Seq<Seq<char>>)
    requires
        tokens.len() > 0 ==> tokens[0] != "build"@,
    ensures
        !(resolve_spec(tokens) is Build),
{
}

/// A request for the version is recognized under every grammar, and the
/// version line is made of the product's name and version alone: two grammars
/// with the same name and version answer alike, whatever their commands.
pub proof fn lemma_version_ignores_commands(
    first: GrammarView,
    second: GrammarView,
    tokens: Seq<Seq<char>>,
)
    requires
        first.name == second.name,
        first.version == second.version,
        tokens.len() > 0,
        tokens[0] == "--version"@,
    ensures
        first.interpret(tokens) == (Invocation::Reserved { request: ReservedRequest::Version }),
        second.interpret(tokens) == first.interpret(tokens),
        first.version_line() == first.name + seq![' '] + first.version,
        second.version_line() == first.version_line(),
{
}

/// A whole dispatch seen from `state`: the command is submitted, the child,
/// if one was asked for, comes to the end `child`, and the outcome is
/// collected. The result is the state afterwards and the outcome that was
/// collected.
pub open spec fn dispatch_spec(state: DispatchState, command: ResolvedCommand, child: ChildResult) -> (
    DispatchState,
    Option<ExecutionOutcome>,
) {
    let submitted = step_spec(state, DispatchEvent::Submit { command }).0;
    let ended = if submitted is Spawning {
        step_spec(submitted, DispatchEvent::Returned { child }).0
    } else {
        submitted
    };
    (step_spec(ended, DispatchEvent::Collect).0, ended.outcome_spec())
}

/// A dispatch from `Idle` ends in `Idle`, and its outcome is decided by the
/// command and the child alone: an unrecognized command succeeds, any other
/// command has the outcome of its child. So a second dispatch starts where
/// the first one started and carries nothing over from it.
pub proof fn lemma_dispatch_is_stateless(command: ResolvedCommand, child: ChildResult)
    ensures
        dispatch_spec(DispatchState::Idle, command, child).0 == DispatchState::Idle,
        dispatch_spec(DispatchState::Idle, command, child).1 == Some(
            if command is Unrecognized {
                ExecutionOutcome::Success
            } else {
                outcome_spec(child)
            },
        ),
{
}

/// `clean` dispatched twice in a row, the child succeeding both times, gives
/// two successes, and the dispatcher is idle after each.
pub proof fn lemma_clean_twice()
    ensures
        ({
            let exited = ChildResult::Exited { code: 0 };
            let once = dispatch_spec(DispatchState::Idle, ResolvedCommand::Clean, exited);
            let twice = dispatch_spec(once.0, ResolvedCommand::Clean, exited);
            &&& once == (DispatchState::Idle, Some(ExecutionOutcome::Success))
            &&& twice == once
        }),
{
    lemma_dispatch_is_stateless(ResolvedCommand::Clean, ChildResult::Exited { code: 0 });
}

/// A child that exits with a status other than zero fails the dispatch with
/// that very status: the process is asked to end with it, and the diagnostic
/// on the error stream ends with its decimal text.
pub proof fn lemma_exit_code_propagates(command: ResolvedCommand, code: i32)
    requires
        code != 0,
    ensures
        ({
            let (state, action) = step_spec(
                DispatchState::Spawning { command },
                DispatchEvent::Returned { child: ChildResult::Exited { code } },
            );
            &&& state == (DispatchState::Failed { code, cause: FailureCause::NonZeroExit })
            &&& state.outcome_spec()->0.exit_code_spec() == code
            &&& action == (ActionView::Exit { line: exit_line_spec(code as int), code })
            &&& action.diagnostic() == Some("Exited with code: "@ + decimal(code as int))
        }),
{
}

/// An unrecognized command is answered on standard output alone and succeeds:
/// its notice is announced, nothing is run, nothing goes to the error stream,
/// and the exit code is zero.
pub proof fn lemma_unrecognized_is_quiet()
    ensures
        ({
            let (state, action) = step_spec(
                DispatchState::Idle,
                DispatchEvent::Submit { command: ResolvedCommand::Unrecognized },
            );
            &&& state == DispatchState::Succeeded
            &&& state.outcome_spec() == Some(ExecutionOutcome::Success)
            &&& state.outcome_spec()->0.exit_code_spec() == 0
            &&& action == (ActionView::Announce { line: "No valid command was provided."@ })
            &&& action.output() == Some("No valid command was provided."@)
            &&& action.diagnostic() is None
            &&& step_spec(state, DispatchEvent::Collect) == (DispatchState::Idle, ActionView::Rest)
        }),
{
}

/// Only a failed child makes the dispatcher write to the error stream: an
/// action carries a diagnostic exactly when it answers, in `Spawning`, a child
/// that did not succeed.
pub proof fn lemma_diagnostic_only_on_failure(state: DispatchState, event: DispatchEvent)
    ensures
        step_spec(state, event).1.diagnostic() is Some <==> state is Spawning && event is Returned
            && outcome_spec(event->child) is Failure,
{
}

/// A child is asked for only from `Idle`, and the dispatcher is then
/// `Spawning`: while one child is awaited no other is started.
pub proof fn lemma_one_child_at_a_time(state: DispatchState, event: DispatchEvent)
    requires
        step_spec(state, event).1 is Spawn,
    ensures
        state is Idle,
        event is Submit,
        step_spec(state, event).0 == (DispatchState::Spawning { command: event->command }),
        step_spec(state, event).1 == (ActionView::Spawn {
            line: status_line_spec(event->command),
            request: request_spec(event->command)->0,
        }),
{
}

/// Every transition leads from a reachable state to a reachable state.
pub proof fn lemma_step_keeps_reachable(state: DispatchState, event: DispatchEvent)
    requires
        state.reachable(),
    ensures
        step_spec(state, event).0.reachable(),
{
}

} // verus!
