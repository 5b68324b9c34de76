//! From an argument vector to the one command it asks for.

use vstd::prelude::*;
use vstd::string::*;
use crate::grammar::{CommandSpec, FlagView, NodeView, standard_commands};
use crate::text::is_word;
use crate::matching::{CommandMatches, MatchesView, matched, selected, flag_states};

verus! {

/// The command that an argument vector resolves to. Every argument vector
/// resolves to exactly one of these; one that matches nothing resolves to
/// `Unrecognized`, which is a result and not an error.
#[derive(Debug, Clone, Copy, PartialEq, Eq, Structural)]
pub enum ResolvedCommand {
    RunDev,
    RunProd,
    Test,
    Build { release: bool },
    Clean,
    Unrecognized,
}

/// Whether `token` is the release flag of `build`, in its long or short form.
pub open spec fn is_release_flag(token: Seq<char>) -> bool {
    token == "--release"@ || token == "-r"@
}

/// Whether some token after the first is the release flag.
pub open spec fn release_requested(tokens: Seq<Seq<char>>) -> bool {
    exists|i: int| 1 <= i < tokens.len() && is_release_flag(#[trigger] tokens[i])
}

/// What an argument vector, without the program's name, resolves to under the
/// standard grammar.
///
/// - `run dev` and `run prod`, with nothing after them, are the two run modes;
///   `run` alone, or followed by anything else, is unrecognized.
/// - `test` and `clean` stand alone: with any further token they are
///   unrecognized.
/// - `build` is always a build. It is a release build exactly when the release
///   flag occurs somewhere after it; other tokens after it mean nothing.
/// - Everything else, the empty vector included, is unrecognized.
pub open spec fn resolve_spec(tokens: Seq<Seq<char>>) -> ResolvedCommand {
    if tokens.len() == 0 {
        ResolvedCommand::Unrecognized
    } else if tokens[0] == "run"@ {
        if tokens.len() == 2 && tokens[1] == "dev"@ {
            ResolvedCommand::RunDev
        } else if tokens.len() == 2 && tokens[1] == "prod"@ {
            ResolvedCommand::RunProd
        } else {
            ResolvedCommand::Unrecognized
        }
    } else if tokens[0] == "test"@ {
        if tokens.len() == 1 {
            ResolvedCommand::Test
        } else {
            ResolvedCommand::Unrecognized
        }
    } else if tokens[0] == "build"@ {
        ResolvedCommand::Build { release: release_requested(tokens) }
    } else if tokens[0] == "clean"@ {
        if tokens.len() == 1 {
            ResolvedCommand::Clean
        } else {
            ResolvedCommand::Unrecognized
        }
    } else {
        ResolvedCommand::Unrecognized
    }
}

/// The command that a parsed command tree stands for, going by the names of
/// the matched commands and by the flag `release`.
pub open spec fn command_of(m: MatchesView) -> ResolvedCommand {
    if m.path.len() == 0 {
        ResolvedCommand::Unrecognized
    } else if m.path[0] == "run"@ {
        if m.path.len() >= 2 && m.path[1] == "dev"@ {
            ResolvedCommand::RunDev
        } else if m.path.len() >= 2 && m.path[1] == "prod"@ {
            ResolvedCommand::RunProd
        } else {
            ResolvedCommand::Unrecognized
        }
    } else if m.path[0] == "test"@ {
        ResolvedCommand::Test
    } else if m.path[0] == "build"@ {
        ResolvedCommand::Build { release: m.flag("release"@) }
    } else if m.path[0] == "clean"@ {
        ResolvedCommand::Clean
    } else {
        ResolvedCommand::Unrecognized
    }
}

/// The command that the outcome of matching stands for: no match is
/// `Unrecognized`.
pub open spec fn command_of_parse(found: Option<MatchesView>) -> ResolvedCommand {
    match found {
        Some(m) => command_of(m),
        None => ResolvedCommand::Unrecognized,
    }
}

/// Resolves a parsed command tree.
pub fn resolve_matches(m: &CommandMatches) -> (r: ResolvedCommand)
    ensures
        r == command_of(m@),
{
    if m.path.len() == 0 {
        return ResolvedCommand::Unrecognized;
    }
    let first = &m.path[0];
    if is_word(first, "run") {
        if m.path.len() < 2 {
            ResolvedCommand::Unrecognized
        } else if is_word(&m.path[1], "dev") {
            ResolvedCommand::RunDev
        } else if is_word(&m.path[1], "prod") {
            ResolvedCommand::RunProd
        } else {
            ResolvedCommand::Unrecognized
        }
    } else if is_word(first, "test") {
        ResolvedCommand::Test
    } else if is_word(first, "build") {
        ResolvedCommand::Build { release: m.flag("release") }
    } else if is_word(first, "clean") {
        ResolvedCommand::Clean
    } else {
        ResolvedCommand::Unrecognized
    }
}

/// Which of the standard top-level commands a token selects.
proof fn lemma_standard_selection(token: Seq<char>)
    ensures
        selected(standard_commands(), token, 0) == if token == "run"@ {
            Some(0int)
        } else if token == "test"@ {
            Some(1int)
        } else if token == "build"@ {
            Some(2int)
        } else if token == "clean"@ {
            Some(3int)
        } else {
            None
        },
{
    reveal_strlit("run");
    reveal_strlit("test");
    reveal_strlit("build");
    reveal_strlit("clean");
    reveal_with_fuel(selected, 5);
    let nodes = standard_commands();
    assert(nodes[0].name == "run"@);
    assert(nodes[1].name == "test"@);
    assert(nodes[2].name == "build"@);
    assert(nodes[3].name == "clean"@);
}

/// Which of the two run modes a token selects.
proof fn lemma_mode_selection(token: Seq<char>)
    ensures
        selected(standard_commands()[0].children, token, 0) == if token == "dev"@ {
            Some(0int)
        } else if token == "prod"@ {
            Some(1int)
        } else {
            None
        },
{
    reveal_strlit("dev");
    reveal_strlit("prod");
    reveal_with_fuel(selected, 3);
    let modes = standard_commands()[0].children;
    assert(modes[0].name == "dev"@);
    assert(modes[1].name == "prod"@);
}

/// The flag of `build` is spelled by exactly the two release tokens.
proof fn lemma_release_spellings(token: Seq<char>)
    ensures
        (FlagView { name: "release"@, short: 'r' }).names(token) == is_release_flag(token),
{
    reveal_strlit("release");
    reveal_strlit("--release");
    reveal_strlit("-r");
    let release = FlagView { name: "release"@, short: 'r' };
    assert(release.long_form() =~= "--release"@);
    assert(release.short_form() =~= "-r"@);
}

/// Matching against the standard grammar and reading the command off the
/// match gives exactly what `resolve_spec` says, for every argument vector.
pub proof fn lemma_standard_grammar(tokens: Seq<Seq<char>>)
    ensures
        command_of_parse(matched(standard_commands(), tokens, 0, Seq::empty())) == resolve_spec(
            tokens,
        ),
{
    let nodes = standard_commands();
    let found = matched(nodes, tokens, 0, Seq::empty());
    if tokens.len() > 0 {
        lemma_standard_selection(tokens[0]);
        if tokens[0] == "run"@ {
            assert(nodes[0].children.len() == 2);
            if tokens.len() >= 2 {
                lemma_mode_selection(tokens[1]);
                reveal_with_fuel(matched, 2);
            }
        } else if tokens[0] == "test"@ {
            assert(nodes[1] == NodeView::leaf("test"@));
        } else if tokens[0] == "build"@ {
            let release = FlagView { name: "release"@, short: 'r' };
            assert(nodes[2].name == "build"@ && nodes[2].flags == seq![release]);
            let m = found->0;
            assert(m.flags == flag_states(seq![release], tokens, 1));
            assert(release.present_from(tokens, 1) == release_requested(tokens)) by {
                assert forall|i: int| 1 <= i < tokens.len() implies release.names(
                    #[trigger] tokens[i],
                ) == is_release_flag(tokens[i]) by {
                    lemma_release_spellings(tokens[i]);
                }
            }
            assert(m.flag("release"@) == release_requested(tokens)) by {
                assert(m.flags[0].name == "release"@);
                assert(m.flags[0].set == release.present_from(tokens, 1));
            }
        } else if tokens[0] == "clean"@ {
            assert(nodes[3] == NodeView::leaf("clean"@));
        }
    }
}

impl CommandSpec {
    /// Resolves an argument vector, without the program's name, under this
    /// grammar: the vector is matched against the grammar and the command is
    /// read off the match. Under the standard grammar that is `resolve_spec`.
    pub fn resolve(&self, tokens: &Vec<String>) -> (r: ResolvedCommand)
        ensures
            r == command_of_parse(self@.parse(tokens.deep_view())),
            self@.commands == standard_commands() ==> r == resolve_spec(tokens.deep_view()),
    {
        proof {
            lemma_standard_grammar(tokens.deep_view());
        }
        match self.parse(tokens) {
            Some(m) => resolve_matches(&m),
            None => ResolvedCommand::Unrecognized,
        }
    }
}

/// Resolves an argument vector, without the program's name, under the standard
/// grammar. Resolution is total: it never fails.
pub fn resolve(tokens: &Vec<String>) -> (r: ResolvedCommand)
    ensures
        r == resolve_spec(tokens.deep_view()),
{
    let grammar = CommandSpec::standard("", "");
    grammar.resolve(tokens)
}

} // verus!
