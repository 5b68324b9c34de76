//! The reserved requests, which are answered before any command is resolved.

use vstd::prelude::*;
use vstd::string::*;
use crate::grammar::{CommandSpec, GrammarView, standard_commands};
use crate::text::is_word;
use crate::resolver::{ResolvedCommand, command_of_parse, resolve_spec};

verus! {

/// A request that is no command of the grammar. It is answered with the
/// product's version line and never reaches the dispatcher.
#[derive(Debug, Clone, Copy, PartialEq, Eq, Structural)]
pub enum ReservedRequest {
    Version,
    Help,
}

/// What an argument vector asks for: a reserved request, or a command.
#[derive(Debug, Clone, Copy, PartialEq, Eq, Structural)]
pub enum Invocation {
    Reserved { request: ReservedRequest },
    Command { command: ResolvedCommand },
}

/// The reserved request that an argument vector makes, going by its first
/// token: `--version` or `-V` asks for the version, `--help`, `-h` or `help`
/// for help. Any other vector makes none.
pub open spec fn reserved_spec(tokens: Seq<Seq<char>>) -> Option<ReservedRequest> {
    if tokens.len() == 0 {
        None
    } else if tokens[0] == "--version"@ || tokens[0] == "-V"@ {
        Some(ReservedRequest::Version)
    } else if tokens[0] == "--help"@ || tokens[0] == "-h"@ || tokens[0] == "help"@ {
        Some(ReservedRequest::Help)
    } else {
        None
    }
}

impl GrammarView {
    /// The version line of the product: its name, one space, its version.
    pub open spec fn version_line(self) -> Seq<char> {
        self.name + seq![' '] + self.version
    }

    /// What an argument vector asks for under this grammar. A reserved
    /// request comes before resolution.
    pub open spec fn interpret(self, tokens: Seq<Seq<char>>) -> Invocation {
        match reserved_spec(tokens) {
            Some(request) => Invocation::Reserved { request },
            None => Invocation::Command { command: command_of_parse(self.parse(tokens)) },
        }
    }
}

/// The reserved request that an argument vector makes, if it makes one.
pub fn reserved_request(tokens: &Vec<String>) -> (r: Option<ReservedRequest>)
    ensures
        r == reserved_spec(tokens.deep_view()),
{
    if tokens.len() == 0 {
        return None;
    }
    let first = &tokens[0];
    if is_word(first, "--version") || is_word(first, "-V") {
        Some(ReservedRequest::Version)
    } else if is_word(first, "--help") || is_word(first, "-h") || is_word(first, "help") {
        Some(ReservedRequest::Help)
    } else {
        None
    }
}

impl CommandSpec {
    /// The version line of the product: its name, one space, its version.
    /// The commands of the grammar have no part in it.
    pub fn version_line(&self) -> (r: String)
        ensures
            r@ == self@.version_line(),
            r@ == self.name@ + seq![' '] + self.version@,
    {
        let mut line = self.name.clone();
        proof {
            reveal_strlit(" ");
        }
        line.append(" ");
        line.append(self.version.as_str());
        line
    }

    /// What an argument vector, without the program's name, asks for. A
    /// reserved request is recognized first; any other vector is resolved to a
    /// command.
    pub fn interpret(&self, tokens: &Vec<String>) -> (r: Invocation)
        ensures
            r == self@.interpret(tokens.deep_view()),
            self@.commands == standard_commands() && reserved_spec(tokens.deep_view()) is None ==> r
                == (Invocation::Command { command: resolve_spec(tokens.deep_view()) }),
    {
        match reserved_request(tokens) {
            Some(request) => Invocation::Reserved { request },
            None => Invocation::Command { command: self.resolve(tokens) },
        }
    }
}

} // verus!
