//! The command grammar as data: a tree of named commands with boolean flags.

use vstd::prelude::*;
use vstd::string::*;

verus! {

/// A boolean flag of a command. On the command line it is written either in
/// its long form, two dashes and the name, or in its short form, one dash and
/// the alias.
#[derive(Debug, PartialEq, Eq)]
pub struct FlagSpec {
    pub name: String,
    pub short: char,
}

/// Mathematical model of a [`FlagSpec`].
pub struct FlagView {
    pub name: Seq<char>,
    pub short: char,
}

impl View for FlagSpec {
    type V = FlagView;

    open spec fn view(&self) -> FlagView {
        FlagView { name: self.name@, short: self.short }
    }
}

impl FlagView {
    /// The long form of the flag: `--` followed by its name.
    pub open spec fn long_form(self) -> Seq<char> {
        seq!['-', '-'] + self.name
    }

    /// The short form of the flag: `-` followed by its alias.
    pub open spec fn short_form(self) -> Seq<char> {
        seq!['-', self.short]
    }

    /// Whether `token` is one of the two spellings of the flag.
    pub open spec fn names(self, token: Seq<char>) -> bool {
        token == self.long_form() || token == self.short_form()
    }

    /// Whether the flag is spelled by some token at position `from` or later.
    pub open spec fn present_from(self, tokens: Seq<Seq<char>>, from: int) -> bool {
        exists|i: int| from <= i < tokens.len() && self.names(#[trigger] tokens[i])
    }
}

impl FlagSpec {
    /// Whether `token` spells this flag, in its long or its short form.
    pub fn names(&self, token: &String) -> (r: bool)
        ensures
            r == self@.names(token@),
    {
        let long = String::from_str("--").concat(self.name.as_str());
        proof {
            reveal_strlit("--");
            assert("--"@ =~= seq!['-', '-']);
        }
        if *token == long {
            return true;
        }
        let text = token.as_str();
        if text.unicode_len() != 2 {
            return false;
        }
        let hit = text.get_char(0) == '-' && text.get_char(1) == self.short;
        proof {
            if hit {
                assert(token@ =~= self@.short_form());
            }
        }
        hit
    }

    /// Whether some token at position `from` or later spells this flag.
    pub fn present_from(&self, tokens: &Vec<String>, from: usize) -> (r: bool)
        ensures
            r == self@.present_from(tokens.deep_view(), from as int),
    {
        let mut i: usize = from;
        while i < tokens.len()
            invariant
                from <= i,
                forall|j: int| from <= j < i && j < tokens.len() ==> !self@.names(#[trigger] tokens.deep_view()[j]),
            decreases tokens.len() - i,
        {
            if self.names(&tokens[i]) {
                assert(self@.names(tokens.deep_view()[i as int]));
                return true;
            }
            i = i + 1;
        }
        false
    }
}

/// A node of the command tree: a named command with its flags and its
/// subcommands. A command that has subcommands is a group, and must be followed
/// by one of them; a command without subcommands is a leaf.
#[derive(Debug, PartialEq, Eq)]
pub struct CommandNode {
    pub name: String,
    pub flags: Vec<FlagSpec>,
    pub children: Vec<CommandNode>,
}

/// Mathematical model of a [`CommandNode`].
pub struct NodeView {
    pub name: Seq<char>,
    pub flags: Seq<FlagView>,
    pub children: Seq<NodeView>,
}

impl NodeView {
    /// A command without flags and without subcommands.
    pub open spec fn leaf(name: Seq<char>) -> NodeView {
        NodeView { name, flags: Seq::empty(), children: Seq::empty() }
    }
}

impl View for CommandNode {
    type V = NodeView;

    open spec fn view(&self) -> NodeView
        decreases self,
    {
        NodeView {
            name: self.name@,
            flags: flag_views(self.flags@),
            children: Seq::new(
                self.children@.len(),
                |i: int|
                    if 0 <= i < self.children@.len() {
                        self.children@[i]@
                    } else {
                        NodeView::leaf(Seq::empty())
                    },
            ),
        }
    }
}

/// The models of a list of flags, in order.
pub open spec fn flag_views(flags: Seq<FlagSpec>) -> Seq<FlagView> {
    Seq::new(flags.len(), |i: int| flags[i]@)
}

/// The models of a list of commands, in order.
pub open spec fn node_views(nodes: Seq<CommandNode>) -> Seq<NodeView> {
    Seq::new(nodes.len(), |i: int| nodes[i]@)
}

impl CommandNode {
    /// The model of a node lists its subcommands by their own models.
    pub proof fn lemma_children_view(self)
        ensures
            self@.children == node_views(self.children@),
    {
    }

    /// A command without flags and without subcommands.
    pub fn leaf(name: &str) -> (r: CommandNode)
        ensures
            r@ == NodeView::leaf(name@),
    {
        let r = CommandNode { name: String::from_str(name), flags: Vec::new(), children: Vec::new() };
        proof {
            assert(r@.flags =~= Seq::empty());
            assert(r@.children =~= Seq::empty());
        }
        r
    }
}

/// The whole grammar of a command line: the product's name and version, and
/// the top-level commands. It is built once and only read afterwards.
#[derive(Debug, PartialEq, Eq)]
pub struct CommandSpec {
    pub name: String,
    pub version: String,
    pub commands: Vec<CommandNode>,
}

/// Mathematical model of a [`CommandSpec`].
pub struct GrammarView {
    pub name: Seq<char>,
    pub version: Seq<char>,
    pub commands: Seq<NodeView>,
}

impl View for CommandSpec {
    type V = GrammarView;

    open spec fn view(&self) -> GrammarView {
        GrammarView { name: self.name@, version: self.version@, commands: node_views(self.commands@) }
    }
}

/// The commands of the standard grammar:
///
/// ```text
/// run dev | run prod | test | build [--release|-r] | clean
/// ```
pub open spec fn standard_commands() -> Seq<NodeView> {
    seq![
        NodeView {
            name: "run"@,
            flags: Seq::empty(),
            children: seq![NodeView::leaf("dev"@), NodeView::leaf("prod"@)],
        },
        NodeView::leaf("test"@),
        NodeView {
            name: "build"@,
            flags: seq![FlagView { name: "release"@, short: 'r' }],
            children: Seq::empty(),
        },
        NodeView::leaf("clean"@),
    ]
}

impl CommandSpec {
    /// The standard grammar, for a product called `name` at version `version`.
    pub fn standard(name: &str, version: &str) -> (r: CommandSpec)
        ensures
            r@.name == name@,
            r@.version == version@,
            r@.commands == standard_commands(),
    {
        let mut modes: Vec<CommandNode> = Vec::new();
        modes.push(CommandNode::leaf("dev"));
        modes.push(CommandNode::leaf("prod"));
        let run = CommandNode { name: String::from_str("run"), flags: Vec::new(), children: modes };

        let mut build_flags: Vec<FlagSpec> = Vec::new();
        build_flags.push(FlagSpec { name: String::from_str("release"), short: 'r' });
        let build = CommandNode {
            name: String::from_str("build"),
            flags: build_flags,
            children: Vec::new(),
        };

        let mut commands: Vec<CommandNode> = Vec::new();
        commands.push(run);
        commands.push(CommandNode::leaf("test"));
        commands.push(build);
        commands.push(CommandNode::leaf("clean"));

        let r = CommandSpec {
            name: String::from_str(name),
            version: String::from_str(version),
            commands,
        };
        proof {
            let run_view = r.commands@[0]@;
            assert(run_view.flags =~= Seq::empty());
            assert(run_view.children =~= seq![NodeView::leaf("dev"@), NodeView::leaf("prod"@)]);
            let build_view = r.commands@[2]@;
            assert(build_view.flags =~= seq![FlagView { name: "release"@, short: 'r' }]);
            assert(build_view.children =~= Seq::empty());
        }
        r
    }
}

} // verus!
