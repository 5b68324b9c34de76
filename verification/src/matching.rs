//! Matching an argument vector against a command grammar.
//!
//! The result of a successful match is a [`CommandMatches`]: the names of the
//! commands that were matched, from the top level down, and the state of each
//! flag of the last one.

use vstd::prelude::*;
use vstd::string::*;
use crate::grammar::{
    CommandNode, CommandSpec, FlagSpec, FlagView, GrammarView, NodeView, flag_views, node_views,
};

verus! {

/// The state of one flag after matching: its name, and whether the argument
/// vector spelled it.
#[derive(Debug, PartialEq, Eq)]
pub struct FlagMatch {
    pub name: String,
    pub set: bool,
}

/// Mathematical model of a [`FlagMatch`].
pub struct FlagMatchView {
    pub name: Seq<char>,
    pub set: bool,
}

impl View for FlagMatch {
    type V = FlagMatchView;

    open spec fn view(&self) -> FlagMatchView {
        FlagMatchView { name: self.name@, set: self.set }
    }
}

/// A parsed command tree: which commands an argument vector named, and which
/// flags of the innermost command it set.
#[derive(Debug, PartialEq, Eq)]
pub struct CommandMatches {
    pub path: Vec<String>,
    pub flags: Vec<FlagMatch>,
}

/// Mathematical model of a [`CommandMatches`].
pub struct MatchesView {
    pub path: Seq<Seq<char>>,
    pub flags: Seq<FlagMatchView>,
}

impl View for CommandMatches {
    type V = MatchesView;

    open spec fn view(&self) -> MatchesView {
        MatchesView {
            path: self.path.deep_view(),
            flags: Seq::new(self.flags@.len(), |k: int| self.flags@[k]@),
        }
    }
}

impl MatchesView {
    /// Whether the flag called `name` is among the flags and was set.
    pub open spec fn flag(self, name: Seq<char>) -> bool {
        exists|k: int|
            0 <= k < self.flags.len() && (#[trigger] self.flags[k]).name == name && self.flags[k].set
    }
}

impl CommandMatches {
    /// Whether the flag called `name` was set. A flag that the matched command
    /// does not have counts as not set.
    pub fn flag(&self, name: &str) -> (r: bool)
        ensures
            r == self@.flag(name@),
    {
        let wanted = String::from_str(name);
        let mut k: usize = 0;
        while k < self.flags.len()
            invariant
                k <= self.flags.len(),
                wanted@ == name@,
                forall|j: int| 0 <= j < k ==> !((#[trigger] self@.flags[j]).name == name@ && self@.flags[j].set),
            decreases self.flags.len() - k,
        {
            if self.flags[k].set && self.flags[k].name == wanted {
                assert(self@.flags[k as int].name == name@ && self@.flags[k as int].set);
                return true;
            }
            k = k + 1;
        }
        false
    }
}

/// The model of an optional match.
pub open spec fn matches_view(found: Option<CommandMatches>) -> Option<MatchesView> {
    match found {
        Some(m) => Some(m@),
        None => None,
    }
}

/// The index of the first command at or after `from` that is called `token`.
pub open spec fn selected(nodes: Seq<NodeView>, token: Seq<char>, from: int) -> Option<int>
    decreases nodes.len() - from,
{
    if from < 0 || from >= nodes.len() {
        None
    } else if nodes[from].name == token {
        Some(from)
    } else {
        selected(nodes, token, from + 1)
    }
}

/// The state of each flag in `flags`, in order, given the tokens from
/// position `from` on.
pub open spec fn flag_states(flags: Seq<FlagView>, tokens: Seq<Seq<char>>, from: int) -> Seq<
    FlagMatchView,
> {
    Seq::new(
        flags.len(),
        |k: int| FlagMatchView { name: flags[k].name, set: flags[k].present_from(tokens, from) },
    )
}

/// Matches the tokens from position `pos` on against the commands `nodes`,
/// having already matched the commands named in `path`.
///
/// The token at `pos` must name one of `nodes`. If that command is a group,
/// matching goes on among its subcommands with the next token. If it is a leaf
/// without flags, no token may follow. If it is a leaf with flags, each flag is
/// set when some later token spells it, and later tokens that spell no flag
/// mean nothing.
pub open spec fn matched(
    nodes: Seq<NodeView>,
    tokens: Seq<Seq<char>>,
    pos: int,
    path: Seq<Seq<char>>,
) -> Option<MatchesView>
    decreases tokens.len() - pos,
{
    if pos < 0 || pos >= tokens.len() {
        None
    } else {
        match selected(nodes, tokens[pos], 0) {
            None => None,
            Some(k) => {
                let node = nodes[k];
                let path = path.push(node.name);
                if node.children.len() > 0 {
                    matched(node.children, tokens, pos + 1, path)
                } else if node.flags.len() == 0 && pos + 1 < tokens.len() {
                    None
                } else {
                    Some(MatchesView { path, flags: flag_states(node.flags, tokens, pos + 1) })
                }
            },
        }
    }
}

impl GrammarView {
    /// The match of a whole argument vector against the grammar, if there is one.
    pub open spec fn parse(self, tokens: Seq<Seq<char>>) -> Option<MatchesView> {
        matched(self.commands, tokens, 0, Seq::empty())
    }
}

/// A selected command is one of `nodes`, is called `token`, and is the first
/// such at or after `from`.
pub proof fn lemma_selected_is_first(nodes: Seq<NodeView>, token: Seq<char>, from: int)
    requires
        0 <= from,
    ensures
        match selected(nodes, token, from) {
            Some(k) => {
                &&& from <= k < nodes.len()
                &&& nodes[k].name == token
                &&& forall|j: int| from <= j < k ==> (#[trigger] nodes[j]).name != token
            },
            None => forall|j: int| from <= j < nodes.len() ==> (#[trigger] nodes[j]).name != token,
        },
    decreases nodes.len() - from,
{
    if from < nodes.len() && nodes[from].name != token {
        lemma_selected_is_first(nodes, token, from + 1);
    }
}

/// The commands that a match names are the leading tokens of the argument
/// vector, in order, and a match names at least one more command than had
/// been matched before.
pub proof fn lemma_matched_path_leads(
    nodes: Seq<NodeView>,
    tokens: Seq<Seq<char>>,
    pos: int,
    path: Seq<Seq<char>>,
)
    requires
        0 <= pos <= tokens.len(),
        path == tokens.take(pos),
    ensures
        matched(nodes, tokens, pos, path) matches Some(m) ==> pos < m.path.len() <= tokens.len()
            && m.path == tokens.take(m.path.len() as int),
    decreases tokens.len() - pos,
{
    if pos < tokens.len() {
        lemma_selected_is_first(nodes, tokens[pos], 0);
        match selected(nodes, tokens[pos], 0) {
            None => {},
            Some(k) => {
                let node = nodes[k];
                let longer = path.push(node.name);
                assert(longer =~= tokens.take(pos + 1));
                if node.children.len() > 0 {
                    lemma_matched_path_leads(node.children, tokens, pos + 1, longer);
                }
            },
        }
    }
}

impl GrammarView {
    /// Whatever the grammar, a match of an argument vector names its leading
    /// tokens, at least the first of them; so the empty vector has no match.
    pub proof fn lemma_parse_path_leads(self, tokens: Seq<Seq<char>>)
        ensures
            self.parse(tokens) matches Some(m) ==> 0 < m.path.len() <= tokens.len() && m.path
                == tokens.take(m.path.len() as int),
    {
        assert(Seq::<Seq<char>>::empty() =~= tokens.take(0));
        lemma_matched_path_leads(self.commands, tokens, 0, Seq::empty());
    }
}

/// Finds the first command in `nodes` that is called `token`.
fn select(nodes: &Vec<CommandNode>, token: &String) -> (r: Option<usize>)
    ensures
        match r {
            Some(k) => k < nodes.len() && selected(node_views(nodes@), token@, 0) == Some(k as int),
            None => selected(node_views(nodes@), token@, 0) == None::<int>,
        },
{
    let mut k: usize = 0;
    while k < nodes.len()
        invariant
            k <= nodes.len(),
            selected(node_views(nodes@), token@, 0) == selected(node_views(nodes@), token@, k as int),
        decreases nodes.len() - k,
    {
        if nodes[k].name == *token {
            return Some(k);
        }
        k = k + 1;
    }
    None
}

/// Looks each flag up among the tokens from position `from` on.
fn flag_states_of(flags: &Vec<FlagSpec>, tokens: &Vec<String>, from: usize) -> (r: Vec<FlagMatch>)
    ensures
        Seq::new(r@.len(), |k: int| r@[k]@) == flag_states(
            flag_views(flags@),
            tokens.deep_view(),
            from as int,
        ),
{
    let mut states: Vec<FlagMatch> = Vec::new();
    let mut k: usize = 0;
    while k < flags.len()
        invariant
            k <= flags.len(),
            states@.len() == k,
            forall|j: int|
                0 <= j < k ==> (#[trigger] states@[j])@ == flag_states(
                    flag_views(flags@),
                    tokens.deep_view(),
                    from as int,
                )[j],
        decreases flags.len() - k,
    {
        let set = flags[k].present_from(tokens, from);
        states.push(FlagMatch { name: flags[k].name.clone(), set });
        k = k + 1;
    }
    proof {
        assert(Seq::new(states@.len(), |k: int| states@[k]@) =~= flag_states(
            flag_views(flags@),
            tokens.deep_view(),
            from as int,
        ));
    }
    states
}

/// Matches the tokens from position `pos` on against the commands `nodes`.
fn descend(nodes: &Vec<CommandNode>, tokens: &Vec<String>, pos: usize, path: Vec<String>) -> (r:
    Option<CommandMatches>)
    ensures
        matches_view(r) == matched(
            node_views(nodes@),
            tokens.deep_view(),
            pos as int,
            path.deep_view(),
        ),
    decreases tokens.len() - pos,
{
    if pos >= tokens.len() {
        return None;
    }
    match select(nodes, &tokens[pos]) {
        None => None,
        Some(k) => {
            let node = &nodes[k];
            let ghost before = path.deep_view();
            let mut path = path;
            path.push(node.name.clone());
            proof {
                node.lemma_children_view();
                assert(path.deep_view() =~= before.push(node@.name));
            }
            if node.children.len() > 0 {
                descend(&node.children, tokens, pos + 1, path)
            } else if node.flags.len() == 0 && pos + 1 < tokens.len() {
                None
            } else {
                let flags = flag_states_of(&node.flags, tokens, pos + 1);
                Some(CommandMatches { path, flags })
            }
        },
    }
}

impl CommandSpec {
    /// Matches a whole argument vector, without the program's name, against
    /// the grammar.
    pub fn parse(&self, tokens: &Vec<String>) -> (r: Option<CommandMatches>)
        ensures
            matches_view(r) == self@.parse(tokens.deep_view()),
    {
        let path: Vec<String> = Vec::new();
        proof {
            assert(path.deep_view() =~= Seq::<Seq<char>>::empty());
        }
        descend(&self.commands, tokens, 0, path)
    }
}

} // verus!
