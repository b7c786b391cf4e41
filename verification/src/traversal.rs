//! The order in which the commands of a tree are rendered, and the path of each.
//!
//! Both the overview and the sections are laid out by one walk of the tree:
//! depth first, a command before its subcommands, the subcommands in their
//! order. A hidden command is not visited, and neither is anything below it.

use crate::model::CommandView;
use crate::text::texts;
use vstd::prelude::*;

verus! {

/// A command that is rendered, together with the names of its ancestors from
/// the root down.
pub struct Visit {
    pub parents: Seq<Seq<char>>,
    pub command: CommandView,
}

impl Visit {
    /// The names from the root down to this command, its own name last.
    pub open spec fn path(self) -> Seq<Seq<char>> {
        self.parents.push(self.command.name)
    }
}

/// The commands rendered for the tree at `command`, in their order, where
/// `parents` names the ancestors of `command`.
pub open spec fn visits(parents: Seq<Seq<char>>, command: CommandView) -> Seq<Visit>
    decreases command, 1nat,
{
    if command.hidden {
        Seq::empty()
    } else {
        seq![Visit { parents, command }] + visits_below(
            parents.push(command.name),
            command,
        ).flatten()
    }
}

/// For each subcommand of `command`, in their order, the commands rendered
/// for the tree at that subcommand, where `path` ends in the name of `command`.
pub open spec fn visits_below(path: Seq<Seq<char>>, command: CommandView) -> Seq<Seq<Visit>>
    decreases command, 0nat,
{
    Seq::new(
        command.subcommands.len(),
        |i: int|
            if 0 <= i < command.subcommands.len() {
                visits(path, command.subcommands[i])
            } else {
                Seq::empty()
            },
    )
}

/// A copy of `path`.
pub fn clone_path(path: &Vec<String>) -> (copy: Vec<String>)
    ensures
        texts(copy@) == texts(path@),
{
    let mut copy: Vec<String> = Vec::new();
    let mut i: usize = 0;
    while i < path.len()
        invariant
            i <= path.len(),
            texts(copy@) == texts(path@.take(i as int)),
        decreases path.len() - i,
    {
        let ghost copied = copy@;
        copy.push(path[i].clone());
        proof {
            assert(path@.take(i + 1) =~= path@.take(i as int).push(path@[i as int]));
            assert(texts(copy@) =~= texts(copied).push(path@[i as int]@));
            assert(texts(path@.take(i + 1)) =~= texts(path@.take(i as int)).push(
                path@[i as int]@,
            ));
        }
        i += 1;
    }
    proof {
        assert(path@.take(path.len() as int) =~= path@);
    }
    copy
}

/// The path of a command: the path of its parent with its own name appended.
pub fn extend_path(parent_path: Vec<String>, name: &str) -> (path: Vec<String>)
    ensures
        texts(path@) == texts(parent_path@).push(name@),
{
    let mut path = parent_path;
    path.push(name.to_owned());
    path
}

} // verus!
