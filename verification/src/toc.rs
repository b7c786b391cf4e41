//! The overview: one linked entry for each command that is rendered.

use crate::model::Command;
use crate::model::CommandView;
use crate::text::{concat_map, join, join_text, lemma_concat_map_add, lemma_concat_map_empty, lemma_concat_map_push, lemma_take_next, texts};
use crate::traversal::{clone_path, extend_path, visits, visits_below, Visit};
use vstd::prelude::*;
use vstd::string::*;

verus! {

/// How a command is named in headings and links: the names on its path,
/// separated by single spaces.
pub open spec fn heading_text(path: Seq<Seq<char>>) -> Seq<char> {
    join_text(path, " "@)
}

/// The anchor of a command's section: the names on its path, separated by hyphens.
pub open spec fn anchor_text(path: Seq<Seq<char>>) -> Seq<char> {
    join_text(path, "-"@)
}

/// The overview's entry for the command with the given path.
pub open spec fn toc_entry(path: Seq<Seq<char>>) -> Seq<char> {
    "* [`"@ + heading_text(path) + "`↴](#"@ + anchor_text(path) + ")\n"@
}

/// The overview's entries for the given commands, in their order.
pub open spec fn toc_of(visits: Seq<Visit>) -> Seq<char> {
    concat_map(visits, |visit: Visit| toc_entry(visit.path()))
}

/// The overview of the tree at `command`, where `parents` names the ancestors
/// of `command`.
pub open spec fn toc_text(parents: Seq<Seq<char>>, command: CommandView) -> Seq<char> {
    toc_of(visits(parents, command))
}

/// Appends to `buffer` the overview of the tree at `command`: one entry for
/// the command and for each command below it, depth first, a command before
/// its subcommands. Each entry shows the command's path and links to the
/// section headed by it. Nothing is appended for a hidden command, whatever
/// lies below it.
pub fn build_table_of_contents_markdown(
    buffer: &mut String,
    parent_command_path: Vec<String>,
    command: &Command,
)
    ensures
        final(buffer)@ == old(buffer)@ + toc_text(texts(parent_command_path@), command@),
        command.hidden ==> final(buffer)@ == old(buffer)@,
    decreases command,
{
    let ghost parents = texts(parent_command_path@);
    if command.hidden {
        proof {
            lemma_concat_map_empty(|visit: Visit| toc_entry(visit.path()));
        }
        return ;
    }
    let command_path = extend_path(parent_command_path, command.name.as_str());
    let ghost path = texts(command_path@);
    let ghost below = visits_below(path, command@);
    let ghost entry = |visit: Visit| toc_entry(visit.path());

    let heading = join(&command_path, " ");
    let anchor = join(&command_path, "-");
    buffer.append("* [`");
    buffer.append(heading.as_str());
    buffer.append("`↴](#");
    buffer.append(anchor.as_str());
    buffer.append(")\n");

    proof {
        command.lemma_view_subcommands();
        assert(below.take(0) =~= Seq::empty());
        lemma_concat_map_empty(entry);
    }
    let mut i: usize = 0;
    while i < command.subcommands.len()
        invariant
            i <= command.subcommands.len(),
            command@.subcommands.len() == command.subcommands.len(),
            forall|k: int|
                0 <= k < command.subcommands.len() ==> #[trigger] command@.subcommands[k]
                    == command.subcommands[k]@,
            path == texts(command_path@),
            below == visits_below(path, command@),
            entry == |visit: Visit| toc_entry(visit.path()),
            buffer@ == old(buffer)@ + toc_entry(path) + concat_map(
                below.take(i as int).flatten(),
                entry,
            ),
        decreases command.subcommands.len() - i,
    {
        build_table_of_contents_markdown(buffer, clone_path(&command_path), &command.subcommands[i]);
        proof {
            let child = visits(path, command@.subcommands[i as int]);
            assert(below[i as int] == child);
            lemma_take_next(below, i as int);
            below.take(i as int).lemma_flatten_push(child);
            lemma_concat_map_add(below.take(i as int).flatten(), child, entry);
        }
        i += 1;
    }
    proof {
        assert(below.take(i as int) =~= below);
        let own = seq![Visit { parents, command: command@ }];
        assert(own =~= Seq::empty().push(own[0]));
        lemma_concat_map_push(Seq::empty(), own[0], entry);
        lemma_concat_map_add(own, below.flatten(), entry);
    }
}

} // verus!
