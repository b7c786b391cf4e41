//! What holds of every document.
//!
//! The overview and the sections unfold along the tree; a hidden command and
//! all that lies below it leave no trace in either; each entry of the
//! overview links to the heading of the section of the same command; and a
//! document is determined by the tree it is rendered from.

use crate::document::{document_text, help_markdown_command};
use crate::model::{Command, CommandView};
use crate::section::{
    heading_line,
    section_text,
    sections_of,
    sections_text,
    subcommand_line,
    subcommand_lines,
    subcommands_text,
};
use crate::text::{
    concat_map,
    join_text,
    lemma_concat_map_add,
    lemma_concat_map_alike,
    lemma_concat_map_empty,
    lemma_concat_map_flatten,
    lemma_concat_map_push,
};
use crate::toc::{anchor_text, heading_text, toc_entry, toc_of, toc_text};
use crate::traversal::{visits, visits_below, Visit};
use crate::validate::{own_error, renderable};
use vstd::prelude::*;

verus! {

/// The overviews of the trees at the given subcommands, in their order,
/// where `path` is the path of their parent.
pub open spec fn toc_below(path: Seq<Seq<char>>, subcommands: Seq<CommandView>) -> Seq<char> {
    concat_map(subcommands, |subcommand: CommandView| toc_text(path, subcommand))
}

/// The sections of the trees at the given subcommands, in their order, where
/// `path` is the path of their parent.
pub open spec fn sections_below(path: Seq<Seq<char>>, subcommands: Seq<CommandView>) -> Seq<
    char,
> {
    concat_map(subcommands, |subcommand: CommandView| sections_text(path, subcommand))
}

/// The overview of a visible command is its own entry followed by the
/// overviews of its subcommands, in their order; that of a hidden command is
/// empty.
pub proof fn lemma_toc_unfolds(parents: Seq<Seq<char>>, command: CommandView)
    ensures
        toc_text(parents, command) == if command.hidden {
            Seq::<char>::empty()
        } else {
            toc_entry(parents.push(command.name)) + toc_below(
                parents.push(command.name),
                command.subcommands,
            )
        },
{
    let entry = |visit: Visit| toc_entry(visit.path());
    if command.hidden {
        lemma_concat_map_empty(entry);
    } else {
        let path = parents.push(command.name);
        let own = Visit { parents, command };
        let below = visits_below(path, command);
        assert(seq![own] =~= Seq::empty().push(own));
        lemma_concat_map_empty(entry);
        lemma_concat_map_push(Seq::empty(), own, entry);
        lemma_concat_map_add(seq![own], below.flatten(), entry);
        lemma_concat_map_flatten(below, entry);
        lemma_concat_map_alike(
            below,
            |run: Seq<Visit>| concat_map(run, entry),
            command.subcommands,
            |subcommand: CommandView| toc_text(path, subcommand),
        );
    }
}

/// The sections of a visible command are its own section followed by the
/// sections of its subcommands, in their order; those of a hidden command
/// are empty.
pub proof fn lemma_sections_unfold(parents: Seq<Seq<char>>, command: CommandView)
    ensures
        sections_text(parents, command) == if command.hidden {
            Seq::<char>::empty()
        } else {
            section_text(parents, command) + sections_below(
                parents.push(command.name),
                command.subcommands,
            )
        },
{
    let section = |visit: Visit| section_text(visit.parents, visit.command);
    if command.hidden {
        lemma_concat_map_empty(section);
    } else {
        let path = parents.push(command.name);
        let own = Visit { parents, command };
        let below = visits_below(path, command);
        assert(seq![own] =~= Seq::empty().push(own));
        lemma_concat_map_empty(section);
        lemma_concat_map_push(Seq::empty(), own, section);
        lemma_concat_map_add(seq![own], below.flatten(), section);
        lemma_concat_map_flatten(below, section);
        lemma_concat_map_alike(
            below,
            |run: Seq<Visit>| concat_map(run, section),
            command.subcommands,
            |subcommand: CommandView| sections_text(path, subcommand),
        );
    }
}

/// A hidden command is not rendered: it adds nothing to the overview and
/// nothing to the sections, whatever its subcommands are and whether they
/// are hidden or not.
pub proof fn lemma_hidden_command_renders_nothing(parents: Seq<Seq<char>>, command: CommandView)
    requires
        command.hidden,
    ensures
        visits(parents, command) == Seq::<Visit>::empty(),
        toc_text(parents, command) == Seq::<char>::empty(),
        sections_text(parents, command) == Seq::<char>::empty(),
{
    lemma_toc_unfolds(parents, command);
    lemma_sections_unfold(parents, command);
}

/// Two trees are the same where they are visible: hidden commands agree in
/// name and short description, which is all that a parent's summary shows of
/// them; visible commands agree in all but their subcommands, which are the
/// same where they are visible, place by place.
pub open spec fn same_where_visible(first: CommandView, second: CommandView) -> bool
    decreases first,
{
    if first.hidden {
        second.hidden && second.name == first.name && second.about == first.about
    } else {
        &&& second == (CommandView { subcommands: second.subcommands, ..first })
        &&& second.subcommands.len() == first.subcommands.len()
        &&& forall|i: int|
            0 <= i < first.subcommands.len() ==> same_where_visible(
                #[trigger] first.subcommands[i],
                second.subcommands[i],
            )
    }
}

/// Trees that are the same where they are visible have the same overview and
/// the same sections under any ancestors, and either both can be rendered or
/// neither can.
pub proof fn lemma_hidden_parts_leave_no_trace(
    parents: Seq<Seq<char>>,
    first: CommandView,
    second: CommandView,
)
    requires
        same_where_visible(first, second),
    ensures
        toc_text(parents, first) == toc_text(parents, second),
        sections_text(parents, first) == sections_text(parents, second),
        renderable(first) == renderable(second),
    decreases first,
{
    lemma_toc_unfolds(parents, first);
    lemma_toc_unfolds(parents, second);
    lemma_sections_unfold(parents, first);
    lemma_sections_unfold(parents, second);
    if !first.hidden {
        let path = parents.push(first.name);
        assert forall|i: int| 0 <= i < first.subcommands.len() implies {
            &&& toc_text(path, #[trigger] first.subcommands[i]) == toc_text(
                path,
                second.subcommands[i],
            )
            &&& sections_text(path, first.subcommands[i]) == sections_text(
                path,
                second.subcommands[i],
            )
            &&& renderable(first.subcommands[i]) == renderable(second.subcommands[i])
            &&& subcommand_line(first.subcommands[i]) == subcommand_line(second.subcommands[i])
        } by {
            lemma_hidden_parts_leave_no_trace(path, first.subcommands[i], second.subcommands[i]);
        }
        lemma_concat_map_alike(
            first.subcommands,
            |subcommand: CommandView| toc_text(path, subcommand),
            second.subcommands,
            |subcommand: CommandView| toc_text(path, subcommand),
        );
        lemma_concat_map_alike(
            first.subcommands,
            |subcommand: CommandView| sections_text(path, subcommand),
            second.subcommands,
            |subcommand: CommandView| sections_text(path, subcommand),
        );
        lemma_concat_map_alike(
            first.subcommands,
            |subcommand: CommandView| subcommand_line(subcommand),
            second.subcommands,
            |subcommand: CommandView| subcommand_line(subcommand),
        );
        assert(subcommands_text(first) == subcommands_text(second));
        assert(section_text(parents, first) == section_text(parents, second));
        assert(own_error(first) == own_error(second));
        if renderable(first) {
            assert forall|i: int| 0 <= i < second.subcommands.len() implies renderable(
                #[trigger] second.subcommands[i],
            ) by {
                assert(renderable(first.subcommands[i]));
            }
        }
        if renderable(second) {
            assert forall|i: int| 0 <= i < first.subcommands.len() implies renderable(
                #[trigger] first.subcommands[i],
            ) by {
                assert(renderable(second.subcommands[i]));
            }
        }
    }
}

/// Trees that are the same where they are visible give the same document.
pub proof fn lemma_document_shows_visible_parts_only(first: CommandView, second: CommandView)
    requires
        same_where_visible(first, second),
        !first.hidden,
    ensures
        document_text(first) == document_text(second),
{
    lemma_hidden_parts_leave_no_trace(Seq::empty(), first, second);
}

/// The entries of the overview, one for each command that is rendered.
pub open spec fn toc_entries(parents: Seq<Seq<char>>, command: CommandView) -> Seq<Seq<char>> {
    visits(parents, command).map_values(|visit: Visit| toc_entry(visit.path()))
}

/// The sections, one for each command that is rendered.
pub open spec fn sections(parents: Seq<Seq<char>>, command: CommandView) -> Seq<Seq<char>> {
    visits(parents, command).map_values(
        |visit: Visit| section_text(visit.parents, visit.command),
    )
}

/// The overview and the sections are laid out by the same walk: there are as
/// many entries as sections, and the entry and the section at the same place
/// belong to the same command. The entry shows that command's path and links
/// to the anchor made from it; the section begins with the heading that
/// shows the same path. So every link of the overview leads to a heading.
pub proof fn lemma_overview_links_to_headings(parents: Seq<Seq<char>>, command: CommandView)
    ensures
        toc_text(parents, command) == toc_entries(parents, command).flatten(),
        sections_text(parents, command) == sections(parents, command).flatten(),
        toc_entries(parents, command).len() == sections(parents, command).len(),
        forall|k: int|
            #![trigger toc_entries(parents, command)[k]]
            #![trigger sections(parents, command)[k]]
            0 <= k < visits(parents, command).len() ==> {
                let path = visits(parents, command)[k].path();
                &&& toc_entries(parents, command)[k] == "* [`"@ + heading_text(path) + "`↴](#"@
                    + anchor_text(path) + ")\n"@
                &&& ("## `"@ + heading_text(path) + "`\n\n"@).is_prefix_of(
                    sections(parents, command)[k],
                )
            },
{
    assert forall|k: int| 0 <= k < visits(parents, command).len() implies heading_line(
        visits(parents, command)[k].path(),
    ).is_prefix_of(#[trigger] sections(parents, command)[k]) by {
        let visit = visits(parents, command)[k];
        let section = section_text(visit.parents, visit.command);
        let heading = heading_line(visit.path());
        assert(section.subrange(0, heading.len() as int) =~= heading);
    }
}

/// The text with each space replaced by a hyphen.
pub open spec fn hyphenated(text: Seq<char>) -> Seq<char> {
    text.map_values(|c: char| if c == ' ' { '-' } else { c })
}

/// Where no name on a path holds a space, the anchor of the path is what its
/// heading shows, with a hyphen in place of each space.
pub proof fn lemma_anchor_is_hyphenated_heading(path: Seq<Seq<char>>)
    requires
        forall|i: int, k: int|
            0 <= i < path.len() && 0 <= k < path[i].len() ==> #[trigger] path[i][k] != ' ',
    ensures
        anchor_text(path) == hyphenated(heading_text(path)),
    decreases path.len(),
{
    reveal_strlit(" ");
    reveal_strlit("-");
    if path.len() == 0 {
        assert(hyphenated(Seq::empty()) =~= Seq::empty());
    } else if path.len() == 1 {
        assert(hyphenated(path[0]) =~= path[0]);
    } else {
        let front = path.drop_last();
        lemma_anchor_is_hyphenated_heading(front);
        assert(hyphenated(path.last()) =~= path.last());
        assert(hyphenated(" "@) =~= "-"@);
        assert(hyphenated(join_text(front, " "@) + " "@ + path.last()) =~= hyphenated(
            join_text(front, " "@),
        ) + hyphenated(" "@) + hyphenated(path.last()));
    }
}

/// Rendering is a function of the tree: two renderings of trees with the
/// same view are the same text.
pub proof fn lemma_rendering_is_deterministic(
    first: Command,
    second: Command,
    first_document: String,
    second_document: String,
)
    requires
        first@ == second@,
        call_ensures(help_markdown_command, (&first,), first_document),
        call_ensures(help_markdown_command, (&second,), second_document),
    ensures
        first_document@ == second_document@,
{
}

} // verus!
