//! The sections: one for each command that is rendered.
//!
//! A section holds the command's heading, its description, its usage line,
//! a summary of its subcommands and the lists of its positional arguments and
//! of its options. Every heading is of the second level, however deep the
//! command lies in the tree.

use crate::argument::{argument_text, write_arg_markdown};
use crate::model::{Argument, ArgumentView, Command, CommandView};
use crate::text::{
    concat_map,
    join,
    join_text,
    lemma_concat_map_add,
    lemma_concat_map_empty,
    lemma_concat_map_push,
    lemma_take_next,
    strip_prefix,
    texts,
    without_prefix,
};
use crate::toc::heading_text;
use crate::traversal::{clone_path, extend_path, visits, visits_below, Visit};
use crate::validate::{all_well_formed, own_error, renderable};
use vstd::prelude::*;
use vstd::string::*;

verus! {

/// The heading of the section of the command with the given path.
pub open spec fn heading_line(path: Seq<Seq<char>>) -> Seq<char> {
    "## `"@ + heading_text(path) + "`\n\n"@
}

/// The description of a command: the long one where there is one, else the
/// short one where there is one, else nothing.
pub open spec fn description_text(command: CommandView) -> Seq<char> {
    match command.long_about {
        Some(text) => text + "\n\n"@,
        None => match command.about {
            Some(text) => text + "\n\n"@,
            None => Seq::empty(),
        },
    }
}

/// What stands before the synopsis on a usage line: the names of the
/// ancestors, each followed by a space.
pub open spec fn parent_prefix(parents: Seq<Seq<char>>) -> Seq<char> {
    if parents.len() == 0 {
        Seq::empty()
    } else {
        join_text(parents, " "@) + " "@
    }
}

/// The usage line of a command: the names of its ancestors and its synopsis,
/// the latter without the label that a synopsis starts with.
pub open spec fn usage_line(parents: Seq<Seq<char>>, command: CommandView) -> Seq<char> {
    "**Usage:** `"@ + parent_prefix(parents) + without_prefix(command.usage, "Usage: "@)
        + "`\n\n"@
}

/// The line that stands for a subcommand in its parent's summary.
pub open spec fn subcommand_line(subcommand: CommandView) -> Seq<char> {
    "* `"@ + subcommand.name + "` — "@ + match subcommand.about {
        Some(text) => text,
        None => Seq::empty(),
    } + "\n"@
}

/// The summaries of the given subcommands, in their order.
pub open spec fn subcommand_lines(subcommands: Seq<CommandView>) -> Seq<char> {
    concat_map(subcommands, |subcommand: CommandView| subcommand_line(subcommand))
}

/// The summary of a command's subcommands: nothing where it has none, else a
/// label and one line for each of them, hidden or not.
pub open spec fn subcommands_text(command: CommandView) -> Seq<char> {
    if command.subcommands.len() == 0 {
        Seq::empty()
    } else {
        "###### **Subcommands:**\n\n"@ + subcommand_lines(command.subcommands) + "\n"@
    }
}

/// The positional arguments among `arguments` where `positional` holds, else
/// the others; in their order.
pub open spec fn arguments_of_kind(arguments: Seq<ArgumentView>, positional: bool) -> Seq<
    ArgumentView,
> {
    arguments.filter(|argument: ArgumentView| argument.is_positional() == positional)
}

/// The renderings of the given arguments, in their order.
pub open spec fn argument_lines(arguments: Seq<ArgumentView>) -> Seq<char> {
    concat_map(arguments, |argument: ArgumentView| argument_text(argument))
}

/// A labelled list of arguments: nothing where there are none, else the
/// label, the arguments and an empty line.
pub open spec fn argument_block(label: Seq<char>, arguments: Seq<ArgumentView>) -> Seq<char> {
    if arguments.len() == 0 {
        Seq::empty()
    } else {
        label + argument_lines(arguments) + "\n"@
    }
}

/// The section of a command whose ancestors are named by `parents`.
pub open spec fn section_text(parents: Seq<Seq<char>>, command: CommandView) -> Seq<char> {
    heading_line(parents.push(command.name)) + description_text(command) + usage_line(
        parents,
        command,
    ) + subcommands_text(command) + argument_block(
        "###### **Arguments:**\n\n"@,
        arguments_of_kind(command.arguments, true),
    ) + argument_block("###### **Options:**\n\n"@, arguments_of_kind(command.arguments, false))
        + "\n\n"@
}

/// The sections of the given commands, in their order.
pub open spec fn sections_of(visits: Seq<Visit>) -> Seq<char> {
    concat_map(visits, |visit: Visit| section_text(visit.parents, visit.command))
}

/// The sections of the tree at `command`, where `parents` names the ancestors
/// of `command`.
pub open spec fn sections_text(parents: Seq<Seq<char>>, command: CommandView) -> Seq<char> {
    sections_of(visits(parents, command))
}

/// Appends the description of `command`, where it has one.
fn write_description(buffer: &mut String, command: &Command)
    ensures
        final(buffer)@ == old(buffer)@ + description_text(command@),
{
    match &command.long_about {
        Some(text) => {
            buffer.append(text.as_str());
            buffer.append("\n\n");
        },
        None => match &command.about {
            Some(text) => {
                buffer.append(text.as_str());
                buffer.append("\n\n");
            },
            None => {},
        },
    }
}

/// Appends the usage line of `command`.
fn write_usage(buffer: &mut String, parent_command_path: &Vec<String>, command: &Command)
    ensures
        final(buffer)@ == old(buffer)@ + usage_line(texts(parent_command_path@), command@),
{
    buffer.append("**Usage:** `");
    if parent_command_path.len() > 0 {
        let parents = join(parent_command_path, " ");
        buffer.append(parents.as_str());
        buffer.append(" ");
    }
    buffer.append(strip_prefix(command.usage.as_str(), "Usage: "));
    buffer.append("`\n\n");
}

/// Appends the summary of the subcommands of `command`, where it has any.
fn write_subcommands(buffer: &mut String, command: &Command)
    ensures
        final(buffer)@ == old(buffer)@ + subcommands_text(command@),
{
    if command.subcommands.len() == 0 {
        proof {
            command.lemma_view_subcommands();
        }
        return ;
    }
    let ghost line = |subcommand: CommandView| subcommand_line(subcommand);
    buffer.append("###### **Subcommands:**\n\n");
    proof {
        command.lemma_view_subcommands();
        assert(command@.subcommands.take(0) =~= Seq::empty());
        lemma_concat_map_empty(line);
    }
    let mut i: usize = 0;
    while i < command.subcommands.len()
        invariant
            i <= command.subcommands.len(),
            command@.subcommands.len() == command.subcommands.len(),
            forall|k: int|
                0 <= k < command.subcommands.len() ==> #[trigger] command@.subcommands[k]
                    == command.subcommands[k]@,
            line == |subcommand: CommandView| subcommand_line(subcommand),
            buffer@ == old(buffer)@ + "###### **Subcommands:**\n\n"@ + concat_map(
                command@.subcommands.take(i as int),
                line,
            ),
        decreases command.subcommands.len() - i,
    {
        let subcommand = &command.subcommands[i];
        buffer.append("* `");
        buffer.append(subcommand.name.as_str());
        buffer.append("` — ");
        match &subcommand.about {
            Some(text) => {
                buffer.append(text.as_str());
            },
            None => {},
        }
        buffer.append("\n");
        proof {
            lemma_take_next(command@.subcommands, i as int);
            lemma_concat_map_push(command@.subcommands.take(i as int), subcommand@, line);
        }
        i += 1;
    }
    buffer.append("\n");
    proof {
        assert(command@.subcommands.take(i as int) =~= command@.subcommands);
    }
}

/// Appends the list of the positional arguments among `arguments`, or that of
/// the others, under `label`; nothing where there is no such argument.
fn write_arguments(buffer: &mut String, label: &str, arguments: &Vec<Argument>, positional: bool)
    requires
        all_well_formed(arguments@.map_values(|argument: Argument| argument@)),
    ensures
        final(buffer)@ == old(buffer)@ + argument_block(
            label@,
            arguments_of_kind(arguments@.map_values(|argument: Argument| argument@), positional),
        ),
{
    let ghost views = arguments@.map_values(|argument: Argument| argument@);
    let ghost kind = |argument: ArgumentView| argument.is_positional() == positional;
    let ghost line = |argument: ArgumentView| argument_text(argument);
    let mut lines = String::new();
    let mut found: bool = false;
    proof {
        assert(views.take(0) =~= Seq::empty());
        assert(views.take(0).filter(kind) =~= Seq::empty()) by {
            reveal(Seq::filter);
        }
        lemma_concat_map_empty(line);
    }
    let mut i: usize = 0;
    while i < arguments.len()
        invariant
            i <= arguments.len(),
            views == arguments@.map_values(|argument: Argument| argument@),
            all_well_formed(views),
            kind == |argument: ArgumentView| argument.is_positional() == positional,
            line == |argument: ArgumentView| argument_text(argument),
            found <==> views.take(i as int).filter(kind).len() > 0,
            lines@ == concat_map(views.take(i as int).filter(kind), line),
        decreases arguments.len() - i,
    {
        let argument = &arguments[i];
        proof {
            lemma_take_next(views, i as int);
            views.take(i as int).lemma_filter_push(views[i as int], kind);
            assert(views[i as int] == argument@);
        }
        if argument.is_positional() == positional {
            write_arg_markdown(&mut lines, argument);
            found = true;
            proof {
                lemma_concat_map_push(views.take(i as int).filter(kind), argument@, line);
            }
        }
        i += 1;
    }
    proof {
        assert(views.take(i as int) =~= views);
    }
    if found {
        buffer.append(label);
        buffer.append(lines.as_str());
        buffer.append("\n");
    }
}

/// Appends the section of `command`, whose path is `command_path` and whose
/// ancestors are named by `parent_command_path`.
fn write_section(
    buffer: &mut String,
    parent_command_path: &Vec<String>,
    command_path: &Vec<String>,
    command: &Command,
)
    requires
        texts(command_path@) == texts(parent_command_path@).push(command@.name),
        own_error(command@) is None,
    ensures
        final(buffer)@ == old(buffer)@ + section_text(texts(parent_command_path@), command@),
{
    let ghost parents = texts(parent_command_path@);
    let ghost start = buffer@;
    let heading = join(command_path, " ");
    buffer.append("## `");
    buffer.append(heading.as_str());
    buffer.append("`\n\n");
    let ghost written = heading_line(parents.push(command@.name));
    assert(buffer@ == start + written);

    write_description(buffer, command);
    assert(buffer@ == start + (written + description_text(command@)));
    let ghost written = written + description_text(command@);

    write_usage(buffer, parent_command_path, command);
    assert(buffer@ == start + (written + usage_line(parents, command@)));
    let ghost written = written + usage_line(parents, command@);

    write_subcommands(buffer, command);
    assert(buffer@ == start + (written + subcommands_text(command@)));
    let ghost written = written + subcommands_text(command@);

    write_arguments(buffer, "###### **Arguments:**\n\n", &command.arguments, true);
    let ghost positionals = argument_block(
        "###### **Arguments:**\n\n"@,
        arguments_of_kind(command@.arguments, true),
    );
    assert(buffer@ == start + (written + positionals));
    let ghost written = written + positionals;

    write_arguments(buffer, "###### **Options:**\n\n", &command.arguments, false);
    let ghost options = argument_block(
        "###### **Options:**\n\n"@,
        arguments_of_kind(command@.arguments, false),
    );
    assert(buffer@ == start + (written + options));
    let ghost written = written + options;

    buffer.append("\n\n");
    assert(buffer@ == start + (written + "\n\n"@));
}

/// Appends to `buffer` the sections of the tree at `command`: the section of
/// the command, then those of the trees at its subcommands, in their order.
/// Nothing is appended for a hidden command, whatever lies below it.
///
/// A section shows the path of its command as a heading of the second level,
/// the long description or else the short one, the usage line, a summary that
/// names every subcommand, the positional arguments and the options.
pub fn build_command_markdown(
    buffer: &mut String,
    parent_command_path: Vec<String>,
    command: &Command,
)
    requires
        renderable(command@),
    ensures
        final(buffer)@ == old(buffer)@ + sections_text(texts(parent_command_path@), command@),
        command.hidden ==> final(buffer)@ == old(buffer)@,
    decreases command,
{
    let ghost parents = texts(parent_command_path@);
    let ghost section = |visit: Visit| section_text(visit.parents, visit.command);
    if command.hidden {
        proof {
            lemma_concat_map_empty(section);
        }
        return ;
    }
    let command_path = extend_path(clone_path(&parent_command_path), command.name.as_str());
    let ghost path = texts(command_path@);
    let ghost below = visits_below(path, command@);
    write_section(buffer, &parent_command_path, &command_path, command);

    proof {
        command.lemma_view_subcommands();
        assert(below.take(0) =~= Seq::empty());
        lemma_concat_map_empty(section);
    }
    let mut i: usize = 0;
    while i < command.subcommands.len()
        invariant
            i <= command.subcommands.len(),
            command@.subcommands.len() == command.subcommands.len(),
            forall|k: int|
                0 <= k < command.subcommands.len() ==> #[trigger] command@.subcommands[k]
                    == command.subcommands[k]@,
            forall|k: int|
                0 <= k < command.subcommands.len() ==> renderable(
                    #[trigger] command@.subcommands[k],
                ),
            path == texts(command_path@),
            below == visits_below(path, command@),
            section == |visit: Visit| section_text(visit.parents, visit.command),
            buffer@ == old(buffer)@ + section_text(parents, command@) + concat_map(
                below.take(i as int).flatten(),
                section,
            ),
        decreases command.subcommands.len() - i,
    {
        assert(renderable(command@.subcommands[i as int]));
        build_command_markdown(buffer, clone_path(&command_path), &command.subcommands[i]);
        proof {
            let child = visits(path, command@.subcommands[i as int]);
            assert(below[i as int] == child);
            lemma_take_next(below, i as int);
            below.take(i as int).lemma_flatten_push(child);
            lemma_concat_map_add(below.take(i as int).flatten(), child, section);
        }
        i += 1;
    }
    proof {
        assert(below.take(i as int) =~= below);
        let own = seq![Visit { parents, command: command@ }];
        assert(own =~= Seq::empty().push(own[0]));
        lemma_concat_map_push(Seq::empty(), own[0], section);
        lemma_concat_map_add(own, below.flatten(), section);
    }
}

} // verus!
