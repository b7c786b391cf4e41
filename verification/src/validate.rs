//! Which command trees can be rendered, and what is wrong with one that cannot.
//!
//! Two things stop a rendering: a visible command that carries text to show
//! before or after its help, for which the document has no place, and a
//! positional argument of a visible command that has no identifier to be
//! shown by. Hidden commands are never rendered, so nothing in or below them
//! is looked at.

use crate::model::{Argument, ArgumentView, Command, CommandView};
use vstd::prelude::*;

verus! {

/// Why a command tree cannot be rendered.
#[derive(Clone, Copy, Debug, PartialEq, Eq)]
pub enum RenderError {
    /// A visible command carries text to show before or after its help.
    UnsupportedInput,
    /// A visible command has a positional argument with an empty identifier.
    MalformedArgument,
}

/// Whether every argument of the sequence is well formed.
pub open spec fn all_well_formed(arguments: Seq<ArgumentView>) -> bool {
    forall|i: int| 0 <= i < arguments.len() ==> (#[trigger] arguments[i]).well_formed()
}

/// What stops the rendering of the command's own section, if anything does.
/// Unsupported help text is found before a malformed argument.
pub open spec fn own_error(command: CommandView) -> Option<RenderError> {
    if command.before_help is Some || command.after_help is Some {
        Some(RenderError::UnsupportedInput)
    } else if !all_well_formed(command.arguments) {
        Some(RenderError::MalformedArgument)
    } else {
        None
    }
}

/// Whether the tree at `command` can be rendered: the command is hidden, or
/// nothing stops its own section and each of its subcommands can be rendered.
pub open spec fn renderable(command: CommandView) -> bool
    decreases command,
{
    command.hidden || (own_error(command) is None && forall|i: int|
        0 <= i < command.subcommands.len() ==> renderable(#[trigger] command.subcommands[i]))
}

/// The error at which a rendering of the tree at `command` stops: that of the
/// first command, in the order of rendering, whose own section cannot be rendered.
pub open spec fn first_error(command: CommandView) -> Option<RenderError>
    decreases command, 1nat, 0nat,
{
    if command.hidden {
        None
    } else if own_error(command) is Some {
        own_error(command)
    } else {
        first_error_below(command, 0)
    }
}

/// The first error among the subcommands of `command` from position `from` on.
pub open spec fn first_error_below(command: CommandView, from: nat) -> Option<RenderError>
    decreases command, 0nat, command.subcommands.len() - from,
{
    if from >= command.subcommands.len() {
        None
    } else if first_error(command.subcommands[from as int]) is Some {
        first_error(command.subcommands[from as int])
    } else {
        first_error_below(command, from + 1)
    }
}

/// A tree can be rendered exactly when no error stops its rendering.
pub proof fn lemma_renderable_iff_no_error(command: CommandView)
    ensures
        renderable(command) <==> first_error(command) is None,
    decreases command, 1nat, 0nat,
{
    if !command.hidden && own_error(command) is None {
        lemma_no_error_below(command, 0);
    }
}

/// No error is found among the subcommands from `from` on exactly when each of
/// them can be rendered.
proof fn lemma_no_error_below(command: CommandView, from: nat)
    ensures
        first_error_below(command, from) is None <==> forall|i: int|
            from <= i < command.subcommands.len() ==> renderable(
                #[trigger] command.subcommands[i],
            ),
    decreases command, 0nat, command.subcommands.len() - from,
{
    if from < command.subcommands.len() {
        lemma_renderable_iff_no_error(command.subcommands[from as int]);
        lemma_no_error_below(command, from + 1);
    }
}

/// Whether the argument is well formed: positional arguments need an identifier.
pub fn argument_is_well_formed(argument: &Argument) -> (well_formed: bool)
    ensures
        well_formed == argument@.well_formed(),
{
    !argument.is_positional() || argument.id.as_str().unicode_len() > 0
}

/// Whether every argument of the command is well formed.
fn arguments_are_well_formed(arguments: &Vec<Argument>) -> (well_formed: bool)
    ensures
        well_formed == all_well_formed(arguments@.map_values(|argument: Argument| argument@)),
{
    let ghost views = arguments@.map_values(|argument: Argument| argument@);
    let mut i: usize = 0;
    while i < arguments.len()
        invariant
            i <= arguments.len(),
            views == arguments@.map_values(|argument: Argument| argument@),
            forall|k: int| 0 <= k < i ==> (#[trigger] views[k]).well_formed(),
        decreases arguments.len() - i,
    {
        if !argument_is_well_formed(&arguments[i]) {
            assert(!views[i as int].well_formed());
            return false;
        }
        i += 1;
    }
    true
}

/// Finds out whether the tree at `command` can be rendered. Where it cannot,
/// the error is the one at which a rendering would stop.
pub fn validate_command(command: &Command) -> (outcome: Result<(), RenderError>)
    ensures
        outcome == (match first_error(command@) {
            Some(error) => Err(error),
            None => Ok(()),
        }),
        outcome is Ok <==> renderable(command@),
    decreases command,
{
    proof {
        lemma_renderable_iff_no_error(command@);
        command.lemma_view_subcommands();
    }
    if command.hidden {
        return Ok(());
    }
    if command.before_help.is_some() || command.after_help.is_some() {
        return Err(RenderError::UnsupportedInput);
    }
    if !arguments_are_well_formed(&command.arguments) {
        return Err(RenderError::MalformedArgument);
    }
    let mut i: usize = 0;
    while i < command.subcommands.len()
        invariant
            i <= command.subcommands.len(),
            command@.subcommands.len() == command.subcommands.len(),
            forall|k: int|
                0 <= k < command.subcommands.len() ==> #[trigger] command@.subcommands[k]
                    == command.subcommands[k]@,
            !command@.hidden,
            own_error(command@) is None,
            renderable(command@) <==> first_error(command@) is None,
            first_error_below(command@, 0) == first_error_below(command@, i as nat),
        decreases command.subcommands.len() - i,
    {
        match validate_command(&command.subcommands[i]) {
            Err(error) => {
                return Err(error);
            },
            Ok(()) => {},
        }
        i += 1;
    }
    Ok(())
}

} // verus!
