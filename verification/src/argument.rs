//! The rendering of one argument: a bullet with its flags and help text, and
//! the list of its possible values.

use crate::model::{Argument, ArgumentView, PossibleValueView};
use crate::text::{append_ascii_upper, ascii_upper, join, join_text, lemma_take_next, texts};
use vstd::prelude::*;
use vstd::string::*;

verus! {

/// How an argument is spelled: its short and long flags where it has any,
/// else its identifier in upper case.
pub open spec fn flag_text(argument: ArgumentView) -> Seq<char> {
    match (argument.short_name, argument.long_name) {
        (Some(short), Some(long)) => "`-"@.push(short) + "`, `--"@ + long + "`"@,
        (Some(short), None) => "`-"@.push(short) + "`"@,
        (None, Some(long)) => "`--"@ + long + "`"@,
        (None, None) => "`"@ + ascii_upper(argument.id) + "`"@,
    }
}

/// The rest of an argument's line: the help text where there is one, and the line's end.
pub open spec fn help_text(help: Option<Seq<char>>) -> Seq<char> {
    match help {
        Some(help) => " — "@ + help + "\n"@,
        None => "\n"@,
    }
}

/// The values that are not hidden, in their order.
pub open spec fn shown_values(values: Seq<PossibleValueView>) -> Seq<PossibleValueView> {
    values.filter(|value: PossibleValueView| !value.hidden)
}

/// A name as inline code.
pub open spec fn quoted(name: Seq<char>) -> Seq<char> {
    "`"@ + name + "`"@
}

/// The names of the values, each as inline code.
pub open spec fn quoted_names(values: Seq<PossibleValueView>) -> Seq<Seq<char>> {
    values.map_values(|value: PossibleValueView| quoted(value.name))
}

/// The block that lists an argument's possible values: empty where no value
/// is shown, else a blank line, the label, the names and a blank line.
pub open spec fn possible_values_text(values: Seq<PossibleValueView>) -> Seq<char> {
    if shown_values(values).len() == 0 {
        Seq::empty()
    } else {
        "\n  *Possible Values:* "@ + join_text(quoted_names(shown_values(values)), ", "@)
            + "\n\n"@
    }
}

/// The rendering of one argument.
pub open spec fn argument_text(argument: ArgumentView) -> Seq<char> {
    "* "@ + flag_text(argument) + help_text(argument.help) + possible_values_text(
        argument.possible_values,
    )
}

/// Appends the spelling of `argument` to `buffer`.
fn write_flags(buffer: &mut String, argument: &Argument)
    ensures
        final(buffer)@ == old(buffer)@ + flag_text(argument@),
{
    match &argument.short_name {
        Some(short) => {
            buffer.append("`-");
            buffer.push(*short);
            match &argument.long_name {
                Some(long) => {
                    buffer.append("`, `--");
                    buffer.append(long.as_str());
                },
                None => {},
            }
        },
        None => {
            match &argument.long_name {
                Some(long) => {
                    buffer.append("`--");
                    buffer.append(long.as_str());
                },
                None => {
                    buffer.append("`");
                    append_ascii_upper(buffer, argument.id.as_str());
                },
            }
        },
    }
    buffer.append("`");
}

/// The names of the values of `argument` that are not hidden, each as inline code.
fn shown_value_names(argument: &Argument) -> (names: Vec<String>)
    ensures
        texts(names@) == quoted_names(shown_values(argument@.possible_values)),
{
    let ghost values = argument@.possible_values;
    let mut names: Vec<String> = Vec::new();
    let mut i: usize = 0;
    proof {
        assert(values.take(0) =~= Seq::empty());
        assert(shown_values(values.take(0)) =~= Seq::empty()) by {
            reveal(Seq::filter);
        }
        assert(texts(names@) =~= quoted_names(shown_values(values.take(0))));
    }
    while i < argument.possible_values.len()
        invariant
            i <= argument.possible_values.len(),
            values == argument@.possible_values,
            values.len() == argument.possible_values.len(),
            texts(names@) == quoted_names(shown_values(values.take(i as int))),
        decreases argument.possible_values.len() - i,
    {
        let value = &argument.possible_values[i];
        let ghost names_before = names@;
        if !value.hidden {
            let mut name = String::new();
            name.append("`");
            name.append(value.name.as_str());
            name.append("`");
            names.push(name);
        }
        proof {
            let seen = values.take(i as int);
            lemma_take_next(values, i as int);
            seen.lemma_filter_push(values[i as int], |value: PossibleValueView| !value.hidden);
            assert(values[i as int] == value@);
            if !value.hidden {
                assert(texts(names@) =~= texts(names_before).push(quoted(value@.name)));
                assert(quoted_names(shown_values(seen).push(value@)) =~= quoted_names(
                    shown_values(seen),
                ).push(quoted(value@.name)));
            }
        }
        i += 1;
    }
    proof {
        assert(values.take(i as int) =~= values);
    }
    names
}

/// Renders one argument as a bullet, followed by the list of its possible
/// values where any of them is shown.
///
/// The bullet holds the short and the long flag where the argument has both,
/// the one it has where it has one, and else its identifier in upper case;
/// then the help text, where there is one.
pub fn write_arg_markdown(buffer: &mut String, argument: &Argument)
    requires
        argument@.well_formed(),
    ensures
        final(buffer)@ == old(buffer)@ + argument_text(argument@),
{
    buffer.append("* ");
    write_flags(buffer, argument);
    match &argument.help {
        Some(help) => {
            buffer.append(" — ");
            buffer.append(help.as_str());
            buffer.append("\n");
        },
        None => {
            buffer.append("\n");
        },
    }
    let names = shown_value_names(argument);
    if names.len() > 0 {
        let list = join(&names, ", ");
        buffer.append("\n  *Possible Values:* ");
        buffer.append(list.as_str());
        buffer.append("\n\n");
    }
    proof {
        assert(texts(names@).len() == names@.len());
    }
}

} // verus!
