//! The document: title, introduction, overview, sections and footer.

use crate::model::{Command, CommandView};
use crate::section::{build_command_markdown, sections_text};
use crate::text::texts;
use crate::toc::{build_table_of_contents_markdown, toc_text};
use crate::validate::{first_error, renderable, validate_command, RenderError};
use vstd::prelude::*;
use vstd::string::*;

verus! {

/// How the program is named in the title: by the display name of the root
/// command where it has one, else by its name as inline code.
pub open spec fn title_text(command: CommandView) -> Seq<char> {
    match command.display_name {
        Some(name) => name,
        None => "`"@ + command.name + "`"@,
    }
}

/// The title of the document.
pub open spec fn title_line(command: CommandView) -> Seq<char> {
    "# Command-Line Help for "@ + title_text(command) + "\n\n"@
}

/// The sentence that introduces the document.
pub open spec fn introduction_text(command: CommandView) -> Seq<char> {
    "This document contains the help content for the `"@ + command.name
        + "` command-line program.\n\n"@
}

/// The label above the overview.
pub open spec fn overview_label() -> Seq<char> {
    "**Command Overview:**\n\n"@
}

/// The footer that closes every document.
pub open spec fn footer_text() -> Seq<char> {
    "<hr/>\n\n<small><i>\n    This document was generated automatically by\n    <a href=\"https://crates.io/crates/clap-markdown\"><code>clap-markdown</code></a>.\n</i></small>\n"@
}

/// The document for the command tree at `command`: the title, the
/// introduction, the overview with its label, an empty line, the sections and
/// the footer.
pub open spec fn document_text(command: CommandView) -> Seq<char> {
    title_line(command) + introduction_text(command) + overview_label() + toc_text(
        Seq::empty(),
        command,
    ) + "\n"@ + sections_text(Seq::empty(), command) + footer_text()
}

/// Appends the title of the document.
fn write_title(buffer: &mut String, command: &Command)
    ensures
        final(buffer)@ == old(buffer)@ + title_line(command@),
{
    buffer.append("# Command-Line Help for ");
    match &command.display_name {
        Some(name) => {
            buffer.append(name.as_str());
        },
        None => {
            buffer.append("`");
            buffer.append(command.name.as_str());
            buffer.append("`");
        },
    }
    buffer.append("\n\n");
}

/// Appends to `buffer` the document for the command tree at `command`.
pub fn write_help_markdown(buffer: &mut String, command: &Command)
    requires
        renderable(command@),
    ensures
        final(buffer)@ == old(buffer)@ + document_text(command@),
{
    let ghost start = buffer@;
    let ghost root = Seq::<Seq<char>>::empty();
    write_title(buffer, command);
    let ghost written = title_line(command@);

    buffer.append("This document contains the help content for the `");
    buffer.append(command.name.as_str());
    buffer.append("` command-line program.\n\n");
    assert(buffer@ == start + (written + introduction_text(command@)));
    let ghost written = written + introduction_text(command@);

    buffer.append("**Command Overview:**\n\n");
    assert(buffer@ == start + (written + overview_label()));
    let ghost written = written + overview_label();

    let no_parents: Vec<String> = Vec::new();
    assert(texts(no_parents@) =~= root);
    build_table_of_contents_markdown(buffer, no_parents, command);
    assert(buffer@ == start + (written + toc_text(root, command@)));
    let ghost written = written + toc_text(root, command@);

    buffer.append("\n");
    assert(buffer@ == start + (written + "\n"@));
    let ghost written = written + "\n"@;

    let no_parents: Vec<String> = Vec::new();
    assert(texts(no_parents@) =~= root);
    build_command_markdown(buffer, no_parents, command);
    assert(buffer@ == start + (written + sections_text(root, command@)));
    let ghost written = written + sections_text(root, command@);

    buffer.append(
        "<hr/>\n\n<small><i>\n    This document was generated automatically by\n    <a href=\"https://crates.io/crates/clap-markdown\"><code>clap-markdown</code></a>.\n</i></small>\n",
    );
    assert(buffer@ == start + (written + footer_text()));
}

/// Formats the help of the command tree at `command` as one Markdown document.
///
/// The tree must be one that can be rendered; [`validate_command`] tells
/// whether it is, and [`try_help_markdown_command`] renders only where it is.
pub fn help_markdown_command(command: &Command) -> (document: String)
    requires
        renderable(command@),
    ensures
        document@ == document_text(command@),
{
    let mut buffer = String::new();
    write_help_markdown(&mut buffer, command);
    buffer
}

/// Formats the help of the command tree at `command` as one Markdown
/// document, or tells why the tree cannot be rendered. There is no partial
/// document: the outcome is the whole document or the error at which a
/// rendering would stop.
pub fn try_help_markdown_command(command: &Command) -> (outcome: Result<String, RenderError>)
    ensures
        match first_error(command@) {
            Some(error) => outcome == Err::<String, RenderError>(error),
            None => outcome matches Ok(document) && document@ == document_text(command@),
        },
{
    match validate_command(command) {
        Err(error) => Err(error),
        Ok(()) => Ok(help_markdown_command(command)),
    }
}

} // verus!
