use clap_markdown::document::{
    help_markdown_command, try_help_markdown_command, write_help_markdown,
};
use clap_markdown::model::{Argument, Command, PossibleValue};
use clap_markdown::section::build_command_markdown;
use clap_markdown::toc::build_table_of_contents_markdown;
use clap_markdown::validate::{argument_is_well_formed, validate_command, RenderError};

const FOOTER: &str = "<hr/>\n\n<small><i>\n    This document was generated automatically by\n    <a href=\"https://crates.io/crates/clap-markdown\"><code>clap-markdown</code></a>.\n</i></small>\n";

fn command(name: &str, usage: &str) -> Command {
    Command {
        name: name.to_string(),
        display_name: None,
        about: None,
        long_about: None,
        before_help: None,
        after_help: None,
        usage: usage.to_string(),
        hidden: false,
        arguments: Vec::new(),
        subcommands: Vec::new(),
    }
}

fn option(id: &str, short: Option<char>, long: Option<&str>, help: Option<&str>) -> Argument {
    Argument {
        id: id.to_string(),
        short_name: short,
        long_name: long.map(|name| name.to_string()),
        help: help.map(|text| text.to_string()),
        possible_values: Vec::new(),
        hidden: false,
    }
}

fn overview(root: &Command) -> String {
    let mut buffer = String::new();
    build_table_of_contents_markdown(&mut buffer, Vec::new(), root);
    buffer
}

fn sections(root: &Command) -> String {
    let mut buffer = String::new();
    build_command_markdown(&mut buffer, Vec::new(), root);
    buffer
}

/// The tool of the end-to-end scenario: a visible subcommand with one option
/// and a hidden subcommand.
fn tool() -> Command {
    let mut run = command("run", "Usage: run [OPTIONS]");
    run.arguments.push(option("verbose", Some('v'), Some("verbose"), Some("enable verbose output")));
    let mut internal = command("internal", "Usage: internal");
    internal.hidden = true;
    let mut root = command("tool", "Usage: tool [COMMAND]");
    root.subcommands.push(run);
    root.subcommands.push(internal);
    root
}

#[test]
fn command_without_arguments_or_subcommands() {
    let expected = String::new()
        + "# Command-Line Help for `tool`\n\n"
        + "This document contains the help content for the `tool` command-line program.\n\n"
        + "**Command Overview:**\n\n"
        + "* [`tool`↴](#tool)\n"
        + "\n"
        + "## `tool`\n\n"
        + "**Usage:** `tool`\n\n"
        + "\n\n"
        + FOOTER;
    let document = help_markdown_command(&command("tool", "Usage: tool"));
    assert_eq!(document, expected);
    assert_eq!(document.matches("* [`").count(), 1);
    assert!(!document.contains("###### **Subcommands:**"));
    assert!(!document.contains("###### **Arguments:**"));
    assert!(!document.contains("###### **Options:**"));
    assert!(document.ends_with(FOOTER));
}

#[test]
fn tool_with_a_visible_and_a_hidden_subcommand() {
    let document = help_markdown_command(&tool());
    assert!(document.starts_with("# Command-Line Help for `tool`\n\n"));
    assert_eq!(document.matches("* [`tool`↴](#tool)\n").count(), 1);
    assert_eq!(document.matches("* [`tool run`↴](#tool-run)\n").count(), 1);
    assert_eq!(document.matches("↴").count(), 2);
    assert!(!document.contains("tool internal"));
    assert!(!document.contains("#tool-internal"));
    assert_eq!(document.matches("\n## `").count(), 2);
    assert!(document.contains("\n## `tool`\n\n"));
    assert!(document.contains("\n## `tool run`\n\n"));
    let run_section = &document[document.find("## `tool run`").unwrap()..];
    assert!(run_section.contains("###### **Options:**\n\n* `-v`, `--verbose` — enable verbose output\n"));
}

#[test]
fn tool_document_in_full() {
    let expected = String::new()
        + "# Command-Line Help for `tool`\n\n"
        + "This document contains the help content for the `tool` command-line program.\n\n"
        + "**Command Overview:**\n\n"
        + "* [`tool`↴](#tool)\n"
        + "* [`tool run`↴](#tool-run)\n"
        + "\n"
        + "## `tool`\n\n"
        + "**Usage:** `tool [COMMAND]`\n\n"
        + "###### **Subcommands:**\n\n"
        + "* `run` — \n"
        + "* `internal` — \n"
        + "\n"
        + "\n\n"
        + "## `tool run`\n\n"
        + "**Usage:** `tool run [OPTIONS]`\n\n"
        + "###### **Options:**\n\n"
        + "* `-v`, `--verbose` — enable verbose output\n"
        + "\n"
        + "\n\n"
        + FOOTER;
    assert_eq!(help_markdown_command(&tool()), expected);
}

#[test]
fn write_help_markdown_appends_the_document() {
    let mut buffer = String::from("kept\n");
    write_help_markdown(&mut buffer, &tool());
    assert_eq!(buffer, String::from("kept\n") + &help_markdown_command(&tool()));
}

#[test]
fn display_name_replaces_the_name_in_the_title_only() {
    let mut root = command("tool", "Usage: tool");
    root.display_name = Some("The Tool".to_string());
    let document = help_markdown_command(&root);
    assert!(document.starts_with(
        "# Command-Line Help for The Tool\n\nThis document contains the help content for the `tool` command-line program.\n\n"
    ));
    assert!(document.contains("* [`tool`↴](#tool)\n"));
    assert!(document.contains("## `tool`\n\n"));
}

#[test]
fn hidden_root_gives_a_document_without_entries_or_sections() {
    let mut root = tool();
    root.hidden = true;
    let expected = String::new()
        + "# Command-Line Help for `tool`\n\n"
        + "This document contains the help content for the `tool` command-line program.\n\n"
        + "**Command Overview:**\n\n"
        + "\n"
        + FOOTER;
    assert_eq!(try_help_markdown_command(&root), Ok(expected));
}

#[test]
fn hidden_command_adds_nothing_to_overview_or_sections() {
    let mut hidden = tool();
    hidden.hidden = true;
    assert_eq!(overview(&hidden), "");
    assert_eq!(sections(&hidden), "");
    let mut buffer = String::from("kept");
    build_table_of_contents_markdown(&mut buffer, vec!["app".to_string()], &hidden);
    build_command_markdown(&mut buffer, vec!["app".to_string()], &hidden);
    assert_eq!(buffer, "kept");
}

#[test]
fn visible_commands_below_a_hidden_one_are_not_rendered() {
    let mut deep = command("deep", "Usage: deep");
    deep.arguments.push(option("file", None, None, Some("a file")));
    let mut secret = command("secret", "Usage: secret");
    secret.hidden = true;
    secret.subcommands.push(deep);
    let mut root = command("tool", "Usage: tool");
    root.subcommands.push(secret);

    assert_eq!(overview(&root), "* [`tool`↴](#tool)\n");
    let document = help_markdown_command(&root);
    assert!(!document.contains("deep"));
    assert!(!document.contains("FILE"));
    assert_eq!(document.matches("\n## `").count(), 1);
}

#[test]
fn what_lies_below_a_hidden_command_does_not_change_the_document() {
    let mut bare = command("secret", "Usage: secret");
    bare.hidden = true;
    let mut with_bare = command("tool", "Usage: tool");
    with_bare.subcommands.push(bare);

    let mut full = command("secret", "Usage: secret <FILE>");
    full.hidden = true;
    full.long_about = Some("never shown".to_string());
    full.arguments.push(option("file", None, None, None));
    full.subcommands.push(command("deep", "Usage: deep"));
    let mut with_full = command("tool", "Usage: tool");
    with_full.subcommands.push(full);

    assert_eq!(help_markdown_command(&with_bare), help_markdown_command(&with_full));
}

#[test]
fn summary_names_hidden_subcommands_too() {
    let mut secret = command("secret", "Usage: secret");
    secret.hidden = true;
    secret.about = Some("not for everyone".to_string());
    let mut root = command("tool", "Usage: tool");
    root.subcommands.push(secret);
    assert_eq!(
        sections(&root),
        "## `tool`\n\n**Usage:** `tool`\n\n###### **Subcommands:**\n\n* `secret` — not for everyone\n\n\n\n"
    );
}

#[test]
fn overview_is_depth_first_with_a_command_before_its_subcommands() {
    let mut remote = command("remote", "Usage: remote");
    remote.subcommands.push(command("add", "Usage: add"));
    remote.subcommands.push(command("remove", "Usage: remove"));
    let mut root = command("tool", "Usage: tool");
    root.subcommands.push(remote);
    root.subcommands.push(command("status", "Usage: status"));
    assert_eq!(
        overview(&root),
        "* [`tool`↴](#tool)\n* [`tool remote`↴](#tool-remote)\n* [`tool remote add`↴](#tool-remote-add)\n* [`tool remote remove`↴](#tool-remote-remove)\n* [`tool status`↴](#tool-status)\n"
    );
}

#[test]
fn sibling_paths_do_not_leak_into_each_other() {
    let mut first = command("first", "Usage: first");
    first.subcommands.push(command("inner", "Usage: inner"));
    let mut root = command("tool", "Usage: tool");
    root.subcommands.push(first);
    root.subcommands.push(command("second", "Usage: second"));
    let text = sections(&root);
    assert!(text.contains("## `tool first inner`\n\n**Usage:** `tool first inner`\n\n"));
    assert!(text.contains("## `tool second`\n\n**Usage:** `tool second`\n\n"));
    assert!(!text.contains("first second"));
    assert!(!text.contains("inner second"));
}

#[test]
fn every_overview_link_has_its_heading() {
    let mut remote = command("remote", "Usage: remote");
    remote.subcommands.push(command("add", "Usage: add"));
    let mut hidden = command("debug", "Usage: debug");
    hidden.hidden = true;
    remote.subcommands.push(hidden);
    let mut root = command("tool", "Usage: tool");
    root.subcommands.push(remote);
    root.subcommands.push(command("status", "Usage: status"));

    let toc = overview(&root);
    let body = sections(&root);
    let headings: Vec<&str> = body
        .lines()
        .filter(|line| line.starts_with("## `"))
        .map(|line| &line[4..line.len() - 1])
        .collect();
    let entries: Vec<&str> = toc.lines().collect();
    assert_eq!(entries.len(), 4);
    assert_eq!(entries.len(), headings.len());
    for (entry, heading) in entries.iter().zip(headings.iter()) {
        let anchor = heading.replace(' ', "-");
        assert_eq!(*entry, format!("* [`{}`↴](#{})", heading, anchor));
    }
}

#[test]
fn headings_stay_at_the_second_level_however_deep() {
    let mut node = command("leaf", "Usage: leaf");
    for name in ["f", "e", "d", "c", "b", "a"] {
        let mut parent = command(name, "Usage: x");
        parent.subcommands.push(node);
        node = parent;
    }
    let text = sections(&node);
    assert!(text.contains("\n## `a b c d e f leaf`\n\n"));
    assert!(!text.contains("###`"));
    assert!(!text.contains("### `"));
    assert_eq!(text.matches("## `").count(), 7);
    assert!(overview(&node).ends_with("* [`a b c d e f leaf`↴](#a-b-c-d-e-f-leaf)\n"));
}

#[test]
fn long_description_takes_precedence_over_the_short_one() {
    let mut root = command("tool", "Usage: tool");
    root.about = Some("short".to_string());
    root.long_about = Some("long and thorough".to_string());
    assert_eq!(sections(&root), "## `tool`\n\nlong and thorough\n\n**Usage:** `tool`\n\n\n\n");
}

#[test]
fn short_description_is_shown_where_there_is_no_long_one() {
    let mut root = command("tool", "Usage: tool");
    root.about = Some("short".to_string());
    assert_eq!(sections(&root), "## `tool`\n\nshort\n\n**Usage:** `tool`\n\n\n\n");
}

#[test]
fn usage_keeps_a_synopsis_without_label() {
    assert_eq!(
        sections(&command("tool", "tool <FILE>")),
        "## `tool`\n\n**Usage:** `tool <FILE>`\n\n\n\n"
    );
}

#[test]
fn usage_is_prefixed_by_the_ancestors() {
    let mut buffer = String::new();
    build_command_markdown(
        &mut buffer,
        vec!["tool".to_string(), "remote".to_string()],
        &command("add", "Usage: add <NAME>"),
    );
    assert_eq!(buffer, "## `tool remote add`\n\n**Usage:** `tool remote add <NAME>`\n\n\n\n");
}

#[test]
fn arguments_come_before_options_each_in_declaration_order() {
    let mut root = command("tool", "Usage: tool [OPTIONS] <SRC> <DST>");
    root.arguments.push(option("quiet", Some('q'), None, None));
    root.arguments.push(option("src", None, None, Some("where from")));
    root.arguments.push(option("level", None, Some("level"), Some("how much")));
    root.arguments.push(option("dst", None, None, None));
    root.arguments[2].possible_values =
        vec![PossibleValue::new("low"), PossibleValue { name: "max".to_string(), hidden: true }, PossibleValue::new("high")];
    let expected = String::new()
        + "## `tool`\n\n"
        + "**Usage:** `tool [OPTIONS] <SRC> <DST>`\n\n"
        + "###### **Arguments:**\n\n"
        + "* `SRC` — where from\n"
        + "* `DST`\n"
        + "\n"
        + "###### **Options:**\n\n"
        + "* `-q`\n"
        + "* `--level` — how much\n"
        + "\n  *Possible Values:* `low`, `high`\n\n"
        + "\n"
        + "\n\n";
    assert_eq!(sections(&root), expected);
}

#[test]
fn hidden_argument_is_listed() {
    let mut root = command("tool", "Usage: tool");
    let mut secret = option("secret", None, Some("secret"), None);
    secret.hidden = true;
    root.arguments.push(secret);
    assert!(sections(&root).contains("###### **Options:**\n\n* `--secret`\n\n"));
}

#[test]
fn rendering_twice_gives_the_same_text() {
    assert_eq!(help_markdown_command(&tool()), help_markdown_command(&tool()));
    let root = tool();
    assert_eq!(help_markdown_command(&root), help_markdown_command(&root));
    assert_eq!(try_help_markdown_command(&root), Ok(help_markdown_command(&root)));
}

#[test]
fn before_help_is_unsupported() {
    let mut root = command("tool", "Usage: tool");
    root.before_help = Some("read this first".to_string());
    assert_eq!(validate_command(&root), Err(RenderError::UnsupportedInput));
    assert_eq!(try_help_markdown_command(&root), Err(RenderError::UnsupportedInput));
}

#[test]
fn after_help_is_unsupported_in_a_subcommand_too() {
    let mut run = command("run", "Usage: run");
    run.after_help = Some("see also".to_string());
    let mut root = command("tool", "Usage: tool");
    root.subcommands.push(command("build", "Usage: build"));
    root.subcommands.push(run);
    assert_eq!(validate_command(&root), Err(RenderError::UnsupportedInput));
    assert_eq!(try_help_markdown_command(&root), Err(RenderError::UnsupportedInput));
}

#[test]
fn positional_without_identifier_is_malformed() {
    let mut root = command("tool", "Usage: tool");
    root.arguments.push(option("", None, None, None));
    assert!(!argument_is_well_formed(&root.arguments[0]));
    assert_eq!(validate_command(&root), Err(RenderError::MalformedArgument));
    assert_eq!(try_help_markdown_command(&root), Err(RenderError::MalformedArgument));
}

#[test]
fn flag_without_identifier_is_well_formed() {
    let mut root = command("tool", "Usage: tool");
    root.arguments.push(option("", Some('x'), None, None));
    assert!(argument_is_well_formed(&root.arguments[0]));
    assert_eq!(validate_command(&root), Ok(()));
    assert!(try_help_markdown_command(&root).unwrap().contains("* `-x`\n"));
}

#[test]
fn the_error_is_the_first_in_the_order_of_rendering() {
    let mut early = command("early", "Usage: early");
    early.arguments.push(option("", None, None, None));
    let mut late = command("late", "Usage: late");
    late.before_help = Some("x".to_string());
    let mut root = command("tool", "Usage: tool");
    root.subcommands.push(early);
    root.subcommands.push(late);
    assert_eq!(validate_command(&root), Err(RenderError::MalformedArgument));

    let mut both = command("tool", "Usage: tool");
    both.arguments.push(option("", None, None, None));
    both.after_help = Some("x".to_string());
    assert_eq!(validate_command(&both), Err(RenderError::UnsupportedInput));

    let mut child = command("child", "Usage: child");
    child.before_help = Some("x".to_string());
    let mut parent = command("tool", "Usage: tool");
    parent.arguments.push(option("", None, None, None));
    parent.subcommands.push(child);
    assert_eq!(validate_command(&parent), Err(RenderError::MalformedArgument));
}

#[test]
fn nothing_in_a_hidden_command_stops_a_rendering() {
    let mut deep = command("deep", "Usage: deep");
    deep.arguments.push(option("", None, None, None));
    let mut secret = command("secret", "Usage: secret");
    secret.hidden = true;
    secret.before_help = Some("x".to_string());
    secret.subcommands.push(deep);
    let mut root = command("tool", "Usage: tool");
    root.subcommands.push(secret);
    assert_eq!(validate_command(&root), Ok(()));
    assert!(try_help_markdown_command(&root).is_ok());
}

#[test]
fn new_command_is_visible_and_bare() {
    assert_eq!(Command::new("tool", "Usage: tool"), command("tool", "Usage: tool"));
}
