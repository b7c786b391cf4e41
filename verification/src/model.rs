//! The command tree that is rendered, and its mathematical view.
//!
//! The tree is plain data. It is supplied fully formed and only read while a
//! document is rendered. Each type has a view in which strings are sequences
//! of characters and vectors are sequences; every contract of the crate is
//! stated over these views.

use vstd::prelude::*;

verus! {

/// The view of an optional string.
pub open spec fn option_text(text: Option<String>) -> Option<Seq<char>> {
    match text {
        Some(text) => Some(text@),
        None => None,
    }
}

/// One of the enumerated values that an argument accepts.
#[derive(Debug, PartialEq, Eq)]
pub struct PossibleValue {
    pub name: String,
    /// A hidden value is left out of the rendered list of values.
    pub hidden: bool,
}

/// The view of a [`PossibleValue`].
pub struct PossibleValueView {
    pub name: Seq<char>,
    pub hidden: bool,
}

impl View for PossibleValue {
    type V = PossibleValueView;

    open spec fn view(&self) -> PossibleValueView {
        PossibleValueView { name: self.name@, hidden: self.hidden }
    }
}

impl PossibleValue {
    /// A visible value with the given name.
    pub fn new(name: &str) -> (value: PossibleValue)
        ensures
            value@ == (PossibleValueView { name: name@, hidden: false }),
    {
        PossibleValue { name: name.to_owned(), hidden: false }
    }
}

/// An argument of a command: a flag with a short or a long name, or both, or a
/// positional argument, which has neither and is shown by its identifier.
#[derive(Debug, PartialEq, Eq)]
pub struct Argument {
    /// The identifier; the display token of a positional argument.
    pub id: String,
    pub short_name: Option<char>,
    pub long_name: Option<String>,
    pub help: Option<String>,
    pub possible_values: Vec<PossibleValue>,
    /// Recorded, but not consulted when a document is rendered: a hidden
    /// argument is listed like any other.
    pub hidden: bool,
}

/// The view of an [`Argument`].
pub struct ArgumentView {
    pub id: Seq<char>,
    pub short_name: Option<char>,
    pub long_name: Option<Seq<char>>,
    pub help: Option<Seq<char>>,
    pub possible_values: Seq<PossibleValueView>,
    pub hidden: bool,
}

impl ArgumentView {
    /// An argument is positional when it has neither a short nor a long name.
    pub open spec fn is_positional(self) -> bool {
        self.short_name is None && self.long_name is None
    }

    /// A positional argument needs an identifier to be shown by.
    pub open spec fn well_formed(self) -> bool {
        self.is_positional() ==> self.id.len() > 0
    }
}

impl View for Argument {
    type V = ArgumentView;

    open spec fn view(&self) -> ArgumentView {
        ArgumentView {
            id: self.id@,
            short_name: self.short_name,
            long_name: option_text(self.long_name),
            help: option_text(self.help),
            possible_values: self.possible_values@.map_values(|value: PossibleValue| value@),
            hidden: self.hidden,
        }
    }
}

impl Argument {
    /// A visible positional argument with the given identifier, without help
    /// text and without enumerated values.
    pub fn new(id: &str) -> (argument: Argument)
        ensures
            argument@ == (ArgumentView {
                id: id@,
                short_name: None,
                long_name: None,
                help: None,
                possible_values: Seq::empty(),
                hidden: false,
            }),
    {
        let argument = Argument {
            id: id.to_owned(),
            short_name: None,
            long_name: None,
            help: None,
            possible_values: Vec::new(),
            hidden: false,
        };
        assert(argument@.possible_values =~= Seq::empty());
        argument
    }

    /// Whether the argument is identified by position rather than by a flag.
    pub fn is_positional(&self) -> (positional: bool)
        ensures
            positional == self@.is_positional(),
    {
        self.short_name.is_none() && self.long_name.is_none()
    }
}

/// A command of the program, with its arguments and its subcommands.
#[derive(Debug, PartialEq, Eq)]
pub struct Command {
    pub name: String,
    /// Replaces the name in the document's title; consulted at the root only.
    pub display_name: Option<String>,
    /// The short description.
    pub about: Option<String>,
    /// The long description; where present it is shown in place of the short one.
    pub long_about: Option<String>,
    /// Text to show before the help. A visible command that has one cannot be rendered.
    pub before_help: Option<String>,
    /// Text to show after the help. A visible command that has one cannot be rendered.
    pub after_help: Option<String>,
    /// The usage synopsis, as the program's own help shows it.
    pub usage: String,
    /// A hidden command is left out of the document together with all its subcommands.
    pub hidden: bool,
    pub arguments: Vec<Argument>,
    pub subcommands: Vec<Command>,
}

/// The view of a [`Command`].
pub struct CommandView {
    pub name: Seq<char>,
    pub display_name: Option<Seq<char>>,
    pub about: Option<Seq<char>>,
    pub long_about: Option<Seq<char>>,
    pub before_help: Option<Seq<char>>,
    pub after_help: Option<Seq<char>>,
    pub usage: Seq<char>,
    pub hidden: bool,
    pub arguments: Seq<ArgumentView>,
    pub subcommands: Seq<CommandView>,
}

impl View for Command {
    type V = CommandView;

    open spec fn view(&self) -> CommandView
        decreases self,
    {
        CommandView {
            name: self.name@,
            display_name: option_text(self.display_name),
            about: option_text(self.about),
            long_about: option_text(self.long_about),
            before_help: option_text(self.before_help),
            after_help: option_text(self.after_help),
            usage: self.usage@,
            hidden: self.hidden,
            arguments: self.arguments@.map_values(|argument: Argument| argument@),
            subcommands: Seq::new(
                self.subcommands.len() as nat,
                |i: int|
                    if 0 <= i < self.subcommands.len() {
                        self.subcommands[i]@
                    } else {
                        arbitrary()
                    },
            ),
        }
    }
}

impl Command {
    /// The view of a command holds the views of its subcommands, in their order.
    pub proof fn lemma_view_subcommands(&self)
        ensures
            self@.subcommands.len() == self.subcommands.len(),
            forall|i: int|
                0 <= i < self.subcommands.len() ==> #[trigger] self@.subcommands[i]
                    == self.subcommands[i]@,
    {
        reveal_with_fuel(<Command as View>::view, 2);
    }

    /// A visible command with the given name and usage synopsis, without
    /// descriptions, arguments or subcommands.
    pub fn new(name: &str, usage: &str) -> (command: Command)
        ensures
            command@ == (CommandView {
                name: name@,
                display_name: None,
                about: None,
                long_about: None,
                before_help: None,
                after_help: None,
                usage: usage@,
                hidden: false,
                arguments: Seq::empty(),
                subcommands: Seq::empty(),
            }),
    {
        let command = Command {
            name: name.to_owned(),
            display_name: None,
            about: None,
            long_about: None,
            before_help: None,
            after_help: None,
            usage: usage.to_owned(),
            hidden: false,
            arguments: Vec::new(),
            subcommands: Vec::new(),
        };
        assert(command@.arguments =~= Seq::empty());
        assert(command@.subcommands =~= Seq::empty());
        command
    }
}

} // verus!
