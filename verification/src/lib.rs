//! Markdown reference documentation for command-line programs.
//!
//! A program's commands, arguments and subcommands are described by a
//! [`Command`] tree. [`help_markdown_command`] turns such a tree into one
//! Markdown document: a title, a linked overview with one entry per visible
//! command, one section per visible command, and a footer.

pub mod argument;
pub mod document;
pub mod laws;
pub mod model;
pub mod section;
pub mod text;
pub mod toc;
pub mod traversal;
pub mod validate;
