//! Typed command model of the `nh` command line: the commands and their
//! arguments, how absent arguments get their values, which combinations
//! are refused, and which operation each command is routed to.
//!
//! A command line arrives as a [`ParserInput`]: what the user wrote, taken
//! apart into commands and arguments, every value still a text.
//! [`NHParser::resolve`] turns it into an [`NHParser`], in which every
//! argument has its value, or refuses it with a [`ParseError`]. What the
//! user did not write comes from the [`Environment`], from the [`Config`],
//! or from the argument's type, in that order. [`NHRunnable::run`] then
//! tells which operation the command stands for.

pub mod clean;
pub mod command;
pub mod completion;
pub mod config;
pub mod dispatch;
pub mod duration;
pub mod environment;
pub mod error;
pub mod flake_ref;
pub mod home;
pub mod os;
pub mod precedence;
pub mod rebuild;
pub mod search;
pub mod shell;
pub mod style;
pub mod text;

pub use clean::{
    CleanArgs, CleanArgsInput, CleanInput, CleanMode, CleanProfileArgs, CleanProfileInput,
    CleanProxy,
};
pub use command::{CommandInput, NHCommand, NHParser, ParserInput};
pub use completion::{CompletionArgs, CompletionInput};
pub use config::{Config, ConfigError};
pub use dispatch::{NHRunnable, Task, TaskKind};
pub use duration::{Duration, MAX_DURATION_DIGITS};
pub use environment::Environment;
pub use error::{Argument, ParseError};
pub use flake_ref::FlakeRef;
pub use home::{HomeArgs, HomeInput, HomeRebuildArgs, HomeRebuildInput, HomeSubcommand};
pub use os::{
    CommonReplArgs, OsArgs, OsCommandType, OsInput, OsRebuildInput, OsSubcommandArgs, ReplInput,
};
pub use precedence::ValueSource;
pub use rebuild::{CommonRebuildArgs, RebuildInput};
pub use search::{SearchArgs, SearchInput};
pub use shell::Shell;
pub use style::{make_style, AnsiColor, Style, Styles};
