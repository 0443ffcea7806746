//! The faults that a command line is refused for.

use vstd::prelude::*;

verus! {

/// The arguments that a fault can be about.
#[derive(Debug, Clone, Copy, PartialEq, Eq, Structural)]
pub enum Argument {
    /// The flake reference of a rebuild or of the repl.
    Flakeref,
    /// The name of a configuration attribute of the flake.
    Configuration,
    /// The name of a specialisation.
    Specialisation,
    /// The flag that turns specialisations off.
    NoSpecialisation,
    /// The flag that lets the program run as root.
    BypassRootCheck,
    /// The number of search results.
    Limit,
    /// The text to search for.
    Query,
    /// The number of generations to keep.
    Keep,
    /// The age up to which generations are kept.
    KeepSince,
    /// The path of the profile to clean.
    Profile,
    /// The shell to write completions for.
    Shell,
}

impl Argument {
    /// The argument as the user writes it.
    pub open spec fn name_text(self) -> Seq<char> {
        match self {
            Argument::Flakeref => "[FLAKEREF]"@,
            Argument::Configuration => "--configuration"@,
            Argument::Specialisation => "--specialisation"@,
            Argument::NoSpecialisation => "--no-specialisation"@,
            Argument::BypassRootCheck => "--bypass-root-check"@,
            Argument::Limit => "--limit"@,
            Argument::Query => "<QUERY>"@,
            Argument::Keep => "--keep"@,
            Argument::KeepSince => "--keep-since"@,
            Argument::Profile => "<PROFILE>"@,
            Argument::Shell => "--shell"@,
        }
    }

    /// The argument as the user writes it.
    pub fn name(self) -> (r: &'static str)
        ensures
            r@ == self.name_text(),
    {
        match self {
            Argument::Flakeref => "[FLAKEREF]",
            Argument::Configuration => "--configuration",
            Argument::Specialisation => "--specialisation",
            Argument::NoSpecialisation => "--no-specialisation",
            Argument::BypassRootCheck => "--bypass-root-check",
            Argument::Limit => "--limit",
            Argument::Query => "<QUERY>",
            Argument::Keep => "--keep",
            Argument::KeepSince => "--keep-since",
            Argument::Profile => "<PROFILE>",
            Argument::Shell => "--shell",
        }
    }
}

/// What is wrong with a command line, as a mathematical value.
pub enum Fault {
    /// Two arguments were given that exclude one another.
    Conflict { first: Argument, second: Argument },
    /// An argument that the command needs was not given.
    MissingArgument { argument: Argument },
    /// The text given for an argument is not a value of its type.
    InvalidValue { argument: Argument, value: Seq<char> },
}

impl Fault {
    /// The sentence that tells the user of the fault.
    pub open spec fn message(self) -> Seq<char> {
        match self {
            Fault::Conflict { first, second } => "the argument '"@ + first.name_text()
                + "' cannot be used with '"@ + second.name_text() + "'"@,
            Fault::MissingArgument { argument } =>
                "the following required argument was not provided: "@ + argument.name_text(),
            Fault::InvalidValue { argument, value } => "invalid value '"@ + value + "' for '"@
                + argument.name_text() + "'"@,
        }
    }
}

/// Why a command line was refused. Nothing is run for a command line that
/// is refused.
#[derive(Debug, Clone, PartialEq, Eq)]
pub enum ParseError {
    /// Two arguments were given that exclude one another.
    Conflict { first: Argument, second: Argument },
    /// An argument that the command needs was not given.
    MissingArgument { argument: Argument },
    /// The text given for an argument is not a value of its type.
    InvalidValue { argument: Argument, value: String },
}

impl View for ParseError {
    type V = Fault;

    open spec fn view(&self) -> Fault {
        match self {
            ParseError::Conflict { first, second } => Fault::Conflict {
                first: *first,
                second: *second,
            },
            ParseError::MissingArgument { argument } => Fault::MissingArgument {
                argument: *argument,
            },
            ParseError::InvalidValue { argument, value } => Fault::InvalidValue {
                argument: *argument,
                value: value@,
            },
        }
    }
}

impl ParseError {
    /// The sentence that tells the user why the command line was refused.
    pub fn message(&self) -> (r: String)
        ensures
            r@ == self@.message(),
    {
        match self {
            ParseError::Conflict { first, second } => {
                String::from_str("the argument '").concat(first.name()).concat(
                    "' cannot be used with '",
                ).concat(second.name()).concat("'")
            },
            ParseError::MissingArgument { argument } => {
                String::from_str("the following required argument was not provided: ").concat(
                    argument.name(),
                )
            },
            ParseError::InvalidValue { argument, value } => {
                String::from_str("invalid value '").concat(value.as_str()).concat(
                    "' for '",
                ).concat(argument.name()).concat("'")
            },
        }
    }
}

} // verus!
