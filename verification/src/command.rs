//! The whole command line: the global arguments and the command.

use crate::clean::{CleanInput, CleanMode, CleanProxy};
use crate::completion::{CompletionArgs, CompletionInput};
use crate::config::Config;
use crate::environment::Environment;
use crate::error::{Argument, Fault, ParseError};
use crate::home::{HomeArgs, HomeInput, HomeSubcommand};
use crate::os::{OsArgs, OsCommandType, OsInput};
use crate::precedence::{layered_optional, resolve_optional};
use crate::search::{SearchArgs, SearchInput};
use crate::text::{copy_of, text_of};
use vstd::prelude::*;

verus! {

/// A command as the command line gave it.
#[derive(Debug, Clone, PartialEq, Eq)]
pub enum CommandInput {
    /// `os`.
    Os(OsInput),
    /// `home`.
    Home(HomeInput),
    /// `search`.
    Search(SearchInput),
    /// `clean`.
    Clean(CleanInput),
    /// `completions`.
    Completions(CompletionInput),
}

/// The command line as it was given: what was written, and nothing that
/// was not.
#[derive(Debug, Clone, PartialEq, Eq)]
pub struct ParserInput {
    /// `--verbose`.
    pub verbose: bool,
    /// The value of `--elevation-program`, if it was given.
    pub elevation_program: Option<String>,
    /// The command.
    pub command: CommandInput,
}

/// The commands. A command line selects exactly one of them, and with it
/// exactly one operation.
#[derive(Debug, Clone, PartialEq, Eq)]
pub enum NHCommand {
    /// NixOS functionality.
    Os(OsArgs),
    /// Home-manager functionality.
    Home(HomeArgs),
    /// Search of packages.
    Search(SearchArgs),
    /// Cleanup of generations.
    Clean(CleanProxy),
    /// Completion files for a shell.
    Completions(CompletionArgs),
}

/// The command line with every argument resolved.
#[derive(Debug, Clone, PartialEq, Eq)]
pub struct NHParser {
    /// Show debug logs.
    pub verbose: bool,
    /// The program that raises privileges, if one was chosen.
    pub elevation_program: Option<String>,
    /// The command.
    pub command: NHCommand,
}

impl NHCommand {
    /// What is wrong with `input`, if anything.
    pub open spec fn fault(input: CommandInput, env: Environment) -> Option<Fault> {
        match input {
            CommandInput::Os(i) => OsCommandType::fault(i, env),
            CommandInput::Home(i) => HomeSubcommand::fault(i),
            CommandInput::Search(i) => SearchArgs::fault(i),
            CommandInput::Clean(i) => CleanMode::fault(i),
            CommandInput::Completions(i) => CompletionArgs::fault(i),
        }
    }

    /// Whether this is the command that `input` stands for: the same choice,
    /// with the arguments that the input's arguments stand for.
    pub open spec fn resolves(&self, input: CommandInput, env: Environment, config: Config) -> bool {
        match (*self, input) {
            (NHCommand::Os(a), CommandInput::Os(i)) => a.action.resolves(i, env, config),
            (NHCommand::Home(a), CommandInput::Home(i)) => a.subcommand.resolves(i, env, config),
            (NHCommand::Search(a), CommandInput::Search(i)) => a.resolves(i, env),
            (NHCommand::Clean(a), CommandInput::Clean(i)) => a.mode().resolves(i),
            (NHCommand::Completions(a), CommandInput::Completions(i)) => a.resolves(i),
            _ => false,
        }
    }

    /// Gives the arguments of the chosen command their values, or refuses the input.
    pub fn resolve(input: CommandInput, env: &Environment, config: &Config) -> (r: Result<
        NHCommand,
        ParseError,
    >)
        ensures
            match r {
                Ok(command) => Self::fault(input, *env) is None && command.resolves(
                    input,
                    *env,
                    *config,
                ),
                Err(e) => Self::fault(input, *env) == Some(e@),
            },
    {
        match input {
            CommandInput::Os(i) => match OsArgs::resolve(i, env, config) {
                Ok(a) => Ok(NHCommand::Os(a)),
                Err(e) => Err(e),
            },
            CommandInput::Home(i) => match HomeArgs::resolve(i, env, config) {
                Ok(a) => Ok(NHCommand::Home(a)),
                Err(e) => Err(e),
            },
            CommandInput::Search(i) => match SearchArgs::resolve(i, env) {
                Ok(a) => Ok(NHCommand::Search(a)),
                Err(e) => Err(e),
            },
            CommandInput::Clean(i) => match CleanProxy::resolve(i) {
                Ok(a) => Ok(NHCommand::Clean(a)),
                Err(e) => Err(e),
            },
            CommandInput::Completions(i) => match CompletionArgs::resolve(i) {
                Ok(a) => Ok(NHCommand::Completions(a)),
                Err(e) => Err(e),
            },
        }
    }
}

impl NHParser {
    /// What is wrong with `input`, if anything: what is wrong with its command.
    pub open spec fn fault(input: ParserInput, env: Environment) -> Option<Fault> {
        NHCommand::fault(input.command, env)
    }

    /// Whether this is the command line that `input` stands for in the
    /// environment `env` and under the configuration `config`.
    pub open spec fn resolves(&self, input: ParserInput, env: Environment, config: Config) -> bool {
        &&& self.verbose == input.verbose
        &&& text_of(self.elevation_program) == layered_optional(
            text_of(input.elevation_program),
            text_of(env.elevation_program),
        )
        &&& self.command.resolves(input.command, env, config)
    }

    /// Turns a command line as it was given into one command with every
    /// argument resolved, or refuses it. An argument that was not given
    /// takes the value of its environment variable, else the one that the
    /// configuration gives, else the default of its type. A command line
    /// that is refused yields nothing but the fault.
    pub fn resolve(input: ParserInput, env: &Environment, config: &Config) -> (r: Result<
        NHParser,
        ParseError,
    >)
        ensures
            match r {
                Ok(parser) => Self::fault(input, *env) is None && parser.resolves(
                    input,
                    *env,
                    *config,
                ),
                Err(e) => Self::fault(input, *env) == Some(e@),
            },
    {
        let command = match NHCommand::resolve(input.command, env, config) {
            Ok(command) => command,
            Err(e) => {
                return Err(e);
            },
        };
        let elevation_program = resolve_optional(
            input.elevation_program,
            copy_of(&env.elevation_program),
        );
        Ok(NHParser { verbose: input.verbose, elevation_program, command })
    }
}

/// Whether the command of `input` is one that takes a flake reference or
/// the name of a configuration, and the user gave it both: the reference
/// on the command line or, where the command reads it there, through the
/// environment.
pub open spec fn gives_reference_beside_configuration(
    input: CommandInput,
    env: Environment,
) -> bool {
    match input {
        CommandInput::Os(OsInput::Repl(i)) => (i.flakeref is Some || env.flake is Some)
            && i.configuration is Some,
        CommandInput::Home(HomeInput::Switch(i)) => i.flakeref is Some && i.configuration is Some,
        CommandInput::Home(HomeInput::Build(i)) => i.flakeref is Some && i.configuration is Some,
        _ => false,
    }
}

/// A command line that gives a flake reference beside the name of a
/// configuration is refused, whichever command it gives them to.
pub proof fn lemma_reference_beside_configuration_is_refused(input: ParserInput, env: Environment)
    requires
        gives_reference_beside_configuration(input.command, env),
    ensures
        NHParser::fault(input, env) == Some(
            Fault::Conflict {
                first: Argument::Configuration,
                second: Argument::Flakeref,
            },
        ),
{
}

/// Whether `input` is a rebuild of the system that gives no flake reference.
pub open spec fn is_os_rebuild_without_reference(input: CommandInput) -> bool {
    match input {
        CommandInput::Os(OsInput::Switch(i)) => i.flakeref is None,
        CommandInput::Os(OsInput::Boot(i)) => i.flakeref is None,
        CommandInput::Os(OsInput::Test(i)) => i.flakeref is None,
        CommandInput::Os(OsInput::Build(i)) => i.flakeref is None,
        _ => false,
    }
}

/// Whether `input` is a rebuild of a home that gives no flake reference.
pub open spec fn is_home_rebuild_without_reference(input: CommandInput) -> bool {
    match input {
        CommandInput::Home(HomeInput::Switch(i)) => i.flakeref is None,
        CommandInput::Home(HomeInput::Build(i)) => i.flakeref is None,
        _ => false,
    }
}

/// The flake reference of a command that is a rebuild; the empty text for
/// any other command.
pub open spec fn rebuild_reference(command: NHCommand) -> Seq<char> {
    match command {
        NHCommand::Os(args) => match args.action {
            OsCommandType::Switch(a) => a.flakeref@,
            OsCommandType::Boot(a) => a.flakeref@,
            OsCommandType::Test(a) => a.flakeref@,
            OsCommandType::Build(a) => a.flakeref@,
            _ => Seq::<char>::empty(),
        },
        NHCommand::Home(args) => match args.subcommand {
            HomeSubcommand::Switch(a) => a.flakeref@,
            HomeSubcommand::Build(a) => a.flakeref@,
            _ => Seq::<char>::empty(),
        },
        _ => Seq::<char>::empty(),
    }
}

/// A rebuild that is given no flake reference works on the flake that the
/// configuration names for its family: the system flake for a rebuild of
/// the system, the home flake for a rebuild of a home.
pub proof fn lemma_rebuild_defaults_to_the_flake_of_its_family(
    command: NHCommand,
    input: CommandInput,
    env: Environment,
    config: Config,
)
    requires
        command.resolves(input, env, config),
    ensures
        is_os_rebuild_without_reference(input) ==> rebuild_reference(command) == config.os_flake@,
        is_home_rebuild_without_reference(input) ==> rebuild_reference(command)
            == config.home_flake@,
{
}

/// Where the configuration names different flakes for the system and for
/// the home, a rebuild of the system and a rebuild of a home that are
/// given no flake reference work on different flakes.
pub proof fn lemma_default_references_of_the_families_differ(
    os: NHCommand,
    os_input: CommandInput,
    home: NHCommand,
    home_input: CommandInput,
    env: Environment,
    config: Config,
)
    requires
        os.resolves(os_input, env, config),
        home.resolves(home_input, env, config),
        is_os_rebuild_without_reference(os_input),
        is_home_rebuild_without_reference(home_input),
        config.os_flake@ != config.home_flake@,
    ensures
        rebuild_reference(os) != rebuild_reference(home),
{
    lemma_rebuild_defaults_to_the_flake_of_its_family(os, os_input, env, config);
    lemma_rebuild_defaults_to_the_flake_of_its_family(home, home_input, env, config);
}

} // verus!
