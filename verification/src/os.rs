//! The `os` commands: rebuilds of the system configuration, its repl and
//! its overview.

use crate::config::Config;
use crate::environment::Environment;
use crate::error::{Argument, Fault, ParseError};
use crate::flake_ref::FlakeRef;
use crate::precedence::{layered, layered_source, resolve_layered, source_of, ValueSource};
use crate::rebuild::{CommonRebuildArgs, RebuildInput};
use crate::text::{copy_of, flag_of, parse_flag, text_of};
use vstd::prelude::*;

verus! {

/// A rebuild of the system as the command line gave it.
#[derive(Debug, Clone, PartialEq, Eq)]
pub struct OsRebuildInput {
    /// The arguments that every rebuild takes.
    pub common: RebuildInput,
    /// The flake reference, if one was given.
    pub flakeref: Option<String>,
    /// The value of `--hostname`, if it was given.
    pub hostname: Option<String>,
    /// The value of `--specialisation`, if it was given.
    pub specialisation: Option<String>,
    /// `--no-specialisation`.
    pub no_specialisation: bool,
    /// What followed `--`.
    pub extra_args: Vec<String>,
    /// `--bypass-root-check`.
    pub bypass_root_check: bool,
}

/// The repl as the command line gave it.
#[derive(Debug, Clone, PartialEq, Eq)]
pub struct ReplInput {
    /// The flake reference, if one was given.
    pub flakeref: Option<String>,
    /// The value of `--hostname`, if it was given.
    pub hostname: Option<String>,
    /// The value of `--configuration`, if it was given.
    pub configuration: Option<String>,
    /// What followed `--`.
    pub extra_args: Vec<String>,
}

/// An `os` command as the command line gave it.
#[derive(Debug, Clone, PartialEq, Eq)]
pub enum OsInput {
    /// `os switch`.
    Switch(OsRebuildInput),
    /// `os boot`.
    Boot(OsRebuildInput),
    /// `os test`.
    Test(OsRebuildInput),
    /// `os build`.
    Build(OsRebuildInput),
    /// `os repl`.
    Repl(ReplInput),
    /// `os info`.
    Info,
}

/// The arguments of the repl.
#[derive(Debug, Clone, PartialEq, Eq)]
pub struct CommonReplArgs {
    /// Flake reference to load. It is empty where a configuration is named instead.
    pub flakeref: FlakeRef,
    /// Output to choose from the flake; the name of the host if not given.
    pub hostname: Option<String>,
    /// Name of the configuration attribute of the flake, like username@hostname.
    pub configuration: Option<String>,
    /// Extra arguments, passed on to `nix repl` as they are.
    pub extra_args: Vec<String>,
}

/// The arguments of a rebuild of the system.
#[derive(Debug, Clone, PartialEq, Eq)]
pub struct OsSubcommandArgs {
    /// The arguments that every rebuild takes.
    pub common: CommonRebuildArgs,
    /// Flake reference to build.
    pub flakeref: FlakeRef,
    /// Output to choose from the flake; the name of the host if not given.
    pub hostname: Option<String>,
    /// Name of the specialisation.
    pub specialisation: Option<String>,
    /// Do not use specialisations.
    pub no_specialisation: bool,
    /// Extra arguments, passed on to `nix build` as they are.
    pub extra_args: Vec<String>,
    /// Do not refuse to run as root.
    pub bypass_root_check: bool,
}

/// What to do with the system configuration.
#[derive(Debug, Clone, PartialEq, Eq)]
pub enum OsCommandType {
    /// Build and activate the new configuration, and make it the boot default.
    Switch(OsSubcommandArgs),
    /// Build the new configuration and make it the boot default.
    Boot(OsSubcommandArgs),
    /// Build and activate the new configuration.
    Test(OsSubcommandArgs),
    /// Build the new configuration.
    Build(OsSubcommandArgs),
    /// Enter a Nix repl with the configuration loaded.
    Repl(CommonReplArgs),
    /// Show an overview of the system.
    Info,
}

/// The `os` command: it holds the choice of what to do and nothing else.
#[derive(Debug, Clone, PartialEq, Eq)]
pub struct OsArgs {
    /// What to do with the system configuration.
    pub action: OsCommandType,
}

impl CommonReplArgs {
    /// Where the flake reference of `input` comes from in the environment `env`.
    pub open spec fn flakeref_source(input: ReplInput, env: Environment) -> ValueSource {
        layered_source(text_of(input.flakeref), text_of(env.flake), None)
    }

    /// What is wrong with `input`, if anything: a flake reference that the
    /// user supplied beside the name of a configuration, or neither of them.
    pub open spec fn fault(input: ReplInput, env: Environment) -> Option<Fault> {
        let supplied = Self::flakeref_source(input, env).is_supplied();
        if supplied && input.configuration is Some {
            Some(
                Fault::Conflict { first: Argument::Configuration, second: Argument::Flakeref },
            )
        } else if !supplied && input.configuration is None {
            Some(Fault::MissingArgument { argument: Argument::Flakeref })
        } else {
            None
        }
    }

    /// Whether these are the arguments that `input` stands for in the
    /// environment `env`.
    pub open spec fn resolves(&self, input: ReplInput, env: Environment) -> bool {
        &&& self.flakeref@ == layered(
            text_of(input.flakeref),
            text_of(env.flake),
            None,
            Seq::<char>::empty(),
        )
        &&& self.hostname == input.hostname
        &&& self.configuration == input.configuration
        &&& self.extra_args == input.extra_args
    }

    /// Gives each argument its value, or refuses the input. The flake
    /// reference is the one of the command line, else that of the
    /// environment.
    pub fn resolve(input: ReplInput, env: &Environment) -> (r: Result<CommonReplArgs, ParseError>)
        ensures
            match r {
                Ok(args) => Self::fault(input, *env) is None && args.resolves(input, *env),
                Err(e) => Self::fault(input, *env) == Some(e@),
            },
    {
        let from_env = copy_of(&env.flake);
        let none: Option<String> = None;
        let supplied = source_of(&input.flakeref, &from_env, &none).supplied();
        if supplied && input.configuration.is_some() {
            return Err(
                ParseError::Conflict { first: Argument::Configuration, second: Argument::Flakeref },
            );
        }
        if !supplied && input.configuration.is_none() {
            return Err(ParseError::MissingArgument { argument: Argument::Flakeref });
        }
        let flakeref = FlakeRef::new(
            resolve_layered(input.flakeref, from_env, None, String::new()),
        );
        Ok(
            CommonReplArgs {
                flakeref,
                hostname: input.hostname,
                configuration: input.configuration,
                extra_args: input.extra_args,
            },
        )
    }
}

impl OsSubcommandArgs {
    /// Whether the environment asks for the root check to be bypassed: what
    /// its variable says, where it is set.
    pub open spec fn env_bypass(env: Environment) -> Option<bool> {
        match env.bypass_root_check {
            Some(text) => flag_of(text@),
            None => Some(false),
        }
    }

    /// What is wrong with `input`, if anything. The environment is asked
    /// about the root check only where the command line leaves it open, and
    /// must then say `true` or `false`. A specialisation cannot be named
    /// beside the flag that turns specialisations off.
    pub open spec fn fault(input: OsRebuildInput, env: Environment) -> Option<Fault> {
        if !input.bypass_root_check && Self::env_bypass(env) is None {
            Some(
                Fault::InvalidValue {
                    argument: Argument::BypassRootCheck,
                    value: env.bypass_root_check->0@,
                },
            )
        } else if input.specialisation is Some && input.no_specialisation {
            Some(
                Fault::Conflict {
                    first: Argument::Specialisation,
                    second: Argument::NoSpecialisation,
                },
            )
        } else {
            None
        }
    }

    /// Whether these are the arguments that `input` stands for in the
    /// environment `env` and under the configuration `config`.
    pub open spec fn resolves(
        &self,
        input: OsRebuildInput,
        env: Environment,
        config: Config,
    ) -> bool {
        &&& self.common.resolves(input.common, env)
        &&& self.flakeref@ == layered(
            text_of(input.flakeref),
            None,
            Some(config.os_flake@),
            Seq::<char>::empty(),
        )
        &&& self.hostname == input.hostname
        &&& self.specialisation == input.specialisation
        &&& self.no_specialisation == input.no_specialisation
        &&& self.extra_args == input.extra_args
        &&& self.bypass_root_check == (input.bypass_root_check || Self::env_bypass(env) == Some(
            true,
        ))
    }

    /// Gives each argument its value, or refuses the input. The flake
    /// reference is the one of the command line, else the system flake of
    /// the configuration.
    pub fn resolve(input: OsRebuildInput, env: &Environment, config: &Config) -> (r: Result<
        OsSubcommandArgs,
        ParseError,
    >)
        ensures
            match r {
                Ok(args) => Self::fault(input, *env) is None && args.resolves(
                    input,
                    *env,
                    *config,
                ),
                Err(e) => Self::fault(input, *env) == Some(e@),
            },
    {
        let mut bypass_root_check = input.bypass_root_check;
        if !bypass_root_check {
            match &env.bypass_root_check {
                Some(text) => match parse_flag(text.as_str()) {
                    Some(flag) => {
                        bypass_root_check = flag;
                    },
                    None => {
                        return Err(
                            ParseError::InvalidValue {
                                argument: Argument::BypassRootCheck,
                                value: text.clone(),
                            },
                        );
                    },
                },
                None => {},
            }
        }
        if input.specialisation.is_some() && input.no_specialisation {
            return Err(
                ParseError::Conflict {
                    first: Argument::Specialisation,
                    second: Argument::NoSpecialisation,
                },
            );
        }
        let common = CommonRebuildArgs::resolve(input.common, env);
        let flakeref = FlakeRef::new(
            resolve_layered(input.flakeref, None, Some(config.os_flake.clone()), String::new()),
        );
        Ok(
            OsSubcommandArgs {
                common,
                flakeref,
                hostname: input.hostname,
                specialisation: input.specialisation,
                no_specialisation: input.no_specialisation,
                extra_args: input.extra_args,
                bypass_root_check,
            },
        )
    }
}

impl OsCommandType {
    /// What is wrong with `input`, if anything.
    pub open spec fn fault(input: OsInput, env: Environment) -> Option<Fault> {
        match input {
            OsInput::Switch(i) => OsSubcommandArgs::fault(i, env),
            OsInput::Boot(i) => OsSubcommandArgs::fault(i, env),
            OsInput::Test(i) => OsSubcommandArgs::fault(i, env),
            OsInput::Build(i) => OsSubcommandArgs::fault(i, env),
            OsInput::Repl(i) => CommonReplArgs::fault(i, env),
            OsInput::Info => None,
        }
    }

    /// Whether this is the command that `input` stands for: the same choice,
    /// with the arguments that the input's arguments stand for.
    pub open spec fn resolves(&self, input: OsInput, env: Environment, config: Config) -> bool {
        match (*self, input) {
            (OsCommandType::Switch(a), OsInput::Switch(i)) => a.resolves(i, env, config),
            (OsCommandType::Boot(a), OsInput::Boot(i)) => a.resolves(i, env, config),
            (OsCommandType::Test(a), OsInput::Test(i)) => a.resolves(i, env, config),
            (OsCommandType::Build(a), OsInput::Build(i)) => a.resolves(i, env, config),
            (OsCommandType::Repl(a), OsInput::Repl(i)) => a.resolves(i, env),
            (OsCommandType::Info, OsInput::Info) => true,
            _ => false,
        }
    }

    /// Gives the arguments of the chosen command their values, or refuses the input.
    pub fn resolve(input: OsInput, env: &Environment, config: &Config) -> (r: Result<
        OsCommandType,
        ParseError,
    >)
        ensures
            match r {
                Ok(command) => Self::fault(input, *env) is None && command.resolves(
                    input,
                    *env,
                    *config,
                ),
                Err(e) => Self::fault(input, *env) == Some(e@),
            },
    {
        match input {
            OsInput::Switch(i) => match OsSubcommandArgs::resolve(i, env, config) {
                Ok(a) => Ok(OsCommandType::Switch(a)),
                Err(e) => Err(e),
            },
            OsInput::Boot(i) => match OsSubcommandArgs::resolve(i, env, config) {
                Ok(a) => Ok(OsCommandType::Boot(a)),
                Err(e) => Err(e),
            },
            OsInput::Test(i) => match OsSubcommandArgs::resolve(i, env, config) {
                Ok(a) => Ok(OsCommandType::Test(a)),
                Err(e) => Err(e),
            },
            OsInput::Build(i) => match OsSubcommandArgs::resolve(i, env, config) {
                Ok(a) => Ok(OsCommandType::Build(a)),
                Err(e) => Err(e),
            },
            OsInput::Repl(i) => match CommonReplArgs::resolve(i, env) {
                Ok(a) => Ok(OsCommandType::Repl(a)),
                Err(e) => Err(e),
            },
            OsInput::Info => Ok(OsCommandType::Info),
        }
    }
}

impl OsArgs {
    /// Gives the arguments of the chosen command their values, or refuses the input.
    pub fn resolve(input: OsInput, env: &Environment, config: &Config) -> (r: Result<
        OsArgs,
        ParseError,
    >)
        ensures
            match r {
                Ok(args) => OsCommandType::fault(input, *env) is None && args.action.resolves(
                    input,
                    *env,
                    *config,
                ),
                Err(e) => OsCommandType::fault(input, *env) == Some(e@),
            },
    {
        match OsCommandType::resolve(input, env, config) {
            Ok(action) => Ok(OsArgs { action }),
            Err(e) => Err(e),
        }
    }
}

/// A repl that is given a flake reference, on the command line or through
/// the environment, beside the name of a configuration is refused,
/// whatever else it is given.
pub proof fn lemma_repl_refuses_reference_beside_configuration(input: ReplInput, env: Environment)
    requires
        input.flakeref is Some || env.flake is Some,
        input.configuration is Some,
    ensures
        CommonReplArgs::fault(input, env) == Some(
            Fault::Conflict { first: Argument::Configuration, second: Argument::Flakeref },
        ),
{
}

/// A rebuild of the system that names a specialisation and turns
/// specialisations off is refused, whatever else it is given.
pub proof fn lemma_os_rebuild_refuses_specialisation_beside_none(
    input: OsRebuildInput,
    env: Environment,
)
    requires
        input.specialisation is Some,
        input.no_specialisation,
    ensures
        OsSubcommandArgs::fault(input, env) is Some,
{
}

} // verus!
