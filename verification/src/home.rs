//! The `home` commands: rebuilds of a user's home configuration and its
//! overview.

use crate::config::Config;
use crate::environment::Environment;
use crate::error::{Argument, Fault, ParseError};
use crate::flake_ref::FlakeRef;
use crate::precedence::{layered, resolve_layered};
use crate::rebuild::{CommonRebuildArgs, RebuildInput};
use crate::text::text_of;
use vstd::prelude::*;

verus! {

/// A rebuild of a home as the command line gave it.
#[derive(Debug, Clone, PartialEq, Eq)]
pub struct HomeRebuildInput {
    /// The arguments that every rebuild takes.
    pub common: RebuildInput,
    /// The flake reference, if one was given.
    pub flakeref: Option<String>,
    /// The value of `--configuration`, if it was given.
    pub configuration: Option<String>,
    /// What followed `--`.
    pub extra_args: Vec<String>,
    /// The value of `--backup-extension`, if it was given.
    pub backup_extension: Option<String>,
}

/// A `home` command as the command line gave it.
#[derive(Debug, Clone, PartialEq, Eq)]
pub enum HomeInput {
    /// `home switch`.
    Switch(HomeRebuildInput),
    /// `home build`.
    Build(HomeRebuildInput),
    /// `home info`.
    Info,
}

/// The arguments of a rebuild of a home.
#[derive(Debug, Clone, PartialEq, Eq)]
pub struct HomeRebuildArgs {
    /// The arguments that every rebuild takes.
    pub common: CommonRebuildArgs,
    /// Flake reference to build.
    pub flakeref: FlakeRef,
    /// Name of the configuration attribute of the flake, like username@hostname.
    pub configuration: Option<String>,
    /// Extra arguments, passed on to `nix build` as they are.
    pub extra_args: Vec<String>,
    /// Move existing files out of the way by giving them this extension.
    pub backup_extension: Option<String>,
}

/// What to do with the home configuration.
#[derive(Debug, Clone, PartialEq, Eq)]
pub enum HomeSubcommand {
    /// Build and activate a home configuration.
    Switch(HomeRebuildArgs),
    /// Build a home configuration.
    Build(HomeRebuildArgs),
    /// Show an overview of the installation.
    Info,
}

/// The `home` command: it holds the choice of what to do and nothing else.
#[derive(Debug, Clone, PartialEq, Eq)]
pub struct HomeArgs {
    /// What to do with the home configuration.
    pub subcommand: HomeSubcommand,
}

impl HomeRebuildArgs {
    /// What is wrong with `input`, if anything: a flake reference given
    /// beside the name of a configuration.
    pub open spec fn fault(input: HomeRebuildInput) -> Option<Fault> {
        if input.flakeref is Some && input.configuration is Some {
            Some(
                Fault::Conflict { first: Argument::Configuration, second: Argument::Flakeref },
            )
        } else {
            None
        }
    }

    /// Whether these are the arguments that `input` stands for in the
    /// environment `env` and under the configuration `config`.
    pub open spec fn resolves(
        &self,
        input: HomeRebuildInput,
        env: Environment,
        config: Config,
    ) -> bool {
        &&& self.common.resolves(input.common, env)
        &&& self.flakeref@ == layered(
            text_of(input.flakeref),
            None,
            Some(config.home_flake@),
            Seq::<char>::empty(),
        )
        &&& self.configuration == input.configuration
        &&& self.extra_args == input.extra_args
        &&& self.backup_extension == input.backup_extension
    }

    /// Gives each argument its value, or refuses the input. The flake
    /// reference is the one of the command line, else the home flake of the
    /// configuration.
    pub fn resolve(input: HomeRebuildInput, env: &Environment, config: &Config) -> (r: Result<
        HomeRebuildArgs,
        ParseError,
    >)
        ensures
            match r {
                Ok(args) => Self::fault(input) is None && args.resolves(input, *env, *config),
                Err(e) => Self::fault(input) == Some(e@),
            },
    {
        if input.flakeref.is_some() && input.configuration.is_some() {
            return Err(
                ParseError::Conflict { first: Argument::Configuration, second: Argument::Flakeref },
            );
        }
        let common = CommonRebuildArgs::resolve(input.common, env);
        let flakeref = FlakeRef::new(
            resolve_layered(input.flakeref, None, Some(config.home_flake.clone()), String::new()),
        );
        Ok(
            HomeRebuildArgs {
                common,
                flakeref,
                configuration: input.configuration,
                extra_args: input.extra_args,
                backup_extension: input.backup_extension,
            },
        )
    }
}

impl HomeSubcommand {
    /// What is wrong with `input`, if anything.
    pub open spec fn fault(input: HomeInput) -> Option<Fault> {
        match input {
            HomeInput::Switch(i) => HomeRebuildArgs::fault(i),
            HomeInput::Build(i) => HomeRebuildArgs::fault(i),
            HomeInput::Info => None,
        }
    }

    /// Whether this is the command that `input` stands for: the same choice,
    /// with the arguments that the input's arguments stand for.
    pub open spec fn resolves(&self, input: HomeInput, env: Environment, config: Config) -> bool {
        match (*self, input) {
            (HomeSubcommand::Switch(a), HomeInput::Switch(i)) => a.resolves(i, env, config),
            (HomeSubcommand::Build(a), HomeInput::Build(i)) => a.resolves(i, env, config),
            (HomeSubcommand::Info, HomeInput::Info) => true,
            _ => false,
        }
    }

    /// Gives the arguments of the chosen command their values, or refuses the input.
    pub fn resolve(input: HomeInput, env: &Environment, config: &Config) -> (r: Result<
        HomeSubcommand,
        ParseError,
    >)
        ensures
            match r {
                Ok(command) => Self::fault(input) is None && command.resolves(
                    input,
                    *env,
                    *config,
                ),
                Err(e) => Self::fault(input) == Some(e@),
            },
    {
        match input {
            HomeInput::Switch(i) => match HomeRebuildArgs::resolve(i, env, config) {
                Ok(a) => Ok(HomeSubcommand::Switch(a)),
                Err(e) => Err(e),
            },
            HomeInput::Build(i) => match HomeRebuildArgs::resolve(i, env, config) {
                Ok(a) => Ok(HomeSubcommand::Build(a)),
                Err(e) => Err(e),
            },
            HomeInput::Info => Ok(HomeSubcommand::Info),
        }
    }
}

impl HomeArgs {
    /// Gives the arguments of the chosen command their values, or refuses the input.
    pub fn resolve(input: HomeInput, env: &Environment, config: &Config) -> (r: Result<
        HomeArgs,
        ParseError,
    >)
        ensures
            match r {
                Ok(args) => HomeSubcommand::fault(input) is None && args.subcommand.resolves(
                    input,
                    *env,
                    *config,
                ),
                Err(e) => HomeSubcommand::fault(input) == Some(e@),
            },
    {
        match HomeSubcommand::resolve(input, env, config) {
            Ok(subcommand) => Ok(HomeArgs { subcommand }),
            Err(e) => Err(e),
        }
    }
}

/// A rebuild of a home that is given a flake reference beside the name of
/// a configuration is refused, whatever else it is given.
pub proof fn lemma_home_rebuild_refuses_reference_beside_configuration(input: HomeRebuildInput)
    requires
        input.flakeref is Some,
        input.configuration is Some,
    ensures
        HomeRebuildArgs::fault(input) == Some(
            Fault::Conflict { first: Argument::Configuration, second: Argument::Flakeref },
        ),
{
}

} // verus!
