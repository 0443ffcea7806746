//! Dispatch: the one operation that every command answers to.

use crate::clean::{CleanArgs, CleanInput, CleanMode, CleanProfileArgs, CleanProxy};
use crate::command::{CommandInput, NHCommand};
use crate::completion::CompletionArgs;
use crate::config::Config;
use crate::environment::Environment;
use crate::home::{HomeArgs, HomeInput, HomeRebuildArgs, HomeSubcommand};
use crate::os::{CommonReplArgs, OsArgs, OsCommandType, OsInput, OsSubcommandArgs};
use crate::search::SearchArgs;
use vstd::prelude::*;

verus! {

/// An operation that is owed to the outside, with the arguments it is to
/// be performed on. There is one for each command that the command line
/// can select in the end.
#[derive(Debug, Clone, Copy, PartialEq, Eq)]
pub enum Task<'a> {
    /// Build and activate the system configuration, and make it the boot default.
    OsSwitch(&'a OsSubcommandArgs),
    /// Build the system configuration and make it the boot default.
    OsBoot(&'a OsSubcommandArgs),
    /// Build and activate the system configuration.
    OsTest(&'a OsSubcommandArgs),
    /// Build the system configuration.
    OsBuild(&'a OsSubcommandArgs),
    /// Enter a repl with the system configuration loaded.
    OsRepl(&'a CommonReplArgs),
    /// Show an overview of the system.
    OsInfo,
    /// Build and activate a home configuration.
    HomeSwitch(&'a HomeRebuildArgs),
    /// Build a home configuration.
    HomeBuild(&'a HomeRebuildArgs),
    /// Show an overview of the home installation.
    HomeInfo,
    /// Query the package index.
    Search(&'a SearchArgs),
    /// Clean all profiles.
    CleanAll(&'a CleanArgs),
    /// Clean the profiles of the current user.
    CleanUser(&'a CleanArgs),
    /// Clean one profile.
    CleanProfile(&'a CleanProfileArgs),
    /// Write completion files for a shell.
    Completions(&'a CompletionArgs),
}

/// The operations, without their arguments.
#[derive(Debug, Clone, Copy, PartialEq, Eq, Structural)]
pub enum TaskKind {
    OsSwitch,
    OsBoot,
    OsTest,
    OsBuild,
    OsRepl,
    OsInfo,
    HomeSwitch,
    HomeBuild,
    HomeInfo,
    Search,
    CleanAll,
    CleanUser,
    CleanProfile,
    Completions,
}

impl<'a> Task<'a> {
    /// Which operation this is.
    pub open spec fn kind_of(self) -> TaskKind {
        match self {
            Task::OsSwitch(_) => TaskKind::OsSwitch,
            Task::OsBoot(_) => TaskKind::OsBoot,
            Task::OsTest(_) => TaskKind::OsTest,
            Task::OsBuild(_) => TaskKind::OsBuild,
            Task::OsRepl(_) => TaskKind::OsRepl,
            Task::OsInfo => TaskKind::OsInfo,
            Task::HomeSwitch(_) => TaskKind::HomeSwitch,
            Task::HomeBuild(_) => TaskKind::HomeBuild,
            Task::HomeInfo => TaskKind::HomeInfo,
            Task::Search(_) => TaskKind::Search,
            Task::CleanAll(_) => TaskKind::CleanAll,
            Task::CleanUser(_) => TaskKind::CleanUser,
            Task::CleanProfile(_) => TaskKind::CleanProfile,
            Task::Completions(_) => TaskKind::Completions,
        }
    }

    /// Which operation this is.
    pub fn kind(&self) -> (r: TaskKind)
        ensures
            r == self.kind_of(),
    {
        match self {
            Task::OsSwitch(_) => TaskKind::OsSwitch,
            Task::OsBoot(_) => TaskKind::OsBoot,
            Task::OsTest(_) => TaskKind::OsTest,
            Task::OsBuild(_) => TaskKind::OsBuild,
            Task::OsRepl(_) => TaskKind::OsRepl,
            Task::OsInfo => TaskKind::OsInfo,
            Task::HomeSwitch(_) => TaskKind::HomeSwitch,
            Task::HomeBuild(_) => TaskKind::HomeBuild,
            Task::HomeInfo => TaskKind::HomeInfo,
            Task::Search(_) => TaskKind::Search,
            Task::CleanAll(_) => TaskKind::CleanAll,
            Task::CleanUser(_) => TaskKind::CleanUser,
            Task::CleanProfile(_) => TaskKind::CleanProfile,
            Task::Completions(_) => TaskKind::Completions,
        }
    }
}

/// What can be run. Running takes nothing beyond the value itself: all
/// that the operation needs was fixed when the command line was resolved.
/// `run` names the operation and hands out its arguments; to perform it is
/// for the caller, who returns whatever the operation reports.
pub trait NHRunnable {
    /// The operation that this value selects.
    spec fn task(&self) -> Task<'_>;

    /// Selects the operation.
    fn run(&self) -> (t: Task<'_>)
        ensures
            t == self.task(),
    ;
}

impl NHRunnable for OsArgs {
    open spec fn task(&self) -> Task<'_> {
        match &self.action {
            OsCommandType::Switch(args) => Task::OsSwitch(args),
            OsCommandType::Boot(args) => Task::OsBoot(args),
            OsCommandType::Test(args) => Task::OsTest(args),
            OsCommandType::Build(args) => Task::OsBuild(args),
            OsCommandType::Repl(args) => Task::OsRepl(args),
            OsCommandType::Info => Task::OsInfo,
        }
    }

    fn run(&self) -> (t: Task<'_>) {
        match &self.action {
            OsCommandType::Switch(args) => Task::OsSwitch(args),
            OsCommandType::Boot(args) => Task::OsBoot(args),
            OsCommandType::Test(args) => Task::OsTest(args),
            OsCommandType::Build(args) => Task::OsBuild(args),
            OsCommandType::Repl(args) => Task::OsRepl(args),
            OsCommandType::Info => Task::OsInfo,
        }
    }
}

impl NHRunnable for HomeArgs {
    open spec fn task(&self) -> Task<'_> {
        match &self.subcommand {
            HomeSubcommand::Switch(args) => Task::HomeSwitch(args),
            HomeSubcommand::Build(args) => Task::HomeBuild(args),
            HomeSubcommand::Info => Task::HomeInfo,
        }
    }

    fn run(&self) -> (t: Task<'_>) {
        match &self.subcommand {
            HomeSubcommand::Switch(args) => Task::HomeSwitch(args),
            HomeSubcommand::Build(args) => Task::HomeBuild(args),
            HomeSubcommand::Info => Task::HomeInfo,
        }
    }
}

impl NHRunnable for SearchArgs {
    open spec fn task(&self) -> Task<'_> {
        Task::Search(self)
    }

    fn run(&self) -> (t: Task<'_>) {
        Task::Search(self)
    }
}

impl NHRunnable for CleanMode {
    open spec fn task(&self) -> Task<'_> {
        match self {
            CleanMode::All(args) => Task::CleanAll(args),
            CleanMode::User(args) => Task::CleanUser(args),
            CleanMode::Profile(args) => Task::CleanProfile(args),
        }
    }

    fn run(&self) -> (t: Task<'_>) {
        match self {
            CleanMode::All(args) => Task::CleanAll(args),
            CleanMode::User(args) => Task::CleanUser(args),
            CleanMode::Profile(args) => Task::CleanProfile(args),
        }
    }
}

impl NHRunnable for CleanProxy {
    open spec fn task(&self) -> Task<'_> {
        self.mode().task()
    }

    fn run(&self) -> (t: Task<'_>) {
        self.command().run()
    }
}

impl NHRunnable for CompletionArgs {
    open spec fn task(&self) -> Task<'_> {
        Task::Completions(self)
    }

    fn run(&self) -> (t: Task<'_>) {
        Task::Completions(self)
    }
}

impl NHRunnable for NHCommand {
    open spec fn task(&self) -> Task<'_> {
        match self {
            NHCommand::Os(args) => args.task(),
            NHCommand::Home(args) => args.task(),
            NHCommand::Search(args) => args.task(),
            NHCommand::Clean(proxy) => proxy.task(),
            NHCommand::Completions(args) => args.task(),
        }
    }

    fn run(&self) -> (t: Task<'_>) {
        match self {
            NHCommand::Os(args) => args.run(),
            NHCommand::Home(args) => args.run(),
            NHCommand::Search(args) => args.run(),
            NHCommand::Clean(proxy) => proxy.run(),
            NHCommand::Completions(args) => args.run(),
        }
    }
}

/// The operation that a command line asks for, read off the command line
/// as it was given.
pub open spec fn chosen(input: CommandInput) -> TaskKind {
    match input {
        CommandInput::Os(OsInput::Switch(_)) => TaskKind::OsSwitch,
        CommandInput::Os(OsInput::Boot(_)) => TaskKind::OsBoot,
        CommandInput::Os(OsInput::Test(_)) => TaskKind::OsTest,
        CommandInput::Os(OsInput::Build(_)) => TaskKind::OsBuild,
        CommandInput::Os(OsInput::Repl(_)) => TaskKind::OsRepl,
        CommandInput::Os(OsInput::Info) => TaskKind::OsInfo,
        CommandInput::Home(HomeInput::Switch(_)) => TaskKind::HomeSwitch,
        CommandInput::Home(HomeInput::Build(_)) => TaskKind::HomeBuild,
        CommandInput::Home(HomeInput::Info) => TaskKind::HomeInfo,
        CommandInput::Search(_) => TaskKind::Search,
        CommandInput::Clean(CleanInput::All(_)) => TaskKind::CleanAll,
        CommandInput::Clean(CleanInput::User(_)) => TaskKind::CleanUser,
        CommandInput::Clean(CleanInput::Profile(_)) => TaskKind::CleanProfile,
        CommandInput::Completions(_) => TaskKind::Completions,
    }
}

/// Every command answers to `run`, and what runs is what the command line
/// asked for: the command that a command line resolves to selects the one
/// operation that the command line chose, through however many commands
/// that only hold a further choice.
pub proof fn lemma_run_selects_what_was_chosen(
    command: NHCommand,
    input: CommandInput,
    env: Environment,
    config: Config,
)
    requires
        command.resolves(input, env, config),
    ensures
        command.task().kind_of() == chosen(input),
{
}

/// A command that only holds a further choice runs what the choice runs.
pub proof fn lemma_proxies_forward(command: NHCommand)
    ensures
        command matches NHCommand::Os(args) ==> command.task() == args.task(),
        command matches NHCommand::Home(args) ==> command.task() == args.task(),
        command matches NHCommand::Search(args) ==> command.task() == args.task(),
        command matches NHCommand::Clean(proxy) ==> command.task() == proxy.mode().task(),
        command matches NHCommand::Completions(args) ==> command.task() == args.task(),
{
}

} // verus!
