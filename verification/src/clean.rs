//! The `clean` commands: removal of old generations, of all profiles, of
//! the user's profiles or of one profile.

use crate::duration::{duration_of, Duration};
use crate::error::{Argument, Fault, ParseError};
use crate::text::{numeral_value, parse_number};
use std::path::PathBuf;
use vstd::prelude::*;

verus! {

/// The common arguments of a cleanup as the command line gave them.
#[derive(Debug, Clone, PartialEq, Eq)]
pub struct CleanArgsInput {
    /// The value of `--keep`, if it was given.
    pub keep: Option<String>,
    /// The value of `--keep-since`, if it was given.
    pub keep_since: Option<String>,
    /// `--dry`.
    pub dry: bool,
    /// `--ask`.
    pub ask: bool,
    /// `--nogc`.
    pub nogc: bool,
    /// `--nogcroots`.
    pub nogcroots: bool,
}

/// The cleanup of one profile as the command line gave it.
#[derive(Debug, Clone, PartialEq, Eq)]
pub struct CleanProfileInput {
    /// The arguments that every cleanup takes.
    pub common: CleanArgsInput,
    /// The path of the profile, if one was given.
    pub profile: Option<PathBuf>,
}

/// A `clean` command as the command line gave it.
#[derive(Debug, Clone, PartialEq, Eq)]
pub enum CleanInput {
    /// `clean all`.
    All(CleanArgsInput),
    /// `clean user`.
    User(CleanArgsInput),
    /// `clean profile`.
    Profile(CleanProfileInput),
}

/// The common arguments of a cleanup. They are carried as they are: what
/// is kept in the end is for the cleanup itself to see to.
#[derive(Debug, Clone, Copy, PartialEq, Eq, Structural)]
pub struct CleanArgs {
    /// At least keep this number of generations.
    pub keep: u32,
    /// At least keep gcroots and generations in this time range since now.
    pub keep_since: Duration,
    /// Only print actions, without performing them.
    pub dry: bool,
    /// Ask for confirmation.
    pub ask: bool,
    /// Do not run `nix store --gc`.
    pub nogc: bool,
    /// Do not clean gcroots.
    pub nogcroots: bool,
}

/// The arguments of the cleanup of one profile.
#[derive(Debug, PartialEq, Eq)]
pub struct CleanProfileArgs {
    /// The arguments that every cleanup takes.
    pub common: CleanArgs,
    /// The profile to clean.
    pub profile: PathBuf,
}

/// What to clean.
#[derive(Debug, Clone, PartialEq, Eq)]
pub enum CleanMode {
    /// Clean all profiles and collect garbage in the store.
    All(CleanArgs),
    /// Clean the profiles of the current user and collect garbage in the store.
    User(CleanArgs),
    /// Clean one profile.
    Profile(CleanProfileArgs),
}

/// The `clean` command: it holds the choice of what to clean and nothing else.
#[derive(Debug, Clone, PartialEq, Eq)]
pub struct CleanProxy {
    command: CleanMode,
}

impl CleanArgs {
    /// How many generations a cleanup keeps where the command line does not say.
    pub open spec fn default_keep() -> u32 {
        1
    }

    /// The number of generations that `input` asks to keep, if what it
    /// gives is a number of 32 bits.
    pub open spec fn keep_of(input: CleanArgsInput) -> Option<nat> {
        match input.keep {
            Some(text) => numeral_value(text@, u32::MAX as nat),
            None => Some(Self::default_keep() as nat),
        }
    }

    /// The age that `input` asks to keep, if what it gives is a span of
    /// time: the empty span where it gives nothing.
    pub open spec fn keep_since_of(input: CleanArgsInput) -> Option<Duration> {
        match input.keep_since {
            Some(text) => duration_of(text@),
            None => Some(Duration::zero_span()),
        }
    }

    /// What is wrong with `input`, if anything: a number of generations that
    /// is no number of 32 bits, or else an age that is no span of time.
    pub open spec fn fault(input: CleanArgsInput) -> Option<Fault> {
        if Self::keep_of(input) is None {
            Some(Fault::InvalidValue { argument: Argument::Keep, value: input.keep->0@ })
        } else if Self::keep_since_of(input) is None {
            Some(
                Fault::InvalidValue { argument: Argument::KeepSince, value: input.keep_since->0@ },
            )
        } else {
            None
        }
    }

    /// Whether these are the arguments that `input` stands for.
    pub open spec fn resolves(&self, input: CleanArgsInput) -> bool {
        &&& Some(self.keep as nat) == Self::keep_of(input)
        &&& Some(self.keep_since) == Self::keep_since_of(input)
        &&& self.dry == input.dry
        &&& self.ask == input.ask
        &&& self.nogc == input.nogc
        &&& self.nogcroots == input.nogcroots
    }

    /// What the values read for `--keep` and `--keep-since` make of
    /// `input`. Each is the value that was read, or nothing where the text
    /// was given and no value could be read from it; where the argument was
    /// not given it is passed over. The number of generations is then the
    /// one read, else 1; the age is the one read, else the empty span.
    pub open spec fn assembled(
        input: CleanArgsInput,
        keep: Option<u32>,
        keep_since: Option<Duration>,
    ) -> Result<CleanArgs, Fault> {
        if input.keep is Some && keep is None {
            Err(Fault::InvalidValue { argument: Argument::Keep, value: input.keep->0@ })
        } else if input.keep_since is Some && keep_since is None {
            Err(Fault::InvalidValue { argument: Argument::KeepSince, value: input.keep_since->0@ })
        } else {
            Ok(
                CleanArgs {
                    keep: if input.keep is Some {
                        keep->0
                    } else {
                        Self::default_keep()
                    },
                    keep_since: if input.keep_since is Some {
                        keep_since->0
                    } else {
                        Duration::zero_span()
                    },
                    dry: input.dry,
                    ask: input.ask,
                    nogc: input.nogc,
                    nogcroots: input.nogcroots,
                },
            )
        }
    }

    /// Puts the arguments together from `input` and from the values that
    /// were read for `--keep` and `--keep-since`.
    pub fn assemble(input: CleanArgsInput, keep: Option<u32>, keep_since: Option<Duration>) -> (r:
        Result<CleanArgs, ParseError>)
        ensures
            match r {
                Ok(args) => Self::assembled(input, keep, keep_since) == Ok::<CleanArgs, Fault>(
                    args,
                ),
                Err(e) => Self::assembled(input, keep, keep_since) == Err::<CleanArgs, Fault>(e@),
            },
    {
        let keep: u32 = match input.keep {
            Some(text) => match keep {
                Some(n) => n,
                None => {
                    return Err(ParseError::InvalidValue { argument: Argument::Keep, value: text });
                },
            },
            None => 1,
        };
        let keep_since = match input.keep_since {
            Some(text) => match keep_since {
                Some(span) => span,
                None => {
                    return Err(
                        ParseError::InvalidValue { argument: Argument::KeepSince, value: text },
                    );
                },
            },
            None => Duration::zero(),
        };
        Ok(
            CleanArgs {
                keep,
                keep_since,
                dry: input.dry,
                ask: input.ask,
                nogc: input.nogc,
                nogcroots: input.nogcroots,
            },
        )
    }

    /// Gives each argument its value, or refuses the input. The number of
    /// generations is the one of the command line, else 1; the age is the
    /// one of the command line, else the empty span.
    pub fn resolve(input: CleanArgsInput) -> (r: Result<CleanArgs, ParseError>)
        ensures
            match r {
                Ok(args) => Self::fault(input) is None && args.resolves(input)
                    && args.keep_since.well_formed(),
                Err(e) => Self::fault(input) == Some(e@),
            },
    {
        let keep: Option<u32> = match &input.keep {
            Some(text) => match parse_number(text.as_str(), 0xffff_ffff) {
                Some(n) => Some(n as u32),
                None => None,
            },
            None => None,
        };
        let keep_since = match &input.keep_since {
            Some(text) => Duration::parse(text.as_str()),
            None => None,
        };
        CleanArgs::assemble(input, keep, keep_since)
    }
}

impl Clone for CleanProfileArgs {
    fn clone(&self) -> (r: CleanProfileArgs)
        ensures
            r == *self,
    {
        CleanProfileArgs { common: self.common, profile: self.profile.clone() }
    }
}

impl CleanProfileArgs {
    /// What is wrong with `input`, if anything: what is wrong with its
    /// common arguments, or else that it names no profile.
    pub open spec fn fault(input: CleanProfileInput) -> Option<Fault> {
        if CleanArgs::fault(input.common) is Some {
            CleanArgs::fault(input.common)
        } else if input.profile is None {
            Some(Fault::MissingArgument { argument: Argument::Profile })
        } else {
            None
        }
    }

    /// Whether these are the arguments that `input` stands for.
    pub open spec fn resolves(&self, input: CleanProfileInput) -> bool {
        &&& self.common.resolves(input.common)
        &&& Some(self.profile) == input.profile
    }

    /// Gives each argument its value, or refuses the input.
    pub fn resolve(input: CleanProfileInput) -> (r: Result<CleanProfileArgs, ParseError>)
        ensures
            match r {
                Ok(args) => Self::fault(input) is None && args.resolves(input),
                Err(e) => Self::fault(input) == Some(e@),
            },
    {
        let common = match CleanArgs::resolve(input.common) {
            Ok(common) => common,
            Err(e) => {
                return Err(e);
            },
        };
        match input.profile {
            Some(profile) => Ok(CleanProfileArgs { common, profile }),
            None => Err(ParseError::MissingArgument { argument: Argument::Profile }),
        }
    }
}

impl CleanMode {
    /// What is wrong with `input`, if anything.
    pub open spec fn fault(input: CleanInput) -> Option<Fault> {
        match input {
            CleanInput::All(i) => CleanArgs::fault(i),
            CleanInput::User(i) => CleanArgs::fault(i),
            CleanInput::Profile(i) => CleanProfileArgs::fault(i),
        }
    }

    /// Whether this is the command that `input` stands for: the same choice,
    /// with the arguments that the input's arguments stand for.
    pub open spec fn resolves(&self, input: CleanInput) -> bool {
        match (*self, input) {
            (CleanMode::All(a), CleanInput::All(i)) => a.resolves(i),
            (CleanMode::User(a), CleanInput::User(i)) => a.resolves(i),
            (CleanMode::Profile(a), CleanInput::Profile(i)) => a.resolves(i),
            _ => false,
        }
    }

    /// Gives the arguments of the chosen command their values, or refuses the input.
    pub fn resolve(input: CleanInput) -> (r: Result<CleanMode, ParseError>)
        ensures
            match r {
                Ok(mode) => Self::fault(input) is None && mode.resolves(input),
                Err(e) => Self::fault(input) == Some(e@),
            },
    {
        match input {
            CleanInput::All(i) => match CleanArgs::resolve(i) {
                Ok(a) => Ok(CleanMode::All(a)),
                Err(e) => Err(e),
            },
            CleanInput::User(i) => match CleanArgs::resolve(i) {
                Ok(a) => Ok(CleanMode::User(a)),
                Err(e) => Err(e),
            },
            CleanInput::Profile(i) => match CleanProfileArgs::resolve(i) {
                Ok(a) => Ok(CleanMode::Profile(a)),
                Err(e) => Err(e),
            },
        }
    }
}

impl CleanProxy {
    /// The choice that the command holds.
    pub closed spec fn mode(&self) -> CleanMode {
        self.command
    }

    /// The command that holds the choice `command`.
    pub fn new(command: CleanMode) -> (r: CleanProxy)
        ensures
            r.mode() == command,
    {
        CleanProxy { command }
    }

    /// The choice that the command holds.
    pub fn command(&self) -> (r: &CleanMode)
        ensures
            *r == self.mode(),
    {
        &self.command
    }

    /// Gives the arguments of the chosen command their values, or refuses the input.
    pub fn resolve(input: CleanInput) -> (r: Result<CleanProxy, ParseError>)
        ensures
            match r {
                Ok(proxy) => CleanMode::fault(input) is None && proxy.mode().resolves(input),
                Err(e) => CleanMode::fault(input) == Some(e@),
            },
    {
        match CleanMode::resolve(input) {
            Ok(command) => Ok(CleanProxy { command }),
            Err(e) => Err(e),
        }
    }
}

/// A cleanup that is given neither `--keep` nor `--keep-since` is
/// accepted; it keeps 1 generation and sets no age below which generations
/// are kept. So does the cleanup of a profile, of every path.
pub proof fn lemma_clean_defaults(input: CleanProfileInput, args: CleanProfileArgs)
    requires
        input.common.keep is None,
        input.common.keep_since is None,
        input.profile is Some,
        args.resolves(input),
    ensures
        CleanArgs::fault(input.common) is None,
        CleanProfileArgs::fault(input) is None,
        args.common.keep == 1,
        args.common.keep_since == Duration::zero_span(),
        args.profile == input.profile->0,
{
}

} // verus!
