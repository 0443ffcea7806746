//! The arguments that every rebuild takes, of the system or of a home.

use crate::environment::Environment;
use crate::precedence::{layered, resolve_layered};
use crate::text::{copy_of, text_of};
use std::path::PathBuf;
use vstd::prelude::*;

verus! {

/// `std::path::PathBuf`. A path is carried from the command line to the
/// operation as it is; nothing is read from it.
#[verifier::external_type_specification]
#[verifier::external_body]
pub struct ExPathBuf(PathBuf);

/// `Clone` of `std::path::PathBuf`: the copy is the same path.
pub assume_specification[ <PathBuf as Clone>::clone ](path: &PathBuf) -> (r: PathBuf)
    ensures
        r == *path,
;

/// The common arguments of a rebuild as the command line gave them.
#[derive(Debug, Clone, PartialEq, Eq)]
pub struct RebuildInput {
    /// `--dry`.
    pub dry: bool,
    /// `--ask`.
    pub ask: bool,
    /// `--update`.
    pub update: bool,
    /// `--pull`.
    pub pull: bool,
    /// `--no-nom`.
    pub no_nom: bool,
    /// The value of `--diff-provider`, if it was given.
    pub diff_provider: Option<String>,
    /// The value of `--out-link`, if it was given.
    pub out_link: Option<PathBuf>,
}

/// The common arguments of a rebuild. Any combination of them is valid.
#[derive(Debug, Clone, PartialEq, Eq)]
pub struct CommonRebuildArgs {
    /// Only print actions, without performing them.
    pub dry: bool,
    /// Ask for confirmation.
    pub ask: bool,
    /// Update flake inputs before building the configuration.
    pub update: bool,
    /// Run git pull on the flake before building the configuration.
    pub pull: bool,
    /// Do not use nix-output-monitor for the build.
    pub no_nom: bool,
    /// The command that shows the difference of two closures.
    pub diff_provider: String,
    /// Where to save the result link; a temporary directory if not given.
    pub out_link: Option<PathBuf>,
}

impl CommonRebuildArgs {
    /// The command that shows the difference of two closures where neither
    /// the command line nor the environment names one.
    pub open spec fn default_diff_provider() -> Seq<char> {
        "nvd diff"@
    }

    /// Whether these are the arguments that `input` stands for in the
    /// environment `env`.
    pub open spec fn resolves(&self, input: RebuildInput, env: Environment) -> bool {
        &&& self.dry == input.dry
        &&& self.ask == input.ask
        &&& self.update == input.update
        &&& self.pull == input.pull
        &&& self.no_nom == input.no_nom
        &&& self.diff_provider@ == layered(
            text_of(input.diff_provider),
            text_of(env.diff_provider),
            None,
            Self::default_diff_provider(),
        )
        &&& self.out_link == input.out_link
    }

    /// Gives each argument its value. The difference provider is the one of
    /// the command line, else the one of the environment, else `nvd diff`.
    pub fn resolve(input: RebuildInput, env: &Environment) -> (r: CommonRebuildArgs)
        ensures
            r.resolves(input, *env),
    {
        let diff_provider = resolve_layered(
            input.diff_provider,
            copy_of(&env.diff_provider),
            None,
            String::from_str("nvd diff"),
        );
        CommonRebuildArgs {
            dry: input.dry,
            ask: input.ask,
            update: input.update,
            pull: input.pull,
            no_nom: input.no_nom,
            diff_provider,
            out_link: input.out_link,
        }
    }
}

} // verus!
