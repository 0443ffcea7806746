//! The `search` command: a query of the package index.

use crate::environment::Environment;
use crate::error::{Argument, Fault, ParseError};
use crate::flake_ref::FlakeRef;
use crate::precedence::{layered_optional, resolve_optional};
use crate::text::{copy_of, numeral_value, parse_number, text_of};
use vstd::prelude::*;

verus! {

/// A search as the command line gave it.
#[derive(Debug, Clone, PartialEq, Eq)]
pub struct SearchInput {
    /// The value of `--limit`, if it was given.
    pub limit: Option<String>,
    /// The value of `--channel`, if it was given.
    pub channel: Option<String>,
    /// The text to search for, if one was given.
    pub query: Option<String>,
    /// The value of `--flake`, if it was given.
    pub flake: Option<String>,
}

/// The arguments of a search.
#[derive(Debug, Clone, PartialEq, Eq)]
pub struct SearchArgs {
    /// Number of search results to display.
    pub limit: u64,
    /// Name of the channel to query, like nixos-unstable.
    pub channel: Option<String>,
    /// Name of the package to search.
    pub query: String,
    /// Flake to read from which nixpkgs channel to search.
    pub flake: Option<FlakeRef>,
}

/// The text of an optional flake reference, where there is one.
pub open spec fn flake_text(flake: Option<FlakeRef>) -> Option<Seq<char>> {
    match flake {
        Some(f) => Some(f@),
        None => None,
    }
}

impl SearchArgs {
    /// How many results a search shows where the command line does not say.
    pub open spec fn default_limit() -> u64 {
        30
    }

    /// The number of results that `input` asks for, if what it gives is a number.
    pub open spec fn limit_of(input: SearchInput) -> Option<nat> {
        match input.limit {
            Some(text) => numeral_value(text@, u64::MAX as nat),
            None => Some(Self::default_limit() as nat),
        }
    }

    /// What is wrong with `input`, if anything: a limit that is no number
    /// of 64 bits, or no query.
    pub open spec fn fault(input: SearchInput) -> Option<Fault> {
        if Self::limit_of(input) is None {
            Some(Fault::InvalidValue { argument: Argument::Limit, value: input.limit->0@ })
        } else if input.query is None {
            Some(Fault::MissingArgument { argument: Argument::Query })
        } else {
            None
        }
    }

    /// Whether these are the arguments that `input` stands for in the
    /// environment `env`.
    pub open spec fn resolves(&self, input: SearchInput, env: Environment) -> bool {
        &&& Some(self.limit as nat) == Self::limit_of(input)
        &&& self.channel == input.channel
        &&& Some(self.query) == input.query
        &&& flake_text(self.flake) == layered_optional(text_of(input.flake), text_of(env.flake))
    }

    /// Gives each argument its value, or refuses the input. The limit is
    /// the one of the command line, else 30; the flake is the one of the
    /// command line, else that of the environment, else none.
    pub fn resolve(input: SearchInput, env: &Environment) -> (r: Result<SearchArgs, ParseError>)
        ensures
            match r {
                Ok(args) => Self::fault(input) is None && args.resolves(input, *env),
                Err(e) => Self::fault(input) == Some(e@),
            },
    {
        let limit: u64 = match input.limit {
            Some(text) => match parse_number(text.as_str(), u64::MAX) {
                Some(n) => n,
                None => {
                    return Err(
                        ParseError::InvalidValue { argument: Argument::Limit, value: text },
                    );
                },
            },
            None => 30,
        };
        let query = match input.query {
            Some(query) => query,
            None => {
                return Err(ParseError::MissingArgument { argument: Argument::Query });
            },
        };
        let flake = match resolve_optional(input.flake, copy_of(&env.flake)) {
            Some(text) => Some(FlakeRef::new(text)),
            None => None,
        };
        Ok(SearchArgs { limit, channel: input.channel, query, flake })
    }
}

/// A search that is given a query and nothing else is accepted; it shows
/// 30 results, of no particular channel, and searches for the query as it
/// was given.
pub proof fn lemma_search_defaults(input: SearchInput, env: Environment, args: SearchArgs)
    requires
        input.limit is None,
        input.channel is None,
        input.query is Some,
        args.resolves(input, env),
    ensures
        SearchArgs::fault(input) is None,
        args.limit == 30,
        args.channel is None,
        args.query == input.query->0,
{
}

} // verus!
