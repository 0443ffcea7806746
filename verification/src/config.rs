//! The configuration: where the flakes are looked for when the command line
//! does not say.

use crate::environment::Environment;
use crate::text::{join_path, joined};
use vstd::prelude::*;

verus! {

/// Why no configuration could be made.
#[derive(Debug, Clone, Copy, PartialEq, Eq, Structural)]
pub enum ConfigError {
    /// The environment does not tell the home directory.
    HomeDirectoryUnknown,
}

/// The default locations of the flakes. A configuration is made once, when
/// the program starts, and read from then on.
#[derive(Debug, Clone, PartialEq, Eq)]
pub struct Config {
    /// The flake that holds the system configuration.
    pub os_flake: String,
    /// The flake that holds the user's home configuration.
    pub home_flake: String,
}

impl Config {
    /// Where the system flake lies under the home directory.
    pub open spec fn os_flake_under() -> Seq<char> {
        ".config/nixos"@
    }

    /// Where the home flake lies under the home directory.
    pub open spec fn home_flake_under() -> Seq<char> {
        ".config/home-manager"@
    }

    /// Whether this is the configuration that belongs to the home directory `home`.
    pub open spec fn is_under(&self, home: Seq<char>) -> bool {
        &&& self.os_flake@ == joined(home, Self::os_flake_under())
        &&& self.home_flake@ == joined(home, Self::home_flake_under())
    }

    /// The configuration of a user whose home directory is `home`.
    pub fn from_home(home: &str) -> (r: Config)
        ensures
            r.is_under(home@),
    {
        Config {
            os_flake: join_path(home, ".config/nixos"),
            home_flake: join_path(home, ".config/home-manager"),
        }
    }

    /// The configuration that the environment gives: that of the home
    /// directory it names. Without a home directory there is none.
    pub fn from_env(env: &Environment) -> (r: Result<Config, ConfigError>)
        ensures
            match r {
                Ok(config) => env.home is Some && config.is_under(env.home->0@),
                Err(e) => env.home is None && e == ConfigError::HomeDirectoryUnknown,
            },
    {
        match &env.home {
            Some(home) => Ok(Config::from_home(home.as_str())),
            None => Err(ConfigError::HomeDirectoryUnknown),
        }
    }
}

/// The configuration is a matter of the home directory alone: made twice
/// for one home directory, it names the same flakes.
pub proof fn lemma_config_is_determined_by_home(first: Config, second: Config, home: Seq<char>)
    requires
        first.is_under(home),
        second.is_under(home),
    ensures
        first.os_flake@ == second.os_flake@,
        first.home_flake@ == second.home_flake@,
{
}

/// The two flakes of a home directory lie in different places.
pub proof fn lemma_flakes_of_a_home_differ(config: Config, home: Seq<char>)
    requires
        config.is_under(home),
    ensures
        config.os_flake@ != config.home_flake@,
{
    reveal_strlit(".config/nixos");
    reveal_strlit(".config/home-manager");
    let a = joined(home, Config::os_flake_under());
    let b = joined(home, Config::home_flake_under());
    assert(a.len() != b.len());
}

} // verus!
