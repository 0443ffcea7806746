//! The environment variables that the command line draws on.

use crate::text::{same_text, text_of};
use vstd::prelude::*;

verus! {

/// The value of the variable `name` among `vars`, a list of names with
/// their values: that of the first entry of that name.
pub open spec fn lookup(vars: Seq<(String, String)>, name: Seq<char>) -> Option<Seq<char>>
    decreases vars.len(),
{
    if vars.len() == 0 {
        None
    } else if vars[0].0@ == name {
        Some(vars[0].1@)
    } else {
        lookup(vars.drop_first(), name)
    }
}

/// The values of the environment variables that arguments fall back on, as
/// they stood when the process started. A variable that is not set is `None`;
/// one that is set to the empty text is `Some` of the empty text.
#[derive(Debug, Clone, PartialEq, Eq)]
pub struct Environment {
    /// `HOME`: the home directory of the invoking user.
    pub home: Option<String>,
    /// `FLAKE`: the flake that `os repl` and `search` work on.
    pub flake: Option<String>,
    /// `NH_DIFF_PROVIDER`: the command that shows the difference of two closures.
    pub diff_provider: Option<String>,
    /// `NH_BYPASS_ROOT_CHECK`: whether to run as root without complaint.
    pub bypass_root_check: Option<String>,
    /// `ELEVATION_PROGRAM`: the program that raises privileges.
    pub elevation_program: Option<String>,
}

/// Finds the value of the variable `name` among `vars`.
pub fn find_var(vars: &Vec<(String, String)>, name: &str) -> (r: Option<String>)
    ensures
        text_of(r) == lookup(vars@, name@),
{
    let mut i: usize = 0;
    assert(vars@.subrange(0, vars.len() as int) =~= vars@);
    while i < vars.len()
        invariant
            i <= vars.len(),
            lookup(vars@, name@) == lookup(vars@.subrange(i as int, vars.len() as int), name@),
        decreases vars.len() - i,
    {
        let ghost rest = vars@.subrange(i as int, vars.len() as int);
        assert(rest[0] == vars@[i as int]);
        assert(rest.drop_first() =~= vars@.subrange(i + 1, vars.len() as int));
        if same_text(vars[i].0.as_str(), name) {
            return Some(vars[i].1.clone());
        }
        i = i + 1;
    }
    None
}

impl Environment {
    /// An environment in which none of the variables is set.
    pub fn empty() -> (r: Environment)
        ensures
            r.home is None,
            r.flake is None,
            r.diff_provider is None,
            r.bypass_root_check is None,
            r.elevation_program is None,
    {
        Environment {
            home: None,
            flake: None,
            diff_provider: None,
            bypass_root_check: None,
            elevation_program: None,
        }
    }

    /// Picks the variables that arguments fall back on out of `vars`, the
    /// variables of the process with their values.
    pub fn from_vars(vars: &Vec<(String, String)>) -> (r: Environment)
        ensures
            text_of(r.home) == lookup(vars@, "HOME"@),
            text_of(r.flake) == lookup(vars@, "FLAKE"@),
            text_of(r.diff_provider) == lookup(vars@, "NH_DIFF_PROVIDER"@),
            text_of(r.bypass_root_check) == lookup(vars@, "NH_BYPASS_ROOT_CHECK"@),
            text_of(r.elevation_program) == lookup(vars@, "ELEVATION_PROGRAM"@),
    {
        Environment {
            home: find_var(vars, "HOME"),
            flake: find_var(vars, "FLAKE"),
            diff_provider: find_var(vars, "NH_DIFF_PROVIDER"),
            bypass_root_check: find_var(vars, "NH_BYPASS_ROOT_CHECK"),
            elevation_program: find_var(vars, "ELEVATION_PROGRAM"),
        }
    }
}

} // verus!
