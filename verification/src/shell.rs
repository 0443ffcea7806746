//! The shells that completions can be written for.

use vstd::prelude::*;

verus! {

/// A shell that completions can be written for.
#[derive(Debug, Clone, Copy, PartialEq, Eq, Structural)]
pub enum Shell {
    /// Bourne Again SHell.
    Bash,
    /// Elvish shell.
    Elvish,
    /// Friendly Interactive SHell.
    Fish,
    /// PowerShell.
    PowerShell,
    /// Z SHell.
    Zsh,
}

/// The shell that goes by the name `name`, letter for letter.
pub open spec fn shell_named(name: Seq<char>) -> Option<Shell> {
    if name == "bash"@ {
        Some(Shell::Bash)
    } else if name == "elvish"@ {
        Some(Shell::Elvish)
    } else if name == "fish"@ {
        Some(Shell::Fish)
    } else if name == "powershell"@ {
        Some(Shell::PowerShell)
    } else if name == "zsh"@ {
        Some(Shell::Zsh)
    } else {
        None
    }
}

/// Calls the `FromStr` of `clap_complete::Shell` and gives the shell it
/// returns as one of this library. The contract claims what that function
/// does: it returns the shell whose name (`bash`, `elvish`, `fish`,
/// `powershell` or `zsh`) is the text, letter for letter, and fails on
/// every other text.
#[verifier::external_body]
pub(crate) fn shell_from_name(name: &str) -> (r: Option<Shell>)
    ensures
        r == shell_named(name@),
{
    match name.parse::<clap_complete::Shell>() {
        Ok(clap_complete::Shell::Bash) => Some(Shell::Bash),
        Ok(clap_complete::Shell::Elvish) => Some(Shell::Elvish),
        Ok(clap_complete::Shell::Fish) => Some(Shell::Fish),
        Ok(clap_complete::Shell::PowerShell) => Some(Shell::PowerShell),
        Ok(clap_complete::Shell::Zsh) => Some(Shell::Zsh),
        _ => None,
    }
}

impl Shell {
    /// The name of the shell.
    pub open spec fn name_text(self) -> Seq<char> {
        match self {
            Shell::Bash => "bash"@,
            Shell::Elvish => "elvish"@,
            Shell::Fish => "fish"@,
            Shell::PowerShell => "powershell"@,
            Shell::Zsh => "zsh"@,
        }
    }

    /// The name of the shell.
    pub fn name(self) -> (r: &'static str)
        ensures
            r@ == self.name_text(),
    {
        match self {
            Shell::Bash => "bash",
            Shell::Elvish => "elvish",
            Shell::Fish => "fish",
            Shell::PowerShell => "powershell",
            Shell::Zsh => "zsh",
        }
    }
}

/// Every shell is found again by its own name.
pub proof fn lemma_shell_is_named(shell: Shell)
    ensures
        shell_named(shell.name_text()) == Some(shell),
{
    reveal_strlit("bash");
    reveal_strlit("elvish");
    reveal_strlit("fish");
    reveal_strlit("powershell");
    reveal_strlit("zsh");
    assert("bash"@.len() == 4 && "elvish"@.len() == 6 && "fish"@.len() == 4 && "powershell"@.len()
        == 10 && "zsh"@.len() == 3);
    assert("bash"@[0] == 'b' && "fish"@[0] == 'f');
}

/// A text names at most one shell: the one whose name it is.
pub proof fn lemma_shell_named_is_its_name(name: Seq<char>)
    ensures
        shell_named(name) matches Some(shell) ==> shell.name_text() == name,
{
}

} // verus!
