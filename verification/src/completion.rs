//! The `completions` command: completion files for a shell.

use crate::error::{Argument, Fault, ParseError};
use crate::shell::{lemma_shell_is_named, shell_from_name, shell_named, Shell};
use vstd::prelude::*;

verus! {

/// The `completions` command as the command line gave it.
#[derive(Debug, Clone, PartialEq, Eq)]
pub struct CompletionInput {
    /// The value of `--shell`, if it was given.
    pub shell: Option<String>,
}

/// The arguments of the `completions` command.
#[derive(Debug, Clone, Copy, PartialEq, Eq, Structural)]
pub struct CompletionArgs {
    /// The shell to write completions for.
    pub shell: Shell,
}

impl CompletionArgs {
    /// What is wrong with `input`, if anything: that it names no shell, or
    /// that what it gives is not the name of a shell.
    pub open spec fn fault(input: CompletionInput) -> Option<Fault> {
        match input.shell {
            None => Some(Fault::MissingArgument { argument: Argument::Shell }),
            Some(name) => if shell_named(name@) is None {
                Some(Fault::InvalidValue { argument: Argument::Shell, value: name@ })
            } else {
                None
            },
        }
    }

    /// Whether these are the arguments that `input` stands for.
    pub open spec fn resolves(&self, input: CompletionInput) -> bool {
        input.shell matches Some(name) && shell_named(name@) == Some(self.shell)
    }

    /// Selects the shell that `input` names, or refuses the input.
    pub fn resolve(input: CompletionInput) -> (r: Result<CompletionArgs, ParseError>)
        ensures
            match r {
                Ok(args) => Self::fault(input) is None && args.resolves(input),
                Err(e) => Self::fault(input) == Some(e@),
            },
    {
        match input.shell {
            None => Err(ParseError::MissingArgument { argument: Argument::Shell }),
            Some(name) => match shell_from_name(name.as_str()) {
                Some(shell) => Ok(CompletionArgs { shell }),
                None => Err(ParseError::InvalidValue { argument: Argument::Shell, value: name }),
            },
        }
    }
}

/// Every shell can be selected: a command line that gives the name of a
/// shell is accepted, and the arguments it stands for hold that shell and
/// no other.
pub proof fn lemma_every_shell_is_selected_by_its_name(
    shell: Shell,
    input: CompletionInput,
    args: CompletionArgs,
)
    requires
        input.shell matches Some(name) && name@ == shell.name_text(),
    ensures
        CompletionArgs::fault(input) is None,
        args.resolves(input) <==> args.shell == shell,
{
    lemma_shell_is_named(shell);
}

} // verus!
