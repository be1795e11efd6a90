//! Plain shell terminal flavours.

use vstd::prelude::*;

use crate::terminal::TerminalType;

verus! {

/// A terminal flavour that launches a named interactive shell.
pub trait ShellType: TerminalType {
    /// The shell's executable name.
    spec fn spec_shell_name() -> Seq<char>;

    /// The shell's executable name.
    fn shell_name() -> (r: &'static str)
        ensures
            r@ == Self::spec_shell_name(),
    ;
}

/// The `bash` shell.
#[derive(Debug, Clone, Copy, PartialEq, Eq)]
pub struct Bash;

impl TerminalType for Bash {
    type Output = String;
}

impl ShellType for Bash {
    open spec fn spec_shell_name() -> Seq<char> {
        "bash"@
    }

    fn shell_name() -> (r: &'static str) {
        "bash"
    }
}

/// The `zsh` shell.
#[derive(Debug, Clone, Copy, PartialEq, Eq)]
pub struct Zsh;

impl TerminalType for Zsh {
    type Output = String;
}

impl ShellType for Zsh {
    open spec fn spec_shell_name() -> Seq<char> {
        "zsh"@
    }

    fn shell_name() -> (r: &'static str) {
        "zsh"
    }
}

} // verus!
