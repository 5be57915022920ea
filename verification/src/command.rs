//! The command that a job runs.

use vstd::prelude::*;

verus! {

/// A command line handed to a shell.
#[derive(Debug, PartialEq, Eq)]
pub struct ShellCommand {
    /// The shell's program name.
    pub shell: String,
    /// The line that the shell runs.
    pub command: String,
}

/// The mathematical value of a [`ShellCommand`].
pub struct ShellCommandView {
    pub shell: Seq<char>,
    pub command: Seq<char>,
}

impl DeepView for ShellCommand {
    type V = ShellCommandView;

    open spec fn deep_view(&self) -> ShellCommandView {
        ShellCommandView { shell: self.shell@, command: self.command@ }
    }
}

/// Every job runs its line under `bash`.
pub open spec fn bash_command(line: Seq<char>) -> ShellCommandView {
    ShellCommandView { shell: seq!['b', 'a', 's', 'h'], command: line }
}

impl ShellCommand {
    /// The command that runs `line` under `bash`.
    pub fn bash(line: String) -> (command: ShellCommand)
        ensures
            command.deep_view() == bash_command(line@),
    {
        proof {
            reveal_strlit("bash");
        }
        let shell = String::from_str("bash");
        assert(shell@ =~= seq!['b', 'a', 's', 'h']);
        ShellCommand { shell, command: line }
    }

    /// A second command with the same shell and line.
    pub fn duplicate(&self) -> (copy: ShellCommand)
        ensures
            copy.deep_view() == self.deep_view(),
    {
        ShellCommand { shell: self.shell.clone(), command: self.command.clone() }
    }
}

} // verus!
