//! The command that clears the terminal.

use vstd::prelude::*;

verus! {

/// A program to run and its arguments.
#[derive(Debug, Clone, PartialEq, Eq)]
pub struct ShellCommand {
    pub program: String,
    pub args: Vec<String>,
}

/// The command that clears the screen: `cmd /c cls` on Windows, `clear`
/// elsewhere.
pub fn clear_screen_command(is_windows: bool) -> (res: ShellCommand)
    ensures
        is_windows ==> res.program@ == "cmd"@ && res.args.deep_view() == seq!["/c"@, "cls"@],
        !is_windows ==> res.program@ == "clear"@ && res.args@.len() == 0,
{
    if is_windows {
        let mut args: Vec<String> = Vec::new();
        args.push(String::from_str("/c"));
        args.push(String::from_str("cls"));
        assert(args.deep_view() =~= seq!["/c"@, "cls"@]);
        ShellCommand { program: String::from_str("cmd"), args }
    } else {
        ShellCommand { program: String::from_str("clear"), args: Vec::new() }
    }
}

} // verus!
