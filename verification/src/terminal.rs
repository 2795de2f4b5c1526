//! The terminal helper: which program opens a terminal window on each
//! platform, and what the outcome of trying means.

use vstd::prelude::*;
use crate::dispatch::SpawnOutcome;
use crate::errors::ErrorKind;

verus! {

/// The platforms the terminal helper distinguishes.
#[derive(Clone, Copy, PartialEq, Eq, Structural, Debug)]
pub enum Platform {
    MacOs,
    Linux,
    Other,
}

/// A program together with its arguments, ready to be spawned.
pub struct TerminalCommand {
    pub program: String,
    pub args: Vec<String>,
}

/// The invocation that opens a terminal on the given platform: a scripted
/// request to the terminal application on macOS, a terminal emulator with an
/// interactive shell on Linux, and nothing at all elsewhere.
pub fn terminal_command(platform: Platform) -> (r: Option<TerminalCommand>)
    ensures
        platform == Platform::MacOs ==> (r matches Some(c)
            && c.program@ == "osascript"@
            && c.args@.len() == 2
            && c.args@[0]@ == "-e"@
            && c.args@[1]@ == "tell application \"Terminal\" to do script \"clear\""@),
        platform == Platform::Linux ==> (r matches Some(c)
            && c.program@ == "gnome-terminal"@
            && c.args@.len() == 4
            && c.args@[0]@ == "--"@
            && c.args@[1]@ == "bash"@
            && c.args@[2]@ == "-c"@
            && c.args@[3]@ == "clear; exec bash"@),
        platform == Platform::Other ==> r is None,
{
    match platform {
        Platform::MacOs => {
            let mut args: Vec<String> = Vec::new();
            args.push(String::from_str("-e"));
            args.push(String::from_str("tell application \"Terminal\" to do script \"clear\""));
            Some(TerminalCommand { program: String::from_str("osascript"), args })
        },
        Platform::Linux => {
            let mut args: Vec<String> = Vec::new();
            args.push(String::from_str("--"));
            args.push(String::from_str("bash"));
            args.push(String::from_str("-c"));
            args.push(String::from_str("clear; exec bash"));
            Some(TerminalCommand { program: String::from_str("gnome-terminal"), args })
        },
        Platform::Other => None,
    }
}

/// Turns the outcome of the terminal helper into its result. A platform with
/// no matching invocation spawned nothing and succeeds; a spawn failure
/// surfaces the OS error; the exit status of a terminal that did spawn is
/// ignored.
pub fn open_terminal_outcome(outcome: Option<SpawnOutcome>) -> (r: Result<(), ErrorKind>)
    ensures
        outcome is None ==> r is Ok,
        outcome matches Some(SpawnOutcome::Failed { os_error }) ==> (r matches Err(e)
            && e matches ErrorKind::SpawnError(m) && m@ == os_error@),
        outcome matches Some(SpawnOutcome::Spawned { .. }) ==> r is Ok,
{
    match outcome {
        None => Ok(()),
        Some(SpawnOutcome::Failed { os_error }) => Err(ErrorKind::SpawnError(os_error)),
        Some(SpawnOutcome::Spawned { .. }) => Ok(()),
    }
}

} // verus!
