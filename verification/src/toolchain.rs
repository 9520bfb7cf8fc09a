//! Finding out whether a tool is installed, and installing one that is
//! not.

use crate::command::{Command, CommandView};
use crate::runner::RunOutcome;
use vstd::prelude::*;
use vstd::string::StringExecFns;

verus! {

/// The program that installs tools.
pub const INSTALLER: &'static str = "cargo";

/// Whether a tool is there, going by how its probe ran.
///
/// A tool is taken to be there as soon as a process could be started for
/// it, whatever the process reported: no version is asked for.
pub open spec fn available(probe: RunOutcome) -> bool {
    !(probe is SpawnError)
}

/// Decides [`available`].
pub fn is_available(probe: RunOutcome) -> (there: bool)
    ensures
        there == available(probe),
{
    match probe {
        RunOutcome::SpawnError => false,
        _ => true,
    }
}

/// A tool whose probe ran is there, whatever the probe reported; only one
/// for which no process could be started is missing.
pub proof fn lemma_any_exit_is_available(code: i32)
    ensures
        available(RunOutcome::Success),
        available(RunOutcome::NonZeroExit { code }),
        !available(RunOutcome::SpawnError),
{
}

/// The command that probes for `program`: the program with `--help`.
pub open spec fn probe_of(program: Seq<char>) -> CommandView {
    CommandView { name: program, args: seq!["--help"@] }
}

/// The command that probes for `program`.
pub fn probe_command(program: &str) -> (command: Command)
    ensures
        command@ == probe_of(program@),
{
    let mut command = Command::new(program);
    command.args(&["--help"]);
    assert(command@.args =~= seq!["--help"@]);
    command
}

/// The command that installs `package`.
pub open spec fn install_of(package: Seq<char>) -> CommandView {
    CommandView { name: INSTALLER@, args: seq!["install"@, package] }
}

/// The command that installs `package`.
pub fn install_command(package: &str) -> (command: Command)
    ensures
        command@ == install_of(package@),
{
    let mut command = Command::new(INSTALLER);
    command.args(&["install", package]);
    assert(command@.args =~= seq!["install"@, package@]);
    command
}

/// What the user is told before `package` is installed.
pub open spec fn install_notice_of(package: Seq<char>) -> Seq<char> {
    package + " was not found, running a first-time install..."@
}

/// What the user is told before `package` is installed.
pub fn install_notice(package: &str) -> (notice: String)
    ensures
        notice@ == install_notice_of(package@),
{
    let mut notice = package.to_owned();
    notice.append(" was not found, running a first-time install...");
    notice
}

/// What the user is told when `program` could not be installed.
pub open spec fn install_failure_of(program: Seq<char>) -> Seq<char> {
    "Failed to install "@ + program + "!"@
}

/// What the user is told when `program` could not be installed.
pub fn install_failure(program: &str) -> (message: String)
    ensures
        message@ == install_failure_of(program@),
{
    let mut message = "Failed to install ".to_owned();
    message.append(program);
    message.append("!");
    message
}

} // verus!
