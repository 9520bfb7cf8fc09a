//! Serving the output directory.

use crate::command::{Command, CommandView};
use crate::pipeline::{INDEX_FILE, OUTPUT_DIR};
use crate::runner::{Action, ActionView, Event, EventView, Failure, RunOutcome};
use crate::toolchain::{
    available,
    install_command,
    install_failure,
    install_failure_of,
    install_notice,
    install_notice_of,
    install_of,
    is_available,
    probe_command,
    probe_of,
};
use vstd::prelude::*;

verus! {

/// The static file server, and the package that brings it.
pub const SERVER: &'static str = "miniserve";

/// The command that serves the output directory, with the loader page
/// as its index.
pub open spec fn serve_of() -> CommandView {
    CommandView { name: SERVER@, args: seq![OUTPUT_DIR@, "--index"@, INDEX_FILE@] }
}

/// The command that serves the output directory.
pub fn serve_command() -> (command: Command)
    ensures
        command@ == serve_of(),
{
    let mut command = Command::new(SERVER);
    command.args(&[OUTPUT_DIR, "--index", INDEX_FILE]);
    assert(command@.args =~= seq![OUTPUT_DIR@, "--index"@, INDEX_FILE@]);
    command
}

/// How far the serve routine has come.
#[derive(Clone, Copy, Debug, PartialEq, Eq, Structural)]
pub enum ServeRoutine {
    /// The server is probed for.
    Probing,
    /// The server was missing and is being installed.
    Installing,
    /// The server runs, until it ends or is interrupted.
    Serving,
    /// The server has ended well.
    Finished,
    /// The routine has failed.
    Failed(Failure),
}

impl ServeRoutine {
    /// The state after `event` has come in.
    ///
    /// An event that does not report on the state's pending action changes
    /// nothing, and neither does any event once the routine has ended.
    pub open spec fn next(self, event: EventView) -> ServeRoutine {
        match (self, event) {
            (ServeRoutine::Probing, EventView::Ran(probe)) => if available(probe) {
                ServeRoutine::Serving
            } else {
                ServeRoutine::Installing
            },
            (ServeRoutine::Installing, EventView::Ran(outcome)) => if outcome is Success {
                ServeRoutine::Serving
            } else {
                ServeRoutine::Failed(Failure::ToolInstallFailed)
            },
            (ServeRoutine::Serving, EventView::Ran(outcome)) => match outcome.failure() {
                None => ServeRoutine::Finished,
                Some(failure) => ServeRoutine::Failed(failure),
            },
            _ => self,
        }
    }

    /// What the user is told when the routine has failed.
    pub open spec fn failure_message(failure: Failure) -> Seq<char> {
        match failure {
            Failure::ToolInstallFailed => install_failure_of(SERVER@),
            _ => "Failed to exec miniserve!"@,
        }
    }

    /// The action that the routine waits for in its state.
    pub open spec fn pending(self) -> ActionView {
        match self {
            ServeRoutine::Probing => ActionView::Probe { command: probe_of(SERVER@) },
            ServeRoutine::Installing => ActionView::Run {
                command: install_of(SERVER@),
                notice: Some(install_notice_of(SERVER@)),
            },
            ServeRoutine::Serving => ActionView::Run { command: serve_of(), notice: None },
            ServeRoutine::Finished => ActionView::Stop,
            ServeRoutine::Failed(failure) => ActionView::Abort {
                failure,
                message: Self::failure_message(failure),
            },
        }
    }

    /// The routine before anything is done.
    pub fn start() -> (routine: ServeRoutine)
        ensures
            routine == ServeRoutine::Probing,
    {
        ServeRoutine::Probing
    }

    /// The action that the routine waits for.
    pub fn action(&self) -> (action: Action)
        ensures
            action@ == self.pending(),
    {
        match self {
            ServeRoutine::Probing => Action::Probe { command: probe_command(SERVER) },
            ServeRoutine::Installing => Action::Run {
                command: install_command(SERVER),
                notice: Some(install_notice(SERVER)),
            },
            ServeRoutine::Serving => Action::Run { command: serve_command(), notice: None },
            ServeRoutine::Finished => Action::Stop,
            ServeRoutine::Failed(failure) => Action::Abort {
                failure: *failure,
                message: match failure {
                    Failure::ToolInstallFailed => install_failure(SERVER),
                    _ => "Failed to exec miniserve!".to_owned(),
                },
            },
        }
    }

    /// Takes in `event` and says what is to be done next.
    pub fn step(&mut self, event: Event) -> (action: Action)
        ensures
            *final(self) == old(self).next(event@),
            action@ == final(self).pending(),
    {
        match (*self, event) {
            (ServeRoutine::Probing, Event::Ran(probe)) => {
                *self =
                if is_available(probe) {
                    ServeRoutine::Serving
                } else {
                    ServeRoutine::Installing
                };
            },
            (ServeRoutine::Installing, Event::Ran(outcome)) => {
                *self =
                match outcome {
                    RunOutcome::Success => ServeRoutine::Serving,
                    _ => ServeRoutine::Failed(Failure::ToolInstallFailed),
                };
            },
            (ServeRoutine::Serving, Event::Ran(outcome)) => {
                *self =
                match outcome.as_failure() {
                    None => ServeRoutine::Finished,
                    Some(failure) => ServeRoutine::Failed(failure),
                };
            },
            _ => {},
        }
        self.action()
    }
}

} // verus!
