//! Removing what builds have left.

use crate::command::{Command, CommandView};
use crate::pipeline::{COMPILER, OUTPUT_DIR};
use crate::runner::{Action, ActionView, Event, EventView, Failure};
use vstd::prelude::*;

verus! {

/// The command that removes the compiler's own output.
pub open spec fn clean_of() -> CommandView {
    CommandView { name: COMPILER@, args: seq!["clean"@] }
}

/// The command that removes the compiler's own output.
pub fn clean_command() -> (command: Command)
    ensures
        command@ == clean_of(),
{
    let mut command = Command::new(COMPILER);
    command.args(&["clean"]);
    assert(command@.args =~= seq!["clean"@]);
    command
}

/// How far the clean routine has come.
#[derive(Clone, Copy, Debug, PartialEq, Eq, Structural)]
pub enum CleanRoutine {
    /// The compiler removes its own output.
    Cleaning,
    /// The output directory is looked for.
    Checking,
    /// The output directory is there and is being removed.
    Removing,
    /// All is removed.
    Finished,
    /// The routine has failed.
    Failed(Failure),
}

impl CleanRoutine {
    /// The state after `event` has come in.
    ///
    /// An output directory that is not there is no fault: the routine ends
    /// well.  An event that does not report on the state's pending action
    /// changes nothing, and neither does any event once the routine has
    /// ended.
    pub open spec fn next(self, event: EventView) -> CleanRoutine {
        match (self, event) {
            (CleanRoutine::Cleaning, EventView::Ran(outcome)) => match outcome.failure() {
                None => CleanRoutine::Checking,
                Some(failure) => CleanRoutine::Failed(failure),
            },
            (CleanRoutine::Checking, EventView::DirChecked(exists)) => if exists {
                CleanRoutine::Removing
            } else {
                CleanRoutine::Finished
            },
            (CleanRoutine::Removing, EventView::Removed(done)) => if done {
                CleanRoutine::Finished
            } else {
                CleanRoutine::Failed(Failure::Filesystem)
            },
            _ => self,
        }
    }

    /// What the user is told when the routine has failed.
    pub open spec fn failure_message(failure: Failure) -> Seq<char> {
        match failure {
            Failure::Filesystem => "Failed to remove the output directory!"@,
            _ => "Failed to run cargo clean!"@,
        }
    }

    /// The action that the routine waits for in its state.
    pub open spec fn pending(self) -> ActionView {
        match self {
            CleanRoutine::Cleaning => ActionView::Run { command: clean_of(), notice: None },
            CleanRoutine::Checking => ActionView::CheckDir { path: OUTPUT_DIR@ },
            CleanRoutine::Removing => ActionView::RemoveDir { path: OUTPUT_DIR@ },
            CleanRoutine::Finished => ActionView::Stop,
            CleanRoutine::Failed(failure) => ActionView::Abort {
                failure,
                message: Self::failure_message(failure),
            },
        }
    }

    /// The routine before anything is done.
    pub fn start() -> (routine: CleanRoutine)
        ensures
            routine == CleanRoutine::Cleaning,
    {
        CleanRoutine::Cleaning
    }

    /// The action that the routine waits for.
    pub fn action(&self) -> (action: Action)
        ensures
            action@ == self.pending(),
    {
        match self {
            CleanRoutine::Cleaning => Action::Run { command: clean_command(), notice: None },
            CleanRoutine::Checking => Action::CheckDir { path: OUTPUT_DIR.to_owned() },
            CleanRoutine::Removing => Action::RemoveDir { path: OUTPUT_DIR.to_owned() },
            CleanRoutine::Finished => Action::Stop,
            CleanRoutine::Failed(failure) => Action::Abort {
                failure: *failure,
                message: match failure {
                    Failure::Filesystem => "Failed to remove the output directory!".to_owned(),
                    _ => "Failed to run cargo clean!".to_owned(),
                },
            },
        }
    }

    /// Takes in `event` and says what is to be done next.
    pub fn step(&mut self, event: Event) -> (action: Action)
        ensures
            *final(self) == old(self).next(event@),
            action@ == final(self).pending(),
    {
        match (*self, event) {
            (CleanRoutine::Cleaning, Event::Ran(outcome)) => {
                *self =
                match outcome.as_failure() {
                    None => CleanRoutine::Checking,
                    Some(failure) => CleanRoutine::Failed(failure),
                };
            },
            (CleanRoutine::Checking, Event::DirChecked(exists)) => {
                *self =
                if exists {
                    CleanRoutine::Removing
                } else {
                    CleanRoutine::Finished
                };
            },
            (CleanRoutine::Removing, Event::Removed(done)) => {
                *self =
                if done {
                    CleanRoutine::Finished
                } else {
                    CleanRoutine::Failed(Failure::Filesystem)
                };
            },
            _ => {},
        }
        self.action()
    }
}

} // verus!
