//! What a driver is asked to do, and what it reports back.
//!
//! The routines of this crate start no process and touch no file.  Each
//! one hands its driver an [`Action`], waits for the [`Event`] that tells
//! how the action went, and decides from it what comes next.

use crate::command::{Command, CommandView};
use crate::manifest::ManifestError;
use vstd::prelude::*;

verus! {

/// How the run of an external program went.
#[derive(Clone, Copy, Debug, PartialEq, Eq, Structural)]
pub enum RunOutcome {
    /// The program ran and reported success.
    Success,
    /// The program ran and reported `code`, which is not zero.
    NonZeroExit { code: i32 },
    /// No process could be started for the program.
    SpawnError,
}

/// Why a routine gave up.
#[derive(Clone, Copy, Debug, PartialEq, Eq, Structural)]
pub enum Failure {
    /// The manifest gave no project name.
    Manifest(ManifestError),
    /// A tool was missing and could not be installed.
    ToolInstallFailed,
    /// No process could be started for a program.
    SpawnError,
    /// A program ran and reported `code`, which is not zero.
    NonZeroExit { code: i32 },
    /// A file could not be written, or a directory not removed.
    Filesystem,
}

impl RunOutcome {
    /// The failure that this outcome stands for; a success stands for none.
    pub open spec fn failure(self) -> Option<Failure> {
        match self {
            RunOutcome::Success => None,
            RunOutcome::NonZeroExit { code } => Some(Failure::NonZeroExit { code }),
            RunOutcome::SpawnError => Some(Failure::SpawnError),
        }
    }

    /// Computes [`RunOutcome::failure`].
    pub fn as_failure(self) -> (failure: Option<Failure>)
        ensures
            failure == self.failure(),
    {
        match self {
            RunOutcome::Success => None,
            RunOutcome::NonZeroExit { code } => Some(Failure::NonZeroExit { code }),
            RunOutcome::SpawnError => Some(Failure::SpawnError),
        }
    }
}

/// What the driver is to do next.
#[derive(Clone, Debug, PartialEq, Eq)]
pub enum Action {
    /// Print `text` to the output stream and report with
    /// [`Event::Printed`].
    Print { text: String },
    /// Read the file at `path` and report its text with
    /// [`Event::FileRead`].
    ReadFile { path: String },
    /// Start `command` with its output captured, wait for it, and report
    /// with [`Event::Ran`].
    Probe { command: Command },
    /// Print `notice`, if there is one, to the error stream; then run
    /// `command`, wait for it, and report with [`Event::Ran`].
    Run { command: Command, notice: Option<String> },
    /// Report with [`Event::DirChecked`] whether `path` exists.
    CheckDir { path: String },
    /// Write `content` to the file at `path` and report with
    /// [`Event::Written`].
    WriteFile { path: String, content: String },
    /// Remove the directory at `path` with all that it holds, and report
    /// with [`Event::Removed`].
    RemoveDir { path: String },
    /// The routine has ended well: nothing is left to do.
    Stop,
    /// The routine has failed: print `message` to the error stream and
    /// end abnormally.
    Abort { failure: Failure, message: String },
}

/// What an [`Action`] holds.
pub enum ActionView {
    Print { text: Seq<char> },
    ReadFile { path: Seq<char> },
    Probe { command: CommandView },
    Run { command: CommandView, notice: Option<Seq<char>> },
    CheckDir { path: Seq<char> },
    WriteFile { path: Seq<char>, content: Seq<char> },
    RemoveDir { path: Seq<char> },
    Stop,
    Abort { failure: Failure, message: Seq<char> },
}

/// The text of a string that may be missing.
pub open spec fn optional_text(text: Option<String>) -> Option<Seq<char>> {
    match text {
        Some(text) => Some(text@),
        None => None,
    }
}

impl View for Action {
    type V = ActionView;

    open spec fn view(&self) -> ActionView {
        match self {
            Action::Print { text } => ActionView::Print { text: text@ },
            Action::ReadFile { path } => ActionView::ReadFile { path: path@ },
            Action::Probe { command } => ActionView::Probe { command: command@ },
            Action::Run { command, notice } => ActionView::Run {
                command: command@,
                notice: optional_text(*notice),
            },
            Action::CheckDir { path } => ActionView::CheckDir { path: path@ },
            Action::WriteFile { path, content } => ActionView::WriteFile {
                path: path@,
                content: content@,
            },
            Action::RemoveDir { path } => ActionView::RemoveDir { path: path@ },
            Action::Stop => ActionView::Stop,
            Action::Abort { failure, message } => ActionView::Abort {
                failure: *failure,
                message: message@,
            },
        }
    }
}

impl ActionView {
    /// Whether the action starts a program.
    pub open spec fn starts_program(self) -> bool {
        self is Probe || self is Run
    }

    /// Whether the action changes a file or a directory.
    pub open spec fn changes_files(self) -> bool {
        self is WriteFile || self is RemoveDir
    }
}

/// How an [`Action`] went.
#[derive(Clone, Debug, PartialEq, Eq)]
pub enum Event {
    /// The text was printed.
    Printed,
    /// The text of the file, or `None` where it could not be read.
    FileRead(Option<String>),
    /// How the program ran.
    Ran(RunOutcome),
    /// Whether the directory exists.
    DirChecked(bool),
    /// Whether the file was written.
    Written(bool),
    /// Whether the directory was removed.
    Removed(bool),
}

/// What an [`Event`] holds.
pub enum EventView {
    Printed,
    FileRead(Option<Seq<char>>),
    Ran(RunOutcome),
    DirChecked(bool),
    Written(bool),
    Removed(bool),
}

impl View for Event {
    type V = EventView;

    open spec fn view(&self) -> EventView {
        match self {
            Event::Printed => EventView::Printed,
            Event::FileRead(text) => EventView::FileRead(optional_text(*text)),
            Event::Ran(outcome) => EventView::Ran(*outcome),
            Event::DirChecked(exists) => EventView::DirChecked(*exists),
            Event::Written(done) => EventView::Written(*done),
            Event::Removed(done) => EventView::Removed(*done),
        }
    }
}

} // verus!
