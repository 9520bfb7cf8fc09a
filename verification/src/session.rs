//! One run of the program, from its arguments to its end.

use crate::clean::CleanRoutine;
use crate::dispatch::{dispatch, owned_texts, subcommand_of, Subcommand, USAGE};
use crate::pipeline::{initial, next, pending, BuildPipeline, BuildView};
use crate::runner::{Action, ActionView, Event, EventView};
use crate::serve::ServeRoutine;
use vstd::prelude::*;

verus! {

/// The routine that a run follows, and how far it has come.
#[derive(Clone, Debug, PartialEq, Eq)]
pub enum Session {
    /// The usage text is asked for; `shown` once it is printed.
    Usage { shown: bool },
    Build(BuildPipeline),
    Serve(ServeRoutine),
    Clean(CleanRoutine),
}

/// What a [`Session`] holds.
pub enum SessionView {
    Usage { shown: bool },
    Build(BuildView),
    Serve(ServeRoutine),
    Clean(CleanRoutine),
}

impl View for Session {
    type V = SessionView;

    open spec fn view(&self) -> SessionView {
        match self {
            Session::Usage { shown } => SessionView::Usage { shown: *shown },
            Session::Build(build) => SessionView::Build(build@),
            Session::Serve(routine) => SessionView::Serve(*routine),
            Session::Clean(routine) => SessionView::Clean(*routine),
        }
    }
}

/// The session that the arguments `args` ask for, the program's own name
/// first, before anything is done.
pub open spec fn opened(args: Seq<Seq<char>>) -> SessionView {
    match subcommand_of(args) {
        Subcommand::Usage => SessionView::Usage { shown: false },
        Subcommand::Build(profile) => SessionView::Build(initial(profile)),
        Subcommand::Serve => SessionView::Serve(ServeRoutine::Probing),
        Subcommand::Clean => SessionView::Clean(CleanRoutine::Cleaning),
    }
}

impl SessionView {
    /// The session after `event` has come in.
    pub open spec fn next(self, event: EventView) -> SessionView {
        match self {
            SessionView::Usage { shown } => SessionView::Usage {
                shown: shown || event is Printed,
            },
            SessionView::Build(build) => SessionView::Build(next(build, event)),
            SessionView::Serve(routine) => SessionView::Serve(routine.next(event)),
            SessionView::Clean(routine) => SessionView::Clean(routine.next(event)),
        }
    }

    /// The action that the session waits for.  A session that was asked
    /// for the usage text prints it and then ends well.
    pub open spec fn pending(self) -> ActionView {
        match self {
            SessionView::Usage { shown } => if shown {
                ActionView::Stop
            } else {
                ActionView::Print { text: USAGE@ }
            },
            SessionView::Build(build) => pending(build),
            SessionView::Serve(routine) => routine.pending(),
            SessionView::Clean(routine) => routine.pending(),
        }
    }
}

impl Session {
    /// The session that the arguments `args` ask for, the program's own
    /// name first.
    pub fn open(args: &[String]) -> (session: Session)
        ensures
            session@ == opened(owned_texts(args@)),
    {
        match dispatch(args) {
            Subcommand::Usage => Session::Usage { shown: false },
            Subcommand::Build(profile) => Session::Build(BuildPipeline::start(profile)),
            Subcommand::Serve => Session::Serve(ServeRoutine::start()),
            Subcommand::Clean => Session::Clean(CleanRoutine::start()),
        }
    }

    /// The action that the session waits for.
    pub fn action(&self) -> (action: Action)
        ensures
            action@ == self@.pending(),
    {
        match self {
            Session::Usage { shown } => if *shown {
                Action::Stop
            } else {
                Action::Print { text: USAGE.to_owned() }
            },
            Session::Build(build) => build.action(),
            Session::Serve(routine) => routine.action(),
            Session::Clean(routine) => routine.action(),
        }
    }

    /// Takes in `event` and says what is to be done next.
    pub fn step(&mut self, event: Event) -> (action: Action)
        ensures
            final(self)@ == old(self)@.next(event@),
            action@ == final(self)@.pending(),
    {
        match self {
            Session::Usage { shown } => {
                match event {
                    Event::Printed => {
                        *shown = true;
                    },
                    _ => {},
                }
            },
            Session::Build(build) => {
                build.step(event);
            },
            Session::Serve(routine) => {
                routine.step(event);
            },
            Session::Clean(routine) => {
                routine.step(event);
            },
        }
        self.action()
    }
}

} // verus!
