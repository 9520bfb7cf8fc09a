//! An external command: a program and its arguments.

use vstd::prelude::*;
use vstd::string::StringExecFns;

verus! {

/// A program to run and the arguments to hand to it, in order.
#[derive(Clone, Debug, PartialEq, Eq)]
pub struct Command {
    name: String,
    args: Vec<String>,
}

/// What a [`Command`] holds.
pub struct CommandView {
    pub name: Seq<char>,
    pub args: Seq<Seq<char>>,
}

impl View for Command {
    type V = CommandView;

    closed spec fn view(&self) -> CommandView {
        CommandView { name: self.name@, args: self.args@.map_values(|a: String| a@) }
    }
}

/// The texts of a list of string slices.
pub open spec fn texts(list: Seq<&str>) -> Seq<Seq<char>> {
    list.map_values(|s: &str| s@)
}

/// The arguments, each with a space before it.
pub open spec fn spaced(args: Seq<Seq<char>>) -> Seq<char>
    decreases args.len(),
{
    if args.len() == 0 {
        Seq::empty()
    } else {
        spaced(args.drop_last()) + seq![' '] + args.last()
    }
}

/// The line that starts `command` from a shell: the program, then each
/// argument after a space.  Nothing is quoted.
pub open spec fn command_line_of(command: CommandView) -> Seq<char> {
    command.name + spaced(command.args)
}

impl Command {
    /// The command that runs `name` without arguments.
    pub fn new(name: &str) -> (command: Command)
        ensures
            command@.name == name@,
            command@.args == Seq::<Seq<char>>::empty(),
    {
        Command { name: name.to_owned(), args: Vec::new() }
    }

    /// Replaces the arguments by `a`.
    pub fn args(&mut self, a: &[&str])
        ensures
            final(self)@.name == old(self)@.name,
            final(self)@.args == texts(a@),
    {
        let mut args: Vec<String> = Vec::new();
        let mut i: usize = 0;
        while i < a.len()
            invariant
                i <= a.len(),
                args@.len() == i,
                forall|j: int| 0 <= j < i ==> (#[trigger] args@[j])@ == a@[j]@,
            decreases a.len() - i,
        {
            args.push(a[i].to_owned());
            i += 1;
        }
        self.args = args;
        assert(self@.args =~= texts(a@));
    }

    /// The program.
    pub fn program(&self) -> (name: &str)
        ensures
            name@ == self@.name,
    {
        self.name.as_str()
    }

    /// The number of arguments.
    pub fn arity(&self) -> (n: usize)
        ensures
            n == self@.args.len(),
    {
        self.args.len()
    }

    /// The argument at position `i`.
    pub fn argument(&self, i: usize) -> (arg: &str)
        requires
            i < self@.args.len(),
        ensures
            arg@ == self@.args[i as int],
    {
        self.args[i].as_str()
    }

    /// The line that starts this command from a shell.
    pub fn command_line(&self) -> (line: String)
        ensures
            line@ == command_line_of(self@),
    {
        let mut line = self.name.clone();
        let mut i: usize = 0;
        assert(self@.args.take(0) == Seq::<Seq<char>>::empty());
        while i < self.args.len()
            invariant
                i <= self.args.len(),
                line@ == self@.name + spaced(self@.args.take(i as int)),
            decreases self.args.len() - i,
        {
            line.push(' ');
            line.append(self.args[i].as_str());
            i += 1;
            assert(self@.args.take(i as int).drop_last() == self@.args.take(i - 1));
        }
        assert(self@.args.take(i as int) == self@.args);
        line
    }
}

} // verus!
