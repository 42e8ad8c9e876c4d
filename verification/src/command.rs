//! External commands as plain values, and what executes them.

use vstd::prelude::*;
use crate::error::Error;

verus! {

/// The views of a sequence of strings, element by element.
pub open spec fn strings_view(items: Seq<String>) -> Seq<Seq<char>> {
    items.map_values(|s: String| s@)
}

/// An external command: the program to launch and its arguments, in order.
#[derive(Clone, Debug, PartialEq, Eq)]
pub struct Command {
    pub program: String,
    pub args: Vec<String>,
}

/// The mathematical content of a [`Command`].
pub struct CommandView {
    pub program: Seq<char>,
    pub args: Seq<Seq<char>>,
}

impl View for Command {
    type V = CommandView;

    open spec fn view(&self) -> CommandView {
        CommandView { program: self.program@, args: strings_view(self.args@) }
    }
}

/// The content of a command that may be absent.
pub open spec fn optional_view(command: Option<Command>) -> Option<CommandView> {
    match command {
        Some(c) => Some(c@),
        None => None,
    }
}

impl Command {
    /// A command that launches `program` without arguments.
    pub fn new(program: &str) -> (command: Command)
        ensures
            command@ == (CommandView { program: program@, args: Seq::empty() }),
    {
        let command = Command { program: program.to_owned(), args: Vec::new() };
        assert(strings_view(command.args@) =~= Seq::empty());
        command
    }

    /// Appends one argument.
    pub fn arg(&mut self, value: &str)
        ensures
            final(self)@ == (CommandView {
                program: old(self)@.program,
                args: old(self)@.args.push(value@),
            }),
    {
        let owned = value.to_owned();
        self.args.push(owned);
        assert(strings_view(self.args@) =~= strings_view(old(self).args@).push(value@));
    }

    /// A copy of the command.
    pub fn duplicate(&self) -> (copy: Command)
        ensures
            copy@ == self@,
    {
        let mut args: Vec<String> = Vec::new();
        let mut i: usize = 0;
        while i < self.args.len()
            invariant
                i <= self.args.len(),
                strings_view(args@) == strings_view(self.args@).take(i as int),
            decreases self.args.len() - i,
        {
            let ghost before = args@;
            let item = self.args[i].clone();
            args.push(item);
            i = i + 1;
            assert(args@ == before.push(item));
            assert(strings_view(args@) =~= strings_view(before).push(item@));
            assert(strings_view(self.args@).take(i as int) =~= strings_view(self.args@).take(i - 1).push(
                self.args@[i - 1]@,
            ));
        }
        assert(strings_view(self.args@).take(i as int) =~= strings_view(self.args@));
        Command { program: self.program.clone(), args }
    }
}

/// How a launched command ended: its exit code, or `None` when it was
/// terminated without one (by a signal).
#[derive(Clone, Copy, Debug, PartialEq, Eq, Structural)]
pub struct ExitStatus {
    pub code: Option<i32>,
}

impl ExitStatus {
    /// The status of a command that ended with exit code zero.
    pub fn succeeded() -> (status: ExitStatus)
        ensures
            status.code == Some(0i32),
    {
        ExitStatus { code: Some(0) }
    }

    /// Whether the command ended with exit code zero.
    pub open spec fn is_success(self) -> bool {
        self.code == Some(0i32)
    }

    /// Whether the command ended with exit code zero.
    pub fn success(&self) -> (ok: bool)
        ensures
            ok == self.is_success(),
    {
        match self.code {
            Some(code) => code == 0,
            None => false,
        }
    }
}

/// The judgement of a command by what its launch gave: a launch failure is
/// passed on, an unsuccessful status becomes [`Error::Command`] holding the
/// command.
pub open spec fn judge(command: Command, launched: Result<ExitStatus, Error>) -> Result<(), Error> {
    match launched {
        Err(e) => Err(e),
        Ok(status) => if status.is_success() {
            Ok(())
        } else {
            Err(Error::Command(command))
        },
    }
}

/// Judges a command by the status it ended with.
pub fn check_status(command: Command, launched: Result<ExitStatus, Error>) -> (checked: Result<(), Error>)
    ensures
        checked == judge(command, launched),
{
    match launched {
        Err(e) => Err(e),
        Ok(status) => {
            if status.success() {
                Ok(())
            } else {
                Err(Error::Command(command))
            }
        },
    }
}

/// The one capability that the workflows need from their surroundings:
/// executing an external command and reporting how it ended.
pub trait Runner {
    /// Whether this runner may report `launched` for `command`. A runner
    /// that says nothing of itself may report anything.
    open spec fn may_report(&self, command: CommandView, launched: Result<ExitStatus, Error>) -> bool {
        true
    }

    /// Executes `command` and waits for it. Fails only when the command could
    /// not be launched at all, not when it ends unsuccessfully.
    fn run(&self, command: &Command) -> (launched: Result<ExitStatus, Error>)
        ensures
            self.may_report(command@, launched),
    ;

    /// Executes `command` and additionally fails with [`Error::Command`] when
    /// it ends unsuccessfully: the result is the judgement of something that
    /// the runner may report for `command`.
    fn check_run(&self, command: Command) -> (checked: Result<(), Error>)
        ensures
            exists|launched: Result<ExitStatus, Error>| #[trigger]
                self.may_report(command@, launched) && checked == judge(command, launched),
    {
        let launched = self.run(&command);
        check_status(command, launched)
    }
}

/// The preview executor: launches nothing and reports success for every command.
#[derive(Clone, Copy, Debug)]
pub struct FakeRunner;

impl Runner for FakeRunner {
    /// The preview reports success, and nothing else, for every command.
    open spec fn may_report(&self, command: CommandView, launched: Result<ExitStatus, Error>) -> bool {
        launched == Ok::<ExitStatus, Error>(ExitStatus { code: Some(0i32) })
    }

    fn run(&self, command: &Command) -> (launched: Result<ExitStatus, Error>)
        ensures
            launched == Ok::<ExitStatus, Error>(ExitStatus { code: Some(0i32) }),
    {
        Ok(ExitStatus::succeeded())
    }

    fn check_run(&self, command: Command) -> (checked: Result<(), Error>)
        ensures
            checked == Ok::<(), Error>(()),
    {
        let launched = self.run(&command);
        assert(self.may_report(command@, launched));
        Ok(())
    }
}

} // verus!
