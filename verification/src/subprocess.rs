//! The description of one external command, and what its launch amounts to.

use crate::error::{ErrorView, RglError, RglResult};
use crate::text::{append_texts, texts};
use vstd::prelude::*;

verus! {

/// One external command: the program, its arguments, the directory it runs
/// in and the variables added to its environment.
///
/// A value of this type starts nothing. It is built step by step and then
/// handed to whoever launches programs.
#[derive(Debug, PartialEq, Eq)]
pub struct Subprocess {
    pub command: String,
    pub arguments: Vec<String>,
    pub working_dir: Option<String>,
    pub environment: Vec<(String, String)>,
}

/// The mathematical content of a [`Subprocess`].
pub ghost struct CommandView {
    pub command: Seq<char>,
    pub arguments: Seq<Seq<char>>,
    pub working_dir: Option<Seq<char>>,
    pub environment: Seq<(Seq<char>, Seq<char>)>,
}

/// The variables of an environment, each pair taken as its characters.
pub open spec fn variables(list: Seq<(String, String)>) -> Seq<(Seq<char>, Seq<char>)> {
    list.map_values(|pair: (String, String)| (pair.0@, pair.1@))
}

impl View for Subprocess {
    type V = CommandView;

    open spec fn view(&self) -> CommandView {
        CommandView {
            command: self.command@,
            arguments: texts(self.arguments@),
            working_dir: match self.working_dir {
                Some(dir) => Some(dir@),
                None => None,
            },
            environment: variables(self.environment@),
        }
    }
}

impl Subprocess {
    /// A command that runs `command` with no arguments, in the caller's
    /// directory and environment.
    pub fn new(command: &str) -> (process: Self)
        ensures
            process@ == (CommandView {
                command: command@,
                arguments: Seq::empty(),
                working_dir: None,
                environment: Seq::empty(),
            }),
    {
        let process = Subprocess {
            command: command.to_owned(),
            arguments: Vec::new(),
            working_dir: None,
            environment: Vec::new(),
        };
        assert(process@.arguments =~= Seq::empty());
        assert(process@.environment =~= Seq::empty());
        process
    }

    /// Adds one argument after those already there.
    pub fn arg(&mut self, arg: &str) -> (same: &mut Self)
        ensures
            same@ == (CommandView { arguments: old(self)@.arguments.push(arg@), ..old(self)@ }),
            *final(self) == *final(same),
    {
        let ghost before = self.arguments@;
        self.arguments.push(arg.to_owned());
        assert(texts(self.arguments@) =~= texts(before).push(arg@));
        self
    }

    /// Adds every string of `args`, in order, after the arguments already
    /// there.
    pub fn args(&mut self, args: &Vec<String>) -> (same: &mut Self)
        ensures
            same@ == (CommandView {
                arguments: old(self)@.arguments + texts(args@),
                ..old(self)@
            }),
            *final(self) == *final(same),
    {
        append_texts(&mut self.arguments, args);
        self
    }

    /// Sets the directory that the command runs in, replacing an earlier one.
    pub fn current_dir(&mut self, dir: &str) -> (same: &mut Self)
        ensures
            same@ == (CommandView { working_dir: Some(dir@), ..old(self)@ }),
            *final(self) == *final(same),
    {
        self.working_dir = Some(dir.to_owned());
        self
    }

    /// Exposes the project root and the filter's source directory to the
    /// command, as the variables `ROOT_DIR` and `FILTER_DIR`.
    ///
    /// Both directories are given as the result of making them absolute: the
    /// path, or the message of the failure. A failure is returned as
    /// [`RglError::Wrap`], that of the root first, and leaves the command as
    /// it was.
    pub fn setup_env(
        &mut self,
        root_dir: Result<String, String>,
        filter_dir: Result<String, String>,
    ) -> (done: RglResult<()>)
        ensures
            env_outcome(old(self)@, root_dir, filter_dir) == match done {
                Ok(_) => Ok::<CommandView, ErrorView>(final(self)@),
                Err(e) => Err::<CommandView, ErrorView>(e@),
            },
            done is Err ==> *final(self) == *old(self),
    {
        match root_dir {
            Err(message) => Err(RglError::Wrap { message }),
            Ok(root) => match filter_dir {
                Err(message) => Err(RglError::Wrap { message }),
                Ok(filter) => {
                    let ghost before = self.environment@;
                    self.environment.push(("ROOT_DIR".to_owned(), root));
                    self.environment.push(("FILTER_DIR".to_owned(), filter));
                    assert(variables(self.environment@) =~= variables(before).push(
                        ("ROOT_DIR"@, root@),
                    ).push(("FILTER_DIR"@, filter@)));
                    Ok(())
                },
            },
        }
    }

    /// What a launch of this command that streams its output amounts to: the
    /// output of a program that ran to its end, whatever its exit status, or
    /// one and the same error for a failure to start it and a failure to wait
    /// for it.
    pub fn run(&self, launch: Launch) -> (result: RglResult<Output>)
        ensures
            output_view(result) == streamed(launch),
    {
        match launch {
            Launch::Completed(output) => Ok(output),
            Launch::SpawnFailed(message) => Err(subprocess_error(message)),
            Launch::WaitFailed(message) => Err(subprocess_error(message)),
        }
    }

    /// What a launch of this command with its output captured amounts to: the
    /// output, or the error for the failure whose message is given.
    pub fn run_silent(&self, launch: Result<Output, String>) -> (result: RglResult<Output>)
        ensures
            output_view(result) == captured(launch),
    {
        match launch {
            Ok(output) => Ok(output),
            Err(message) => Err(subprocess_error(message)),
        }
    }
}

/// Builds the error for a program that could not be started or waited for.
fn subprocess_error(message: String) -> (error: RglError)
    ensures
        error@ == launch_failure(message@),
{
    let cause = RglError::Wrap { message };
    assert(cause@ == ErrorView::Wrap { message: message@ });
    RglError::Subprocess { cause: Box::new(cause) }
}

/// What a program left behind when it ended.
#[derive(Debug, PartialEq, Eq)]
pub struct Output {
    /// Whether the exit status reports success.
    pub success: bool,
    /// The exit code, where the program ended with one.
    pub code: Option<i32>,
    pub stdout: Vec<u8>,
    pub stderr: Vec<u8>,
}

/// How the launch of a program that streams its output went.
#[derive(Debug, PartialEq, Eq)]
pub enum Launch {
    /// The program started and ran to its end.
    Completed(Output),
    /// The program could not be started; the message says why.
    SpawnFailed(String),
    /// The program started, and waiting for its end failed.
    WaitFailed(String),
}

/// The error for a program that could not be started or waited for.
pub open spec fn launch_failure(message: Seq<char>) -> ErrorView {
    ErrorView::Subprocess { cause: Box::new(ErrorView::Wrap { message }) }
}

/// The output of a launch, or the content of the error in its place.
pub open spec fn output_view(result: RglResult<Output>) -> Result<Output, ErrorView> {
    match result {
        Ok(output) => Ok(output),
        Err(error) => Err(error@),
    }
}

/// What a launch that streams its output amounts to.
pub open spec fn streamed(launch: Launch) -> Result<Output, ErrorView> {
    match launch {
        Launch::Completed(output) => Ok(output),
        Launch::SpawnFailed(message) => Err(launch_failure(message@)),
        Launch::WaitFailed(message) => Err(launch_failure(message@)),
    }
}

/// What a launch with its output captured amounts to.
pub open spec fn captured(launch: Result<Output, String>) -> Result<Output, ErrorView> {
    match launch {
        Ok(output) => Ok(output),
        Err(message) => Err(launch_failure(message@)),
    }
}

/// The command after `setup_env`, or the error it returns.
pub open spec fn env_outcome(
    before: CommandView,
    root_dir: Result<String, String>,
    filter_dir: Result<String, String>,
) -> Result<CommandView, ErrorView> {
    match root_dir {
        Err(message) => Err(ErrorView::Wrap { message: message@ }),
        Ok(root) => match filter_dir {
            Err(message) => Err(ErrorView::Wrap { message: message@ }),
            Ok(filter) => Ok(
                CommandView {
                    environment: before.environment.push(("ROOT_DIR"@, root@)).push(
                        ("FILTER_DIR"@, filter@),
                    ),
                    ..before
                },
            ),
        },
    }
}

} // verus!
