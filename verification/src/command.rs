//! Running a shell command: how the shell is called, and what the output of
//! the process means.
use crate::model;
use crate::model::{CommandErrorView, InvocationView, ProcessOutputView};
use crate::text::{decode_text, trim_newlines};
use crate::value::{DynVal, Span};
use vstd::prelude::*;
use vstd::string::*;

verus! {

/// A program to start and the arguments to hand it.
#[derive(Debug)]
pub struct Invocation {
    pub program: String,
    pub args: Vec<String>,
}

impl View for Invocation {
    type V = InvocationView;

    open spec fn view(&self) -> InvocationView {
        InvocationView { program: self.program@, args: self.args.deep_view() }
    }
}

/// What a process left behind: whether its exit status says success, and all
/// that it wrote to its output and error streams.
#[derive(Debug)]
pub struct ProcessOutput {
    pub success: bool,
    pub stdout: Vec<u8>,
    pub stderr: Vec<u8>,
}

impl View for ProcessOutput {
    type V = ProcessOutputView;

    open spec fn view(&self) -> ProcessOutputView {
        ProcessOutputView { success: self.success, stdout: self.stdout@, stderr: self.stderr@ }
    }
}

/// Why running a command gave no value.
#[derive(Debug)]
pub enum CommandError {
    /// The process could not be started; `message` is the system's reason.
    Spawn { message: String },
    /// The process exited unsuccessfully; `stderr` is what it wrote to its
    /// error stream.
    Execution { stderr: String },
    /// A stream of the process was not UTF-8; `message` says where.
    Decoding { message: String },
}

impl View for CommandError {
    type V = CommandErrorView;

    open spec fn view(&self) -> CommandErrorView {
        match self {
            CommandError::Spawn { message } => CommandErrorView::Spawn { message: message@ },
            CommandError::Execution { stderr } => CommandErrorView::Execution { stderr: stderr@ },
            CommandError::Decoding { message } => CommandErrorView::Decoding {
                message: message@,
            },
        }
    }
}

impl CommandError {
    /// The error as one text.
    pub fn message(&self) -> (text: String)
        ensures
            text@ == self@.message(),
    {
        match self {
            CommandError::Spawn { message } => message.clone(),
            CommandError::Execution { stderr } => String::from_str("Failed with output:\n").concat(
                stderr.as_str(),
            ),
            CommandError::Decoding { message } => message.clone(),
        }
    }

    /// What a diagnostic quotes of the error: the error stream of a process
    /// that failed, else the error's message.
    pub fn error_output(&self) -> (text: &str)
        ensures
            text@ == self@.error_output(),
    {
        match self {
            CommandError::Spawn { message } => message.as_str(),
            CommandError::Execution { stderr } => stderr.as_str(),
            CommandError::Decoding { message } => message.as_str(),
        }
    }
}

/// The view of what starting a process gave: its output, or the system's
/// reason for not starting it.
pub open spec fn spawned_view(spawned: Result<ProcessOutput, String>) -> Result<
    ProcessOutputView,
    Seq<char>,
> {
    match spawned {
        Ok(output) => Ok(output@),
        Err(message) => Err(message@),
    }
}

/// The view of a command's outcome: the text of the value and of the warning,
/// or the error.
pub open spec fn outcome_view(outcome: Result<(DynVal, Option<String>), CommandError>) -> Result<
    (Seq<char>, Option<Seq<char>>),
    CommandErrorView,
> {
    match outcome {
        Ok((value, warning)) => Ok((value@, warning.deep_view())),
        Err(error) => Err(error@),
    }
}

/// How `command` is run: by `/bin/sh`, which gets `-c` and the whole command
/// text as one argument.
pub fn shell_invocation(command: &str) -> (invocation: Invocation)
    ensures
        invocation@ == model::shell_invocation(command@),
{
    let mut args: Vec<String> = Vec::new();
    args.push(String::from_str("-c"));
    args.push(String::from_str(command));
    assert(args.deep_view() =~= seq!["-c"@, command@]);
    Invocation { program: String::from_str("/bin/sh"), args }
}

/// The value of a command and its warning, from what starting its process
/// gave.
///
/// A process that was not started, one that exited unsuccessfully and one
/// whose streams are not UTF-8 give an error each. Otherwise the value is the
/// output stream without the newlines at its ends, and what the process wrote
/// to its error stream, if anything, is the warning.
pub fn command_outcome(spawned: Result<ProcessOutput, String>) -> (outcome: Result<
    (DynVal, Option<String>),
    CommandError,
>)
    ensures
        outcome_view(outcome) == model::command_outcome(spawned_view(spawned)),
        outcome matches Ok((value, _)) ==> value.1 == Span::dummy(),
{
    let output = match spawned {
        Ok(output) => output,
        Err(message) => {
            return Err(CommandError::Spawn { message });
        },
    };
    let ProcessOutput { success, stdout, stderr } = output;
    let wrote_errors = stderr.len() > 0;
    let error_text = match decode_text(stderr) {
        Ok(text) => text,
        Err(message) => {
            return Err(CommandError::Decoding { message });
        },
    };
    if !success {
        return Err(CommandError::Execution { stderr: error_text });
    }
    let text = match decode_text(stdout) {
        Ok(text) => text,
        Err(message) => {
            return Err(CommandError::Decoding { message });
        },
    };
    let warning = if wrote_errors {
        Some(error_text)
    } else {
        None
    };
    let value = DynVal::from_string(String::from_str(trim_newlines(text.as_str())));
    Ok((value, warning))
}

/// Whether `outcome` is what `run_command` may return for `command` with
/// `runner`: the outcome of something that `runner` may give for the shell's
/// invocation.
pub open spec fn ran_command<R: FnOnce(Invocation) -> Result<ProcessOutput, String>>(
    command: Seq<char>,
    runner: R,
    outcome: Result<(DynVal, Option<String>), CommandError>,
) -> bool {
    exists|invocation: Invocation, spawned: Result<ProcessOutput, String>|
        {
            &&& invocation@ == model::shell_invocation(command)
            &&& #[trigger] call_ensures(runner, (invocation,), spawned)
            &&& outcome_view(outcome) == model::command_outcome(spawned_view(spawned))
            &&& outcome matches Ok((value, _)) ==> value.1 == Span::dummy()
        }
}

/// Runs `command` in the shell and gives its value and warning.
///
/// `runner` starts the process, waits for it and hands back what it left
/// behind. It is called exactly once, with the shell's invocation.
pub fn run_command<R: FnOnce(Invocation) -> Result<ProcessOutput, String>>(
    command: &str,
    runner: R,
) -> (outcome: Result<(DynVal, Option<String>), CommandError>)
    requires
        forall|invocation: Invocation|
            invocation@ == model::shell_invocation(command@) ==> call_requires(
                runner,
                (invocation,),
            ),
    ensures
        ran_command(command@, runner, outcome),
{
    let spawned = runner(shell_invocation(command));
    command_outcome(spawned)
}

/// Running a command again gives the same result, as long as `runner` gives
/// the same for the same invocation: the texts of value and warning, or the
/// error, are the same for any two outcomes of `run_command`.
pub proof fn lemma_run_command_repeatable<R: FnOnce(Invocation) -> Result<ProcessOutput, String>>(
    command: Seq<char>,
    runner: R,
    first: Result<(DynVal, Option<String>), CommandError>,
    second: Result<(DynVal, Option<String>), CommandError>,
)
    requires
        forall|
            invocation: Invocation,
            again: Invocation,
            spawned: Result<ProcessOutput, String>,
            spawned_again: Result<ProcessOutput, String>,
        |
            invocation@ == again@ && #[trigger] call_ensures(runner, (invocation,), spawned)
                && #[trigger] call_ensures(runner, (again,), spawned_again) ==> spawned_view(
                spawned,
            ) == spawned_view(spawned_again),
        ran_command(command, runner, first),
        ran_command(command, runner, second),
    ensures
        outcome_view(first) == outcome_view(second),
{
}

} // verus!
