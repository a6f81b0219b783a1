//! The mathematical model: what each function of the library computes, stated
//! over sequences of characters and bytes.
use crate::diagnostic::Severity;
use crate::text::utf8_error_text;
use crate::value::Span;
use vstd::prelude::*;
use vstd::utf8::*;

verus! {

/// `text` without the newlines it starts with.
pub open spec fn trim_start(text: Seq<char>) -> Seq<char>
    decreases text.len(),
{
    if text.len() > 0 && text.first() == '\n' {
        trim_start(text.drop_first())
    } else {
        text
    }
}

/// `text` without the newlines it ends with.
pub open spec fn trim_end(text: Seq<char>) -> Seq<char>
    decreases text.len(),
{
    if text.len() > 0 && text.last() == '\n' {
        trim_end(text.drop_last())
    } else {
        text
    }
}

/// `text` without the newlines at either end. Other white space stays.
pub open spec fn trim_newlines(text: Seq<char>) -> Seq<char> {
    trim_end(trim_start(text))
}

/// Whether `from` and `to` bound what trimming keeps of `text`: all before
/// `from` and all from `to` on is newlines, and what lies between, if there
/// is anything, neither starts nor ends with a newline. Equal bounds fit
/// only a text that is newlines throughout.
pub open spec fn kept_between(text: Seq<char>, from: int, to: int) -> bool {
    &&& 0 <= from <= to <= text.len()
    &&& forall|i: int| 0 <= i < from ==> text[i] == '\n'
    &&& forall|i: int| to <= i < text.len() ==> text[i] == '\n'
    &&& from < to ==> text[from] != '\n' && text[to - 1] != '\n'
}

/// Whether `part` occurs in `text` as a run of adjacent characters.
pub open spec fn contains_text(text: Seq<char>, part: Seq<char>) -> bool {
    exists|at: int|
        0 <= at && at + part.len() <= text.len() && #[trigger] text.subrange(
            at,
            at + part.len(),
        ) == part
}

/// A program to start and the arguments to hand it.
pub struct InvocationView {
    pub program: Seq<char>,
    pub args: Seq<Seq<char>>,
}

/// How a command is run: by the shell, which gets the whole command text as
/// one argument.
pub open spec fn shell_invocation(command: Seq<char>) -> InvocationView {
    InvocationView { program: "/bin/sh"@, args: seq!["-c"@, command] }
}

/// What a process left behind: whether its exit status says success, and all
/// that it wrote to its output and error streams.
pub struct ProcessOutputView {
    pub success: bool,
    pub stdout: Seq<u8>,
    pub stderr: Seq<u8>,
}

/// Why running a command gave no value.
pub enum CommandErrorView {
    /// The process could not be started; `message` is the system's reason.
    Spawn { message: Seq<char> },
    /// The process exited unsuccessfully; `stderr` is what it wrote to its
    /// error stream.
    Execution { stderr: Seq<char> },
    /// A stream of the process was not UTF-8; `message` says where.
    Decoding { message: Seq<char> },
}

impl CommandErrorView {
    /// The error as one text.
    pub open spec fn message(self) -> Seq<char> {
        match self {
            CommandErrorView::Spawn { message } => message,
            CommandErrorView::Execution { stderr } => "Failed with output:\n"@ + stderr,
            CommandErrorView::Decoding { message } => message,
        }
    }

    /// What a diagnostic quotes of the error: the error stream of a process
    /// that failed, else the error's message.
    pub open spec fn error_output(self) -> Seq<char> {
        match self {
            CommandErrorView::Spawn { message } => message,
            CommandErrorView::Execution { stderr } => stderr,
            CommandErrorView::Decoding { message } => message,
        }
    }
}

/// The value of a command and the text of its warning, or the reason why it
/// has none.
///
/// The exit status alone tells success from failure. The error stream is
/// decoded first, since either outcome quotes it; on success a non-empty
/// error stream is the warning, and the value is the output stream without
/// the newlines at its ends.
pub open spec fn command_outcome(spawned: Result<ProcessOutputView, Seq<char>>) -> Result<
    (Seq<char>, Option<Seq<char>>),
    CommandErrorView,
> {
    match spawned {
        Err(message) => Err(CommandErrorView::Spawn { message }),
        Ok(output) => if !valid_utf8(output.stderr) {
            Err(CommandErrorView::Decoding { message: utf8_error_text(output.stderr) })
        } else if !output.success {
            Err(CommandErrorView::Execution { stderr: decode_utf8(output.stderr) })
        } else if !valid_utf8(output.stdout) {
            Err(CommandErrorView::Decoding { message: utf8_error_text(output.stdout) })
        } else {
            Ok(
                (
                    trim_newlines(decode_utf8(output.stdout)),
                    if output.stderr.len() > 0 {
                        Some(decode_utf8(output.stderr))
                    } else {
                        None
                    },
                ),
            )
        },
    }
}

/// A report on a variable's script: how grave it is, what happened, where the
/// variable is defined and what the script wrote.
pub struct DiagnosticView {
    pub severity: Severity,
    pub message: Seq<char>,
    pub span: Span,
    pub label: Seq<char>,
    pub note: Seq<char>,
}

/// The message of the report that the script of the variable `name` failed.
pub open spec fn failed_message(name: Seq<char>) -> Seq<char> {
    "The script for the `"@ + name + "`-variable exited unsuccessfully"@
}

/// The message of the report that the script of the variable `name` wrote to
/// its error stream.
pub open spec fn logged_message(name: Seq<char>) -> Seq<char> {
    "The script for the `"@ + name + "`-variable had err output"@
}

/// The report that the script of the variable `name`, defined at `span`,
/// failed with `error_output`. A failed script is a warning, no error: the
/// configuration as a whole still stands.
pub open spec fn script_var_failed_warn(
    span: Span,
    name: Seq<char>,
    error_output: Seq<char>,
) -> DiagnosticView {
    DiagnosticView {
        severity: Severity::Warning,
        message: failed_message(name),
        span,
        label: "Defined here"@,
        note: error_output,
    }
}

/// The report that the script of the variable `name`, defined at `span`,
/// succeeded and wrote `error_output` to its error stream.
pub open spec fn script_var_logged_note(
    span: Span,
    name: Seq<char>,
    error_output: Seq<char>,
) -> DiagnosticView {
    DiagnosticView {
        severity: Severity::Note,
        message: logged_message(name),
        span,
        label: "Defined here"@,
        note: error_output,
    }
}

/// Why a variable has no initial value.
pub enum InitialValueErrorView {
    /// The variable's function failed with `cause`; `context` names the
    /// variable.
    Source { context: Seq<char>, cause: Seq<char> },
    /// The variable's script gave no value; the diagnostic says why.
    Script(DiagnosticView),
}

impl InitialValueErrorView {
    /// The error as one text: the context of a function's failure, or the
    /// diagnostic's message.
    pub open spec fn message(self) -> Seq<char> {
        match self {
            InitialValueErrorView::Source { context, cause } => context,
            InitialValueErrorView::Script(diagnostic) => diagnostic.message,
        }
    }
}

/// What is said of any failure of the function of the variable `name`.
pub open spec fn source_failure_context(name: Seq<char>) -> Seq<char> {
    "Failed to compute initial value for "@ + name
}

/// The initial value of the variable `name` from what its function returned:
/// the value as it is and no warning, or the failure with the variable's name
/// in its context.
pub open spec fn function_outcome(
    name: Seq<char>,
    returned: Result<Seq<char>, Seq<char>>,
) -> Result<(Seq<char>, Option<Seq<char>>), InitialValueErrorView> {
    match returned {
        Ok(value) => Ok((value, None)),
        Err(cause) => Err(
            InitialValueErrorView::Source { context: source_failure_context(name), cause },
        ),
    }
}

/// The initial value of the variable `name`, whose script is defined at
/// `span`, from the outcome of running the script: value and warning as they
/// are, or the warning diagnostic that quotes the error.
pub open spec fn shell_outcome(
    span: Span,
    name: Seq<char>,
    outcome: Result<(Seq<char>, Option<Seq<char>>), CommandErrorView>,
) -> Result<(Seq<char>, Option<Seq<char>>), InitialValueErrorView> {
    match outcome {
        Ok(value_and_warning) => Ok(value_and_warning),
        Err(error) => Err(
            InitialValueErrorView::Script(script_var_failed_warn(span, name, error.error_output())),
        ),
    }
}

} // verus!
