//! The first value of a script variable.
use crate::command::{
    outcome_view, ran_command, run_command, spawned_view, CommandError, Invocation, ProcessOutput,
};
use crate::definition::{ScriptVarDefinition, VarSource};
use crate::diagnostic::{create_script_var_failed_warn, DiagError};
use crate::model;
use crate::model::InitialValueErrorView;
use crate::text::lemma_contains_middle;
use crate::value::{DynVal, Span, VarName};
use vstd::prelude::*;
use vstd::string::*;

verus! {

/// Why a variable has no initial value.
#[derive(Debug)]
pub enum InitialValueError {
    /// The variable's function failed with `cause`; `context` names the
    /// variable.
    Source { context: String, cause: String },
    /// The variable's script gave no value; the diagnostic says why.
    Script(DiagError),
}

impl View for InitialValueError {
    type V = InitialValueErrorView;

    open spec fn view(&self) -> InitialValueErrorView {
        match self {
            InitialValueError::Source { context, cause } => InitialValueErrorView::Source {
                context: context@,
                cause: cause@,
            },
            InitialValueError::Script(error) => InitialValueErrorView::Script(error@),
        }
    }
}

impl InitialValueError {
    /// The error as one text: the context of a function's failure, or the
    /// diagnostic's message.
    pub fn message(&self) -> (text: &str)
        ensures
            text@ == self@.message(),
    {
        match self {
            InitialValueError::Source { context, cause } => context.as_str(),
            InitialValueError::Script(error) => error.0.message.as_str(),
        }
    }
}

/// The view of what a variable's function returned: the text of the value,
/// or of the failure.
pub open spec fn returned_view(returned: Result<DynVal, String>) -> Result<Seq<char>, Seq<char>> {
    match returned {
        Ok(value) => Ok(value@),
        Err(cause) => Err(cause@),
    }
}

/// The view of a resolution: the text of the value and of the warning, or
/// the error.
pub open spec fn resolved_view(resolved: Result<(DynVal, Option<String>), InitialValueError>) -> Result<
    (Seq<char>, Option<Seq<char>>),
    InitialValueErrorView,
> {
    match resolved {
        Ok((value, warning)) => Ok((value@, warning.deep_view())),
        Err(error) => Err(error@),
    }
}

/// The resolution that is `value` as it stands, with no warning.
pub open spec fn resolved_to(value: DynVal) -> Result<(DynVal, Option<String>), InitialValueError> {
    Ok((value, None))
}

/// The initial value of the variable `name` from what its function returned:
/// the value as it is and no warning, or the failure with the variable's name
/// in its context.
pub fn function_outcome(name: &VarName, returned: Result<DynVal, String>) -> (resolved: Result<
    (DynVal, Option<String>),
    InitialValueError,
>)
    ensures
        resolved_view(resolved) == model::function_outcome(name@, returned_view(returned)),
        returned matches Ok(value) ==> resolved == resolved_to(value),
{
    match returned {
        Ok(value) => Ok((value, None)),
        Err(cause) => Err(
            InitialValueError::Source {
                context: String::from_str("Failed to compute initial value for ").concat(
                    name.0.as_str(),
                ),
                cause,
            },
        ),
    }
}

/// The initial value of the variable `name`, whose script is defined at
/// `span`, from the outcome of running the script: value and warning as they
/// are, or the warning diagnostic that quotes the error.
pub fn shell_outcome(
    span: Span,
    name: &VarName,
    outcome: Result<(DynVal, Option<String>), CommandError>,
) -> (resolved: Result<(DynVal, Option<String>), InitialValueError>)
    ensures
        resolved_view(resolved) == model::shell_outcome(span, name@, outcome_view(outcome)),
        outcome matches Ok(value_and_warning) ==> resolved == Ok::<_, InitialValueError>(
            value_and_warning,
        ),
{
    match outcome {
        Ok(value_and_warning) => Ok(value_and_warning),
        Err(error) => Err(
            InitialValueError::Script(
                create_script_var_failed_warn(span, name, error.error_output()),
            ),
        ),
    }
}

/// Whether `resolved` is what `initial_value` may return for `var` with
/// `runner`.
///
/// A declared value is the result, with no warning. Only a polled variable
/// that declares none has its source evaluated: the result is then the
/// outcome of something that its function may return, or of something that
/// running its command with `runner` may give.
pub open spec fn resolved_initial_value<F, R>(
    var: ScriptVarDefinition<F>,
    runner: R,
    resolved: Result<(DynVal, Option<String>), InitialValueError>,
) -> bool where
    F: Fn() -> Result<DynVal, String>,
    R: FnOnce(Invocation) -> Result<ProcessOutput, String>,
 {
    match var.pending_source() {
        None => resolved == resolved_to(var.declared_value()->0),
        Some(VarSource::Function(function)) => exists|returned: Result<DynVal, String>|
            {
                &&& #[trigger] call_ensures(function, (), returned)
                &&& resolved_view(resolved) == model::function_outcome(
                    var.name()@,
                    returned_view(returned),
                )
                &&& returned matches Ok(value) ==> resolved == resolved_to(value)
            },
        Some(VarSource::Shell(span, command)) => exists|
            outcome: Result<(DynVal, Option<String>), CommandError>,
        |
            {
                &&& #[trigger] ran_command(command@, runner, outcome)
                &&& resolved_view(resolved) == model::shell_outcome(
                    span,
                    var.name()@,
                    outcome_view(outcome),
                )
                &&& outcome matches Ok(value_and_warning) ==> resolved == Ok::<
                    _,
                    InitialValueError,
                >(value_and_warning)
            },
    }
}

/// The first value of `var`, with the warning that came with it.
///
/// A listened variable and a polled one with a declared value have that
/// value. Nothing is asked of the function or of `runner` then, so neither
/// can be called. A polled variable without a declared value gets its value
/// from its source: its function is called, or its command is run with
/// `runner`, once.
pub fn initial_value<F, R>(var: &ScriptVarDefinition<F>, runner: R) -> (resolved: Result<
    (DynVal, Option<String>),
    InitialValueError,
>) where F: Fn() -> Result<DynVal, String>, R: FnOnce(Invocation) -> Result<ProcessOutput, String>
    requires
        var.pending_source() matches Some(VarSource::Function(function)) ==> call_requires(
            function,
            (),
        ),
        var.pending_source() matches Some(VarSource::Shell(_, command)) ==> forall|
            invocation: Invocation,
        |
            invocation@ == model::shell_invocation(command@) ==> call_requires(
                runner,
                (invocation,),
            ),
    ensures
        resolved_initial_value(*var, runner, resolved),
        var matches ScriptVarDefinition::Listen(listen) ==> resolved == resolved_to(
            listen.initial_value,
        ),
        var matches ScriptVarDefinition::Poll(poll) ==> (poll.initial_value matches Some(value)
            ==> resolved == resolved_to(value)),
{
    match var {
        ScriptVarDefinition::Poll(poll) => match &poll.initial_value {
            Some(value) => Ok((value.clone(), None)),
            None => match &poll.command {
                VarSource::Function(function) => function_outcome(&poll.name, function()),
                VarSource::Shell(span, command) => shell_outcome(
                    *span,
                    &poll.name,
                    run_command(command.as_str(), runner),
                ),
            },
        },
        ScriptVarDefinition::Listen(listen) => Ok((listen.initial_value.clone(), None)),
    }
}

/// A function that can only return `value` makes `value` the initial value,
/// with no warning.
pub proof fn lemma_function_value_is_initial_value<F, R>(
    var: ScriptVarDefinition<F>,
    runner: R,
    value: DynVal,
    resolved: Result<(DynVal, Option<String>), InitialValueError>,
) where F: Fn() -> Result<DynVal, String>, R: FnOnce(Invocation) -> Result<ProcessOutput, String>
    requires
        var.pending_source() matches Some(VarSource::Function(function)) && forall|
            returned: Result<DynVal, String>,
        | #[trigger]
            call_ensures(function, (), returned) ==> returned == Ok::<DynVal, String>(value),
        resolved_initial_value(var, runner, resolved),
    ensures
        resolved == resolved_to(value),
{
}

/// Resolving a variable again gives the same result, as long as its function
/// returns the same each time and `runner` gives the same for the same
/// invocation: the texts of value and warning, or the error, are the same for
/// any two results of `initial_value`.
pub proof fn lemma_initial_value_repeatable<F, R>(
    var: ScriptVarDefinition<F>,
    runner: R,
    first: Result<(DynVal, Option<String>), InitialValueError>,
    second: Result<(DynVal, Option<String>), InitialValueError>,
) where F: Fn() -> Result<DynVal, String>, R: FnOnce(Invocation) -> Result<ProcessOutput, String>
    requires
        var.pending_source() matches Some(VarSource::Function(function)) ==> forall|
            returned: Result<DynVal, String>,
            returned_again: Result<DynVal, String>,
        | #[trigger]
            call_ensures(function, (), returned) && #[trigger] call_ensures(
                function,
                (),
                returned_again,
            ) ==> returned_view(returned) == returned_view(returned_again),
        forall|
            invocation: Invocation,
            again: Invocation,
            spawned: Result<ProcessOutput, String>,
            spawned_again: Result<ProcessOutput, String>,
        |
            invocation@ == again@ && #[trigger] call_ensures(runner, (invocation,), spawned)
                && #[trigger] call_ensures(runner, (again,), spawned_again) ==> spawned_view(
                spawned,
            ) == spawned_view(spawned_again),
        resolved_initial_value(var, runner, first),
        resolved_initial_value(var, runner, second),
    ensures
        resolved_view(first) == resolved_view(second),
{
}

/// Whatever keeps a variable from having an initial value, the error's
/// message contains the variable's name.
pub proof fn lemma_error_names_variable<F, R>(
    var: ScriptVarDefinition<F>,
    runner: R,
    resolved: Result<(DynVal, Option<String>), InitialValueError>,
) where F: Fn() -> Result<DynVal, String>, R: FnOnce(Invocation) -> Result<ProcessOutput, String>
    requires
        resolved_initial_value(var, runner, resolved),
        resolved is Err,
    ensures
        model::contains_text(resolved->Err_0@.message(), var.name()@),
{
    let name = var.name()@;
    lemma_contains_middle("Failed to compute initial value for "@, name, Seq::empty());
    lemma_contains_middle("The script for the `"@, name, "`-variable exited unsuccessfully"@);
}

/// A function that can only fail leaves the variable without an initial
/// value, and the error's message contains the variable's name.
pub proof fn lemma_function_failure_names_variable<F, R>(
    var: ScriptVarDefinition<F>,
    runner: R,
    resolved: Result<(DynVal, Option<String>), InitialValueError>,
) where F: Fn() -> Result<DynVal, String>, R: FnOnce(Invocation) -> Result<ProcessOutput, String>
    requires
        var.pending_source() matches Some(VarSource::Function(function)) && forall|
            returned: Result<DynVal, String>,
        | #[trigger] call_ensures(function, (), returned) ==> returned is Err,
        resolved_initial_value(var, runner, resolved),
    ensures
        resolved is Err,
        resolved->Err_0 is Source,
        model::contains_text(resolved->Err_0@.message(), var.name()@),
{
    lemma_error_names_variable(var, runner, resolved);
}

} // verus!
