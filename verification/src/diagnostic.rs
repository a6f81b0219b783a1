//! Diagnostics on a variable's script, as plain data for any reporter.
use crate::model;
use crate::model::DiagnosticView;
use crate::value::{Span, VarName};
use vstd::prelude::*;
use vstd::string::*;

verus! {

/// How grave a diagnostic is.
#[derive(Clone, Copy, Debug, PartialEq, Eq, Structural)]
pub enum Severity {
    /// Something went wrong that the configuration can live with.
    Warning,
    /// Something worth knowing.
    Note,
}

/// A report on a variable's script: how grave it is, what happened, the span
/// of the variable's definition with the label to show there, and a note.
#[derive(Debug)]
pub struct Diagnostic {
    pub severity: Severity,
    pub message: String,
    pub span: Span,
    pub label: String,
    pub note: String,
}

impl View for Diagnostic {
    type V = DiagnosticView;

    open spec fn view(&self) -> DiagnosticView {
        DiagnosticView {
            severity: self.severity,
            message: self.message@,
            span: self.span,
            label: self.label@,
            note: self.note@,
        }
    }
}

/// A diagnostic in the place of an error.
#[derive(Debug)]
pub struct DiagError(pub Diagnostic);

impl View for DiagError {
    type V = DiagnosticView;

    open spec fn view(&self) -> DiagnosticView {
        self.0@
    }
}

/// The warning that the script of the variable `var_name`, defined at `span`,
/// exited unsuccessfully; `error_output` becomes the note.
pub fn create_script_var_failed_warn(span: Span, var_name: &VarName, error_output: &str) -> (error:
    DiagError)
    ensures
        error@ == model::script_var_failed_warn(span, var_name@, error_output@),
{
    DiagError(
        Diagnostic {
            severity: Severity::Warning,
            message: String::from_str("The script for the `").concat(var_name.0.as_str()).concat(
                "`-variable exited unsuccessfully",
            ),
            span,
            label: String::from_str("Defined here"),
            note: String::from_str(error_output),
        },
    )
}

/// The note that the script of the variable `var_name`, defined at `span`,
/// wrote to its error stream; `error_output` becomes the note's text.
pub fn create_script_var_logged_note(span: Span, var_name: &VarName, error_output: &str) -> (error:
    DiagError)
    ensures
        error@ == model::script_var_logged_note(span, var_name@, error_output@),
{
    DiagError(
        Diagnostic {
            severity: Severity::Note,
            message: String::from_str("The script for the `").concat(var_name.0.as_str()).concat(
                "`-variable had err output",
            ),
            span,
            label: String::from_str("Defined here"),
            note: String::from_str(error_output),
        },
    )
}

} // verus!
