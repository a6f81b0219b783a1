//! Initial values of script variables: which source a variable's first value
//! comes from, how the output of a shell command becomes a value, and the
//! diagnostics that report a script which failed or wrote to its error stream.
//!
//! The library starts no process itself. Whoever calls [`run_command`] or
//! [`initial_value`] hands in the function that does, and gets back what the
//! process's output means.
pub mod command;
pub mod definition;
pub mod diagnostic;
pub mod model;
pub mod resolve;
pub mod text;
pub mod value;

pub use crate::command::{run_command, CommandError, Invocation, ProcessOutput};
pub use crate::definition::{ListenScriptVar, PollScriptVar, ScriptVarDefinition, VarSource};
pub use crate::diagnostic::{
    create_script_var_failed_warn, create_script_var_logged_note, DiagError, Diagnostic, Severity,
};
pub use crate::resolve::{initial_value, InitialValueError};
pub use crate::value::{DynVal, Span, VarName};
