//! Definitions of script variables.
use crate::value::{DynVal, Span, VarName};
use vstd::prelude::*;

verus! {

/// Where the values of a polled variable come from: a shell command, with
/// the span at which the configuration gives it, or a function of the
/// program itself.
pub enum VarSource<F> {
    Shell(Span, String),
    Function(F),
}

/// A variable whose source is asked for a new value from time to time. Its
/// first value may be declared.
pub struct PollScriptVar<F> {
    pub name: VarName,
    pub command: VarSource<F>,
    pub initial_value: Option<DynVal>,
    pub name_span: Span,
}

/// A variable whose values are the lines that a long-running command writes.
/// Its first value is always declared.
pub struct ListenScriptVar {
    pub name: VarName,
    pub command: String,
    pub initial_value: DynVal,
    pub command_span: Span,
    pub name_span: Span,
}

/// A script variable of either kind.
pub enum ScriptVarDefinition<F> {
    Poll(PollScriptVar<F>),
    Listen(ListenScriptVar),
}

impl<F> ScriptVarDefinition<F> {
    /// The variable's name.
    pub open spec fn spec_name(&self) -> &VarName {
        match self {
            ScriptVarDefinition::Poll(poll) => &poll.name,
            ScriptVarDefinition::Listen(listen) => &listen.name,
        }
    }

    /// The variable's name.
    #[verifier::when_used_as_spec(spec_name)]
    pub fn name(&self) -> (name: &VarName)
        ensures
            name == self.spec_name(),
    {
        match self {
            ScriptVarDefinition::Poll(poll) => &poll.name,
            ScriptVarDefinition::Listen(listen) => &listen.name,
        }
    }

    /// The first value that the definition declares, if it declares one.
    pub open spec fn declared_value(&self) -> Option<DynVal> {
        match self {
            ScriptVarDefinition::Poll(poll) => poll.initial_value,
            ScriptVarDefinition::Listen(listen) => Some(listen.initial_value),
        }
    }

    /// The source that has to give the first value: that of a polled
    /// variable which declares none.
    pub open spec fn pending_source(&self) -> Option<VarSource<F>> {
        match self {
            ScriptVarDefinition::Poll(poll) => match poll.initial_value {
                Some(_) => None,
                None => Some(poll.command),
            },
            ScriptVarDefinition::Listen(_) => None,
        }
    }
}

} // verus!
