//! The plain values that variable definitions and their results are made of:
//! source spans, variable names and dynamic values.
use vstd::prelude::*;
use vstd::std_specs::cmp::PartialEqSpecImpl;

verus! {

/// A region of a configuration file: start offset, end offset and file id.
#[derive(Clone, Copy, Debug, PartialEq, Eq, Structural)]
pub struct Span(pub usize, pub usize, pub usize);

impl Span {
    /// The span of a value that was not read from any file.
    #[verifier::allow_in_spec]
    pub fn dummy() -> Span
        returns
            Span(usize::MAX, usize::MAX, usize::MAX),
    {
        Span(usize::MAX, usize::MAX, usize::MAX)
    }
}

/// The name of a variable. Its view is the name's text.
#[derive(Debug)]
pub struct VarName(pub String);

impl View for VarName {
    type V = Seq<char>;

    open spec fn view(&self) -> Seq<char> {
        self.0@
    }
}

impl Clone for VarName {
    fn clone(&self) -> (copy: Self)
        ensures
            copy == *self,
    {
        VarName(self.0.clone())
    }
}

/// A dynamically typed scalar, held as text, with the span it was read from.
/// Its view is the text: two values with the same text are the same value,
/// wherever they were read.
#[derive(Debug)]
pub struct DynVal(pub String, pub Span);

impl View for DynVal {
    type V = Seq<char>;

    open spec fn view(&self) -> Seq<char> {
        self.0@
    }
}

impl DynVal {
    /// The value with the given text and no place in any file.
    pub fn from_string(text: String) -> (value: DynVal)
        ensures
            value == DynVal(text, Span::dummy()),
    {
        DynVal(text, Span::dummy())
    }
}

impl Clone for DynVal {
    fn clone(&self) -> (copy: Self)
        ensures
            copy == *self,
    {
        DynVal(self.0.clone(), self.1)
    }
}

impl PartialEq for DynVal {
    fn eq(&self, other: &DynVal) -> (same: bool) {
        self.0 == other.0
    }
}

impl PartialEqSpecImpl for DynVal {
    open spec fn obeys_eq_spec() -> bool {
        true
    }

    open spec fn eq_spec(&self, other: &DynVal) -> bool {
        self@ == other@
    }
}

impl Eq for DynVal {

}

} // verus!
