//! The errors that the wrapper raises, and those that it passes on.

use vstd::prelude::*;
use vstd::std_specs::convert::FromSpecImpl;
use vstd::string::*;

verus! {

/// A broken expectation inside the virtual machine.
#[derive(Debug, PartialEq, Eq)]
pub enum VmInternalError {
    /// What was expected, in words.
    Expect(String),
}

/// A failure of an operation of the virtual machine.
#[derive(Debug, PartialEq, Eq)]
pub enum VmExecutionError {
    /// A broken expectation.
    Internal(VmInternalError),
    /// Any other failure that a backing store or a decoder reports, given by its debug text.
    Other(String),
}

/// A failure to read a serialized value.
#[derive(Debug, PartialEq, Eq)]
pub enum SerializationError {
    /// The bytes of the value could not be had or could not be read.
    DeserializationFailure(String),
    /// Any other failure that a value decoder reports, given by its debug text.
    Other(String),
}

/// The result that formatting a string with `{:?}` gives.
pub uninterp spec fn str_debug_text(text: Seq<char>) -> Seq<char>;

/// Formats `text` by `std`'s `Debug` for `str`.
///
/// Believed without proof: the formatted text depends on `text` alone. How characters
/// are quoted and escaped is left unsaid.
#[verifier::external_body]
fn format_str_debug(text: &str) -> (out: String)
    ensures
        out@ == str_debug_text(text@),
{
    format!("{:?}", text)
}

impl VmInternalError {
    /// The words of the error.
    pub open spec fn text(self) -> Seq<char> {
        match self {
            VmInternalError::Expect(text) => text@,
        }
    }

    /// The broken expectation that `text` puts in words.
    pub fn expect(text: &str) -> (e: VmInternalError)
        ensures
            e.text() == text@,
    {
        VmInternalError::Expect(text.to_string())
    }
}

impl VmExecutionError {
    /// Whether this is the broken expectation with the words `text`.
    pub open spec fn is_expect(self, text: Seq<char>) -> bool {
        self matches VmExecutionError::Internal(e) && e.text() == text
    }

    /// The debug text of the error. A broken expectation has the text that `{:?}` gives. A
    /// failure reported from outside has the text that it was given with, and nothing around it.
    pub open spec fn spec_debug_text(self) -> Seq<char> {
        match self {
            VmExecutionError::Internal(VmInternalError::Expect(text)) => "Internal(Expect("@
                + str_debug_text(text@) + "))"@,
            VmExecutionError::Other(text) => text@,
        }
    }

    /// The debug text of the error. A failure reported from outside is shown as it was given.
    pub fn debug_text(&self) -> (out: String)
        ensures
            out@ == self.spec_debug_text(),
    {
        match self {
            VmExecutionError::Internal(VmInternalError::Expect(text)) => {
                let inner = format_str_debug(text.as_str());
                "Internal(Expect(".to_string().concat(inner.as_str()).concat("))")
            },
            VmExecutionError::Other(text) => text.clone(),
        }
    }
}

impl FromSpecImpl<VmInternalError> for VmExecutionError {
    open spec fn obeys_from_spec() -> bool {
        true
    }

    open spec fn from_spec(e: VmInternalError) -> Self {
        VmExecutionError::Internal(e)
    }
}

impl From<VmInternalError> for VmExecutionError {
    fn from(e: VmInternalError) -> (r: Self) {
        VmExecutionError::Internal(e)
    }
}

} // verus!
