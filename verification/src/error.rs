//! Error values and the chain of causes that travels with them.

use vstd::prelude::*;
use vstd::string::StringExecFns;

verus! {

/// An error together with the messages of what caused it, the nearest cause
/// first.
#[derive(Clone, Debug)]
pub struct BacktraceError<E> {
    value: E,
    causes: Vec<String>,
}

impl<E> BacktraceError<E> {
    /// The error that is reported.
    pub closed spec fn spec_error(&self) -> E {
        self.value
    }

    /// The messages of the causes, the nearest first.
    pub closed spec fn spec_causes(&self) -> Seq<Seq<char>> {
        Seq::new(self.causes@.len(), |i: int| self.causes@[i]@)
    }

    /// An error without a known cause.
    pub fn new(value: E) -> (e: Self)
        ensures
            e.spec_error() == value,
            e.spec_causes() == Seq::<Seq<char>>::empty(),
    {
        BacktraceError { value, causes: Vec::new() }
    }

    /// An error with one cause.
    pub fn new_with_cause(value: E, cause: &str) -> (e: Self)
        ensures
            e.spec_error() == value,
            e.spec_causes() == seq![cause@],
    {
        let mut causes: Vec<String> = Vec::new();
        causes.push(cause.to_owned());
        BacktraceError { value, causes }
    }

    /// The error that is reported.
    pub fn error(&self) -> (value: &E)
        ensures
            *value == self.spec_error(),
    {
        &self.value
    }

    /// How many causes are recorded.
    pub fn cause_count(&self) -> (n: usize)
        ensures
            n == self.spec_causes().len(),
    {
        self.causes.len()
    }

    /// The message of the cause at `index`, counted from the nearest.
    pub fn cause(&self, index: usize) -> (message: Option<&str>)
        ensures
            message.is_some() <==> index < self.spec_causes().len(),
            message matches Some(m) ==> m@ == self.spec_causes()[index as int],
    {
        if index < self.causes.len() {
            Some(self.causes[index].as_str())
        } else {
            None
        }
    }

    /// Takes the error out and drops the causes.
    pub fn into_error(self) -> (value: E)
        ensures
            value == self.spec_error(),
    {
        self.value
    }
}

/// An error that is nothing but its description.
#[derive(Clone, Debug)]
pub struct ErrorMessage {
    description: String,
}

impl ErrorMessage {
    pub closed spec fn spec_description(&self) -> Seq<char> {
        self.description@
    }

    /// An error with the given description and no cause.
    pub fn msg(description: &str) -> (e: BacktraceError<Self>)
        ensures
            e.spec_error().spec_description() == description@,
            e.spec_causes() == Seq::<Seq<char>>::empty(),
    {
        BacktraceError::new(ErrorMessage { description: description.to_owned() })
    }

    /// An error with the given description and cause.
    pub fn msg_with_cause(description: &str, cause: &str) -> (e: BacktraceError<Self>)
        ensures
            e.spec_error().spec_description() == description@,
            e.spec_causes() == seq![cause@],
    {
        BacktraceError::new_with_cause(ErrorMessage { description: description.to_owned() }, cause)
    }

    pub fn description(&self) -> (d: &str)
        ensures
            d@ == self.spec_description(),
    {
        self.description.as_str()
    }
}

/// Why a renderer could not be created.
#[derive(Clone, Debug)]
pub struct GLRendererCreationError {
    description: String,
}

impl GLRendererCreationError {
    pub closed spec fn spec_description(&self) -> Seq<char> {
        self.description@
    }

    /// An error with the given description and cause.
    pub fn msg_with_cause(description: &str, cause: &str) -> (e: BacktraceError<Self>)
        ensures
            e.spec_error().spec_description() == description@,
            e.spec_causes() == seq![cause@],
    {
        BacktraceError::new_with_cause(
            GLRendererCreationError { description: description.to_owned() },
            cause,
        )
    }

    /// An error with the given description and no cause.
    pub fn msg(description: &str) -> (e: BacktraceError<Self>)
        ensures
            e.spec_error().spec_description() == description@,
            e.spec_causes() == Seq::<Seq<char>>::empty(),
    {
        BacktraceError::new(GLRendererCreationError { description: description.to_owned() })
    }

    pub fn description(&self) -> (d: &str)
        ensures
            d@ == self.spec_description(),
    {
        self.description.as_str()
    }

    /// The message shown to a person: a fixed prefix, then the description.
    pub fn to_string(&self) -> (text: String)
        ensures
            text@ == "GL renderer creation error: "@ + self.spec_description(),
    {
        String::from_str("GL renderer creation error: ").concat(self.description.as_str())
    }
}

} // verus!
