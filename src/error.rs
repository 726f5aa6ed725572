use vstd::prelude::*;

verus! {

/// The category of a failure, after the categories of `std::io::ErrorKind`
/// that this library reports.
#[derive(Debug, Clone, Copy, PartialEq, Eq, Structural)]
pub enum ErrorKind {
    /// A caller-supplied value cannot be used (an empty field, a name that is
    /// not in a report).
    InvalidInput,
    /// Something that should be there is not (a configuration file, a field).
    NotFound,
}

/// A failure with its category and a human-readable message.
#[derive(Debug)]
pub struct Error {
    pub kind: ErrorKind,
    pub message: String,
}

impl View for Error {
    type V = (ErrorKind, Seq<char>);

    open spec fn view(&self) -> (ErrorKind, Seq<char>) {
        (self.kind, self.message@)
    }
}

impl Error {
    pub fn new(kind: ErrorKind, message: String) -> (r: Error)
        ensures
            r.kind == kind,
            r.message@ == message@,
    {
        Error { kind, message }
    }

    /// An `InvalidInput` error whose message is the given literal.
    pub fn invalid_input(message: &str) -> (r: Error)
        ensures
            r@ == (ErrorKind::InvalidInput, message@),
    {
        Error { kind: ErrorKind::InvalidInput, message: String::from_str(message) }
    }

    pub fn kind(&self) -> (r: ErrorKind)
        ensures
            r == self.kind,
    {
        self.kind
    }

    pub fn message(&self) -> (r: &str)
        ensures
            r@ == self.message@,
    {
        self.message.as_str()
    }
}

} // verus!
