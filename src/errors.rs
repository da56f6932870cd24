use vstd::prelude::*;

verus! {

/// The error of the surrounding application when the cause is not known.
#[derive(Debug, Copy, Clone, PartialEq, Eq, Structural)]
pub enum VistaError {
    UnknownError,
}

/// What a [`SyntaxError`] says: its message and the half-open byte range
/// `start..end` of the input that it points at.
pub struct ErrorView {
    pub message: Seq<char>,
    pub start: nat,
    pub end: nat,
}

/// A rejected input: what was expected, and the byte range of the original
/// input where it was not found.
#[derive(Debug, PartialEq, Eq)]
pub struct SyntaxError {
    pub message: String,
    pub start: usize,
    pub end: usize,
}

impl View for SyntaxError {
    type V = ErrorView;

    open spec fn view(&self) -> ErrorView {
        ErrorView { message: self.message@, start: self.start as nat, end: self.end as nat }
    }
}

impl SyntaxError {
    /// An error with `message` over the bytes `start..end`.
    pub fn new(message: &str, start: usize, end: usize) -> (r: SyntaxError)
        ensures
            r@ == (ErrorView { message: message@, start: start as nat, end: end as nat }),
    {
        SyntaxError { message: message.to_string(), start, end }
    }
}

} // verus!
