use vstd::prelude::*;

verus! {

/// The error type returned by the fallible operations of this library.
///
/// It carries a human-readable message.
#[derive(Debug)]
pub struct ExtensionError {
    message: String,
}

impl View for ExtensionError {
    type V = Seq<char>;

    closed spec fn view(&self) -> Seq<char> {
        self.message@
    }
}

impl ExtensionError {
    /// Creates an error with the given message.
    pub fn new(message: &str) -> (e: Self)
        ensures
            e@ == message@,
    {
        ExtensionError { message: String::from_str(message) }
    }

    /// Creates an error that takes ownership of an already built message.
    pub fn from_message(message: String) -> (e: Self)
        ensures
            e@ == message@,
    {
        ExtensionError { message }
    }

    /// Returns the error message.
    pub fn as_str(&self) -> (s: &str)
        ensures
            s@ == self@,
    {
        self.message.as_str()
    }
}

} // verus!
