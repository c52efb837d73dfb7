//! The library's error type: a message that says what went wrong.

use vstd::prelude::*;

verus! {

/// An error, carrying the message that describes it.
#[derive(Clone, Debug)]
pub struct MyError {
    pub message: String,
}

impl MyError {
    /// An error with the given message.
    pub fn new(message: String) -> (r: Self)
        ensures
            r.message == message,
    {
        MyError { message }
    }

    /// An error whose message is the given text.
    pub fn from_text(message: &str) -> (r: Self)
        ensures
            r.message@ == message@,
    {
        MyError { message: String::from_str(message) }
    }
}

} // verus!
