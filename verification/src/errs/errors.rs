//! Errors that carry a message and nothing else.

use vstd::prelude::*;
use vstd::std_specs::convert::IntoSpec;

verus! {

/// An invariant of the program was found broken.
#[derive(Debug)]
pub struct AssertionError {
    message: String,
}

impl View for AssertionError {
    type V = Seq<char>;

    /// The message of the error.
    closed spec fn view(&self) -> Seq<char> {
        self.message@
    }
}

impl AssertionError {
    /// What `to_string` returns for an error with this message.
    pub open spec fn rendered(message: Seq<char>) -> Seq<char> {
        "AssertionError: "@ + message
    }

    /// An error with the message that `msg` converts to.
    pub fn new<S: Into<String>>(msg: S) -> (error: Self)
        ensures
            S::obeys_into_spec() ==> error@ == msg.into_spec()@,
    {
        Self::from_message(msg.into())
    }

    /// An error with the message `message`.
    pub fn from_message(message: String) -> (error: Self)
        ensures
            error@ == message@,
    {
        Self { message }
    }

    /// The message of the error.
    pub fn message(&self) -> (message: &str)
        ensures
            message@ == self@,
    {
        self.message.as_str()
    }

    /// The error as a line of text: the name of the type, a colon, and the
    /// message.
    pub fn to_string(&self) -> (text: String)
        ensures
            text@ == Self::rendered(self@),
    {
        let mut text = String::from_str("AssertionError: ");
        text.append(self.message.as_str());
        text
    }
}

} // verus!
