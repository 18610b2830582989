//! The error this crate reports.

use vstd::prelude::*;
use vstd::std_specs::convert::FromSpecImpl;
use vstd::string::*;

verus! {

/// A failure, described by a message for the user.
#[derive(Debug)]
pub struct PPCError {
    message: String,
}

impl View for PPCError {
    type V = Seq<char>;

    /// The message.
    closed spec fn view(&self) -> Seq<char> {
        self.message@
    }
}

impl From<String> for PPCError {
    /// An error with `value` as its message.
    fn from(value: String) -> (error: Self)
        ensures
            error@ == value@,
    {
        Self { message: value }
    }
}

impl FromSpecImpl<String> for PPCError {
    open spec fn obeys_from_spec() -> bool {
        true
    }

    closed spec fn from_spec(value: String) -> Self {
        Self { message: value }
    }
}

impl From<&str> for PPCError {
    /// An error with `value` as its message.
    fn from(value: &str) -> (error: Self)
        ensures
            error@ == value@,
    {
        Self { message: String::from_str(value) }
    }
}

/// Ghost code cannot make a `String` from its characters, so the conversion
/// from `&str` claims no `from_spec`; `from` itself states which message the
/// error carries.
impl FromSpecImpl<&str> for PPCError {
    open spec fn obeys_from_spec() -> bool {
        false
    }

    open spec fn from_spec(value: &str) -> Self {
        arbitrary()
    }
}

impl PPCError {
    /// The message, without any prefix.
    pub fn message(&self) -> (text: &str)
        ensures
            text@ == self@,
    {
        self.message.as_str()
    }

    /// The text shown to the user: `Error: ` followed by the message.
    pub fn to_string(&self) -> (text: String)
        ensures
            text@ == "Error: "@ + self@,
    {
        let mut text = String::from_str("Error: ");
        text.append(self.message.as_str());
        text
    }
}

} // verus!
