//! An error that is nothing but its message.

use vstd::prelude::*;

verus! {

/// An error that carries a message.
#[derive(Debug)]
pub struct StringError(pub String);

impl StringError {
    /// What the error prints as: `Error: ` and the message.
    pub open spec fn text(self) -> Seq<char> {
        "Error: "@ + self.0@
    }

    /// What the error prints as: `Error: ` and the message.
    pub fn message(&self) -> (text: String)
        ensures
            text@ == self.text(),
    {
        String::from_str("Error: ").concat(self.0.as_str())
    }
}

impl Clone for StringError {
    fn clone(&self) -> (copy: Self)
        ensures
            copy == *self,
    {
        StringError(self.0.clone())
    }
}

/// Whether two texts are the same.
pub fn same_text(a: &str, b: &str) -> (same: bool)
    ensures
        same == (a@ == b@),
{
    let left: String = a.to_owned();
    let right: String = b.to_owned();
    left == right
}

/// The error with the message `msg`.
pub fn make_string_error(msg: &str) -> (error: StringError)
    ensures
        error.0@ == msg@,
{
    StringError(String::from_str(msg))
}

} // verus!
