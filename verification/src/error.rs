//! What an operation of the store can fail with.

use vstd::prelude::*;

verus! {

/// Why the machinery under the rules failed: the hasher, the serializer or a
/// constraint of the tables.
#[derive(Clone, Copy, Debug, PartialEq, Eq, Structural)]
pub enum Fault {
    /// A stored password hash does not have the layout that hashing writes.
    MalformedHash,
    /// The hashing primitive reported a failure.
    HashFailure,
    /// The token payload could not be serialized. The serializer in use
    /// cannot fail on a payload of integers, so no operation ends this way.
    PayloadFailure,
    /// A new session's token is already in the session table.
    TokenCollision,
    /// A row that an update names is not in its table.
    RecordNotFound,
    /// A table has handed out its last key.
    KeysExhausted,
}

/// The failures of the store's operations.
#[derive(Clone, Copy, Debug, PartialEq, Eq, Structural)]
pub enum Error {
    /// The password does not match, or no account has the email.
    InvalidPassword,
    /// A session names an account that is not in the account table.
    AccountNotFound,
    /// Another account already has the email.
    EmployeeExists,
    /// The session of the token has run out.
    TokenExpired,
    /// No session has the token.
    TokenNotFound,
    /// A mutation was asked for without a live session.
    Unauthorized,
    /// The account's level is below what the operation asks.
    Forbidden,
    /// The record belongs to another account.
    IdentityMismatch,
    /// The hasher, the serializer or a table constraint failed.
    Infrastructure(Fault),
}

impl Fault {
    /// The text that describes the fault.
    pub open spec fn text(self) -> Seq<char> {
        match self {
            Fault::MalformedHash => "Hash is not in Rust PBKDF2 format."@,
            Fault::HashFailure => "Hash error"@,
            Fault::PayloadFailure => "Error serializing token data!"@,
            Fault::TokenCollision => "A session with that token already exists!"@,
            Fault::RecordNotFound => "Record not found"@,
            Fault::KeysExhausted => "No key is left for a new record"@,
        }
    }

    /// The text that describes the fault.
    pub fn message(&self) -> (text: String)
        ensures
            text@ == self.text(),
    {
        match self {
            Fault::MalformedHash => String::from_str("Hash is not in Rust PBKDF2 format."),
            Fault::HashFailure => String::from_str("Hash error"),
            Fault::PayloadFailure => String::from_str("Error serializing token data!"),
            Fault::TokenCollision => String::from_str("A session with that token already exists!"),
            Fault::RecordNotFound => String::from_str("Record not found"),
            Fault::KeysExhausted => String::from_str("No key is left for a new record"),
        }
    }
}

impl Error {
    /// Whether the failure is one of the machinery, not of a rule.
    pub open spec fn is_infrastructure(self) -> bool {
        self is Infrastructure
    }

    /// The text that describes the failure.
    pub open spec fn text(self) -> Seq<char> {
        match self {
            Error::InvalidPassword => "Incorrect password was entered!"@,
            Error::AccountNotFound => "The account of the session does not exist!"@,
            Error::EmployeeExists => "A owner with that email already exists!"@,
            Error::TokenExpired => "The token is expired!"@,
            Error::TokenNotFound => "Token not found, unauthorized access!"@,
            Error::Unauthorized => "Unauthorized request!"@,
            Error::Forbidden => "Insufficient level for the request!"@,
            Error::IdentityMismatch => "Identity was not expected"@,
            Error::Infrastructure(fault) => "Misc: "@ + fault.text(),
        }
    }

    /// The text that describes the failure.
    pub fn message(&self) -> (text: String)
        ensures
            text@ == self.text(),
    {
        match self {
            Error::InvalidPassword => String::from_str("Incorrect password was entered!"),
            Error::AccountNotFound => String::from_str(
                "The account of the session does not exist!",
            ),
            Error::EmployeeExists => String::from_str("A owner with that email already exists!"),
            Error::TokenExpired => String::from_str("The token is expired!"),
            Error::TokenNotFound => String::from_str("Token not found, unauthorized access!"),
            Error::Unauthorized => String::from_str("Unauthorized request!"),
            Error::Forbidden => String::from_str("Insufficient level for the request!"),
            Error::IdentityMismatch => String::from_str("Identity was not expected"),
            Error::Infrastructure(fault) => {
                let detail = fault.message();
                String::from_str("Misc: ").concat(detail.as_str())
            },
        }
    }
}

} // verus!
