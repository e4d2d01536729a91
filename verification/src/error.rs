//! The error type shared by the scheduler and the synchronous queries.

use vstd::prelude::*;

verus! {

/// `std::io::Error`, of which nothing is looked into.
#[verifier::external_type_specification]
#[verifier::external_body]
pub struct ExIoError(std::io::Error);

/// `std::string::FromUtf8Error`, of which nothing is looked into.
#[verifier::external_type_specification]
#[verifier::external_body]
pub struct ExFromUtf8Error(std::string::FromUtf8Error);

/// What can go wrong in a job or a query.
#[derive(Debug)]
pub enum Error {
    /// A failure described by its message alone.
    Generic(String),
    /// A failure of the operating system while reading or writing.
    Io(std::io::Error),
    /// Bytes that were expected to be UTF-8 and are not.
    Utf8Conversion(std::string::FromUtf8Error),
}

impl Error {
    /// Whether this is the error of a poisoned lock: a `Generic` error
    /// whose message begins with "poison error: ".
    pub open spec fn is_poisoned(self) -> bool {
        self matches Error::Generic(m) && "poison error: "@.is_prefix_of(m@)
    }

    /// The error as a line of text.
    pub fn message(&self) -> (text: String)
        ensures
            self matches Error::Generic(m) ==> text@ == "`"@ + m@ + "`"@,
            self is Io ==> "io error:"@.is_prefix_of(text@),
            self is Utf8Conversion ==> "uft8 error:"@.is_prefix_of(text@),
    {
        match self {
            Error::Generic(m) => {
                let mut text = String::from_str("`");
                text.append(m.as_str());
                text.append("`");
                text
            },
            Error::Io(e) => {
                let mut text = String::from_str("io error:");
                text.append(e.to_string().as_str());
                text
            },
            Error::Utf8Conversion(e) => {
                let mut text = String::from_str("uft8 error:");
                text.append(e.to_string().as_str());
                text
            },
        }
    }

    /// The error for a lock that was poisoned, with the lock's own
    /// description of what happened.
    pub fn poisoned(description: &str) -> (error: Error)
        ensures
            error matches Error::Generic(m) && m@ == "poison error: "@ + description@,
            error.is_poisoned(),
    {
        let mut message = String::from_str("poison error: ");
        message.append(description);
        assert(message@.subrange(0, "poison error: "@.len() as int) =~= "poison error: "@);
        Error::Generic(message)
    }

    /// A generic error with the given message.
    pub fn generic(message: &str) -> (error: Error)
        ensures
            error matches Error::Generic(m) && m@ == message@,
    {
        Error::Generic(String::from_str(message))
    }
}

} // verus!
