//! The error type of the library.

use vstd::prelude::*;
use vstd::string::*;

verus! {

#[verifier::external_type_specification]
#[verifier::external_body]
pub struct ExIoError(std::io::Error);

/// The outcome of a fallible operation of the library.
pub type Result<T> = core::result::Result<T, Error>;

#[derive(Debug)]
pub enum Error {
    /// An argument was rejected.
    InvalidArgument(String),
    /// An operation failed for a reason other than its arguments.
    Runtime(String),
    /// A system call failed; `source` is the error the OS reported.
    Io { context: String, source: std::io::Error },
}

/// `std::io::Error::last_os_error`: the error code that the last failed system call of
/// this thread left behind. It depends on the state of the thread, so nothing is stated
/// of the value.
#[verifier::external_body]
fn last_os_error() -> std::io::Error {
    std::io::Error::last_os_error()
}

impl Error {
    /// An `InvalidArgument` error carrying `message`.
    pub fn invalid_argument(message: &str) -> (err: Self)
        ensures
            err matches Error::InvalidArgument(m) && m@ == message@,
    {
        Error::InvalidArgument(String::from_str(message))
    }

    /// A `Runtime` error carrying `message`.
    pub fn runtime(message: &str) -> (err: Self)
        ensures
            err matches Error::Runtime(m) && m@ == message@,
    {
        Error::Runtime(String::from_str(message))
    }

    /// An `Io` error with `context` and the last OS error of this thread.
    pub fn io(context: &str) -> (err: Self)
        ensures
            err matches Error::Io { context: c, .. } && c@ == context@,
    {
        Error::Io { context: String::from_str(context), source: last_os_error() }
    }

    /// The text that describes the error: the message for `InvalidArgument` and
    /// `Runtime`, and `"{context}: {description}"` for `Io`, where the description is the
    /// `Display` text of the OS error.
    pub fn message(&self) -> (text: String)
        ensures
            self matches Error::InvalidArgument(m) ==> text@ == m@,
            self matches Error::Runtime(m) ==> text@ == m@,
            self matches Error::Io { context, source } ==> exists|description: String|
                to_string_from_display_ensures::<std::io::Error>(&source, description) && text@
                    == context@ + ": "@ + description@,
    {
        match self {
            Error::InvalidArgument(message) => message.clone(),
            Error::Runtime(message) => message.clone(),
            Error::Io { context, source } => {
                let description = source.to_string();
                let text = context.clone().concat(": ").concat(description.as_str());
                assert(to_string_from_display_ensures::<std::io::Error>(source, description));
                text
            },
        }
    }
}

} // verus!
