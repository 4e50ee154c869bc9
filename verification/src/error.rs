//! The ways in which starting the keyboard hook can fail.

use vstd::prelude::*;

verus! {

/// `std::io::Error`, the error with which the operating system refuses a
/// hook. Nothing is said of what it holds: it is carried along as it came.
#[verifier::external_type_specification]
#[verifier::external_body]
pub struct ExIoError(std::io::Error);

/// Why the keyboard hook could not be started.
#[derive(Debug)]
pub enum Error {
    /// The operating system refused to install the hook.
    HookRegistrationFailed(std::io::Error),
    /// The hook thread ended before it said whether the hook was installed.
    HookThreadCrashed,
    /// A hook of this process is registered already.
    AlreadyInitialized,
}

impl Error {
    /// The sentence that describes the error.
    pub fn message(&self) -> (text: &'static str)
        ensures
            text@ == match *self {
                Error::HookRegistrationFailed(_) => "failed to register the keyboard hook"@,
                Error::HookThreadCrashed => "the hook thread terminated unexpectedly"@,
                Error::AlreadyInitialized => "the keyboard hook is already registered"@,
            },
    {
        match self {
            Error::HookRegistrationFailed(_) => "failed to register the keyboard hook",
            Error::HookThreadCrashed => "the hook thread terminated unexpectedly",
            Error::AlreadyInitialized => "the keyboard hook is already registered",
        }
    }
}

} // verus!
