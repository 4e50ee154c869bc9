//! What starting the keyboard hook decides: that it is registered once only,
//! what its thread reported, and which calls of the hook carry an event.

use vstd::prelude::*;
use crate::error::Error;
use crate::keys::HC_ACTION;

verus! {

/// `oneshot::RecvError`, the error of a receiver whose sender was dropped
/// before it sent anything. Nothing is said of what it holds.
#[verifier::external_type_specification]
#[verifier::external_body]
pub struct ExRecvError(oneshot::RecvError);

/// The one place where the hook finds the sending end of its channel.
///
/// It is bound once. A second binding is refused and leaves the first as it
/// is.
#[derive(Debug)]
pub struct Registration<S> {
    /// The sending end that the hook is bound to, once it is bound.
    pub sender: Option<S>,
}

impl<S> Registration<S> {
    /// What binding `sender` makes of the registration, and whether it is
    /// accepted.
    pub open spec fn spec_bind(self, sender: S) -> (Registration<S>, Result<(), Error>) {
        if self.sender is Some {
            (self, Err(Error::AlreadyInitialized))
        } else {
            (Registration { sender: Some(sender) }, Ok(()))
        }
    }

    /// A registration that nothing is bound to yet.
    pub fn new() -> (registration: Self)
        ensures
            registration.sender is None,
    {
        Registration { sender: None }
    }

    /// Binds the hook to `sender`, unless it is bound already: then the error
    /// is `Error::AlreadyInitialized`, and the registration stays as it was.
    pub fn bind(&mut self, sender: S) -> (bound: Result<(), Error>)
        ensures
            (*final(self), bound) == old(self).spec_bind(sender),
    {
        if self.sender.is_some() {
            Err(Error::AlreadyInitialized)
        } else {
            self.sender = Some(sender);
            Ok(())
        }
    }

    /// The sending end that the hook is bound to, if it is bound.
    pub fn get(&self) -> (sender: Option<&S>)
        ensures
            sender == match self.sender {
                Some(bound) => Some(&bound),
                None => None,
            },
    {
        self.sender.as_ref()
    }
}

/// Of two bindings in a row, the first is accepted and stays, and the second
/// is refused as already initialized.
pub proof fn law_second_binding_is_refused<S>(first: S, second: S)
    ensures
        ({
            let vacant = Registration::<S> { sender: None };
            let (bound, accepted) = vacant.spec_bind(first);
            &&& accepted == Ok::<(), Error>(())
            &&& bound.sender == Some(first)
            &&& bound.spec_bind(second) == (bound, Err::<(), Error>(Error::AlreadyInitialized))
        }),
{
}

/// What the caller is told once the hook thread has reported, or has ended
/// without a report.
pub open spec fn spec_handshake_outcome(
    received: Result<Result<(), Error>, oneshot::RecvError>,
) -> Result<(), Error> {
    match received {
        Ok(Ok(())) => Ok(()),
        Ok(Err(error)) => Err(error),
        Err(_) => Err(Error::HookThreadCrashed),
    }
}

/// What the caller is told once the hook thread has reported: success where
/// it registered the hook, its error where it could not, and
/// `Error::HookThreadCrashed` where it ended before it reported anything.
pub fn handshake_outcome(received: Result<Result<(), Error>, oneshot::RecvError>) -> (outcome:
    Result<(), Error>)
    ensures
        outcome == spec_handshake_outcome(received),
{
    match received {
        Ok(Ok(())) => Ok(()),
        Ok(Err(error)) => Err(error),
        Err(_) => Err(Error::HookThreadCrashed),
    }
}

/// Whether a call of the hook procedure with this code carries a keyboard
/// event that is to be passed on. Every other call is only handed to the next
/// hook.
pub fn carries_event(n_code: i32) -> (carries: bool)
    ensures
        carries == (n_code == HC_ACTION),
{
    n_code == HC_ACTION
}

} // verus!
