//! The promise of an inbound-transaction handler, seen from the side that
//! keeps it.
//!
//! A zone needs the handler before it can complete a handshake, and the
//! handler cannot be built before the zone runs. So a zone is started on a
//! promise, and whoever started it holds the resolver. A promise is resolved
//! at most once: the first handler goes out to those who wait, and every
//! later one is turned away.

use vstd::prelude::*;
use tokio::sync::oneshot::Sender;

verus! {

/// The sending half of a `tokio` one-shot channel, carried as it is.
#[verifier::external_type_specification]
#[verifier::external_body]
#[verifier::reject_recursive_types(T)]
pub struct ExSender<T>(Sender<T>);

/// Why a handler was not handed over. The handler comes back in either case.
pub enum ResolveError<H> {
    /// The promise has been resolved before.
    AlreadyResolved(H),
    /// Nobody waits for the handler any more.
    Abandoned(H),
}

/// What resolves the promise of one zone.
#[verifier::reject_recursive_types(H)]
pub struct HandlerResolver<H> {
    sender: Option<Sender<H>>,
}

/// Calls `Sender::send` of `tokio::sync::oneshot`.
///
/// Trusted: where the value could not be sent, it is the value that comes
/// back. Whether it could be sent depends on the receiving half, of which
/// nothing is claimed.
#[verifier::external_body]
fn send<H>(sender: Sender<H>, handler: H) -> (outcome: Result<(), H>)
    ensures
        outcome matches Err(rejected) ==> rejected == handler,
{
    sender.send(handler)
}

/// What the outcome of sending a handler means for the one who resolves:
/// a handler that came back was abandoned by those who waited for it.
pub fn outcome_of_send<H>(sent: Result<(), H>) -> (outcome: Result<(), ResolveError<H>>)
    ensures
        outcome == match sent {
            Ok(()) => Ok::<(), ResolveError<H>>(()),
            Err(rejected) => Err(ResolveError::Abandoned(rejected)),
        },
{
    match sent {
        Ok(()) => Ok(()),
        Err(rejected) => Err(ResolveError::Abandoned(rejected)),
    }
}

impl<H> HandlerResolver<H> {
    /// The sender that the first handler will go to, as long as the promise
    /// is unresolved.
    pub closed spec fn waiting_sender(&self) -> Option<Sender<H>> {
        self.sender
    }

    /// Whether the promise has been resolved.
    pub open spec fn resolved(&self) -> bool {
        self.waiting_sender() is None
    }

    /// The resolver of the promise that `sender` feeds.
    pub fn new(sender: Sender<H>) -> (resolver: Self)
        ensures
            resolver.waiting_sender() == Some(sender),
    {
        HandlerResolver { sender: Some(sender) }
    }

    /// Whether the promise has been resolved.
    pub fn is_resolved(&self) -> (resolved: bool)
        ensures
            resolved == self.resolved(),
    {
        self.sender.is_none()
    }

    /// Resolves the promise with `handler`.
    ///
    /// The first call sends the handler to those who wait for it, and fails
    /// only where nobody waits any more. Every later call is turned away as
    /// [`ResolveError::AlreadyResolved`]. Either way the promise counts as
    /// resolved from the first call on.
    pub fn resolve(&mut self, handler: H) -> (outcome: Result<(), ResolveError<H>>)
        ensures
            final(self).resolved(),
            old(self).resolved() ==> outcome == Err::<(), ResolveError<H>>(
                ResolveError::AlreadyResolved(handler),
            ),
            !old(self).resolved() ==> outcome is Ok || outcome == Err::<(), ResolveError<H>>(
                ResolveError::Abandoned(handler),
            ),
    {
        match self.sender.take() {
            None => Err(ResolveError::AlreadyResolved(handler)),
            Some(sender) => outcome_of_send(send(sender, handler)),
        }
    }
}

} // verus!
