use p2p_zones::resolver::{outcome_of_send, HandlerResolver, ResolveError};
use tokio::sync::oneshot;

#[test]
fn a_fresh_resolver_is_unresolved() {
    let (sender, _receiver) = oneshot::channel::<u32>();
    let resolver = HandlerResolver::new(sender);
    assert!(!resolver.is_resolved());
}

#[test]
fn the_first_handler_reaches_the_waiting_side() {
    let (sender, mut receiver) = oneshot::channel::<u32>();
    let mut resolver = HandlerResolver::new(sender);
    assert!(matches!(resolver.resolve(7), Ok(())));
    assert!(resolver.is_resolved());
    assert_eq!(receiver.try_recv(), Ok(7));
}

#[test]
fn a_second_handler_is_turned_away() {
    let (sender, mut receiver) = oneshot::channel::<u32>();
    let mut resolver = HandlerResolver::new(sender);
    assert!(matches!(resolver.resolve(7), Ok(())));
    assert!(matches!(resolver.resolve(8), Err(ResolveError::AlreadyResolved(8))));
    assert!(matches!(resolver.resolve(9), Err(ResolveError::AlreadyResolved(9))));
    assert!(resolver.is_resolved());
    assert_eq!(receiver.try_recv(), Ok(7));
}

#[test]
fn a_handler_that_nobody_waits_for_comes_back() {
    let (sender, receiver) = oneshot::channel::<u32>();
    drop(receiver);
    let mut resolver = HandlerResolver::new(sender);
    assert!(matches!(resolver.resolve(7), Err(ResolveError::Abandoned(7))));
    assert!(resolver.is_resolved());
    assert!(matches!(resolver.resolve(8), Err(ResolveError::AlreadyResolved(8))));
}

#[test]
fn a_handler_that_comes_back_from_sending_was_abandoned() {
    assert!(matches!(outcome_of_send::<u32>(Ok(())), Ok(())));
    assert!(matches!(outcome_of_send(Err(7u32)), Err(ResolveError::Abandoned(7))));
}
