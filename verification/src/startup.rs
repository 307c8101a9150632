//! Bringing up the zones of a node.
//!
//! Starting a zone is work for the caller: it sets up a transport and waits
//! for the network to come up. What to start, in which order, and what a
//! failure means is decided here. The caller asks for the pending [`Action`],
//! performs it, and reports the outcome as an [`Event`].
//!
//! Clearnet is mandatory and comes first; its failure ends the startup. I2P
//! is optional: it is attempted only where it is enabled and only once
//! clearnet runs, and its failure leaves the node running without it.

use vstd::prelude::*;

verus! {

/// The network interfaces of all zones of a running node.
pub struct NetworkInterfaces<C, I> {
    /// Interface of the mandatory clearnet zone.
    pub clearnet_network_interface: C,
    /// Interface of the optional I2P zone, where it runs.
    pub i2p_network_interface: Option<I>,
}

impl<C, I> NetworkInterfaces<C, I> {
    /// Collects the interfaces of the zones.
    pub fn new(clearnet_network_interface: C, i2p_network_interface: Option<I>) -> (interfaces:
        Self)
        ensures
            interfaces.clearnet_network_interface == clearnet_network_interface,
            interfaces.i2p_network_interface == i2p_network_interface,
    {
        Self { clearnet_network_interface, i2p_network_interface }
    }
}

/// What became of an optional zone.
pub enum ZoneOutcome<N, S, E> {
    /// The zone runs; `resolver` hands its inbound-transaction handler over.
    Started { interface: N, resolver: S },
    /// The zone is switched off in the configuration.
    Disabled,
    /// The zone was attempted and did not come up.
    Failed { error: E },
}

/// Why a startup came to nothing.
pub enum StartupError<E> {
    /// The mandatory clearnet zone did not come up.
    ClearnetFailed(E),
    /// The caller reported an outcome that answers no pending action, or
    /// asked for the result before the startup had ended.
    OutOfTurn,
}

/// What the caller has to do next.
#[derive(Clone, Copy, Debug, PartialEq, Eq, Structural)]
pub enum Action {
    /// Start the clearnet zone and report how it went.
    StartClearnet,
    /// Start the I2P zone and report how it went.
    StartI2p,
    /// Nothing is left to start: take the result.
    Finish,
    /// The startup has failed: take the error.
    Abort,
}

/// The outcome of an attempt to start a zone. `C` and `I` are the interfaces
/// of a running clearnet and I2P zone, `S` is what resolves a zone's promise
/// of an inbound-transaction handler, `E` is the error of a failed attempt.
pub enum Event<C, I, S, E> {
    ClearnetStarted { clearnet: C, resolver: S },
    ClearnetFailed { error: E },
    I2pStarted { i2p: I, resolver: S },
    I2pFailed { error: E },
}

/// Where the startup of a node stands.
pub enum Startup<C, I, S, E> {
    /// Nothing has been started yet.
    Configured { i2p_enabled: bool },
    /// Clearnet runs and I2P, which is enabled, is still to be attempted.
    ClearnetRunning { clearnet: C, clearnet_resolver: S },
    /// The node runs: clearnet is up, and I2P is up, off or failed.
    Running { clearnet: C, clearnet_resolver: S, i2p: ZoneOutcome<I, S, E> },
    /// The startup has failed.
    Failed { error: StartupError<E> },
}

/// The action that a state asks for.
pub open spec fn pending_action<C, I, S, E>(state: Startup<C, I, S, E>) -> Action {
    match state {
        Startup::Configured { .. } => Action::StartClearnet,
        Startup::ClearnetRunning { .. } => Action::StartI2p,
        Startup::Running { .. } => Action::Finish,
        Startup::Failed { .. } => Action::Abort,
    }
}

/// The state that follows `state` on `event`.
///
/// A state that has ended stays as it is. Before that, an event that
/// does not answer the pending action ends the startup as out of turn.
pub open spec fn next_state<C, I, S, E>(state: Startup<C, I, S, E>, event: Event<C, I, S, E>)
    -> Startup<C, I, S, E> {
    match state {
        Startup::Configured { i2p_enabled } => match event {
            Event::ClearnetStarted { clearnet, resolver } => if i2p_enabled {
                Startup::ClearnetRunning { clearnet, clearnet_resolver: resolver }
            } else {
                Startup::Running {
                    clearnet,
                    clearnet_resolver: resolver,
                    i2p: ZoneOutcome::Disabled,
                }
            },
            Event::ClearnetFailed { error } => Startup::Failed {
                error: StartupError::ClearnetFailed(error),
            },
            _ => Startup::Failed { error: StartupError::OutOfTurn },
        },
        Startup::ClearnetRunning { clearnet, clearnet_resolver } => match event {
            Event::I2pStarted { i2p, resolver } => Startup::Running {
                clearnet,
                clearnet_resolver,
                i2p: ZoneOutcome::Started { interface: i2p, resolver },
            },
            Event::I2pFailed { error } => Startup::Running {
                clearnet,
                clearnet_resolver,
                i2p: ZoneOutcome::Failed { error },
            },
            _ => Startup::Failed { error: StartupError::OutOfTurn },
        },
        Startup::Running { .. } => state,
        Startup::Failed { .. } => state,
    }
}

/// The state that a run of events leads to.
pub open spec fn run<C, I, S, E>(state: Startup<C, I, S, E>, events: Seq<Event<C, I, S, E>>)
    -> Startup<C, I, S, E>
    decreases events.len(),
{
    if events.len() == 0 {
        state
    } else {
        run(next_state(state, events[0]), events.drop_first())
    }
}

/// The interfaces that a state hands out at the end: those of a running
/// node, with I2P present exactly where it was started.
pub open spec fn interfaces_of<C, I, S, E>(state: Startup<C, I, S, E>) -> Option<
    NetworkInterfaces<C, I>,
> {
    match state {
        Startup::Running { clearnet, clearnet_resolver, i2p } => Some(
            NetworkInterfaces {
                clearnet_network_interface: clearnet,
                i2p_network_interface: match i2p {
                    ZoneOutcome::Started { interface, resolver } => Some(interface),
                    _ => None,
                },
            },
        ),
        _ => None,
    }
}

/// The error that a state hands out at the end where the node does not
/// run: the failure it ended with, or out of turn where it has not ended.
pub open spec fn failure_of<C, I, S, E>(state: Startup<C, I, S, E>) -> StartupError<E> {
    match state {
        Startup::Failed { error } => error,
        _ => StartupError::OutOfTurn,
    }
}

/// The resolvers that a state hands out at the end: one for each zone that
/// runs, clearnet first.
pub open spec fn resolvers_of<C, I, S, E>(state: Startup<C, I, S, E>) -> Seq<S> {
    match state {
        Startup::Running { clearnet, clearnet_resolver, i2p } => match i2p {
            ZoneOutcome::Started { interface, resolver } => seq![clearnet_resolver, resolver],
            _ => seq![clearnet_resolver],
        },
        _ => Seq::empty(),
    }
}

impl<C, I, S, E> Startup<C, I, S, E> {
    /// The state of a node of which nothing has been started.
    pub fn new(i2p_enabled: bool) -> (state: Self)
        ensures
            state == (Startup::<C, I, S, E>::Configured { i2p_enabled }),
            pending_action(state) == Action::StartClearnet,
    {
        Startup::Configured { i2p_enabled }
    }

    /// What the caller has to do next.
    pub fn pending(&self) -> (action: Action)
        ensures
            action == pending_action(*self),
    {
        match self {
            Startup::Configured { .. } => Action::StartClearnet,
            Startup::ClearnetRunning { .. } => Action::StartI2p,
            Startup::Running { .. } => Action::Finish,
            Startup::Failed { .. } => Action::Abort,
        }
    }

    /// Takes in the outcome of the action that was pending and says what to
    /// do next.
    pub fn step(self, event: Event<C, I, S, E>) -> (next: (Self, Action))
        ensures
            next.0 == next_state(self, event),
            next.1 == pending_action(next.0),
    {
        let state = match self {
            Startup::Configured { i2p_enabled } => match event {
                Event::ClearnetStarted { clearnet, resolver } => if i2p_enabled {
                    Startup::ClearnetRunning { clearnet, clearnet_resolver: resolver }
                } else {
                    Startup::Running {
                        clearnet,
                        clearnet_resolver: resolver,
                        i2p: ZoneOutcome::Disabled,
                    }
                },
                Event::ClearnetFailed { error } => Startup::Failed {
                    error: StartupError::ClearnetFailed(error),
                },
                _ => Startup::Failed { error: StartupError::OutOfTurn },
            },
            Startup::ClearnetRunning { clearnet, clearnet_resolver } => match event {
                Event::I2pStarted { i2p, resolver } => Startup::Running {
                    clearnet,
                    clearnet_resolver,
                    i2p: ZoneOutcome::Started { interface: i2p, resolver },
                },
                Event::I2pFailed { error } => Startup::Running {
                    clearnet,
                    clearnet_resolver,
                    i2p: ZoneOutcome::Failed { error },
                },
                _ => Startup::Failed { error: StartupError::OutOfTurn },
            },
            Startup::Running { clearnet, clearnet_resolver, i2p } => Startup::Running {
                clearnet,
                clearnet_resolver,
                i2p,
            },
            Startup::Failed { error } => Startup::Failed { error },
        };
        let action = state.pending();
        (state, action)
    }

    /// Ends the startup: the interfaces and the resolvers of a running node,
    /// or the reason why there is none.
    pub fn finish(self) -> (outcome: Result<(NetworkInterfaces<C, I>, Vec<S>), StartupError<E>>)
        ensures
            outcome is Ok <==> self is Running,
            match outcome {
                Ok((interfaces, resolvers)) => {
                    &&& interfaces_of(self) == Some(interfaces)
                    &&& resolvers@ == resolvers_of(self)
                },
                Err(error) => error == failure_of(self),
            },
    {
        match self {
            Startup::Running { clearnet, clearnet_resolver, i2p } => {
                let mut resolvers: Vec<S> = Vec::new();
                resolvers.push(clearnet_resolver);
                let i2p_interface = match i2p {
                    ZoneOutcome::Started { interface, resolver } => {
                        resolvers.push(resolver);
                        Some(interface)
                    },
                    _ => None,
                };
                assert(resolvers@ =~= resolvers_of(self));
                Ok((NetworkInterfaces::new(clearnet, i2p_interface), resolvers))
            },
            Startup::Failed { error } => Err(error),
            _ => Err(StartupError::OutOfTurn),
        }
    }
}

impl<C, I, S, E> Event<C, I, S, E> {
    /// The event that reports how starting clearnet went.
    pub fn clearnet(outcome: Result<(C, S), E>) -> (event: Self)
        ensures
            event == match outcome {
                Ok((clearnet, resolver)) => Event::<C, I, S, E>::ClearnetStarted {
                    clearnet,
                    resolver,
                },
                Err(error) => Event::ClearnetFailed { error },
            },
    {
        match outcome {
            Ok((clearnet, resolver)) => Event::ClearnetStarted { clearnet, resolver },
            Err(error) => Event::ClearnetFailed { error },
        }
    }

    /// The event that reports how starting I2P went.
    pub fn i2p(outcome: Result<(I, S), E>) -> (event: Self)
        ensures
            event == match outcome {
                Ok((i2p, resolver)) => Event::<C, I, S, E>::I2pStarted { i2p, resolver },
                Err(error) => Event::I2pFailed { error },
            },
    {
        match outcome {
            Ok((i2p, resolver)) => Event::I2pStarted { i2p, resolver },
            Err(error) => Event::I2pFailed { error },
        }
    }
}

/// What starting one zone comes to: the interface of the network that came
/// up, together with the resolver of the promise it was started on, or the
/// error of the network that did not.
pub fn zone_start_outcome<N, S, E>(network: Result<N, E>, resolver: S) -> (outcome: Result<
    (N, S),
    E,
>)
    ensures
        outcome == match network {
            Ok(interface) => Ok::<(N, S), E>((interface, resolver)),
            Err(error) => Err(error),
        },
{
    match network {
        Ok(interface) => Ok((interface, resolver)),
        Err(error) => Err(error),
    }
}

/// A failure of the mandatory zone ends the startup with that failure, and
/// no interface is handed out.
pub proof fn mandatory_zone_failure_aborts<C, I, S, E>(i2p_enabled: bool, error: E)
    ensures
        ({
            let state = next_state(
                Startup::<C, I, S, E>::Configured { i2p_enabled },
                Event::ClearnetFailed { error },
            );
            &&& state == (Startup::<C, I, S, E>::Failed {
                error: StartupError::ClearnetFailed(error),
            })
            &&& pending_action(state) == Action::Abort
            &&& interfaces_of(state) is None
        }),
{
}

/// A failure of the optional zone leaves the node running: the clearnet
/// interface and its resolver are the ones that clearnet was started with,
/// and the I2P interface is absent.
pub proof fn optional_zone_failure_is_absorbed<C, I, S, E>(clearnet: C, clearnet_resolver: S, error: E)
    ensures
        ({
            let state = next_state(
                Startup::<C, I, S, E>::ClearnetRunning { clearnet, clearnet_resolver },
                Event::I2pFailed { error },
            );
            &&& pending_action(state) == Action::Finish
            &&& interfaces_of(state) == Some(
                NetworkInterfaces::<C, I> {
                    clearnet_network_interface: clearnet,
                    i2p_network_interface: None,
                },
            )
            &&& resolvers_of(state) == seq![clearnet_resolver]
        }),
{
}

/// Whatever is reported for the optional zone, clearnet is not touched: once
/// it runs, every later state is a running one with the same interface and
/// the same resolver, or the startup went out of turn.
pub proof fn clearnet_outlives_the_optional_zone<C, I, S, E>(
    clearnet: C,
    clearnet_resolver: S,
    event: Event<C, I, S, E>,
)
    ensures
        match next_state(
            Startup::<C, I, S, E>::ClearnetRunning { clearnet, clearnet_resolver },
            event,
        ) {
            Startup::Running { clearnet: kept, clearnet_resolver: kept_resolver, .. } => kept
                == clearnet && kept_resolver == clearnet_resolver && (event is I2pStarted
                || event is I2pFailed),
            Startup::Failed { error } => error == StartupError::<E>::OutOfTurn && !(event
                is I2pStarted || event is I2pFailed),
            _ => false,
        },
{
}

/// A startup that has ended, well or badly, is not moved by anything that
/// is reported afterwards.
pub proof fn ended_startup_stays<C, I, S, E>(
    state: Startup<C, I, S, E>,
    events: Seq<Event<C, I, S, E>>,
)
    requires
        state is Running || state is Failed,
    ensures
        run(state, events) == state,
    decreases events.len(),
{
    if events.len() > 0 {
        ended_startup_stays(next_state(state, events[0]), events.drop_first());
    }
}

/// Clearnet decides a startup, whatever is reported after it. Where it came
/// up, every state from then on holds the interface and the resolver it came
/// up with, unless the caller went out of turn; where it failed, the startup
/// has failed with its error and stays so.
pub proof fn clearnet_decides_the_startup<C, I, S, E>(
    i2p_enabled: bool,
    events: Seq<Event<C, I, S, E>>,
)
    requires
        events.len() > 0,
    ensures
        ({
            let end = run(Startup::<C, I, S, E>::Configured { i2p_enabled }, events);
            match events[0] {
                Event::ClearnetStarted { clearnet, resolver } => match end {
                    Startup::Running { clearnet: kept, clearnet_resolver: kept_resolver, .. } => kept
                        == clearnet && kept_resolver == resolver,
                    Startup::ClearnetRunning { clearnet: kept, clearnet_resolver: kept_resolver } => {
                        &&& kept == clearnet
                        &&& kept_resolver == resolver
                        &&& i2p_enabled
                        &&& events.len() == 1
                    },
                    Startup::Failed { error } => error == StartupError::<E>::OutOfTurn,
                    Startup::Configured { .. } => false,
                },
                Event::ClearnetFailed { error } => end == (Startup::<C, I, S, E>::Failed {
                    error: StartupError::ClearnetFailed(error),
                }),
                _ => end == (Startup::<C, I, S, E>::Failed { error: StartupError::OutOfTurn }),
            }
        }),
{
    let start = Startup::<C, I, S, E>::Configured { i2p_enabled };
    let first = next_state(start, events[0]);
    let rest = events.drop_first();
    assert(run(start, events) == run(first, rest));
    if first is ClearnetRunning {
        if rest.len() > 0 {
            assert(run(first, rest) == run(next_state(first, rest[0]), rest.drop_first()));
            ended_startup_stays(next_state(first, rest[0]), rest.drop_first());
        }
    } else {
        ended_startup_stays(first, rest);
    }
}

/// The zones come up in order: I2P is asked for only once clearnet has
/// come up, and only where it is enabled.
pub proof fn i2p_comes_after_clearnet<C, I, S, E>(
    state: Startup<C, I, S, E>,
    event: Event<C, I, S, E>,
)
    requires
        pending_action(next_state(state, event)) == Action::StartI2p,
    ensures
        state == (Startup::<C, I, S, E>::Configured { i2p_enabled: true }),
        event is ClearnetStarted,
{
}

} // verus!
