//! The decisions of the loop that drains the inbound notification stream.
//!
//! The loop itself waits and talks to the transport; after each thing that
//! happens it asks `RoutingLoop::step` what to do next.

use crate::hex::{decode_key_token, hex_upper, is_hex_upper};
use crate::model::{KeyNotification, LogicalClock, Operation};
use crate::registry::Registry;
use vstd::prelude::*;

verus! {

/// How often a failed unsubscribe re-arms the shutdown signal.
pub const MAX_SHUTDOWN_RETRIES: u8 = 3;

/// A decoded inbound message, before it is known to be well formed.
#[derive(Clone, Debug, PartialEq, Eq)]
pub struct InboundNotification {
    /// The key token taken from the topic, if the topic had one.
    pub key_token: Option<String>,
    /// What happened to the key.
    pub payload: Operation,
    /// The version of the change, if the message carried one.
    pub timestamp: Option<LogicalClock>,
}

/// What the loop was woken by.
#[derive(Debug)]
pub enum LoopEvent<A> {
    /// The shutdown signal fired.
    ShutdownRequested,
    /// The unsubscribe that `LoopAction::Unsubscribe` asked for has ended.
    UnsubscribeFinished { succeeded: bool },
    /// The connection went from connected to disconnected.
    Disconnected,
    /// The inbound stream has ended for good.
    StreamEnded,
    /// The inbound stream reported an error in place of a message.
    ReceiveFailed,
    /// A message arrived, perhaps with a handle to acknowledge it.
    Received { notification: InboundNotification, ack: Option<A> },
}

/// Why a message was not delivered.
#[derive(Clone, Copy, Debug, PartialEq, Eq)]
pub enum Discard {
    /// The topic had no key token.
    MissingKeyToken,
    /// The message had no version.
    MissingVersion,
    /// Nobody observes the key.
    NotObserved,
    /// The key is observed, but its consumer is gone.
    ConsumerGone,
}

/// What the loop does next.
#[derive(Clone, Copy, Debug, PartialEq, Eq)]
pub enum LoopAction {
    /// Ask the transport to unsubscribe, then report `UnsubscribeFinished`.
    Unsubscribe,
    /// Fire the shutdown signal again, then wait on.
    RearmShutdown,
    /// Wait for the next event.
    Continue,
    /// The message reached its consumer; wait for the next event.
    Delivered,
    /// The message was dropped; wait for the next event.
    Discarded(Discard),
    /// Leave the loop.
    Stop,
}

/// The state that the loop keeps between events.
#[derive(Debug)]
pub struct RoutingLoop {
    /// How often the shutdown signal was re-armed after a failed unsubscribe.
    pub shutdown_attempts: u8,
    /// Whether the inbound stream has ended.
    pub terminated: bool,
}

/// The notification built from a message that has a key token and a version.
pub fn build_notification(token: &str, payload: Operation, version: LogicalClock) -> (n:
    KeyNotification)
    requires
        is_hex_upper(token@),
    ensures
        hex_upper(n.key@) == token@,
        n.operation == payload,
        n.version == version,
{
    let key = decode_key_token(token).unwrap();
    KeyNotification { key, operation: payload, version }
}

impl RoutingLoop {
    /// The state at the start of the loop: nothing attempted, stream open.
    pub fn new() -> (r: RoutingLoop)
        ensures
            r.shutdown_attempts == 0,
            !r.terminated,
    {
        RoutingLoop { shutdown_attempts: 0, terminated: false }
    }

    /// Whether a failure may still re-arm the shutdown signal.
    pub open spec fn may_retry(&self) -> bool {
        self.shutdown_attempts < MAX_SHUTDOWN_RETRIES
    }

    /// The state after an event, which depends on nothing outside it.
    pub open spec fn next<A>(&self, event: LoopEvent<A>) -> RoutingLoop {
        if self.terminated {
            *self
        } else {
            match event {
                LoopEvent::UnsubscribeFinished { succeeded } => if !succeeded && self.may_retry() {
                    RoutingLoop {
                        shutdown_attempts: (self.shutdown_attempts + 1) as u8,
                        terminated: false,
                    }
                } else {
                    *self
                },
                LoopEvent::StreamEnded => RoutingLoop {
                    shutdown_attempts: self.shutdown_attempts,
                    terminated: true,
                },
                _ => *self,
            }
        }
    }

    /// The registered tokens after an event.
    pub open spec fn next_keys<A>(&self, keys: Set<Seq<char>>, event: LoopEvent<A>) -> Set<
        Seq<char>,
    > {
        if self.terminated {
            keys
        } else {
            match event {
                LoopEvent::Disconnected => Set::empty(),
                LoopEvent::StreamEnded => Set::empty(),
                _ => keys,
            }
        }
    }

    /// Whether `action` is one that the loop may take on `event`. On every
    /// event but one exactly one action is allowed; a message for an
    /// observed key is either delivered or, where the consumer is gone,
    /// dropped.
    pub open spec fn allows<A>(
        &self,
        keys: Set<Seq<char>>,
        event: LoopEvent<A>,
        action: LoopAction,
    ) -> bool {
        if self.terminated {
            action == LoopAction::Stop
        } else {
            match event {
                LoopEvent::ShutdownRequested => action == LoopAction::Unsubscribe,
                LoopEvent::UnsubscribeFinished { succeeded } => action == if !succeeded
                    && self.may_retry() {
                    LoopAction::RearmShutdown
                } else {
                    LoopAction::Continue
                },
                LoopEvent::Disconnected => action == LoopAction::Continue,
                LoopEvent::StreamEnded => action == LoopAction::Stop,
                LoopEvent::ReceiveFailed => action == if self.may_retry() {
                    LoopAction::RearmShutdown
                } else {
                    LoopAction::Continue
                },
                LoopEvent::Received { notification, ack } => match notification.key_token {
                    None => action == LoopAction::Discarded(Discard::MissingKeyToken),
                    Some(token) => if notification.timestamp.is_none() {
                        action == LoopAction::Discarded(Discard::MissingVersion)
                    } else if !keys.contains(token@) {
                        action == LoopAction::Discarded(Discard::NotObserved)
                    } else {
                        action == LoopAction::Delivered || action == LoopAction::Discarded(
                            Discard::ConsumerGone,
                        )
                    },
                },
            }
        }
    }

    /// Whether the loop can take `event`: the key token of a message, where
    /// it has one, is upper-case hexadecimal.
    pub open spec fn accepts<A>(event: LoopEvent<A>) -> bool {
        match event {
            LoopEvent::Received { notification, ack } => match notification.key_token {
                Some(token) => is_hex_upper(token@),
                None => true,
            },
            _ => true,
        }
    }

    /// Whether the loop can take `event`.
    pub fn can_take<A>(event: &LoopEvent<A>) -> (b: bool)
        ensures
            b == Self::accepts(*event),
    {
        match event {
            LoopEvent::Received { notification, ack } => match &notification.key_token {
                Some(token) => decode_key_token(token.as_str()).is_some(),
                None => true,
            },
            _ => true,
        }
    }

    /// Takes one event: updates the loop's state and the registry, routes a
    /// message to its consumer, and says what the loop does next.
    pub fn step<A>(
        &mut self,
        registry: &mut Registry<(KeyNotification, Option<A>)>,
        event: LoopEvent<A>,
    ) -> (action: LoopAction)
        requires
            Self::accepts(event),
        ensures
            *final(self) == old(self).next(event),
            final(registry)@ == old(self).next_keys(old(registry)@, event),
            old(self).allows(old(registry)@, event, action),
    {
        if self.terminated {
            return LoopAction::Stop;
        }
        match event {
            LoopEvent::ShutdownRequested => LoopAction::Unsubscribe,
            LoopEvent::UnsubscribeFinished { succeeded } => {
                if !succeeded && self.shutdown_attempts < MAX_SHUTDOWN_RETRIES {
                    self.shutdown_attempts = self.shutdown_attempts + 1;
                    LoopAction::RearmShutdown
                } else {
                    LoopAction::Continue
                }
            },
            LoopEvent::Disconnected => {
                registry.unregister_all();
                LoopAction::Continue
            },
            LoopEvent::StreamEnded => {
                registry.unregister_all();
                self.terminated = true;
                LoopAction::Stop
            },
            LoopEvent::ReceiveFailed => {
                if self.shutdown_attempts < MAX_SHUTDOWN_RETRIES {
                    LoopAction::RearmShutdown
                } else {
                    LoopAction::Continue
                }
            },
            LoopEvent::Received { notification, ack } => {
                let InboundNotification { key_token, payload, timestamp } = notification;
                match key_token {
                    None => LoopAction::Discarded(Discard::MissingKeyToken),
                    Some(token) => match timestamp {
                        None => LoopAction::Discarded(Discard::MissingVersion),
                        Some(version) => {
                            let change = build_notification(token.as_str(), payload, version);
                            let sent = registry.dispatch(token.as_str(), (change, ack));
                            delivery_action(sent)
                        },
                    },
                }
            },
        }
    }
}

/// What the loop reports for a dispatch that ended as `sent`.
pub open spec fn action_of<T>(sent: Result<(), crate::registry::DispatchError<T>>) -> LoopAction {
    match sent {
        Ok(()) => LoopAction::Delivered,
        Err(e) => match e.kind {
            crate::registry::DispatchErrorKind::SendFailed => LoopAction::Discarded(
                Discard::ConsumerGone,
            ),
            crate::registry::DispatchErrorKind::NotFound(_) => LoopAction::Discarded(
                Discard::NotObserved,
            ),
        },
    }
}

/// Turns the outcome of a dispatch into the loop's action. A failed
/// dispatch never stops the loop.
pub fn delivery_action<T>(sent: Result<(), crate::registry::DispatchError<T>>) -> (action:
    LoopAction)
    ensures
        action == action_of(sent),
{
    match sent {
        Ok(()) => LoopAction::Delivered,
        Err(e) => match e.kind {
            crate::registry::DispatchErrorKind::SendFailed => LoopAction::Discarded(
                Discard::ConsumerGone,
            ),
            crate::registry::DispatchErrorKind::NotFound(_) => LoopAction::Discarded(
                Discard::NotObserved,
            ),
        },
    }
}

/// Once the inbound stream has ended the loop is over: no event changes
/// its state or the registry, and the only action is to stop.
pub proof fn terminated_is_final<A>(
    state: RoutingLoop,
    keys: Set<Seq<char>>,
    event: LoopEvent<A>,
    action: LoopAction,
)
    requires
        state.terminated,
    ensures
        state.next(event) == state,
        state.next_keys(keys, event) == keys,
        state.allows(keys, event, action) <==> action == LoopAction::Stop,
{
}

/// The end of the inbound stream empties the registry and stops the loop,
/// and after it the loop stays stopped whatever comes.
pub proof fn stream_end_terminates<A>(
    state: RoutingLoop,
    keys: Set<Seq<char>>,
    later: LoopEvent<A>,
    action: LoopAction,
)
    requires
        !state.terminated,
    ensures
        state.next(LoopEvent::<A>::StreamEnded).terminated,
        state.next_keys(keys, LoopEvent::<A>::StreamEnded) == Set::<Seq<char>>::empty(),
        state.allows(keys, LoopEvent::<A>::StreamEnded, action) <==> action == LoopAction::Stop,
        state.next(LoopEvent::<A>::StreamEnded).next(later) == state.next(
            LoopEvent::<A>::StreamEnded,
        ),
{
}

/// Only the end of the inbound stream stops a running loop or marks it
/// terminated.
pub proof fn only_stream_end_stops<A>(
    state: RoutingLoop,
    keys: Set<Seq<char>>,
    event: LoopEvent<A>,
    action: LoopAction,
)
    requires
        !state.terminated,
        state.allows(keys, event, action),
    ensures
        action == LoopAction::Stop <==> event is StreamEnded,
        state.next(event).terminated <==> event is StreamEnded,
{
}

/// A disconnect forgets every observed key and leaves the loop running
/// with its retry count unchanged.
pub proof fn disconnect_forgets_every_key<A>(state: RoutingLoop, keys: Set<Seq<char>>, key: Seq<char>)
    requires
        !state.terminated,
    ensures
        !state.next_keys(keys, LoopEvent::<A>::Disconnected).contains(key),
        state.next(LoopEvent::<A>::Disconnected) == state,
        state.allows(keys, LoopEvent::<A>::Disconnected, LoopAction::Continue),
{
}

/// The shutdown signal is re-armed after a failed unsubscribe at most
/// `MAX_SHUTDOWN_RETRIES` times: the count never falls, never passes the
/// limit, rises by one exactly when a failed unsubscribe re-arms the
/// signal, and at the limit nothing re-arms it.
pub proof fn retries_are_bounded<A>(
    state: RoutingLoop,
    keys: Set<Seq<char>>,
    event: LoopEvent<A>,
    action: LoopAction,
)
    requires
        state.shutdown_attempts <= MAX_SHUTDOWN_RETRIES,
        state.allows(keys, event, action),
    ensures
        state.shutdown_attempts <= state.next(event).shutdown_attempts <= MAX_SHUTDOWN_RETRIES,
        state.next(event).shutdown_attempts == state.shutdown_attempts + 1 <==> action
            == LoopAction::RearmShutdown && event is UnsubscribeFinished,
        state.shutdown_attempts == MAX_SHUTDOWN_RETRIES ==> action != LoopAction::RearmShutdown,
{
}

/// A message never changes the registry or the loop's state, whether it is
/// delivered or dropped.
pub proof fn messages_change_nothing<A>(state: RoutingLoop, keys: Set<Seq<char>>, event: LoopEvent<A>)
    requires
        event is Received || event is ReceiveFailed || event is ShutdownRequested,
    ensures
        state.next(event) == state,
        state.next_keys(keys, event) == keys,
{
}

} // verus!
