//! The registry of observed keys: at most one live consumer per key token.

use crate::channel::{open_channel, send_on};
use tokio::sync::mpsc::{UnboundedReceiver, UnboundedSender};
use vstd::hash_map::StringHashMap;
use vstd::prelude::*;

verus! {

/// Why a key could not be registered.
#[derive(Debug)]
pub enum RegisterError {
    /// The key already has a consumer; the key is handed back.
    AlreadyRegistered(String),
}

/// Why a message did not reach a consumer.
#[derive(Debug)]
pub enum DispatchErrorKind {
    /// The key has a registration, but its consumer is gone.
    SendFailed,
    /// The key has no registration.
    NotFound(String),
}

/// A message that was not delivered, with the reason.
#[derive(Debug)]
pub struct DispatchError<T> {
    /// The message, unchanged.
    pub data: T,
    /// Why it was not delivered.
    pub kind: DispatchErrorKind,
}

/// Maps each observed key token to the producer end of its channel.
///
/// Its view is the set of registered tokens. A registration ends only
/// through `unregister` or `unregister_all`, never because the consumer
/// went away.
#[verifier::reject_recursive_types(T)]
pub struct Registry<T> {
    senders: StringHashMap<UnboundedSender<T>>,
}

impl<T> View for Registry<T> {
    type V = Set<Seq<char>>;

    closed spec fn view(&self) -> Set<Seq<char>> {
        self.senders@.dom()
    }
}

/// Whether `register(key)` succeeds on a registry that holds `keys`: a key
/// has at most one registration.
pub open spec fn register_succeeds(keys: Set<Seq<char>>, key: Seq<char>) -> bool {
    !keys.contains(key)
}

/// What a registry that held `keys` holds after `register(key)`, accepted
/// or not.
pub open spec fn after_register(keys: Set<Seq<char>>, key: Seq<char>) -> Set<Seq<char>> {
    keys.insert(key)
}

/// What a registry that held `keys` holds after `unregister(key)`.
pub open spec fn after_unregister(keys: Set<Seq<char>>, key: Seq<char>) -> Set<Seq<char>> {
    keys.remove(key)
}

/// What `dispatch` reports for a registered key, given how the send went.
pub open spec fn delivery_of<T>(sent: Result<(), T>) -> Result<(), DispatchError<T>> {
    match sent {
        Ok(()) => Ok(()),
        Err(message) => Err(DispatchError { data: message, kind: DispatchErrorKind::SendFailed }),
    }
}

/// Turns the outcome of a send to a registered consumer into the outcome
/// of the dispatch.
pub fn delivery_outcome<T>(sent: Result<(), T>) -> (r: Result<(), DispatchError<T>>)
    ensures
        r == delivery_of(sent),
{
    match sent {
        Ok(()) => Ok(()),
        Err(message) => Err(DispatchError { data: message, kind: DispatchErrorKind::SendFailed }),
    }
}

impl<T> Registry<T> {
    /// Whether a token has a registration.
    pub open spec fn is_registered(&self, key: Seq<char>) -> bool {
        self@.contains(key)
    }

    /// A registry without registrations.
    pub fn new() -> (r: Self)
        ensures
            r@ == Set::<Seq<char>>::empty(),
    {
        let r = Registry { senders: StringHashMap::new() };
        assert(r@ =~= Set::<Seq<char>>::empty());
        r
    }

    /// Whether `key` has a registration.
    pub fn contains(&self, key: &str) -> (b: bool)
        ensures
            b == self.is_registered(key@),
    {
        self.senders.contains_key(key)
    }

    /// Whether no key is registered.
    pub fn is_empty(&self) -> (b: bool)
        ensures
            b == (self@ == Set::<Seq<char>>::empty()),
    {
        let b = self.senders.is_empty();
        proof {
            if b {
                assert(self@ =~= Set::<Seq<char>>::empty());
            }
        }
        b
    }

    /// Registers `key` and returns the consumer end of its new channel.
    /// A key that is registered already is refused and handed back, and
    /// nothing changes.
    pub fn register(&mut self, key: String) -> (r: Result<UnboundedReceiver<T>, RegisterError>)
        ensures
            r.is_ok() == register_succeeds(old(self)@, key@),
            r.is_err() ==> r == Err::<UnboundedReceiver<T>, RegisterError>(
                RegisterError::AlreadyRegistered(key),
            ),
            final(self)@ == after_register(old(self)@, key@),
    {
        if self.senders.contains_key(key.as_str()) {
            assert(self@ =~= old(self)@.insert(key@));
            return Err(RegisterError::AlreadyRegistered(key));
        }
        let (sender, receiver) = open_channel();
        self.senders.insert(key, sender);
        assert(self@ =~= old(self)@.insert(key@));
        Ok(receiver)
    }

    /// Ends the registration of `key`, which closes the producer end of its
    /// channel. Returns whether there was one.
    pub fn unregister(&mut self, key: &str) -> (removed: bool)
        ensures
            removed == old(self).is_registered(key@),
            final(self)@ == after_unregister(old(self)@, key@),
    {
        let removed = self.senders.contains_key(key);
        self.senders.remove(key);
        assert(self@ =~= old(self)@.remove(key@));
        removed
    }

    /// Ends every registration, which closes every producer end.
    pub fn unregister_all(&mut self)
        ensures
            final(self)@ == Set::<Seq<char>>::empty(),
    {
        self.senders.clear();
        assert(self@ =~= Set::<Seq<char>>::empty());
    }

    /// Sends `message` to the consumer registered for `key`. The registry
    /// itself never changes. An unregistered key gives `NotFound` with the
    /// key; a registered one gives what `delivery_of` says of the send.
    pub fn dispatch(&self, key: &str, message: T) -> (r: Result<(), DispatchError<T>>)
        ensures
            if self.is_registered(key@) {
                r == delivery_of::<T>(Ok(())) || r == delivery_of(Err::<(), T>(message))
            } else {
                &&& r matches Err(e)
                &&& e.data == message
                &&& e.kind matches DispatchErrorKind::NotFound(k)
                &&& k@ == key@
            },
    {
        match self.senders.get(key) {
            Some(sender) => delivery_outcome(send_on(sender, message)),
            None => Err(
                DispatchError { data: message, kind: DispatchErrorKind::NotFound(key.to_owned()) },
            ),
        }
    }
}

/// Registering a key twice without unregistering it in between fails the
/// second time, whatever the registry held before; with an `unregister` of
/// the key in between, the second registration succeeds.
pub proof fn register_again(keys: Set<Seq<char>>, key: Seq<char>)
    ensures
        !register_succeeds(after_register(keys, key), key),
        register_succeeds(after_unregister(after_register(keys, key), key), key),
{
}

/// A registration concerns one key only: registering or unregistering a
/// key leaves every other key as it was.
pub proof fn other_keys_are_untouched(keys: Set<Seq<char>>, key: Seq<char>, other: Seq<char>)
    requires
        other != key,
    ensures
        after_register(keys, key).contains(other) == keys.contains(other),
        after_unregister(keys, key).contains(other) == keys.contains(other),
{
}

} // verus!
