//! The client: validation and shaping of requests, the meaning of each
//! response, and the keys under observation.

use crate::channel::{poll_channel, Polled};
use crate::hex::{encode_key, hex_upper, hex_upper_injective};
use crate::model::{
    Error, ErrorKind, InvokeReply, KeyNotification, KeyNotifyOptions, LogicalClock,
    PendingRequest, Request, Response, ServiceResponse, SetOptions, Timeout, TransportError,
    MAX_TIMEOUT_SECS,
};
use crate::registry::Registry;
use crate::routing::{LoopAction, LoopEvent, RoutingLoop};
use tokio::sync::mpsc::UnboundedReceiver;
use vstd::prelude::*;

verus! {

/// The options of a client.
#[derive(Clone, Copy, Debug, PartialEq, Eq)]
pub struct ClientOptions {
    key_notification_auto_ack: bool,
}

impl ClientOptions {
    /// Whether key notifications are acknowledged without the caller.
    pub closed spec fn auto_ack(&self) -> bool {
        self.key_notification_auto_ack
    }

    /// Whether key notifications are acknowledged without the caller.
    pub fn key_notification_auto_ack(&self) -> (b: bool)
        ensures
            b == self.auto_ack(),
    {
        self.key_notification_auto_ack
    }
}

/// Why options could not be built. The one option there is has a default,
/// so `build` gives neither of these.
#[derive(Clone, Debug, PartialEq, Eq)]
#[non_exhaustive]
pub enum ClientOptionsBuilderError {
    /// A field without a default was not set.
    UninitializedField(String),
    /// The values set do not go together.
    ValidationError(String),
}

/// Collects the options of a client; what is not set takes its default.
#[derive(Clone, Copy, Debug, PartialEq, Eq)]
pub struct ClientOptionsBuilder {
    key_notification_auto_ack: Option<bool>,
}

impl Default for ClientOptionsBuilder {
    fn default() -> (b: ClientOptionsBuilder)
        ensures
            b.chosen_auto_ack().is_none(),
    {
        ClientOptionsBuilder { key_notification_auto_ack: None }
    }
}

impl ClientOptionsBuilder {
    /// What was set for automatic acknowledgment, if anything.
    pub closed spec fn chosen_auto_ack(&self) -> Option<bool> {
        self.key_notification_auto_ack
    }

    /// Sets whether key notifications are acknowledged without the caller.
    pub fn key_notification_auto_ack(&mut self, value: bool) -> (b: &mut Self)
        ensures
            b.chosen_auto_ack() == Some(value),
            *final(self) == *final(b),
    {
        self.key_notification_auto_ack = Some(value);
        self
    }

    /// The options: automatic acknowledgment as set, and on where it was
    /// not set.
    pub fn build(&self) -> (r: Result<ClientOptions, ClientOptionsBuilderError>)
        ensures
            r.is_ok(),
            r.unwrap().auto_ack() == match self.chosen_auto_ack() {
                Some(value) => value,
                None => true,
            },
    {
        let value = match self.key_notification_auto_ack {
            Some(value) => value,
            None => true,
        };
        Ok(ClientOptions { key_notification_auto_ack: value })
    }
}

/// The consumer end of one key's observation.
#[derive(Debug)]
#[verifier::reject_recursive_types(A)]
pub struct KeyObservation<A> {
    /// The observed key.
    pub key: Vec<u8>,
    receiver: UnboundedReceiver<(KeyNotification, Option<A>)>,
}

impl<A> KeyObservation<A> {
    /// The observed key.
    pub closed spec fn observed_key(&self) -> Vec<u8> {
        self.key
    }

    /// The observed key.
    pub fn key(&self) -> (k: &Vec<u8>)
        ensures
            *k == self.observed_key(),
    {
        &self.key
    }

    /// Takes the oldest notification that is waiting, without waiting for
    /// one. `Closed` says that the observation has ended.
    pub fn try_recv_notification(&mut self) -> (found: Polled<(KeyNotification, Option<A>)>)
        ensures
            final(self).observed_key() == old(self).observed_key(),
    {
        poll_channel(&mut self.receiver)
    }

    /// Gives up the handle for its parts, for a caller that waits on the
    /// channel itself.
    pub fn into_parts(self) -> (parts: (Vec<u8>, UnboundedReceiver<(KeyNotification, Option<A>)>))
        ensures
            parts.0 == self.observed_key(),
    {
        (self.key, self.receiver)
    }
}

/// Where a client stands between construction and the end.
#[derive(Clone, Copy, Debug, PartialEq, Eq)]
pub enum Lifecycle {
    /// Commands and notifications flow.
    Running,
    /// Shutdown was asked for and is not yet confirmed.
    ShuttingDown,
    /// The transport confirmed the shutdown.
    Shutdown,
}

impl Lifecycle {
    /// The position of a state in the only order in which states follow
    /// one another.
    pub open spec fn rank(&self) -> int {
        match self {
            Lifecycle::Running => 0,
            Lifecycle::ShuttingDown => 1,
            Lifecycle::Shutdown => 2,
        }
    }
}

/// The message with which an empty key is refused.
pub open spec fn empty_key_message() -> Seq<char> {
    "key is empty"@
}

/// The message with which a timeout of zero is refused.
pub open spec fn zero_timeout_message() -> Seq<char> {
    "timeout must not be zero"@
}

/// The message with which a timeout beyond the largest one is refused.
pub open spec fn long_timeout_message() -> Seq<char> {
    "timeout in seconds must fit in 32 bits"@
}

/// What is wrong with the arguments of an operation, if anything: the key
/// is looked at first, then the timeout.
pub open spec fn argument_fault(key: Seq<u8>, timeout: Timeout) -> Option<Seq<char>> {
    if key.len() == 0 {
        Some(empty_key_message())
    } else if timeout.whole_secs() == 0 {
        Some(zero_timeout_message())
    } else if timeout.whole_secs() > MAX_TIMEOUT_SECS {
        Some(long_timeout_message())
    } else {
        None
    }
}

/// An empty key is refused whatever the timeout.
pub proof fn empty_key_is_refused(key: Seq<u8>, timeout: Timeout)
    requires
        key.len() == 0,
    ensures
        argument_fault(key, timeout) == Some(empty_key_message()),
{
}

/// A timeout of zero, or one that rounded up to whole seconds is above
/// `MAX_TIMEOUT_SECS`, is refused whatever the key; every other timeout is
/// accepted with a key that is not empty.
pub proof fn bad_timeout_is_refused(key: Seq<u8>, timeout: Timeout)
    ensures
        timeout.whole_secs() <= 0 || timeout.whole_secs() > MAX_TIMEOUT_SECS
            ==> argument_fault(key, timeout).is_some(),
        timeout.secs == 0 && timeout.subsec_nanos == 0 ==> argument_fault(key, timeout).is_some(),
        argument_fault(key, timeout).is_none() <==> key.len() > 0 && timeout.is_encodable(),
{
}

/// Whether `r` refuses an argument with the message `message`.
pub open spec fn refuses<T>(r: Result<T, Error>, message: Seq<char>) -> bool {
    r matches Err(Error(ErrorKind::InvalidArgument(m))) && m@ == message
}

/// Checks the arguments that every operation has, before anything is sent.
/// Returns the timeout that the request will carry.
pub fn check_arguments(key: &Vec<u8>, timeout: Timeout) -> (r: Result<Timeout, Error>)
    ensures
        match argument_fault(key@, timeout) {
            None => r == Ok::<Timeout, Error>(timeout.rounded_up()),
            Some(message) => refuses(r, message),
        },
{
    if key.len() == 0 {
        return Err(Error(ErrorKind::InvalidArgument("key is empty".to_owned())));
    }
    match timeout.encode() {
        Some(rounded) => Ok(rounded),
        None => {
            if timeout.secs == 0 && timeout.subsec_nanos == 0 {
                Err(Error(ErrorKind::InvalidArgument("timeout must not be zero".to_owned())))
            } else {
                Err(
                    Error(
                        ErrorKind::InvalidArgument(
                            "timeout in seconds must fit in 32 bits".to_owned(),
                        ),
                    ),
                )
            }
        },
    }
}

/// What a response means for an operation whose expected answers are given
/// by `expected`: a transport failure and a failure that the service
/// reports are passed on; an expected answer becomes the result, with the
/// version that came with it; any other answer is an unexpected payload.
pub open spec fn outcome<T>(
    reply: Result<InvokeReply, TransportError>,
    expected: spec_fn(ServiceResponse) -> Option<T>,
) -> Result<Response<T>, Error> {
    match reply {
        Err(e) => Err(Error(ErrorKind::TransportError(e))),
        Ok(answer) => match answer.payload {
            ServiceResponse::Error(bytes) => Err(Error(ErrorKind::ServiceError(bytes))),
            payload => match expected(payload) {
                Some(value) => Ok(Response { response: value, version: answer.timestamp }),
                None => Err(Error(ErrorKind::UnexpectedPayload(payload))),
            },
        },
    }
}

/// The answers that a `set` expects.
pub open spec fn set_result(payload: ServiceResponse) -> Option<bool> {
    match payload {
        ServiceResponse::NotApplied => Some(false),
        ServiceResponse::Done => Some(true),
        _ => None,
    }
}

/// The answers that a `get` expects.
pub open spec fn get_result(payload: ServiceResponse) -> Option<Option<Vec<u8>>> {
    match payload {
        ServiceResponse::Value(value) => Some(Some(value)),
        ServiceResponse::NotFound => Some(None),
        _ => None,
    }
}

/// The answers that a `del` expects.
pub open spec fn del_result(payload: ServiceResponse) -> Option<i64> {
    match payload {
        ServiceResponse::NotFound => Some(0i64),
        ServiceResponse::ValuesDeleted(n) => Some(n),
        _ => None,
    }
}

/// The answers that a `vdel` expects.
pub open spec fn vdel_result(payload: ServiceResponse) -> Option<i64> {
    match payload {
        ServiceResponse::NotFound => Some(0i64),
        ServiceResponse::NotApplied => Some(-1i64),
        ServiceResponse::ValuesDeleted(n) => Some(n),
        _ => None,
    }
}

/// The answers that an `observe` expects.
pub open spec fn observe_result(payload: ServiceResponse) -> Option<()> {
    match payload {
        ServiceResponse::Done => Some(()),
        _ => None,
    }
}

/// The answers that an `unobserve` expects.
pub open spec fn unobserve_result(payload: ServiceResponse) -> Option<bool> {
    match payload {
        ServiceResponse::Done => Some(true),
        ServiceResponse::NotFound => Some(false),
        _ => None,
    }
}

/// What the response to a `set` means.
pub fn set_response(reply: Result<InvokeReply, TransportError>) -> (r: Result<
    Response<bool>,
    Error,
>)
    ensures
        r == outcome(reply, |p: ServiceResponse| set_result(p)),
{
    match reply {
        Err(e) => Err(Error(ErrorKind::TransportError(e))),
        Ok(InvokeReply { payload, timestamp }) => match payload {
            ServiceResponse::Error(bytes) => Err(Error(ErrorKind::ServiceError(bytes))),
            ServiceResponse::NotApplied => Ok(Response { response: false, version: timestamp }),
            ServiceResponse::Done => Ok(Response { response: true, version: timestamp }),
            other => Err(Error(ErrorKind::UnexpectedPayload(other))),
        },
    }
}

/// What the response to a `get` means.
pub fn get_response(reply: Result<InvokeReply, TransportError>) -> (r: Result<
    Response<Option<Vec<u8>>>,
    Error,
>)
    ensures
        r == outcome(reply, |p: ServiceResponse| get_result(p)),
{
    match reply {
        Err(e) => Err(Error(ErrorKind::TransportError(e))),
        Ok(InvokeReply { payload, timestamp }) => match payload {
            ServiceResponse::Error(bytes) => Err(Error(ErrorKind::ServiceError(bytes))),
            ServiceResponse::Value(value) => Ok(
                Response { response: Some(value), version: timestamp },
            ),
            ServiceResponse::NotFound => Ok(Response { response: None, version: timestamp }),
            other => Err(Error(ErrorKind::UnexpectedPayload(other))),
        },
    }
}

/// What the response to a `del` means: how many values were deleted.
pub fn del_response(reply: Result<InvokeReply, TransportError>) -> (r: Result<
    Response<i64>,
    Error,
>)
    ensures
        r == outcome(reply, |p: ServiceResponse| del_result(p)),
{
    match reply {
        Err(e) => Err(Error(ErrorKind::TransportError(e))),
        Ok(InvokeReply { payload, timestamp }) => match payload {
            ServiceResponse::Error(bytes) => Err(Error(ErrorKind::ServiceError(bytes))),
            ServiceResponse::NotFound => Ok(Response { response: 0, version: timestamp }),
            ServiceResponse::ValuesDeleted(n) => Ok(Response { response: n, version: timestamp }),
            other => Err(Error(ErrorKind::UnexpectedPayload(other))),
        },
    }
}

/// What the response to a `vdel` means: how many values were deleted, or
/// -1 where the stored value was another.
pub fn vdel_response(reply: Result<InvokeReply, TransportError>) -> (r: Result<
    Response<i64>,
    Error,
>)
    ensures
        r == outcome(reply, |p: ServiceResponse| vdel_result(p)),
{
    match reply {
        Err(e) => Err(Error(ErrorKind::TransportError(e))),
        Ok(InvokeReply { payload, timestamp }) => match payload {
            ServiceResponse::Error(bytes) => Err(Error(ErrorKind::ServiceError(bytes))),
            ServiceResponse::NotFound => Ok(Response { response: 0, version: timestamp }),
            ServiceResponse::NotApplied => Ok(Response { response: -1, version: timestamp }),
            ServiceResponse::ValuesDeleted(n) => Ok(Response { response: n, version: timestamp }),
            other => Err(Error(ErrorKind::UnexpectedPayload(other))),
        },
    }
}

/// What the response to the request of an `observe` means.
pub fn observe_reply(reply: Result<InvokeReply, TransportError>) -> (r: Result<
    Response<()>,
    Error,
>)
    ensures
        r == outcome(reply, |p: ServiceResponse| observe_result(p)),
{
    match reply {
        Err(e) => Err(Error(ErrorKind::TransportError(e))),
        Ok(InvokeReply { payload, timestamp }) => match payload {
            ServiceResponse::Error(bytes) => Err(Error(ErrorKind::ServiceError(bytes))),
            ServiceResponse::Done => Ok(Response { response: (), version: timestamp }),
            other => Err(Error(ErrorKind::UnexpectedPayload(other))),
        },
    }
}

/// What the response to the request of an `unobserve` means.
pub fn unobserve_reply(reply: Result<InvokeReply, TransportError>) -> (r: Result<
    Response<bool>,
    Error,
>)
    ensures
        r == outcome(reply, |p: ServiceResponse| unobserve_result(p)),
{
    match reply {
        Err(e) => Err(Error(ErrorKind::TransportError(e))),
        Ok(InvokeReply { payload, timestamp }) => match payload {
            ServiceResponse::Error(bytes) => Err(Error(ErrorKind::ServiceError(bytes))),
            ServiceResponse::Done => Ok(Response { response: true, version: timestamp }),
            ServiceResponse::NotFound => Ok(Response { response: false, version: timestamp }),
            other => Err(Error(ErrorKind::UnexpectedPayload(other))),
        },
    }
}

/// The request that starts (`stop` false) or stops (`stop` true) the
/// notifications for `key`.
pub open spec fn is_key_notify(request: PendingRequest, key: Seq<u8>, stop: bool, timeout: Timeout) -> bool {
    &&& request.payload matches Request::KeyNotify { key: k, options }
    &&& k@ == key
    &&& options.stop == stop
    &&& request.fencing_token.is_none()
    &&& request.timeout == timeout.rounded_up()
}

/// Whether `key` is under observation where the tokens in `observed` are.
pub open spec fn is_duplicate(observed: Set<Seq<char>>, key: Seq<u8>) -> bool {
    observed.contains(hex_upper(key))
}

/// The tokens under observation once `key` is.
pub open spec fn with_key(observed: Set<Seq<char>>, key: Seq<u8>) -> Set<Seq<char>> {
    observed.insert(hex_upper(key))
}

/// The tokens under observation once `key` is no more.
pub open spec fn without_key(observed: Set<Seq<char>>, key: Seq<u8>) -> Set<Seq<char>> {
    observed.remove(hex_upper(key))
}

/// An observation that failed at the transport or the service is undone:
/// the key is not under observation afterwards, so the next `observe` of it
/// is no duplicate. The same holds after an `unobserve` that was answered
/// as expected.
pub proof fn failed_observe_can_be_repeated(observed: Set<Seq<char>>, key: Seq<u8>)
    ensures
        !is_duplicate(without_key(with_key(observed, key), key), key),
        !is_duplicate(without_key(observed, key), key),
{
}

/// While a key is under observation a second `observe` of it is a
/// duplicate, and only of it: another key is a duplicate after it exactly
/// if it was one before.
pub proof fn one_observation_per_key(observed: Set<Seq<char>>, key: Seq<u8>, other: Seq<u8>)
    ensures
        is_duplicate(with_key(observed, key), key),
        other != key ==> is_duplicate(with_key(observed, key), other) == is_duplicate(
            observed,
            other,
        ),
        other != key ==> is_duplicate(without_key(observed, key), other) == is_duplicate(
            observed,
            other,
        ),
{
    if other != key {
        if hex_upper(other) == hex_upper(key) {
            hex_upper_injective(other, key);
        }
    }
}

/// After a disconnect, and after the end of the inbound stream, no key is
/// a duplicate: every key can be observed afresh.
pub proof fn observe_succeeds_after_connection_loss<A>(
    routing: RoutingLoop,
    observed: Set<Seq<char>>,
    key: Seq<u8>,
)
    requires
        !routing.terminated,
    ensures
        !is_duplicate(routing.next_keys(observed, LoopEvent::<A>::Disconnected), key),
        !is_duplicate(routing.next_keys(observed, LoopEvent::<A>::StreamEnded), key),
{
}

/// A client of the state store, without its transport.
///
/// Each operation comes in two halves: the first checks the arguments and
/// returns the request to invoke, the second takes what the transport
/// returned and gives the operation's result.
#[verifier::reject_recursive_types(A)]
pub struct Client<A> {
    observers: Registry<(KeyNotification, Option<A>)>,
    options: ClientOptions,
    lifecycle: Lifecycle,
}

impl<A> Client<A> {
    /// The tokens of the keys under observation.
    pub closed spec fn observed(&self) -> Set<Seq<char>> {
        self.observers@
    }

    /// Where the client stands.
    pub closed spec fn lifecycle(&self) -> Lifecycle {
        self.lifecycle
    }

    /// The options that the client was made with.
    pub closed spec fn options(&self) -> ClientOptions {
        self.options
    }

    /// A running client that observes nothing.
    pub fn new(options: ClientOptions) -> (c: Self)
        ensures
            c.observed() == Set::<Seq<char>>::empty(),
            c.lifecycle() == Lifecycle::Running,
            c.options() == options,
    {
        Client { observers: Registry::new(), options, lifecycle: Lifecycle::Running }
    }

    /// Whether `key` is under observation.
    pub fn is_observed(&self, key: &[u8]) -> (b: bool)
        ensures
            b == is_duplicate(self.observed(), key@),
    {
        let token = encode_key(key);
        self.observers.contains(token.as_str())
    }

    /// Whether no key is under observation.
    pub fn observes_nothing(&self) -> (b: bool)
        ensures
            b == (self.observed() == Set::<Seq<char>>::empty()),
    {
        self.observers.is_empty()
    }

    /// Where the client stands.
    pub fn state(&self) -> (s: Lifecycle)
        ensures
            s == self.lifecycle(),
    {
        self.lifecycle
    }

    /// Whether notifications are to be subscribed to with automatic
    /// acknowledgment.
    pub fn auto_ack(&self) -> (b: bool)
        ensures
            b == self.options().auto_ack(),
    {
        self.options.key_notification_auto_ack()
    }

    /// The request that stores `value` under `key`, or the refusal of an
    /// empty key or of a timeout that no request can carry.
    pub fn set(
        &self,
        key: Vec<u8>,
        value: Vec<u8>,
        timeout: Timeout,
        fencing_token: Option<LogicalClock>,
        options: SetOptions,
    ) -> (r: Result<PendingRequest, Error>)
        ensures
            match argument_fault(key@, timeout) {
                None => r == Ok::<PendingRequest, Error>(
                    PendingRequest {
                        payload: Request::SetValue { key, value, options },
                        fencing_token,
                        timeout: timeout.rounded_up(),
                    },
                ),
                Some(message) => refuses(r, message),
            },
    {
        let rounded = check_arguments(&key, timeout)?;
        Ok(
            PendingRequest {
                payload: Request::SetValue { key, value, options },
                fencing_token,
                timeout: rounded,
            },
        )
    }

    /// The request that reads the value under `key`, or the refusal of an
    /// empty key or of a timeout that no request can carry.
    pub fn get(&self, key: Vec<u8>, timeout: Timeout) -> (r: Result<PendingRequest, Error>)
        ensures
            match argument_fault(key@, timeout) {
                None => r == Ok::<PendingRequest, Error>(
                    PendingRequest {
                        payload: Request::Get { key },
                        fencing_token: None,
                        timeout: timeout.rounded_up(),
                    },
                ),
                Some(message) => refuses(r, message),
            },
    {
        let rounded = check_arguments(&key, timeout)?;
        Ok(PendingRequest { payload: Request::Get { key }, fencing_token: None, timeout: rounded })
    }

    /// The request that deletes `key`, or the refusal of an empty key or of
    /// a timeout that no request can carry.
    pub fn del(&self, key: Vec<u8>, fencing_token: Option<LogicalClock>, timeout: Timeout) -> (r:
        Result<PendingRequest, Error>)
        ensures
            match argument_fault(key@, timeout) {
                None => r == Ok::<PendingRequest, Error>(
                    PendingRequest {
                        payload: Request::Del { key },
                        fencing_token,
                        timeout: timeout.rounded_up(),
                    },
                ),
                Some(message) => refuses(r, message),
            },
    {
        let rounded = check_arguments(&key, timeout)?;
        Ok(PendingRequest { payload: Request::Del { key }, fencing_token, timeout: rounded })
    }

    /// The request that deletes `key` if it holds `value`, or the refusal of
    /// an empty key or of a timeout that no request can carry.
    pub fn vdel(
        &self,
        key: Vec<u8>,
        value: Vec<u8>,
        fencing_token: Option<LogicalClock>,
        timeout: Timeout,
    ) -> (r: Result<PendingRequest, Error>)
        ensures
            match argument_fault(key@, timeout) {
                None => r == Ok::<PendingRequest, Error>(
                    PendingRequest {
                        payload: Request::VDel { key, value },
                        fencing_token,
                        timeout: timeout.rounded_up(),
                    },
                ),
                Some(message) => refuses(r, message),
            },
    {
        let rounded = check_arguments(&key, timeout)?;
        Ok(
            PendingRequest {
                payload: Request::VDel { key, value },
                fencing_token,
                timeout: rounded,
            },
        )
    }

    /// Starts the observation of `key`: registers the key, so that no
    /// early notification is lost, and returns the request to invoke with
    /// the handle that will receive the notifications.
    ///
    /// Bad arguments are refused first; a key under observation already is
    /// refused as a duplicate. Either way nothing changes and there is
    /// nothing to invoke.
    pub fn observe(&mut self, key: Vec<u8>, timeout: Timeout) -> (r: Result<
        (PendingRequest, KeyObservation<A>),
        Error,
    >)
        ensures
            final(self).lifecycle() == old(self).lifecycle(),
            final(self).options() == old(self).options(),
            match argument_fault(key@, timeout) {
                Some(message) => refuses(r, message) && final(self).observed() == old(self).observed(),
                None => if is_duplicate(old(self).observed(), key@) {
                    &&& r matches Err(Error(ErrorKind::DuplicateObserve))
                    &&& final(self).observed() == old(self).observed()
                } else {
                    &&& r matches Ok(started)
                    &&& is_key_notify(started.0, key@, false, timeout)
                    &&& started.1.observed_key() == key
                    &&& final(self).observed() == with_key(old(self).observed(), key@)
                },
            },
    {
        let rounded = check_arguments(&key, timeout)?;
        let token = encode_key(key.as_slice());
        match self.observers.register(token) {
            Err(_) => Err(Error(ErrorKind::DuplicateObserve)),
            Ok(receiver) => {
                let request_key = key.clone();
                assert(request_key@ =~= key@);
                let request = PendingRequest {
                    payload: Request::KeyNotify {
                        key: request_key,
                        options: KeyNotifyOptions { stop: false },
                    },
                    fencing_token: None,
                    timeout: rounded,
                };
                Ok((request, KeyObservation { key, receiver }))
            },
        }
    }

    /// Ends an `observe` with what the transport returned. Where the
    /// service confirmed, the handle is the result. In every other case
    /// the registration is undone before the failure is passed on, so that
    /// the key can be observed again.
    pub fn observe_response(
        &mut self,
        observation: KeyObservation<A>,
        reply: Result<InvokeReply, TransportError>,
    ) -> (r: Result<Response<KeyObservation<A>>, Error>)
        ensures
            final(self).lifecycle() == old(self).lifecycle(),
            final(self).options() == old(self).options(),
            match outcome(reply, |p: ServiceResponse| observe_result(p)) {
                Ok(confirmed) => {
                    &&& r == Ok::<Response<KeyObservation<A>>, Error>(
                        Response { response: observation, version: confirmed.version },
                    )
                    &&& final(self).observed() == old(self).observed()
                },
                Err(e) => {
                    &&& r == Err::<Response<KeyObservation<A>>, Error>(e)
                    &&& final(self).observed() == without_key(
                        old(self).observed(),
                        observation.observed_key()@,
                    )
                },
            },
    {
        match observe_reply(reply) {
            Ok(confirmed) => Ok(Response { response: observation, version: confirmed.version }),
            Err(e) => {
                let token = encode_key(observation.key.as_slice());
                self.observers.unregister(token.as_str());
                Err(e)
            },
        }
    }

    /// The request that stops the observation of `key`, or the refusal of
    /// an empty key or of a timeout that no request can carry.
    pub fn unobserve(&self, key: Vec<u8>, timeout: Timeout) -> (r: Result<PendingRequest, Error>)
        ensures
            match argument_fault(key@, timeout) {
                None => r == Ok::<PendingRequest, Error>(
                    PendingRequest {
                        payload: Request::KeyNotify {
                            key,
                            options: KeyNotifyOptions { stop: true },
                        },
                        fencing_token: None,
                        timeout: timeout.rounded_up(),
                    },
                ),
                Some(message) => refuses(r, message),
            },
    {
        let rounded = check_arguments(&key, timeout)?;
        Ok(
            PendingRequest {
                payload: Request::KeyNotify { key, options: KeyNotifyOptions { stop: true } },
                fencing_token: None,
                timeout: rounded,
            },
        )
    }

    /// Ends an `unobserve` with what the transport returned. Where the
    /// service answered as expected, whether it knew the key or not, the
    /// local registration is removed; a failure leaves it in place.
    pub fn unobserve_response(&mut self, key: &[u8], reply: Result<InvokeReply, TransportError>) -> (r:
        Result<Response<bool>, Error>)
        ensures
            final(self).lifecycle() == old(self).lifecycle(),
            final(self).options() == old(self).options(),
            r == outcome(reply, |p: ServiceResponse| unobserve_result(p)),
            final(self).observed() == if r.is_ok() {
                without_key(old(self).observed(), key@)
            } else {
                old(self).observed()
            },
    {
        let result = unobserve_reply(reply);
        if result.is_ok() {
            let token = encode_key(key);
            self.observers.unregister(token.as_str());
        }
        result
    }

    /// Begins the shutdown: the caller fires the shutdown signal and asks
    /// the transport to shut the invoker down. Safe to repeat.
    pub fn shutdown(&mut self)
        ensures
            final(self).observed() == old(self).observed(),
            final(self).options() == old(self).options(),
            final(self).lifecycle() == if old(self).lifecycle() == Lifecycle::Shutdown {
                Lifecycle::Shutdown
            } else {
                Lifecycle::ShuttingDown
            },
            final(self).lifecycle().rank() >= old(self).lifecycle().rank(),
    {
        match self.lifecycle {
            Lifecycle::Shutdown => {},
            _ => {
                self.lifecycle = Lifecycle::ShuttingDown;
            },
        }
    }

    /// Ends a `shutdown` with what the invoker's shutdown returned, which
    /// alone decides the result. A failure leaves the client where it was,
    /// and `shutdown` may be tried again.
    pub fn shutdown_response(&mut self, closed: Result<(), TransportError>) -> (r: Result<
        (),
        Error,
    >)
        ensures
            final(self).observed() == old(self).observed(),
            final(self).options() == old(self).options(),
            match closed {
                Ok(()) => r == Ok::<(), Error>(()) && final(self).lifecycle()
                    == Lifecycle::Shutdown,
                Err(e) => r == Err::<(), Error>(Error(ErrorKind::TransportError(e))) && final(self).lifecycle() == old(self).lifecycle(),
            },
            final(self).lifecycle().rank() >= old(self).lifecycle().rank(),
    {
        match closed {
            Ok(()) => {
                self.lifecycle = Lifecycle::Shutdown;
                Ok(())
            },
            Err(e) => Err(Error(ErrorKind::TransportError(e))),
        }
    }

    /// Hands one event of the notification loop to `routing`, with the
    /// client's own registry.
    pub fn route(&mut self, routing: &mut RoutingLoop, event: LoopEvent<A>) -> (action:
        LoopAction)
        requires
            RoutingLoop::accepts(event),
        ensures
            final(self).lifecycle() == old(self).lifecycle(),
            final(self).options() == old(self).options(),
            *final(routing) == old(routing).next(event),
            final(self).observed() == old(routing).next_keys(old(self).observed(), event),
            old(routing).allows(old(self).observed(), event, action),
    {
        routing.step(&mut self.observers, event)
    }
}

} // verus!
