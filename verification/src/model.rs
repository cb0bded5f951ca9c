//! The values that travel between a caller, the client and the service.

use vstd::prelude::*;

verus! {

/// The largest number of whole seconds that a request can carry.
pub const MAX_TIMEOUT_SECS: u64 = 4_294_967_295;

/// How long a caller is willing to wait for a response.
#[derive(Clone, Copy, Debug, PartialEq, Eq)]
pub struct Timeout {
    /// Whole seconds.
    pub secs: u64,
    /// The part below one second, in nanoseconds.
    pub subsec_nanos: u32,
}

impl Timeout {
    /// A timeout of whole seconds.
    pub fn from_secs(secs: u64) -> (t: Timeout)
        ensures
            t.secs == secs,
            t.subsec_nanos == 0,
    {
        Timeout { secs, subsec_nanos: 0 }
    }

    /// The timeout in seconds, rounded up to the next whole second.
    pub open spec fn whole_secs(&self) -> int {
        self.secs + (self.subsec_nanos + 999_999_999) / 1_000_000_000
    }

    /// Whether a request can carry this timeout: it is not zero, and
    /// rounded up it is at most `MAX_TIMEOUT_SECS` seconds.
    pub open spec fn is_encodable(&self) -> bool {
        1 <= self.whole_secs() <= MAX_TIMEOUT_SECS
    }

    /// The timeout that a request carries: this one in whole seconds.
    pub open spec fn rounded_up(&self) -> Timeout
        recommends
            self.is_encodable(),
    {
        Timeout { secs: self.whole_secs() as u64, subsec_nanos: 0 }
    }

    /// Rounds up to whole seconds; `None` where no request can carry the
    /// result.
    pub fn encode(&self) -> (r: Option<Timeout>)
        ensures
            self.is_encodable() ==> r == Some(self.rounded_up()),
            !self.is_encodable() ==> r.is_none(),
    {
        if self.secs > MAX_TIMEOUT_SECS {
            return None;
        }
        let carry: u64 = (self.subsec_nanos as u64 + 999_999_999) / 1_000_000_000;
        let whole: u64 = self.secs + carry;
        if whole == 0 || whole > MAX_TIMEOUT_SECS {
            None
        } else {
            Some(Timeout { secs: whole, subsec_nanos: 0 })
        }
    }
}

/// A logical-clock value: the version of a stored value, and the token that
/// fences off stale writers.
#[derive(Clone, Debug, PartialEq, Eq)]
pub struct LogicalClock {
    /// Milliseconds since the epoch.
    pub timestamp_ms: u64,
    /// Orders events within one millisecond.
    pub counter: u64,
    /// The node that issued the value.
    pub node_id: String,
}

/// When a `Set` applies.
#[derive(Clone, Copy, Debug, PartialEq, Eq)]
pub enum SetCondition {
    /// Only if the key has no value.
    OnlyIfDoesNotExist,
    /// Only if the key has no value or the same value.
    OnlyIfEqualOrDoesNotExist,
    /// Always.
    Unconditional,
}

/// The options of a `Set`.
#[derive(Clone, Copy, Debug, PartialEq, Eq)]
pub struct SetOptions {
    /// When the `Set` applies.
    pub set_condition: SetCondition,
    /// After how long the stored value expires, if ever.
    pub expires: Option<Timeout>,
}

impl Default for SetOptions {
    fn default() -> (r: SetOptions)
        ensures
            r == (SetOptions { set_condition: SetCondition::Unconditional, expires: None }),
    {
        SetOptions { set_condition: SetCondition::Unconditional, expires: None }
    }
}

/// The options of a `KeyNotify`.
#[derive(Clone, Copy, Debug, PartialEq, Eq)]
pub struct KeyNotifyOptions {
    /// Whether notifications stop (`true`) or start (`false`).
    pub stop: bool,
}

/// A command for the service.
#[derive(Clone, Debug, PartialEq, Eq)]
#[allow(inconsistent_fields)]
pub enum Request {
    /// Store `value` under `key`.
    SetValue { key: Vec<u8>, value: Vec<u8>, options: SetOptions },
    /// Read the value under `key`.
    Get { key: Vec<u8> },
    /// Delete `key`.
    Del { key: Vec<u8> },
    /// Delete `key` if it holds `value`.
    VDel { key: Vec<u8>, value: Vec<u8> },
    /// Start or stop notifications for `key`.
    KeyNotify { key: Vec<u8>, options: KeyNotifyOptions },
}

/// What the service answers.
#[derive(Clone, Debug, PartialEq, Eq)]
pub enum ServiceResponse {
    /// The command was carried out.
    Done,
    /// The service reports a failure.
    Error(Vec<u8>),
    /// A condition of the command did not hold.
    NotApplied,
    /// The key has no value.
    NotFound,
    /// The value read.
    Value(Vec<u8>),
    /// How many values were deleted.
    ValuesDeleted(i64),
}

/// What happened to an observed key.
#[derive(Clone, Debug, PartialEq, Eq)]
pub enum Operation {
    /// It was set to this value.
    SetValue(Vec<u8>),
    /// It was deleted.
    Del,
}

/// One request on its way to the transport.
#[derive(Clone, Debug, PartialEq, Eq)]
pub struct PendingRequest {
    /// The command.
    pub payload: Request,
    /// Sent along as request metadata where present.
    pub fencing_token: Option<LogicalClock>,
    /// How long the transport waits, in whole seconds.
    pub timeout: Timeout,
}

/// A correlated response as the transport hands it over.
#[derive(Clone, Debug, PartialEq, Eq)]
pub struct InvokeReply {
    /// What the service answered.
    pub payload: ServiceResponse,
    /// The version that the service attached, if any.
    pub timestamp: Option<LogicalClock>,
}

/// The result of an operation, with the version the service gave it.
#[derive(Debug)]
pub struct Response<T> {
    /// The result.
    pub response: T,
    /// The version of the key after the operation, if the service sent one.
    pub version: Option<LogicalClock>,
}

/// A change of an observed key.
#[derive(Clone, Debug, PartialEq, Eq)]
pub struct KeyNotification {
    /// The key, as raw bytes.
    pub key: Vec<u8>,
    /// What happened to it.
    pub operation: Operation,
    /// The version of the change.
    pub version: LogicalClock,
}

/// How an invocation failed below this layer.
#[derive(Clone, Copy, Debug, PartialEq, Eq)]
pub enum TransportErrorKind {
    /// No response came in time.
    Timeout,
    /// A response came that could not be read.
    MalformedResponse,
    /// Any other failure of the protocol.
    Protocol,
}

/// A failure of the transport, surfaced as it is.
#[derive(Clone, Debug, PartialEq, Eq)]
pub struct TransportError {
    /// The kind of failure.
    pub kind: TransportErrorKind,
    /// What the transport said of it.
    pub message: String,
}

/// The kinds of failure of a client operation.
#[derive(Debug)]
pub enum ErrorKind {
    /// The transport failed.
    TransportError(TransportError),
    /// The service reported a failure, with these bytes.
    ServiceError(Vec<u8>),
    /// An argument was refused before anything was sent.
    InvalidArgument(String),
    /// The service answered with something that no such operation expects.
    UnexpectedPayload(ServiceResponse),
    /// The key is being observed already.
    DuplicateObserve,
}

/// A failed client operation.
#[derive(Debug)]
pub struct Error(pub ErrorKind);

impl Error {
    /// The kind of failure.
    pub fn kind(&self) -> (k: &ErrorKind)
        ensures
            *k == self.0,
    {
        &self.0
    }
}

} // verus!
