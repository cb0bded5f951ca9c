//! Sans-I/O core of a client for a remote key-value state store.
//!
//! The crate holds the decisions of such a client: which requests are valid,
//! what each service response means for the operation that asked, which
//! consumer a change notification belongs to, and how the set of observed
//! keys evolves under connection loss and shutdown. Transport calls and
//! waiting are left to the caller.

pub mod channel;
pub mod client;
pub mod hex;
pub mod model;
pub mod registry;
pub mod routing;

pub use crate::channel::Polled;
pub use crate::client::{Client, ClientOptions, ClientOptionsBuilder, KeyObservation, Lifecycle};
pub use crate::model::{Error, ErrorKind, Response, SetOptions, Timeout};
pub use crate::registry::Registry;
pub use crate::routing::RoutingLoop;
