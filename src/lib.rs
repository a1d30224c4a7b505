//! A thread-safe client for remote JMX servers.
//!
//! The core of the crate is a worker that owns at most one live connection and
//! serves, one at a time, the requests that caller threads send to it over a
//! channel. Callers hold an `MBeanThreadedClient`; the thread that runs the
//! worker calls `MBeanThreadWorker::serve_next` until it gives `false`.
use vstd::prelude::*;

pub mod address;
pub mod channel;
pub mod client;
pub mod error;
pub mod info;
pub mod options;
pub mod protocol;
pub mod value;
pub mod worker;

pub use address::MBeanAddress;
pub use client::MBeanThreadedClient;
pub use error::{Error, ErrorKind};
pub use info::{MBeanAttribute, MBeanInfo};
pub use options::MBeanThreadedClientOptions;
pub use protocol::{Message, Reply, Request};
pub use value::{FromValue, Value};
pub use worker::{MBeanClientTrait, MBeanConnector, MBeanThreadWorker};

verus! {

/// Short form for the results of this crate's operations.
pub type Result<T> = core::result::Result<T, Error>;

} // verus!
