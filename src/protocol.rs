//! The requests that caller threads send to the worker, and its replies.
use vstd::prelude::*;
use crossbeam_channel::Sender;
use crate::address::MBeanAddress;
use crate::error::{is_plain_error, Error, ErrorKind};
use crate::info::MBeanInfo;
use crate::options::MBeanThreadedClientOptions;
use crate::value::Value;

verus! {

/// An operation for the worker to perform.
pub enum Request {
    /// Read attribute (mbean, attribute).
    GetAttribute(String, String),
    /// Read the metadata of an MBean.
    GetMBeanInfo(String),
    /// List the names of the MBeans that match (name, query).
    QueryNames(String, String),
    /// Replace the connection by one to the address, or drop it where the
    /// options skip connecting.
    Reconnect(MBeanAddress, MBeanThreadedClientOptions),
}

/// The worker's answer to one request.
pub enum Reply {
    Attribute(Result<Value, Error>),
    Info(Result<MBeanInfo, Error>),
    Names(Result<Vec<String>, Error>),
    Reconnected(Result<(), Error>),
}

/// What travels on the worker's channel: a request with the channel for its
/// reply, or the order to stop.
pub enum Message {
    Call(Request, Sender<Reply>),
    Quit,
}

/// `reply` is of the kind that answers `request`.
pub open spec fn answers(request: Request, reply: Reply) -> bool {
    match request {
        Request::GetAttribute(..) => reply is Attribute,
        Request::GetMBeanInfo(..) => reply is Info,
        Request::QueryNames(..) => reply is Names,
        Request::Reconnect(..) => reply is Reconnected,
    }
}

/// The error that `reply` carries, if it carries one.
pub open spec fn reply_error(reply: Reply) -> Option<Error> {
    match reply {
        Reply::Attribute(Err(e)) => Some(e),
        Reply::Info(Err(e)) => Some(e),
        Reply::Names(Err(e)) => Some(e),
        Reply::Reconnected(Err(e)) => Some(e),
        _ => None,
    }
}

/// `reply` reports that no connection is installed.
pub open spec fn is_not_connected(reply: Reply) -> bool {
    match reply_error(reply) {
        Some(e) => is_plain_error(e, ErrorKind::NotConnected),
        None => false,
    }
}

/// The error that `reply` leaves to the caller of a typed accessor: a reply
/// of another kind than the accessor expects counts as no response.
pub open spec fn unexpected_reply(e: Error) -> bool {
    is_plain_error(e, ErrorKind::WorkerNoResponse)
}

impl Request {
    /// A reconnection to `address` with the default options: it connects.
    pub fn reconnect_default(address: MBeanAddress) -> (r: Request)
        ensures
            r == Request::Reconnect(address, MBeanThreadedClientOptions { reqs_buffer: None, skip_connect: false }),
    {
        Request::Reconnect(address, MBeanThreadedClientOptions::default())
    }
}

/// The message that asks the worker for `request` and has the reply sent on
/// `reply_to`.
pub fn call_message(request: Request, reply_to: Sender<Reply>) -> (m: Message)
    ensures
        m == Message::Call(request, reply_to),
{
    Message::Call(request, reply_to)
}

impl Reply {
    /// The result of an attribute read.
    pub fn into_attribute(self) -> (r: Result<Value, Error>)
        ensures
            self matches Reply::Attribute(x) ==> r == x,
            !(self is Attribute) ==> (r matches Err(e) && unexpected_reply(e)),
    {
        match self {
            Reply::Attribute(x) => x,
            _ => Err(Error::new(ErrorKind::WorkerNoResponse)),
        }
    }

    /// The result of a metadata read.
    pub fn into_info(self) -> (r: Result<MBeanInfo, Error>)
        ensures
            self matches Reply::Info(x) ==> r == x,
            !(self is Info) ==> (r matches Err(e) && unexpected_reply(e)),
    {
        match self {
            Reply::Info(x) => x,
            _ => Err(Error::new(ErrorKind::WorkerNoResponse)),
        }
    }

    /// The result of a name query.
    pub fn into_names(self) -> (r: Result<Vec<String>, Error>)
        ensures
            self matches Reply::Names(x) ==> r == x,
            !(self is Names) ==> (r matches Err(e) && unexpected_reply(e)),
    {
        match self {
            Reply::Names(x) => x,
            _ => Err(Error::new(ErrorKind::WorkerNoResponse)),
        }
    }

    /// The result of a reconnection.
    pub fn into_reconnected(self) -> (r: Result<(), Error>)
        ensures
            self matches Reply::Reconnected(x) ==> r == x,
            !(self is Reconnected) ==> (r matches Err(e) && unexpected_reply(e)),
    {
        match self {
            Reply::Reconnected(x) => x,
            _ => Err(Error::new(ErrorKind::WorkerNoResponse)),
        }
    }
}

} // verus!
