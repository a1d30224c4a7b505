//! The thread-safe client handle: it turns each call into a request for the
//! worker and waits for the reply.
use vstd::prelude::*;
use crossbeam_channel::{Receiver, Sender};
use crate::address::MBeanAddress;
use crate::channel::{bounded_requests, capacity_fits, recv, request_bound, send, unbounded_requests};
use crate::error::{is_plain_error, Error, ErrorKind};
use crate::info::MBeanInfo;
use crate::options::MBeanThreadedClientOptions;
use crate::protocol::{call_message, Message, Reply, Request};
use crate::value::{FromValue, Value};

verus! {

/// `r` is an error of kind `kind` with no cause.
pub open spec fn fails_with<T>(r: Result<T, Error>, kind: ErrorKind) -> bool {
    r matches Err(e) && is_plain_error(e, kind)
}

/// `r` is `result` decoded into `T`: a value that does not decode gives
/// `WorkerDecode`; an error passes unchanged.
pub open spec fn decoded<T: FromValue>(result: Result<Value, Error>, r: Result<T, Error>) -> bool {
    match result {
        Err(e) => r == Err::<T, Error>(e),
        Ok(v) => match T::decode(v) {
            Some(t) => r == Ok::<T, Error>(t),
            None => fails_with(r, ErrorKind::WorkerDecode),
        },
    }
}

/// The result of a round trip to the worker, given whether the request was
/// sent and the reply received: `WorkerNoSend` where the worker had gone,
/// `WorkerNoResponse` where no reply came, or where one of another kind came.
pub open spec fn attribute_call<T: FromValue>(sent: bool, received: Option<Reply>, r: Result<T, Error>) -> bool {
    if !sent {
        fails_with(r, ErrorKind::WorkerNoSend)
    } else {
        match received {
            Some(Reply::Attribute(result)) => decoded(result, r),
            _ => fails_with(r, ErrorKind::WorkerNoResponse),
        }
    }
}

/// As `attribute_call`, for a metadata read.
pub open spec fn info_call(sent: bool, received: Option<Reply>, r: Result<MBeanInfo, Error>) -> bool {
    if !sent {
        fails_with(r, ErrorKind::WorkerNoSend)
    } else {
        match received {
            Some(Reply::Info(result)) => r == result,
            _ => fails_with(r, ErrorKind::WorkerNoResponse),
        }
    }
}

/// As `attribute_call`, for a name query.
pub open spec fn names_call(sent: bool, received: Option<Reply>, r: Result<Vec<String>, Error>) -> bool {
    if !sent {
        fails_with(r, ErrorKind::WorkerNoSend)
    } else {
        match received {
            Some(Reply::Names(result)) => r == result,
            _ => fails_with(r, ErrorKind::WorkerNoResponse),
        }
    }
}

/// As `attribute_call`, for a reconnection.
pub open spec fn reconnect_call(sent: bool, received: Option<Reply>, r: Result<(), Error>) -> bool {
    if !sent {
        fails_with(r, ErrorKind::WorkerNoSend)
    } else {
        match received {
            Some(Reply::Reconnected(result)) => r == result,
            _ => fails_with(r, ErrorKind::WorkerNoResponse),
        }
    }
}

/// Once the worker has stopped, so that no request can be sent, every call
/// fails with `WorkerNoSend` and waits for no reply.
pub proof fn lemma_calls_fail_after_shutdown<T: FromValue>(
    received: Option<Reply>,
    attribute: Result<T, Error>,
    info: Result<MBeanInfo, Error>,
    names: Result<Vec<String>, Error>,
    reconnected: Result<(), Error>,
)
    requires
        attribute_call(false, received, attribute),
        info_call(false, received, info),
        names_call(false, received, names),
        reconnect_call(false, received, reconnected),
    ensures
        fails_with(attribute, ErrorKind::WorkerNoSend),
        fails_with(info, ErrorKind::WorkerNoSend),
        fails_with(names, ErrorKind::WorkerNoSend),
        fails_with(reconnected, ErrorKind::WorkerNoSend),
{
}

/// Decode an attribute value into `T`.
pub fn decode_attribute<T: FromValue>(result: Result<Value, Error>) -> (r: Result<T, Error>)
    ensures
        decoded(result, r),
{
    match result {
        Err(e) => Err(e),
        Ok(v) => match T::from_value(v) {
            Some(t) => Ok(t),
            None => Err(Error::new(ErrorKind::WorkerDecode)),
        },
    }
}

/// The result of an attribute read, given how the round trip went.
pub fn attribute_outcome<T: FromValue>(sent: bool, received: Option<Reply>) -> (r: Result<T, Error>)
    ensures
        attribute_call(sent, received, r),
{
    if !sent {
        return Err(Error::new(ErrorKind::WorkerNoSend));
    }
    match received {
        None => Err(Error::new(ErrorKind::WorkerNoResponse)),
        Some(reply) => match reply.into_attribute() {
            Err(e) => Err(e),
            Ok(v) => decode_attribute(Ok(v)),
        },
    }
}

/// The result of a metadata read, given how the round trip went.
pub fn info_outcome(sent: bool, received: Option<Reply>) -> (r: Result<MBeanInfo, Error>)
    ensures
        info_call(sent, received, r),
{
    if !sent {
        return Err(Error::new(ErrorKind::WorkerNoSend));
    }
    match received {
        None => Err(Error::new(ErrorKind::WorkerNoResponse)),
        Some(reply) => reply.into_info(),
    }
}

/// The result of a name query, given how the round trip went.
pub fn names_outcome(sent: bool, received: Option<Reply>) -> (r: Result<Vec<String>, Error>)
    ensures
        names_call(sent, received, r),
{
    if !sent {
        return Err(Error::new(ErrorKind::WorkerNoSend));
    }
    match received {
        None => Err(Error::new(ErrorKind::WorkerNoResponse)),
        Some(reply) => reply.into_names(),
    }
}

/// The result of a reconnection, given how the round trip went.
pub fn reconnect_outcome(sent: bool, received: Option<Reply>) -> (r: Result<(), Error>)
    ensures
        reconnect_call(sent, received, r),
{
    if !sent {
        return Err(Error::new(ErrorKind::WorkerNoSend));
    }
    match received {
        None => Err(Error::new(ErrorKind::WorkerNoResponse)),
        Some(reply) => reply.into_reconnected(),
    }
}

/// The options' bound on queued requests can be honoured: a channel of that
/// capacity can be made (see `channel::capacity_fits`).
pub open spec fn buffer_in_range(options: MBeanThreadedClientOptions) -> bool {
    options.reqs_buffer matches Some(n) ==> capacity_fits(n)
}

/// A thread-safe handle on the worker that owns the connection. Calls from
/// one thread reach the worker in the order they are made.
pub struct MBeanThreadedClient {
    send_to_worker: Sender<Message>,
}

impl MBeanThreadedClient {
    /// The bound on queued requests of this client's channel; `None` where
    /// it has no bound.
    pub closed spec fn bound(&self) -> Option<usize> {
        request_bound(self.send_to_worker)
    }

    /// Whether `options` can be passed to `with_channel`.
    pub fn accepts(options: MBeanThreadedClientOptions) -> (r: bool)
        ensures
            r == buffer_in_range(options),
    {
        match options.reqs_buffer {
            None => true,
            Some(size) => crate::channel::fits_capacity(size),
        }
    }

    /// A client and the receiving end of its channel, for the worker: bounded
    /// by the requests buffer size where the options set one, unbounded
    /// otherwise.
    pub fn with_channel(options: MBeanThreadedClientOptions) -> (r: (MBeanThreadedClient, Receiver<Message>))
        requires
            buffer_in_range(options),
        ensures
            r.0.bound() == options.reqs_buffer,
    {
        let (send_to_worker, receiver) = match options.reqs_buffer {
            None => unbounded_requests(),
            Some(size) => bounded_requests(size),
        };
        (MBeanThreadedClient { send_to_worker }, receiver)
    }

    /// Send `request` to the worker and wait for its reply. Gives whether
    /// the request was sent, and the reply if one came.
    fn round_trip(&self, request: Request) -> (r: (bool, Option<Reply>))
        ensures
            !r.0 ==> r.1 is None,
    {
        let (reply_to, replies) = crossbeam_channel::bounded(1);
        if send(&self.send_to_worker, call_message(request, reply_to)) {
            (true, recv(&replies))
        } else {
            (false, None)
        }
    }

    /// Get the value of a specific MBean attribute, decoded into `T`.
    pub fn get_attribute<T: FromValue>(&self, mbean: String, attribute: String) -> (r: Result<T, Error>)
        ensures
            exists|sent: bool, received: Option<Reply>| attribute_call(sent, received, r),
    {
        let (sent, received) = self.round_trip(Request::GetAttribute(mbean, attribute));
        let ghost reply = received;
        let r = attribute_outcome(sent, received);
        assert(attribute_call(sent, reply, r));
        r
    }

    /// Get information about an MBean.
    pub fn get_mbean_info(&self, mbean: String) -> (r: Result<MBeanInfo, Error>)
        ensures
            exists|sent: bool, received: Option<Reply>| info_call(sent, received, r),
    {
        let (sent, received) = self.round_trip(Request::GetMBeanInfo(mbean));
        let ghost reply = received;
        let r = info_outcome(sent, received);
        assert(info_call(sent, reply, r));
        r
    }

    /// Query for the names of MBeans on the JMX server.
    pub fn query_names(&self, name: String, query: String) -> (r: Result<Vec<String>, Error>)
        ensures
            exists|sent: bool, received: Option<Reply>| names_call(sent, received, r),
    {
        let (sent, received) = self.round_trip(Request::QueryNames(name, query));
        let ghost reply = received;
        let r = names_outcome(sent, received);
        assert(names_call(sent, reply, r));
        r
    }

    /// Request the worker to connect to the given address, replacing its
    /// connection.
    pub fn reconnect(&self, address: MBeanAddress) -> (r: Result<(), Error>)
        ensures
            exists|sent: bool, received: Option<Reply>| reconnect_call(sent, received, r),
    {
        let (sent, received) = self.round_trip(Request::reconnect_default(address));
        let ghost reply = received;
        let r = reconnect_outcome(sent, received);
        assert(reconnect_call(sent, reply, r));
        r
    }

    /// Request the worker to connect to the given address with the given
    /// options; where they skip connecting, the worker drops its connection.
    pub fn reconnect_with_options(&self, address: MBeanAddress, options: MBeanThreadedClientOptions) -> (r: Result<(), Error>)
        ensures
            exists|sent: bool, received: Option<Reply>| reconnect_call(sent, received, r),
    {
        let (sent, received) = self.round_trip(Request::Reconnect(address, options));
        let ghost reply = received;
        let r = reconnect_outcome(sent, received);
        assert(reconnect_call(sent, reply, r));
        r
    }

    /// The first connection of a new client: none where the options skip
    /// connecting, otherwise a reconnection to `address`.
    pub fn connect_first(&self, address: MBeanAddress, options: MBeanThreadedClientOptions) -> (r: Result<(), Error>)
        ensures
            options.skip_connect ==> r is Ok,
            !options.skip_connect ==> exists|sent: bool, received: Option<Reply>| reconnect_call(sent, received, r),
    {
        if options.skip_connect {
            Ok(())
        } else {
            self.reconnect_with_options(address, options)
        }
    }

    /// Ask the worker to stop. Requests sent after this one get no reply; a
    /// worker that has already gone is no error.
    pub fn close(&self) {
        let _sent = send(&self.send_to_worker, Message::Quit);
    }
}

} // verus!
