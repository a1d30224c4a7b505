//! The worker: the single owner of the connection, serving one request at a
//! time.
use vstd::prelude::*;
use crossbeam_channel::Receiver;
use crate::address::MBeanAddress;
use crate::channel::{recv, send};
use crate::error::{is_plain_error, wraps, Error, ErrorKind};
use crate::info::MBeanInfo;
use crate::protocol::{answers, is_not_connected, reply_error, Message, Reply, Request};
use crate::value::Value;

verus! {

/// The operations of a live connection to a JMX server.
pub trait MBeanClientTrait {
    /// Get the value of a specific MBean attribute.
    fn get_attribute(&self, mbean: String, attribute: String) -> Result<Value, Error>;

    /// Get information about an MBean.
    fn get_mbean_info(&self, mbean: String) -> Result<MBeanInfo, Error>;

    /// Query for the names of MBeans on the JMX server.
    fn query_names(&self, name: String, query: String) -> Result<Vec<String>, Error>;
}

/// How a connection is made.
pub trait MBeanConnector: Sized {
    /// Connect to the JMX server at `address`.
    fn connect(address: MBeanAddress) -> Result<Self, Error>;
}

/// `e` reports that the remote operation `op` on `target` failed.
pub open spec fn remote_failure(e: Error, op: Seq<char>, target: Seq<char>) -> bool {
    &&& e.kind is RemoteOperation
    &&& e.kind->RemoteOperation_0@ == op
    &&& e.kind->RemoteOperation_1@ == target
    &&& e.causes@.len() > 0
}

/// The operation name and target that a failure of a read reports.
pub open spec fn read_failure(request: Request, e: Error) -> bool {
    match request {
        Request::GetAttribute(mbean, _) => remote_failure(e, "getAttribute"@, mbean@),
        Request::GetMBeanInfo(mbean) => remote_failure(e, "getMBeanInfo"@, mbean@),
        Request::QueryNames(name, _) => remote_failure(e, "queryNames"@, name@),
        Request::Reconnect(..) => false,
    }
}

/// The reply to a read from what the connection gave: its value as it came,
/// or its error as the cause of a `RemoteOperation` error naming the operation
/// `op` and its target.
pub fn remote_result<V>(result: Result<V, Error>, op: String, target: String) -> (r: Result<V, Error>)
    ensures
        result matches Ok(v) ==> r == Ok::<V, Error>(v),
        result matches Err(e) ==> (r matches Err(x) && wraps(x, ErrorKind::RemoteOperation(op, target), e)),
{
    match result {
        Ok(v) => Ok(v),
        Err(e) => Err(e.context(ErrorKind::RemoteOperation(op, target))),
    }
}

/// One step of the worker: serving `request` with connection `before`
/// installed gives `reply` and leaves `after` installed.
///
/// A read never changes the connection; without one it fails with
/// `NotConnected`, and through one its failures name the operation and target.
/// A reconnection that skips connecting drops the connection; any other either
/// installs a new connection and succeeds, or fails and keeps the old one.
pub open spec fn transition<C>(before: Option<C>, request: Request, reply: Reply, after: Option<C>) -> bool {
    &&& answers(request, reply)
    &&& match request {
        Request::Reconnect(address, options) => if options.skip_connect {
            after is None && reply == Reply::Reconnected(Ok(()))
        } else {
            match reply {
                Reply::Reconnected(Ok(_)) => after is Some,
                Reply::Reconnected(Err(e)) => after == before && e.kind is ConnectFailed
                    && e.kind->ConnectFailed_0@ == address.spec_service_url() && e.causes@.len() > 0,
                _ => false,
            }
        },
        _ => {
            &&& after == before
            &&& before is None ==> is_not_connected(reply)
            &&& before is Some ==> (reply_error(reply) matches Some(e) ==> read_failure(request, e))
        },
    }
}

/// The state of the worker thread: at most one connection, and only the
/// worker ever uses it.
pub struct MBeanThreadWorker<C> {
    client: Option<C>,
}

impl<C: MBeanClientTrait + MBeanConnector> MBeanThreadWorker<C> {
    /// The installed connection, if any.
    pub closed spec fn connection(&self) -> Option<C> {
        self.client
    }

    /// A worker without a connection.
    pub fn new() -> (r: Self)
        ensures
            r.connection() is None,
    {
        MBeanThreadWorker { client: None }
    }

    /// Whether a connection is installed.
    pub fn is_connected(&self) -> (r: bool)
        ensures
            r == self.connection() is Some,
    {
        self.client.is_some()
    }

    /// Access the connection, if one is installed.
    fn client(&self) -> (r: Result<&C, Error>)
        ensures
            self.connection() matches Some(c) ==> r == Ok::<&C, Error>(&c),
            self.connection() is None ==> (r matches Err(e) && is_plain_error(e, ErrorKind::NotConnected)),
    {
        match &self.client {
            Some(c) => Ok(c),
            None => Err(Error::new(ErrorKind::NotConnected)),
        }
    }

    /// Drop the connection, if any.
    pub fn disconnect(&mut self)
        ensures
            final(self).connection() is None,
    {
        self.client = None;
    }

    /// Take the outcome of connecting to the service URL `url`: a new
    /// connection replaces the old one; a failure keeps the old one and is
    /// reported as `ConnectFailed`, with the failure as its cause.
    pub fn install(&mut self, outcome: Result<C, Error>, url: String) -> (r: Result<(), Error>)
        ensures
            outcome matches Ok(c) ==> final(self).connection() == Some(c) && r is Ok,
            outcome matches Err(e) ==> final(self).connection() == old(self).connection() && (
            r matches Err(x) && wraps(x, ErrorKind::ConnectFailed(url), e)),
    {
        match outcome {
            Ok(c) => {
                self.client = Some(c);
                Ok(())
            },
            Err(e) => Err(e.context(ErrorKind::ConnectFailed(url))),
        }
    }

    /// Serve one request and give its reply.
    pub fn handle(&mut self, request: Request) -> (reply: Reply)
        ensures
            transition(old(self).connection(), request, reply, final(self).connection()),
    {
        match request {
            Request::GetAttribute(mbean, attribute) => {
                let r = match self.client() {
                    Err(e) => Err(e),
                    Ok(c) => {
                        let target = mbean.clone();
                        remote_result(c.get_attribute(mbean, attribute), String::from_str("getAttribute"), target)
                    },
                };
                Reply::Attribute(r)
            },
            Request::GetMBeanInfo(mbean) => {
                let r = match self.client() {
                    Err(e) => Err(e),
                    Ok(c) => {
                        let target = mbean.clone();
                        remote_result(c.get_mbean_info(mbean), String::from_str("getMBeanInfo"), target)
                    },
                };
                Reply::Info(r)
            },
            Request::QueryNames(name, query) => {
                let r = match self.client() {
                    Err(e) => Err(e),
                    Ok(c) => {
                        let target = name.clone();
                        remote_result(c.query_names(name, query), String::from_str("queryNames"), target)
                    },
                };
                Reply::Names(r)
            },
            Request::Reconnect(address, options) => {
                if options.skip_connect {
                    self.disconnect();
                    Reply::Reconnected(Ok(()))
                } else {
                    let url = address.connection_string();
                    let outcome = C::connect(address);
                    Reply::Reconnected(self.install(outcome, url))
                }
            },
        }
    }

    /// Serve one message: answer a request on its reply channel, or stop on
    /// `Quit`. A caller that no longer waits for its reply does not stop the
    /// worker. Gives whether to go on.
    pub fn serve(&mut self, message: Message) -> (keep_going: bool)
        ensures
            message is Quit ==> !keep_going && final(self).connection() == old(self).connection(),
            message matches Message::Call(request, _) ==> keep_going && exists|reply: Reply|
                transition(old(self).connection(), request, reply, final(self).connection()),
    {
        match message {
            Message::Quit => false,
            Message::Call(request, reply_to) => {
                let ghost req = request;
                let reply = self.handle(request);
                let ghost answer = reply;
                let _delivered = send(&reply_to, reply);
                assert(transition(old(self).connection(), req, answer, self.connection()));
                true
            },
        }
    }

    /// Serve what a wait on the channel gave: `None`, once the channel is
    /// empty and every sender is gone, stops the worker; a message is served.
    pub fn serve_received(&mut self, received: Option<Message>) -> (keep_going: bool)
        ensures
            received is None ==> !keep_going && final(self).connection() == old(self).connection(),
            received matches Some(Message::Quit) ==> !keep_going && final(self).connection()
                == old(self).connection(),
            received matches Some(Message::Call(request, _)) ==> keep_going && exists|reply: Reply|
                transition(old(self).connection(), request, reply, final(self).connection()),
    {
        match received {
            None => false,
            Some(message) => self.serve(message),
        }
    }

    /// Wait for the next message on `receiver` and serve it. Gives whether to
    /// go on: false after `Quit`, or once every sender is gone.
    pub fn serve_next(&mut self, receiver: &Receiver<Message>) -> (keep_going: bool)
        ensures
            !keep_going ==> final(self).connection() == old(self).connection(),
            keep_going ==> exists|request: Request, reply: Reply|
                transition(old(self).connection(), request, reply, final(self).connection()),
    {
        self.serve_received(recv(receiver))
    }
}

/// `states`, `requests` and `replies` record a run of the worker: request `i`
/// arrived with connection `states[i]` installed, got `replies[i]`, and left
/// `states[i + 1]` installed.
pub open spec fn is_run<C>(states: Seq<Option<C>>, requests: Seq<Request>, replies: Seq<Reply>) -> bool {
    &&& states.len() == requests.len() + 1
    &&& replies.len() == requests.len()
    &&& forall|i: int|
        0 <= i < requests.len() ==> transition(states[i], #[trigger] requests[i], replies[i], states[i + 1])
}

/// No reconnection is requested strictly between `i` and `j`.
pub open spec fn no_reconnect_between(requests: Seq<Request>, i: int, j: int) -> bool {
    forall|k: int| i < k < j ==> !(#[trigger] requests[k] is Reconnect)
}

/// Between two reconnections the connection does not change.
proof fn lemma_connection_kept<C>(states: Seq<Option<C>>, requests: Seq<Request>, replies: Seq<Reply>, i: int, j: int)
    requires
        is_run(states, requests, replies),
        0 <= i < j <= requests.len(),
        no_reconnect_between(requests, i, j),
    ensures
        forall|k: int| i < k <= j ==> #[trigger] states[k] == states[i + 1],
    decreases j - i,
{
    if j > i + 1 {
        lemma_connection_kept(states, requests, replies, i, j - 1);
        assert(transition(states[j - 1], requests[j - 1], replies[j - 1], states[j]));
    }
}

/// A reconnection that succeeded installs a connection, and every request
/// after it, up to the next reconnection, is served by that connection: a
/// caller that waits for its reconnection to `A` before reading reads from `A`.
/// The connection it replaced, where another, serves none of them: the worker
/// holds one connection at a time.
pub proof fn lemma_served_by_new_connection<C>(
    states: Seq<Option<C>>,
    requests: Seq<Request>,
    replies: Seq<Reply>,
    i: int,
    j: int,
)
    requires
        is_run(states, requests, replies),
        0 <= i < j <= requests.len(),
        requests[i] matches Request::Reconnect(_, options) && !options.skip_connect,
        replies[i] matches Reply::Reconnected(Ok(_)),
        no_reconnect_between(requests, i, j),
    ensures
        states[i + 1] is Some,
        forall|k: int| i < k <= j ==> #[trigger] states[k] == states[i + 1],
        states[i] != states[i + 1] ==> forall|k: int| i < k <= j ==> #[trigger] states[k] != states[i],
{
    assert(transition(states[i], requests[i], replies[i], states[i + 1]));
    lemma_connection_kept(states, requests, replies, i, j);
}

/// After a reconnection that skips connecting, every read up to the next
/// reconnection fails with `NotConnected`, and no connection is installed.
pub proof fn lemma_reads_fail_after_disconnect<C>(
    states: Seq<Option<C>>,
    requests: Seq<Request>,
    replies: Seq<Reply>,
    i: int,
    j: int,
)
    requires
        is_run(states, requests, replies),
        0 <= i < j <= requests.len(),
        requests[i] matches Request::Reconnect(_, options) && options.skip_connect,
        no_reconnect_between(requests, i, j),
    ensures
        forall|k: int| i < k <= j ==> #[trigger] states[k] is None,
        forall|k: int| i < k < j ==> is_not_connected(#[trigger] replies[k]),
{
    assert(transition(states[i], requests[i], replies[i], states[i + 1]));
    lemma_connection_kept(states, requests, replies, i, j);
    assert forall|k: int| i < k < j implies is_not_connected(#[trigger] replies[k]) by {
        assert(transition(states[k], requests[k], replies[k], states[k + 1]));
        assert(!(requests[k] is Reconnect));
    }
}

/// Every request gets exactly one reply, of the kind that answers it.
pub proof fn lemma_one_reply_each<C>(states: Seq<Option<C>>, requests: Seq<Request>, replies: Seq<Reply>)
    requires
        is_run(states, requests, replies),
    ensures
        replies.len() == requests.len(),
        forall|i: int| 0 <= i < requests.len() ==> answers(#[trigger] requests[i], replies[i]),
{
    assert forall|i: int| 0 <= i < requests.len() implies answers(#[trigger] requests[i], replies[i]) by {
        assert(transition(states[i], requests[i], replies[i], states[i + 1]));
    }
}

} // verus!
