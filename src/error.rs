use vstd::prelude::*;

verus! {

/// Exhaustive list of the errors that this crate reports.
#[derive(Clone, Debug, PartialEq, Eq)]
pub enum ErrorKind {
    /// A Java object could not be cast to the named class.
    JavaCast(String),
    /// A Java object could not be cloned.
    JavaClone,
    /// A Java object of the named class could not be instantiated.
    JavaCreateInstance(String),
    /// An instance method (class, method) could not be invoked.
    JavaInvoke(String, String),
    /// The Java bridge rejected a call; holds its message.
    J4RsError(String),
    /// A static method (class, method) could not be invoked.
    JavaInvokeStatic(String, String),
    /// The JVM could not be started.
    JvmInit,
    /// An operation was attempted while no connection is installed.
    NotConnected,
    /// A Java object could not be converted to the named Rust type.
    RustCast(String),
    /// Connecting to the given service URL failed.
    ConnectFailed(String),
    /// A remote operation (operation name, target) failed.
    RemoteOperation(String, String),
    /// An attribute value could not be decoded into the requested type.
    WorkerDecode,
    /// The background worker did not send a response.
    WorkerNoResponse,
    /// The request could not be sent to the background worker.
    WorkerNoSend,
    /// The background worker thread could not be spawned.
    WorkerSpawn,
}

/// Error information returned by functions in case of errors: what went
/// wrong, and the chain of underlying causes, the closest first.
#[derive(Clone, Debug, PartialEq, Eq)]
pub struct Error {
    pub kind: ErrorKind,
    pub causes: Vec<ErrorKind>,
}

/// What an error of kind `k` says.
pub open spec fn kind_message(k: ErrorKind) -> Seq<char> {
    match k {
        ErrorKind::JavaCast(c) => "could not cast java object to class '"@ + c@ + "'"@,
        ErrorKind::JavaClone => "could not clone java object"@,
        ErrorKind::JavaCreateInstance(c) => "could not instantiate java object with class '"@ + c@ + "'"@,
        ErrorKind::JavaInvoke(c, m) => "could not invoke instance method '"@ + c@ + "."@ + m@ + "'"@,
        ErrorKind::J4RsError(m) => "could not parse invocation arg '"@ + m@ + "'"@,
        ErrorKind::JavaInvokeStatic(c, m) => "could not invoke static method '"@ + c@ + "."@ + m@ + "'"@,
        ErrorKind::JvmInit => "could not initialise JVM instance"@,
        ErrorKind::NotConnected => "the JMX client is not connected"@,
        ErrorKind::RustCast(t) => "could not cast java object to rust '"@ + t@ + "' type"@,
        ErrorKind::ConnectFailed(u) => "could not connect to '"@ + u@ + "'"@,
        ErrorKind::RemoteOperation(op, t) => "remote operation '"@ + op@ + "' on '"@ + t@ + "' failed"@,
        ErrorKind::WorkerDecode => "could not decode mbean attribute value"@,
        ErrorKind::WorkerNoResponse => "background worker did not send a response"@,
        ErrorKind::WorkerNoSend => "could not send request to background worker"@,
        ErrorKind::WorkerSpawn => "could not spawn background worker thread"@,
    }
}

/// The messages of `causes`, each after ": ".
pub open spec fn causes_message(causes: Seq<ErrorKind>) -> Seq<char>
    decreases causes.len(),
{
    if causes.len() == 0 {
        Seq::empty()
    } else {
        causes_message(causes.drop_last()) + ": "@ + kind_message(causes.last())
    }
}

impl ErrorKind {
    /// What an error of this kind says.
    pub fn message(&self) -> (r: String)
        ensures
            r@ == kind_message(*self),
    {
        match self {
            ErrorKind::JavaCast(c) => String::from_str("could not cast java object to class '").concat(
                c.as_str(),
            ).concat("'"),
            ErrorKind::JavaClone => String::from_str("could not clone java object"),
            ErrorKind::JavaCreateInstance(c) => String::from_str(
                "could not instantiate java object with class '",
            ).concat(c.as_str()).concat("'"),
            ErrorKind::JavaInvoke(c, m) => String::from_str("could not invoke instance method '").concat(
                c.as_str(),
            ).concat(".").concat(m.as_str()).concat("'"),
            ErrorKind::J4RsError(m) => String::from_str("could not parse invocation arg '").concat(
                m.as_str(),
            ).concat("'"),
            ErrorKind::JavaInvokeStatic(c, m) => String::from_str("could not invoke static method '").concat(
                c.as_str(),
            ).concat(".").concat(m.as_str()).concat("'"),
            ErrorKind::JvmInit => String::from_str("could not initialise JVM instance"),
            ErrorKind::NotConnected => String::from_str("the JMX client is not connected"),
            ErrorKind::RustCast(t) => String::from_str("could not cast java object to rust '").concat(
                t.as_str(),
            ).concat("' type"),
            ErrorKind::ConnectFailed(u) => String::from_str("could not connect to '").concat(
                u.as_str(),
            ).concat("'"),
            ErrorKind::RemoteOperation(op, t) => String::from_str("remote operation '").concat(
                op.as_str(),
            ).concat("' on '").concat(t.as_str()).concat("' failed"),
            ErrorKind::WorkerDecode => String::from_str("could not decode mbean attribute value"),
            ErrorKind::WorkerNoResponse => String::from_str("background worker did not send a response"),
            ErrorKind::WorkerNoSend => String::from_str("could not send request to background worker"),
            ErrorKind::WorkerSpawn => String::from_str("could not spawn background worker thread"),
        }
    }
}

/// `e` is an error of kind `kind` with no underlying cause.
pub open spec fn is_plain_error(e: Error, kind: ErrorKind) -> bool {
    e.kind == kind && e.causes@.len() == 0
}

/// `outer` reports `kind` and keeps `inner` as its cause.
pub open spec fn wraps(outer: Error, kind: ErrorKind, inner: Error) -> bool {
    outer.kind == kind && outer.causes@ == seq![inner.kind] + inner.causes@
}

impl Error {
    /// An error of the given kind, with no underlying cause.
    pub fn new(kind: ErrorKind) -> (r: Error)
        ensures
            is_plain_error(r, kind),
    {
        Error { kind, causes: Vec::new() }
    }

    /// What went wrong.
    pub fn kind(&self) -> (r: &ErrorKind)
        ensures
            *r == self.kind,
    {
        &self.kind
    }

    /// The closest underlying cause, if any.
    pub fn cause(&self) -> (r: Option<&ErrorKind>)
        ensures
            self.causes@.len() == 0 ==> r is None,
            self.causes@.len() > 0 ==> r == Some(&self.causes@[0]),
    {
        if self.causes.len() == 0 {
            None
        } else {
            Some(&self.causes[0])
        }
    }

    /// What this error says, followed by what each of its causes says.
    pub fn message(&self) -> (r: String)
        ensures
            r@ == kind_message(self.kind) + causes_message(self.causes@),
    {
        let mut r = self.kind.message();
        let mut i: usize = 0;
        while i < self.causes.len()
            invariant
                i <= self.causes@.len(),
                r@ == kind_message(self.kind) + causes_message(self.causes@.take(i as int)),
            decreases self.causes@.len() - i,
        {
            let ghost before = r@;
            r.append(": ");
            let m = self.causes[i].message();
            r.append(m.as_str());
            assert(self.causes@.take(i + 1).drop_last() =~= self.causes@.take(i as int));
            assert(r@ =~= kind_message(self.kind) + causes_message(self.causes@.take(i + 1)));
            i = i + 1;
        }
        assert(self.causes@.take(i as int) =~= self.causes@);
        r
    }

    /// Report this error as the cause of a new error of kind `kind`.
    pub fn context(self, kind: ErrorKind) -> (r: Error)
        ensures
            wraps(r, kind, self),
    {
        let Error { kind: inner, causes } = self;
        let ghost before = causes@;
        let ghost first = inner;
        let mut causes = causes;
        causes.insert(0, inner);
        assert(causes@ =~= seq![first] + before);
        Error { kind, causes }
    }
}

} // verus!
