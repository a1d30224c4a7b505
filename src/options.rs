use vstd::prelude::*;

verus! {

/// Connection options of an `MBeanThreadedClient`.
#[derive(Clone, Copy, Debug, PartialEq, Eq)]
pub struct MBeanThreadedClientOptions {
    /// Bound on the requests queued for the worker; `None` for no bound.
    pub reqs_buffer: Option<usize>,
    /// Start (or reconnect) without a connection.
    pub skip_connect: bool,
}

impl Default for MBeanThreadedClientOptions {
    /// No bound on queued requests, and connect.
    fn default() -> (r: Self)
        ensures
            r.reqs_buffer is None,
            !r.skip_connect,
    {
        MBeanThreadedClientOptions { reqs_buffer: None, skip_connect: false }
    }
}

impl MBeanThreadedClientOptions {
    /// Clear the requests buffer size so unlimited requests are buffered.
    pub fn requests_buffer_unlimited(self) -> (r: Self)
        ensures
            r == (MBeanThreadedClientOptions { reqs_buffer: None, ..self }),
    {
        MBeanThreadedClientOptions { reqs_buffer: None, ..self }
    }

    /// Set the requests buffer size.
    pub fn requests_buffer_size(self, size: usize) -> (r: Self)
        ensures
            r == (MBeanThreadedClientOptions { reqs_buffer: Some(size), ..self }),
    {
        MBeanThreadedClientOptions { reqs_buffer: Some(size), ..self }
    }

    /// Choose whether to go without a connection.
    pub fn skip_connect(self, skip: bool) -> (r: Self)
        ensures
            r == (MBeanThreadedClientOptions { skip_connect: skip, ..self }),
    {
        MBeanThreadedClientOptions { skip_connect: skip, ..self }
    }
}

} // verus!
