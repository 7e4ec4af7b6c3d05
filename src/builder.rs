//! The configuration gathered before a server starts.
use vstd::prelude::*;
use std::time::Duration;

verus! {

/// How long, in seconds, each timed phase of a connection may take unless set
/// otherwise.
pub const DEFAULT_TIMEOUT_SECS: u64 = 30;

/// The duration of a whole number of seconds.
pub uninterp spec fn duration_from_secs(secs: u64) -> Duration;

/// Relies on `Duration::from_secs`, which depends on its argument alone.
pub assume_specification[ core::time::Duration::from_secs ](secs: u64) -> (r: Duration)
    ensures
        r == duration_from_secs(secs),
;

/// The address to bind and the timeout of a server not yet started.
pub struct Builder<A> {
    addr: A,
    timeout: Duration,
}

impl<A> Builder<A> {
    pub closed spec fn spec_addr(&self) -> A {
        self.addr
    }

    pub closed spec fn spec_timeout(&self) -> Duration {
        self.timeout
    }

    /// A builder for the address, with the default timeout.
    pub fn bind(addr: A) -> (r: Self)
        ensures
            r.spec_addr() == addr,
            r.spec_timeout() == duration_from_secs(DEFAULT_TIMEOUT_SECS),
    {
        Builder { addr, timeout: Duration::from_secs(DEFAULT_TIMEOUT_SECS) }
    }

    /// Sets the timeout on incoming requests.
    ///
    /// The timeout is applied twice: once for the TLS handshake and the
    /// delivery of the request line, and once, independently, for sending the
    /// response. The handler itself runs with no time limit in between.
    pub fn set_timeout(self, timeout: Duration) -> (r: Self)
        ensures
            r.spec_addr() == self.spec_addr(),
            r.spec_timeout() == timeout,
    {
        Builder { addr: self.addr, timeout }
    }

    /// The address to bind.
    pub fn addr(&self) -> (r: &A)
        ensures
            *r == self.spec_addr(),
    {
        &self.addr
    }

    /// The timeout of each timed phase.
    pub fn timeout(&self) -> (r: Duration)
        ensures
            r == self.spec_timeout(),
    {
        self.timeout
    }

    /// The address and the timeout, taken apart.
    pub fn into_parts(self) -> (r: (A, Duration))
        ensures
            r.0 == self.spec_addr(),
            r.1 == self.spec_timeout(),
    {
        (self.addr, self.timeout)
    }
}

} // verus!
