//! Port allocation: find a free local TCP port within an inclusive range by a
//! single bounded probe.  The returned port is a hint, not a reservation; the
//! caller must bind to it promptly.

use vstd::prelude::*;
use crate::errors::Error;
use crate::errors::ErrorKind;

verus! {

/// An inclusive range of TCP ports to probe.
#[derive(Clone, Copy, Debug, PartialEq, Eq, Structural)]
pub struct PortRange {
    pub min: u16,
    pub max: u16,
}

impl PortRange {
    /// The range holds no port at all.
    pub open spec fn spec_is_empty(self) -> bool {
        self.min > self.max
    }

    /// `p` lies within the range.
    pub open spec fn spec_contains(self, p: u16) -> bool {
        self.min <= p <= self.max
    }

    /// Whether the range holds no port at all.
    pub fn is_empty(&self) -> (r: bool)
        ensures
            r == self.spec_is_empty(),
    {
        self.min > self.max
    }
}

/// Relies on get_port's `TcpPort::in_range`: it walks the inclusive range on
/// the IPv4 loopback host, tests each port with a bind-and-release probe, and
/// returns the first port whose bind succeeded, or `None` once the whole
/// range was scanned.  Which ports are free depends on the machine, so only
/// membership in the range is stated; an empty range is never entered, so it
/// always yields `None`.
#[verifier::external_body]
fn probe_free_tcp_port(min: u16, max: u16) -> (r: Option<u16>)
    ensures
        r matches Some(p) ==> min <= p <= max,
        min > max ==> r is None,
{
    <get_port::tcp::TcpPort as get_port::Ops>::in_range(
        "127.0.0.1",
        get_port::Range { min, max },
    )
}

/// Return the first free port discovered in `range`, or `ResourceExhausted`
/// after the whole range was scanned once.  No retries are made; an empty
/// range is exhausted by definition.
pub fn allocate_port(range: PortRange) -> (r: Result<u16, Error>)
    ensures
        r matches Ok(p) ==> range.spec_contains(p),
        r matches Err(e) ==> e.kind == ErrorKind::ResourceExhausted && e.detail is None,
        range.spec_is_empty() ==> r is Err,
{
    match probe_free_tcp_port(range.min, range.max) {
        Some(p) => Ok(p),
        None => Err(Error::new(ErrorKind::ResourceExhausted)),
    }
}

} // verus!
