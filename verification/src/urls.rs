//! The two URLs the supervisor derives from a bound port: the base URL that
//! is handed to the UI layer, and the health endpoint that readiness probes
//! poll.

use vstd::prelude::*;

use crate::decimal::{dec_seq, u16_to_decimal};

verus! {

/// The base URL of a backend that is bound to `port`:
/// `http://localhost:{port}`.
pub open spec fn base_url_seq(port: int) -> Seq<char> {
    "http://localhost:"@ + dec_seq(port)
}

/// The health endpoint of a backend that is bound to `port`:
/// `http://localhost:{port}/health`.
pub open spec fn health_url_seq(port: int) -> Seq<char> {
    base_url_seq(port) + "/health"@
}

/// Build the base URL for a port.
pub fn base_url_for_port(port: u16) -> (r: String)
    ensures
        r@ == base_url_seq(port as int),
{
    let mut r = String::new();
    r.append("http://localhost:");
    let digits = u16_to_decimal(port);
    r.append(digits.as_str());
    proof {
        assert(r@ =~= base_url_seq(port as int));
    }
    r
}

/// Build the health endpoint URL for a port.
pub fn health_url_for_port(port: u16) -> (r: String)
    ensures
        r@ == health_url_seq(port as int),
{
    let mut r = base_url_for_port(port);
    r.append("/health");
    r
}

} // verus!
