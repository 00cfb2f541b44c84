//! Choice of the loopback port for the viewer-control endpoint.
//!
//! The endpoint prefers [`DEFAULT_PORT`] and falls back to an ephemeral port when it
//! is taken. Probing a port is I/O and happens outside this module; this module holds
//! the ports to probe and the choice among the probe outcomes.

use vstd::prelude::*;

verus! {

/// Default port for the viewer-control endpoint.
///
/// Port 9876 belongs to the relay, which the viewer dials on the same machine by
/// default, so the control service stays off it.
pub const DEFAULT_PORT: u16 = 9878;

/// The ports to probe, in order of preference: the default port, then port 0,
/// which asks the system for an ephemeral port.
pub fn candidate_ports() -> (ports: Vec<u16>)
    ensures
        ports@ == seq![DEFAULT_PORT, 0u16],
{
    let mut ports: Vec<u16> = Vec::new();
    ports.push(DEFAULT_PORT);
    ports.push(0);
    ports
}

/// The port chosen from the outcomes of probing the candidates in order: the local
/// port of the first probe that bound, or the default port when none did.
pub open spec fn first_bound_port(probes: Seq<Option<u16>>) -> u16
    decreases probes.len(),
{
    if probes.len() == 0 {
        DEFAULT_PORT
    } else {
        match probes[0] {
            Some(p) => p,
            None => first_bound_port(probes.drop_first()),
        }
    }
}

/// Picks the port from the outcomes of probing the candidate ports in order
/// (`Some(local port)` for a probe that bound, `None` for one that failed).
pub fn pick_port(probes: &Vec<Option<u16>>) -> (port: u16)
    ensures
        port == first_bound_port(probes@),
{
    let n = probes.len();
    let mut i: usize = 0;
    assert(probes@.skip(0) =~= probes@);
    while i < n
        invariant
            n == probes@.len(),
            i <= n,
            first_bound_port(probes@) == first_bound_port(probes@.skip(i as int)),
        decreases n - i,
    {
        assert(probes@.skip(i as int).drop_first() =~= probes@.skip(i + 1));
        match probes[i] {
            Some(p) => {
                return p;
            },
            None => {},
        }
        i = i + 1;
    }
    assert(probes@.skip(n as int).len() == 0);
    DEFAULT_PORT
}

/// An IPv4 socket address as plain values: the four octets of the address and the
/// port.
#[derive(Clone, Copy, Debug)]
pub struct ControlAddr {
    pub octets: [u8; 4],
    pub port: u16,
}

/// The loopback address, 127.0.0.1.
pub open spec fn loopback_octets() -> Seq<u8> {
    seq![127u8, 0u8, 0u8, 1u8]
}

/// The address of the viewer-control endpoint: the loopback interface (127.0.0.1)
/// at the port picked from the outcomes of probing the candidate ports in order.
pub fn pick_addr(probes: &Vec<Option<u16>>) -> (addr: ControlAddr)
    ensures
        addr.octets@ == seq![127u8, 0u8, 0u8, 1u8],
        addr.octets@ == loopback_octets(),
        addr.port == first_bound_port(probes@),
{
    let addr = ControlAddr { octets: [127, 0, 0, 1], port: pick_port(probes) };
    assert(addr.octets@ =~= seq![127u8, 0u8, 0u8, 1u8]);
    addr
}

/// Law: when no probe that bound reported port 0, the chosen port is not 0.
pub proof fn law_picked_port_nonzero(probes: Seq<Option<u16>>)
    requires
        forall|i: int| 0 <= i < probes.len() ==> #[trigger] probes[i] != Some(0u16),
    ensures
        first_bound_port(probes) != 0,
    decreases probes.len(),
{
    if probes.len() > 0 {
        assert(probes[0] != Some(0u16));
        let rest = probes.drop_first();
        assert forall|i: int| 0 <= i < rest.len() implies #[trigger] rest[i] != Some(0u16) by {
            assert(rest[i] == probes[i + 1]);
        }
        law_picked_port_nonzero(rest);
    }
}

/// Law: the chosen port is the port of a probe that bound, and no earlier probe bound;
/// or, when no probe bound, it is the default port.
pub proof fn law_picked_port_is_first_bound(probes: Seq<Option<u16>>)
    ensures
        (exists|i: int|
            0 <= i < probes.len() && probes[i] == Some(first_bound_port(probes)) && forall|j: int|
                0 <= j < i ==> #[trigger] probes[j] is None) || ((forall|j: int|
            0 <= j < probes.len() ==> #[trigger] probes[j] is None) && first_bound_port(probes)
            == DEFAULT_PORT),
    decreases probes.len(),
{
    if probes.len() > 0 {
        match probes[0] {
            Some(p) => {
                assert(probes[0] == Some(first_bound_port(probes)));
            },
            None => {
                let rest = probes.drop_first();
                law_picked_port_is_first_bound(rest);
                if exists|i: int|
                    0 <= i < rest.len() && rest[i] == Some(first_bound_port(rest)) && forall|j: int|
                        0 <= j < i ==> #[trigger] rest[j] is None {
                    let i = choose|i: int|
                        0 <= i < rest.len() && rest[i] == Some(first_bound_port(rest)) && forall|
                            j: int,
                        |
                            0 <= j < i ==> #[trigger] rest[j] is None;
                    assert(probes[i + 1] == Some(first_bound_port(probes)));
                    assert forall|j: int| 0 <= j < i + 1 implies #[trigger] probes[j] is None by {
                        if j > 0 {
                            assert(probes[j] == rest[j - 1]);
                        }
                    }
                } else {
                    assert forall|j: int| 0 <= j < probes.len() implies #[trigger] probes[j] is None by {
                        if j > 0 {
                            assert(probes[j] == rest[j - 1]);
                        }
                    }
                }
            },
        }
    }
}

} // verus!
