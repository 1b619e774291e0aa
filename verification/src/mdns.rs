//! The send and receive halves of one discovery session, and the plan for
//! joining the multicast group across the local interfaces.
//!
//! The runtime that owns the socket drives these: it asks `join_targets`
//! which interfaces to join, reports each join's outcome to
//! `evaluate_joins`, takes a ready-to-send query datagram from the sender,
//! and feeds each received datagram through the listener's decode step.

use vstd::prelude::*;

use crate::Error;
use crate::codec::{
    Response, check_service_name, decode_packet, encode_query, parse_of, query_bytes_of,
    valid_service_name,
};
use crate::net::{Endpoint, IfaceInfo, Ip4Addr, IpAddress};

verus! {

/// The query half of a session: encodes and hands out query datagrams for
/// one service name.
#[allow(non_camel_case_types)]
#[derive(Clone, Debug)]
pub struct mDNSSender {
    pub(crate) service_name: String,
}

impl mDNSSender {
    /// The service name this sender queries for.
    pub closed spec fn spec_service_name(self) -> Seq<char> {
        self.service_name@
    }

    /// The sender only ever encodes names the encoder accepts.
    pub closed spec fn wf(self) -> bool {
        valid_service_name(self.service_name@)
    }

    /// Produce one multicast DNS query datagram for this sender's service
    /// name, to be transmitted to the fixed multicast endpoint. Each call
    /// stands for exactly one query datagram on the wire; calling it again
    /// is safe, the protocol tolerates duplicate queries.
    pub fn send_request(&mut self) -> (r: Vec<u8>)
        requires
            old(self).wf(),
        ensures
            *final(self) == *old(self),
            r@ == query_bytes_of(old(self).spec_service_name()),
    {
        encode_query(self.service_name.as_str())
    }
}

/// The receive half of a session: turns one raw datagram into at most one
/// decoded response.
#[allow(non_camel_case_types)]
#[derive(Clone, Copy, Debug)]
pub struct mDNSListener {
    pub(crate) _private: bool,
}

impl mDNSListener {
    /// The decode step of the listening loop: a datagram either decodes
    /// into a response tagged with its sender, or — empty or malformed —
    /// is dropped silently. Malformed traffic on a shared multicast port
    /// is expected background noise, so no input ever yields an error.
    pub fn handle_datagram(&self, data: &[u8], source: Endpoint) -> (r: Option<Response>)
        ensures
            r is Some <==> data@.len() > 0 && parse_of(data@) is Some,
            r matches Some(resp) ==> {
                &&& resp.source == source
                &&& parse_of(data@) == Some(resp.spec_names())
            },
    {
        if data.len() == 0 {
            return None;
        }
        match decode_packet(data) {
            Some(answers) => Some(Response { answers, source }),
            None => None,
        }
    }
}

/// Create the two halves of a session for one service name, checking that
/// the name can be encoded; an unencodable name is rejected up front.
pub fn mdns_interface(service_name: &str) -> (r: Result<(mDNSListener, mDNSSender), Error>)
    ensures
        match r {
            Ok(halves) => {
                &&& valid_service_name(service_name@)
                &&& halves.1.wf()
                &&& halves.1.spec_service_name() == service_name@
            },
            Err(e) => !valid_service_name(service_name@) && e == Error::Encode,
        },
{
    if !check_service_name(service_name) {
        return Err(Error::Encode);
    }
    let sender = mDNSSender { service_name: service_name.to_owned() };
    let listener = mDNSListener { _private: false };
    Ok((listener, sender))
}

/// The non-loopback IPv4 addresses of an interface list, in order.
pub open spec fn spec_candidates(ifaces: Seq<IfaceInfo>) -> Seq<Ip4Addr>
    decreases ifaces.len(),
{
    if ifaces.len() == 0 {
        Seq::empty()
    } else {
        spec_candidates(ifaces.drop_last()) + match ifaces.last().addr {
            IpAddress::V4(a) => if a.spec_is_loopback() || ifaces.last().loopback {
                Seq::<Ip4Addr>::empty()
            } else {
                seq![a]
            },
            IpAddress::V6(_) => Seq::<Ip4Addr>::empty(),
        }
    }
}

/// The multicast join targets for a session: a requested interface is the
/// one mandatory target; with none requested, every non-loopback IPv4
/// interface is tried and individual failures are tolerated.
pub fn join_targets(interface: &Option<Ip4Addr>, ifaces: &Vec<IfaceInfo>) -> (r: (
    Vec<Ip4Addr>,
    bool,
))
    ensures
        match interface {
            Some(addr) => r.0@ == seq![*addr] && r.1,
            None => r.0@ == spec_candidates(ifaces@) && !r.1,
        },
{
    match interface {
        Some(addr) => {
            let mut targets: Vec<Ip4Addr> = Vec::new();
            targets.push(*addr);
            (targets, true)
        },
        None => {
            let mut targets: Vec<Ip4Addr> = Vec::new();
            let mut i: usize = 0;
            while i < ifaces.len()
                invariant
                    i <= ifaces@.len(),
                    targets@ == spec_candidates(ifaces@.take(i as int)),
                decreases ifaces@.len() - i,
            {
                proof {
                    assert(ifaces@.take(i + 1).drop_last() == ifaces@.take(i as int));
                    assert(ifaces@.take(i + 1).last() == ifaces@[i as int]);
                }
                match ifaces[i].addr {
                    IpAddress::V4(a) => {
                        if !a.is_loopback() && !ifaces[i].loopback {
                            targets.push(a);
                        }
                    },
                    IpAddress::V6(_) => {},
                }
                i = i + 1;
            }
            proof {
                assert(ifaces@.take(ifaces@.len() as int) == ifaces@);
            }
            (targets, false)
        },
    }
}

/// What the join outcomes of one setup attempt amount to.
#[derive(Clone, Copy, Debug, PartialEq, Eq, Structural)]
pub enum JoinVerdict {
    /// The group was joined somewhere; the session can start.
    Ready,
    /// No interface could be joined; fall back to the wildcard address.
    TryWildcard,
    /// The one interface the caller asked for could not be joined.
    Failed,
}

/// Whether some join attempt succeeded.
pub open spec fn spec_any_joined(results: Seq<bool>) -> bool {
    exists|i: int| 0 <= i < results.len() && results[i]
}

/// The verdict over per-target join outcomes. A mandatory target (the one
/// the caller explicitly requested) fails the whole setup when its join
/// fails; otherwise failures are tolerated per interface, and only when no
/// interface at all was joined is the wildcard fallback called for.
pub open spec fn spec_join_verdict(mandatory: bool, results: Seq<bool>) -> JoinVerdict {
    if spec_any_joined(results) {
        JoinVerdict::Ready
    } else if mandatory {
        JoinVerdict::Failed
    } else {
        JoinVerdict::TryWildcard
    }
}

/// Weigh the join outcomes, one per target in order, into a verdict.
pub fn evaluate_joins(mandatory: bool, results: &Vec<bool>) -> (v: JoinVerdict)
    ensures
        v == spec_join_verdict(mandatory, results@),
{
    let mut i: usize = 0;
    while i < results.len()
        invariant
            i <= results@.len(),
            forall|j: int| 0 <= j < i ==> !results@[j],
        decreases results@.len() - i,
    {
        if results[i] {
            return JoinVerdict::Ready;
        }
        i = i + 1;
    }
    if mandatory {
        JoinVerdict::Failed
    } else {
        JoinVerdict::TryWildcard
    }
}

/// The outcome of the wildcard join, the last resort after every
/// enumerated interface refused: its failure is the setup's failure.
pub open spec fn spec_wildcard_outcome(joined: bool) -> Result<(), Error> {
    if joined {
        Ok(())
    } else {
        Err(Error::Setup)
    }
}

pub fn resolve_wildcard(joined: bool) -> (r: Result<(), Error>)
    ensures
        r == spec_wildcard_outcome(joined),
{
    if joined {
        Ok(())
    } else {
        Err(Error::Setup)
    }
}

/// One successful multicast join among any number of failed ones is enough:
/// the session is ready, without the wildcard fallback.
pub proof fn lemma_one_join_suffices(results: Seq<bool>, i: int)
    requires
        0 <= i < results.len(),
        results[i],
    ensures
        spec_join_verdict(false, results) == JoinVerdict::Ready,
{
}

/// With no interfaces enumerated there is nothing to join: the verdict
/// calls for the wildcard fallback, and that fallback's outcome — joined,
/// or a single setup error — decides the whole setup.
pub proof fn lemma_empty_enumeration_falls_back(wildcard_joined: bool)
    ensures
        spec_candidates(Seq::empty()) == Seq::<Ip4Addr>::empty(),
        spec_join_verdict(false, Seq::empty()) == JoinVerdict::TryWildcard,
        wildcard_joined ==> spec_wildcard_outcome(wildcard_joined) == Ok::<(), Error>(()),
        !wildcard_joined ==> spec_wildcard_outcome(wildcard_joined) == Err::<(), Error>(
            Error::Setup,
        ),
{
    assert(!spec_any_joined(Seq::empty()));
}

} // verus!
