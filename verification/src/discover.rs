//! One discovery session: a single lookup of a single service name, split
//! into a re-query handle and a filtered response stream.
//!
//! The relevance filter is the heart of it: of every decoded response only
//! those survive that carry at least one answer record named exactly like
//! the queried service, and — unless configured otherwise — responses with
//! no answers at all are suppressed. Transport errors always pass through.

use vstd::prelude::*;

use crate::Error;
use crate::codec::{Record, Response, parse_of, query_bytes_of, valid_service_name};
use crate::mdns::{mDNSListener, mDNSSender, mdns_interface};
use crate::net::{Endpoint, Ip4Addr};

verus! {

/// Whether a response with the given answer names gets through the
/// relevance filter for `service` with the given `ignore_empty` setting.
pub open spec fn spec_relevant(names: Seq<Seq<char>>, service: Seq<char>, ignore_empty: bool) -> bool {
    &&& names.len() > 0 || !ignore_empty
    &&& exists|i: int| 0 <= i < names.len() && names[i] == service
}

/// Whether the relevance filter forwards `resp` to the caller.
pub open spec fn spec_forwards(resp: Response, service: Seq<char>, ignore_empty: bool) -> bool {
    spec_relevant(resp.spec_names(), service, ignore_empty)
}

/// Whether some answer record is named exactly `service`.
fn any_name_matches(answers: &Vec<Record>, service: &String) -> (r: bool)
    ensures
        r == exists|i: int| 0 <= i < answers@.len() && answers@[i].name@ == service@,
{
    let mut i: usize = 0;
    while i < answers.len()
        invariant
            i <= answers@.len(),
            forall|j: int| 0 <= j < i ==> answers@[j].name@ != service@,
        decreases answers@.len() - i,
    {
        if answers[i].name == *service {
            return true;
        }
        i = i + 1;
    }
    false
}

/// A multicast DNS discovery request.
///
/// This represents a single lookup of a single service name, on all
/// non-loopback interfaces or on one requested interface.
pub struct Discovery {
    service_name: String,
    mdns_sender: mDNSSender,
    mdns_listener: mDNSListener,
    /// Whether we should ignore empty responses.
    ignore_empty: bool,
    /// The one interface this session was asked for, if any.
    interface: Option<Ip4Addr>,
}

impl Discovery {
    pub closed spec fn spec_service_name(self) -> Seq<char> {
        self.service_name@
    }

    pub closed spec fn spec_ignore_empty(self) -> bool {
        self.ignore_empty
    }

    pub closed spec fn spec_interface(self) -> Option<Ip4Addr> {
        self.interface
    }

    /// The session's name is encodable and both halves agree on it.
    pub closed spec fn wf(self) -> bool {
        &&& valid_service_name(self.service_name@)
        &&& self.mdns_sender.wf()
        &&& self.mdns_sender.spec_service_name() == self.service_name@
    }

    /// Sets whether or not we should ignore empty responses.
    ///
    /// Defaults to `true`.
    pub fn ignore_empty(self, ignore: bool) -> (r: Self)
        ensures
            r.spec_ignore_empty() == ignore,
            r.spec_service_name() == self.spec_service_name(),
            r.spec_interface() == self.spec_interface(),
            self.wf() ==> r.wf(),
    {
        Discovery { ignore_empty: ignore, ..self }
    }

    /// Splits the session into its re-query handle and the filtered
    /// response stream, both bound to the session's service name.
    pub fn listen(self) -> (r: (DiscoveryScanner, DiscoveryStream))
        requires
            self.wf(),
        ensures
            r.0.wf(),
            r.0.spec_service_name() == self.spec_service_name(),
            r.1.spec_service_name() == self.spec_service_name(),
            r.1.spec_ignore_empty() == self.spec_ignore_empty(),
    {
        let Discovery { service_name, mdns_sender, mdns_listener, ignore_empty, interface: _ } =
            self;
        (
            DiscoveryScanner(mdns_sender),
            DiscoveryStream { mdns_listener, service_name, ignore_empty },
        )
    }
}

/// Opens a session querying for a service on all interfaces.
///
/// A service name the codec cannot encode is rejected here, up front,
/// rather than poisoning every later query.
pub fn all(service_name: &str) -> (r: Result<Discovery, Error>)
    ensures
        match r {
            Ok(d) => {
                &&& valid_service_name(service_name@)
                &&& d.wf()
                &&& d.spec_service_name() == service_name@
                &&& d.spec_ignore_empty() == true
                &&& d.spec_interface() is None
            },
            Err(e) => !valid_service_name(service_name@) && e == Error::Encode,
        },
{
    let (mdns_listener, mdns_sender) = match mdns_interface(service_name) {
        Ok(halves) => halves,
        Err(e) => {
            return Err(e);
        },
    };
    Ok(
        Discovery {
            service_name: service_name.to_owned(),
            mdns_sender,
            mdns_listener,
            ignore_empty: true,
            interface: None,
        },
    )
}

/// Opens a session querying for a service on one given interface.
pub fn interface(service_name: &str, interface_addr: Ip4Addr) -> (r: Result<Discovery, Error>)
    ensures
        match r {
            Ok(d) => {
                &&& valid_service_name(service_name@)
                &&& d.wf()
                &&& d.spec_service_name() == service_name@
                &&& d.spec_ignore_empty() == true
                &&& d.spec_interface() == Some(interface_addr)
            },
            Err(e) => !valid_service_name(service_name@) && e == Error::Encode,
        },
{
    let (mdns_listener, mdns_sender) = match mdns_interface(service_name) {
        Ok(halves) => halves,
        Err(e) => {
            return Err(e);
        },
    };
    Ok(
        Discovery {
            service_name: service_name.to_owned(),
            mdns_sender,
            mdns_listener,
            ignore_empty: true,
            interface: Some(interface_addr),
        },
    )
}

/// The re-query handle: triggers one more query datagram per call,
/// independent of whether anyone is consuming the response stream.
#[derive(Clone)]
pub struct DiscoveryScanner(mDNSSender);

impl DiscoveryScanner {
    pub closed spec fn spec_service_name(self) -> Seq<char> {
        self.0.spec_service_name()
    }

    pub closed spec fn wf(self) -> bool {
        self.0.wf()
    }

    /// Produce one more query datagram for the session's service name, to
    /// be sent to the fixed multicast endpoint. Each call stands for
    /// exactly one query datagram on the wire.
    pub fn scan(&mut self) -> (r: Vec<u8>)
        requires
            old(self).wf(),
        ensures
            *final(self) == *old(self),
            r@ == query_bytes_of(old(self).spec_service_name()),
    {
        self.0.send_request()
    }
}

/// The filtered response stream of a session: every inbound datagram runs
/// through the codec and then the relevance filter before the caller sees
/// anything.
pub struct DiscoveryStream {
    mdns_listener: mDNSListener,
    service_name: String,
    ignore_empty: bool,
}

impl DiscoveryStream {
    pub closed spec fn spec_service_name(self) -> Seq<char> {
        self.service_name@
    }

    pub closed spec fn spec_ignore_empty(self) -> bool {
        self.ignore_empty
    }

    /// Whether the relevance filter forwards this response.
    pub fn admits_response(&self, resp: &Response) -> (r: bool)
        ensures
            r == spec_forwards(*resp, self.spec_service_name(), self.spec_ignore_empty()),
    {
        let keep = (!resp.is_empty() || !self.ignore_empty) && any_name_matches(
            &resp.answers,
            &self.service_name,
        );
        proof {
            let names = resp.spec_names();
            assert(names.len() == resp.answers@.len());
            assert(forall|i: int|
                0 <= i < names.len() ==> names[i] == #[trigger] resp.answers@[i].name@);
            assert((exists|i: int| 0 <= i < names.len() && names[i] == self.service_name@)
                == (exists|i: int|
                0 <= i < resp.answers@.len() && resp.answers@[i].name@ == self.service_name@));
        }
        keep
    }

    /// The filter as applied to one item of the raw result sequence:
    /// responses are filtered for relevance, transport errors always pass.
    pub fn admits(&self, item: &Result<Response, Error>) -> (r: bool)
        ensures
            r == match item {
                Ok(resp) => spec_forwards(
                    *resp,
                    self.spec_service_name(),
                    self.spec_ignore_empty(),
                ),
                Err(_) => true,
            },
    {
        match item {
            Ok(resp) => self.admits_response(resp),
            Err(_) => true,
        }
    }

    /// One full step of the listening loop: decode a raw datagram and
    /// apply the relevance filter. Yields the response exactly when the
    /// datagram is non-empty, parses, and is relevant to this session;
    /// malformed or irrelevant datagrams disappear without an error.
    pub fn process_datagram(&self, data: &[u8], source: Endpoint) -> (r: Option<Response>)
        ensures
            r is Some <==> (data@.len() > 0 && (parse_of(data@) matches Some(names)
                && spec_relevant(names, self.spec_service_name(), self.spec_ignore_empty()))),
            r matches Some(resp) ==> {
                &&& resp.source == source
                &&& parse_of(data@) == Some(resp.spec_names())
                &&& spec_forwards(resp, self.spec_service_name(), self.spec_ignore_empty())
            },
    {
        match self.mdns_listener.handle_datagram(data, source) {
            Some(resp) => {
                if self.admits_response(&resp) {
                    Some(resp)
                } else {
                    None
                }
            },
            None => None,
        }
    }
}

/// A response with no answer record named exactly the queried service is
/// dropped by the relevance filter, whatever `ignore_empty` is set to.
pub proof fn lemma_no_match_is_dropped(resp: Response, service: Seq<char>, ignore_empty: bool)
    requires
        forall|i: int| 0 <= i < resp.answers@.len() ==> resp.answers@[i].name@ != service,
    ensures
        !spec_forwards(resp, service, ignore_empty),
{
    let names = resp.spec_names();
    assert(forall|i: int|
        0 <= i < names.len() ==> names[i] == #[trigger] resp.answers@[i].name@);
}

/// A response with some answer record named exactly the queried service is
/// forwarded by the relevance filter, whatever `ignore_empty` is set to:
/// a matching record also makes the response non-empty.
pub proof fn lemma_match_is_forwarded(
    resp: Response,
    service: Seq<char>,
    ignore_empty: bool,
    i: int,
)
    requires
        0 <= i < resp.answers@.len(),
        resp.answers@[i].name@ == service,
    ensures
        spec_forwards(resp, service, ignore_empty),
{
    let names = resp.spec_names();
    assert(names[i] == resp.answers@[i].name@);
}

/// A response with no answer records at all is dropped either way: with
/// `ignore_empty` on, by the emptiness rule; with it off, still, because
/// an absent answer section has no record matching the service name.
pub proof fn lemma_empty_is_dropped(resp: Response, service: Seq<char>, ignore_empty: bool)
    requires
        resp.spec_is_empty(),
    ensures
        !spec_forwards(resp, service, ignore_empty),
{
    assert(resp.spec_names().len() == 0);
}

} // verus!
