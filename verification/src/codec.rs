//! The DNS wire-format codec boundary.
//!
//! Encoding a question into bytes and decoding a packet into records is the
//! job of the `dns_parser` crate; this module holds the two trusted calls
//! into it and the plain-value types the rest of the engine reasons over.
//! A query is encoded for a *valid* service name — one whose dot-separated
//! labels the encoder accepts without panicking — and validity itself is
//! checked by verified code.

use vstd::prelude::*;
use vstd::string::StrSliceExecFns;
use vstd::utf8::is_ascii_chars;

use crate::net::Endpoint;

verus! {

/// Every window of 63 consecutive characters starting at `i` holds a dot.
pub open spec fn window_has_dot(s: Seq<char>, i: int) -> bool {
    exists|k: int| i <= k < i + 63 && s[k] == '.'
}

/// No 63 consecutive characters are all dot-free; equivalently, every
/// dot-separated label is at most 62 characters long.
pub open spec fn label_fits(s: Seq<char>) -> bool {
    forall|i: int| 0 <= i && i + 63 <= s.len() ==> #[trigger] window_has_dot(s, i)
}

/// A service name the encoder turns into a query packet: ASCII, labels of
/// at most 62 bytes, and short enough that the single-question packet stays
/// within the 512-byte untruncated limit.
pub open spec fn valid_service_name(s: Seq<char>) -> bool {
    &&& s.len() <= 494
    &&& is_ascii_chars(s)
    &&& label_fits(s)
}

/// Decides `valid_service_name` for a given name.
pub fn check_service_name(s: &str) -> (r: bool)
    ensures
        r == valid_service_name(s@),
{
    if !s.is_ascii() {
        return false;
    }
    let l: usize = s.unicode_len();
    if l > 494 {
        return false;
    }
    let mut i: usize = 0;
    // Length of the run of consecutive non-dot characters ending just
    // before position `i`.
    let mut run: usize = 0;
    while i < l
        invariant
            l == s@.len(),
            l <= 494,
            vstd::string::is_ascii(s),
            i <= l,
            run <= 62,
            run <= i,
            forall|k: int| i - run <= k < i ==> s@[k] != '.',
            run < i ==> s@[i - run - 1] == '.',
            forall|j: int| 0 <= j && j + 63 <= i ==> #[trigger] window_has_dot(s@, j),
        decreases l - i,
    {
        let c: u8 = s.get_ascii(i);
        if c == 46 {
            proof {
                assert(s@[i as int] <= '\u{7f}');
                assert(s@[i as int] == '.');
            }
            run = 0;
        } else {
            proof {
                assert(s@[i as int] != '.');
            }
            if run == 62 {
                proof {
                    let j = i as int - 62;
                    assert(forall|k: int| j <= k < j + 63 ==> s@[k] != '.');
                    assert(!window_has_dot(s@, j));
                }
                return false;
            }
            run = run + 1;
        }
        proof {
            assert forall|j: int| 0 <= j && j + 63 <= i + 1 implies #[trigger] window_has_dot(
                s@,
                j,
            ) by {
                if j + 63 == i + 1 {
                    if s@[i as int] == '.' {
                        assert(j <= i < j + 63 && s@[i as int] == '.');
                    } else {
                        assert(s@[i as int - run] == '.');
                        assert(j <= i - run < j + 63);
                    }
                }
            }
        }
        i = i + 1;
    }
    true
}

/// The bytes `dns_parser` produces for a single-question PTR/IN query for
/// the given service name, with query id 0 and the unicast-response bit
/// clear. Determined by the name alone.
pub uninterp spec fn query_bytes_of(name: Seq<char>) -> Seq<u8>;

/// Relies on `dns_parser::Builder` (`new_query`, `add_question`, `build`):
/// one standard query, id 0, recursion off, one PTR/IN question for `name`,
/// unicast-response bit clear. For a name this short the packet is never
/// truncated, and labels of at most 62 bytes never make `add_question`
/// panic. The packet is 12 header bytes (id 0, no flags, one question, no
/// records), the encoded name (its length plus two), and the question's
/// type PTR (12) and class IN (1), each big-endian.
#[verifier::external_body]
pub(crate) fn encode_query(name: &str) -> (r: Vec<u8>)
    requires
        valid_service_name(name@),
    ensures
        r@ == query_bytes_of(name@),
        r@.len() == name@.len() + 18,
        r@.subrange(0, 12) == seq![0u8, 0, 0, 0, 0, 1, 0, 0, 0, 0, 0, 0],
        r@.subrange(r@.len() - 4, r@.len() as int) == seq![0u8, 12, 0, 1],
{
    let mut builder = dns_parser::Builder::new_query(0, false);
    builder.add_question(name, false, dns_parser::QueryType::PTR, dns_parser::QueryClass::IN);
    match builder.build() {
        Ok(data) => data,
        Err(data) => data,
    }
}

/// The record types `dns_parser` distinguishes, carried as a plain tag.
#[derive(Clone, Copy, Debug, PartialEq, Eq, Structural)]
pub enum RecordKind {
    A,
    Aaaa,
    Cname,
    Mx,
    Ns,
    Ptr,
    Soa,
    Srv,
    Txt,
    Unknown,
}

/// One answer record of a decoded packet: its owner name in dotted form
/// and the type of its payload.
#[derive(Clone, Debug)]
pub struct Record {
    pub name: String,
    pub kind: RecordKind,
}

/// The owner names of a record list, in order.
pub open spec fn record_names(recs: Seq<Record>) -> Seq<Seq<char>> {
    recs.map_values(|r: Record| r.name@)
}

/// What `dns_parser::Packet::parse` makes of the given bytes: `None` when
/// it rejects them as malformed, otherwise the owner names of the answer
/// records, in order. Determined by the bytes alone.
pub uninterp spec fn parse_of(data: Seq<u8>) -> Option<Seq<Seq<char>>>;

#[verifier::external_type_specification]
#[verifier::external_body]
pub struct ExResourceRecord<'a>(dns_parser::ResourceRecord<'a>);

/// Relies on the `dns_parser::ResourceRecord` fields: the record's owner
/// name rendered in dotted form, and its payload variant as a plain tag.
#[verifier::external_body]
fn record_of(rr: &dns_parser::ResourceRecord) -> Record {
    Record {
        name: rr.name.to_string(),
        kind: match rr.data {
            dns_parser::RData::A(_) => RecordKind::A,
            dns_parser::RData::AAAA(_) => RecordKind::Aaaa,
            dns_parser::RData::CNAME(_) => RecordKind::Cname,
            dns_parser::RData::MX(_) => RecordKind::Mx,
            dns_parser::RData::NS(_) => RecordKind::Ns,
            dns_parser::RData::PTR(_) => RecordKind::Ptr,
            dns_parser::RData::SOA(_) => RecordKind::Soa,
            dns_parser::RData::SRV(_) => RecordKind::Srv,
            dns_parser::RData::TXT(_) => RecordKind::Txt,
            dns_parser::RData::Unknown(_) => RecordKind::Unknown,
        },
    }
}

/// Relies on `dns_parser::Packet::parse`: it accepts the bytes and returns
/// the packet's answer section, or rejects them as malformed.
#[verifier::external_body]
pub(crate) fn decode_packet(data: &[u8]) -> (r: Option<Vec<Record>>)
    ensures
        r is Some <==> parse_of(data@) is Some,
        r matches Some(recs) ==> parse_of(data@) == Some(record_names(recs@)),
{
    match dns_parser::Packet::parse(data) {
        Ok(packet) => Some(packet.answers.iter().map(|rr| record_of(rr)).collect()),
        Err(_) => None,
    }
}

/// The decoded result the caller sees: the packet's answer records and the
/// address the datagram came from.
#[derive(Clone, Debug)]
pub struct Response {
    pub answers: Vec<Record>,
    pub source: Endpoint,
}

impl Response {
    /// The owner names of this response's answers, in order.
    pub open spec fn spec_names(self) -> Seq<Seq<char>> {
        record_names(self.answers@)
    }

    pub open spec fn spec_is_empty(self) -> bool {
        self.answers@.len() == 0
    }

    /// Whether the response carries no answer records.
    pub fn is_empty(&self) -> (r: bool)
        ensures
            r == self.spec_is_empty(),
    {
        self.answers.len() == 0
    }
}

} // verus!
