//! Multicast DNS service discovery: a client-side engine that multicasts a
//! query for a named service on the local network segment and filters the
//! responses that come back into a relevant result stream.

pub mod codec;
pub mod discover;
pub mod mdns;
pub mod net;

pub use codec::{Record, RecordKind, Response};
pub use discover::{Discovery, DiscoveryScanner, DiscoveryStream, all, interface};
pub use mdns::{mDNSListener, mDNSSender, mdns_interface};

use vstd::prelude::*;

verus! {

/// The errors a discovery session can surface to its caller.
///
/// Decode failures on inbound datagrams are deliberately absent: malformed
/// traffic on a shared multicast port is expected background noise and is
/// dropped silently, never surfaced as an error.
#[derive(Clone, Copy, Debug, PartialEq, Eq, Structural)]
pub enum Error {
    /// Socket creation, bind, or multicast join failed on the only viable
    /// path, before the session could start.
    Setup,
    /// A send or receive failed at the OS/network layer after setup.
    Transport,
    /// The query for this service name could not be encoded into a packet.
    Encode,
}

} // verus!
