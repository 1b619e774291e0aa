//! Socket-setup planning: which interfaces to join, what the join
//! outcomes amount to, and the wildcard fallback.

use mdns::mdns::{JoinVerdict, evaluate_joins, join_targets, resolve_wildcard};
use mdns::net::{Endpoint, IfaceInfo, Ip4Addr, IpAddress, MULTICAST_PORT, multicast_endpoint,
    wildcard_addr};

fn v4(a: u8, b: u8, c: u8, d: u8) -> IfaceInfo {
    IfaceInfo { addr: IpAddress::V4(Ip4Addr::new(a, b, c, d)), loopback: false }
}

#[test]
fn candidates_are_the_non_loopback_v4_interfaces() {
    let ifaces = vec![
        IfaceInfo { addr: IpAddress::V4(Ip4Addr::new(127, 0, 0, 1)), loopback: true },
        v4(192, 168, 1, 5),
        IfaceInfo { addr: IpAddress::V6(1), loopback: false },
        v4(10, 0, 0, 7),
    ];
    let (targets, mandatory) = join_targets(&None, &ifaces);
    assert!(!mandatory);
    assert_eq!(targets, vec![Ip4Addr::new(192, 168, 1, 5), Ip4Addr::new(10, 0, 0, 7)]);
}

#[test]
fn loopback_flagged_interfaces_are_skipped_even_with_plain_addresses() {
    let ifaces = vec![IfaceInfo {
        addr: IpAddress::V4(Ip4Addr::new(192, 168, 1, 5)),
        loopback: true,
    }];
    let (targets, _) = join_targets(&None, &ifaces);
    assert!(targets.is_empty());
}

#[test]
fn requested_interface_is_the_one_mandatory_target() {
    let addr = Ip4Addr::new(172, 16, 0, 9);
    let ifaces = vec![v4(192, 168, 1, 5)];
    let (targets, mandatory) = join_targets(&Some(addr), &ifaces);
    assert!(mandatory);
    assert_eq!(targets, vec![addr]);
    assert_eq!(evaluate_joins(true, &vec![true]), JoinVerdict::Ready);
    assert_eq!(evaluate_joins(true, &vec![false]), JoinVerdict::Failed);
}

#[test]
fn one_join_of_three_makes_the_session_usable() {
    // exactly one of three interfaces supports multicast
    let outcomes = vec![false, true, false];
    assert_eq!(evaluate_joins(false, &outcomes), JoinVerdict::Ready);
}

#[test]
fn all_joins_failing_calls_for_the_wildcard_fallback() {
    let outcomes = vec![false, false, false];
    assert_eq!(evaluate_joins(false, &outcomes), JoinVerdict::TryWildcard);
}

#[test]
fn empty_enumeration_falls_back_to_the_wildcard() {
    let (targets, mandatory) = join_targets(&None, &Vec::new());
    assert!(targets.is_empty());
    assert!(!mandatory);
    assert_eq!(evaluate_joins(false, &Vec::new()), JoinVerdict::TryWildcard);
    assert_eq!(resolve_wildcard(true), Ok(()));
    assert_eq!(resolve_wildcard(false), Err(mdns::Error::Setup));
    assert_eq!(wildcard_addr(), Ip4Addr::new(0, 0, 0, 0));
}

#[test]
fn queries_go_to_the_fixed_multicast_endpoint() {
    let e = multicast_endpoint();
    assert_eq!(
        e,
        Endpoint { ip: IpAddress::V4(Ip4Addr::new(224, 0, 0, 251)), port: MULTICAST_PORT }
    );
    assert_eq!(MULTICAST_PORT, 5353);
}
