//! The codec boundary: what a query datagram holds, and which service
//! names are accepted at all.

use mdns::codec::check_service_name;

#[test]
fn query_round_trips_through_the_wire_format() {
    let discovery = mdns::all("_foo._tcp.local").unwrap();
    let (mut scanner, _stream) = discovery.listen();
    let bytes = scanner.scan();

    let packet = dns_parser::Packet::parse(&bytes).expect("query must parse");
    assert_eq!(packet.header.id, 0);
    assert!(packet.header.query);
    assert!(!packet.header.truncated);
    assert_eq!(packet.questions.len(), 1);
    assert_eq!(packet.questions[0].qname.to_string(), "_foo._tcp.local");
    assert_eq!(packet.questions[0].qtype, dns_parser::QueryType::PTR);
    assert_eq!(packet.questions[0].qclass, dns_parser::QueryClass::IN);
    assert!(!packet.questions[0].prefer_unicast);
    assert_eq!(packet.answers.len(), 0);
}

#[test]
fn query_packet_has_header_name_and_question() {
    let discovery = mdns::all("_googlecast._tcp.local").unwrap();
    let (mut scanner, _stream) = discovery.listen();
    let bytes = scanner.scan();
    // 12 header bytes, the encoded name (its length plus two), 4 bytes of
    // question type and class
    assert_eq!(bytes.len(), "_googlecast._tcp.local".len() + 18);
    // id 0, no flags, one question, no records
    assert_eq!(&bytes[..12], &[0, 0, 0, 0, 0, 1, 0, 0, 0, 0, 0, 0]);
    // the question asks for PTR (12) records of class IN (1)
    assert_eq!(&bytes[bytes.len() - 4..], &[0, 12, 0, 1]);
}

#[test]
fn each_scan_issues_exactly_one_query_datagram() {
    let discovery = mdns::all("_foo._tcp.local").unwrap();
    let (mut scanner, _stream) = discovery.listen();
    let mut datagrams: Vec<Vec<u8>> = Vec::new();
    for _ in 0..5 {
        datagrams.push(scanner.scan());
    }
    assert_eq!(datagrams.len(), 5);
    for d in &datagrams {
        assert_eq!(d, &datagrams[0]);
        assert!(dns_parser::Packet::parse(d).is_ok());
    }
}

#[test]
fn service_name_validity() {
    assert!(check_service_name("_foo._tcp.local"));
    assert!(check_service_name("a"));
    assert!(check_service_name(""));
    // a label of 62 characters is the longest the encoder accepts
    let long_label = "x".repeat(62);
    assert!(check_service_name(&long_label));
    let too_long_label = "x".repeat(63);
    assert!(!check_service_name(&too_long_label));
    let dotted = format!("{}.{}", "x".repeat(62), "y".repeat(62));
    assert!(check_service_name(&dotted));
    // non-ASCII names are refused
    assert!(!check_service_name("caf\u{e9}.local"));
    // as is anything that would overflow one untruncated packet
    let mut many = String::new();
    for _ in 0..200 {
        many.push_str("ab.");
    }
    assert!(check_service_name(&many[..494]));
    let over = "ab.".repeat(200);
    assert!(!check_service_name(&over));
}

#[test]
fn unencodable_names_are_rejected_at_open() {
    let too_long_label = "x".repeat(63);
    match mdns::all(&too_long_label) {
        Err(mdns::Error::Encode) => {},
        _ => panic!("expected an encode error"),
    }
    match mdns::interface(&too_long_label, mdns::net::Ip4Addr::new(10, 0, 0, 2)) {
        Err(mdns::Error::Encode) => {},
        _ => panic!("expected an encode error"),
    }
}
