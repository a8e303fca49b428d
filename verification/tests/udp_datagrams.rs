use wisp2socks::udp::{
    build_reply_datagram, classify_datagram, datagram_payload, reply_for_doh_outcome,
};

fn ipv4_datagram(addr: [u8; 4], port: u16, payload: &[u8]) -> Vec<u8> {
    let mut d = vec![0u8, 0, 0, 1];
    d.extend_from_slice(&addr);
    d.extend_from_slice(&port.to_be_bytes());
    d.extend_from_slice(payload);
    d
}

fn domain_datagram(domain: &[u8], port: u16, payload: &[u8]) -> Vec<u8> {
    let mut d = vec![0u8, 0, 0, 3, domain.len() as u8];
    d.extend_from_slice(domain);
    d.extend_from_slice(&port.to_be_bytes());
    d.extend_from_slice(payload);
    d
}

#[test]
fn short_datagram_is_dropped() {
    assert_eq!(classify_datagram(&[]), None);
    assert_eq!(classify_datagram(&[0, 0, 0, 1, 10, 0, 0, 144, 0]), None);
}

#[test]
fn fragmented_datagram_is_dropped() {
    let mut d = ipv4_datagram([10, 0, 0, 144], 53, b"query");
    d[2] = 1;
    assert_eq!(classify_datagram(&d), None);
}

#[test]
fn unknown_address_type_is_dropped() {
    // ATYP 4 (IPv6) and other values are unsupported.
    let mut d = ipv4_datagram([10, 0, 0, 144], 53, b"query");
    d[3] = 4;
    assert_eq!(classify_datagram(&d), None);
    d[3] = 0;
    assert_eq!(classify_datagram(&d), None);
}

#[test]
fn ipv4_not_sentinel_is_dropped() {
    let d = ipv4_datagram([8, 8, 8, 8], 53, b"query");
    assert_eq!(classify_datagram(&d), None);
    let d = ipv4_datagram([10, 0, 0, 143], 53, b"query");
    assert_eq!(classify_datagram(&d), None);
}

#[test]
fn ipv4_sentinel_is_forwarded() {
    let d = ipv4_datagram([10, 0, 0, 144], 53, b"query");
    assert_eq!(classify_datagram(&d), Some(10));
    assert_eq!(datagram_payload(&d, 10), b"query".to_vec());
}

#[test]
fn ipv4_sentinel_without_payload_is_dropped() {
    let d = ipv4_datagram([10, 0, 0, 144], 53, b"");
    assert_eq!(classify_datagram(&d), None);
}

#[test]
fn domain_datagram_is_forwarded() {
    let d = domain_datagram(b"dns.example", 53, b"query");
    // Header is 7 + domain-length-byte.
    assert_eq!(classify_datagram(&d), Some(7 + 11));
    assert_eq!(datagram_payload(&d, 18), b"query".to_vec());
}

#[test]
fn domain_datagram_without_payload_is_dropped() {
    let d = domain_datagram(b"dns.example", 53, b"");
    assert_eq!(classify_datagram(&d), None);
}

#[test]
fn reply_reuses_original_header() {
    let d = ipv4_datagram([10, 0, 0, 144], 53, b"query");
    let response = b"answer bytes".to_vec();
    let reply = build_reply_datagram(&d, 10, &response);
    assert_eq!(&reply[..10], &d[..10]);
    assert_eq!(&reply[10..], b"answer bytes");
}

#[test]
fn doh_success_sends_reply_and_failure_drops() {
    // A 12-byte DNS query (a bare header) aimed at the sentinel.
    let query = [0x12u8, 0x34, 1, 0, 0, 1, 0, 0, 0, 0, 0, 0];
    let d = ipv4_datagram([10, 0, 0, 144], 53, &query);
    let header_len = classify_datagram(&d).expect("sentinel query must be forwarded");

    let response = vec![0xde, 0xad, 0xbe, 0xef];
    let reply = reply_for_doh_outcome(&d, header_len, Some(response.clone()))
        .expect("successful exchange must produce a reply");
    let mut expected = d[..header_len].to_vec();
    expected.extend_from_slice(&response);
    assert_eq!(reply, expected);

    assert_eq!(reply_for_doh_outcome(&d, header_len, None), None);
}
