//! SOCKS5 UDP datagram rules for DNS interception. A datagram is
//! `[RSV(2)][FRAG(1)][ATYP(1)][DST.ADDR][DST.PORT(2)][DATA...]`; only
//! unfragmented datagrams with an IPv4 or domain destination are considered,
//! and IPv4 destinations are intercepted only when aimed at the fixed
//! sentinel DNS address. Everything else is silently dropped.

use vstd::prelude::*;

verus! {

/// Address type byte for a fixed four-byte IPv4 destination.
pub const ATYP_IPV4: u8 = 1;

/// Address type byte for a length-prefixed domain-name destination.
pub const ATYP_DOMAIN: u8 = 3;

/// Whether the four address bytes are the sentinel fake DNS server,
/// `10.0.0.144`, the only IPv4 destination whose traffic is intercepted.
pub open spec fn is_sentinel_dns_addr(a: u8, b: u8, c: u8, d: u8) -> bool {
    a == 10 && b == 0 && c == 0 && d == 144
}

/// Length of the SOCKS5 UDP header for the datagram's address type: 10 for
/// IPv4, `7 + domain-length-byte` for a domain name. Meaningful only when
/// the datagram is long enough to carry the fields it reads.
pub open spec fn spec_header_len(d: Seq<u8>) -> int {
    if d[3] == ATYP_IPV4 {
        10
    } else {
        7 + d[4]
    }
}

/// Whether a received datagram is forwarded to the DNS-over-HTTPS step. It
/// must be at least 10 bytes, unfragmented, carry a nonempty payload after
/// its header, and name either the sentinel IPv4 destination or a domain
/// destination.
pub open spec fn forwards(d: Seq<u8>) -> bool {
    &&& d.len() >= 10
    &&& d[2] == 0
    &&& {
        ||| (d[3] == ATYP_IPV4 && is_sentinel_dns_addr(d[4], d[5], d[6], d[7]) && d.len() > 10)
        ||| (d[3] == ATYP_DOMAIN && d.len() > 7 + d[4])
    }
}

/// Decide one received datagram: `Some(header_len)` when it is forwarded,
/// with the DNS query payload following the header, and `None` when it is
/// silently dropped.
pub fn classify_datagram(d: &[u8]) -> (r: Option<usize>)
    ensures
        r is Some <==> forwards(d@),
        r matches Some(h) ==> h == spec_header_len(d@) && h < d@.len(),
{
    if d.len() < 10 {
        return None;
    }
    if d[2] != 0 {
        return None;
    }
    let atyp = d[3];
    if atyp == ATYP_IPV4 {
        if d[4] == 10 && d[5] == 0 && d[6] == 0 && d[7] == 144 && d.len() > 10 {
            Some(10)
        } else {
            None
        }
    } else if atyp == ATYP_DOMAIN {
        let header_len: usize = 7 + d[4] as usize;
        if d.len() > header_len {
            Some(header_len)
        } else {
            None
        }
    } else {
        None
    }
}

/// The DNS query payload of a forwarded datagram: the bytes after its header.
pub fn datagram_payload(d: &[u8], header_len: usize) -> (p: Vec<u8>)
    requires
        header_len <= d@.len(),
    ensures
        p@ == d@.skip(header_len as int),
{
    let mut p: Vec<u8> = Vec::new();
    let mut i: usize = header_len;
    while i < d.len()
        invariant
            header_len <= i <= d@.len(),
            p@ == d@.subrange(header_len as int, i as int),
        decreases d@.len() - i,
    {
        let byte = d[i];
        p.push(byte);
        assert(p@ =~= d@.subrange(header_len as int, i + 1));
        i += 1;
    }
    assert(p@ =~= d@.skip(header_len as int));
    p
}

/// The reply datagram for a forwarded query: the original header bytes
/// followed by the DNS response payload, sent back to the original sender.
pub fn build_reply_datagram(d: &[u8], header_len: usize, response: &Vec<u8>) -> (r: Vec<u8>)
    requires
        header_len <= d@.len(),
        header_len + response@.len() <= usize::MAX,
    ensures
        r@ == d@.take(header_len as int) + response@,
{
    let mut r: Vec<u8> = Vec::new();
    let mut i: usize = 0;
    while i < header_len
        invariant
            i <= header_len <= d@.len(),
            r@ == d@.take(i as int),
        decreases header_len - i,
    {
        let byte = d[i];
        r.push(byte);
        assert(r@ =~= d@.take(i + 1));
        i += 1;
    }
    let mut j: usize = 0;
    while j < response.len()
        invariant
            j <= response@.len(),
            header_len <= d@.len(),
            r@ == d@.take(header_len as int) + response@.take(j as int),
        decreases response@.len() - j,
    {
        let byte = response[j];
        r.push(byte);
        assert(r@ =~= d@.take(header_len as int) + response@.take(j + 1));
        j += 1;
    }
    assert(r@ =~= d@.take(header_len as int) + response@);
    r
}

/// Decide the end of one interception step from the DoH exchange's outcome:
/// on success the reply datagram (original header, then the response) goes
/// back to the original sender; on failure the datagram is dropped with no
/// reply and no retry, whatever the failure was.
pub fn reply_for_doh_outcome(d: &[u8], header_len: usize, outcome: Option<Vec<u8>>) -> (r: Option<
    Vec<u8>,
>)
    requires
        header_len <= d@.len(),
        outcome matches Some(p) ==> header_len + p@.len() <= usize::MAX,
    ensures
        outcome matches Some(p) ==> r matches Some(rep) && rep@ == d@.take(header_len as int) + p@,
        outcome is None ==> r is None,
{
    match outcome {
        Some(response) => Some(build_reply_datagram(d, header_len, &response)),
        None => None,
    }
}

/// A datagram shorter than 10 bytes is always dropped.
pub proof fn lemma_short_datagram_dropped(d: Seq<u8>)
    requires
        d.len() < 10,
    ensures
        !forwards(d),
{
}

/// A fragmented datagram (nonzero fragmentation byte) is always dropped.
pub proof fn lemma_fragmented_datagram_dropped(d: Seq<u8>)
    requires
        d[2] != 0,
    ensures
        !forwards(d),
{
}

/// A datagram whose address type is neither IPv4 nor domain is always
/// dropped.
pub proof fn lemma_unknown_address_type_dropped(d: Seq<u8>)
    requires
        d[3] != ATYP_IPV4,
        d[3] != ATYP_DOMAIN,
    ensures
        !forwards(d),
{
}

/// An IPv4 datagram whose destination is not the sentinel DNS address is
/// always dropped.
pub proof fn lemma_non_sentinel_ipv4_dropped(d: Seq<u8>)
    requires
        d[3] == ATYP_IPV4,
        !is_sentinel_dns_addr(d[4], d[5], d[6], d[7]),
    ensures
        !forwards(d),
{
}

/// An unfragmented IPv4 datagram aimed at the sentinel DNS address, with a
/// nonempty payload, is forwarded to the DNS-over-HTTPS step.
pub proof fn lemma_sentinel_ipv4_forwarded(d: Seq<u8>)
    requires
        d.len() > 10,
        d[2] == 0,
        d[3] == ATYP_IPV4,
        is_sentinel_dns_addr(d[4], d[5], d[6], d[7]),
    ensures
        forwards(d),
{
}

} // verus!
