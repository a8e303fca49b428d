//! DNS-over-HTTPS forwarding support. The forwarder posts the raw DNS query
//! to the DoH endpoint, routed through the bridge's own SOCKS5 listener;
//! this module holds the verified parts: the proxy address the HTTP client
//! is configured with, the POST's media type, and the distinct failure
//! causes surfaced for logging.

use vstd::prelude::*;

verus! {

/// Decimal digits of `n`, most significant first, as ASCII bytes.
pub open spec fn decimal_bytes(n: int) -> Seq<u8>
    recommends
        0 <= n,
    decreases n,
{
    if n < 10 {
        seq![(48 + n) as u8]
    } else {
        decimal_bytes(n / 10).push((48 + n % 10) as u8)
    }
}

/// The fixed prefix `socks5://127.0.0.1:` as ASCII bytes.
pub open spec fn socks_prefix_bytes() -> Seq<u8> {
    seq![
        115u8, 111u8, 99u8, 107u8, 115u8, 53u8, 58u8, 47u8, 47u8, 49u8, 50u8, 55u8, 46u8, 48u8,
        46u8, 48u8, 46u8, 49u8, 58u8,
    ]
}

/// ASCII bytes of `socks5://127.0.0.1:<port>`: the address under which the
/// DoH client reaches the bridge's own listener as its proxy.
pub open spec fn proxy_addr_bytes(port: int) -> Seq<u8> {
    socks_prefix_bytes() + decimal_bytes(port)
}

/// Append the decimal digits of `n`, most significant first.
fn push_decimal(n: u16, out: &mut Vec<u8>)
    ensures
        final(out)@ == old(out)@ + decimal_bytes(n as int),
    decreases n,
{
    if n >= 10 {
        push_decimal(n / 10, out);
    }
    let digit: u8 = 48 + (n % 10) as u8;
    out.push(digit);
    assert(final(out)@ =~= old(out)@ + decimal_bytes(n as int));
}

/// The proxy address `socks5://127.0.0.1:<port>` as ASCII bytes; the caller
/// turns them into the string handed to the HTTP client.
pub fn proxy_addr_for_port(port: u16) -> (r: Vec<u8>)
    ensures
        r@ == proxy_addr_bytes(port as int),
{
    let mut r: Vec<u8> = Vec::new();
    r.push(115);
    r.push(111);
    r.push(99);
    r.push(107);
    r.push(115);
    r.push(53);
    r.push(58);
    r.push(47);
    r.push(47);
    r.push(49);
    r.push(50);
    r.push(55);
    r.push(46);
    r.push(48);
    r.push(46);
    r.push(48);
    r.push(46);
    r.push(49);
    r.push(58);
    assert(r@ =~= socks_prefix_bytes());
    push_decimal(port, &mut r);
    r
}

/// Media type of a DoH POST body.
pub fn doh_content_type() -> (m: &'static str)
    ensures
        m@ == "application/dns-message"@,
{
    "application/dns-message"
}

/// Distinct failure causes of one DoH exchange, surfaced to the caller for
/// logging; none is retried.
#[derive(PartialEq, Eq, Structural, Clone, Copy, Debug)]
pub enum DohError {
    /// The proxy configuration for the local listener was rejected.
    ProxyConfig,
    /// Sending the POST to the DoH endpoint failed.
    Request,
    /// Reading the response body failed.
    BodyRead,
}

/// The message a DoH failure is logged with.
pub fn doh_error_message(e: DohError) -> (m: &'static str)
    ensures
        e == DohError::ProxyConfig ==> m@ == "Failed to create proxy"@,
        e == DohError::Request ==> m@ == "Failed to send request"@,
        e == DohError::BodyRead ==> m@ == "Failed to read response body"@,
{
    match e {
        DohError::ProxyConfig => "Failed to create proxy",
        DohError::Request => "Failed to send request",
        DohError::BodyRead => "Failed to read response body",
    }
}

} // verus!
