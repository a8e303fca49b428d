//! Core logic of a local SOCKS5-to-tunnel bridge.
//!
//! The bridge accepts plain SOCKS5 clients on a loopback listener, carries
//! their TCP connections over one shared multiplexed tunnel, and intercepts
//! UDP DNS queries aimed at a fixed sentinel address, resolving them over
//! DNS-over-HTTPS through the bridge's own listener.
//!
//! This crate holds the verified decision logic: the lifecycle singleton,
//! the per-direction relay buffers, the SOCKS5 UDP datagram rules, the
//! session dispatch, and the proxy-address formatting. The asynchronous
//! network plumbing around it lives outside the library.

pub mod doh;
pub mod lifecycle;
pub mod relay;
pub mod session;
pub mod udp;
