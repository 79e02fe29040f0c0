//! Inline classifier for forged DNS responses.
//!
//! A received frame is decoded at fixed offsets (Ethernet, IPv4 or IPv6, UDP,
//! and the first twelve bytes of the DNS message), and a small table of byte
//! signatures decides whether the frame is let through or dropped. Every
//! decode failure lets the frame through.
pub mod classify;
pub mod counters;
pub mod decode;
pub mod dispatch;

pub use classify::{classify, first_match, DnsHeaderPrefix, NetworkHeader, Rule, Verdict};
pub use counters::{Connection, Query};
pub use decode::{decode, decode_network, DecodedFrame};
pub use dispatch::clean_dns;
