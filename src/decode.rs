//! Decoding of a captured frame at fixed offsets: Ethernet, then IPv4 or
//! IPv6, then UDP, then the fixed DNS header. Every read is checked against
//! the captured length first; a short or unsupported frame decodes to nothing.
use vstd::prelude::*;
use crate::classify::{be16, DnsHeaderPrefix, NetworkHeader, DNS_PREFIX_LEN};

verus! {

pub const ETH_HEADER_LEN: usize = 14;

pub const ETHERTYPE_IPV4: u16 = 0x0800;

pub const ETHERTYPE_IPV6: u16 = 0x86dd;

pub const IPV4_HEADER_LEN: usize = 20;

pub const IPV6_HEADER_LEN: usize = 40;

pub const UDP_HEADER_LEN: usize = 8;

pub const IPPROTO_UDP: u8 = 17;

pub const DNS_PORT: u16 = 53;

/// A 16-bit value as a little-endian host loads it from two bytes.
pub open spec fn le16(lo: u8, hi: u8) -> int {
    lo as int + hi as int * 256
}

/// The Ethernet type field; meaningful once the Ethernet header is captured.
pub open spec fn ethertype(f: Seq<u8>) -> int {
    be16(f[12], f[13])
}

/// The network-layer header, when the frame declares IPv4 or IPv6 and its
/// fixed header is captured whole.
pub open spec fn network_of(f: Seq<u8>) -> Option<NetworkHeader> {
    if f.len() < ETH_HEADER_LEN {
        None
    } else if ethertype(f) == ETHERTYPE_IPV4 {
        if f.len() < ETH_HEADER_LEN + IPV4_HEADER_LEN {
            None
        } else {
            Some(
                NetworkHeader::V4 {
                    identification: le16(f[18], f[19]) as u16,
                    fragment_offset: le16(f[20], f[21]) as u16,
                    protocol: f[23],
                },
            )
        }
    } else if ethertype(f) == ETHERTYPE_IPV6 {
        if f.len() < ETH_HEADER_LEN + IPV6_HEADER_LEN {
            None
        } else {
            Some(
                NetworkHeader::V6 {
                    flow_label: ((f[15] as int % 16) * 65536 + f[16] as int * 256
                        + f[17] as int) as u32,
                    hop_limit: f[21],
                    next_header: f[20],
                },
            )
        }
    } else {
        None
    }
}

/// The IPv4 protocol field or the IPv6 next-header field.
pub open spec fn transport_protocol(net: NetworkHeader) -> u8 {
    match net {
        NetworkHeader::V4 { protocol, .. } => protocol,
        NetworkHeader::V6 { next_header, .. } => next_header,
    }
}

/// Where the transport header starts: after an IPv4 header of IHL words, or
/// after the fixed IPv6 header.
pub open spec fn transport_offset(f: Seq<u8>, net: NetworkHeader) -> int {
    match net {
        NetworkHeader::V4 { .. } => ETH_HEADER_LEN + (f[14] as int % 16) * 4,
        NetworkHeader::V6 { .. } => ETH_HEADER_LEN + IPV6_HEADER_LEN,
    }
}

/// Where the UDP header starts, when the frame carries UDP and the whole UDP
/// header is captured.
pub open spec fn udp_offset(f: Seq<u8>) -> Option<int> {
    match network_of(f) {
        Some(net) => {
            let t = transport_offset(f, net);
            if transport_protocol(net) == IPPROTO_UDP && t + UDP_HEADER_LEN <= f.len() {
                Some(t)
            } else {
                None
            }
        },
        None => None,
    }
}

/// The UDP source port, when the frame carries a captured UDP header.
pub open spec fn udp_source_port(f: Seq<u8>) -> Option<u16> {
    match udp_offset(f) {
        Some(t) => Some(be16(f[t], f[t + 1]) as u16),
        None => None,
    }
}

/// Where the UDP payload, and so the DNS message, starts.
pub open spec fn payload_offset(f: Seq<u8>) -> int {
    udp_offset(f)->0 + UDP_HEADER_LEN
}

/// A UDP datagram from the DNS port with at least twelve payload bytes captured.
pub open spec fn decodes(f: Seq<u8>) -> bool {
    &&& udp_source_port(f) == Some(DNS_PORT)
    &&& payload_offset(f) + DNS_PREFIX_LEN <= f.len()
}

/// The first twelve payload bytes.
pub open spec fn dns_prefix_of(f: Seq<u8>) -> Seq<u8> {
    f.subrange(payload_offset(f), payload_offset(f) + DNS_PREFIX_LEN)
}

/// What the classifier is given about a DNS response.
#[derive(Debug, Clone, Copy)]
pub struct DecodedFrame {
    pub network: NetworkHeader,
    pub source_port: u16,
    pub dns: DnsHeaderPrefix,
}

fn read_be16(frame: &[u8], at: usize) -> (r: u16)
    requires
        at + 1 < frame@.len(),
    ensures
        r == be16(frame@[at as int], frame@[at + 1]),
{
    (frame[at] as u16) * 256 + (frame[at + 1] as u16)
}

fn read_le16(frame: &[u8], at: usize) -> (r: u16)
    requires
        at + 1 < frame@.len(),
    ensures
        r == le16(frame@[at as int], frame@[at + 1]),
{
    (frame[at] as u16) + (frame[at + 1] as u16) * 256
}

/// The network-layer header of the frame, if it has one that is supported.
pub fn decode_network(frame: &[u8]) -> (r: Option<NetworkHeader>)
    ensures
        r == network_of(frame@),
{
    let n = frame.len();
    if n < ETH_HEADER_LEN {
        return None;
    }
    let ethertype = read_be16(frame, 12);
    if ethertype == ETHERTYPE_IPV4 {
        if n < ETH_HEADER_LEN + IPV4_HEADER_LEN {
            return None;
        }
        Some(
            NetworkHeader::V4 {
                identification: read_le16(frame, 18),
                fragment_offset: read_le16(frame, 20),
                protocol: frame[23],
            },
        )
    } else if ethertype == ETHERTYPE_IPV6 {
        if n < ETH_HEADER_LEN + IPV6_HEADER_LEN {
            return None;
        }
        let b = frame[15];
        let high = b & 0x0f;
        assert(b & 0x0f == b % 16) by (bit_vector);
        let flow_label = (high as u32) * 65536 + (frame[16] as u32) * 256 + (frame[17] as u32);
        Some(NetworkHeader::V6 { flow_label, hop_limit: frame[21], next_header: frame[20] })
    } else {
        None
    }
}

/// Decodes a DNS response from the frame; nothing for any other frame.
pub fn decode(frame: &[u8]) -> (r: Option<DecodedFrame>)
    ensures
        match r {
            Some(d) => {
                &&& decodes(frame@)
                &&& network_of(frame@) == Some(d.network)
                &&& d.source_port == DNS_PORT
                &&& d.dns.bytes@ == dns_prefix_of(frame@)
            },
            None => !decodes(frame@),
        },
{
    let n = frame.len();
    let network = match decode_network(frame) {
        Some(net) => net,
        None => return None,
    };
    let (protocol, transport) = match network {
        NetworkHeader::V4 { protocol, .. } => {
            let b = frame[14];
            let ihl = b & 0x0f;
            assert(b & 0x0f == b % 16) by (bit_vector);
            (protocol, ETH_HEADER_LEN + (ihl as usize) * 4)
        },
        NetworkHeader::V6 { next_header, .. } => (next_header, ETH_HEADER_LEN + IPV6_HEADER_LEN),
    };
    if protocol != IPPROTO_UDP || n < transport + UDP_HEADER_LEN {
        return None;
    }
    let source_port = read_be16(frame, transport);
    if source_port != DNS_PORT {
        return None;
    }
    let o = transport + UDP_HEADER_LEN;
    if n - o < DNS_PREFIX_LEN {
        return None;
    }
    let bytes: [u8; 12] = [
        frame[o],
        frame[o + 1],
        frame[o + 2],
        frame[o + 3],
        frame[o + 4],
        frame[o + 5],
        frame[o + 6],
        frame[o + 7],
        frame[o + 8],
        frame[o + 9],
        frame[o + 10],
        frame[o + 11],
    ];
    assert(bytes@ =~= dns_prefix_of(frame@));
    Some(DecodedFrame { network, source_port, dns: DnsHeaderPrefix { bytes } })
}

} // verus!
