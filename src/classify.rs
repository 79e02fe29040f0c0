//! The signature table: two gates on the record counts, then four rules over
//! the network-layer metadata and the fixed DNS header.
use vstd::prelude::*;

verus! {

/// Length of the DNS header prefix that the rules read.
pub const DNS_PREFIX_LEN: usize = 12;

/// What becomes of a frame.
#[derive(Debug, Clone, Copy, PartialEq, Eq, Structural)]
pub enum Verdict {
    /// Deliver the frame to the network stack.
    Pass,
    /// Discard the frame.
    Drop,
}

/// The network-layer fields that the rules read, one variant per IP version.
///
/// `identification` and `fragment_offset` hold the two header bytes as a
/// little-endian host loads them, without conversion from network order: a
/// packet with only Don't-Fragment set reads `fragment_offset == 0x0040`.
/// `flow_label` holds the 20 bits of the IPv6 flow label.
#[derive(Debug, Clone, Copy, PartialEq, Eq, Structural)]
pub enum NetworkHeader {
    V4 { identification: u16, fragment_offset: u16, protocol: u8 },
    V6 { flow_label: u32, hop_limit: u8, next_header: u8 },
}

/// The first twelve bytes of a DNS message: ID, flags, QDCOUNT, ANCOUNT,
/// NSCOUNT and ARCOUNT, two bytes each.
#[derive(Debug, Clone, Copy)]
pub struct DnsHeaderPrefix {
    pub bytes: [u8; 12],
}

/// The signature that caused a drop.
#[derive(Debug, Clone, Copy, PartialEq, Eq, Structural)]
pub enum Rule {
    /// Zero IPv4 identification and fragment field, or zero IPv6 flow label,
    /// with flags `84 00` or `81 80`.
    ZeroId,
    /// Nonzero IPv4 identification with only Don't-Fragment set, or nonzero
    /// IPv6 flow label, with flags `81 80`.
    DontFragment,
    /// Flags `85 80`, `85 90`, `85 a0` or `85 b0` and no additional records.
    Extended,
    /// IPv6 with nonzero flow label and hop limit 53, with flags `84 00` or
    /// `81 80`.
    HopLimit,
}

/// A big-endian 16-bit value.
pub open spec fn be16(hi: u8, lo: u8) -> int {
    hi as int * 256 + lo as int
}

pub open spec fn ancount(p: Seq<u8>) -> int {
    be16(p[6], p[7])
}

pub open spec fn nscount(p: Seq<u8>) -> int {
    be16(p[8], p[9])
}

pub open spec fn arcount(p: Seq<u8>) -> int {
    be16(p[10], p[11])
}

/// Exactly one answer and no authority records.
pub open spec fn gates_hold(p: Seq<u8>) -> bool {
    ancount(p) == 1 && nscount(p) == 0
}

/// Flags `84 00` or `81 80`.
pub open spec fn common_flags(p: Seq<u8>) -> bool {
    (p[2] == 0x84 && p[3] == 0x00) || (p[2] == 0x81 && p[3] == 0x80)
}

/// Flags `85 80`, `85 90`, `85 a0` or `85 b0`.
pub open spec fn extended_flags(p: Seq<u8>) -> bool {
    p[2] == 0x85 && (p[3] == 0x80 || p[3] == 0x90 || p[3] == 0xa0 || p[3] == 0xb0)
}

pub open spec fn zero_id_matches(net: NetworkHeader, p: Seq<u8>) -> bool {
    &&& match net {
        NetworkHeader::V4 { identification, fragment_offset, .. } => identification == 0
            && fragment_offset == 0,
        NetworkHeader::V6 { flow_label, .. } => flow_label == 0,
    }
    &&& common_flags(p)
}

pub open spec fn dont_fragment_matches(net: NetworkHeader, p: Seq<u8>) -> bool {
    &&& match net {
        NetworkHeader::V4 { identification, fragment_offset, .. } => identification != 0
            && fragment_offset == 0x0040,
        NetworkHeader::V6 { flow_label, .. } => flow_label != 0,
    }
    &&& p[2] == 0x81 && p[3] == 0x80
}

pub open spec fn extended_matches(p: Seq<u8>) -> bool {
    arcount(p) == 0 && extended_flags(p)
}

pub open spec fn hop_limit_matches(net: NetworkHeader, p: Seq<u8>) -> bool {
    &&& net matches NetworkHeader::V6 { flow_label, hop_limit, .. }
    &&& flow_label != 0 && hop_limit == 53
    &&& common_flags(p)
}

/// The first rule, in table order, that matches once both gates hold.
pub open spec fn rule_of(net: NetworkHeader, p: Seq<u8>) -> Option<Rule> {
    if !gates_hold(p) {
        None
    } else if zero_id_matches(net, p) {
        Some(Rule::ZeroId)
    } else if dont_fragment_matches(net, p) {
        Some(Rule::DontFragment)
    } else if extended_matches(p) {
        Some(Rule::Extended)
    } else if hop_limit_matches(net, p) {
        Some(Rule::HopLimit)
    } else {
        None
    }
}

/// Drop exactly when some rule matches.
pub open spec fn verdict_of(net: NetworkHeader, p: Seq<u8>) -> Verdict {
    if rule_of(net, p) is Some {
        Verdict::Drop
    } else {
        Verdict::Pass
    }
}

/// The first rule that matches the header, if the gates hold.
pub fn first_match(net: &NetworkHeader, dns: &DnsHeaderPrefix) -> (r: Option<Rule>)
    ensures
        r == rule_of(*net, dns.bytes@),
{
    let b = &dns.bytes;
    if b[6] != 0 || b[7] != 1 || b[8] != 0 || b[9] != 0 {
        return None;
    }
    let common = (b[2] == 0x84 && b[3] == 0x00) || (b[2] == 0x81 && b[3] == 0x80);
    let flags_8180 = b[2] == 0x81 && b[3] == 0x80;
    let (zero_id, dont_fragment, hop_limit_53) = match *net {
        NetworkHeader::V4 { identification, fragment_offset, .. } => (
            identification == 0 && fragment_offset == 0,
            identification != 0 && fragment_offset == 0x0040,
            false,
        ),
        NetworkHeader::V6 { flow_label, hop_limit, .. } => (
            flow_label == 0,
            flow_label != 0,
            flow_label != 0 && hop_limit == 53,
        ),
    };
    if zero_id && common {
        Some(Rule::ZeroId)
    } else if dont_fragment && flags_8180 {
        Some(Rule::DontFragment)
    } else if b[10] == 0 && b[11] == 0 && b[2] == 0x85 && (b[3] == 0x80
        || b[3] == 0x90 || b[3] == 0xa0 || b[3] == 0xb0) {
        Some(Rule::Extended)
    } else if hop_limit_53 && common {
        Some(Rule::HopLimit)
    } else {
        None
    }
}

/// The verdict on a decoded DNS response.
pub fn classify(net: &NetworkHeader, dns: &DnsHeaderPrefix) -> (r: Verdict)
    ensures
        r == verdict_of(*net, dns.bytes@),
{
    match first_match(net, dns) {
        Some(_) => Verdict::Drop,
        None => Verdict::Pass,
    }
}

} // verus!
