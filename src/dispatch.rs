//! The per-frame entry point and what holds of its verdict on every frame.
use vstd::prelude::*;
use crate::classify::{
    ancount, classify, nscount, verdict_of, DnsHeaderPrefix, NetworkHeader, Verdict, DNS_PREFIX_LEN,
};
use crate::decode::{
    decode, decodes, dns_prefix_of, network_of, payload_offset, transport_protocol, udp_offset,
    udp_source_port, DNS_PORT, IPPROTO_UDP,
};

verus! {

/// The verdict on a frame: the classifier's verdict on a DNS response that
/// decodes, and Pass on every other frame.
pub open spec fn frame_verdict(f: Seq<u8>) -> Verdict {
    if decodes(f) {
        verdict_of(network_of(f)->0, dns_prefix_of(f))
    } else {
        Verdict::Pass
    }
}

/// Decides whether a captured frame is delivered or discarded.
pub fn clean_dns(frame: &[u8]) -> (r: Verdict)
    ensures
        r == frame_verdict(frame@),
{
    match decode(frame) {
        Some(d) => classify(&d.network, &d.dns),
        None => Verdict::Pass,
    }
}

/// A frame whose IP header names a transport other than UDP is passed.
pub proof fn lemma_non_udp_passes(f: Seq<u8>)
    requires
        network_of(f) is Some,
        transport_protocol(network_of(f)->0) != IPPROTO_UDP,
    ensures
        frame_verdict(f) == Verdict::Pass,
{
}

/// A frame that carries no UDP header with source port 53 is passed; in
/// particular every datagram from another source port.
pub proof fn lemma_other_source_port_passes(f: Seq<u8>)
    requires
        udp_source_port(f) != Some(DNS_PORT),
    ensures
        frame_verdict(f) == Verdict::Pass,
{
}

/// A response with other than exactly one answer, or with authority
/// records, is passed whatever its flags.
pub proof fn lemma_gates_pass(net: NetworkHeader, dns: DnsHeaderPrefix)
    requires
        ancount(dns.bytes@) != 1 || nscount(dns.bytes@) != 0,
    ensures
        verdict_of(net, dns.bytes@) == Verdict::Pass,
{
}

/// The same gates seen on whole frames: a decoded response with other than
/// exactly one answer, or with authority records, is passed.
pub proof fn lemma_frame_gates_pass(f: Seq<u8>)
    requires
        decodes(f),
        ancount(dns_prefix_of(f)) != 1 || nscount(dns_prefix_of(f)) != 0,
    ensures
        frame_verdict(f) == Verdict::Pass,
{
}

/// The verdict depends on the frame's bytes alone: equal frames get equal
/// verdicts.
pub proof fn lemma_deterministic(a: Seq<u8>, b: Seq<u8>)
    requires
        a == b,
    ensures
        frame_verdict(a) == frame_verdict(b),
{
}

/// A UDP datagram with fewer than twelve payload bytes captured is passed.
pub proof fn lemma_short_payload_passes(f: Seq<u8>)
    requires
        udp_offset(f) is Some,
        f.len() < payload_offset(f) + DNS_PREFIX_LEN,
    ensures
        frame_verdict(f) == Verdict::Pass,
{
}

} // verus!
