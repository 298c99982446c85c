use vstd::prelude::*;
use crate::errors::ReadError;
use crate::ip::SpecIpHeader;
use crate::ipv6::{spec_is_skippable_header_extension, IPV6_MAX_NUM_HEADER_EXTENSIONS};
use crate::link::{
    spec_read_ethernet2, SpecEthernet2Header, ETHER_TYPE_IPV4, ETHER_TYPE_IPV6,
};
use crate::packet::{spec_from_ethernet, spec_from_ip, spec_read_networks, SpecPacketHeaders};
use crate::transport::{
    spec_read_transport, TransportHeader, IP_PROTOCOL_TCP, IP_PROTOCOL_UDP,
};
use crate::vlan::{
    spec_is_vlan_ether_type, spec_read_single_vlan, spec_read_vlans, DoubleVlanHeader,
    SingleVlanHeader, VlanHeader,
};

verus! {

/// Bytes occupied by the link layer of a decoded stack.
pub open spec fn spec_link_len(link: Option<SpecEthernet2Header>) -> int {
    match link {
        Some(_) => 14,
        None => 0,
    }
}

/// Bytes occupied by the VLAN layer of a decoded stack.
pub open spec fn spec_vlan_len(vlan: Option<VlanHeader>) -> int {
    match vlan {
        None => 0,
        Some(VlanHeader::Single(_)) => 4,
        Some(VlanHeader::Double(_)) => 8,
    }
}

/// Bytes occupied by the IP header of a decoded stack (options included;
/// IPv6 extension headers are not part of the fixed header).
pub open spec fn spec_ip_len(ip: Option<SpecIpHeader>) -> int {
    match ip {
        None => 0,
        Some(SpecIpHeader::Version4(h)) => (h.ihl as int) * 4,
        Some(SpecIpHeader::Version6(_)) => 40,
    }
}

/// Bytes occupied by the transport header of a decoded stack (options
/// included).
pub open spec fn spec_transport_len(transport: Option<TransportHeader>) -> int {
    match transport {
        None => 0,
        Some(TransportHeader::Udp(_)) => 8,
        Some(TransportHeader::Tcp(h)) => (h.data_offset as int) * 4,
    }
}

/// Bytes occupied by all headers of a decoded stack, in stack order.
pub open spec fn spec_headers_len(p: SpecPacketHeaders) -> int {
    spec_link_len(p.link) + spec_vlan_len(p.vlan) + spec_ip_len(p.ip) + spec_transport_len(
        p.transport,
    )
}

/// The VLAN layer accounts exactly for the bytes between the suffix it was
/// handed and the suffix it returns.
proof fn lemma_vlans_len(ether_type: u16, s: Seq<u8>)
    requires
        spec_read_vlans(ether_type, s) is Ok,
    ensures
        spec_vlan_len(spec_read_vlans(ether_type, s)->Ok_0.0) + spec_read_vlans(
            ether_type,
            s,
        )->Ok_0.2.len() == s.len(),
{
}

/// The transport layer accounts exactly for the bytes between the suffix it
/// was handed and the suffix it returns.
proof fn lemma_transport_len(protocol: u8, s: Seq<u8>)
    requires
        spec_read_transport(protocol, s) is Ok,
    ensures
        spec_transport_len(spec_read_transport(protocol, s)->Ok_0.0) + spec_read_transport(
            protocol,
            s,
        )->Ok_0.1.len() == s.len(),
{
}

/// The network and transport layers account exactly for the bytes between
/// the suffix they were handed and the final suffix — provided no IPv6
/// extension headers lie in between, since their bytes are skipped and
/// belong to no header of the stack.
proof fn lemma_networks_len(ether_type: u16, s: Seq<u8>)
    requires
        spec_read_networks(ether_type, s) is Ok,
        spec_read_networks(ether_type, s)->Ok_0.0 matches Some(SpecIpHeader::Version6(h))
            ==> !spec_is_skippable_header_extension(h.next_header),
    ensures
        spec_ip_len(spec_read_networks(ether_type, s)->Ok_0.0) + spec_transport_len(
            spec_read_networks(ether_type, s)->Ok_0.1,
        ) + spec_read_networks(ether_type, s)->Ok_0.2.len() == s.len(),
{
    if ether_type == ETHER_TYPE_IPV4 {
        let (ip, r1) = crate::ipv4::spec_read_ipv4(s)->Ok_0;
        lemma_transport_len(ip.protocol, r1);
    } else if ether_type == ETHER_TYPE_IPV6 {
        let (ip, r1) = crate::ipv6::spec_read_ipv6(s)->Ok_0;
        let chain = crate::ipv6::spec_skip_all_header_extensions(
            r1,
            ip.next_header,
            IPV6_MAX_NUM_HEADER_EXTENSIONS as nat,
        );
        assert(chain == Ok::<(u8, Seq<u8>), ReadError>((ip.next_header, r1)));
        lemma_transport_len(ip.next_header, r1);
    }
}

/// Byte conservation for the link-layer entry point: every byte of the
/// input is accounted for by exactly one decoded header or by the payload,
/// so the header lengths and the payload length sum to the input length.
///
/// Stated of successful decodes whose IPv6 header (if any) is not followed
/// by extension headers: extension-header bytes are skipped, belong to no
/// field of the stack, and would make the sum fall short of the input
/// length by exactly their size.
pub proof fn lemma_byte_conservation_from_ethernet(s: Seq<u8>)
    requires
        spec_from_ethernet(s) is Ok,
        spec_from_ethernet(s)->Ok_0.ip matches Some(SpecIpHeader::Version6(h))
            ==> !spec_is_skippable_header_extension(h.next_header),
    ensures
        spec_headers_len(spec_from_ethernet(s)->Ok_0) + spec_from_ethernet(
            s,
        )->Ok_0.payload.len() == s.len(),
{
    let (link, r1) = spec_read_ethernet2(s)->Ok_0;
    lemma_vlans_len(link.ether_type, r1);
    let (vlan, ether_type, r2) = spec_read_vlans(link.ether_type, r1)->Ok_0;
    lemma_networks_len(ether_type, r2);
}

/// Byte conservation for the network-layer entry point, under the same
/// IPv6 extension-header proviso as
/// [`lemma_byte_conservation_from_ethernet`].
pub proof fn lemma_byte_conservation_from_ip(s: Seq<u8>)
    requires
        spec_from_ip(s) is Ok,
        spec_from_ip(s)->Ok_0.ip matches Some(SpecIpHeader::Version6(h))
            ==> !spec_is_skippable_header_extension(h.next_header),
    ensures
        spec_headers_len(spec_from_ip(s)->Ok_0) + spec_from_ip(s)->Ok_0.payload.len() == s.len(),
{
    let (ip, r1) = crate::ip::spec_read_ip(s)->Ok_0;
    match ip {
        SpecIpHeader::Version4(h) => {
            lemma_transport_len(h.protocol, r1);
        },
        SpecIpHeader::Version6(h) => {
            let chain = crate::ipv6::spec_skip_all_header_extensions(
                r1,
                h.next_header,
                IPV6_MAX_NUM_HEADER_EXTENSIONS as nat,
            );
            assert(chain == Ok::<(u8, Seq<u8>), ReadError>((h.next_header, r1)));
            lemma_transport_len(h.next_header, r1);
        },
    }
}

/// The double-tag cap: when the link header announces a VLAN tag, the first
/// tag announces a second one, and even the second tag's own ether type is
/// again a VLAN marker, the decode still records exactly `Double(outer,
/// inner)` — a third tag is never consumed, and the inner tag's ether type
/// is used as-is for network-layer dispatch (here a VLAN marker, which the
/// network layer does not recognize, so everything after the second tag is
/// payload).
pub proof fn lemma_double_vlan_tag_cap(
    s: Seq<u8>,
    link: SpecEthernet2Header,
    r1: Seq<u8>,
    outer: SingleVlanHeader,
    r2: Seq<u8>,
    inner: SingleVlanHeader,
    r3: Seq<u8>,
)
    requires
        spec_read_ethernet2(s) == Ok::<(SpecEthernet2Header, Seq<u8>), ReadError>((link, r1)),
        spec_is_vlan_ether_type(link.ether_type),
        spec_read_single_vlan(r1) == Ok::<(SingleVlanHeader, Seq<u8>), ReadError>((outer, r2)),
        spec_is_vlan_ether_type(outer.ether_type),
        spec_read_single_vlan(r2) == Ok::<(SingleVlanHeader, Seq<u8>), ReadError>((inner, r3)),
        spec_is_vlan_ether_type(inner.ether_type),
    ensures
        spec_from_ethernet(s) == Ok::<SpecPacketHeaders, ReadError>(
            SpecPacketHeaders {
                link: Some(link),
                vlan: Some(VlanHeader::Double(DoubleVlanHeader { outer, inner })),
                ip: None,
                transport: None,
                payload: r3,
            },
        ),
{
}

/// Graceful stop: a link header whose ether type announces neither a VLAN
/// tag nor an IP version leaves every further layer absent, and everything
/// after the link header is payload.
pub proof fn lemma_graceful_stop(s: Seq<u8>, link: SpecEthernet2Header, r1: Seq<u8>)
    requires
        spec_read_ethernet2(s) == Ok::<(SpecEthernet2Header, Seq<u8>), ReadError>((link, r1)),
        !spec_is_vlan_ether_type(link.ether_type),
        link.ether_type != ETHER_TYPE_IPV4,
        link.ether_type != ETHER_TYPE_IPV6,
    ensures
        spec_from_ethernet(s) == Ok::<SpecPacketHeaders, ReadError>(
            SpecPacketHeaders {
                link: Some(link),
                vlan: None,
                ip: None,
                transport: None,
                payload: r1,
            },
        ),
{
}

/// An unrecognized transport protocol number is a success, not an error:
/// nothing is consumed and the transport layer stays absent.
pub proof fn lemma_unknown_transport_protocol(protocol: u8, s: Seq<u8>)
    requires
        protocol != IP_PROTOCOL_TCP,
        protocol != IP_PROTOCOL_UDP,
    ensures
        spec_read_transport(protocol, s) == Ok::<(Option<TransportHeader>, Seq<u8>), ReadError>(
            (None, s),
        ),
{
}

/// The stack is strictly top-down for the link-layer entry point: the link
/// header is always present on success, and a transport header is only ever
/// present under an IP header.
pub proof fn lemma_top_down_stack_from_ethernet(s: Seq<u8>)
    requires
        spec_from_ethernet(s) is Ok,
    ensures
        spec_from_ethernet(s)->Ok_0.link is Some,
        spec_from_ethernet(s)->Ok_0.transport is Some ==> spec_from_ethernet(s)->Ok_0.ip is Some,
{
}

/// The network-layer entry point never produces link or VLAN layers, always
/// produces an IP header on success, and a transport header only under it.
pub proof fn lemma_top_down_stack_from_ip(s: Seq<u8>)
    requires
        spec_from_ip(s) is Ok,
    ensures
        spec_from_ip(s)->Ok_0.link is None,
        spec_from_ip(s)->Ok_0.vlan is None,
        spec_from_ip(s)->Ok_0.ip is Some,
{
}

/// Network-layer entry equivalence: when a packet decoded from the link
/// layer carries an IP ether type, decoding the bytes after the link header
/// through the network-layer entry point yields the same stack with `link`
/// and `vlan` absent.
pub proof fn lemma_network_entry_equivalence(s: Seq<u8>, link: SpecEthernet2Header, r1: Seq<u8>)
    requires
        spec_read_ethernet2(s) == Ok::<(SpecEthernet2Header, Seq<u8>), ReadError>((link, r1)),
        link.ether_type == ETHER_TYPE_IPV4 || link.ether_type == ETHER_TYPE_IPV6,
        spec_from_ethernet(s) is Ok,
    ensures
        spec_from_ip(r1) is Ok,
        spec_from_ip(r1)->Ok_0 == (SpecPacketHeaders {
            link: None,
            vlan: None,
            ip: spec_from_ethernet(s)->Ok_0.ip,
            transport: spec_from_ethernet(s)->Ok_0.transport,
            payload: spec_from_ethernet(s)->Ok_0.payload,
        }),
{
    if link.ether_type == ETHER_TYPE_IPV4 {
        let (ip, r2) = crate::ipv4::spec_read_ipv4(r1)->Ok_0;
        assert((r1[0] as int) / 16 == 4);
    } else {
        let (ip, r2) = crate::ipv6::spec_read_ipv6(r1)->Ok_0;
        assert((r1[0] as int) / 16 == 6);
    }
}

} // verus!
