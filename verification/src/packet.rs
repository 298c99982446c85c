use vstd::prelude::*;
use crate::errors::ReadError;
use crate::ip::{spec_read_ip, IpHeader, SpecIpHeader};
use crate::ipv4::Ipv4Header;
use crate::ipv6::{
    spec_skip_all_header_extensions, Ipv6Header, IPV6_MAX_NUM_HEADER_EXTENSIONS,
};
use crate::link::{
    spec_read_ethernet2, Ethernet2Header, SpecEthernet2Header, ETHER_TYPE_IPV4, ETHER_TYPE_IPV6,
};
use crate::transport::{read_transport, spec_read_transport, TransportHeader};
use crate::vlan::{
    is_vlan_ether_type, spec_read_vlans, DoubleVlanHeader, SingleVlanHeader, VlanHeader,
};

verus! {

/// Decoded packet headers (data link layer and higher): the aggregate,
/// zero-copy result of one decode call. Every header is an owned copy of
/// its fields while `payload` stays a view into the caller's buffer.
///
/// The stack is strictly top-down: a layer is present only if every layer
/// above it in `link`, `vlan`, `ip`, `transport` order was recognized (the
/// two entry points leave the layers they do not handle absent).
#[derive(Clone, Debug, PartialEq, Eq)]
pub struct PacketHeaders<'a> {
    pub link: Option<Ethernet2Header>,
    pub vlan: Option<VlanHeader>,
    pub ip: Option<IpHeader>,
    pub transport: Option<TransportHeader>,
    /// Rest of the packet that could not be decoded as a header (usually
    /// the payload).
    pub payload: &'a [u8],
}

/// Mathematical model of a [`PacketHeaders`] value.
#[verifier::ext_equal]
pub struct SpecPacketHeaders {
    pub link: Option<SpecEthernet2Header>,
    pub vlan: Option<VlanHeader>,
    pub ip: Option<SpecIpHeader>,
    pub transport: Option<TransportHeader>,
    pub payload: Seq<u8>,
}

impl<'a> View for PacketHeaders<'a> {
    type V = SpecPacketHeaders;

    open spec fn view(&self) -> SpecPacketHeaders {
        SpecPacketHeaders {
            link: match self.link {
                Some(h) => Some(h@),
                None => None,
            },
            vlan: self.vlan,
            ip: match self.ip {
                Some(h) => Some(h@),
                None => None,
            },
            transport: self.transport,
            payload: self.payload@,
        }
    }
}

/// What network-layer dispatch on the effective ether type yields over the
/// bytes of `s`: for the IPv4 and IPv6 markers, the decoded IP header, the
/// transport layer reached through it (walking the IPv6 extension chain
/// first), and the final suffix; for any other ether type, nothing decoded
/// and `s` unchanged (a success, not an error).
pub open spec fn spec_read_networks(ether_type: u16, s: Seq<u8>) -> Result<
    (Option<SpecIpHeader>, Option<TransportHeader>, Seq<u8>),
    ReadError,
> {
    if ether_type == ETHER_TYPE_IPV4 {
        match crate::ipv4::spec_read_ipv4(s) {
            Err(e) => Err(e),
            Ok((ip, r1)) => match spec_read_transport(ip.protocol, r1) {
                Err(e) => Err(e),
                Ok((transport, r2)) => Ok((Some(SpecIpHeader::Version4(ip)), transport, r2)),
            },
        }
    } else if ether_type == ETHER_TYPE_IPV6 {
        match crate::ipv6::spec_read_ipv6(s) {
            Err(e) => Err(e),
            Ok((ip, r1)) => match spec_skip_all_header_extensions(
                r1,
                ip.next_header,
                IPV6_MAX_NUM_HEADER_EXTENSIONS as nat,
            ) {
                Err(e) => Err(e),
                Ok((protocol, r2)) => match spec_read_transport(protocol, r2) {
                    Err(e) => Err(e),
                    Ok((transport, r3)) => Ok((Some(SpecIpHeader::Version6(ip)), transport, r3)),
                },
            },
        }
    } else {
        Ok((None, None, s))
    }
}

/// What decoding a whole packet that starts at a link header yields: the
/// Ethernet II header, the VLAN layer it announces, the network and
/// transport layers reached through the effective ether type, and the
/// remaining bytes as payload — or the first error any layer raises, in
/// which case nothing is yielded at all.
pub open spec fn spec_from_ethernet(s: Seq<u8>) -> Result<SpecPacketHeaders, ReadError> {
    match spec_read_ethernet2(s) {
        Err(e) => Err(e),
        Ok((link, r1)) => match spec_read_vlans(link.ether_type, r1) {
            Err(e) => Err(e),
            Ok((vlan, ether_type, r2)) => match spec_read_networks(ether_type, r2) {
                Err(e) => Err(e),
                Ok(
                    (ip, transport, r3),
                ) => Ok(
                    SpecPacketHeaders { link: Some(link), vlan, ip, transport, payload: r3 },
                ),
            },
        },
    }
}

/// What decoding a buffer that starts directly at an IP header yields: the
/// version-sensed IP header, the transport layer reached through it
/// (walking the IPv6 extension chain first), and the remaining bytes as
/// payload; `link` and `vlan` are always absent. Or the first error any
/// layer raises, in which case nothing is yielded at all.
pub open spec fn spec_from_ip(s: Seq<u8>) -> Result<SpecPacketHeaders, ReadError> {
    match spec_read_ip(s) {
        Err(e) => Err(e),
        Ok((ip, r1)) => {
            let resolved = match ip {
                SpecIpHeader::Version4(h) => Ok((h.protocol, r1)),
                SpecIpHeader::Version6(h) => spec_skip_all_header_extensions(
                    r1,
                    h.next_header,
                    IPV6_MAX_NUM_HEADER_EXTENSIONS as nat,
                ),
            };
            match resolved {
                Err(e) => Err(e),
                Ok((protocol, r2)) => match spec_read_transport(protocol, r2) {
                    Err(e) => Err(e),
                    Ok(
                        (transport, r3),
                    ) => Ok(
                        SpecPacketHeaders {
                            link: None,
                            vlan: None,
                            ip: Some(ip),
                            transport,
                            payload: r3,
                        },
                    ),
                },
            }
        },
    }
}

impl<'a> PacketHeaders<'a> {
    /// Tries to decode as much as possible of a packet, assuming the slice
    /// starts with an Ethernet II header.
    pub fn from_ethernet_slice(packet: &'a [u8]) -> (r: Result<PacketHeaders<'a>, ReadError>)
        ensures
            match r {
                Ok(p) => spec_from_ethernet(packet@) matches Ok(m) && m == p@,
                Err(e) => spec_from_ethernet(packet@) == Err::<SpecPacketHeaders, ReadError>(e),
            },
    {
        let (ethernet, rest0) = match Ethernet2Header::read_from_slice(packet) {
            Ok(v) => v,
            Err(e) => {
                return Err(e);
            },
        };
        let mut ether_type = ethernet.ether_type;
        let mut rest = rest0;

        // parse vlan header(s)
        let vlan: Option<VlanHeader>;
        if is_vlan_ether_type(ether_type) {
            let (outer, outer_rest) = match SingleVlanHeader::read_from_slice(rest) {
                Ok(v) => v,
                Err(e) => {
                    return Err(e);
                },
            };
            rest = outer_rest;
            ether_type = outer.ether_type;

            // parse second vlan header if present
            if is_vlan_ether_type(ether_type) {
                let (inner, inner_rest) = match SingleVlanHeader::read_from_slice(rest) {
                    Ok(v) => v,
                    Err(e) => {
                        return Err(e);
                    },
                };
                rest = inner_rest;
                ether_type = inner.ether_type;
                vlan = Some(VlanHeader::Double(DoubleVlanHeader { outer, inner }));
            } else {
                vlan = Some(VlanHeader::Single(outer));
            }
        } else {
            vlan = None;
        }

        // parse ip and transport (if present)
        let ip: Option<IpHeader>;
        let transport: Option<TransportHeader>;
        if ether_type == ETHER_TYPE_IPV4 {
            let (ip_header, ip_rest) = match Ipv4Header::read_from_slice(rest) {
                Ok(v) => v,
                Err(e) => {
                    return Err(e);
                },
            };
            let ip_protocol = ip_header.protocol;
            rest = ip_rest;
            let (t, transport_rest) = match read_transport(ip_protocol, rest) {
                Ok(v) => v,
                Err(e) => {
                    return Err(e);
                },
            };
            rest = transport_rest;
            ip = Some(IpHeader::Version4(ip_header));
            transport = t;
        } else if ether_type == ETHER_TYPE_IPV6 {
            let (ip_header, ip_rest) = match Ipv6Header::read_from_slice(rest) {
                Ok(v) => v,
                Err(e) => {
                    return Err(e);
                },
            };
            rest = ip_rest;
            // skip the header extensions
            let (protocol, ext_rest) = match Ipv6Header::skip_all_header_extensions_in_slice(
                rest,
                ip_header.next_header,
            ) {
                Ok(v) => v,
                Err(e) => {
                    return Err(e);
                },
            };
            rest = ext_rest;
            let (t, transport_rest) = match read_transport(protocol, rest) {
                Ok(v) => v,
                Err(e) => {
                    return Err(e);
                },
            };
            rest = transport_rest;
            ip = Some(IpHeader::Version6(ip_header));
            transport = t;
        } else {
            ip = None;
            transport = None;
        }

        let result = PacketHeaders { link: Some(ethernet), vlan, ip, transport, payload: rest };
        proof {
            assert(result@ =~= spec_from_ethernet(packet@)->Ok_0);
        }
        Ok(result)
    }

    /// Tries to decode an ip packet and its transport headers.
    /// Assumes the given slice starts with the first byte of the IP header.
    pub fn from_ip_slice(packet: &'a [u8]) -> (r: Result<PacketHeaders<'a>, ReadError>)
        ensures
            match r {
                Ok(p) => spec_from_ip(packet@) matches Ok(m) && m == p@,
                Err(e) => spec_from_ip(packet@) == Err::<SpecPacketHeaders, ReadError>(e),
            },
    {
        let (ip_header, ip_rest) = match IpHeader::read_from_slice(packet) {
            Ok(v) => v,
            Err(e) => {
                return Err(e);
            },
        };

        // grab the transport protocol, walking the IPv6 extension chain
        let (transport_proto, rest1) = match &ip_header {
            IpHeader::Version4(h) => (h.protocol, ip_rest),
            IpHeader::Version6(h) => {
                match Ipv6Header::skip_all_header_extensions_in_slice(ip_rest, h.next_header) {
                    Ok(v) => v,
                    Err(e) => {
                        return Err(e);
                    },
                }
            },
        };

        // try to parse the transport header
        let (transport, rest2) = match read_transport(transport_proto, rest1) {
            Ok(v) => v,
            Err(e) => {
                return Err(e);
            },
        };

        let result = PacketHeaders {
            link: None,
            vlan: None,
            ip: Some(ip_header),
            transport,
            payload: rest2,
        };
        proof {
            assert(result@ =~= spec_from_ip(packet@)->Ok_0);
        }
        Ok(result)
    }
}

} // verus!
