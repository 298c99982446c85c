//! Zero-copy decoding of layered network packet headers.
//!
//! A raw byte buffer captured from a network link (or an already stripped IP
//! datagram) is walked top-down through an optional Ethernet II header, zero
//! to two VLAN tags, one IP header (IPv4, or IPv6 with its extension-header
//! chain) and one optional transport header (TCP or UDP). Decoding stops
//! gracefully at the first layer it does not recognize: everything after the
//! last decoded header becomes the payload. A malformed or truncated header,
//! by contrast, aborts the whole decode with an error and no partial result.
//!
//! Every decoder is specified against a mathematical model of the byte
//! layout, so the exact relation between input bytes and decoded values is
//! part of each function's contract.

pub mod errors;
pub mod fields;
pub mod ip;
pub mod ipv4;
pub mod ipv6;
pub mod laws;
pub mod link;
pub mod packet;
pub mod transport;
pub mod vlan;

pub use errors::ReadError;
pub use ip::IpHeader;
pub use ipv4::Ipv4Header;
pub use ipv6::Ipv6Header;
pub use link::Ethernet2Header;
pub use packet::PacketHeaders;
pub use transport::{read_transport, TcpHeader, TransportHeader, UdpHeader};
pub use vlan::{DoubleVlanHeader, SingleVlanHeader, VlanHeader};
