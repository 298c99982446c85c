use vstd::prelude::*;
use crate::errors::ReadError;
use crate::fields::{read_be_u16, read_be_u32, spec_be_u16, spec_be_u32, tail_from};

verus! {

/// Protocol number of TCP.
pub const IP_PROTOCOL_TCP: u8 = 6;

/// Protocol number of UDP.
pub const IP_PROTOCOL_UDP: u8 = 17;

/// Serialized size of a UDP header in bytes.
pub const UDP_HEADER_LEN: usize = 8;

/// Serialized size of a TCP header without options, in bytes.
pub const TCP_MIN_HEADER_LEN: usize = 20;

/// A decoded UDP header. All fields are plain values, so the type doubles
/// as its own specification-level model.
#[derive(Clone, Copy, Debug, PartialEq, Eq)]
pub struct UdpHeader {
    pub source_port: u16,
    pub destination_port: u16,
    /// Length of header plus payload as declared by the sender; the decoder
    /// records it without checking it against the slice.
    pub length: u16,
    pub checksum: u16,
}

/// A decoded TCP header. `data_offset` is the header length in 32-bit words
/// (5..=15); option bytes beyond the fixed 20 are counted by `data_offset`
/// and skipped by the decoder, their content is not retained. All fields
/// are plain values, so the type doubles as its own specification-level
/// model.
#[derive(Clone, Copy, Debug, PartialEq, Eq)]
pub struct TcpHeader {
    pub source_port: u16,
    pub destination_port: u16,
    pub sequence_number: u32,
    pub acknowledgment_number: u32,
    /// Header length in 32-bit words; at least 5.
    pub data_offset: u8,
    /// The raw flag byte (CWR, ECE, URG, ACK, PSH, RST, SYN, FIN).
    pub flags: u8,
    pub window_size: u16,
    pub checksum: u16,
    pub urgent_pointer: u16,
}

/// The transport layer found after the IP layer: TCP or UDP. Any other
/// protocol number leaves the transport layer absent.
#[derive(Clone, Copy, Debug, PartialEq, Eq)]
pub enum TransportHeader {
    Tcp(TcpHeader),
    Udp(UdpHeader),
}

/// What decoding a UDP header from the front of `s` yields: the header made
/// of the first 8 bytes and the remaining suffix, or an end-of-slice error
/// when fewer than 8 bytes are available.
pub open spec fn spec_read_udp(s: Seq<u8>) -> Result<(UdpHeader, Seq<u8>), ReadError> {
    if s.len() < 8 {
        Err(ReadError::UnexpectedEndOfSlice(8))
    } else {
        Ok(
            (
                UdpHeader {
                    source_port: spec_be_u16(s, 0),
                    destination_port: spec_be_u16(s, 2),
                    length: spec_be_u16(s, 4),
                    checksum: spec_be_u16(s, 6),
                },
                s.skip(8),
            ),
        )
    }
}

/// What decoding a TCP header from the front of `s` yields: the header
/// fields read out of the first `data_offset * 4` bytes and the remaining
/// suffix, or the first error the layout rules raise (too short for the
/// fixed part, data offset smaller than the fixed part, too short for the
/// declared options).
pub open spec fn spec_read_tcp(s: Seq<u8>) -> Result<(TcpHeader, Seq<u8>), ReadError> {
    if s.len() < 20 {
        Err(ReadError::UnexpectedEndOfSlice(20))
    } else if (s[12] as int) / 16 < 5 {
        Err(ReadError::TcpDataOffsetTooSmall)
    } else if s.len() < ((s[12] as int) / 16) * 4 {
        Err(ReadError::UnexpectedEndOfSlice((((s[12] as int) / 16) * 4) as usize))
    } else {
        Ok(
            (
                TcpHeader {
                    source_port: spec_be_u16(s, 0),
                    destination_port: spec_be_u16(s, 2),
                    sequence_number: spec_be_u32(s, 4),
                    acknowledgment_number: spec_be_u32(s, 8),
                    data_offset: ((s[12] as int) / 16) as u8,
                    flags: s[13],
                    window_size: spec_be_u16(s, 14),
                    checksum: spec_be_u16(s, 16),
                    urgent_pointer: spec_be_u16(s, 18),
                },
                s.skip(((s[12] as int) / 16) * 4),
            ),
        )
    }
}

impl UdpHeader {
    /// Decodes a UDP header from the start of the slice and returns it
    /// together with the unconsumed remainder of the slice.
    pub fn read_from_slice<'a>(slice: &'a [u8]) -> (r: Result<(UdpHeader, &'a [u8]), ReadError>)
        ensures
            match r {
                Ok((header, rest)) => spec_read_udp(slice@) matches Ok(m) && m.0 == header && m.1
                    == rest@,
                Err(e) => spec_read_udp(slice@) == Err::<(UdpHeader, Seq<u8>), ReadError>(e),
            },
    {
        if slice.len() < UDP_HEADER_LEN {
            return Err(ReadError::UnexpectedEndOfSlice(UDP_HEADER_LEN));
        }
        let header = UdpHeader {
            source_port: read_be_u16(slice, 0),
            destination_port: read_be_u16(slice, 2),
            length: read_be_u16(slice, 4),
            checksum: read_be_u16(slice, 6),
        };
        let rest = tail_from(slice, UDP_HEADER_LEN);
        Ok((header, rest))
    }
}

impl TcpHeader {
    /// Decodes a TCP header from the start of the slice and returns it
    /// together with the unconsumed remainder of the slice (everything after
    /// the `data_offset * 4` header bytes, options included).
    pub fn read_from_slice<'a>(slice: &'a [u8]) -> (r: Result<(TcpHeader, &'a [u8]), ReadError>)
        ensures
            match r {
                Ok((header, rest)) => spec_read_tcp(slice@) matches Ok(m) && m.0 == header && m.1
                    == rest@,
                Err(e) => spec_read_tcp(slice@) == Err::<(TcpHeader, Seq<u8>), ReadError>(e),
            },
    {
        if slice.len() < TCP_MIN_HEADER_LEN {
            return Err(ReadError::UnexpectedEndOfSlice(TCP_MIN_HEADER_LEN));
        }
        let data_offset = slice[12] / 16;
        if data_offset < 5 {
            return Err(ReadError::TcpDataOffsetTooSmall);
        }
        let header_len: usize = (data_offset as usize) * 4;
        if slice.len() < header_len {
            return Err(ReadError::UnexpectedEndOfSlice(header_len));
        }
        let header = TcpHeader {
            source_port: read_be_u16(slice, 0),
            destination_port: read_be_u16(slice, 2),
            sequence_number: read_be_u32(slice, 4),
            acknowledgment_number: read_be_u32(slice, 8),
            data_offset,
            flags: slice[13],
            window_size: read_be_u16(slice, 14),
            checksum: read_be_u16(slice, 16),
            urgent_pointer: read_be_u16(slice, 18),
        };
        let rest = tail_from(slice, header_len);
        Ok((header, rest))
    }
}

/// What transport-layer dispatch on `protocol` yields over the bytes of
/// `s`: a decoded TCP or UDP header with the suffix after it, or, for any
/// other protocol number, no transport header and `s` unchanged (a success,
/// not an error). A truncated or malformed TCP/UDP header fails the whole
/// dispatch.
pub open spec fn spec_read_transport(protocol: u8, s: Seq<u8>) -> Result<
    (Option<TransportHeader>, Seq<u8>),
    ReadError,
> {
    if protocol == IP_PROTOCOL_UDP {
        match spec_read_udp(s) {
            Err(e) => Err(e),
            Ok((h, rest)) => Ok((Some(TransportHeader::Udp(h)), rest)),
        }
    } else if protocol == IP_PROTOCOL_TCP {
        match spec_read_tcp(s) {
            Err(e) => Err(e),
            Ok((h, rest)) => Ok((Some(TransportHeader::Tcp(h)), rest)),
        }
    } else {
        Ok((None, s))
    }
}

/// Transport-layer dispatch: picks the TCP or UDP decoder from the protocol
/// number, or declares the transport layer absent for any other number and
/// returns the slice unchanged.
pub fn read_transport<'a>(protocol: u8, rest: &'a [u8]) -> (r: Result<
    (Option<TransportHeader>, &'a [u8]),
    ReadError,
>)
    ensures
        match r {
            Ok((transport, remainder)) => spec_read_transport(protocol, rest@) matches Ok(m) && m.0
                == transport && m.1 == remainder@,
            Err(e) => spec_read_transport(protocol, rest@) == Err::<
                (Option<TransportHeader>, Seq<u8>),
                ReadError,
            >(e),
        },
{
    if protocol == IP_PROTOCOL_UDP {
        match UdpHeader::read_from_slice(rest) {
            Ok((h, remainder)) => Ok((Some(TransportHeader::Udp(h)), remainder)),
            Err(e) => Err(e),
        }
    } else if protocol == IP_PROTOCOL_TCP {
        match TcpHeader::read_from_slice(rest) {
            Ok((h, remainder)) => Ok((Some(TransportHeader::Tcp(h)), remainder)),
            Err(e) => Err(e),
        }
    } else {
        Ok((None, rest))
    }
}

} // verus!
