use vstd::prelude::*;
use crate::errors::ReadError;
use crate::fields::{read_array_4, read_be_u16, spec_be_u16, tail_from};

verus! {

/// Serialized size of an IPv4 header without options, in bytes.
pub const IPV4_MIN_HEADER_LEN: usize = 20;

/// A decoded IPv4 header. `ihl` is the header length in 32-bit words
/// (5..=15); option bytes beyond the fixed 20 are counted by `ihl` and
/// skipped by the decoder, their content is not retained.
#[derive(Clone, Copy, Debug, PartialEq, Eq)]
pub struct Ipv4Header {
    /// Internet header length in 32-bit words; at least 5.
    pub ihl: u8,
    /// Differentiated services code point (6 bits).
    pub dscp: u8,
    /// Explicit congestion notification (2 bits).
    pub ecn: u8,
    pub total_length: u16,
    pub identification: u16,
    pub dont_fragment: bool,
    pub more_fragments: bool,
    /// Fragment offset (13 bits).
    pub fragment_offset: u16,
    pub time_to_live: u8,
    /// Protocol number of the layer that follows this header.
    pub protocol: u8,
    pub header_checksum: u16,
    pub source: [u8; 4],
    pub destination: [u8; 4],
}

/// Mathematical model of an [`Ipv4Header`]: the address fields are sequences
/// instead of fixed arrays.
#[verifier::ext_equal]
pub struct SpecIpv4Header {
    pub ihl: u8,
    pub dscp: u8,
    pub ecn: u8,
    pub total_length: u16,
    pub identification: u16,
    pub dont_fragment: bool,
    pub more_fragments: bool,
    pub fragment_offset: u16,
    pub time_to_live: u8,
    pub protocol: u8,
    pub header_checksum: u16,
    pub source: Seq<u8>,
    pub destination: Seq<u8>,
}

impl View for Ipv4Header {
    type V = SpecIpv4Header;

    open spec fn view(&self) -> SpecIpv4Header {
        SpecIpv4Header {
            ihl: self.ihl,
            dscp: self.dscp,
            ecn: self.ecn,
            total_length: self.total_length,
            identification: self.identification,
            dont_fragment: self.dont_fragment,
            more_fragments: self.more_fragments,
            fragment_offset: self.fragment_offset,
            time_to_live: self.time_to_live,
            protocol: self.protocol,
            header_checksum: self.header_checksum,
            source: self.source@,
            destination: self.destination@,
        }
    }
}

/// What decoding an IPv4 header from the front of `s` yields: the header
/// fields read out of the first `ihl * 4` bytes and the remaining suffix, or
/// the first error the layout rules raise (too short for the fixed part,
/// version not 4, header length smaller than the fixed part, too short for
/// the declared options).
pub open spec fn spec_read_ipv4(s: Seq<u8>) -> Result<(SpecIpv4Header, Seq<u8>), ReadError> {
    if s.len() < 20 {
        Err(ReadError::UnexpectedEndOfSlice(20))
    } else if (s[0] as int) / 16 != 4 {
        Err(ReadError::Ipv4UnexpectedVersion)
    } else if (s[0] as int) % 16 < 5 {
        Err(ReadError::Ipv4HeaderLengthBad)
    } else if s.len() < ((s[0] as int) % 16) * 4 {
        Err(ReadError::UnexpectedEndOfSlice((((s[0] as int) % 16) * 4) as usize))
    } else {
        Ok(
            (
                SpecIpv4Header {
                    ihl: ((s[0] as int) % 16) as u8,
                    dscp: ((s[1] as int) / 4) as u8,
                    ecn: ((s[1] as int) % 4) as u8,
                    total_length: spec_be_u16(s, 2),
                    identification: spec_be_u16(s, 4),
                    dont_fragment: ((s[6] as int) / 64) % 2 == 1,
                    more_fragments: ((s[6] as int) / 32) % 2 == 1,
                    fragment_offset: (((s[6] as int) % 32) * 256 + (s[7] as int)) as u16,
                    time_to_live: s[8],
                    protocol: s[9],
                    header_checksum: spec_be_u16(s, 10),
                    source: s.subrange(12, 16),
                    destination: s.subrange(16, 20),
                },
                s.skip(((s[0] as int) % 16) * 4),
            ),
        )
    }
}

impl Ipv4Header {
    /// Decodes an IPv4 header from the start of the slice and returns it
    /// together with the unconsumed remainder of the slice (everything after
    /// the `ihl * 4` header bytes, options included).
    pub fn read_from_slice<'a>(slice: &'a [u8]) -> (r: Result<
        (Ipv4Header, &'a [u8]),
        ReadError,
    >)
        ensures
            match r {
                Ok((header, rest)) => spec_read_ipv4(slice@) matches Ok(m) && m.0 == header@ && m.1
                    == rest@,
                Err(e) => spec_read_ipv4(slice@) == Err::<(SpecIpv4Header, Seq<u8>), ReadError>(e),
            },
    {
        if slice.len() < IPV4_MIN_HEADER_LEN {
            return Err(ReadError::UnexpectedEndOfSlice(IPV4_MIN_HEADER_LEN));
        }
        let b0 = slice[0];
        if b0 / 16 != 4 {
            return Err(ReadError::Ipv4UnexpectedVersion);
        }
        let ihl = b0 % 16;
        if ihl < 5 {
            return Err(ReadError::Ipv4HeaderLengthBad);
        }
        let header_len: usize = (ihl as usize) * 4;
        if slice.len() < header_len {
            return Err(ReadError::UnexpectedEndOfSlice(header_len));
        }
        let b1 = slice[1];
        let b6 = slice[6];
        let header = Ipv4Header {
            ihl,
            dscp: b1 / 4,
            ecn: b1 % 4,
            total_length: read_be_u16(slice, 2),
            identification: read_be_u16(slice, 4),
            dont_fragment: (b6 / 64) % 2 == 1,
            more_fragments: (b6 / 32) % 2 == 1,
            fragment_offset: ((b6 % 32) as u16) * 256 + (slice[7] as u16),
            time_to_live: slice[8],
            protocol: slice[9],
            header_checksum: read_be_u16(slice, 10),
            source: read_array_4(slice, 12),
            destination: read_array_4(slice, 16),
        };
        let rest = tail_from(slice, header_len);
        proof {
            assert(header@ =~= spec_read_ipv4(slice@)->Ok_0.0);
        }
        Ok((header, rest))
    }
}

} // verus!
