use vstd::prelude::*;
use crate::errors::ReadError;
use crate::fields::{read_array_16, read_be_u16, spec_be_u16, tail_from};

verus! {

/// Serialized size of the fixed IPv6 header in bytes.
pub const IPV6_HEADER_LEN: usize = 40;

/// Protocol number of the IPv6 hop-by-hop options extension header.
pub const IPV6_HOP_BY_HOP: u8 = 0;

/// Protocol number of the IPv6 routing extension header.
pub const IPV6_ROUTE: u8 = 43;

/// Protocol number of the IPv6 fragment extension header.
pub const IPV6_FRAG: u8 = 44;

/// Protocol number of the IPv6 destination options extension header.
pub const IPV6_DEST_OPTIONS: u8 = 60;

/// Most extension headers the chain walker will skip before it gives up.
pub const IPV6_MAX_NUM_HEADER_EXTENSIONS: usize = 7;

/// A decoded fixed IPv6 header.
#[derive(Clone, Copy, Debug, PartialEq, Eq)]
pub struct Ipv6Header {
    pub traffic_class: u8,
    /// Flow label (20 bits).
    pub flow_label: u32,
    pub payload_length: u16,
    /// Protocol number of the layer (or extension header) that follows.
    pub next_header: u8,
    pub hop_limit: u8,
    pub source: [u8; 16],
    pub destination: [u8; 16],
}

/// Mathematical model of an [`Ipv6Header`]: the address fields are sequences
/// instead of fixed arrays.
#[verifier::ext_equal]
pub struct SpecIpv6Header {
    pub traffic_class: u8,
    pub flow_label: u32,
    pub payload_length: u16,
    pub next_header: u8,
    pub hop_limit: u8,
    pub source: Seq<u8>,
    pub destination: Seq<u8>,
}

impl View for Ipv6Header {
    type V = SpecIpv6Header;

    open spec fn view(&self) -> SpecIpv6Header {
        SpecIpv6Header {
            traffic_class: self.traffic_class,
            flow_label: self.flow_label,
            payload_length: self.payload_length,
            next_header: self.next_header,
            hop_limit: self.hop_limit,
            source: self.source@,
            destination: self.destination@,
        }
    }
}

/// What decoding the fixed IPv6 header from the front of `s` yields: the
/// header made of the first 40 bytes and the remaining suffix, or an error
/// (too short, or version not 6).
pub open spec fn spec_read_ipv6(s: Seq<u8>) -> Result<(SpecIpv6Header, Seq<u8>), ReadError> {
    if s.len() < 40 {
        Err(ReadError::UnexpectedEndOfSlice(40))
    } else if (s[0] as int) / 16 != 6 {
        Err(ReadError::Ipv6UnexpectedVersion)
    } else {
        Ok(
            (
                SpecIpv6Header {
                    traffic_class: (((s[0] as int) % 16) * 16 + (s[1] as int) / 16) as u8,
                    flow_label: (((s[1] as int) % 16) * 0x10000 + (s[2] as int) * 0x100 + (
                    s[3] as int)) as u32,
                    payload_length: spec_be_u16(s, 4),
                    next_header: s[6],
                    hop_limit: s[7],
                    source: s.subrange(8, 24),
                    destination: s.subrange(24, 40),
                },
                s.skip(40),
            ),
        )
    }
}

/// True for the extension-header protocol numbers the chain walker skips.
pub open spec fn spec_is_skippable_header_extension(protocol_number: u8) -> bool {
    protocol_number == IPV6_HOP_BY_HOP || protocol_number == IPV6_ROUTE || protocol_number
        == IPV6_FRAG || protocol_number == IPV6_DEST_OPTIONS
}

/// Runtime check for [`spec_is_skippable_header_extension`].
pub fn is_skippable_header_extension(protocol_number: u8) -> (r: bool)
    ensures
        r == spec_is_skippable_header_extension(protocol_number),
{
    protocol_number == IPV6_HOP_BY_HOP || protocol_number == IPV6_ROUTE || protocol_number
        == IPV6_FRAG || protocol_number == IPV6_DEST_OPTIONS
}

/// What skipping one extension header of type `current` from the front of
/// `s` yields: the next-header number it announces and the suffix after it.
/// A fragment header is always 8 bytes; every other skippable extension
/// header declares its own length in 8-byte units (minus one) in its second
/// byte.
pub open spec fn spec_skip_header_extension(s: Seq<u8>, current: u8) -> Result<
    (u8, Seq<u8>),
    ReadError,
> {
    if s.len() < 8 {
        Err(ReadError::UnexpectedEndOfSlice(8))
    } else {
        let len: int = if current == IPV6_FRAG {
            8
        } else {
            ((s[1] as int) + 1) * 8
        };
        if s.len() < len {
            Err(ReadError::UnexpectedEndOfSlice(len as usize))
        } else {
            Ok((s[0], s.skip(len)))
        }
    }
}

/// What walking the extension-header chain yields when at most `remaining`
/// further extension headers may be skipped: the first non-extension
/// protocol number reached and the suffix after the chain. Fails when an
/// extension header is truncated, or when the chain is still going after the
/// allowance is used up.
pub open spec fn spec_skip_all_header_extensions(s: Seq<u8>, next_header: u8, remaining: nat)
    -> Result<(u8, Seq<u8>), ReadError>
    decreases remaining,
{
    if !spec_is_skippable_header_extension(next_header) {
        Ok((next_header, s))
    } else if remaining == 0 {
        Err(ReadError::Ipv6TooManyHeaderExtensions)
    } else {
        match spec_skip_header_extension(s, next_header) {
            Err(e) => Err(e),
            Ok((next2, s2)) => spec_skip_all_header_extensions(s2, next2, (remaining - 1) as nat),
        }
    }
}

impl Ipv6Header {
    /// Decodes the fixed IPv6 header from the start of the slice and returns
    /// it together with the unconsumed remainder of the slice.
    pub fn read_from_slice<'a>(slice: &'a [u8]) -> (r: Result<
        (Ipv6Header, &'a [u8]),
        ReadError,
    >)
        ensures
            match r {
                Ok((header, rest)) => spec_read_ipv6(slice@) matches Ok(m) && m.0 == header@ && m.1
                    == rest@,
                Err(e) => spec_read_ipv6(slice@) == Err::<(SpecIpv6Header, Seq<u8>), ReadError>(e),
            },
    {
        if slice.len() < IPV6_HEADER_LEN {
            return Err(ReadError::UnexpectedEndOfSlice(IPV6_HEADER_LEN));
        }
        let b0 = slice[0];
        if b0 / 16 != 6 {
            return Err(ReadError::Ipv6UnexpectedVersion);
        }
        let b1 = slice[1];
        let header = Ipv6Header {
            traffic_class: (b0 % 16) * 16 + b1 / 16,
            flow_label: ((b1 % 16) as u32) * 0x10000 + (slice[2] as u32) * 0x100 + (
            slice[3] as u32),
            payload_length: read_be_u16(slice, 4),
            next_header: slice[6],
            hop_limit: slice[7],
            source: read_array_16(slice, 8),
            destination: read_array_16(slice, 24),
        };
        let rest = tail_from(slice, IPV6_HEADER_LEN);
        proof {
            assert(header@ =~= spec_read_ipv6(slice@)->Ok_0.0);
        }
        Ok((header, rest))
    }

    /// Walks the chain of skippable extension headers that starts with
    /// protocol number `next_header`, skipping at most
    /// [`IPV6_MAX_NUM_HEADER_EXTENSIONS`] of them, and returns the first
    /// non-extension protocol number together with the suffix after the
    /// chain.
    pub fn skip_all_header_extensions_in_slice<'a>(slice: &'a [u8], next_header: u8) -> (r: Result<
        (u8, &'a [u8]),
        ReadError,
    >)
        ensures
            match r {
                Ok((protocol, rest)) => spec_skip_all_header_extensions(
                    slice@,
                    next_header,
                    IPV6_MAX_NUM_HEADER_EXTENSIONS as nat,
                ) matches Ok(m) && m.0 == protocol && m.1 == rest@,
                Err(e) => spec_skip_all_header_extensions(
                    slice@,
                    next_header,
                    IPV6_MAX_NUM_HEADER_EXTENSIONS as nat,
                ) == Err::<(u8, Seq<u8>), ReadError>(e),
            },
    {
        let mut rest = slice;
        let mut next = next_header;
        let mut i: usize = 0;
        while i < IPV6_MAX_NUM_HEADER_EXTENSIONS
            invariant
                i <= IPV6_MAX_NUM_HEADER_EXTENSIONS,
                spec_skip_all_header_extensions(
                    slice@,
                    next_header,
                    IPV6_MAX_NUM_HEADER_EXTENSIONS as nat,
                ) == spec_skip_all_header_extensions(
                    rest@,
                    next,
                    (IPV6_MAX_NUM_HEADER_EXTENSIONS - i) as nat,
                ),
            decreases IPV6_MAX_NUM_HEADER_EXTENSIONS - i,
        {
            if !is_skippable_header_extension(next) {
                return Ok((next, rest));
            }
            if rest.len() < 8 {
                return Err(ReadError::UnexpectedEndOfSlice(8));
            }
            let len: usize = if next == IPV6_FRAG {
                8
            } else {
                ((rest[1] as usize) + 1) * 8
            };
            if rest.len() < len {
                return Err(ReadError::UnexpectedEndOfSlice(len));
            }
            let next2 = rest[0];
            let rest2 = tail_from(rest, len);
            next = next2;
            rest = rest2;
            i = i + 1;
        }
        if is_skippable_header_extension(next) {
            Err(ReadError::Ipv6TooManyHeaderExtensions)
        } else {
            Ok((next, rest))
        }
    }
}

} // verus!
