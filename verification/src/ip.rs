use vstd::prelude::*;
use crate::errors::ReadError;
use crate::ipv4::{spec_read_ipv4, Ipv4Header, SpecIpv4Header};
use crate::ipv6::{spec_read_ipv6, Ipv6Header, SpecIpv6Header};

verus! {

/// An IP header of either version, as picked by the version nibble of the
/// first byte of the buffer.
#[derive(Clone, Copy, Debug, PartialEq, Eq)]
pub enum IpHeader {
    Version4(Ipv4Header),
    Version6(Ipv6Header),
}

/// Mathematical model of an [`IpHeader`].
#[verifier::ext_equal]
pub enum SpecIpHeader {
    Version4(SpecIpv4Header),
    Version6(SpecIpv6Header),
}

impl View for IpHeader {
    type V = SpecIpHeader;

    open spec fn view(&self) -> SpecIpHeader {
        match *self {
            IpHeader::Version4(h) => SpecIpHeader::Version4(h@),
            IpHeader::Version6(h) => SpecIpHeader::Version6(h@),
        }
    }
}

/// What decoding a version-sensed IP header from the front of `s` yields:
/// an IPv4 or IPv6 header picked by the leading version nibble together with
/// the remaining suffix, or an error (empty input, an unsupported version
/// number, or whatever the picked version's own layout rules raise).
pub open spec fn spec_read_ip(s: Seq<u8>) -> Result<(SpecIpHeader, Seq<u8>), ReadError> {
    if s.len() < 1 {
        Err(ReadError::UnexpectedEndOfSlice(1))
    } else if (s[0] as int) / 16 == 4 {
        match spec_read_ipv4(s) {
            Err(e) => Err(e),
            Ok((h, rest)) => Ok((SpecIpHeader::Version4(h), rest)),
        }
    } else if (s[0] as int) / 16 == 6 {
        match spec_read_ipv6(s) {
            Err(e) => Err(e),
            Ok((h, rest)) => Ok((SpecIpHeader::Version6(h), rest)),
        }
    } else {
        Err(ReadError::IpUnsupportedVersion(((s[0] as int) / 16) as u8))
    }
}

impl IpHeader {
    /// Decodes an IP header from the start of the slice, determining IPv4
    /// versus IPv6 from the buffer's leading version nibble, and returns it
    /// together with the unconsumed remainder of the slice.
    pub fn read_from_slice<'a>(slice: &'a [u8]) -> (r: Result<(IpHeader, &'a [u8]), ReadError>)
        ensures
            match r {
                Ok((header, rest)) => spec_read_ip(slice@) matches Ok(m) && m.0 == header@ && m.1
                    == rest@,
                Err(e) => spec_read_ip(slice@) == Err::<(SpecIpHeader, Seq<u8>), ReadError>(e),
            },
    {
        if slice.len() < 1 {
            return Err(ReadError::UnexpectedEndOfSlice(1));
        }
        let version = slice[0] / 16;
        if version == 4 {
            match Ipv4Header::read_from_slice(slice) {
                Ok((h, rest)) => Ok((IpHeader::Version4(h), rest)),
                Err(e) => Err(e),
            }
        } else if version == 6 {
            match Ipv6Header::read_from_slice(slice) {
                Ok((h, rest)) => Ok((IpHeader::Version6(h), rest)),
                Err(e) => Err(e),
            }
        } else {
            Err(ReadError::IpUnsupportedVersion(version))
        }
    }
}

} // verus!
