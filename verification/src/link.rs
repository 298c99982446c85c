use vstd::prelude::*;
use crate::errors::ReadError;
use crate::fields::{read_array_6, read_be_u16, spec_be_u16, tail_from};

verus! {

/// Ether type marking an IPv4 payload.
pub const ETHER_TYPE_IPV4: u16 = 0x0800;

/// Ether type marking an IPv6 payload.
pub const ETHER_TYPE_IPV6: u16 = 0x86DD;

/// Ether type marking a customer VLAN tag.
pub const ETHER_TYPE_VLAN_TAGGED_FRAME: u16 = 0x8100;

/// Ether type marking a service/provider VLAN tag.
pub const ETHER_TYPE_PROVIDER_BRIDGING: u16 = 0x88A8;

/// Older ether type sometimes used for double-tagged frames.
pub const ETHER_TYPE_VLAN_DOUBLE_TAGGED_FRAME: u16 = 0x9100;

/// Serialized size of an Ethernet II header in bytes.
pub const ETHERNET2_HEADER_LEN: usize = 14;

/// A decoded Ethernet II header.
#[derive(Clone, Debug, PartialEq, Eq)]
pub struct Ethernet2Header {
    pub destination: [u8; 6],
    pub source: [u8; 6],
    pub ether_type: u16,
}

/// Mathematical model of an [`Ethernet2Header`]: the address fields are
/// sequences instead of fixed arrays so that specifications can relate them
/// to the input bytes directly.
#[verifier::ext_equal]
pub struct SpecEthernet2Header {
    pub destination: Seq<u8>,
    pub source: Seq<u8>,
    pub ether_type: u16,
}

impl View for Ethernet2Header {
    type V = SpecEthernet2Header;

    open spec fn view(&self) -> SpecEthernet2Header {
        SpecEthernet2Header {
            destination: self.destination@,
            source: self.source@,
            ether_type: self.ether_type,
        }
    }
}

/// What decoding an Ethernet II header from the front of `s` yields: the
/// header made of the first 14 bytes and the remaining suffix, or an
/// end-of-slice error when fewer than 14 bytes are available.
pub open spec fn spec_read_ethernet2(s: Seq<u8>) -> Result<
    (SpecEthernet2Header, Seq<u8>),
    ReadError,
> {
    if s.len() < 14 {
        Err(ReadError::UnexpectedEndOfSlice(14))
    } else {
        Ok(
            (
                SpecEthernet2Header {
                    destination: s.subrange(0, 6),
                    source: s.subrange(6, 12),
                    ether_type: spec_be_u16(s, 12),
                },
                s.skip(14),
            ),
        )
    }
}

impl Ethernet2Header {
    /// Decodes an Ethernet II header from the start of the slice and returns
    /// it together with the unconsumed remainder of the slice.
    pub fn read_from_slice<'a>(slice: &'a [u8]) -> (r: Result<
        (Ethernet2Header, &'a [u8]),
        ReadError,
    >)
        ensures
            match r {
                Ok((header, rest)) => spec_read_ethernet2(slice@) matches Ok(m) && m.0 == header@
                    && m.1 == rest@,
                Err(e) => spec_read_ethernet2(slice@) == Err::<
                    (SpecEthernet2Header, Seq<u8>),
                    ReadError,
                >(e),
            },
    {
        if slice.len() < ETHERNET2_HEADER_LEN {
            return Err(ReadError::UnexpectedEndOfSlice(ETHERNET2_HEADER_LEN));
        }
        let header = Ethernet2Header {
            destination: read_array_6(slice, 0),
            source: read_array_6(slice, 6),
            ether_type: read_be_u16(slice, 12),
        };
        let rest = tail_from(slice, ETHERNET2_HEADER_LEN);
        proof {
            assert(header@ =~= spec_read_ethernet2(slice@)->Ok_0.0);
        }
        Ok((header, rest))
    }
}

} // verus!
