use vstd::prelude::*;
use crate::errors::ReadError;
use crate::fields::{read_be_u16, spec_be_u16, tail_from};
use crate::link::{
    ETHER_TYPE_PROVIDER_BRIDGING, ETHER_TYPE_VLAN_DOUBLE_TAGGED_FRAME,
    ETHER_TYPE_VLAN_TAGGED_FRAME,
};

verus! {

/// Serialized size of a single VLAN tag in bytes.
pub const SINGLE_VLAN_HEADER_LEN: usize = 4;

/// A decoded IEEE 802.1Q VLAN tag. All fields are plain values, so the type
/// doubles as its own specification-level model.
#[derive(Clone, Copy, Debug, PartialEq, Eq)]
pub struct SingleVlanHeader {
    /// Priority code point (3 bits).
    pub priority_code_point: u8,
    /// Drop eligible indicator (1 bit).
    pub drop_eligible_indicator: bool,
    /// VLAN identifier (12 bits).
    pub vlan_identifier: u16,
    /// Ether type of the layer that follows this tag.
    pub ether_type: u16,
}

/// Two nested VLAN tags (IEEE 802.1ad style double tagging).
#[derive(Clone, Copy, Debug, PartialEq, Eq)]
pub struct DoubleVlanHeader {
    pub outer: SingleVlanHeader,
    pub inner: SingleVlanHeader,
}

/// The VLAN tagging found between the link header and the network layer:
/// exactly one tag, or exactly two. The chain depth is hard-capped at two;
/// a third tag is never consumed even if the inner tag announces one.
#[derive(Clone, Copy, Debug, PartialEq, Eq)]
pub enum VlanHeader {
    Single(SingleVlanHeader),
    Double(DoubleVlanHeader),
}

/// True for the three ether types that announce a VLAN tag as the next layer.
pub open spec fn spec_is_vlan_ether_type(ether_type: u16) -> bool {
    ether_type == ETHER_TYPE_VLAN_TAGGED_FRAME || ether_type == ETHER_TYPE_PROVIDER_BRIDGING
        || ether_type == ETHER_TYPE_VLAN_DOUBLE_TAGGED_FRAME
}

/// Runtime check for [`spec_is_vlan_ether_type`].
pub fn is_vlan_ether_type(ether_type: u16) -> (r: bool)
    ensures
        r == spec_is_vlan_ether_type(ether_type),
{
    ether_type == ETHER_TYPE_VLAN_TAGGED_FRAME || ether_type == ETHER_TYPE_PROVIDER_BRIDGING
        || ether_type == ETHER_TYPE_VLAN_DOUBLE_TAGGED_FRAME
}

/// What decoding one VLAN tag from the front of `s` yields: the tag made of
/// the first 4 bytes and the remaining suffix, or an end-of-slice error when
/// fewer than 4 bytes are available.
pub open spec fn spec_read_single_vlan(s: Seq<u8>) -> Result<
    (SingleVlanHeader, Seq<u8>),
    ReadError,
> {
    if s.len() < 4 {
        Err(ReadError::UnexpectedEndOfSlice(4))
    } else {
        Ok(
            (
                SingleVlanHeader {
                    priority_code_point: ((s[0] as int) / 32) as u8,
                    drop_eligible_indicator: ((s[0] as int) / 16) % 2 == 1,
                    vlan_identifier: (((s[0] as int) % 16) * 256 + (s[1] as int)) as u16,
                    ether_type: spec_be_u16(s, 2),
                },
                s.skip(4),
            ),
        )
    }
}

impl SingleVlanHeader {
    /// Decodes one VLAN tag from the start of the slice and returns it
    /// together with the unconsumed remainder of the slice.
    pub fn read_from_slice<'a>(slice: &'a [u8]) -> (r: Result<
        (SingleVlanHeader, &'a [u8]),
        ReadError,
    >)
        ensures
            match r {
                Ok((header, rest)) => spec_read_single_vlan(slice@) matches Ok(m) && m.0 == header
                    && m.1 == rest@,
                Err(e) => spec_read_single_vlan(slice@) == Err::<
                    (SingleVlanHeader, Seq<u8>),
                    ReadError,
                >(e),
            },
    {
        if slice.len() < SINGLE_VLAN_HEADER_LEN {
            return Err(ReadError::UnexpectedEndOfSlice(SINGLE_VLAN_HEADER_LEN));
        }
        let b0 = slice[0];
        let header = SingleVlanHeader {
            priority_code_point: b0 / 32,
            drop_eligible_indicator: (b0 / 16) % 2 == 1,
            vlan_identifier: ((b0 % 16) as u16) * 256 + (slice[1] as u16),
            ether_type: read_be_u16(slice, 2),
        };
        let rest = tail_from(slice, SINGLE_VLAN_HEADER_LEN);
        Ok((header, rest))
    }
}

/// Resolves the VLAN layer given the ether type announced by the link header
/// and the bytes that follow it. Yields the tags that were consumed (none,
/// one or two), the effective ether type for network-layer dispatch, and the
/// remaining suffix. A second tag is read exactly when the first tag's own
/// ether type is again a VLAN marker; the chain stops there regardless of
/// what the second tag announces.
pub open spec fn spec_read_vlans(ether_type: u16, s: Seq<u8>) -> Result<
    (Option<VlanHeader>, u16, Seq<u8>),
    ReadError,
> {
    if !spec_is_vlan_ether_type(ether_type) {
        Ok((None, ether_type, s))
    } else {
        match spec_read_single_vlan(s) {
            Err(e) => Err(e),
            Ok((outer, r1)) => if spec_is_vlan_ether_type(outer.ether_type) {
                match spec_read_single_vlan(r1) {
                    Err(e) => Err(e),
                    Ok(
                        (inner, r2),
                    ) => Ok(
                        (
                            Some(VlanHeader::Double(DoubleVlanHeader { outer, inner })),
                            inner.ether_type,
                            r2,
                        ),
                    ),
                }
            } else {
                Ok((Some(VlanHeader::Single(outer)), outer.ether_type, r1))
            },
        }
    }
}

} // verus!
