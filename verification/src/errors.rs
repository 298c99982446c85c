use vstd::prelude::*;

verus! {

/// Failure raised while decoding packet headers from a byte slice.
///
/// A decode either returns a fully populated header stack or exactly one of
/// these errors; there is no partial result. Running into a next-layer type
/// or transport protocol that the decoder does not recognize is *not* an
/// error: the remaining bytes simply become payload.
#[derive(Clone, Copy, Debug, PartialEq, Eq)]
pub enum ReadError {
    /// The slice held fewer bytes than the header needed; carries the
    /// minimum number of bytes that would have been required to continue.
    UnexpectedEndOfSlice(usize),
    /// The version field of an IPv4 header did not hold the value 4.
    Ipv4UnexpectedVersion,
    /// The IPv4 header-length field was smaller than the fixed header itself.
    Ipv4HeaderLengthBad,
    /// The version field of an IPv6 header did not hold the value 6.
    Ipv6UnexpectedVersion,
    /// The leading version nibble of an IP header was neither 4 nor 6;
    /// carries the version number that was read.
    IpUnsupportedVersion(u8),
    /// The IPv6 extension-header chain went on past the supported number of
    /// extension headers.
    Ipv6TooManyHeaderExtensions,
    /// The TCP data-offset field was smaller than the fixed header itself.
    TcpDataOffsetTooSmall,
}

} // verus!
