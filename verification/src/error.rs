//! Error taxonomy: conditions met while decoding kernel messages, and
//! conditions met while building objects locally.

use vstd::prelude::*;

verus! {

/// An error met while decoding a netlink message or attribute.
///
/// `ConcurrentGenerationUpdate` is retryable: it reports that the kernel's
/// generation counter changed while a listing was running, and the caller
/// should discard partial results and restart the read. Every other variant
/// is terminal for the operation that produced it.
#[derive(Debug, Clone, PartialEq, Eq)]
pub enum DecodeError {
    /// The buffer is too small to hold a valid message.
    BufTooSmall,
    /// The message is too small.
    NlMsgTooSmall,
    /// Invalid subsystem, expected NFTABLES.
    InvalidSubsystem(u8),
    /// Invalid version, expected NFNETLINK_V0.
    InvalidVersion(u8),
    /// Invalid port id.
    InvalidPortId(u32),
    /// Invalid sequence number.
    InvalidSeq(u32),
    /// The generation number was bumped in the kernel while the operation was
    /// running, interrupting it.
    ConcurrentGenerationUpdate,
    /// Unsupported message type.
    UnsupportedType(u16),
    /// Invalid attribute type.
    InvalidAttributeType,
    /// Unsupported attribute type.
    UnsupportedAttributeType(u16),
    /// Unexpected message type.
    UnexpectedType(u16),
    /// The decoded string is not UTF-8 compliant.
    StringDecodeFailure,
    /// Invalid value for a protocol family.
    InvalidProtocolFamily(u32),
    /// An opaque wrapped cause.
    Custom(String),
}

/// An error met while building an object locally, before anything reaches
/// the wire.
#[derive(Debug, Clone, Copy, PartialEq, Eq, Structural)]
pub enum BuilderError {
    /// An interface name longer than the kernel's limit was supplied.
    InterfaceNameTooLong,
    /// The mask and xor byte strings of a bitwise expression have
    /// different lengths.
    InvalidMaskLength,
    /// The object's attributes would not fit a single netlink attribute's
    /// 16-bit length field.
    ObjectTooLarge,
}

} // verus!
