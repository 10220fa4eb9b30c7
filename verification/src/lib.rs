//! A pure-Rust client library for the Linux nftables netlink protocol.
//!
//! The library models firewall configuration objects (tables, chains, rules
//! and their match/verdict expressions), encodes them into 4-byte-aligned
//! netlink attribute (TLV) wire messages, groups them into atomic batched
//! transactions with sequence-number bookkeeping, and decodes kernel
//! acknowledgements, errors and object listings back into typed values.
//!
//! Every encoder and decoder carries a contract relating the bytes it
//! produces or consumes to a mathematical description of the wire format,
//! and the central round-trip and framing laws are proved as lemmas.

use vstd::prelude::*;

pub mod attribute;
pub mod batch;
pub mod chain;
pub mod chain_methods;
pub mod data_type;
pub mod error;
pub mod expr;
pub mod nlmsg;
pub mod parser;
pub mod query;
pub mod rule;
pub mod rule_methods;
pub mod table;

verus! {

/// Protocol family a table (and everything below it) operates on.
#[derive(Debug, Clone, Copy, PartialEq, Eq, Structural)]
pub enum ProtocolFamily {
    Unspec,
    /// Both IPv4 and IPv6.
    Inet,
    Ipv4,
    Arp,
    NetDev,
    Bridge,
    Ipv6,
}

impl ProtocolFamily {
    /// The numeric `NFPROTO_*` value carried on the wire.
    pub open spec fn spec_code(self) -> u32 {
        match self {
            ProtocolFamily::Unspec => 0,
            ProtocolFamily::Inet => 1,
            ProtocolFamily::Ipv4 => 2,
            ProtocolFamily::Arp => 3,
            ProtocolFamily::NetDev => 5,
            ProtocolFamily::Bridge => 7,
            ProtocolFamily::Ipv6 => 10,
        }
    }

    pub fn code(self) -> (r: u32)
        ensures
            r == self.spec_code(),
    {
        match self {
            ProtocolFamily::Unspec => 0,
            ProtocolFamily::Inet => 1,
            ProtocolFamily::Ipv4 => 2,
            ProtocolFamily::Arp => 3,
            ProtocolFamily::NetDev => 5,
            ProtocolFamily::Bridge => 7,
            ProtocolFamily::Ipv6 => 10,
        }
    }

    /// The family a numeric code stands for, if any.
    pub open spec fn spec_from_code(code: u32) -> Option<ProtocolFamily> {
        if code == 0 {
            Some(ProtocolFamily::Unspec)
        } else if code == 1 {
            Some(ProtocolFamily::Inet)
        } else if code == 2 {
            Some(ProtocolFamily::Ipv4)
        } else if code == 3 {
            Some(ProtocolFamily::Arp)
        } else if code == 5 {
            Some(ProtocolFamily::NetDev)
        } else if code == 7 {
            Some(ProtocolFamily::Bridge)
        } else if code == 10 {
            Some(ProtocolFamily::Ipv6)
        } else {
            None
        }
    }

    pub fn from_code(code: u32) -> (r: Option<ProtocolFamily>)
        ensures
            r == Self::spec_from_code(code),
    {
        if code == 0 {
            Some(ProtocolFamily::Unspec)
        } else if code == 1 {
            Some(ProtocolFamily::Inet)
        } else if code == 2 {
            Some(ProtocolFamily::Ipv4)
        } else if code == 3 {
            Some(ProtocolFamily::Arp)
        } else if code == 5 {
            Some(ProtocolFamily::NetDev)
        } else if code == 7 {
            Some(ProtocolFamily::Bridge)
        } else if code == 10 {
            Some(ProtocolFamily::Ipv6)
        } else {
            None
        }
    }
}

/// Every protocol family round-trips through its wire code.
pub proof fn lemma_protocol_family_code_round_trip(f: ProtocolFamily)
    ensures
        ProtocolFamily::spec_from_code(f.spec_code()) == Some(f),
{
}

/// The operation a batched message asks the kernel to perform.
#[derive(Debug, Clone, Copy, PartialEq, Eq, Structural)]
pub enum MsgType {
    /// Create the object.
    Add,
    /// Delete the object.
    Del,
}

} // verus!
