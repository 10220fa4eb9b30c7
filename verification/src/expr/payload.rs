//! Loads bytes at an offset of a packet header region into a register.
//! High-level header-field selectors resolve named fields to their fixed
//! (region, offset, length) triples.

use vstd::prelude::*;

use crate::attribute::{AttrKind, AttrValue, Attribute, NfNetlinkAttributes, decode_typed_attribute, spec_lookup};
use crate::attribute::{lemma_fixed_attr_wf, lemma_insert_append};
use crate::error::DecodeError;
use crate::parser::NetlinkType;
use crate::expr::{Expression, Register, append_opt_u32, lemma_lookup_opt_head, lemma_register_code_round_trip, opt_pair, opt_reg, opt_u32};

verus! {

pub const NFTA_PAYLOAD_DREG: u16 = 1;

pub const NFTA_PAYLOAD_BASE: u16 = 2;

pub const NFTA_PAYLOAD_OFFSET: u16 = 3;

pub const NFTA_PAYLOAD_LEN: u16 = 4;

pub const NFTA_PAYLOAD_SREG: u16 = 5;

/// Loads `len` bytes at `offset` of a header region into a register.
#[derive(Debug, Clone)]
pub struct Payload {
    dreg: Option<Register>,
    base: Option<u32>,
    offset: Option<u32>,
    len: Option<u32>,
    sreg: Option<Register>,
}

/// Mathematical image of [`Payload`].
pub struct PayloadView {
    pub dreg: Option<Register>,
    pub base: Option<u32>,
    pub offset: Option<u32>,
    pub len: Option<u32>,
    pub sreg: Option<Register>,
}

impl View for Payload {
    type V = PayloadView;

    closed spec fn view(&self) -> PayloadView {
        PayloadView {
            dreg: self.dreg,
            base: self.base,
            offset: self.offset,
            len: self.len,
            sreg: self.sreg,
        }
    }
}

impl PayloadView {
    /// The attribute pairs of the present fields, in ascending tag order.
    pub open spec fn spec_pairs(self) -> Seq<(u16, AttrValue)> {
        opt_pair(NFTA_PAYLOAD_DREG, opt_reg(self.dreg)) + (opt_pair(NFTA_PAYLOAD_BASE, opt_u32(self.base)) + (opt_pair(NFTA_PAYLOAD_OFFSET, opt_u32(self.offset)) + (opt_pair(NFTA_PAYLOAD_LEN, opt_u32(self.len)) + (opt_pair(NFTA_PAYLOAD_SREG, opt_reg(self.sreg))))))
    }

    /// Every present field fits one attribute.
    pub open spec fn wf(self) -> bool {
        true
    }
}

/// The expression a pair sequence decodes to: every recognized tag must
/// carry its field's kind and a mappable code.
pub open spec fn spec_payload_from_pairs(s: Seq<(u16, AttrValue)>) -> Result<PayloadView, DecodeError> {
    let dreg = spec_lookup(s, NFTA_PAYLOAD_DREG);
    let base = spec_lookup(s, NFTA_PAYLOAD_BASE);
    let offset = spec_lookup(s, NFTA_PAYLOAD_OFFSET);
    let len = spec_lookup(s, NFTA_PAYLOAD_LEN);
    let sreg = spec_lookup(s, NFTA_PAYLOAD_SREG);
    if !(match dreg {
        None => true,
        Some(AttrValue::U32(x)) => Register::spec_from_code(x) is Some,
        Some(_) => false,
    } && match base {
        None => true,
        Some(AttrValue::U32(_)) => true,
        Some(_) => false,
    } && match offset {
        None => true,
        Some(AttrValue::U32(_)) => true,
        Some(_) => false,
    } && match len {
        None => true,
        Some(AttrValue::U32(_)) => true,
        Some(_) => false,
    } && match sreg {
        None => true,
        Some(AttrValue::U32(x)) => Register::spec_from_code(x) is Some,
        Some(_) => false,
    }) {
        Err(DecodeError::InvalidAttributeType)
    } else {
        Ok(
            PayloadView {
                dreg: match dreg {
                    Some(AttrValue::U32(x)) => Register::spec_from_code(x),
                    _ => None,
                },
                base: match base {
                    Some(AttrValue::U32(x)) => Some(x),
                    _ => None,
                },
                offset: match offset {
                    Some(AttrValue::U32(x)) => Some(x),
                    _ => None,
                },
                len: match len {
                    Some(AttrValue::U32(x)) => Some(x),
                    _ => None,
                },
                sreg: match sreg {
                    Some(AttrValue::U32(x)) => Register::spec_from_code(x),
                    _ => None,
                },
            },
        )
    }
}

impl Payload {
    /// An expression with no fields set.
    pub fn empty() -> (r: Self)
        ensures
            r@.dreg == None::<Register>,
            r@.base == None::<u32>,
            r@.offset == None::<u32>,
            r@.len == None::<u32>,
            r@.sreg == None::<Register>,
    {
        Payload { dreg: None, base: None, offset: None, len: None, sreg: None }
    }

    pub fn get_dreg(&self) -> (r: Option<&Register>)
        ensures
            match r {
                Some(x) => self@.dreg == Some(*x),
                None => self@.dreg is None,
            },
    {
        self.dreg.as_ref()
    }

    pub fn set_dreg(&mut self, dreg: Register)
        ensures
            final(self)@ == (PayloadView { dreg: Some(dreg), ..old(self)@ }),
    {
        self.dreg = Some(dreg);
    }

    pub fn with_dreg(self, dreg: Register) -> (r: Self)
        ensures
            r@ == (PayloadView { dreg: Some(dreg), ..self@ }),
    {
        Payload { dreg: Some(dreg), ..self }
    }

    pub fn get_base(&self) -> (r: Option<&u32>)
        ensures
            match r {
                Some(x) => self@.base == Some(*x),
                None => self@.base is None,
            },
    {
        self.base.as_ref()
    }

    pub fn set_base(&mut self, base: u32)
        ensures
            final(self)@ == (PayloadView { base: Some(base), ..old(self)@ }),
    {
        self.base = Some(base);
    }

    pub fn with_base(self, base: u32) -> (r: Self)
        ensures
            r@ == (PayloadView { base: Some(base), ..self@ }),
    {
        Payload { base: Some(base), ..self }
    }

    pub fn get_offset(&self) -> (r: Option<&u32>)
        ensures
            match r {
                Some(x) => self@.offset == Some(*x),
                None => self@.offset is None,
            },
    {
        self.offset.as_ref()
    }

    pub fn set_offset(&mut self, offset: u32)
        ensures
            final(self)@ == (PayloadView { offset: Some(offset), ..old(self)@ }),
    {
        self.offset = Some(offset);
    }

    pub fn with_offset(self, offset: u32) -> (r: Self)
        ensures
            r@ == (PayloadView { offset: Some(offset), ..self@ }),
    {
        Payload { offset: Some(offset), ..self }
    }

    pub fn get_len(&self) -> (r: Option<&u32>)
        ensures
            match r {
                Some(x) => self@.len == Some(*x),
                None => self@.len is None,
            },
    {
        self.len.as_ref()
    }

    pub fn set_len(&mut self, len: u32)
        ensures
            final(self)@ == (PayloadView { len: Some(len), ..old(self)@ }),
    {
        self.len = Some(len);
    }

    pub fn with_len(self, len: u32) -> (r: Self)
        ensures
            r@ == (PayloadView { len: Some(len), ..self@ }),
    {
        Payload { len: Some(len), ..self }
    }

    pub fn get_sreg(&self) -> (r: Option<&Register>)
        ensures
            match r {
                Some(x) => self@.sreg == Some(*x),
                None => self@.sreg is None,
            },
    {
        self.sreg.as_ref()
    }

    pub fn set_sreg(&mut self, sreg: Register)
        ensures
            final(self)@ == (PayloadView { sreg: Some(sreg), ..old(self)@ }),
    {
        self.sreg = Some(sreg);
    }

    pub fn with_sreg(self, sreg: Register) -> (r: Self)
        ensures
            r@ == (PayloadView { sreg: Some(sreg), ..self@ }),
    {
        Payload { sreg: Some(sreg), ..self }
    }

    /// The expression as an attribute set.
    pub fn to_attrs(&self) -> (r: NfNetlinkAttributes)
        requires
            self@.wf(),
        ensures
            r.wf(),
            r.pairs() == self@.spec_pairs(),
    {
        let mut attrs = NfNetlinkAttributes::new();
        let code_dreg: Option<u32> = match &self.dreg {
            Some(x) => Some(x.code()),
            None => None,
        };
        append_opt_u32(&mut attrs, NFTA_PAYLOAD_DREG, code_dreg);
        proof {
            assert(opt_u32(code_dreg) == opt_reg(self@.dreg));
        }
        append_opt_u32(&mut attrs, NFTA_PAYLOAD_BASE, self.base);
        append_opt_u32(&mut attrs, NFTA_PAYLOAD_OFFSET, self.offset);
        append_opt_u32(&mut attrs, NFTA_PAYLOAD_LEN, self.len);
        let code_sreg: Option<u32> = match &self.sreg {
            Some(x) => Some(x.code()),
            None => None,
        };
        append_opt_u32(&mut attrs, NFTA_PAYLOAD_SREG, code_sreg);
        proof {
            assert(opt_u32(code_sreg) == opt_reg(self@.sreg));
        }
        proof {
            assert(attrs.pairs() =~= self@.spec_pairs());
        }
        attrs
    }

    /// The expression a decoded attribute set stands for.
    pub fn from_attrs(attrs: &NfNetlinkAttributes) -> (r: Result<Self, DecodeError>)
        ensures
            match r {
                Ok(e) => spec_payload_from_pairs(attrs.pairs()) == Ok::<PayloadView, DecodeError>(e@),
                Err(e) => spec_payload_from_pairs(attrs.pairs()) == Err::<PayloadView, DecodeError>(e),
            },
    {
        let dreg = match attrs.get_attr(NFTA_PAYLOAD_DREG) {
            None => None,
            Some(Attribute::U32(x)) => match Register::from_code(*x) {
                Some(v) => Some(v),
                None => {
                    return Err(DecodeError::InvalidAttributeType);
                },
            },
            Some(_) => {
                return Err(DecodeError::InvalidAttributeType);
            },
        };
        let base = match attrs.get_attr(NFTA_PAYLOAD_BASE) {
            None => None,
            Some(Attribute::U32(x)) => Some(*x),
            Some(_) => {
                return Err(DecodeError::InvalidAttributeType);
            },
        };
        let offset = match attrs.get_attr(NFTA_PAYLOAD_OFFSET) {
            None => None,
            Some(Attribute::U32(x)) => Some(*x),
            Some(_) => {
                return Err(DecodeError::InvalidAttributeType);
            },
        };
        let len = match attrs.get_attr(NFTA_PAYLOAD_LEN) {
            None => None,
            Some(Attribute::U32(x)) => Some(*x),
            Some(_) => {
                return Err(DecodeError::InvalidAttributeType);
            },
        };
        let sreg = match attrs.get_attr(NFTA_PAYLOAD_SREG) {
            None => None,
            Some(Attribute::U32(x)) => match Register::from_code(*x) {
                Some(v) => Some(v),
                None => {
                    return Err(DecodeError::InvalidAttributeType);
                },
            },
            Some(_) => {
                return Err(DecodeError::InvalidAttributeType);
            },
        };
        Ok(Payload { dreg, base, offset, len, sreg })
    }
}

/// Law: the expression decodes back from its own attribute pairs.
pub proof fn lemma_payload_round_trip(v: PayloadView)
    ensures
        spec_payload_from_pairs(v.spec_pairs()) == Ok::<PayloadView, DecodeError>(v),
{
    let s = v.spec_pairs();
    let empty = Seq::<(u16, AttrValue)>::empty();
    let tail4 = opt_pair(NFTA_PAYLOAD_SREG, opt_reg(v.sreg));
    let tail3 = opt_pair(NFTA_PAYLOAD_LEN, opt_u32(v.len)) + tail4;
    let tail2 = opt_pair(NFTA_PAYLOAD_OFFSET, opt_u32(v.offset)) + tail3;
    let tail1 = opt_pair(NFTA_PAYLOAD_BASE, opt_u32(v.base)) + tail2;
    assert(opt_pair(NFTA_PAYLOAD_SREG, opt_reg(v.sreg)) + empty =~= tail4);
    assert(spec_lookup(empty, NFTA_PAYLOAD_DREG) == None::<AttrValue>);
    assert(spec_lookup(empty, NFTA_PAYLOAD_BASE) == None::<AttrValue>);
    assert(spec_lookup(empty, NFTA_PAYLOAD_OFFSET) == None::<AttrValue>);
    assert(spec_lookup(empty, NFTA_PAYLOAD_LEN) == None::<AttrValue>);
    assert(spec_lookup(empty, NFTA_PAYLOAD_SREG) == None::<AttrValue>);
    lemma_lookup_opt_head(NFTA_PAYLOAD_DREG, opt_reg(v.dreg), tail1, NFTA_PAYLOAD_DREG);
    lemma_lookup_opt_head(NFTA_PAYLOAD_DREG, opt_reg(v.dreg), tail1, NFTA_PAYLOAD_BASE);
    lemma_lookup_opt_head(NFTA_PAYLOAD_DREG, opt_reg(v.dreg), tail1, NFTA_PAYLOAD_OFFSET);
    lemma_lookup_opt_head(NFTA_PAYLOAD_DREG, opt_reg(v.dreg), tail1, NFTA_PAYLOAD_LEN);
    lemma_lookup_opt_head(NFTA_PAYLOAD_DREG, opt_reg(v.dreg), tail1, NFTA_PAYLOAD_SREG);
    lemma_lookup_opt_head(NFTA_PAYLOAD_BASE, opt_u32(v.base), tail2, NFTA_PAYLOAD_DREG);
    lemma_lookup_opt_head(NFTA_PAYLOAD_BASE, opt_u32(v.base), tail2, NFTA_PAYLOAD_BASE);
    lemma_lookup_opt_head(NFTA_PAYLOAD_BASE, opt_u32(v.base), tail2, NFTA_PAYLOAD_OFFSET);
    lemma_lookup_opt_head(NFTA_PAYLOAD_BASE, opt_u32(v.base), tail2, NFTA_PAYLOAD_LEN);
    lemma_lookup_opt_head(NFTA_PAYLOAD_BASE, opt_u32(v.base), tail2, NFTA_PAYLOAD_SREG);
    lemma_lookup_opt_head(NFTA_PAYLOAD_OFFSET, opt_u32(v.offset), tail3, NFTA_PAYLOAD_DREG);
    lemma_lookup_opt_head(NFTA_PAYLOAD_OFFSET, opt_u32(v.offset), tail3, NFTA_PAYLOAD_BASE);
    lemma_lookup_opt_head(NFTA_PAYLOAD_OFFSET, opt_u32(v.offset), tail3, NFTA_PAYLOAD_OFFSET);
    lemma_lookup_opt_head(NFTA_PAYLOAD_OFFSET, opt_u32(v.offset), tail3, NFTA_PAYLOAD_LEN);
    lemma_lookup_opt_head(NFTA_PAYLOAD_OFFSET, opt_u32(v.offset), tail3, NFTA_PAYLOAD_SREG);
    lemma_lookup_opt_head(NFTA_PAYLOAD_LEN, opt_u32(v.len), tail4, NFTA_PAYLOAD_DREG);
    lemma_lookup_opt_head(NFTA_PAYLOAD_LEN, opt_u32(v.len), tail4, NFTA_PAYLOAD_BASE);
    lemma_lookup_opt_head(NFTA_PAYLOAD_LEN, opt_u32(v.len), tail4, NFTA_PAYLOAD_OFFSET);
    lemma_lookup_opt_head(NFTA_PAYLOAD_LEN, opt_u32(v.len), tail4, NFTA_PAYLOAD_LEN);
    lemma_lookup_opt_head(NFTA_PAYLOAD_LEN, opt_u32(v.len), tail4, NFTA_PAYLOAD_SREG);
    lemma_lookup_opt_head(NFTA_PAYLOAD_SREG, opt_reg(v.sreg), empty, NFTA_PAYLOAD_DREG);
    lemma_lookup_opt_head(NFTA_PAYLOAD_SREG, opt_reg(v.sreg), empty, NFTA_PAYLOAD_BASE);
    lemma_lookup_opt_head(NFTA_PAYLOAD_SREG, opt_reg(v.sreg), empty, NFTA_PAYLOAD_OFFSET);
    lemma_lookup_opt_head(NFTA_PAYLOAD_SREG, opt_reg(v.sreg), empty, NFTA_PAYLOAD_LEN);
    lemma_lookup_opt_head(NFTA_PAYLOAD_SREG, opt_reg(v.sreg), empty, NFTA_PAYLOAD_SREG);
    if v.dreg is Some {
        lemma_register_code_round_trip(v.dreg->0);
    }
    if v.sreg is Some {
        lemma_register_code_round_trip(v.sreg->0);
    }
}

impl crate::nlmsg::AttributeDecoder for Payload {
    open spec fn spec_attr_kind(ty: u16) -> AttrKind {
        if ty == NFTA_PAYLOAD_DREG {
            AttrKind::U32
        } else if ty == NFTA_PAYLOAD_BASE {
            AttrKind::U32
        } else if ty == NFTA_PAYLOAD_OFFSET {
            AttrKind::U32
        } else if ty == NFTA_PAYLOAD_LEN {
            AttrKind::U32
        } else if ty == NFTA_PAYLOAD_SREG {
            AttrKind::U32
        } else {
            AttrKind::Unknown
        }
    }

    fn decode_attribute(ty: NetlinkType, buf: &[u8]) -> (r: Result<Attribute, DecodeError>) {
        let kind = if ty == NFTA_PAYLOAD_DREG {
            AttrKind::U32
        } else if ty == NFTA_PAYLOAD_BASE {
            AttrKind::U32
        } else if ty == NFTA_PAYLOAD_OFFSET {
            AttrKind::U32
        } else if ty == NFTA_PAYLOAD_LEN {
            AttrKind::U32
        } else if ty == NFTA_PAYLOAD_SREG {
            AttrKind::U32
        } else {
            AttrKind::Unknown
        };
        decode_typed_attribute(kind, ty, buf)
    }
}

impl Expression for Payload {
    open spec fn spec_name() -> Seq<char> {
        "payload"@
    }

    fn get_name() -> (r: &'static str) {
        proof {
            reveal_strlit("payload");
            assert(vstd::string::is_ascii("payload"));
            vstd::string::is_ascii_spec_bytes("payload");
        }
        "payload"
    }
}

pub const NFT_PAYLOAD_LL_HEADER: u32 = 0;

pub const NFT_PAYLOAD_NETWORK_HEADER: u32 = 1;

pub const NFT_PAYLOAD_TRANSPORT_HEADER: u32 = 2;

/// A named IPv4 header field, standing for its fixed offset and length.
#[derive(Debug, Clone, Copy, PartialEq, Eq, Structural)]
pub enum IPv4HeaderField {
    Ttl,
    Protocol,
    Saddr,
    Daddr,
}

impl IPv4HeaderField {
    pub open spec fn spec_offset(self) -> u32 {
        match self {
            IPv4HeaderField::Ttl => 8,
            IPv4HeaderField::Protocol => 9,
            IPv4HeaderField::Saddr => 12,
            IPv4HeaderField::Daddr => 16,
        }
    }

    pub open spec fn spec_len(self) -> u32 {
        match self {
            IPv4HeaderField::Ttl => 1,
            IPv4HeaderField::Protocol => 1,
            IPv4HeaderField::Saddr => 4,
            IPv4HeaderField::Daddr => 4,
        }
    }
}

/// A named IPv6 header field.
#[derive(Debug, Clone, Copy, PartialEq, Eq, Structural)]
pub enum IPv6HeaderField {
    NextHeader,
    HopLimit,
    Saddr,
    Daddr,
}

impl IPv6HeaderField {
    pub open spec fn spec_offset(self) -> u32 {
        match self {
            IPv6HeaderField::NextHeader => 6,
            IPv6HeaderField::HopLimit => 7,
            IPv6HeaderField::Saddr => 8,
            IPv6HeaderField::Daddr => 24,
        }
    }

    pub open spec fn spec_len(self) -> u32 {
        match self {
            IPv6HeaderField::NextHeader => 1,
            IPv6HeaderField::HopLimit => 1,
            IPv6HeaderField::Saddr => 16,
            IPv6HeaderField::Daddr => 16,
        }
    }
}

/// A named network-layer header field.
#[derive(Debug, Clone, Copy, PartialEq, Eq, Structural)]
pub enum NetworkHeaderField {
    IPv4(IPv4HeaderField),
    IPv6(IPv6HeaderField),
}

impl NetworkHeaderField {
    pub open spec fn spec_offset(self) -> u32 {
        match self {
            NetworkHeaderField::IPv4(f) => f.spec_offset(),
            NetworkHeaderField::IPv6(f) => f.spec_offset(),
        }
    }

    pub open spec fn spec_len(self) -> u32 {
        match self {
            NetworkHeaderField::IPv4(f) => f.spec_len(),
            NetworkHeaderField::IPv6(f) => f.spec_len(),
        }
    }
}

/// A named TCP header field.
#[derive(Debug, Clone, Copy, PartialEq, Eq, Structural)]
pub enum TCPHeaderField {
    Sport,
    Dport,
}

impl TCPHeaderField {
    pub open spec fn spec_offset(self) -> u32 {
        match self {
            TCPHeaderField::Sport => 0,
            TCPHeaderField::Dport => 2,
        }
    }

    pub open spec fn spec_len(self) -> u32 {
        2
    }
}

/// A named UDP header field.
#[derive(Debug, Clone, Copy, PartialEq, Eq, Structural)]
pub enum UDPHeaderField {
    Sport,
    Dport,
    Len,
}

impl UDPHeaderField {
    pub open spec fn spec_offset(self) -> u32 {
        match self {
            UDPHeaderField::Sport => 0,
            UDPHeaderField::Dport => 2,
            UDPHeaderField::Len => 4,
        }
    }

    pub open spec fn spec_len(self) -> u32 {
        2
    }
}

/// A named transport-layer header field.
#[derive(Debug, Clone, Copy, PartialEq, Eq, Structural)]
pub enum TransportHeaderField {
    Tcp(TCPHeaderField),
    Udp(UDPHeaderField),
}

impl TransportHeaderField {
    pub open spec fn spec_offset(self) -> u32 {
        match self {
            TransportHeaderField::Tcp(f) => f.spec_offset(),
            TransportHeaderField::Udp(f) => f.spec_offset(),
        }
    }

    pub open spec fn spec_len(self) -> u32 {
        match self {
            TransportHeaderField::Tcp(f) => f.spec_len(),
            TransportHeaderField::Udp(f) => f.spec_len(),
        }
    }
}

/// A named header field together with its region; building it resolves the
/// name to a concrete payload load into register one.
#[derive(Debug, Clone, Copy, PartialEq, Eq, Structural)]
pub enum HighLevelPayload {
    Network(NetworkHeaderField),
    Transport(TransportHeaderField),
}

impl HighLevelPayload {
    pub open spec fn spec_base(self) -> u32 {
        match self {
            HighLevelPayload::Network(_) => NFT_PAYLOAD_NETWORK_HEADER,
            HighLevelPayload::Transport(_) => NFT_PAYLOAD_TRANSPORT_HEADER,
        }
    }

    pub open spec fn spec_offset(self) -> u32 {
        match self {
            HighLevelPayload::Network(f) => f.spec_offset(),
            HighLevelPayload::Transport(f) => f.spec_offset(),
        }
    }

    pub open spec fn spec_len(self) -> u32 {
        match self {
            HighLevelPayload::Network(f) => f.spec_len(),
            HighLevelPayload::Transport(f) => f.spec_len(),
        }
    }

    /// The concrete payload load this named field stands for.
    pub fn build(self) -> (r: Payload)
        ensures
            r@ == (PayloadView {
                dreg: Some(Register::Reg1),
                base: Some(self.spec_base()),
                offset: Some(self.spec_offset()),
                len: Some(self.spec_len()),
                sreg: None,
            }),
    {
        let base = match self {
            HighLevelPayload::Network(_) => NFT_PAYLOAD_NETWORK_HEADER,
            HighLevelPayload::Transport(_) => NFT_PAYLOAD_TRANSPORT_HEADER,
        };
        let offset = match self {
            HighLevelPayload::Network(f) => match f {
                NetworkHeaderField::IPv4(x) => match x {
                    IPv4HeaderField::Ttl => 8,
                    IPv4HeaderField::Protocol => 9,
                    IPv4HeaderField::Saddr => 12,
                    IPv4HeaderField::Daddr => 16,
                },
                NetworkHeaderField::IPv6(x) => match x {
                    IPv6HeaderField::NextHeader => 6,
                    IPv6HeaderField::HopLimit => 7,
                    IPv6HeaderField::Saddr => 8,
                    IPv6HeaderField::Daddr => 24,
                },
            },
            HighLevelPayload::Transport(f) => match f {
                TransportHeaderField::Tcp(x) => match x {
                    TCPHeaderField::Sport => 0,
                    TCPHeaderField::Dport => 2,
                },
                TransportHeaderField::Udp(x) => match x {
                    UDPHeaderField::Sport => 0,
                    UDPHeaderField::Dport => 2,
                    UDPHeaderField::Len => 4,
                },
            },
        };
        let len = match self {
            HighLevelPayload::Network(f) => match f {
                NetworkHeaderField::IPv4(x) => match x {
                    IPv4HeaderField::Ttl => 1,
                    IPv4HeaderField::Protocol => 1,
                    IPv4HeaderField::Saddr => 4,
                    IPv4HeaderField::Daddr => 4,
                },
                NetworkHeaderField::IPv6(x) => match x {
                    IPv6HeaderField::NextHeader => 1,
                    IPv6HeaderField::HopLimit => 1,
                    IPv6HeaderField::Saddr => 16,
                    IPv6HeaderField::Daddr => 16,
                },
            },
            HighLevelPayload::Transport(f) => match f {
                TransportHeaderField::Tcp(_) => 2,
                TransportHeaderField::Udp(_) => 2,
            },
        };
        Payload::empty().with_dreg(Register::Reg1).with_base(base).with_offset(offset).with_len(
            len,
        )
    }
}

} // verus!
