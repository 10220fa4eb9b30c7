//! Rejects the packet, answering with an unreachable message or a TCP
//! reset; a verdict not expressible through the immediate path.

use vstd::prelude::*;

use crate::attribute::{AttrKind, AttrValue, Attribute, NfNetlinkAttributes, decode_typed_attribute, spec_lookup};
use crate::attribute::{lemma_fixed_attr_wf, lemma_insert_append};
use crate::error::DecodeError;
use crate::parser::NetlinkType;
use crate::expr::{Expression, append_opt_u32, append_opt_u8, lemma_lookup_opt_head, opt_pair, opt_u32, opt_u8};

verus! {

pub const NFTA_REJECT_TYPE: u16 = 1;

pub const NFTA_REJECT_ICMP_CODE: u16 = 2;

/// How the rejection is answered.
#[derive(Debug, Clone, Copy, PartialEq, Eq, Structural)]
pub enum RejectType {
    IcmpUnreach,
    TcpRst,
    IcmpxUnreach,
}

impl RejectType {
    pub open spec fn spec_code(self) -> u32 {
        match self {
            RejectType::IcmpUnreach => 0,
            RejectType::TcpRst => 1,
            RejectType::IcmpxUnreach => 2,
        }
    }

    pub fn code(self) -> (r: u32)
        ensures
            r == self.spec_code(),
    {
        match self {
            RejectType::IcmpUnreach => 0,
            RejectType::TcpRst => 1,
            RejectType::IcmpxUnreach => 2,
        }
    }

    pub open spec fn spec_from_code(code: u32) -> Option<RejectType> {
        if code == 0 {
            Some(RejectType::IcmpUnreach)
        } else if code == 1 {
            Some(RejectType::TcpRst)
        } else if code == 2 {
            Some(RejectType::IcmpxUnreach)
        } else {
            None
        }
    }

    pub fn from_code(code: u32) -> (r: Option<RejectType>)
        ensures
            r == Self::spec_from_code(code),
    {
        if code == 0 {
            Some(RejectType::IcmpUnreach)
        } else if code == 1 {
            Some(RejectType::TcpRst)
        } else if code == 2 {
            Some(RejectType::IcmpxUnreach)
        } else {
            None
        }
    }
}

/// Every `RejectType` round-trips through its wire code.
pub proof fn lemma_reject_type_code_round_trip(x: RejectType)
    ensures
        RejectType::spec_from_code(x.spec_code()) == Some(x),
{
}

pub open spec fn spec_opt_reject_type(o: Option<RejectType>) -> Option<AttrValue> {
    match o {
        None => None,
        Some(x) => Some(AttrValue::U32(x.spec_code())),
    }
}

/// Rejects the packet with a reject kind and an ICMP(X) code.
#[derive(Debug, Clone)]
pub struct Reject {
    reject_type: Option<RejectType>,
    icmp_code: Option<u8>,
}

/// Mathematical image of [`Reject`].
pub struct RejectView {
    pub reject_type: Option<RejectType>,
    pub icmp_code: Option<u8>,
}

impl View for Reject {
    type V = RejectView;

    closed spec fn view(&self) -> RejectView {
        RejectView {
            reject_type: self.reject_type,
            icmp_code: self.icmp_code,
        }
    }
}

impl RejectView {
    /// The attribute pairs of the present fields, in ascending tag order.
    pub open spec fn spec_pairs(self) -> Seq<(u16, AttrValue)> {
        opt_pair(NFTA_REJECT_TYPE, spec_opt_reject_type(self.reject_type)) + (opt_pair(NFTA_REJECT_ICMP_CODE, opt_u8(self.icmp_code)))
    }

    /// Every present field fits one attribute.
    pub open spec fn wf(self) -> bool {
        true
    }
}

/// The expression a pair sequence decodes to: every recognized tag must
/// carry its field's kind and a mappable code.
pub open spec fn spec_reject_from_pairs(s: Seq<(u16, AttrValue)>) -> Result<RejectView, DecodeError> {
    let reject_type = spec_lookup(s, NFTA_REJECT_TYPE);
    let icmp_code = spec_lookup(s, NFTA_REJECT_ICMP_CODE);
    if !(match reject_type {
        None => true,
        Some(AttrValue::U32(x)) => RejectType::spec_from_code(x) is Some,
        Some(_) => false,
    } && match icmp_code {
        None => true,
        Some(AttrValue::U8(_)) => true,
        Some(_) => false,
    }) {
        Err(DecodeError::InvalidAttributeType)
    } else {
        Ok(
            RejectView {
                reject_type: match reject_type {
                    Some(AttrValue::U32(x)) => RejectType::spec_from_code(x),
                    _ => None,
                },
                icmp_code: match icmp_code {
                    Some(AttrValue::U8(x)) => Some(x),
                    _ => None,
                },
            },
        )
    }
}

impl Reject {
    /// An expression with no fields set.
    pub fn empty() -> (r: Self)
        ensures
            r@.reject_type == None::<RejectType>,
            r@.icmp_code == None::<u8>,
    {
        Reject { reject_type: None, icmp_code: None }
    }

    pub fn get_reject_type(&self) -> (r: Option<&RejectType>)
        ensures
            match r {
                Some(x) => self@.reject_type == Some(*x),
                None => self@.reject_type is None,
            },
    {
        self.reject_type.as_ref()
    }

    pub fn set_reject_type(&mut self, reject_type: RejectType)
        ensures
            final(self)@ == (RejectView { reject_type: Some(reject_type), ..old(self)@ }),
    {
        self.reject_type = Some(reject_type);
    }

    pub fn with_reject_type(self, reject_type: RejectType) -> (r: Self)
        ensures
            r@ == (RejectView { reject_type: Some(reject_type), ..self@ }),
    {
        Reject { reject_type: Some(reject_type), ..self }
    }

    pub fn get_icmp_code(&self) -> (r: Option<&u8>)
        ensures
            match r {
                Some(x) => self@.icmp_code == Some(*x),
                None => self@.icmp_code is None,
            },
    {
        self.icmp_code.as_ref()
    }

    pub fn set_icmp_code(&mut self, icmp_code: u8)
        ensures
            final(self)@ == (RejectView { icmp_code: Some(icmp_code), ..old(self)@ }),
    {
        self.icmp_code = Some(icmp_code);
    }

    pub fn with_icmp_code(self, icmp_code: u8) -> (r: Self)
        ensures
            r@ == (RejectView { icmp_code: Some(icmp_code), ..self@ }),
    {
        Reject { icmp_code: Some(icmp_code), ..self }
    }

    /// The expression as an attribute set.
    pub fn to_attrs(&self) -> (r: NfNetlinkAttributes)
        requires
            self@.wf(),
        ensures
            r.wf(),
            r.pairs() == self@.spec_pairs(),
    {
        let mut attrs = NfNetlinkAttributes::new();
        let code_reject_type: Option<u32> = match &self.reject_type {
            Some(x) => Some(x.code()),
            None => None,
        };
        append_opt_u32(&mut attrs, NFTA_REJECT_TYPE, code_reject_type);
        proof {
            assert(opt_u32(code_reject_type) == spec_opt_reject_type(self@.reject_type));
        }
        append_opt_u8(&mut attrs, NFTA_REJECT_ICMP_CODE, self.icmp_code);
        proof {
            assert(attrs.pairs() =~= self@.spec_pairs());
        }
        attrs
    }

    /// The expression a decoded attribute set stands for.
    pub fn from_attrs(attrs: &NfNetlinkAttributes) -> (r: Result<Self, DecodeError>)
        ensures
            match r {
                Ok(e) => spec_reject_from_pairs(attrs.pairs()) == Ok::<RejectView, DecodeError>(e@),
                Err(e) => spec_reject_from_pairs(attrs.pairs()) == Err::<RejectView, DecodeError>(e),
            },
    {
        let reject_type = match attrs.get_attr(NFTA_REJECT_TYPE) {
            None => None,
            Some(Attribute::U32(x)) => match RejectType::from_code(*x) {
                Some(v) => Some(v),
                None => {
                    return Err(DecodeError::InvalidAttributeType);
                },
            },
            Some(_) => {
                return Err(DecodeError::InvalidAttributeType);
            },
        };
        let icmp_code = match attrs.get_attr(NFTA_REJECT_ICMP_CODE) {
            None => None,
            Some(Attribute::U8(x)) => Some(*x),
            Some(_) => {
                return Err(DecodeError::InvalidAttributeType);
            },
        };
        Ok(Reject { reject_type, icmp_code })
    }
}

/// Law: the expression decodes back from its own attribute pairs.
pub proof fn lemma_reject_round_trip(v: RejectView)
    ensures
        spec_reject_from_pairs(v.spec_pairs()) == Ok::<RejectView, DecodeError>(v),
{
    let s = v.spec_pairs();
    let empty = Seq::<(u16, AttrValue)>::empty();
    let tail1 = opt_pair(NFTA_REJECT_ICMP_CODE, opt_u8(v.icmp_code));
    assert(opt_pair(NFTA_REJECT_ICMP_CODE, opt_u8(v.icmp_code)) + empty =~= tail1);
    assert(spec_lookup(empty, NFTA_REJECT_TYPE) == None::<AttrValue>);
    assert(spec_lookup(empty, NFTA_REJECT_ICMP_CODE) == None::<AttrValue>);
    lemma_lookup_opt_head(NFTA_REJECT_TYPE, spec_opt_reject_type(v.reject_type), tail1, NFTA_REJECT_TYPE);
    lemma_lookup_opt_head(NFTA_REJECT_TYPE, spec_opt_reject_type(v.reject_type), tail1, NFTA_REJECT_ICMP_CODE);
    lemma_lookup_opt_head(NFTA_REJECT_ICMP_CODE, opt_u8(v.icmp_code), empty, NFTA_REJECT_TYPE);
    lemma_lookup_opt_head(NFTA_REJECT_ICMP_CODE, opt_u8(v.icmp_code), empty, NFTA_REJECT_ICMP_CODE);
    if v.reject_type is Some {
        lemma_reject_type_code_round_trip(v.reject_type->0);
    }
}

impl crate::nlmsg::AttributeDecoder for Reject {
    open spec fn spec_attr_kind(ty: u16) -> AttrKind {
        if ty == NFTA_REJECT_TYPE {
            AttrKind::U32
        } else if ty == NFTA_REJECT_ICMP_CODE {
            AttrKind::U8
        } else {
            AttrKind::Unknown
        }
    }

    fn decode_attribute(ty: NetlinkType, buf: &[u8]) -> (r: Result<Attribute, DecodeError>) {
        let kind = if ty == NFTA_REJECT_TYPE {
            AttrKind::U32
        } else if ty == NFTA_REJECT_ICMP_CODE {
            AttrKind::U8
        } else {
            AttrKind::Unknown
        };
        decode_typed_attribute(kind, ty, buf)
    }
}

impl Expression for Reject {
    open spec fn spec_name() -> Seq<char> {
        "reject"@
    }

    fn get_name() -> (r: &'static str) {
        proof {
            reveal_strlit("reject");
            assert(vstd::string::is_ascii("reject"));
            vstd::string::is_ascii_spec_bytes("reject");
        }
        "reject"
    }
}

pub const NFT_REJECT_ICMPX_NO_ROUTE: u8 = 0;

pub const NFT_REJECT_ICMPX_PORT_UNREACH: u8 = 1;

pub const NFT_REJECT_ICMPX_HOST_UNREACH: u8 = 2;

pub const NFT_REJECT_ICMPX_ADMIN_PROHIBITED: u8 = 3;

} // verus!
