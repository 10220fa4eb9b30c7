//! Rewrites a connection's addresses: source or destination network
//! address translation.

use vstd::prelude::*;

use crate::attribute::{AttrKind, AttrValue, Attribute, NfNetlinkAttributes, decode_typed_attribute, spec_lookup};
use crate::attribute::{lemma_fixed_attr_wf, lemma_insert_append};
use crate::error::DecodeError;
use crate::parser::NetlinkType;
use crate::ProtocolFamily;
use crate::expr::{Expression, Register, append_opt_proto, append_opt_u32, lemma_lookup_opt_head, lemma_register_code_round_trip, opt_pair, opt_proto, opt_reg, opt_u32};

verus! {

pub const NFTA_NAT_TYPE: u16 = 1;

pub const NFTA_NAT_FAMILY: u16 = 2;

pub const NFTA_NAT_REG_ADDR_MIN: u16 = 3;

pub const NFTA_NAT_REG_PROTO_MIN: u16 = 5;

/// Which end of the connection is rewritten.
#[derive(Debug, Clone, Copy, PartialEq, Eq, Structural)]
pub enum NatType {
    SNat,
    DNat,
}

impl NatType {
    pub open spec fn spec_code(self) -> u32 {
        match self {
            NatType::SNat => 0,
            NatType::DNat => 1,
        }
    }

    pub fn code(self) -> (r: u32)
        ensures
            r == self.spec_code(),
    {
        match self {
            NatType::SNat => 0,
            NatType::DNat => 1,
        }
    }

    pub open spec fn spec_from_code(code: u32) -> Option<NatType> {
        if code == 0 {
            Some(NatType::SNat)
        } else if code == 1 {
            Some(NatType::DNat)
        } else {
            None
        }
    }

    pub fn from_code(code: u32) -> (r: Option<NatType>)
        ensures
            r == Self::spec_from_code(code),
    {
        if code == 0 {
            Some(NatType::SNat)
        } else if code == 1 {
            Some(NatType::DNat)
        } else {
            None
        }
    }
}

/// Every `NatType` round-trips through its wire code.
pub proof fn lemma_nat_type_code_round_trip(x: NatType)
    ensures
        NatType::spec_from_code(x.spec_code()) == Some(x),
{
}

pub open spec fn spec_opt_nat_type(o: Option<NatType>) -> Option<AttrValue> {
    match o {
        None => None,
        Some(x) => Some(AttrValue::U32(x.spec_code())),
    }
}

/// Connection address translation parameters.
#[derive(Debug, Clone)]
pub struct Nat {
    pub nat_type: Option<NatType>,
    pub family: Option<ProtocolFamily>,
    pub ip_register: Option<Register>,
    pub port_register: Option<Register>,
}

/// Mathematical image of [`Nat`].
pub struct NatView {
    pub nat_type: Option<NatType>,
    pub family: Option<ProtocolFamily>,
    pub ip_register: Option<Register>,
    pub port_register: Option<Register>,
}

impl View for Nat {
    type V = NatView;

    open spec fn view(&self) -> NatView {
        NatView {
            nat_type: self.nat_type,
            family: self.family,
            ip_register: self.ip_register,
            port_register: self.port_register,
        }
    }
}

impl NatView {
    /// The attribute pairs of the present fields, in ascending tag order.
    pub open spec fn spec_pairs(self) -> Seq<(u16, AttrValue)> {
        opt_pair(NFTA_NAT_TYPE, spec_opt_nat_type(self.nat_type)) + (opt_pair(NFTA_NAT_FAMILY, opt_proto(self.family)) + (opt_pair(NFTA_NAT_REG_ADDR_MIN, opt_reg(self.ip_register)) + (opt_pair(NFTA_NAT_REG_PROTO_MIN, opt_reg(self.port_register)))))
    }

    /// Every present field fits one attribute.
    pub open spec fn wf(self) -> bool {
        true
    }
}

/// The expression a pair sequence decodes to: every recognized tag must
/// carry its field's kind and a mappable code.
pub open spec fn spec_nat_from_pairs(s: Seq<(u16, AttrValue)>) -> Result<NatView, DecodeError> {
    let nat_type = spec_lookup(s, NFTA_NAT_TYPE);
    let family = spec_lookup(s, NFTA_NAT_FAMILY);
    let ip_register = spec_lookup(s, NFTA_NAT_REG_ADDR_MIN);
    let port_register = spec_lookup(s, NFTA_NAT_REG_PROTO_MIN);
    if !(match nat_type {
        None => true,
        Some(AttrValue::U32(x)) => NatType::spec_from_code(x) is Some,
        Some(_) => false,
    } && match family {
        None => true,
        Some(AttrValue::ProtoFamily(_)) => true,
        Some(_) => false,
    } && match ip_register {
        None => true,
        Some(AttrValue::U32(x)) => Register::spec_from_code(x) is Some,
        Some(_) => false,
    } && match port_register {
        None => true,
        Some(AttrValue::U32(x)) => Register::spec_from_code(x) is Some,
        Some(_) => false,
    }) {
        Err(DecodeError::InvalidAttributeType)
    } else {
        Ok(
            NatView {
                nat_type: match nat_type {
                    Some(AttrValue::U32(x)) => NatType::spec_from_code(x),
                    _ => None,
                },
                family: match family {
                    Some(AttrValue::ProtoFamily(x)) => Some(x),
                    _ => None,
                },
                ip_register: match ip_register {
                    Some(AttrValue::U32(x)) => Register::spec_from_code(x),
                    _ => None,
                },
                port_register: match port_register {
                    Some(AttrValue::U32(x)) => Register::spec_from_code(x),
                    _ => None,
                },
            },
        )
    }
}

impl Nat {
    /// An expression with no fields set.
    pub fn empty() -> (r: Self)
        ensures
            r@.nat_type == None::<NatType>,
            r@.family == None::<ProtocolFamily>,
            r@.ip_register == None::<Register>,
            r@.port_register == None::<Register>,
    {
        Nat { nat_type: None, family: None, ip_register: None, port_register: None }
    }

    pub fn get_nat_type(&self) -> (r: Option<&NatType>)
        ensures
            match r {
                Some(x) => self@.nat_type == Some(*x),
                None => self@.nat_type is None,
            },
    {
        self.nat_type.as_ref()
    }

    pub fn set_nat_type(&mut self, nat_type: NatType)
        ensures
            final(self)@ == (NatView { nat_type: Some(nat_type), ..old(self)@ }),
    {
        self.nat_type = Some(nat_type);
    }

    pub fn with_nat_type(self, nat_type: NatType) -> (r: Self)
        ensures
            r@ == (NatView { nat_type: Some(nat_type), ..self@ }),
    {
        Nat { nat_type: Some(nat_type), ..self }
    }

    pub fn get_family(&self) -> (r: Option<&ProtocolFamily>)
        ensures
            match r {
                Some(x) => self@.family == Some(*x),
                None => self@.family is None,
            },
    {
        self.family.as_ref()
    }

    pub fn set_family(&mut self, family: ProtocolFamily)
        ensures
            final(self)@ == (NatView { family: Some(family), ..old(self)@ }),
    {
        self.family = Some(family);
    }

    pub fn with_family(self, family: ProtocolFamily) -> (r: Self)
        ensures
            r@ == (NatView { family: Some(family), ..self@ }),
    {
        Nat { family: Some(family), ..self }
    }

    pub fn get_ip_register(&self) -> (r: Option<&Register>)
        ensures
            match r {
                Some(x) => self@.ip_register == Some(*x),
                None => self@.ip_register is None,
            },
    {
        self.ip_register.as_ref()
    }

    pub fn set_ip_register(&mut self, ip_register: Register)
        ensures
            final(self)@ == (NatView { ip_register: Some(ip_register), ..old(self)@ }),
    {
        self.ip_register = Some(ip_register);
    }

    pub fn with_ip_register(self, ip_register: Register) -> (r: Self)
        ensures
            r@ == (NatView { ip_register: Some(ip_register), ..self@ }),
    {
        Nat { ip_register: Some(ip_register), ..self }
    }

    pub fn get_port_register(&self) -> (r: Option<&Register>)
        ensures
            match r {
                Some(x) => self@.port_register == Some(*x),
                None => self@.port_register is None,
            },
    {
        self.port_register.as_ref()
    }

    pub fn set_port_register(&mut self, port_register: Register)
        ensures
            final(self)@ == (NatView { port_register: Some(port_register), ..old(self)@ }),
    {
        self.port_register = Some(port_register);
    }

    pub fn with_port_register(self, port_register: Register) -> (r: Self)
        ensures
            r@ == (NatView { port_register: Some(port_register), ..self@ }),
    {
        Nat { port_register: Some(port_register), ..self }
    }

    /// The expression as an attribute set.
    pub fn to_attrs(&self) -> (r: NfNetlinkAttributes)
        requires
            self@.wf(),
        ensures
            r.wf(),
            r.pairs() == self@.spec_pairs(),
    {
        let mut attrs = NfNetlinkAttributes::new();
        let code_nat_type: Option<u32> = match &self.nat_type {
            Some(x) => Some(x.code()),
            None => None,
        };
        append_opt_u32(&mut attrs, NFTA_NAT_TYPE, code_nat_type);
        proof {
            assert(opt_u32(code_nat_type) == spec_opt_nat_type(self@.nat_type));
        }
        append_opt_proto(&mut attrs, NFTA_NAT_FAMILY, self.family);
        let code_ip_register: Option<u32> = match &self.ip_register {
            Some(x) => Some(x.code()),
            None => None,
        };
        append_opt_u32(&mut attrs, NFTA_NAT_REG_ADDR_MIN, code_ip_register);
        proof {
            assert(opt_u32(code_ip_register) == opt_reg(self@.ip_register));
        }
        let code_port_register: Option<u32> = match &self.port_register {
            Some(x) => Some(x.code()),
            None => None,
        };
        append_opt_u32(&mut attrs, NFTA_NAT_REG_PROTO_MIN, code_port_register);
        proof {
            assert(opt_u32(code_port_register) == opt_reg(self@.port_register));
        }
        proof {
            assert(attrs.pairs() =~= self@.spec_pairs());
        }
        attrs
    }

    /// The expression a decoded attribute set stands for.
    pub fn from_attrs(attrs: &NfNetlinkAttributes) -> (r: Result<Self, DecodeError>)
        ensures
            match r {
                Ok(e) => spec_nat_from_pairs(attrs.pairs()) == Ok::<NatView, DecodeError>(e@),
                Err(e) => spec_nat_from_pairs(attrs.pairs()) == Err::<NatView, DecodeError>(e),
            },
    {
        let nat_type = match attrs.get_attr(NFTA_NAT_TYPE) {
            None => None,
            Some(Attribute::U32(x)) => match NatType::from_code(*x) {
                Some(v) => Some(v),
                None => {
                    return Err(DecodeError::InvalidAttributeType);
                },
            },
            Some(_) => {
                return Err(DecodeError::InvalidAttributeType);
            },
        };
        let family = match attrs.get_attr(NFTA_NAT_FAMILY) {
            None => None,
            Some(Attribute::ProtoFamily(x)) => Some(*x),
            Some(_) => {
                return Err(DecodeError::InvalidAttributeType);
            },
        };
        let ip_register = match attrs.get_attr(NFTA_NAT_REG_ADDR_MIN) {
            None => None,
            Some(Attribute::U32(x)) => match Register::from_code(*x) {
                Some(v) => Some(v),
                None => {
                    return Err(DecodeError::InvalidAttributeType);
                },
            },
            Some(_) => {
                return Err(DecodeError::InvalidAttributeType);
            },
        };
        let port_register = match attrs.get_attr(NFTA_NAT_REG_PROTO_MIN) {
            None => None,
            Some(Attribute::U32(x)) => match Register::from_code(*x) {
                Some(v) => Some(v),
                None => {
                    return Err(DecodeError::InvalidAttributeType);
                },
            },
            Some(_) => {
                return Err(DecodeError::InvalidAttributeType);
            },
        };
        Ok(Nat { nat_type, family, ip_register, port_register })
    }
}

/// Law: the expression decodes back from its own attribute pairs.
pub proof fn lemma_nat_round_trip(v: NatView)
    ensures
        spec_nat_from_pairs(v.spec_pairs()) == Ok::<NatView, DecodeError>(v),
{
    let s = v.spec_pairs();
    let empty = Seq::<(u16, AttrValue)>::empty();
    let tail3 = opt_pair(NFTA_NAT_REG_PROTO_MIN, opt_reg(v.port_register));
    let tail2 = opt_pair(NFTA_NAT_REG_ADDR_MIN, opt_reg(v.ip_register)) + tail3;
    let tail1 = opt_pair(NFTA_NAT_FAMILY, opt_proto(v.family)) + tail2;
    assert(opt_pair(NFTA_NAT_REG_PROTO_MIN, opt_reg(v.port_register)) + empty =~= tail3);
    assert(spec_lookup(empty, NFTA_NAT_TYPE) == None::<AttrValue>);
    assert(spec_lookup(empty, NFTA_NAT_FAMILY) == None::<AttrValue>);
    assert(spec_lookup(empty, NFTA_NAT_REG_ADDR_MIN) == None::<AttrValue>);
    assert(spec_lookup(empty, NFTA_NAT_REG_PROTO_MIN) == None::<AttrValue>);
    lemma_lookup_opt_head(NFTA_NAT_TYPE, spec_opt_nat_type(v.nat_type), tail1, NFTA_NAT_TYPE);
    lemma_lookup_opt_head(NFTA_NAT_TYPE, spec_opt_nat_type(v.nat_type), tail1, NFTA_NAT_FAMILY);
    lemma_lookup_opt_head(NFTA_NAT_TYPE, spec_opt_nat_type(v.nat_type), tail1, NFTA_NAT_REG_ADDR_MIN);
    lemma_lookup_opt_head(NFTA_NAT_TYPE, spec_opt_nat_type(v.nat_type), tail1, NFTA_NAT_REG_PROTO_MIN);
    lemma_lookup_opt_head(NFTA_NAT_FAMILY, opt_proto(v.family), tail2, NFTA_NAT_TYPE);
    lemma_lookup_opt_head(NFTA_NAT_FAMILY, opt_proto(v.family), tail2, NFTA_NAT_FAMILY);
    lemma_lookup_opt_head(NFTA_NAT_FAMILY, opt_proto(v.family), tail2, NFTA_NAT_REG_ADDR_MIN);
    lemma_lookup_opt_head(NFTA_NAT_FAMILY, opt_proto(v.family), tail2, NFTA_NAT_REG_PROTO_MIN);
    lemma_lookup_opt_head(NFTA_NAT_REG_ADDR_MIN, opt_reg(v.ip_register), tail3, NFTA_NAT_TYPE);
    lemma_lookup_opt_head(NFTA_NAT_REG_ADDR_MIN, opt_reg(v.ip_register), tail3, NFTA_NAT_FAMILY);
    lemma_lookup_opt_head(NFTA_NAT_REG_ADDR_MIN, opt_reg(v.ip_register), tail3, NFTA_NAT_REG_ADDR_MIN);
    lemma_lookup_opt_head(NFTA_NAT_REG_ADDR_MIN, opt_reg(v.ip_register), tail3, NFTA_NAT_REG_PROTO_MIN);
    lemma_lookup_opt_head(NFTA_NAT_REG_PROTO_MIN, opt_reg(v.port_register), empty, NFTA_NAT_TYPE);
    lemma_lookup_opt_head(NFTA_NAT_REG_PROTO_MIN, opt_reg(v.port_register), empty, NFTA_NAT_FAMILY);
    lemma_lookup_opt_head(NFTA_NAT_REG_PROTO_MIN, opt_reg(v.port_register), empty, NFTA_NAT_REG_ADDR_MIN);
    lemma_lookup_opt_head(NFTA_NAT_REG_PROTO_MIN, opt_reg(v.port_register), empty, NFTA_NAT_REG_PROTO_MIN);
    if v.nat_type is Some {
        lemma_nat_type_code_round_trip(v.nat_type->0);
    }
    if v.family is Some {
        crate::lemma_protocol_family_code_round_trip(v.family->0);
    }
    if v.ip_register is Some {
        lemma_register_code_round_trip(v.ip_register->0);
    }
    if v.port_register is Some {
        lemma_register_code_round_trip(v.port_register->0);
    }
}

impl crate::nlmsg::AttributeDecoder for Nat {
    open spec fn spec_attr_kind(ty: u16) -> AttrKind {
        if ty == NFTA_NAT_TYPE {
            AttrKind::U32
        } else if ty == NFTA_NAT_FAMILY {
            AttrKind::ProtoFamily
        } else if ty == NFTA_NAT_REG_ADDR_MIN {
            AttrKind::U32
        } else if ty == NFTA_NAT_REG_PROTO_MIN {
            AttrKind::U32
        } else {
            AttrKind::Unknown
        }
    }

    fn decode_attribute(ty: NetlinkType, buf: &[u8]) -> (r: Result<Attribute, DecodeError>) {
        let kind = if ty == NFTA_NAT_TYPE {
            AttrKind::U32
        } else if ty == NFTA_NAT_FAMILY {
            AttrKind::ProtoFamily
        } else if ty == NFTA_NAT_REG_ADDR_MIN {
            AttrKind::U32
        } else if ty == NFTA_NAT_REG_PROTO_MIN {
            AttrKind::U32
        } else {
            AttrKind::Unknown
        };
        decode_typed_attribute(kind, ty, buf)
    }
}

impl Expression for Nat {
    open spec fn spec_name() -> Seq<char> {
        "nat"@
    }

    fn get_name() -> (r: &'static str) {
        proof {
            reveal_strlit("nat");
            assert(vstd::string::is_ascii("nat"));
            vstd::string::is_ascii_spec_bytes("nat");
        }
        "nat"
    }
}

} // verus!
