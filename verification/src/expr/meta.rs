//! Loads packet metadata, such as an interface index or a layer-3 or
//! layer-4 protocol number, into a register.

use vstd::prelude::*;

use crate::attribute::{AttrKind, AttrValue, Attribute, NfNetlinkAttributes, decode_typed_attribute, spec_lookup};
use crate::attribute::{lemma_fixed_attr_wf, lemma_insert_append};
use crate::error::DecodeError;
use crate::parser::NetlinkType;
use crate::expr::{Expression, Register, append_opt_u32, lemma_lookup_opt_head, lemma_register_code_round_trip, opt_pair, opt_reg, opt_u32};

verus! {

pub const NFTA_META_DREG: u16 = 1;

pub const NFTA_META_KEY: u16 = 2;

pub const NFTA_META_SREG: u16 = 3;

/// The metadata to load.
#[derive(Debug, Clone, Copy, PartialEq, Eq, Structural)]
pub enum MetaType {
    Protocol,
    Mark,
    Iif,
    Oif,
    IifName,
    OifName,
    NfProto,
    L4Proto,
    PktType,
    Cpu,
}

impl MetaType {
    pub open spec fn spec_code(self) -> u32 {
        match self {
            MetaType::Protocol => 1,
            MetaType::Mark => 3,
            MetaType::Iif => 4,
            MetaType::Oif => 5,
            MetaType::IifName => 6,
            MetaType::OifName => 7,
            MetaType::NfProto => 15,
            MetaType::L4Proto => 16,
            MetaType::PktType => 19,
            MetaType::Cpu => 20,
        }
    }

    pub fn code(self) -> (r: u32)
        ensures
            r == self.spec_code(),
    {
        match self {
            MetaType::Protocol => 1,
            MetaType::Mark => 3,
            MetaType::Iif => 4,
            MetaType::Oif => 5,
            MetaType::IifName => 6,
            MetaType::OifName => 7,
            MetaType::NfProto => 15,
            MetaType::L4Proto => 16,
            MetaType::PktType => 19,
            MetaType::Cpu => 20,
        }
    }

    pub open spec fn spec_from_code(code: u32) -> Option<MetaType> {
        if code == 1 {
            Some(MetaType::Protocol)
        } else if code == 3 {
            Some(MetaType::Mark)
        } else if code == 4 {
            Some(MetaType::Iif)
        } else if code == 5 {
            Some(MetaType::Oif)
        } else if code == 6 {
            Some(MetaType::IifName)
        } else if code == 7 {
            Some(MetaType::OifName)
        } else if code == 15 {
            Some(MetaType::NfProto)
        } else if code == 16 {
            Some(MetaType::L4Proto)
        } else if code == 19 {
            Some(MetaType::PktType)
        } else if code == 20 {
            Some(MetaType::Cpu)
        } else {
            None
        }
    }

    pub fn from_code(code: u32) -> (r: Option<MetaType>)
        ensures
            r == Self::spec_from_code(code),
    {
        if code == 1 {
            Some(MetaType::Protocol)
        } else if code == 3 {
            Some(MetaType::Mark)
        } else if code == 4 {
            Some(MetaType::Iif)
        } else if code == 5 {
            Some(MetaType::Oif)
        } else if code == 6 {
            Some(MetaType::IifName)
        } else if code == 7 {
            Some(MetaType::OifName)
        } else if code == 15 {
            Some(MetaType::NfProto)
        } else if code == 16 {
            Some(MetaType::L4Proto)
        } else if code == 19 {
            Some(MetaType::PktType)
        } else if code == 20 {
            Some(MetaType::Cpu)
        } else {
            None
        }
    }
}

/// Every `MetaType` round-trips through its wire code.
pub proof fn lemma_meta_type_code_round_trip(x: MetaType)
    ensures
        MetaType::spec_from_code(x.spec_code()) == Some(x),
{
}

pub open spec fn spec_opt_meta_type(o: Option<MetaType>) -> Option<AttrValue> {
    match o {
        None => None,
        Some(x) => Some(AttrValue::U32(x.spec_code())),
    }
}

/// Loads a metadata key into a register.
#[derive(Debug, Clone)]
pub struct Meta {
    dreg: Option<Register>,
    key: Option<MetaType>,
    sreg: Option<Register>,
}

/// Mathematical image of [`Meta`].
pub struct MetaView {
    pub dreg: Option<Register>,
    pub key: Option<MetaType>,
    pub sreg: Option<Register>,
}

impl View for Meta {
    type V = MetaView;

    closed spec fn view(&self) -> MetaView {
        MetaView {
            dreg: self.dreg,
            key: self.key,
            sreg: self.sreg,
        }
    }
}

impl MetaView {
    /// The attribute pairs of the present fields, in ascending tag order.
    pub open spec fn spec_pairs(self) -> Seq<(u16, AttrValue)> {
        opt_pair(NFTA_META_DREG, opt_reg(self.dreg)) + (opt_pair(NFTA_META_KEY, spec_opt_meta_type(self.key)) + (opt_pair(NFTA_META_SREG, opt_reg(self.sreg))))
    }

    /// Every present field fits one attribute.
    pub open spec fn wf(self) -> bool {
        true
    }
}

/// The expression a pair sequence decodes to: every recognized tag must
/// carry its field's kind and a mappable code.
pub open spec fn spec_meta_from_pairs(s: Seq<(u16, AttrValue)>) -> Result<MetaView, DecodeError> {
    let dreg = spec_lookup(s, NFTA_META_DREG);
    let key = spec_lookup(s, NFTA_META_KEY);
    let sreg = spec_lookup(s, NFTA_META_SREG);
    if !(match dreg {
        None => true,
        Some(AttrValue::U32(x)) => Register::spec_from_code(x) is Some,
        Some(_) => false,
    } && match key {
        None => true,
        Some(AttrValue::U32(x)) => MetaType::spec_from_code(x) is Some,
        Some(_) => false,
    } && match sreg {
        None => true,
        Some(AttrValue::U32(x)) => Register::spec_from_code(x) is Some,
        Some(_) => false,
    }) {
        Err(DecodeError::InvalidAttributeType)
    } else {
        Ok(
            MetaView {
                dreg: match dreg {
                    Some(AttrValue::U32(x)) => Register::spec_from_code(x),
                    _ => None,
                },
                key: match key {
                    Some(AttrValue::U32(x)) => MetaType::spec_from_code(x),
                    _ => None,
                },
                sreg: match sreg {
                    Some(AttrValue::U32(x)) => Register::spec_from_code(x),
                    _ => None,
                },
            },
        )
    }
}

impl Meta {
    /// An expression with no fields set.
    pub fn empty() -> (r: Self)
        ensures
            r@.dreg == None::<Register>,
            r@.key == None::<MetaType>,
            r@.sreg == None::<Register>,
    {
        Meta { dreg: None, key: None, sreg: None }
    }

    /// Loads `key` into register one.
    pub fn new(key: MetaType) -> (r: Self)
        ensures
            r@ == (MetaView { dreg: Some(Register::Reg1), key: Some(key), sreg: None }),
    {
        Meta { dreg: Some(Register::Reg1), key: Some(key), sreg: None }
    }

    pub fn get_dreg(&self) -> (r: Option<&Register>)
        ensures
            match r {
                Some(x) => self@.dreg == Some(*x),
                None => self@.dreg is None,
            },
    {
        self.dreg.as_ref()
    }

    pub fn set_dreg(&mut self, dreg: Register)
        ensures
            final(self)@ == (MetaView { dreg: Some(dreg), ..old(self)@ }),
    {
        self.dreg = Some(dreg);
    }

    pub fn with_dreg(self, dreg: Register) -> (r: Self)
        ensures
            r@ == (MetaView { dreg: Some(dreg), ..self@ }),
    {
        Meta { dreg: Some(dreg), ..self }
    }

    pub fn get_key(&self) -> (r: Option<&MetaType>)
        ensures
            match r {
                Some(x) => self@.key == Some(*x),
                None => self@.key is None,
            },
    {
        self.key.as_ref()
    }

    pub fn set_key(&mut self, key: MetaType)
        ensures
            final(self)@ == (MetaView { key: Some(key), ..old(self)@ }),
    {
        self.key = Some(key);
    }

    pub fn with_key(self, key: MetaType) -> (r: Self)
        ensures
            r@ == (MetaView { key: Some(key), ..self@ }),
    {
        Meta { key: Some(key), ..self }
    }

    pub fn get_sreg(&self) -> (r: Option<&Register>)
        ensures
            match r {
                Some(x) => self@.sreg == Some(*x),
                None => self@.sreg is None,
            },
    {
        self.sreg.as_ref()
    }

    pub fn set_sreg(&mut self, sreg: Register)
        ensures
            final(self)@ == (MetaView { sreg: Some(sreg), ..old(self)@ }),
    {
        self.sreg = Some(sreg);
    }

    pub fn with_sreg(self, sreg: Register) -> (r: Self)
        ensures
            r@ == (MetaView { sreg: Some(sreg), ..self@ }),
    {
        Meta { sreg: Some(sreg), ..self }
    }

    /// The expression as an attribute set.
    pub fn to_attrs(&self) -> (r: NfNetlinkAttributes)
        requires
            self@.wf(),
        ensures
            r.wf(),
            r.pairs() == self@.spec_pairs(),
    {
        let mut attrs = NfNetlinkAttributes::new();
        let code_dreg: Option<u32> = match &self.dreg {
            Some(x) => Some(x.code()),
            None => None,
        };
        append_opt_u32(&mut attrs, NFTA_META_DREG, code_dreg);
        proof {
            assert(opt_u32(code_dreg) == opt_reg(self@.dreg));
        }
        let code_key: Option<u32> = match &self.key {
            Some(x) => Some(x.code()),
            None => None,
        };
        append_opt_u32(&mut attrs, NFTA_META_KEY, code_key);
        proof {
            assert(opt_u32(code_key) == spec_opt_meta_type(self@.key));
        }
        let code_sreg: Option<u32> = match &self.sreg {
            Some(x) => Some(x.code()),
            None => None,
        };
        append_opt_u32(&mut attrs, NFTA_META_SREG, code_sreg);
        proof {
            assert(opt_u32(code_sreg) == opt_reg(self@.sreg));
        }
        proof {
            assert(attrs.pairs() =~= self@.spec_pairs());
        }
        attrs
    }

    /// The expression a decoded attribute set stands for.
    pub fn from_attrs(attrs: &NfNetlinkAttributes) -> (r: Result<Self, DecodeError>)
        ensures
            match r {
                Ok(e) => spec_meta_from_pairs(attrs.pairs()) == Ok::<MetaView, DecodeError>(e@),
                Err(e) => spec_meta_from_pairs(attrs.pairs()) == Err::<MetaView, DecodeError>(e),
            },
    {
        let dreg = match attrs.get_attr(NFTA_META_DREG) {
            None => None,
            Some(Attribute::U32(x)) => match Register::from_code(*x) {
                Some(v) => Some(v),
                None => {
                    return Err(DecodeError::InvalidAttributeType);
                },
            },
            Some(_) => {
                return Err(DecodeError::InvalidAttributeType);
            },
        };
        let key = match attrs.get_attr(NFTA_META_KEY) {
            None => None,
            Some(Attribute::U32(x)) => match MetaType::from_code(*x) {
                Some(v) => Some(v),
                None => {
                    return Err(DecodeError::InvalidAttributeType);
                },
            },
            Some(_) => {
                return Err(DecodeError::InvalidAttributeType);
            },
        };
        let sreg = match attrs.get_attr(NFTA_META_SREG) {
            None => None,
            Some(Attribute::U32(x)) => match Register::from_code(*x) {
                Some(v) => Some(v),
                None => {
                    return Err(DecodeError::InvalidAttributeType);
                },
            },
            Some(_) => {
                return Err(DecodeError::InvalidAttributeType);
            },
        };
        Ok(Meta { dreg, key, sreg })
    }
}

/// Law: the expression decodes back from its own attribute pairs.
pub proof fn lemma_meta_round_trip(v: MetaView)
    ensures
        spec_meta_from_pairs(v.spec_pairs()) == Ok::<MetaView, DecodeError>(v),
{
    let s = v.spec_pairs();
    let empty = Seq::<(u16, AttrValue)>::empty();
    let tail2 = opt_pair(NFTA_META_SREG, opt_reg(v.sreg));
    let tail1 = opt_pair(NFTA_META_KEY, spec_opt_meta_type(v.key)) + tail2;
    assert(opt_pair(NFTA_META_SREG, opt_reg(v.sreg)) + empty =~= tail2);
    assert(spec_lookup(empty, NFTA_META_DREG) == None::<AttrValue>);
    assert(spec_lookup(empty, NFTA_META_KEY) == None::<AttrValue>);
    assert(spec_lookup(empty, NFTA_META_SREG) == None::<AttrValue>);
    lemma_lookup_opt_head(NFTA_META_DREG, opt_reg(v.dreg), tail1, NFTA_META_DREG);
    lemma_lookup_opt_head(NFTA_META_DREG, opt_reg(v.dreg), tail1, NFTA_META_KEY);
    lemma_lookup_opt_head(NFTA_META_DREG, opt_reg(v.dreg), tail1, NFTA_META_SREG);
    lemma_lookup_opt_head(NFTA_META_KEY, spec_opt_meta_type(v.key), tail2, NFTA_META_DREG);
    lemma_lookup_opt_head(NFTA_META_KEY, spec_opt_meta_type(v.key), tail2, NFTA_META_KEY);
    lemma_lookup_opt_head(NFTA_META_KEY, spec_opt_meta_type(v.key), tail2, NFTA_META_SREG);
    lemma_lookup_opt_head(NFTA_META_SREG, opt_reg(v.sreg), empty, NFTA_META_DREG);
    lemma_lookup_opt_head(NFTA_META_SREG, opt_reg(v.sreg), empty, NFTA_META_KEY);
    lemma_lookup_opt_head(NFTA_META_SREG, opt_reg(v.sreg), empty, NFTA_META_SREG);
    if v.dreg is Some {
        lemma_register_code_round_trip(v.dreg->0);
    }
    if v.key is Some {
        lemma_meta_type_code_round_trip(v.key->0);
    }
    if v.sreg is Some {
        lemma_register_code_round_trip(v.sreg->0);
    }
}

impl crate::nlmsg::AttributeDecoder for Meta {
    open spec fn spec_attr_kind(ty: u16) -> AttrKind {
        if ty == NFTA_META_DREG {
            AttrKind::U32
        } else if ty == NFTA_META_KEY {
            AttrKind::U32
        } else if ty == NFTA_META_SREG {
            AttrKind::U32
        } else {
            AttrKind::Unknown
        }
    }

    fn decode_attribute(ty: NetlinkType, buf: &[u8]) -> (r: Result<Attribute, DecodeError>) {
        let kind = if ty == NFTA_META_DREG {
            AttrKind::U32
        } else if ty == NFTA_META_KEY {
            AttrKind::U32
        } else if ty == NFTA_META_SREG {
            AttrKind::U32
        } else {
            AttrKind::Unknown
        };
        decode_typed_attribute(kind, ty, buf)
    }
}

impl Expression for Meta {
    open spec fn spec_name() -> Seq<char> {
        "meta"@
    }

    fn get_name() -> (r: &'static str) {
        proof {
            reveal_strlit("meta");
            assert(vstd::string::is_ascii("meta"));
            vstd::string::is_ascii_spec_bytes("meta");
        }
        "meta"
    }
}

} // verus!
