//! Loads routing information, such as the path-MTU-derived TCP MSS,
//! into a register.

use vstd::prelude::*;

use crate::attribute::{AttrKind, AttrValue, Attribute, NfNetlinkAttributes, decode_typed_attribute, spec_lookup};
use crate::attribute::{lemma_fixed_attr_wf, lemma_insert_append};
use crate::error::DecodeError;
use crate::parser::NetlinkType;
use crate::expr::{Expression, Register, append_opt_u32, lemma_lookup_opt_head, lemma_register_code_round_trip, opt_pair, opt_reg, opt_u32};

verus! {

pub const NFTA_RT_DREG: u16 = 1;

pub const NFTA_RT_KEY: u16 = 2;

/// Kind of routing information.
#[derive(Debug, Clone, Copy, PartialEq, Eq, Structural)]
pub enum RtKey {
    ClassID,
    NextHop4,
    NextHop6,
    TCPMSS,
}

impl RtKey {
    pub open spec fn spec_code(self) -> u32 {
        match self {
            RtKey::ClassID => 0,
            RtKey::NextHop4 => 1,
            RtKey::NextHop6 => 2,
            RtKey::TCPMSS => 3,
        }
    }

    pub fn code(self) -> (r: u32)
        ensures
            r == self.spec_code(),
    {
        match self {
            RtKey::ClassID => 0,
            RtKey::NextHop4 => 1,
            RtKey::NextHop6 => 2,
            RtKey::TCPMSS => 3,
        }
    }

    pub open spec fn spec_from_code(code: u32) -> Option<RtKey> {
        if code == 0 {
            Some(RtKey::ClassID)
        } else if code == 1 {
            Some(RtKey::NextHop4)
        } else if code == 2 {
            Some(RtKey::NextHop6)
        } else if code == 3 {
            Some(RtKey::TCPMSS)
        } else {
            None
        }
    }

    pub fn from_code(code: u32) -> (r: Option<RtKey>)
        ensures
            r == Self::spec_from_code(code),
    {
        if code == 0 {
            Some(RtKey::ClassID)
        } else if code == 1 {
            Some(RtKey::NextHop4)
        } else if code == 2 {
            Some(RtKey::NextHop6)
        } else if code == 3 {
            Some(RtKey::TCPMSS)
        } else {
            None
        }
    }
}

/// Every `RtKey` round-trips through its wire code.
pub proof fn lemma_rt_key_code_round_trip(x: RtKey)
    ensures
        RtKey::spec_from_code(x.spec_code()) == Some(x),
{
}

pub open spec fn spec_opt_rt_key(o: Option<RtKey>) -> Option<AttrValue> {
    match o {
        None => None,
        Some(x) => Some(AttrValue::U32(x.spec_code())),
    }
}

/// Loads a routing key into a register.
#[derive(Debug, Clone)]
pub struct Rt {
    dreg: Option<Register>,
    key: Option<RtKey>,
}

/// Mathematical image of [`Rt`].
pub struct RtView {
    pub dreg: Option<Register>,
    pub key: Option<RtKey>,
}

impl View for Rt {
    type V = RtView;

    closed spec fn view(&self) -> RtView {
        RtView {
            dreg: self.dreg,
            key: self.key,
        }
    }
}

impl RtView {
    /// The attribute pairs of the present fields, in ascending tag order.
    pub open spec fn spec_pairs(self) -> Seq<(u16, AttrValue)> {
        opt_pair(NFTA_RT_DREG, opt_reg(self.dreg)) + (opt_pair(NFTA_RT_KEY, spec_opt_rt_key(self.key)))
    }

    /// Every present field fits one attribute.
    pub open spec fn wf(self) -> bool {
        true
    }
}

/// The expression a pair sequence decodes to: every recognized tag must
/// carry its field's kind and a mappable code.
pub open spec fn spec_rt_from_pairs(s: Seq<(u16, AttrValue)>) -> Result<RtView, DecodeError> {
    let dreg = spec_lookup(s, NFTA_RT_DREG);
    let key = spec_lookup(s, NFTA_RT_KEY);
    if !(match dreg {
        None => true,
        Some(AttrValue::U32(x)) => Register::spec_from_code(x) is Some,
        Some(_) => false,
    } && match key {
        None => true,
        Some(AttrValue::U32(x)) => RtKey::spec_from_code(x) is Some,
        Some(_) => false,
    }) {
        Err(DecodeError::InvalidAttributeType)
    } else {
        Ok(
            RtView {
                dreg: match dreg {
                    Some(AttrValue::U32(x)) => Register::spec_from_code(x),
                    _ => None,
                },
                key: match key {
                    Some(AttrValue::U32(x)) => RtKey::spec_from_code(x),
                    _ => None,
                },
            },
        )
    }
}

impl Rt {
    /// An expression with no fields set.
    pub fn empty() -> (r: Self)
        ensures
            r@.dreg == None::<Register>,
            r@.key == None::<RtKey>,
    {
        Rt { dreg: None, key: None }
    }

    pub fn get_dreg(&self) -> (r: Option<&Register>)
        ensures
            match r {
                Some(x) => self@.dreg == Some(*x),
                None => self@.dreg is None,
            },
    {
        self.dreg.as_ref()
    }

    pub fn set_dreg(&mut self, dreg: Register)
        ensures
            final(self)@ == (RtView { dreg: Some(dreg), ..old(self)@ }),
    {
        self.dreg = Some(dreg);
    }

    pub fn with_dreg(self, dreg: Register) -> (r: Self)
        ensures
            r@ == (RtView { dreg: Some(dreg), ..self@ }),
    {
        Rt { dreg: Some(dreg), ..self }
    }

    pub fn get_key(&self) -> (r: Option<&RtKey>)
        ensures
            match r {
                Some(x) => self@.key == Some(*x),
                None => self@.key is None,
            },
    {
        self.key.as_ref()
    }

    pub fn set_key(&mut self, key: RtKey)
        ensures
            final(self)@ == (RtView { key: Some(key), ..old(self)@ }),
    {
        self.key = Some(key);
    }

    pub fn with_key(self, key: RtKey) -> (r: Self)
        ensures
            r@ == (RtView { key: Some(key), ..self@ }),
    {
        Rt { key: Some(key), ..self }
    }

    /// The expression as an attribute set.
    pub fn to_attrs(&self) -> (r: NfNetlinkAttributes)
        requires
            self@.wf(),
        ensures
            r.wf(),
            r.pairs() == self@.spec_pairs(),
    {
        let mut attrs = NfNetlinkAttributes::new();
        let code_dreg: Option<u32> = match &self.dreg {
            Some(x) => Some(x.code()),
            None => None,
        };
        append_opt_u32(&mut attrs, NFTA_RT_DREG, code_dreg);
        proof {
            assert(opt_u32(code_dreg) == opt_reg(self@.dreg));
        }
        let code_key: Option<u32> = match &self.key {
            Some(x) => Some(x.code()),
            None => None,
        };
        append_opt_u32(&mut attrs, NFTA_RT_KEY, code_key);
        proof {
            assert(opt_u32(code_key) == spec_opt_rt_key(self@.key));
        }
        proof {
            assert(attrs.pairs() =~= self@.spec_pairs());
        }
        attrs
    }

    /// The expression a decoded attribute set stands for.
    pub fn from_attrs(attrs: &NfNetlinkAttributes) -> (r: Result<Self, DecodeError>)
        ensures
            match r {
                Ok(e) => spec_rt_from_pairs(attrs.pairs()) == Ok::<RtView, DecodeError>(e@),
                Err(e) => spec_rt_from_pairs(attrs.pairs()) == Err::<RtView, DecodeError>(e),
            },
    {
        let dreg = match attrs.get_attr(NFTA_RT_DREG) {
            None => None,
            Some(Attribute::U32(x)) => match Register::from_code(*x) {
                Some(v) => Some(v),
                None => {
                    return Err(DecodeError::InvalidAttributeType);
                },
            },
            Some(_) => {
                return Err(DecodeError::InvalidAttributeType);
            },
        };
        let key = match attrs.get_attr(NFTA_RT_KEY) {
            None => None,
            Some(Attribute::U32(x)) => match RtKey::from_code(*x) {
                Some(v) => Some(v),
                None => {
                    return Err(DecodeError::InvalidAttributeType);
                },
            },
            Some(_) => {
                return Err(DecodeError::InvalidAttributeType);
            },
        };
        Ok(Rt { dreg, key })
    }
}

/// Law: the expression decodes back from its own attribute pairs.
pub proof fn lemma_rt_round_trip(v: RtView)
    ensures
        spec_rt_from_pairs(v.spec_pairs()) == Ok::<RtView, DecodeError>(v),
{
    let s = v.spec_pairs();
    let empty = Seq::<(u16, AttrValue)>::empty();
    let tail1 = opt_pair(NFTA_RT_KEY, spec_opt_rt_key(v.key));
    assert(opt_pair(NFTA_RT_KEY, spec_opt_rt_key(v.key)) + empty =~= tail1);
    assert(spec_lookup(empty, NFTA_RT_DREG) == None::<AttrValue>);
    assert(spec_lookup(empty, NFTA_RT_KEY) == None::<AttrValue>);
    lemma_lookup_opt_head(NFTA_RT_DREG, opt_reg(v.dreg), tail1, NFTA_RT_DREG);
    lemma_lookup_opt_head(NFTA_RT_DREG, opt_reg(v.dreg), tail1, NFTA_RT_KEY);
    lemma_lookup_opt_head(NFTA_RT_KEY, spec_opt_rt_key(v.key), empty, NFTA_RT_DREG);
    lemma_lookup_opt_head(NFTA_RT_KEY, spec_opt_rt_key(v.key), empty, NFTA_RT_KEY);
    if v.dreg is Some {
        lemma_register_code_round_trip(v.dreg->0);
    }
    if v.key is Some {
        lemma_rt_key_code_round_trip(v.key->0);
    }
}

impl crate::nlmsg::AttributeDecoder for Rt {
    open spec fn spec_attr_kind(ty: u16) -> AttrKind {
        if ty == NFTA_RT_DREG {
            AttrKind::U32
        } else if ty == NFTA_RT_KEY {
            AttrKind::U32
        } else {
            AttrKind::Unknown
        }
    }

    fn decode_attribute(ty: NetlinkType, buf: &[u8]) -> (r: Result<Attribute, DecodeError>) {
        let kind = if ty == NFTA_RT_DREG {
            AttrKind::U32
        } else if ty == NFTA_RT_KEY {
            AttrKind::U32
        } else {
            AttrKind::Unknown
        };
        decode_typed_attribute(kind, ty, buf)
    }
}

impl Expression for Rt {
    open spec fn spec_name() -> Seq<char> {
        "rt"@
    }

    fn get_name() -> (r: &'static str) {
        proof {
            reveal_strlit("rt");
            assert(vstd::string::is_ascii("rt"));
            vstd::string::is_ascii_spec_bytes("rt");
        }
        "rt"
    }
}

} // verus!
