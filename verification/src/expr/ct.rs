//! Loads connection-tracking state into a register, for matching
//! established or related connections.

use vstd::prelude::*;

use crate::attribute::{AttrKind, AttrValue, Attribute, NfNetlinkAttributes, decode_typed_attribute, spec_lookup};
use crate::attribute::{lemma_fixed_attr_wf, lemma_insert_append};
use crate::error::DecodeError;
use crate::parser::NetlinkType;
use crate::expr::{Expression, Register, append_opt_u32, append_opt_u8, lemma_lookup_opt_head, lemma_register_code_round_trip, opt_pair, opt_reg, opt_u32, opt_u8};

verus! {

pub const NFTA_CT_DREG: u16 = 1;

pub const NFTA_CT_KEY: u16 = 2;

pub const NFTA_CT_DIRECTION: u16 = 3;

pub const NFTA_CT_SREG: u16 = 4;

/// What to read from the connection-tracking subsystem.
#[derive(Debug, Clone, Copy, PartialEq, Eq, Structural)]
pub enum ConntrackKey {
    State,
    Direction,
    Status,
    Mark,
    Secmark,
    Expiration,
    Helper,
    L3Protocol,
    Src,
    Dst,
    Protocol,
    ProtoSrc,
    ProtoDst,
}

impl ConntrackKey {
    pub open spec fn spec_code(self) -> u32 {
        match self {
            ConntrackKey::State => 0,
            ConntrackKey::Direction => 1,
            ConntrackKey::Status => 2,
            ConntrackKey::Mark => 3,
            ConntrackKey::Secmark => 4,
            ConntrackKey::Expiration => 5,
            ConntrackKey::Helper => 6,
            ConntrackKey::L3Protocol => 7,
            ConntrackKey::Src => 8,
            ConntrackKey::Dst => 9,
            ConntrackKey::Protocol => 10,
            ConntrackKey::ProtoSrc => 11,
            ConntrackKey::ProtoDst => 12,
        }
    }

    pub fn code(self) -> (r: u32)
        ensures
            r == self.spec_code(),
    {
        match self {
            ConntrackKey::State => 0,
            ConntrackKey::Direction => 1,
            ConntrackKey::Status => 2,
            ConntrackKey::Mark => 3,
            ConntrackKey::Secmark => 4,
            ConntrackKey::Expiration => 5,
            ConntrackKey::Helper => 6,
            ConntrackKey::L3Protocol => 7,
            ConntrackKey::Src => 8,
            ConntrackKey::Dst => 9,
            ConntrackKey::Protocol => 10,
            ConntrackKey::ProtoSrc => 11,
            ConntrackKey::ProtoDst => 12,
        }
    }

    pub open spec fn spec_from_code(code: u32) -> Option<ConntrackKey> {
        if code == 0 {
            Some(ConntrackKey::State)
        } else if code == 1 {
            Some(ConntrackKey::Direction)
        } else if code == 2 {
            Some(ConntrackKey::Status)
        } else if code == 3 {
            Some(ConntrackKey::Mark)
        } else if code == 4 {
            Some(ConntrackKey::Secmark)
        } else if code == 5 {
            Some(ConntrackKey::Expiration)
        } else if code == 6 {
            Some(ConntrackKey::Helper)
        } else if code == 7 {
            Some(ConntrackKey::L3Protocol)
        } else if code == 8 {
            Some(ConntrackKey::Src)
        } else if code == 9 {
            Some(ConntrackKey::Dst)
        } else if code == 10 {
            Some(ConntrackKey::Protocol)
        } else if code == 11 {
            Some(ConntrackKey::ProtoSrc)
        } else if code == 12 {
            Some(ConntrackKey::ProtoDst)
        } else {
            None
        }
    }

    pub fn from_code(code: u32) -> (r: Option<ConntrackKey>)
        ensures
            r == Self::spec_from_code(code),
    {
        if code == 0 {
            Some(ConntrackKey::State)
        } else if code == 1 {
            Some(ConntrackKey::Direction)
        } else if code == 2 {
            Some(ConntrackKey::Status)
        } else if code == 3 {
            Some(ConntrackKey::Mark)
        } else if code == 4 {
            Some(ConntrackKey::Secmark)
        } else if code == 5 {
            Some(ConntrackKey::Expiration)
        } else if code == 6 {
            Some(ConntrackKey::Helper)
        } else if code == 7 {
            Some(ConntrackKey::L3Protocol)
        } else if code == 8 {
            Some(ConntrackKey::Src)
        } else if code == 9 {
            Some(ConntrackKey::Dst)
        } else if code == 10 {
            Some(ConntrackKey::Protocol)
        } else if code == 11 {
            Some(ConntrackKey::ProtoSrc)
        } else if code == 12 {
            Some(ConntrackKey::ProtoDst)
        } else {
            None
        }
    }
}

/// Every `ConntrackKey` round-trips through its wire code.
pub proof fn lemma_conntrack_key_code_round_trip(x: ConntrackKey)
    ensures
        ConntrackKey::spec_from_code(x.spec_code()) == Some(x),
{
}

pub open spec fn spec_opt_conntrack_key(o: Option<ConntrackKey>) -> Option<AttrValue> {
    match o {
        None => None,
        Some(x) => Some(AttrValue::U32(x.spec_code())),
    }
}

/// Loads a connection-tracking key into a register.
#[derive(Debug, Clone)]
pub struct Conntrack {
    dreg: Option<Register>,
    key: Option<ConntrackKey>,
    direction: Option<u8>,
    sreg: Option<Register>,
}

/// Mathematical image of [`Conntrack`].
pub struct ConntrackView {
    pub dreg: Option<Register>,
    pub key: Option<ConntrackKey>,
    pub direction: Option<u8>,
    pub sreg: Option<Register>,
}

impl View for Conntrack {
    type V = ConntrackView;

    closed spec fn view(&self) -> ConntrackView {
        ConntrackView {
            dreg: self.dreg,
            key: self.key,
            direction: self.direction,
            sreg: self.sreg,
        }
    }
}

impl ConntrackView {
    /// The attribute pairs of the present fields, in ascending tag order.
    pub open spec fn spec_pairs(self) -> Seq<(u16, AttrValue)> {
        opt_pair(NFTA_CT_DREG, opt_reg(self.dreg)) + (opt_pair(NFTA_CT_KEY, spec_opt_conntrack_key(self.key)) + (opt_pair(NFTA_CT_DIRECTION, opt_u8(self.direction)) + (opt_pair(NFTA_CT_SREG, opt_reg(self.sreg)))))
    }

    /// Every present field fits one attribute.
    pub open spec fn wf(self) -> bool {
        true
    }
}

/// The expression a pair sequence decodes to: every recognized tag must
/// carry its field's kind and a mappable code.
pub open spec fn spec_conntrack_from_pairs(s: Seq<(u16, AttrValue)>) -> Result<ConntrackView, DecodeError> {
    let dreg = spec_lookup(s, NFTA_CT_DREG);
    let key = spec_lookup(s, NFTA_CT_KEY);
    let direction = spec_lookup(s, NFTA_CT_DIRECTION);
    let sreg = spec_lookup(s, NFTA_CT_SREG);
    if !(match dreg {
        None => true,
        Some(AttrValue::U32(x)) => Register::spec_from_code(x) is Some,
        Some(_) => false,
    } && match key {
        None => true,
        Some(AttrValue::U32(x)) => ConntrackKey::spec_from_code(x) is Some,
        Some(_) => false,
    } && match direction {
        None => true,
        Some(AttrValue::U8(_)) => true,
        Some(_) => false,
    } && match sreg {
        None => true,
        Some(AttrValue::U32(x)) => Register::spec_from_code(x) is Some,
        Some(_) => false,
    }) {
        Err(DecodeError::InvalidAttributeType)
    } else {
        Ok(
            ConntrackView {
                dreg: match dreg {
                    Some(AttrValue::U32(x)) => Register::spec_from_code(x),
                    _ => None,
                },
                key: match key {
                    Some(AttrValue::U32(x)) => ConntrackKey::spec_from_code(x),
                    _ => None,
                },
                direction: match direction {
                    Some(AttrValue::U8(x)) => Some(x),
                    _ => None,
                },
                sreg: match sreg {
                    Some(AttrValue::U32(x)) => Register::spec_from_code(x),
                    _ => None,
                },
            },
        )
    }
}

impl Conntrack {
    /// An expression with no fields set.
    pub fn empty() -> (r: Self)
        ensures
            r@.dreg == None::<Register>,
            r@.key == None::<ConntrackKey>,
            r@.direction == None::<u8>,
            r@.sreg == None::<Register>,
    {
        Conntrack { dreg: None, key: None, direction: None, sreg: None }
    }

    /// Loads `key` into register one.
    pub fn new(key: ConntrackKey) -> (r: Self)
        ensures
            r@ == (ConntrackView {
                dreg: Some(Register::Reg1),
                key: Some(key),
                direction: None,
                sreg: None,
            }),
    {
        Conntrack { dreg: Some(Register::Reg1), key: Some(key), direction: None, sreg: None }
    }

    pub fn get_dreg(&self) -> (r: Option<&Register>)
        ensures
            match r {
                Some(x) => self@.dreg == Some(*x),
                None => self@.dreg is None,
            },
    {
        self.dreg.as_ref()
    }

    pub fn set_dreg(&mut self, dreg: Register)
        ensures
            final(self)@ == (ConntrackView { dreg: Some(dreg), ..old(self)@ }),
    {
        self.dreg = Some(dreg);
    }

    pub fn with_dreg(self, dreg: Register) -> (r: Self)
        ensures
            r@ == (ConntrackView { dreg: Some(dreg), ..self@ }),
    {
        Conntrack { dreg: Some(dreg), ..self }
    }

    pub fn get_key(&self) -> (r: Option<&ConntrackKey>)
        ensures
            match r {
                Some(x) => self@.key == Some(*x),
                None => self@.key is None,
            },
    {
        self.key.as_ref()
    }

    pub fn set_key(&mut self, key: ConntrackKey)
        ensures
            final(self)@ == (ConntrackView { key: Some(key), ..old(self)@ }),
    {
        self.key = Some(key);
    }

    pub fn with_key(self, key: ConntrackKey) -> (r: Self)
        ensures
            r@ == (ConntrackView { key: Some(key), ..self@ }),
    {
        Conntrack { key: Some(key), ..self }
    }

    pub fn get_direction(&self) -> (r: Option<&u8>)
        ensures
            match r {
                Some(x) => self@.direction == Some(*x),
                None => self@.direction is None,
            },
    {
        self.direction.as_ref()
    }

    pub fn set_direction(&mut self, direction: u8)
        ensures
            final(self)@ == (ConntrackView { direction: Some(direction), ..old(self)@ }),
    {
        self.direction = Some(direction);
    }

    pub fn with_direction(self, direction: u8) -> (r: Self)
        ensures
            r@ == (ConntrackView { direction: Some(direction), ..self@ }),
    {
        Conntrack { direction: Some(direction), ..self }
    }

    pub fn get_sreg(&self) -> (r: Option<&Register>)
        ensures
            match r {
                Some(x) => self@.sreg == Some(*x),
                None => self@.sreg is None,
            },
    {
        self.sreg.as_ref()
    }

    pub fn set_sreg(&mut self, sreg: Register)
        ensures
            final(self)@ == (ConntrackView { sreg: Some(sreg), ..old(self)@ }),
    {
        self.sreg = Some(sreg);
    }

    pub fn with_sreg(self, sreg: Register) -> (r: Self)
        ensures
            r@ == (ConntrackView { sreg: Some(sreg), ..self@ }),
    {
        Conntrack { sreg: Some(sreg), ..self }
    }

    /// The expression as an attribute set.
    pub fn to_attrs(&self) -> (r: NfNetlinkAttributes)
        requires
            self@.wf(),
        ensures
            r.wf(),
            r.pairs() == self@.spec_pairs(),
    {
        let mut attrs = NfNetlinkAttributes::new();
        let code_dreg: Option<u32> = match &self.dreg {
            Some(x) => Some(x.code()),
            None => None,
        };
        append_opt_u32(&mut attrs, NFTA_CT_DREG, code_dreg);
        proof {
            assert(opt_u32(code_dreg) == opt_reg(self@.dreg));
        }
        let code_key: Option<u32> = match &self.key {
            Some(x) => Some(x.code()),
            None => None,
        };
        append_opt_u32(&mut attrs, NFTA_CT_KEY, code_key);
        proof {
            assert(opt_u32(code_key) == spec_opt_conntrack_key(self@.key));
        }
        append_opt_u8(&mut attrs, NFTA_CT_DIRECTION, self.direction);
        let code_sreg: Option<u32> = match &self.sreg {
            Some(x) => Some(x.code()),
            None => None,
        };
        append_opt_u32(&mut attrs, NFTA_CT_SREG, code_sreg);
        proof {
            assert(opt_u32(code_sreg) == opt_reg(self@.sreg));
        }
        proof {
            assert(attrs.pairs() =~= self@.spec_pairs());
        }
        attrs
    }

    /// The expression a decoded attribute set stands for.
    pub fn from_attrs(attrs: &NfNetlinkAttributes) -> (r: Result<Self, DecodeError>)
        ensures
            match r {
                Ok(e) => spec_conntrack_from_pairs(attrs.pairs()) == Ok::<ConntrackView, DecodeError>(e@),
                Err(e) => spec_conntrack_from_pairs(attrs.pairs()) == Err::<ConntrackView, DecodeError>(e),
            },
    {
        let dreg = match attrs.get_attr(NFTA_CT_DREG) {
            None => None,
            Some(Attribute::U32(x)) => match Register::from_code(*x) {
                Some(v) => Some(v),
                None => {
                    return Err(DecodeError::InvalidAttributeType);
                },
            },
            Some(_) => {
                return Err(DecodeError::InvalidAttributeType);
            },
        };
        let key = match attrs.get_attr(NFTA_CT_KEY) {
            None => None,
            Some(Attribute::U32(x)) => match ConntrackKey::from_code(*x) {
                Some(v) => Some(v),
                None => {
                    return Err(DecodeError::InvalidAttributeType);
                },
            },
            Some(_) => {
                return Err(DecodeError::InvalidAttributeType);
            },
        };
        let direction = match attrs.get_attr(NFTA_CT_DIRECTION) {
            None => None,
            Some(Attribute::U8(x)) => Some(*x),
            Some(_) => {
                return Err(DecodeError::InvalidAttributeType);
            },
        };
        let sreg = match attrs.get_attr(NFTA_CT_SREG) {
            None => None,
            Some(Attribute::U32(x)) => match Register::from_code(*x) {
                Some(v) => Some(v),
                None => {
                    return Err(DecodeError::InvalidAttributeType);
                },
            },
            Some(_) => {
                return Err(DecodeError::InvalidAttributeType);
            },
        };
        Ok(Conntrack { dreg, key, direction, sreg })
    }
}

/// Law: the expression decodes back from its own attribute pairs.
pub proof fn lemma_conntrack_round_trip(v: ConntrackView)
    ensures
        spec_conntrack_from_pairs(v.spec_pairs()) == Ok::<ConntrackView, DecodeError>(v),
{
    let s = v.spec_pairs();
    let empty = Seq::<(u16, AttrValue)>::empty();
    let tail3 = opt_pair(NFTA_CT_SREG, opt_reg(v.sreg));
    let tail2 = opt_pair(NFTA_CT_DIRECTION, opt_u8(v.direction)) + tail3;
    let tail1 = opt_pair(NFTA_CT_KEY, spec_opt_conntrack_key(v.key)) + tail2;
    assert(opt_pair(NFTA_CT_SREG, opt_reg(v.sreg)) + empty =~= tail3);
    assert(spec_lookup(empty, NFTA_CT_DREG) == None::<AttrValue>);
    assert(spec_lookup(empty, NFTA_CT_KEY) == None::<AttrValue>);
    assert(spec_lookup(empty, NFTA_CT_DIRECTION) == None::<AttrValue>);
    assert(spec_lookup(empty, NFTA_CT_SREG) == None::<AttrValue>);
    lemma_lookup_opt_head(NFTA_CT_DREG, opt_reg(v.dreg), tail1, NFTA_CT_DREG);
    lemma_lookup_opt_head(NFTA_CT_DREG, opt_reg(v.dreg), tail1, NFTA_CT_KEY);
    lemma_lookup_opt_head(NFTA_CT_DREG, opt_reg(v.dreg), tail1, NFTA_CT_DIRECTION);
    lemma_lookup_opt_head(NFTA_CT_DREG, opt_reg(v.dreg), tail1, NFTA_CT_SREG);
    lemma_lookup_opt_head(NFTA_CT_KEY, spec_opt_conntrack_key(v.key), tail2, NFTA_CT_DREG);
    lemma_lookup_opt_head(NFTA_CT_KEY, spec_opt_conntrack_key(v.key), tail2, NFTA_CT_KEY);
    lemma_lookup_opt_head(NFTA_CT_KEY, spec_opt_conntrack_key(v.key), tail2, NFTA_CT_DIRECTION);
    lemma_lookup_opt_head(NFTA_CT_KEY, spec_opt_conntrack_key(v.key), tail2, NFTA_CT_SREG);
    lemma_lookup_opt_head(NFTA_CT_DIRECTION, opt_u8(v.direction), tail3, NFTA_CT_DREG);
    lemma_lookup_opt_head(NFTA_CT_DIRECTION, opt_u8(v.direction), tail3, NFTA_CT_KEY);
    lemma_lookup_opt_head(NFTA_CT_DIRECTION, opt_u8(v.direction), tail3, NFTA_CT_DIRECTION);
    lemma_lookup_opt_head(NFTA_CT_DIRECTION, opt_u8(v.direction), tail3, NFTA_CT_SREG);
    lemma_lookup_opt_head(NFTA_CT_SREG, opt_reg(v.sreg), empty, NFTA_CT_DREG);
    lemma_lookup_opt_head(NFTA_CT_SREG, opt_reg(v.sreg), empty, NFTA_CT_KEY);
    lemma_lookup_opt_head(NFTA_CT_SREG, opt_reg(v.sreg), empty, NFTA_CT_DIRECTION);
    lemma_lookup_opt_head(NFTA_CT_SREG, opt_reg(v.sreg), empty, NFTA_CT_SREG);
    if v.dreg is Some {
        lemma_register_code_round_trip(v.dreg->0);
    }
    if v.key is Some {
        lemma_conntrack_key_code_round_trip(v.key->0);
    }
    if v.sreg is Some {
        lemma_register_code_round_trip(v.sreg->0);
    }
}

impl crate::nlmsg::AttributeDecoder for Conntrack {
    open spec fn spec_attr_kind(ty: u16) -> AttrKind {
        if ty == NFTA_CT_DREG {
            AttrKind::U32
        } else if ty == NFTA_CT_KEY {
            AttrKind::U32
        } else if ty == NFTA_CT_DIRECTION {
            AttrKind::U8
        } else if ty == NFTA_CT_SREG {
            AttrKind::U32
        } else {
            AttrKind::Unknown
        }
    }

    fn decode_attribute(ty: NetlinkType, buf: &[u8]) -> (r: Result<Attribute, DecodeError>) {
        let kind = if ty == NFTA_CT_DREG {
            AttrKind::U32
        } else if ty == NFTA_CT_KEY {
            AttrKind::U32
        } else if ty == NFTA_CT_DIRECTION {
            AttrKind::U8
        } else if ty == NFTA_CT_SREG {
            AttrKind::U32
        } else {
            AttrKind::Unknown
        };
        decode_typed_attribute(kind, ty, buf)
    }
}

impl Expression for Conntrack {
    open spec fn spec_name() -> Seq<char> {
        "ct"@
    }

    fn get_name() -> (r: &'static str) {
        proof {
            reveal_strlit("ct");
            assert(vstd::string::is_ascii("ct"));
            vstd::string::is_ascii_spec_bytes("ct");
        }
        "ct"
    }
}

/// Connection states, as the bits the kernel exposes them under.
#[derive(Debug, Clone, Copy, PartialEq, Eq, Structural)]
pub enum ConnTrackState {
    Invalid,
    Established,
    Related,
    New,
    Untracked,
}

impl ConnTrackState {
    pub open spec fn spec_bits(self) -> u32 {
        match self {
            ConnTrackState::Invalid => 1,
            ConnTrackState::Established => 2,
            ConnTrackState::Related => 4,
            ConnTrackState::New => 8,
            ConnTrackState::Untracked => 64,
        }
    }

    /// The state's bit in the conntrack state bitmask.
    pub fn bits(self) -> (r: u32)
        ensures
            r == self.spec_bits(),
    {
        match self {
            ConnTrackState::Invalid => 1,
            ConnTrackState::Established => 2,
            ConnTrackState::Related => 4,
            ConnTrackState::New => 8,
            ConnTrackState::Untracked => 64,
        }
    }
}

} // verus!
