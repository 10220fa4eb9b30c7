//! Reads or writes extension-header options, such as TCP options.

use vstd::prelude::*;

use crate::attribute::{AttrKind, AttrValue, Attribute, NfNetlinkAttributes, decode_typed_attribute, spec_lookup};
use crate::attribute::{lemma_fixed_attr_wf, lemma_insert_append};
use crate::error::DecodeError;
use crate::parser::NetlinkType;
use crate::expr::{Expression, Register, append_opt_u32, append_opt_u8, lemma_lookup_opt_head, lemma_register_code_round_trip, opt_pair, opt_reg, opt_u32, opt_u8};

verus! {

pub const NFTA_EXTHDR_DREG: u16 = 1;

pub const NFTA_EXTHDR_TYPE: u16 = 2;

pub const NFTA_EXTHDR_OFFSET: u16 = 3;

pub const NFTA_EXTHDR_LEN: u16 = 4;

pub const NFTA_EXTHDR_FLAGS: u16 = 5;

pub const NFTA_EXTHDR_OP: u16 = 6;

pub const NFTA_EXTHDR_SREG: u16 = 7;

/// Header operation.
#[derive(Debug, Clone, Copy, PartialEq, Eq, Structural)]
pub enum ExtHdrOp {
    IPv6,
    TCPOpt,
}

impl ExtHdrOp {
    pub open spec fn spec_code(self) -> u32 {
        match self {
            ExtHdrOp::IPv6 => 0,
            ExtHdrOp::TCPOpt => 1,
        }
    }

    pub fn code(self) -> (r: u32)
        ensures
            r == self.spec_code(),
    {
        match self {
            ExtHdrOp::IPv6 => 0,
            ExtHdrOp::TCPOpt => 1,
        }
    }

    pub open spec fn spec_from_code(code: u32) -> Option<ExtHdrOp> {
        if code == 0 {
            Some(ExtHdrOp::IPv6)
        } else if code == 1 {
            Some(ExtHdrOp::TCPOpt)
        } else {
            None
        }
    }

    pub fn from_code(code: u32) -> (r: Option<ExtHdrOp>)
        ensures
            r == Self::spec_from_code(code),
    {
        if code == 0 {
            Some(ExtHdrOp::IPv6)
        } else if code == 1 {
            Some(ExtHdrOp::TCPOpt)
        } else {
            None
        }
    }
}

/// Every `ExtHdrOp` round-trips through its wire code.
pub proof fn lemma_ext_hdr_op_code_round_trip(x: ExtHdrOp)
    ensures
        ExtHdrOp::spec_from_code(x.spec_code()) == Some(x),
{
}

pub open spec fn spec_opt_ext_hdr_op(o: Option<ExtHdrOp>) -> Option<AttrValue> {
    match o {
        None => None,
        Some(x) => Some(AttrValue::U32(x.spec_code())),
    }
}

/// Interacts with transport-layer header options.
#[derive(Debug, Clone)]
pub struct ExtHdr {
    dreg: Option<Register>,
    typ: Option<u8>,
    offset: Option<u32>,
    len: Option<u32>,
    flags: Option<u32>,
    op: Option<ExtHdrOp>,
    sreg: Option<Register>,
}

/// Mathematical image of [`ExtHdr`].
pub struct ExtHdrView {
    pub dreg: Option<Register>,
    pub typ: Option<u8>,
    pub offset: Option<u32>,
    pub len: Option<u32>,
    pub flags: Option<u32>,
    pub op: Option<ExtHdrOp>,
    pub sreg: Option<Register>,
}

impl View for ExtHdr {
    type V = ExtHdrView;

    closed spec fn view(&self) -> ExtHdrView {
        ExtHdrView {
            dreg: self.dreg,
            typ: self.typ,
            offset: self.offset,
            len: self.len,
            flags: self.flags,
            op: self.op,
            sreg: self.sreg,
        }
    }
}

impl ExtHdrView {
    /// The attribute pairs of the present fields, in ascending tag order.
    pub open spec fn spec_pairs(self) -> Seq<(u16, AttrValue)> {
        opt_pair(NFTA_EXTHDR_DREG, opt_reg(self.dreg)) + (opt_pair(NFTA_EXTHDR_TYPE, opt_u8(self.typ)) + (opt_pair(NFTA_EXTHDR_OFFSET, opt_u32(self.offset)) + (opt_pair(NFTA_EXTHDR_LEN, opt_u32(self.len)) + (opt_pair(NFTA_EXTHDR_FLAGS, opt_u32(self.flags)) + (opt_pair(NFTA_EXTHDR_OP, spec_opt_ext_hdr_op(self.op)) + (opt_pair(NFTA_EXTHDR_SREG, opt_reg(self.sreg))))))))
    }

    /// Every present field fits one attribute.
    pub open spec fn wf(self) -> bool {
        true
    }
}

/// The expression a pair sequence decodes to: every recognized tag must
/// carry its field's kind and a mappable code.
pub open spec fn spec_ext_hdr_from_pairs(s: Seq<(u16, AttrValue)>) -> Result<ExtHdrView, DecodeError> {
    let dreg = spec_lookup(s, NFTA_EXTHDR_DREG);
    let typ = spec_lookup(s, NFTA_EXTHDR_TYPE);
    let offset = spec_lookup(s, NFTA_EXTHDR_OFFSET);
    let len = spec_lookup(s, NFTA_EXTHDR_LEN);
    let flags = spec_lookup(s, NFTA_EXTHDR_FLAGS);
    let op = spec_lookup(s, NFTA_EXTHDR_OP);
    let sreg = spec_lookup(s, NFTA_EXTHDR_SREG);
    if !(match dreg {
        None => true,
        Some(AttrValue::U32(x)) => Register::spec_from_code(x) is Some,
        Some(_) => false,
    } && match typ {
        None => true,
        Some(AttrValue::U8(_)) => true,
        Some(_) => false,
    } && match offset {
        None => true,
        Some(AttrValue::U32(_)) => true,
        Some(_) => false,
    } && match len {
        None => true,
        Some(AttrValue::U32(_)) => true,
        Some(_) => false,
    } && match flags {
        None => true,
        Some(AttrValue::U32(_)) => true,
        Some(_) => false,
    } && match op {
        None => true,
        Some(AttrValue::U32(x)) => ExtHdrOp::spec_from_code(x) is Some,
        Some(_) => false,
    } && match sreg {
        None => true,
        Some(AttrValue::U32(x)) => Register::spec_from_code(x) is Some,
        Some(_) => false,
    }) {
        Err(DecodeError::InvalidAttributeType)
    } else {
        Ok(
            ExtHdrView {
                dreg: match dreg {
                    Some(AttrValue::U32(x)) => Register::spec_from_code(x),
                    _ => None,
                },
                typ: match typ {
                    Some(AttrValue::U8(x)) => Some(x),
                    _ => None,
                },
                offset: match offset {
                    Some(AttrValue::U32(x)) => Some(x),
                    _ => None,
                },
                len: match len {
                    Some(AttrValue::U32(x)) => Some(x),
                    _ => None,
                },
                flags: match flags {
                    Some(AttrValue::U32(x)) => Some(x),
                    _ => None,
                },
                op: match op {
                    Some(AttrValue::U32(x)) => ExtHdrOp::spec_from_code(x),
                    _ => None,
                },
                sreg: match sreg {
                    Some(AttrValue::U32(x)) => Register::spec_from_code(x),
                    _ => None,
                },
            },
        )
    }
}

impl ExtHdr {
    /// An expression with no fields set.
    pub fn empty() -> (r: Self)
        ensures
            r@.dreg == None::<Register>,
            r@.typ == None::<u8>,
            r@.offset == None::<u32>,
            r@.len == None::<u32>,
            r@.flags == None::<u32>,
            r@.op == None::<ExtHdrOp>,
            r@.sreg == None::<Register>,
    {
        ExtHdr { dreg: None, typ: None, offset: None, len: None, flags: None, op: None, sreg: None }
    }

    pub fn get_dreg(&self) -> (r: Option<&Register>)
        ensures
            match r {
                Some(x) => self@.dreg == Some(*x),
                None => self@.dreg is None,
            },
    {
        self.dreg.as_ref()
    }

    pub fn set_dreg(&mut self, dreg: Register)
        ensures
            final(self)@ == (ExtHdrView { dreg: Some(dreg), ..old(self)@ }),
    {
        self.dreg = Some(dreg);
    }

    pub fn with_dreg(self, dreg: Register) -> (r: Self)
        ensures
            r@ == (ExtHdrView { dreg: Some(dreg), ..self@ }),
    {
        ExtHdr { dreg: Some(dreg), ..self }
    }

    pub fn get_typ(&self) -> (r: Option<&u8>)
        ensures
            match r {
                Some(x) => self@.typ == Some(*x),
                None => self@.typ is None,
            },
    {
        self.typ.as_ref()
    }

    pub fn set_typ(&mut self, typ: u8)
        ensures
            final(self)@ == (ExtHdrView { typ: Some(typ), ..old(self)@ }),
    {
        self.typ = Some(typ);
    }

    pub fn with_typ(self, typ: u8) -> (r: Self)
        ensures
            r@ == (ExtHdrView { typ: Some(typ), ..self@ }),
    {
        ExtHdr { typ: Some(typ), ..self }
    }

    pub fn get_offset(&self) -> (r: Option<&u32>)
        ensures
            match r {
                Some(x) => self@.offset == Some(*x),
                None => self@.offset is None,
            },
    {
        self.offset.as_ref()
    }

    pub fn set_offset(&mut self, offset: u32)
        ensures
            final(self)@ == (ExtHdrView { offset: Some(offset), ..old(self)@ }),
    {
        self.offset = Some(offset);
    }

    pub fn with_offset(self, offset: u32) -> (r: Self)
        ensures
            r@ == (ExtHdrView { offset: Some(offset), ..self@ }),
    {
        ExtHdr { offset: Some(offset), ..self }
    }

    pub fn get_len(&self) -> (r: Option<&u32>)
        ensures
            match r {
                Some(x) => self@.len == Some(*x),
                None => self@.len is None,
            },
    {
        self.len.as_ref()
    }

    pub fn set_len(&mut self, len: u32)
        ensures
            final(self)@ == (ExtHdrView { len: Some(len), ..old(self)@ }),
    {
        self.len = Some(len);
    }

    pub fn with_len(self, len: u32) -> (r: Self)
        ensures
            r@ == (ExtHdrView { len: Some(len), ..self@ }),
    {
        ExtHdr { len: Some(len), ..self }
    }

    pub fn get_flags(&self) -> (r: Option<&u32>)
        ensures
            match r {
                Some(x) => self@.flags == Some(*x),
                None => self@.flags is None,
            },
    {
        self.flags.as_ref()
    }

    pub fn set_flags(&mut self, flags: u32)
        ensures
            final(self)@ == (ExtHdrView { flags: Some(flags), ..old(self)@ }),
    {
        self.flags = Some(flags);
    }

    pub fn with_flags(self, flags: u32) -> (r: Self)
        ensures
            r@ == (ExtHdrView { flags: Some(flags), ..self@ }),
    {
        ExtHdr { flags: Some(flags), ..self }
    }

    pub fn get_op(&self) -> (r: Option<&ExtHdrOp>)
        ensures
            match r {
                Some(x) => self@.op == Some(*x),
                None => self@.op is None,
            },
    {
        self.op.as_ref()
    }

    pub fn set_op(&mut self, op: ExtHdrOp)
        ensures
            final(self)@ == (ExtHdrView { op: Some(op), ..old(self)@ }),
    {
        self.op = Some(op);
    }

    pub fn with_op(self, op: ExtHdrOp) -> (r: Self)
        ensures
            r@ == (ExtHdrView { op: Some(op), ..self@ }),
    {
        ExtHdr { op: Some(op), ..self }
    }

    pub fn get_sreg(&self) -> (r: Option<&Register>)
        ensures
            match r {
                Some(x) => self@.sreg == Some(*x),
                None => self@.sreg is None,
            },
    {
        self.sreg.as_ref()
    }

    pub fn set_sreg(&mut self, sreg: Register)
        ensures
            final(self)@ == (ExtHdrView { sreg: Some(sreg), ..old(self)@ }),
    {
        self.sreg = Some(sreg);
    }

    pub fn with_sreg(self, sreg: Register) -> (r: Self)
        ensures
            r@ == (ExtHdrView { sreg: Some(sreg), ..self@ }),
    {
        ExtHdr { sreg: Some(sreg), ..self }
    }

    /// The expression as an attribute set.
    pub fn to_attrs(&self) -> (r: NfNetlinkAttributes)
        requires
            self@.wf(),
        ensures
            r.wf(),
            r.pairs() == self@.spec_pairs(),
    {
        let mut attrs = NfNetlinkAttributes::new();
        let code_dreg: Option<u32> = match &self.dreg {
            Some(x) => Some(x.code()),
            None => None,
        };
        append_opt_u32(&mut attrs, NFTA_EXTHDR_DREG, code_dreg);
        proof {
            assert(opt_u32(code_dreg) == opt_reg(self@.dreg));
        }
        append_opt_u8(&mut attrs, NFTA_EXTHDR_TYPE, self.typ);
        append_opt_u32(&mut attrs, NFTA_EXTHDR_OFFSET, self.offset);
        append_opt_u32(&mut attrs, NFTA_EXTHDR_LEN, self.len);
        append_opt_u32(&mut attrs, NFTA_EXTHDR_FLAGS, self.flags);
        let code_op: Option<u32> = match &self.op {
            Some(x) => Some(x.code()),
            None => None,
        };
        append_opt_u32(&mut attrs, NFTA_EXTHDR_OP, code_op);
        proof {
            assert(opt_u32(code_op) == spec_opt_ext_hdr_op(self@.op));
        }
        let code_sreg: Option<u32> = match &self.sreg {
            Some(x) => Some(x.code()),
            None => None,
        };
        append_opt_u32(&mut attrs, NFTA_EXTHDR_SREG, code_sreg);
        proof {
            assert(opt_u32(code_sreg) == opt_reg(self@.sreg));
        }
        proof {
            lemma_concat_assoc7(
                opt_pair(NFTA_EXTHDR_DREG, opt_reg(self@.dreg)),
                opt_pair(NFTA_EXTHDR_TYPE, opt_u8(self@.typ)),
                opt_pair(NFTA_EXTHDR_OFFSET, opt_u32(self@.offset)),
                opt_pair(NFTA_EXTHDR_LEN, opt_u32(self@.len)),
                opt_pair(NFTA_EXTHDR_FLAGS, opt_u32(self@.flags)),
                opt_pair(NFTA_EXTHDR_OP, spec_opt_ext_hdr_op(self@.op)),
                opt_pair(NFTA_EXTHDR_SREG, opt_reg(self@.sreg)),
            );
        }
        attrs
    }

    /// The expression a decoded attribute set stands for.
    pub fn from_attrs(attrs: &NfNetlinkAttributes) -> (r: Result<Self, DecodeError>)
        ensures
            match r {
                Ok(e) => spec_ext_hdr_from_pairs(attrs.pairs()) == Ok::<ExtHdrView, DecodeError>(e@),
                Err(e) => spec_ext_hdr_from_pairs(attrs.pairs()) == Err::<ExtHdrView, DecodeError>(e),
            },
    {
        let dreg = match attrs.get_attr(NFTA_EXTHDR_DREG) {
            None => None,
            Some(Attribute::U32(x)) => match Register::from_code(*x) {
                Some(v) => Some(v),
                None => {
                    return Err(DecodeError::InvalidAttributeType);
                },
            },
            Some(_) => {
                return Err(DecodeError::InvalidAttributeType);
            },
        };
        let typ = match attrs.get_attr(NFTA_EXTHDR_TYPE) {
            None => None,
            Some(Attribute::U8(x)) => Some(*x),
            Some(_) => {
                return Err(DecodeError::InvalidAttributeType);
            },
        };
        let offset = match attrs.get_attr(NFTA_EXTHDR_OFFSET) {
            None => None,
            Some(Attribute::U32(x)) => Some(*x),
            Some(_) => {
                return Err(DecodeError::InvalidAttributeType);
            },
        };
        let len = match attrs.get_attr(NFTA_EXTHDR_LEN) {
            None => None,
            Some(Attribute::U32(x)) => Some(*x),
            Some(_) => {
                return Err(DecodeError::InvalidAttributeType);
            },
        };
        let flags = match attrs.get_attr(NFTA_EXTHDR_FLAGS) {
            None => None,
            Some(Attribute::U32(x)) => Some(*x),
            Some(_) => {
                return Err(DecodeError::InvalidAttributeType);
            },
        };
        let op = match attrs.get_attr(NFTA_EXTHDR_OP) {
            None => None,
            Some(Attribute::U32(x)) => match ExtHdrOp::from_code(*x) {
                Some(v) => Some(v),
                None => {
                    return Err(DecodeError::InvalidAttributeType);
                },
            },
            Some(_) => {
                return Err(DecodeError::InvalidAttributeType);
            },
        };
        let sreg = match attrs.get_attr(NFTA_EXTHDR_SREG) {
            None => None,
            Some(Attribute::U32(x)) => match Register::from_code(*x) {
                Some(v) => Some(v),
                None => {
                    return Err(DecodeError::InvalidAttributeType);
                },
            },
            Some(_) => {
                return Err(DecodeError::InvalidAttributeType);
            },
        };
        Ok(ExtHdr { dreg, typ, offset, len, flags, op, sreg })
    }
}

/// Law: the expression decodes back from its own attribute pairs.
pub proof fn lemma_ext_hdr_round_trip(v: ExtHdrView)
    ensures
        spec_ext_hdr_from_pairs(v.spec_pairs()) == Ok::<ExtHdrView, DecodeError>(v),
{
    let s = v.spec_pairs();
    let empty = Seq::<(u16, AttrValue)>::empty();
    let tail6 = opt_pair(NFTA_EXTHDR_SREG, opt_reg(v.sreg));
    let tail5 = opt_pair(NFTA_EXTHDR_OP, spec_opt_ext_hdr_op(v.op)) + tail6;
    let tail4 = opt_pair(NFTA_EXTHDR_FLAGS, opt_u32(v.flags)) + tail5;
    let tail3 = opt_pair(NFTA_EXTHDR_LEN, opt_u32(v.len)) + tail4;
    let tail2 = opt_pair(NFTA_EXTHDR_OFFSET, opt_u32(v.offset)) + tail3;
    let tail1 = opt_pair(NFTA_EXTHDR_TYPE, opt_u8(v.typ)) + tail2;
    assert(opt_pair(NFTA_EXTHDR_SREG, opt_reg(v.sreg)) + empty =~= tail6);
    assert(spec_lookup(empty, NFTA_EXTHDR_DREG) == None::<AttrValue>);
    assert(spec_lookup(empty, NFTA_EXTHDR_TYPE) == None::<AttrValue>);
    assert(spec_lookup(empty, NFTA_EXTHDR_OFFSET) == None::<AttrValue>);
    assert(spec_lookup(empty, NFTA_EXTHDR_LEN) == None::<AttrValue>);
    assert(spec_lookup(empty, NFTA_EXTHDR_FLAGS) == None::<AttrValue>);
    assert(spec_lookup(empty, NFTA_EXTHDR_OP) == None::<AttrValue>);
    assert(spec_lookup(empty, NFTA_EXTHDR_SREG) == None::<AttrValue>);
    lemma_lookup_opt_head(NFTA_EXTHDR_DREG, opt_reg(v.dreg), tail1, NFTA_EXTHDR_DREG);
    lemma_lookup_opt_head(NFTA_EXTHDR_DREG, opt_reg(v.dreg), tail1, NFTA_EXTHDR_TYPE);
    lemma_lookup_opt_head(NFTA_EXTHDR_DREG, opt_reg(v.dreg), tail1, NFTA_EXTHDR_OFFSET);
    lemma_lookup_opt_head(NFTA_EXTHDR_DREG, opt_reg(v.dreg), tail1, NFTA_EXTHDR_LEN);
    lemma_lookup_opt_head(NFTA_EXTHDR_DREG, opt_reg(v.dreg), tail1, NFTA_EXTHDR_FLAGS);
    lemma_lookup_opt_head(NFTA_EXTHDR_DREG, opt_reg(v.dreg), tail1, NFTA_EXTHDR_OP);
    lemma_lookup_opt_head(NFTA_EXTHDR_DREG, opt_reg(v.dreg), tail1, NFTA_EXTHDR_SREG);
    lemma_lookup_opt_head(NFTA_EXTHDR_TYPE, opt_u8(v.typ), tail2, NFTA_EXTHDR_DREG);
    lemma_lookup_opt_head(NFTA_EXTHDR_TYPE, opt_u8(v.typ), tail2, NFTA_EXTHDR_TYPE);
    lemma_lookup_opt_head(NFTA_EXTHDR_TYPE, opt_u8(v.typ), tail2, NFTA_EXTHDR_OFFSET);
    lemma_lookup_opt_head(NFTA_EXTHDR_TYPE, opt_u8(v.typ), tail2, NFTA_EXTHDR_LEN);
    lemma_lookup_opt_head(NFTA_EXTHDR_TYPE, opt_u8(v.typ), tail2, NFTA_EXTHDR_FLAGS);
    lemma_lookup_opt_head(NFTA_EXTHDR_TYPE, opt_u8(v.typ), tail2, NFTA_EXTHDR_OP);
    lemma_lookup_opt_head(NFTA_EXTHDR_TYPE, opt_u8(v.typ), tail2, NFTA_EXTHDR_SREG);
    lemma_lookup_opt_head(NFTA_EXTHDR_OFFSET, opt_u32(v.offset), tail3, NFTA_EXTHDR_DREG);
    lemma_lookup_opt_head(NFTA_EXTHDR_OFFSET, opt_u32(v.offset), tail3, NFTA_EXTHDR_TYPE);
    lemma_lookup_opt_head(NFTA_EXTHDR_OFFSET, opt_u32(v.offset), tail3, NFTA_EXTHDR_OFFSET);
    lemma_lookup_opt_head(NFTA_EXTHDR_OFFSET, opt_u32(v.offset), tail3, NFTA_EXTHDR_LEN);
    lemma_lookup_opt_head(NFTA_EXTHDR_OFFSET, opt_u32(v.offset), tail3, NFTA_EXTHDR_FLAGS);
    lemma_lookup_opt_head(NFTA_EXTHDR_OFFSET, opt_u32(v.offset), tail3, NFTA_EXTHDR_OP);
    lemma_lookup_opt_head(NFTA_EXTHDR_OFFSET, opt_u32(v.offset), tail3, NFTA_EXTHDR_SREG);
    lemma_lookup_opt_head(NFTA_EXTHDR_LEN, opt_u32(v.len), tail4, NFTA_EXTHDR_DREG);
    lemma_lookup_opt_head(NFTA_EXTHDR_LEN, opt_u32(v.len), tail4, NFTA_EXTHDR_TYPE);
    lemma_lookup_opt_head(NFTA_EXTHDR_LEN, opt_u32(v.len), tail4, NFTA_EXTHDR_OFFSET);
    lemma_lookup_opt_head(NFTA_EXTHDR_LEN, opt_u32(v.len), tail4, NFTA_EXTHDR_LEN);
    lemma_lookup_opt_head(NFTA_EXTHDR_LEN, opt_u32(v.len), tail4, NFTA_EXTHDR_FLAGS);
    lemma_lookup_opt_head(NFTA_EXTHDR_LEN, opt_u32(v.len), tail4, NFTA_EXTHDR_OP);
    lemma_lookup_opt_head(NFTA_EXTHDR_LEN, opt_u32(v.len), tail4, NFTA_EXTHDR_SREG);
    lemma_lookup_opt_head(NFTA_EXTHDR_FLAGS, opt_u32(v.flags), tail5, NFTA_EXTHDR_DREG);
    lemma_lookup_opt_head(NFTA_EXTHDR_FLAGS, opt_u32(v.flags), tail5, NFTA_EXTHDR_TYPE);
    lemma_lookup_opt_head(NFTA_EXTHDR_FLAGS, opt_u32(v.flags), tail5, NFTA_EXTHDR_OFFSET);
    lemma_lookup_opt_head(NFTA_EXTHDR_FLAGS, opt_u32(v.flags), tail5, NFTA_EXTHDR_LEN);
    lemma_lookup_opt_head(NFTA_EXTHDR_FLAGS, opt_u32(v.flags), tail5, NFTA_EXTHDR_FLAGS);
    lemma_lookup_opt_head(NFTA_EXTHDR_FLAGS, opt_u32(v.flags), tail5, NFTA_EXTHDR_OP);
    lemma_lookup_opt_head(NFTA_EXTHDR_FLAGS, opt_u32(v.flags), tail5, NFTA_EXTHDR_SREG);
    lemma_lookup_opt_head(NFTA_EXTHDR_OP, spec_opt_ext_hdr_op(v.op), tail6, NFTA_EXTHDR_DREG);
    lemma_lookup_opt_head(NFTA_EXTHDR_OP, spec_opt_ext_hdr_op(v.op), tail6, NFTA_EXTHDR_TYPE);
    lemma_lookup_opt_head(NFTA_EXTHDR_OP, spec_opt_ext_hdr_op(v.op), tail6, NFTA_EXTHDR_OFFSET);
    lemma_lookup_opt_head(NFTA_EXTHDR_OP, spec_opt_ext_hdr_op(v.op), tail6, NFTA_EXTHDR_LEN);
    lemma_lookup_opt_head(NFTA_EXTHDR_OP, spec_opt_ext_hdr_op(v.op), tail6, NFTA_EXTHDR_FLAGS);
    lemma_lookup_opt_head(NFTA_EXTHDR_OP, spec_opt_ext_hdr_op(v.op), tail6, NFTA_EXTHDR_OP);
    lemma_lookup_opt_head(NFTA_EXTHDR_OP, spec_opt_ext_hdr_op(v.op), tail6, NFTA_EXTHDR_SREG);
    lemma_lookup_opt_head(NFTA_EXTHDR_SREG, opt_reg(v.sreg), empty, NFTA_EXTHDR_DREG);
    lemma_lookup_opt_head(NFTA_EXTHDR_SREG, opt_reg(v.sreg), empty, NFTA_EXTHDR_TYPE);
    lemma_lookup_opt_head(NFTA_EXTHDR_SREG, opt_reg(v.sreg), empty, NFTA_EXTHDR_OFFSET);
    lemma_lookup_opt_head(NFTA_EXTHDR_SREG, opt_reg(v.sreg), empty, NFTA_EXTHDR_LEN);
    lemma_lookup_opt_head(NFTA_EXTHDR_SREG, opt_reg(v.sreg), empty, NFTA_EXTHDR_FLAGS);
    lemma_lookup_opt_head(NFTA_EXTHDR_SREG, opt_reg(v.sreg), empty, NFTA_EXTHDR_OP);
    lemma_lookup_opt_head(NFTA_EXTHDR_SREG, opt_reg(v.sreg), empty, NFTA_EXTHDR_SREG);
    if v.dreg is Some {
        lemma_register_code_round_trip(v.dreg->0);
    }
    if v.op is Some {
        lemma_ext_hdr_op_code_round_trip(v.op->0);
    }
    if v.sreg is Some {
        lemma_register_code_round_trip(v.sreg->0);
    }
}

/// Concatenating seven sequences groups either way.
proof fn lemma_concat_assoc7<A>(
    p1: Seq<A>,
    p2: Seq<A>,
    p3: Seq<A>,
    p4: Seq<A>,
    p5: Seq<A>,
    p6: Seq<A>,
    p7: Seq<A>,
)
    ensures
        p1 + p2 + p3 + p4 + p5 + p6 + p7 == p1 + (p2 + (p3 + (p4 + (p5 + (p6 + p7))))),
{
    assert(p1 + p2 + p3 + p4 + p5 + p6 + p7 =~= p1 + (p2 + (p3 + (p4 + (p5 + (p6 + p7))))));
}

impl crate::nlmsg::AttributeDecoder for ExtHdr {
    open spec fn spec_attr_kind(ty: u16) -> AttrKind {
        if ty == NFTA_EXTHDR_DREG {
            AttrKind::U32
        } else if ty == NFTA_EXTHDR_TYPE {
            AttrKind::U8
        } else if ty == NFTA_EXTHDR_OFFSET {
            AttrKind::U32
        } else if ty == NFTA_EXTHDR_LEN {
            AttrKind::U32
        } else if ty == NFTA_EXTHDR_FLAGS {
            AttrKind::U32
        } else if ty == NFTA_EXTHDR_OP {
            AttrKind::U32
        } else if ty == NFTA_EXTHDR_SREG {
            AttrKind::U32
        } else {
            AttrKind::Unknown
        }
    }

    fn decode_attribute(ty: NetlinkType, buf: &[u8]) -> (r: Result<Attribute, DecodeError>) {
        let kind = if ty == NFTA_EXTHDR_DREG {
            AttrKind::U32
        } else if ty == NFTA_EXTHDR_TYPE {
            AttrKind::U8
        } else if ty == NFTA_EXTHDR_OFFSET {
            AttrKind::U32
        } else if ty == NFTA_EXTHDR_LEN {
            AttrKind::U32
        } else if ty == NFTA_EXTHDR_FLAGS {
            AttrKind::U32
        } else if ty == NFTA_EXTHDR_OP {
            AttrKind::U32
        } else if ty == NFTA_EXTHDR_SREG {
            AttrKind::U32
        } else {
            AttrKind::Unknown
        };
        decode_typed_attribute(kind, ty, buf)
    }
}

impl Expression for ExtHdr {
    open spec fn spec_name() -> Seq<char> {
        "exthdr"@
    }

    fn get_name() -> (r: &'static str) {
        proof {
            reveal_strlit("exthdr");
            assert(vstd::string::is_ascii("exthdr"));
            vstd::string::is_ascii_spec_bytes("exthdr");
        }
        "exthdr"
    }
}

} // verus!
