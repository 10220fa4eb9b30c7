//! Converts a register's multi-byte value between host and network
//! byte order.

use vstd::prelude::*;

use crate::attribute::{AttrKind, AttrValue, Attribute, NfNetlinkAttributes, decode_typed_attribute, spec_lookup};
use crate::attribute::{lemma_fixed_attr_wf, lemma_insert_append};
use crate::error::DecodeError;
use crate::parser::NetlinkType;
use crate::expr::{Expression, Register, append_opt_u32, lemma_lookup_opt_head, lemma_register_code_round_trip, opt_pair, opt_reg, opt_u32};

verus! {

pub const NFTA_BYTEORDER_SREG: u16 = 1;

pub const NFTA_BYTEORDER_DREG: u16 = 2;

pub const NFTA_BYTEORDER_OP: u16 = 3;

pub const NFTA_BYTEORDER_LEN: u16 = 4;

pub const NFTA_BYTEORDER_SIZE: u16 = 5;

/// Byteorder operation.
#[derive(Debug, Clone, Copy, PartialEq, Eq, Structural)]
pub enum ByteorderOp {
    NtoH,
    HtoN,
}

impl ByteorderOp {
    pub open spec fn spec_code(self) -> u32 {
        match self {
            ByteorderOp::NtoH => 0,
            ByteorderOp::HtoN => 1,
        }
    }

    pub fn code(self) -> (r: u32)
        ensures
            r == self.spec_code(),
    {
        match self {
            ByteorderOp::NtoH => 0,
            ByteorderOp::HtoN => 1,
        }
    }

    pub open spec fn spec_from_code(code: u32) -> Option<ByteorderOp> {
        if code == 0 {
            Some(ByteorderOp::NtoH)
        } else if code == 1 {
            Some(ByteorderOp::HtoN)
        } else {
            None
        }
    }

    pub fn from_code(code: u32) -> (r: Option<ByteorderOp>)
        ensures
            r == Self::spec_from_code(code),
    {
        if code == 0 {
            Some(ByteorderOp::NtoH)
        } else if code == 1 {
            Some(ByteorderOp::HtoN)
        } else {
            None
        }
    }
}

/// Every `ByteorderOp` round-trips through its wire code.
pub proof fn lemma_byteorder_op_code_round_trip(x: ByteorderOp)
    ensures
        ByteorderOp::spec_from_code(x.spec_code()) == Some(x),
{
}

pub open spec fn spec_opt_byteorder_op(o: Option<ByteorderOp>) -> Option<AttrValue> {
    match o {
        None => None,
        Some(x) => Some(AttrValue::U32(x.spec_code())),
    }
}

/// Ensures a register is of the correct byte order.
#[derive(Debug, Clone)]
pub struct Byteorder {
    sreg: Option<Register>,
    dreg: Option<Register>,
    op: Option<ByteorderOp>,
    len: Option<u32>,
    siz: Option<u32>,
}

/// Mathematical image of [`Byteorder`].
pub struct ByteorderView {
    pub sreg: Option<Register>,
    pub dreg: Option<Register>,
    pub op: Option<ByteorderOp>,
    pub len: Option<u32>,
    pub siz: Option<u32>,
}

impl View for Byteorder {
    type V = ByteorderView;

    closed spec fn view(&self) -> ByteorderView {
        ByteorderView {
            sreg: self.sreg,
            dreg: self.dreg,
            op: self.op,
            len: self.len,
            siz: self.siz,
        }
    }
}

impl ByteorderView {
    /// The attribute pairs of the present fields, in ascending tag order.
    pub open spec fn spec_pairs(self) -> Seq<(u16, AttrValue)> {
        opt_pair(NFTA_BYTEORDER_SREG, opt_reg(self.sreg)) + (opt_pair(NFTA_BYTEORDER_DREG, opt_reg(self.dreg)) + (opt_pair(NFTA_BYTEORDER_OP, spec_opt_byteorder_op(self.op)) + (opt_pair(NFTA_BYTEORDER_LEN, opt_u32(self.len)) + (opt_pair(NFTA_BYTEORDER_SIZE, opt_u32(self.siz))))))
    }

    /// Every present field fits one attribute.
    pub open spec fn wf(self) -> bool {
        true
    }
}

/// The expression a pair sequence decodes to: every recognized tag must
/// carry its field's kind and a mappable code.
pub open spec fn spec_byteorder_from_pairs(s: Seq<(u16, AttrValue)>) -> Result<ByteorderView, DecodeError> {
    let sreg = spec_lookup(s, NFTA_BYTEORDER_SREG);
    let dreg = spec_lookup(s, NFTA_BYTEORDER_DREG);
    let op = spec_lookup(s, NFTA_BYTEORDER_OP);
    let len = spec_lookup(s, NFTA_BYTEORDER_LEN);
    let siz = spec_lookup(s, NFTA_BYTEORDER_SIZE);
    if !(match sreg {
        None => true,
        Some(AttrValue::U32(x)) => Register::spec_from_code(x) is Some,
        Some(_) => false,
    } && match dreg {
        None => true,
        Some(AttrValue::U32(x)) => Register::spec_from_code(x) is Some,
        Some(_) => false,
    } && match op {
        None => true,
        Some(AttrValue::U32(x)) => ByteorderOp::spec_from_code(x) is Some,
        Some(_) => false,
    } && match len {
        None => true,
        Some(AttrValue::U32(_)) => true,
        Some(_) => false,
    } && match siz {
        None => true,
        Some(AttrValue::U32(_)) => true,
        Some(_) => false,
    }) {
        Err(DecodeError::InvalidAttributeType)
    } else {
        Ok(
            ByteorderView {
                sreg: match sreg {
                    Some(AttrValue::U32(x)) => Register::spec_from_code(x),
                    _ => None,
                },
                dreg: match dreg {
                    Some(AttrValue::U32(x)) => Register::spec_from_code(x),
                    _ => None,
                },
                op: match op {
                    Some(AttrValue::U32(x)) => ByteorderOp::spec_from_code(x),
                    _ => None,
                },
                len: match len {
                    Some(AttrValue::U32(x)) => Some(x),
                    _ => None,
                },
                siz: match siz {
                    Some(AttrValue::U32(x)) => Some(x),
                    _ => None,
                },
            },
        )
    }
}

impl Byteorder {
    /// An expression with no fields set.
    pub fn empty() -> (r: Self)
        ensures
            r@.sreg == None::<Register>,
            r@.dreg == None::<Register>,
            r@.op == None::<ByteorderOp>,
            r@.len == None::<u32>,
            r@.siz == None::<u32>,
    {
        Byteorder { sreg: None, dreg: None, op: None, len: None, siz: None }
    }

    pub fn get_sreg(&self) -> (r: Option<&Register>)
        ensures
            match r {
                Some(x) => self@.sreg == Some(*x),
                None => self@.sreg is None,
            },
    {
        self.sreg.as_ref()
    }

    pub fn set_sreg(&mut self, sreg: Register)
        ensures
            final(self)@ == (ByteorderView { sreg: Some(sreg), ..old(self)@ }),
    {
        self.sreg = Some(sreg);
    }

    pub fn with_sreg(self, sreg: Register) -> (r: Self)
        ensures
            r@ == (ByteorderView { sreg: Some(sreg), ..self@ }),
    {
        Byteorder { sreg: Some(sreg), ..self }
    }

    pub fn get_dreg(&self) -> (r: Option<&Register>)
        ensures
            match r {
                Some(x) => self@.dreg == Some(*x),
                None => self@.dreg is None,
            },
    {
        self.dreg.as_ref()
    }

    pub fn set_dreg(&mut self, dreg: Register)
        ensures
            final(self)@ == (ByteorderView { dreg: Some(dreg), ..old(self)@ }),
    {
        self.dreg = Some(dreg);
    }

    pub fn with_dreg(self, dreg: Register) -> (r: Self)
        ensures
            r@ == (ByteorderView { dreg: Some(dreg), ..self@ }),
    {
        Byteorder { dreg: Some(dreg), ..self }
    }

    pub fn get_op(&self) -> (r: Option<&ByteorderOp>)
        ensures
            match r {
                Some(x) => self@.op == Some(*x),
                None => self@.op is None,
            },
    {
        self.op.as_ref()
    }

    pub fn set_op(&mut self, op: ByteorderOp)
        ensures
            final(self)@ == (ByteorderView { op: Some(op), ..old(self)@ }),
    {
        self.op = Some(op);
    }

    pub fn with_op(self, op: ByteorderOp) -> (r: Self)
        ensures
            r@ == (ByteorderView { op: Some(op), ..self@ }),
    {
        Byteorder { op: Some(op), ..self }
    }

    pub fn get_len(&self) -> (r: Option<&u32>)
        ensures
            match r {
                Some(x) => self@.len == Some(*x),
                None => self@.len is None,
            },
    {
        self.len.as_ref()
    }

    pub fn set_len(&mut self, len: u32)
        ensures
            final(self)@ == (ByteorderView { len: Some(len), ..old(self)@ }),
    {
        self.len = Some(len);
    }

    pub fn with_len(self, len: u32) -> (r: Self)
        ensures
            r@ == (ByteorderView { len: Some(len), ..self@ }),
    {
        Byteorder { len: Some(len), ..self }
    }

    pub fn get_siz(&self) -> (r: Option<&u32>)
        ensures
            match r {
                Some(x) => self@.siz == Some(*x),
                None => self@.siz is None,
            },
    {
        self.siz.as_ref()
    }

    pub fn set_siz(&mut self, siz: u32)
        ensures
            final(self)@ == (ByteorderView { siz: Some(siz), ..old(self)@ }),
    {
        self.siz = Some(siz);
    }

    pub fn with_siz(self, siz: u32) -> (r: Self)
        ensures
            r@ == (ByteorderView { siz: Some(siz), ..self@ }),
    {
        Byteorder { siz: Some(siz), ..self }
    }

    /// The expression as an attribute set.
    #[verifier::rlimit(30)]
    #[verifier::spinoff_prover]
    pub fn to_attrs(&self) -> (r: NfNetlinkAttributes)
        requires
            self@.wf(),
        ensures
            r.wf(),
            r.pairs() == self@.spec_pairs(),
    {
        let mut attrs = NfNetlinkAttributes::new();
        let code_sreg: Option<u32> = match &self.sreg {
            Some(x) => Some(x.code()),
            None => None,
        };
        append_opt_u32(&mut attrs, NFTA_BYTEORDER_SREG, code_sreg);
        proof {
            assert(opt_u32(code_sreg) == opt_reg(self@.sreg));
        }
        let code_dreg: Option<u32> = match &self.dreg {
            Some(x) => Some(x.code()),
            None => None,
        };
        append_opt_u32(&mut attrs, NFTA_BYTEORDER_DREG, code_dreg);
        proof {
            assert(opt_u32(code_dreg) == opt_reg(self@.dreg));
        }
        let code_op: Option<u32> = match &self.op {
            Some(x) => Some(x.code()),
            None => None,
        };
        append_opt_u32(&mut attrs, NFTA_BYTEORDER_OP, code_op);
        proof {
            assert(opt_u32(code_op) == spec_opt_byteorder_op(self@.op));
        }
        append_opt_u32(&mut attrs, NFTA_BYTEORDER_LEN, self.len);
        append_opt_u32(&mut attrs, NFTA_BYTEORDER_SIZE, self.siz);
        proof {
            assert(attrs.pairs() =~= self@.spec_pairs());
        }
        attrs
    }

    /// The expression a decoded attribute set stands for.
    pub fn from_attrs(attrs: &NfNetlinkAttributes) -> (r: Result<Self, DecodeError>)
        ensures
            match r {
                Ok(e) => spec_byteorder_from_pairs(attrs.pairs()) == Ok::<ByteorderView, DecodeError>(e@),
                Err(e) => spec_byteorder_from_pairs(attrs.pairs()) == Err::<ByteorderView, DecodeError>(e),
            },
    {
        let sreg = match attrs.get_attr(NFTA_BYTEORDER_SREG) {
            None => None,
            Some(Attribute::U32(x)) => match Register::from_code(*x) {
                Some(v) => Some(v),
                None => {
                    return Err(DecodeError::InvalidAttributeType);
                },
            },
            Some(_) => {
                return Err(DecodeError::InvalidAttributeType);
            },
        };
        let dreg = match attrs.get_attr(NFTA_BYTEORDER_DREG) {
            None => None,
            Some(Attribute::U32(x)) => match Register::from_code(*x) {
                Some(v) => Some(v),
                None => {
                    return Err(DecodeError::InvalidAttributeType);
                },
            },
            Some(_) => {
                return Err(DecodeError::InvalidAttributeType);
            },
        };
        let op = match attrs.get_attr(NFTA_BYTEORDER_OP) {
            None => None,
            Some(Attribute::U32(x)) => match ByteorderOp::from_code(*x) {
                Some(v) => Some(v),
                None => {
                    return Err(DecodeError::InvalidAttributeType);
                },
            },
            Some(_) => {
                return Err(DecodeError::InvalidAttributeType);
            },
        };
        let len = match attrs.get_attr(NFTA_BYTEORDER_LEN) {
            None => None,
            Some(Attribute::U32(x)) => Some(*x),
            Some(_) => {
                return Err(DecodeError::InvalidAttributeType);
            },
        };
        let siz = match attrs.get_attr(NFTA_BYTEORDER_SIZE) {
            None => None,
            Some(Attribute::U32(x)) => Some(*x),
            Some(_) => {
                return Err(DecodeError::InvalidAttributeType);
            },
        };
        Ok(Byteorder { sreg, dreg, op, len, siz })
    }
}

/// Law: the expression decodes back from its own attribute pairs.
pub proof fn lemma_byteorder_round_trip(v: ByteorderView)
    ensures
        spec_byteorder_from_pairs(v.spec_pairs()) == Ok::<ByteorderView, DecodeError>(v),
{
    let s = v.spec_pairs();
    let empty = Seq::<(u16, AttrValue)>::empty();
    let tail4 = opt_pair(NFTA_BYTEORDER_SIZE, opt_u32(v.siz));
    let tail3 = opt_pair(NFTA_BYTEORDER_LEN, opt_u32(v.len)) + tail4;
    let tail2 = opt_pair(NFTA_BYTEORDER_OP, spec_opt_byteorder_op(v.op)) + tail3;
    let tail1 = opt_pair(NFTA_BYTEORDER_DREG, opt_reg(v.dreg)) + tail2;
    assert(opt_pair(NFTA_BYTEORDER_SIZE, opt_u32(v.siz)) + empty =~= tail4);
    assert(spec_lookup(empty, NFTA_BYTEORDER_SREG) == None::<AttrValue>);
    assert(spec_lookup(empty, NFTA_BYTEORDER_DREG) == None::<AttrValue>);
    assert(spec_lookup(empty, NFTA_BYTEORDER_OP) == None::<AttrValue>);
    assert(spec_lookup(empty, NFTA_BYTEORDER_LEN) == None::<AttrValue>);
    assert(spec_lookup(empty, NFTA_BYTEORDER_SIZE) == None::<AttrValue>);
    lemma_lookup_opt_head(NFTA_BYTEORDER_SREG, opt_reg(v.sreg), tail1, NFTA_BYTEORDER_SREG);
    lemma_lookup_opt_head(NFTA_BYTEORDER_SREG, opt_reg(v.sreg), tail1, NFTA_BYTEORDER_DREG);
    lemma_lookup_opt_head(NFTA_BYTEORDER_SREG, opt_reg(v.sreg), tail1, NFTA_BYTEORDER_OP);
    lemma_lookup_opt_head(NFTA_BYTEORDER_SREG, opt_reg(v.sreg), tail1, NFTA_BYTEORDER_LEN);
    lemma_lookup_opt_head(NFTA_BYTEORDER_SREG, opt_reg(v.sreg), tail1, NFTA_BYTEORDER_SIZE);
    lemma_lookup_opt_head(NFTA_BYTEORDER_DREG, opt_reg(v.dreg), tail2, NFTA_BYTEORDER_SREG);
    lemma_lookup_opt_head(NFTA_BYTEORDER_DREG, opt_reg(v.dreg), tail2, NFTA_BYTEORDER_DREG);
    lemma_lookup_opt_head(NFTA_BYTEORDER_DREG, opt_reg(v.dreg), tail2, NFTA_BYTEORDER_OP);
    lemma_lookup_opt_head(NFTA_BYTEORDER_DREG, opt_reg(v.dreg), tail2, NFTA_BYTEORDER_LEN);
    lemma_lookup_opt_head(NFTA_BYTEORDER_DREG, opt_reg(v.dreg), tail2, NFTA_BYTEORDER_SIZE);
    lemma_lookup_opt_head(NFTA_BYTEORDER_OP, spec_opt_byteorder_op(v.op), tail3, NFTA_BYTEORDER_SREG);
    lemma_lookup_opt_head(NFTA_BYTEORDER_OP, spec_opt_byteorder_op(v.op), tail3, NFTA_BYTEORDER_DREG);
    lemma_lookup_opt_head(NFTA_BYTEORDER_OP, spec_opt_byteorder_op(v.op), tail3, NFTA_BYTEORDER_OP);
    lemma_lookup_opt_head(NFTA_BYTEORDER_OP, spec_opt_byteorder_op(v.op), tail3, NFTA_BYTEORDER_LEN);
    lemma_lookup_opt_head(NFTA_BYTEORDER_OP, spec_opt_byteorder_op(v.op), tail3, NFTA_BYTEORDER_SIZE);
    lemma_lookup_opt_head(NFTA_BYTEORDER_LEN, opt_u32(v.len), tail4, NFTA_BYTEORDER_SREG);
    lemma_lookup_opt_head(NFTA_BYTEORDER_LEN, opt_u32(v.len), tail4, NFTA_BYTEORDER_DREG);
    lemma_lookup_opt_head(NFTA_BYTEORDER_LEN, opt_u32(v.len), tail4, NFTA_BYTEORDER_OP);
    lemma_lookup_opt_head(NFTA_BYTEORDER_LEN, opt_u32(v.len), tail4, NFTA_BYTEORDER_LEN);
    lemma_lookup_opt_head(NFTA_BYTEORDER_LEN, opt_u32(v.len), tail4, NFTA_BYTEORDER_SIZE);
    lemma_lookup_opt_head(NFTA_BYTEORDER_SIZE, opt_u32(v.siz), empty, NFTA_BYTEORDER_SREG);
    lemma_lookup_opt_head(NFTA_BYTEORDER_SIZE, opt_u32(v.siz), empty, NFTA_BYTEORDER_DREG);
    lemma_lookup_opt_head(NFTA_BYTEORDER_SIZE, opt_u32(v.siz), empty, NFTA_BYTEORDER_OP);
    lemma_lookup_opt_head(NFTA_BYTEORDER_SIZE, opt_u32(v.siz), empty, NFTA_BYTEORDER_LEN);
    lemma_lookup_opt_head(NFTA_BYTEORDER_SIZE, opt_u32(v.siz), empty, NFTA_BYTEORDER_SIZE);
    if v.sreg is Some {
        lemma_register_code_round_trip(v.sreg->0);
    }
    if v.dreg is Some {
        lemma_register_code_round_trip(v.dreg->0);
    }
    if v.op is Some {
        lemma_byteorder_op_code_round_trip(v.op->0);
    }
}

impl crate::nlmsg::AttributeDecoder for Byteorder {
    open spec fn spec_attr_kind(ty: u16) -> AttrKind {
        if ty == NFTA_BYTEORDER_SREG {
            AttrKind::U32
        } else if ty == NFTA_BYTEORDER_DREG {
            AttrKind::U32
        } else if ty == NFTA_BYTEORDER_OP {
            AttrKind::U32
        } else if ty == NFTA_BYTEORDER_LEN {
            AttrKind::U32
        } else if ty == NFTA_BYTEORDER_SIZE {
            AttrKind::U32
        } else {
            AttrKind::Unknown
        }
    }

    fn decode_attribute(ty: NetlinkType, buf: &[u8]) -> (r: Result<Attribute, DecodeError>) {
        let kind = if ty == NFTA_BYTEORDER_SREG {
            AttrKind::U32
        } else if ty == NFTA_BYTEORDER_DREG {
            AttrKind::U32
        } else if ty == NFTA_BYTEORDER_OP {
            AttrKind::U32
        } else if ty == NFTA_BYTEORDER_LEN {
            AttrKind::U32
        } else if ty == NFTA_BYTEORDER_SIZE {
            AttrKind::U32
        } else {
            AttrKind::Unknown
        };
        decode_typed_attribute(kind, ty, buf)
    }
}

impl Expression for Byteorder {
    open spec fn spec_name() -> Seq<char> {
        "byteorder"@
    }

    fn get_name() -> (r: &'static str) {
        proof {
            reveal_strlit("byteorder");
            assert(vstd::string::is_ascii("byteorder"));
            vstd::string::is_ascii_spec_bytes("byteorder");
        }
        "byteorder"
    }
}

} // verus!
