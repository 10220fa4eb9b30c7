//! Comparison of a previously loaded register against a literal byte string.

use vstd::prelude::*;
use vstd::slice::slice_to_vec;

use crate::attribute::{
    AttrKind, AttrValue, Attribute, MAX_ATTR_PAYLOAD, NfNetlinkAttributes, decode_typed_attribute,
    spec_lookup,
};
use crate::parser::NetlinkType;
use crate::attribute::lemma_insert_append;
use crate::error::DecodeError;
use crate::expr::{Expression, Register, lemma_lookup_opt_head, opt_bytes, opt_pair, opt_reg};

verus! {

pub const NFTA_CMP_SREG: u16 = 1;

pub const NFTA_CMP_OP: u16 = 2;

pub const NFTA_CMP_DATA: u16 = 3;

/// Comparison operator.
#[derive(Debug, Clone, Copy, PartialEq, Eq, Structural)]
pub enum CmpOp {
    Eq,
    Neq,
    Lt,
    Lte,
    Gt,
    Gte,
}

impl CmpOp {
    pub open spec fn spec_code(self) -> u32 {
        match self {
            CmpOp::Eq => 0,
            CmpOp::Neq => 1,
            CmpOp::Lt => 2,
            CmpOp::Lte => 3,
            CmpOp::Gt => 4,
            CmpOp::Gte => 5,
        }
    }

    pub fn code(self) -> (r: u32)
        ensures
            r == self.spec_code(),
    {
        match self {
            CmpOp::Eq => 0,
            CmpOp::Neq => 1,
            CmpOp::Lt => 2,
            CmpOp::Lte => 3,
            CmpOp::Gt => 4,
            CmpOp::Gte => 5,
        }
    }

    pub open spec fn spec_from_code(code: u32) -> Option<CmpOp> {
        if code == 0 {
            Some(CmpOp::Eq)
        } else if code == 1 {
            Some(CmpOp::Neq)
        } else if code == 2 {
            Some(CmpOp::Lt)
        } else if code == 3 {
            Some(CmpOp::Lte)
        } else if code == 4 {
            Some(CmpOp::Gt)
        } else if code == 5 {
            Some(CmpOp::Gte)
        } else {
            None
        }
    }

    pub fn from_code(code: u32) -> (r: Option<CmpOp>)
        ensures
            r == Self::spec_from_code(code),
    {
        if code == 0 {
            Some(CmpOp::Eq)
        } else if code == 1 {
            Some(CmpOp::Neq)
        } else if code == 2 {
            Some(CmpOp::Lt)
        } else if code == 3 {
            Some(CmpOp::Lte)
        } else if code == 4 {
            Some(CmpOp::Gt)
        } else if code == 5 {
            Some(CmpOp::Gte)
        } else {
            None
        }
    }
}

/// Compares the source register against a literal byte string.
#[derive(Debug, Clone)]
pub struct Cmp {
    sreg: Option<Register>,
    op: Option<CmpOp>,
    data: Option<Vec<u8>>,
}

/// Mathematical image of [`Cmp`].
pub struct CmpView {
    pub sreg: Option<Register>,
    pub op: Option<CmpOp>,
    pub data: Option<Seq<u8>>,
}

impl View for Cmp {
    type V = CmpView;

    closed spec fn view(&self) -> CmpView {
        CmpView {
            sreg: self.sreg,
            op: self.op,
            data: match self.data {
                None => None,
                Some(d) => Some(d@),
            },
        }
    }
}

pub open spec fn spec_opt_cmp_op(o: Option<CmpOp>) -> Option<AttrValue> {
    match o {
        None => None,
        Some(x) => Some(AttrValue::U32(x.spec_code())),
    }
}

impl CmpView {
    /// The attribute pairs of the present fields, in ascending tag order.
    pub open spec fn spec_pairs(self) -> Seq<(u16, AttrValue)> {
        opt_pair(NFTA_CMP_SREG, opt_reg(self.sreg)) + (opt_pair(
            NFTA_CMP_OP,
            spec_opt_cmp_op(self.op),
        ) + opt_pair(NFTA_CMP_DATA, opt_bytes(self.data)))
    }

    /// Every present field fits one attribute.
    pub open spec fn wf(self) -> bool {
        match self.data {
            None => true,
            Some(d) => d.len() <= MAX_ATTR_PAYLOAD,
        }
    }
}

/// The expression a pair sequence decodes to: every recognized tag must
/// carry its field's kind and a mappable code.
pub open spec fn spec_cmp_from_pairs(s: Seq<(u16, AttrValue)>) -> Result<CmpView, DecodeError> {
    let sreg = spec_lookup(s, NFTA_CMP_SREG);
    let op = spec_lookup(s, NFTA_CMP_OP);
    let data = spec_lookup(s, NFTA_CMP_DATA);
    if !(match sreg {
        None => true,
        Some(AttrValue::U32(x)) => Register::spec_from_code(x) is Some,
        Some(_) => false,
    } && match op {
        None => true,
        Some(AttrValue::U32(x)) => CmpOp::spec_from_code(x) is Some,
        Some(_) => false,
    } && match data {
        None => true,
        Some(AttrValue::Bytes(_)) => true,
        Some(_) => false,
    }) {
        Err(DecodeError::InvalidAttributeType)
    } else {
        Ok(
            CmpView {
                sreg: match sreg {
                    Some(AttrValue::U32(x)) => Register::spec_from_code(x),
                    _ => None,
                },
                op: match op {
                    Some(AttrValue::U32(x)) => CmpOp::spec_from_code(x),
                    _ => None,
                },
                data: match data {
                    Some(AttrValue::Bytes(b)) => Some(b),
                    _ => None,
                },
            },
        )
    }
}

impl Cmp {
    /// An empty comparison, no fields set.
    pub fn empty() -> (r: Self)
        ensures
            r@.sreg == None::<Register>,
            r@.op == None::<CmpOp>,
            r@.data == None::<Seq<u8>>,
    {
        Cmp { sreg: None, op: None, data: None }
    }

    /// A comparison of register one against `data` under `op`.
    pub fn new(op: CmpOp, data: Vec<u8>) -> (r: Self)
        ensures
            r@.sreg == Some(Register::Reg1),
            r@.op == Some(op),
            r@.data == Some(data@),
    {
        Cmp { sreg: Some(Register::Reg1), op: Some(op), data: Some(data) }
    }

    pub fn get_sreg(&self) -> (r: Option<&Register>)
        ensures
            match r {
                Some(x) => self@.sreg == Some(*x),
                None => self@.sreg is None,
            },
    {
        self.sreg.as_ref()
    }

    pub fn set_sreg(&mut self, sreg: Register)
        ensures
            final(self)@ == (CmpView { sreg: Some(sreg), ..old(self)@ }),
    {
        self.sreg = Some(sreg);
    }

    pub fn with_sreg(self, sreg: Register) -> (r: Self)
        ensures
            r@ == (CmpView { sreg: Some(sreg), ..self@ }),
    {
        Cmp { sreg: Some(sreg), ..self }
    }

    pub fn get_op(&self) -> (r: Option<&CmpOp>)
        ensures
            match r {
                Some(x) => self@.op == Some(*x),
                None => self@.op is None,
            },
    {
        self.op.as_ref()
    }

    pub fn set_op(&mut self, op: CmpOp)
        ensures
            final(self)@ == (CmpView { op: Some(op), ..old(self)@ }),
    {
        self.op = Some(op);
    }

    pub fn with_op(self, op: CmpOp) -> (r: Self)
        ensures
            r@ == (CmpView { op: Some(op), ..self@ }),
    {
        Cmp { op: Some(op), ..self }
    }

    pub fn get_data(&self) -> (r: Option<&Vec<u8>>)
        ensures
            match r {
                Some(x) => self@.data == Some(x@),
                None => self@.data is None,
            },
    {
        self.data.as_ref()
    }

    pub fn set_data(&mut self, data: Vec<u8>)
        ensures
            final(self)@ == (CmpView { data: Some(data@), ..old(self)@ }),
    {
        self.data = Some(data);
    }

    pub fn with_data(self, data: Vec<u8>) -> (r: Self)
        ensures
            r@ == (CmpView { data: Some(data@), ..self@ }),
    {
        Cmp { data: Some(data), ..self }
    }

    /// The expression as an attribute set.
    pub fn to_attrs(&self) -> (r: NfNetlinkAttributes)
        requires
            self@.wf(),
        ensures
            r.wf(),
            r.pairs() == self@.spec_pairs(),
    {
        proof {
            vstd::bytes::lemma_auto_spec_u32_to_from_le_bytes();
        }
        let mut attrs = NfNetlinkAttributes::new();
        if let Some(x) = &self.sreg {
            let ghost p = attrs.pairs();
            attrs.set_attr(NFTA_CMP_SREG, Attribute::U32(x.code()));
            proof {
                lemma_insert_append(p, NFTA_CMP_SREG, AttrValue::U32(x.spec_code()));
            }
        }
        if let Some(x) = &self.op {
            let ghost p = attrs.pairs();
            attrs.set_attr(NFTA_CMP_OP, Attribute::U32(x.code()));
            proof {
                lemma_insert_append(p, NFTA_CMP_OP, AttrValue::U32(x.spec_code()));
            }
        }
        if let Some(x) = &self.data {
            let ghost p = attrs.pairs();
            attrs.set_attr(NFTA_CMP_DATA, Attribute::Bytes(slice_to_vec(x.as_slice())));
            proof {
                lemma_insert_append(p, NFTA_CMP_DATA, AttrValue::Bytes(x@));
            }
        }
        proof {
            assert(attrs.pairs() =~= self@.spec_pairs());
        }
        attrs
    }

    /// The expression a decoded attribute set stands for.
    pub fn from_attrs(attrs: &NfNetlinkAttributes) -> (r: Result<Self, DecodeError>)
        ensures
            match r {
                Ok(e) => spec_cmp_from_pairs(attrs.pairs()) == Ok::<CmpView, DecodeError>(e@),
                Err(e) => spec_cmp_from_pairs(attrs.pairs()) == Err::<CmpView, DecodeError>(e),
            },
    {
        let sreg = match attrs.get_attr(NFTA_CMP_SREG) {
            None => None,
            Some(Attribute::U32(x)) => match Register::from_code(*x) {
                Some(r) => Some(r),
                None => {
                    return Err(DecodeError::InvalidAttributeType);
                },
            },
            Some(_) => {
                return Err(DecodeError::InvalidAttributeType);
            },
        };
        let op = match attrs.get_attr(NFTA_CMP_OP) {
            None => None,
            Some(Attribute::U32(x)) => match CmpOp::from_code(*x) {
                Some(o) => Some(o),
                None => {
                    return Err(DecodeError::InvalidAttributeType);
                },
            },
            Some(_) => {
                return Err(DecodeError::InvalidAttributeType);
            },
        };
        let data = match attrs.get_attr(NFTA_CMP_DATA) {
            None => None,
            Some(Attribute::Bytes(b)) => Some(slice_to_vec(b.as_slice())),
            Some(_) => {
                return Err(DecodeError::InvalidAttributeType);
            },
        };
        Ok(Cmp { sreg, op, data })
    }
}

/// Law: a comparison expression decodes back from its own attribute pairs.
pub proof fn lemma_cmp_round_trip(v: CmpView)
    ensures
        spec_cmp_from_pairs(v.spec_pairs()) == Ok::<CmpView, DecodeError>(v),
{
    let s = v.spec_pairs();
    let tail3 = opt_pair(NFTA_CMP_DATA, opt_bytes(v.data));
    let tail2 = opt_pair(NFTA_CMP_OP, spec_opt_cmp_op(v.op)) + tail3;
    let empty = Seq::<(u16, AttrValue)>::empty();
    assert(tail3 + empty =~= tail3);
    assert(spec_lookup(empty, NFTA_CMP_SREG) == None::<AttrValue>);
    assert(spec_lookup(empty, NFTA_CMP_OP) == None::<AttrValue>);
    assert(spec_lookup(empty, NFTA_CMP_DATA) == None::<AttrValue>);
    lemma_lookup_opt_head(NFTA_CMP_SREG, opt_reg(v.sreg), tail2, NFTA_CMP_SREG);
    lemma_lookup_opt_head(NFTA_CMP_SREG, opt_reg(v.sreg), tail2, NFTA_CMP_OP);
    lemma_lookup_opt_head(NFTA_CMP_SREG, opt_reg(v.sreg), tail2, NFTA_CMP_DATA);
    lemma_lookup_opt_head(NFTA_CMP_OP, spec_opt_cmp_op(v.op), tail3, NFTA_CMP_SREG);
    lemma_lookup_opt_head(NFTA_CMP_OP, spec_opt_cmp_op(v.op), tail3, NFTA_CMP_OP);
    lemma_lookup_opt_head(NFTA_CMP_OP, spec_opt_cmp_op(v.op), tail3, NFTA_CMP_DATA);
    lemma_lookup_opt_head(NFTA_CMP_DATA, opt_bytes(v.data), empty, NFTA_CMP_SREG);
    lemma_lookup_opt_head(NFTA_CMP_DATA, opt_bytes(v.data), empty, NFTA_CMP_OP);
    lemma_lookup_opt_head(NFTA_CMP_DATA, opt_bytes(v.data), empty, NFTA_CMP_DATA);
    if v.sreg is Some {
        crate::expr::lemma_register_code_round_trip(v.sreg->0);
    }
}

impl crate::nlmsg::AttributeDecoder for Cmp {
    open spec fn spec_attr_kind(ty: u16) -> AttrKind {
        if ty == NFTA_CMP_SREG {
            AttrKind::U32
        } else if ty == NFTA_CMP_OP {
            AttrKind::U32
        } else if ty == NFTA_CMP_DATA {
            AttrKind::Bytes
        } else {
            AttrKind::Unknown
        }
    }

    fn decode_attribute(ty: NetlinkType, buf: &[u8]) -> (r: Result<Attribute, DecodeError>) {
        let kind = if ty == NFTA_CMP_SREG {
            AttrKind::U32
        } else if ty == NFTA_CMP_OP {
            AttrKind::U32
        } else if ty == NFTA_CMP_DATA {
            AttrKind::Bytes
        } else {
            AttrKind::Unknown
        };
        decode_typed_attribute(kind, ty, buf)
    }
}

impl Expression for Cmp {
    open spec fn spec_name() -> Seq<char> {
        "cmp"@
    }

    fn get_name() -> (r: &'static str) {
        proof {
            reveal_strlit("cmp");
            assert(vstd::string::is_ascii("cmp"));
            vstd::string::is_ascii_spec_bytes("cmp");
        }
        "cmp"
    }
}

} // verus!
