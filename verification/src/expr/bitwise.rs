//! Applies `(register & mask) ^ xor` to a register in place; with an
//! all-zero xor it masks an address down to its network prefix.

use vstd::prelude::*;
use vstd::slice::slice_to_vec;

use crate::attribute::{AttrKind, AttrValue, Attribute, NfNetlinkAttributes, decode_typed_attribute, spec_lookup};
use crate::attribute::{lemma_fixed_attr_wf, lemma_insert_append};
use crate::attribute::MAX_ATTR_PAYLOAD;
use crate::error::DecodeError;
use crate::parser::NetlinkType;
use crate::error::BuilderError;
use crate::expr::{Expression, Register, append_opt_bytes, append_opt_u32, lemma_lookup_opt_head, lemma_register_code_round_trip, opt_bytes, opt_pair, opt_reg, opt_u32};

verus! {

pub const NFTA_BITWISE_SREG: u16 = 1;

pub const NFTA_BITWISE_DREG: u16 = 2;

pub const NFTA_BITWISE_LEN: u16 = 3;

pub const NFTA_BITWISE_MASK: u16 = 4;

pub const NFTA_BITWISE_XOR: u16 = 5;

/// Masks and xors the source register into the destination register.
#[derive(Debug, Clone)]
pub struct Bitwise {
    sreg: Option<Register>,
    dreg: Option<Register>,
    len: Option<u32>,
    mask: Option<Vec<u8>>,
    xor: Option<Vec<u8>>,
}

/// Mathematical image of [`Bitwise`].
pub struct BitwiseView {
    pub sreg: Option<Register>,
    pub dreg: Option<Register>,
    pub len: Option<u32>,
    pub mask: Option<Seq<u8>>,
    pub xor: Option<Seq<u8>>,
}

impl View for Bitwise {
    type V = BitwiseView;

    closed spec fn view(&self) -> BitwiseView {
        BitwiseView {
            sreg: self.sreg,
            dreg: self.dreg,
            len: self.len,
            mask: match self.mask {
                None => None,
                Some(d) => Some(d@),
            },
            xor: match self.xor {
                None => None,
                Some(d) => Some(d@),
            },
        }
    }
}

impl BitwiseView {
    /// The attribute pairs of the present fields, in ascending tag order.
    pub open spec fn spec_pairs(self) -> Seq<(u16, AttrValue)> {
        opt_pair(NFTA_BITWISE_SREG, opt_reg(self.sreg)) + (opt_pair(NFTA_BITWISE_DREG, opt_reg(self.dreg)) + (opt_pair(NFTA_BITWISE_LEN, opt_u32(self.len)) + (opt_pair(NFTA_BITWISE_MASK, opt_bytes(self.mask)) + (opt_pair(NFTA_BITWISE_XOR, opt_bytes(self.xor))))))
    }

    /// Every present field fits one attribute.
    pub open spec fn wf(self) -> bool {
        &&& match self.mask {
            None => true,
            Some(d) => d.len() <= MAX_ATTR_PAYLOAD,
        }
        &&& match self.xor {
            None => true,
            Some(d) => d.len() <= MAX_ATTR_PAYLOAD,
        }
    }
}

/// The expression a pair sequence decodes to: every recognized tag must
/// carry its field's kind and a mappable code.
pub open spec fn spec_bitwise_from_pairs(s: Seq<(u16, AttrValue)>) -> Result<BitwiseView, DecodeError> {
    let sreg = spec_lookup(s, NFTA_BITWISE_SREG);
    let dreg = spec_lookup(s, NFTA_BITWISE_DREG);
    let len = spec_lookup(s, NFTA_BITWISE_LEN);
    let mask = spec_lookup(s, NFTA_BITWISE_MASK);
    let xor = spec_lookup(s, NFTA_BITWISE_XOR);
    if !(match sreg {
        None => true,
        Some(AttrValue::U32(x)) => Register::spec_from_code(x) is Some,
        Some(_) => false,
    } && match dreg {
        None => true,
        Some(AttrValue::U32(x)) => Register::spec_from_code(x) is Some,
        Some(_) => false,
    } && match len {
        None => true,
        Some(AttrValue::U32(_)) => true,
        Some(_) => false,
    } && match mask {
        None => true,
        Some(AttrValue::Bytes(_)) => true,
        Some(_) => false,
    } && match xor {
        None => true,
        Some(AttrValue::Bytes(_)) => true,
        Some(_) => false,
    }) {
        Err(DecodeError::InvalidAttributeType)
    } else {
        Ok(
            BitwiseView {
                sreg: match sreg {
                    Some(AttrValue::U32(x)) => Register::spec_from_code(x),
                    _ => None,
                },
                dreg: match dreg {
                    Some(AttrValue::U32(x)) => Register::spec_from_code(x),
                    _ => None,
                },
                len: match len {
                    Some(AttrValue::U32(x)) => Some(x),
                    _ => None,
                },
                mask: match mask {
                    Some(AttrValue::Bytes(x)) => Some(x),
                    _ => None,
                },
                xor: match xor {
                    Some(AttrValue::Bytes(x)) => Some(x),
                    _ => None,
                },
            },
        )
    }
}

impl Bitwise {
    /// An expression with no fields set.
    pub fn empty() -> (r: Self)
        ensures
            r@.sreg == None::<Register>,
            r@.dreg == None::<Register>,
            r@.len == None::<u32>,
            r@.mask == None::<Seq<u8>>,
            r@.xor == None::<Seq<u8>>,
    {
        Bitwise { sreg: None, dreg: None, len: None, mask: None, xor: None }
    }

    /// A bitwise operation on register one: `(reg & mask) ^ xor`. The mask
    /// and the xor must have the same byte length.
    pub fn new(mask: Vec<u8>, xor: Vec<u8>) -> (r: Result<Self, BuilderError>)
        requires
            mask@.len() <= u32::MAX,
        ensures
            match r {
                Ok(b) => mask@.len() == xor@.len() && b@ == (BitwiseView {
                    sreg: Some(Register::Reg1),
                    dreg: Some(Register::Reg1),
                    len: Some(mask@.len() as u32),
                    mask: Some(mask@),
                    xor: Some(xor@),
                }),
                Err(e) => e == BuilderError::InvalidMaskLength && mask@.len() != xor@.len(),
            },
    {
        if mask.len() != xor.len() {
            return Err(BuilderError::InvalidMaskLength);
        }
        let len = mask.len() as u32;
        Ok(
            Bitwise {
                sreg: Some(Register::Reg1),
                dreg: Some(Register::Reg1),
                len: Some(len),
                mask: Some(mask),
                xor: Some(xor),
            },
        )
    }

    pub fn get_sreg(&self) -> (r: Option<&Register>)
        ensures
            match r {
                Some(x) => self@.sreg == Some(*x),
                None => self@.sreg is None,
            },
    {
        self.sreg.as_ref()
    }

    pub fn set_sreg(&mut self, sreg: Register)
        ensures
            final(self)@ == (BitwiseView { sreg: Some(sreg), ..old(self)@ }),
    {
        self.sreg = Some(sreg);
    }

    pub fn with_sreg(self, sreg: Register) -> (r: Self)
        ensures
            r@ == (BitwiseView { sreg: Some(sreg), ..self@ }),
    {
        Bitwise { sreg: Some(sreg), ..self }
    }

    pub fn get_dreg(&self) -> (r: Option<&Register>)
        ensures
            match r {
                Some(x) => self@.dreg == Some(*x),
                None => self@.dreg is None,
            },
    {
        self.dreg.as_ref()
    }

    pub fn set_dreg(&mut self, dreg: Register)
        ensures
            final(self)@ == (BitwiseView { dreg: Some(dreg), ..old(self)@ }),
    {
        self.dreg = Some(dreg);
    }

    pub fn with_dreg(self, dreg: Register) -> (r: Self)
        ensures
            r@ == (BitwiseView { dreg: Some(dreg), ..self@ }),
    {
        Bitwise { dreg: Some(dreg), ..self }
    }

    pub fn get_len(&self) -> (r: Option<&u32>)
        ensures
            match r {
                Some(x) => self@.len == Some(*x),
                None => self@.len is None,
            },
    {
        self.len.as_ref()
    }

    pub fn set_len(&mut self, len: u32)
        ensures
            final(self)@ == (BitwiseView { len: Some(len), ..old(self)@ }),
    {
        self.len = Some(len);
    }

    pub fn with_len(self, len: u32) -> (r: Self)
        ensures
            r@ == (BitwiseView { len: Some(len), ..self@ }),
    {
        Bitwise { len: Some(len), ..self }
    }

    pub fn get_mask(&self) -> (r: Option<&Vec<u8>>)
        ensures
            match r {
                Some(x) => self@.mask == Some(x@),
                None => self@.mask is None,
            },
    {
        self.mask.as_ref()
    }

    pub fn set_mask(&mut self, mask: Vec<u8>)
        ensures
            final(self)@ == (BitwiseView { mask: Some(mask@), ..old(self)@ }),
    {
        self.mask = Some(mask);
    }

    pub fn with_mask(self, mask: Vec<u8>) -> (r: Self)
        ensures
            r@ == (BitwiseView { mask: Some(mask@), ..self@ }),
    {
        Bitwise { mask: Some(mask), ..self }
    }

    pub fn get_xor(&self) -> (r: Option<&Vec<u8>>)
        ensures
            match r {
                Some(x) => self@.xor == Some(x@),
                None => self@.xor is None,
            },
    {
        self.xor.as_ref()
    }

    pub fn set_xor(&mut self, xor: Vec<u8>)
        ensures
            final(self)@ == (BitwiseView { xor: Some(xor@), ..old(self)@ }),
    {
        self.xor = Some(xor);
    }

    pub fn with_xor(self, xor: Vec<u8>) -> (r: Self)
        ensures
            r@ == (BitwiseView { xor: Some(xor@), ..self@ }),
    {
        Bitwise { xor: Some(xor), ..self }
    }

    /// The expression as an attribute set.
    pub fn to_attrs(&self) -> (r: NfNetlinkAttributes)
        requires
            self@.wf(),
        ensures
            r.wf(),
            r.pairs() == self@.spec_pairs(),
    {
        let mut attrs = NfNetlinkAttributes::new();
        let code_sreg: Option<u32> = match &self.sreg {
            Some(x) => Some(x.code()),
            None => None,
        };
        append_opt_u32(&mut attrs, NFTA_BITWISE_SREG, code_sreg);
        proof {
            assert(opt_u32(code_sreg) == opt_reg(self@.sreg));
        }
        let code_dreg: Option<u32> = match &self.dreg {
            Some(x) => Some(x.code()),
            None => None,
        };
        append_opt_u32(&mut attrs, NFTA_BITWISE_DREG, code_dreg);
        proof {
            assert(opt_u32(code_dreg) == opt_reg(self@.dreg));
        }
        append_opt_u32(&mut attrs, NFTA_BITWISE_LEN, self.len);
        append_opt_bytes(&mut attrs, NFTA_BITWISE_MASK, &self.mask);
        append_opt_bytes(&mut attrs, NFTA_BITWISE_XOR, &self.xor);
        proof {
            assert(attrs.pairs() =~= self@.spec_pairs());
        }
        attrs
    }

    /// The expression a decoded attribute set stands for.
    pub fn from_attrs(attrs: &NfNetlinkAttributes) -> (r: Result<Self, DecodeError>)
        ensures
            match r {
                Ok(e) => spec_bitwise_from_pairs(attrs.pairs()) == Ok::<BitwiseView, DecodeError>(e@),
                Err(e) => spec_bitwise_from_pairs(attrs.pairs()) == Err::<BitwiseView, DecodeError>(e),
            },
    {
        let sreg = match attrs.get_attr(NFTA_BITWISE_SREG) {
            None => None,
            Some(Attribute::U32(x)) => match Register::from_code(*x) {
                Some(v) => Some(v),
                None => {
                    return Err(DecodeError::InvalidAttributeType);
                },
            },
            Some(_) => {
                return Err(DecodeError::InvalidAttributeType);
            },
        };
        let dreg = match attrs.get_attr(NFTA_BITWISE_DREG) {
            None => None,
            Some(Attribute::U32(x)) => match Register::from_code(*x) {
                Some(v) => Some(v),
                None => {
                    return Err(DecodeError::InvalidAttributeType);
                },
            },
            Some(_) => {
                return Err(DecodeError::InvalidAttributeType);
            },
        };
        let len = match attrs.get_attr(NFTA_BITWISE_LEN) {
            None => None,
            Some(Attribute::U32(x)) => Some(*x),
            Some(_) => {
                return Err(DecodeError::InvalidAttributeType);
            },
        };
        let mask = match attrs.get_attr(NFTA_BITWISE_MASK) {
            None => None,
            Some(Attribute::Bytes(b)) => Some(slice_to_vec(b.as_slice())),
            Some(_) => {
                return Err(DecodeError::InvalidAttributeType);
            },
        };
        let xor = match attrs.get_attr(NFTA_BITWISE_XOR) {
            None => None,
            Some(Attribute::Bytes(b)) => Some(slice_to_vec(b.as_slice())),
            Some(_) => {
                return Err(DecodeError::InvalidAttributeType);
            },
        };
        Ok(Bitwise { sreg, dreg, len, mask, xor })
    }
}

/// Law: the expression decodes back from its own attribute pairs.
pub proof fn lemma_bitwise_round_trip(v: BitwiseView)
    ensures
        spec_bitwise_from_pairs(v.spec_pairs()) == Ok::<BitwiseView, DecodeError>(v),
{
    let s = v.spec_pairs();
    let empty = Seq::<(u16, AttrValue)>::empty();
    let tail4 = opt_pair(NFTA_BITWISE_XOR, opt_bytes(v.xor));
    let tail3 = opt_pair(NFTA_BITWISE_MASK, opt_bytes(v.mask)) + tail4;
    let tail2 = opt_pair(NFTA_BITWISE_LEN, opt_u32(v.len)) + tail3;
    let tail1 = opt_pair(NFTA_BITWISE_DREG, opt_reg(v.dreg)) + tail2;
    assert(opt_pair(NFTA_BITWISE_XOR, opt_bytes(v.xor)) + empty =~= tail4);
    assert(spec_lookup(empty, NFTA_BITWISE_SREG) == None::<AttrValue>);
    assert(spec_lookup(empty, NFTA_BITWISE_DREG) == None::<AttrValue>);
    assert(spec_lookup(empty, NFTA_BITWISE_LEN) == None::<AttrValue>);
    assert(spec_lookup(empty, NFTA_BITWISE_MASK) == None::<AttrValue>);
    assert(spec_lookup(empty, NFTA_BITWISE_XOR) == None::<AttrValue>);
    lemma_lookup_opt_head(NFTA_BITWISE_SREG, opt_reg(v.sreg), tail1, NFTA_BITWISE_SREG);
    lemma_lookup_opt_head(NFTA_BITWISE_SREG, opt_reg(v.sreg), tail1, NFTA_BITWISE_DREG);
    lemma_lookup_opt_head(NFTA_BITWISE_SREG, opt_reg(v.sreg), tail1, NFTA_BITWISE_LEN);
    lemma_lookup_opt_head(NFTA_BITWISE_SREG, opt_reg(v.sreg), tail1, NFTA_BITWISE_MASK);
    lemma_lookup_opt_head(NFTA_BITWISE_SREG, opt_reg(v.sreg), tail1, NFTA_BITWISE_XOR);
    lemma_lookup_opt_head(NFTA_BITWISE_DREG, opt_reg(v.dreg), tail2, NFTA_BITWISE_SREG);
    lemma_lookup_opt_head(NFTA_BITWISE_DREG, opt_reg(v.dreg), tail2, NFTA_BITWISE_DREG);
    lemma_lookup_opt_head(NFTA_BITWISE_DREG, opt_reg(v.dreg), tail2, NFTA_BITWISE_LEN);
    lemma_lookup_opt_head(NFTA_BITWISE_DREG, opt_reg(v.dreg), tail2, NFTA_BITWISE_MASK);
    lemma_lookup_opt_head(NFTA_BITWISE_DREG, opt_reg(v.dreg), tail2, NFTA_BITWISE_XOR);
    lemma_lookup_opt_head(NFTA_BITWISE_LEN, opt_u32(v.len), tail3, NFTA_BITWISE_SREG);
    lemma_lookup_opt_head(NFTA_BITWISE_LEN, opt_u32(v.len), tail3, NFTA_BITWISE_DREG);
    lemma_lookup_opt_head(NFTA_BITWISE_LEN, opt_u32(v.len), tail3, NFTA_BITWISE_LEN);
    lemma_lookup_opt_head(NFTA_BITWISE_LEN, opt_u32(v.len), tail3, NFTA_BITWISE_MASK);
    lemma_lookup_opt_head(NFTA_BITWISE_LEN, opt_u32(v.len), tail3, NFTA_BITWISE_XOR);
    lemma_lookup_opt_head(NFTA_BITWISE_MASK, opt_bytes(v.mask), tail4, NFTA_BITWISE_SREG);
    lemma_lookup_opt_head(NFTA_BITWISE_MASK, opt_bytes(v.mask), tail4, NFTA_BITWISE_DREG);
    lemma_lookup_opt_head(NFTA_BITWISE_MASK, opt_bytes(v.mask), tail4, NFTA_BITWISE_LEN);
    lemma_lookup_opt_head(NFTA_BITWISE_MASK, opt_bytes(v.mask), tail4, NFTA_BITWISE_MASK);
    lemma_lookup_opt_head(NFTA_BITWISE_MASK, opt_bytes(v.mask), tail4, NFTA_BITWISE_XOR);
    lemma_lookup_opt_head(NFTA_BITWISE_XOR, opt_bytes(v.xor), empty, NFTA_BITWISE_SREG);
    lemma_lookup_opt_head(NFTA_BITWISE_XOR, opt_bytes(v.xor), empty, NFTA_BITWISE_DREG);
    lemma_lookup_opt_head(NFTA_BITWISE_XOR, opt_bytes(v.xor), empty, NFTA_BITWISE_LEN);
    lemma_lookup_opt_head(NFTA_BITWISE_XOR, opt_bytes(v.xor), empty, NFTA_BITWISE_MASK);
    lemma_lookup_opt_head(NFTA_BITWISE_XOR, opt_bytes(v.xor), empty, NFTA_BITWISE_XOR);
    if v.sreg is Some {
        lemma_register_code_round_trip(v.sreg->0);
    }
    if v.dreg is Some {
        lemma_register_code_round_trip(v.dreg->0);
    }
}

impl crate::nlmsg::AttributeDecoder for Bitwise {
    open spec fn spec_attr_kind(ty: u16) -> AttrKind {
        if ty == NFTA_BITWISE_SREG {
            AttrKind::U32
        } else if ty == NFTA_BITWISE_DREG {
            AttrKind::U32
        } else if ty == NFTA_BITWISE_LEN {
            AttrKind::U32
        } else if ty == NFTA_BITWISE_MASK {
            AttrKind::Bytes
        } else if ty == NFTA_BITWISE_XOR {
            AttrKind::Bytes
        } else {
            AttrKind::Unknown
        }
    }

    fn decode_attribute(ty: NetlinkType, buf: &[u8]) -> (r: Result<Attribute, DecodeError>) {
        let kind = if ty == NFTA_BITWISE_SREG {
            AttrKind::U32
        } else if ty == NFTA_BITWISE_DREG {
            AttrKind::U32
        } else if ty == NFTA_BITWISE_LEN {
            AttrKind::U32
        } else if ty == NFTA_BITWISE_MASK {
            AttrKind::Bytes
        } else if ty == NFTA_BITWISE_XOR {
            AttrKind::Bytes
        } else {
            AttrKind::Unknown
        };
        decode_typed_attribute(kind, ty, buf)
    }
}

impl Expression for Bitwise {
    open spec fn spec_name() -> Seq<char> {
        "bitwise"@
    }

    fn get_name() -> (r: &'static str) {
        proof {
            reveal_strlit("bitwise");
            assert(vstd::string::is_ascii("bitwise"));
            vstd::string::is_ascii_spec_bytes("bitwise");
        }
        "bitwise"
    }
}

} // verus!
