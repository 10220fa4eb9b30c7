//! Immediate loads: writing a literal value, or a verdict, into a register.
//! The value travels as a nested data attribute set; a verdict nests once
//! more, carrying its code and, for jumps, the target chain name.

use vstd::prelude::*;
use vstd::slice::slice_to_vec;
use vstd::utf8::encode_utf8;

use crate::attribute::{
    AttrKind, AttrValue, Attribute, MAX_ATTR_PAYLOAD, NfNetlinkAttributeReader,
    NfNetlinkAttributes, SerializeNfNetlink, decode_typed_attribute, lemma_attribute_padding,
    lemma_encode_attribute_len, spec_decode_attrs, spec_encode_attribute, spec_encode_pairs,
    spec_lookup,
};
use crate::error::DecodeError;
use crate::expr::{
    Expression, Register, append_opt_nested, append_opt_u32, opt_pair, opt_reg, opt_u32,
};
use crate::expr::verdict::{Verdict, VerdictView, spec_verdict_from_pairs};
use crate::parser::NetlinkType;

verus! {

pub const NFTA_IMMEDIATE_DREG: u16 = 1;

pub const NFTA_IMMEDIATE_DATA: u16 = 2;

pub const NFTA_DATA_VALUE: u16 = 1;

pub const NFTA_DATA_VERDICT_TAG: u16 = 2;

/// What an immediate expression loads: a literal byte string, or a verdict.
#[derive(Debug, Clone)]
pub enum ImmediateData {
    Value(Vec<u8>),
    Verdict(Verdict),
}

/// Mathematical image of [`ImmediateData`].
pub enum ImmediateDataView {
    Value(Seq<u8>),
    Verdict(VerdictView),
}

impl View for ImmediateData {
    type V = ImmediateDataView;

    open spec fn view(&self) -> ImmediateDataView {
        match self {
            ImmediateData::Value(d) => ImmediateDataView::Value(d@),
            ImmediateData::Verdict(v) => ImmediateDataView::Verdict(v@),
        }
    }
}

/// The attribute pairs of the nested data set: a literal value under its own
/// tag, or a doubly nested verdict set.
pub open spec fn spec_data_pairs(d: ImmediateDataView) -> Seq<(u16, AttrValue)> {
    match d {
        ImmediateDataView::Value(b) => seq![(NFTA_DATA_VALUE, AttrValue::Bytes(b))],
        ImmediateDataView::Verdict(v) => seq![
            (NFTA_DATA_VERDICT_TAG, AttrValue::Nested(spec_encode_pairs(v.spec_pairs()))),
        ],
    }
}

/// The data a decoded data set stands for: exactly one of the value and the
/// verdict must be present.
pub open spec fn spec_data_from_pairs(s: Seq<(u16, AttrValue)>) -> Result<
    ImmediateDataView,
    DecodeError,
> {
    match (spec_lookup(s, NFTA_DATA_VALUE), spec_lookup(s, NFTA_DATA_VERDICT_TAG)) {
        (Some(AttrValue::Bytes(b)), None) => Ok(ImmediateDataView::Value(b)),
        (None, Some(AttrValue::Nested(vb))) => match spec_decode_attrs::<Verdict>(
            vb,
            Seq::empty(),
        ) {
            Err(e) => Err(e),
            Ok(vs) => match spec_verdict_from_pairs(vs) {
                Ok(v) => Ok(ImmediateDataView::Verdict(v)),
                Err(e) => Err(e),
            },
        },
        _ => Err(DecodeError::InvalidAttributeType),
    }
}

/// Loads a literal value or a verdict into a register.
#[derive(Debug, Clone)]
pub struct Immediate {
    dreg: Option<Register>,
    data: Option<ImmediateData>,
}

/// Mathematical image of [`Immediate`].
pub struct ImmediateView {
    pub dreg: Option<Register>,
    pub data: Option<ImmediateDataView>,
}

impl View for Immediate {
    type V = ImmediateView;

    closed spec fn view(&self) -> ImmediateView {
        ImmediateView {
            dreg: self.dreg,
            data: match &self.data {
                None => None,
                Some(d) => Some(d@),
            },
        }
    }
}

impl ImmediateView {
    /// The attribute pairs of the present fields, in ascending tag order.
    pub open spec fn spec_pairs(self) -> Seq<(u16, AttrValue)> {
        opt_pair(NFTA_IMMEDIATE_DREG, opt_reg(self.dreg)) + opt_pair(
            NFTA_IMMEDIATE_DATA,
            match self.data {
                None => None,
                Some(d) => Some(AttrValue::Nested(spec_encode_pairs(spec_data_pairs(d)))),
            },
        )
    }

    /// The nested data fits its attributes: the inner value or verdict set
    /// fits one attribute, and so does each leaf inside it.
    pub open spec fn wf(self) -> bool {
        match self.data {
            None => true,
            Some(d) => spec_encode_pairs(spec_data_pairs(d)).len() <= MAX_ATTR_PAYLOAD && match d {
                ImmediateDataView::Value(b) => b.len() <= MAX_ATTR_PAYLOAD,
                ImmediateDataView::Verdict(v) => v.wf() && !(v is Reject) && spec_encode_pairs(
                    v.spec_pairs(),
                ).len() <= MAX_ATTR_PAYLOAD,
            },
        }
    }
}

/// The expression a pair sequence decodes to.
pub open spec fn spec_immediate_from_pairs(s: Seq<(u16, AttrValue)>) -> Result<
    ImmediateView,
    DecodeError,
> {
    let dreg = spec_lookup(s, NFTA_IMMEDIATE_DREG);
    let data = spec_lookup(s, NFTA_IMMEDIATE_DATA);
    if !(match dreg {
        None => true,
        Some(AttrValue::U32(x)) => Register::spec_from_code(x) is Some,
        Some(_) => false,
    } && match data {
        None => true,
        Some(AttrValue::Nested(_)) => true,
        Some(_) => false,
    }) {
        Err(DecodeError::InvalidAttributeType)
    } else {
        let rv = match dreg {
            Some(AttrValue::U32(x)) => Register::spec_from_code(x),
            _ => None,
        };
        match data {
            Some(AttrValue::Nested(db)) => match spec_decode_attrs::<ImmediateData>(
                db,
                Seq::empty(),
            ) {
                Err(e) => Err(e),
                Ok(ds) => match spec_data_from_pairs(ds) {
                    Err(e) => Err(e),
                    Ok(d) => Ok(ImmediateView { dreg: rv, data: Some(d) }),
                },
            },
            _ => Ok(ImmediateView { dreg: rv, data: None }),
        }
    }
}

/// A value with the immediate data's byte length bounded as [`ImmediateView::wf`]
/// asks is well formed.
pub proof fn lemma_immediate_value_wf(v: ImmediateView)
    requires
        match v.data {
            Some(ImmediateDataView::Value(b)) => b.len() + 8 <= MAX_ATTR_PAYLOAD,
            Some(ImmediateDataView::Verdict(_)) => false,
            None => true,
        },
    ensures
        v.wf(),
{
    match v.data {
        Some(d) => {
            let s = spec_data_pairs(d);
            match d {
                ImmediateDataView::Value(b) => {
                    lemma_encode_attribute_len(NFTA_DATA_VALUE, AttrValue::Bytes(b));
                    assert(s.subrange(1, 1) =~= Seq::<(u16, AttrValue)>::empty());
                    assert(spec_encode_pairs(s.subrange(1, 1)) =~= Seq::<u8>::empty());
                    assert(spec_encode_pairs(s).len() == spec_encode_attribute(
                        NFTA_DATA_VALUE,
                        AttrValue::Bytes(b),
                    ).len()) by {
                        assert(spec_encode_pairs(s) =~= spec_encode_attribute(
                            NFTA_DATA_VALUE,
                            AttrValue::Bytes(b),
                        ) + spec_encode_pairs(s.subrange(1, 1)));
                    }
                },
                ImmediateDataView::Verdict(_) => {},
            }
        },
        None => {},
    }
}

/// A verdict whose chain name is bounded as [`ImmediateView::wf`] asks is
/// well formed as immediate data.
pub proof fn lemma_immediate_verdict_wf(v: ImmediateView)
    requires
        match v.data {
            Some(ImmediateDataView::Verdict(vv)) => !(vv is Reject) && (match vv.spec_chain() {
                None => true,
                Some(c) => encode_utf8(c).len() + 32 <= MAX_ATTR_PAYLOAD,
            }),
            Some(ImmediateDataView::Value(_)) => false,
            None => true,
        },
    ensures
        v.wf(),
{
    match v.data {
        Some(ImmediateDataView::Verdict(vv)) => {
            let vp = vv.spec_pairs();
            let code = opt_u32(vv.spec_immediate_code());
            let chain = crate::expr::opt_str(vv.spec_chain());
            lemma_encode_attribute_len(
                crate::expr::verdict::NFTA_VERDICT_CODE,
                AttrValue::U32(vv.spec_immediate_code()->0),
            );
            crate::attribute::lemma_fixed_attr_wf(AttrValue::U32(vv.spec_immediate_code()->0));
            match vv.spec_chain() {
                None => {
                    assert(vp =~= seq![
                        (crate::expr::verdict::NFTA_VERDICT_CODE, AttrValue::U32(vv.spec_immediate_code()->0)),
                    ]);
                    assert(vp.subrange(1, 1) =~= Seq::<(u16, AttrValue)>::empty());
                    assert(spec_encode_pairs(vp.subrange(1, 1)) == Seq::<u8>::empty());
                    assert(spec_encode_pairs(vp) =~= spec_encode_attribute(
                        crate::expr::verdict::NFTA_VERDICT_CODE,
                        AttrValue::U32(vv.spec_immediate_code()->0),
                    ) + spec_encode_pairs(vp.subrange(1, 1)));
                },
                Some(c) => {
                    assert(vp =~= seq![
                        (crate::expr::verdict::NFTA_VERDICT_CODE, AttrValue::U32(vv.spec_immediate_code()->0)),
                        (crate::expr::verdict::NFTA_VERDICT_CHAIN, AttrValue::Str(c)),
                    ]);
                    lemma_attribute_padding(
                        crate::expr::verdict::NFTA_VERDICT_CODE,
                        AttrValue::U32(vv.spec_immediate_code()->0),
                        crate::expr::verdict::NFTA_VERDICT_CHAIN,
                        AttrValue::Str(c),
                    );
                    lemma_encode_attribute_len(crate::expr::verdict::NFTA_VERDICT_CHAIN, AttrValue::Str(c));
                },
            }
            let ds = spec_data_pairs(ImmediateDataView::Verdict(vv));
            lemma_encode_attribute_len(
                NFTA_DATA_VERDICT_TAG,
                AttrValue::Nested(spec_encode_pairs(vp)),
            );
            assert(ds.subrange(1, 1) =~= Seq::<(u16, AttrValue)>::empty());
            assert(spec_encode_pairs(ds.subrange(1, 1)) == Seq::<u8>::empty());
            assert(spec_encode_pairs(ds) =~= spec_encode_attribute(
                NFTA_DATA_VERDICT_TAG,
                AttrValue::Nested(spec_encode_pairs(vp)),
            ) + spec_encode_pairs(ds.subrange(1, 1)));
        },
        _ => {},
    }
}

impl Immediate {
    /// An immediate with no fields set.
    pub fn empty() -> (r: Self)
        ensures
            r@.dreg == None::<Register>,
            r@.data == None::<ImmediateDataView>,
    {
        Immediate { dreg: None, data: None }
    }

    /// Loads a literal value into `register`.
    pub fn new_data(data: Vec<u8>, register: Register) -> (r: Self)
        ensures
            r@.dreg == Some(register),
            r@.data == Some(ImmediateDataView::Value(data@)),
    {
        Immediate { dreg: Some(register), data: Some(ImmediateData::Value(data)) }
    }

    /// Loads a verdict into the verdict register. A rejection has no
    /// immediate form and must travel as its own expression.
    pub fn new_verdict(verdict: Verdict) -> (r: Self)
        requires
            !(verdict@ is Reject),
        ensures
            r@.dreg == Some(Register::Verdict),
            r@.data == Some(ImmediateDataView::Verdict(verdict@)),
    {
        Immediate { dreg: Some(Register::Verdict), data: Some(ImmediateData::Verdict(verdict)) }
    }

    pub fn get_dreg(&self) -> (r: Option<&Register>)
        ensures
            match r {
                Some(x) => self@.dreg == Some(*x),
                None => self@.dreg is None,
            },
    {
        self.dreg.as_ref()
    }

    pub fn get_data(&self) -> (r: Option<&ImmediateData>)
        ensures
            match r {
                Some(d) => self@.data == Some(d@),
                None => self@.data is None,
            },
    {
        self.data.as_ref()
    }

    /// The expression as an attribute set; the data travels as a nested set.
    pub fn to_attrs(&self) -> (r: NfNetlinkAttributes)
        requires
            self@.wf(),
        ensures
            r.wf(),
            r.pairs() == self@.spec_pairs(),
    {
        let mut attrs = NfNetlinkAttributes::new();
        let code_dreg: Option<u32> = match &self.dreg {
            Some(x) => Some(x.code()),
            None => None,
        };
        append_opt_u32(&mut attrs, NFTA_IMMEDIATE_DREG, code_dreg);
        proof {
            assert(opt_u32(code_dreg) == opt_reg(self@.dreg));
        }
        let data_bytes: Option<Vec<u8>> = match &self.data {
            None => None,
            Some(ImmediateData::Value(d)) => {
                let mut inner = NfNetlinkAttributes::new();
                let dv: Option<Vec<u8>> = Some(slice_to_vec(d.as_slice()));
                crate::expr::append_opt_bytes(&mut inner, NFTA_DATA_VALUE, &dv);
                proof {
                    assert(inner.pairs() =~= spec_data_pairs(self@.data->0));
                }
                let mut buf: Vec<u8> = Vec::new();
                inner.serialize(&mut buf);
                Some(buf)
            },
            Some(ImmediateData::Verdict(v)) => {
                let vattrs = v.to_attrs();
                let mut vbuf: Vec<u8> = Vec::new();
                vattrs.serialize(&mut vbuf);
                let mut inner = NfNetlinkAttributes::new();
                let nv: Option<Vec<u8>> = Some(vbuf);
                append_opt_nested(&mut inner, NFTA_DATA_VERDICT_TAG, &nv);
                proof {
                    assert(inner.pairs() =~= spec_data_pairs(self@.data->0));
                }
                let mut buf: Vec<u8> = Vec::new();
                inner.serialize(&mut buf);
                Some(buf)
            },
        };
        append_opt_nested(&mut attrs, NFTA_IMMEDIATE_DATA, &data_bytes);
        proof {
            assert(attrs.pairs() =~= self@.spec_pairs());
        }
        attrs
    }

    /// The expression a decoded attribute set stands for.
    pub fn from_attrs(attrs: &NfNetlinkAttributes) -> (r: Result<Self, DecodeError>)
        ensures
            match r {
                Ok(e) => spec_immediate_from_pairs(attrs.pairs()) == Ok::<
                    ImmediateView,
                    DecodeError,
                >(e@),
                Err(e) => spec_immediate_from_pairs(attrs.pairs()) == Err::<
                    ImmediateView,
                    DecodeError,
                >(e),
            },
    {
        let dreg = match attrs.get_attr(NFTA_IMMEDIATE_DREG) {
            None => None,
            Some(Attribute::U32(x)) => match Register::from_code(*x) {
                Some(v) => Some(v),
                None => {
                    return Err(DecodeError::InvalidAttributeType);
                },
            },
            Some(_) => {
                return Err(DecodeError::InvalidAttributeType);
            },
        };
        let data = match attrs.get_attr(NFTA_IMMEDIATE_DATA) {
            None => None,
            Some(Attribute::Nested(db)) => {
                let reader = match NfNetlinkAttributeReader::new(db.as_slice(), db.len()) {
                    Ok(rd) => rd,
                    Err(e) => {
                        return Err(e);
                    },
                };
                proof {
                    assert(reader.window() =~= db@);
                }
                let ds = match reader.decode::<ImmediateData>() {
                    Ok(ds) => ds,
                    Err(e) => {
                        return Err(e);
                    },
                };
                match Self::decode_data(&ds) {
                    Ok(d) => Some(d),
                    Err(e) => {
                        return Err(e);
                    },
                }
            },
            Some(_) => {
                return Err(DecodeError::InvalidAttributeType);
            },
        };
        Ok(Immediate { dreg, data })
    }

    /// The immediate data a decoded data set stands for.
    fn decode_data(ds: &NfNetlinkAttributes) -> (r: Result<ImmediateData, DecodeError>)
        ensures
            match r {
                Ok(d) => spec_data_from_pairs(ds.pairs()) == Ok::<ImmediateDataView, DecodeError>(
                    d@,
                ),
                Err(e) => spec_data_from_pairs(ds.pairs()) == Err::<ImmediateDataView, DecodeError>(
                    e,
                ),
            },
    {
        let value = ds.get_attr(NFTA_DATA_VALUE);
        let verdict = ds.get_attr(NFTA_DATA_VERDICT_TAG);
        match (value, verdict) {
            (Some(Attribute::Bytes(b)), None) => Ok(
                ImmediateData::Value(slice_to_vec(b.as_slice())),
            ),
            (None, Some(Attribute::Nested(vb))) => {
                let reader = match NfNetlinkAttributeReader::new(vb.as_slice(), vb.len()) {
                    Ok(rd) => rd,
                    Err(e) => {
                        return Err(e);
                    },
                };
                proof {
                    assert(reader.window() =~= vb@);
                }
                let vs = match reader.decode::<Verdict>() {
                    Ok(vs) => vs,
                    Err(e) => {
                        return Err(e);
                    },
                };
                match Verdict::from_attrs(&vs) {
                    Ok(v) => Ok(ImmediateData::Verdict(v)),
                    Err(e) => Err(e),
                }
            },
            _ => Err(DecodeError::InvalidAttributeType),
        }
    }
}

/// Law: an immediate expression decodes back from its own attribute pairs,
/// through both nesting levels.
#[verifier::rlimit(60)]
#[verifier::spinoff_prover]
pub proof fn lemma_immediate_round_trip(v: ImmediateView)
    requires
        v.wf(),
    ensures
        spec_immediate_from_pairs(v.spec_pairs()) == Ok::<ImmediateView, DecodeError>(v),
{
    let dregv = opt_reg(v.dreg);
    let datav = match v.data {
        None => None,
        Some(d) => Some(AttrValue::Nested(spec_encode_pairs(spec_data_pairs(d)))),
    };
    let tail = opt_pair(NFTA_IMMEDIATE_DATA, datav);
    let empty = Seq::<(u16, AttrValue)>::empty();
    assert(opt_pair(NFTA_IMMEDIATE_DATA, datav) + empty =~= tail);
    assert(spec_lookup(empty, NFTA_IMMEDIATE_DREG) == None::<AttrValue>);
    assert(spec_lookup(empty, NFTA_IMMEDIATE_DATA) == None::<AttrValue>);
    crate::expr::lemma_lookup_opt_head(NFTA_IMMEDIATE_DREG, dregv, tail, NFTA_IMMEDIATE_DREG);
    crate::expr::lemma_lookup_opt_head(NFTA_IMMEDIATE_DREG, dregv, tail, NFTA_IMMEDIATE_DATA);
    crate::expr::lemma_lookup_opt_head(NFTA_IMMEDIATE_DATA, datav, empty, NFTA_IMMEDIATE_DREG);
    crate::expr::lemma_lookup_opt_head(NFTA_IMMEDIATE_DATA, datav, empty, NFTA_IMMEDIATE_DATA);
    if v.dreg is Some {
        crate::expr::lemma_register_code_round_trip(v.dreg->0);
    }
    match v.data {
        None => {},
        Some(d) => {
            let ds = spec_data_pairs(d);
            assert(empty + ds =~= ds);
            match d {
                ImmediateDataView::Value(b) => {},
                ImmediateDataView::Verdict(vv) => {
                    crate::attribute::lemma_fixed_attr_wf(
                        AttrValue::U32(vv.spec_immediate_code()->0),
                    );
                },
            }
            crate::attribute::lemma_attribute_set_round_trip::<ImmediateData>(ds, Seq::empty());
            assert(spec_lookup(ds, NFTA_DATA_VALUE) == (match d {
                ImmediateDataView::Value(b) => Some(AttrValue::Bytes(b)),
                ImmediateDataView::Verdict(_) => None::<AttrValue>,
            })) by {
                assert(ds.subrange(1, 1) =~= Seq::<(u16, AttrValue)>::empty());
                assert(spec_lookup(ds.subrange(1, 1), NFTA_DATA_VALUE) == None::<AttrValue>);
            }
            assert(spec_lookup(ds, NFTA_DATA_VERDICT_TAG) == (match d {
                ImmediateDataView::Value(_) => None::<AttrValue>,
                ImmediateDataView::Verdict(vv) => Some(
                    AttrValue::Nested(spec_encode_pairs(vv.spec_pairs())),
                ),
            })) by {
                assert(ds.subrange(1, 1) =~= Seq::<(u16, AttrValue)>::empty());
                assert(spec_lookup(ds.subrange(1, 1), NFTA_DATA_VERDICT_TAG) == None::<AttrValue>);
            }
            match d {
                ImmediateDataView::Value(b) => {},
                ImmediateDataView::Verdict(vv) => {
                    let vp = vv.spec_pairs();
                    assert(Seq::<(u16, AttrValue)>::empty() + vp =~= vp);
                    assert(crate::attribute::spec_pairs_wf(vp)) by {
                        crate::attribute::lemma_fixed_attr_wf(
                            AttrValue::U32(vv.spec_immediate_code()->0),
                        );
                    }
                    assert(forall|i: int|
                        0 <= i < vp.len() ==> <Verdict as crate::nlmsg::AttributeDecoder>::spec_attr_kind(
                            (#[trigger] vp[i]).0,
                        ) == crate::attribute::spec_kind_of(vp[i].1));
                    crate::attribute::lemma_attribute_set_round_trip::<Verdict>(vp, Seq::empty());
                    crate::expr::verdict::lemma_verdict_round_trip(vv);
                },
            }
        },
    }
}

impl crate::nlmsg::AttributeDecoder for Immediate {
    open spec fn spec_attr_kind(ty: u16) -> AttrKind {
        if ty == NFTA_IMMEDIATE_DREG {
            AttrKind::U32
        } else if ty == NFTA_IMMEDIATE_DATA {
            AttrKind::Nested
        } else {
            AttrKind::Unknown
        }
    }

    fn decode_attribute(ty: NetlinkType, buf: &[u8]) -> (r: Result<Attribute, DecodeError>) {
        let kind = if ty == NFTA_IMMEDIATE_DREG {
            AttrKind::U32
        } else if ty == NFTA_IMMEDIATE_DATA {
            AttrKind::Nested
        } else {
            AttrKind::Unknown
        };
        decode_typed_attribute(kind, ty, buf)
    }
}

impl crate::nlmsg::AttributeDecoder for ImmediateData {
    open spec fn spec_attr_kind(ty: u16) -> AttrKind {
        if ty == NFTA_DATA_VALUE {
            AttrKind::Bytes
        } else if ty == NFTA_DATA_VERDICT_TAG {
            AttrKind::Nested
        } else {
            AttrKind::Unknown
        }
    }

    fn decode_attribute(ty: NetlinkType, buf: &[u8]) -> (r: Result<Attribute, DecodeError>) {
        let kind = if ty == NFTA_DATA_VALUE {
            AttrKind::Bytes
        } else if ty == NFTA_DATA_VERDICT_TAG {
            AttrKind::Nested
        } else {
            AttrKind::Unknown
        };
        decode_typed_attribute(kind, ty, buf)
    }
}

impl Expression for Immediate {
    open spec fn spec_name() -> Seq<char> {
        "immediate"@
    }

    fn get_name() -> (r: &'static str) {
        proof {
            reveal_strlit("immediate");
            assert(vstd::string::is_ascii("immediate"));
            vstd::string::is_ascii_spec_bytes("immediate");
        }
        "immediate"
    }
}

} // verus!
