//! The expression model: typed match/action primitives that serialize to
//! named nested attribute sets inside a rule.
//!
//! Each expression kind is a struct of optional fields; every field maps to
//! one attribute tag, and an expression's attribute pairs are the present
//! fields in ascending tag order. Encoding and decoding are exact inverses,
//! proved per kind over the kind's mathematical view.

use vstd::prelude::*;
use vstd::bytes::*;

use vstd::bytes::spec_u16_from_le_bytes;

use crate::attribute::{
    AttrKind, Attribute, AttrValue, MAX_ATTR_PAYLOAD, NLA_TYPE_MASK, NfNetlinkAttributeReader,
    NfNetlinkAttributes, SerializeNfNetlink, lemma_encode_attribute_len, lemma_fixed_attr_wf,
    lemma_insert_append, spec_decode_attrs, spec_encode_attribute, spec_encode_pairs, spec_lookup,
    write_attribute,
};
use crate::error::DecodeError;

pub mod bitwise;
pub mod byteorder;
pub mod cmp;
pub mod counter;
pub mod ct;
pub mod exthdr;
pub mod immediate;
pub mod masquerade;
pub mod meta;
pub mod nat_expr;
pub mod payload;
pub mod reject;
pub mod rt;
pub mod verdict;

verus! {

/// A netfilter register: the verdict register or one of the four general
/// 128-bit data registers.
#[derive(Debug, Clone, Copy, PartialEq, Eq, Structural)]
pub enum Register {
    Verdict,
    Reg1,
    Reg2,
    Reg3,
    Reg4,
}

impl Register {
    pub open spec fn spec_code(self) -> u32 {
        match self {
            Register::Verdict => 0,
            Register::Reg1 => 1,
            Register::Reg2 => 2,
            Register::Reg3 => 3,
            Register::Reg4 => 4,
        }
    }

    pub fn code(self) -> (r: u32)
        ensures
            r == self.spec_code(),
    {
        match self {
            Register::Verdict => 0,
            Register::Reg1 => 1,
            Register::Reg2 => 2,
            Register::Reg3 => 3,
            Register::Reg4 => 4,
        }
    }

    pub open spec fn spec_from_code(code: u32) -> Option<Register> {
        if code == 0 {
            Some(Register::Verdict)
        } else if code == 1 {
            Some(Register::Reg1)
        } else if code == 2 {
            Some(Register::Reg2)
        } else if code == 3 {
            Some(Register::Reg3)
        } else if code == 4 {
            Some(Register::Reg4)
        } else {
            None
        }
    }

    pub fn from_code(code: u32) -> (r: Option<Register>)
        ensures
            r == Self::spec_from_code(code),
    {
        if code == 0 {
            Some(Register::Verdict)
        } else if code == 1 {
            Some(Register::Reg1)
        } else if code == 2 {
            Some(Register::Reg2)
        } else if code == 3 {
            Some(Register::Reg3)
        } else if code == 4 {
            Some(Register::Reg4)
        } else {
            None
        }
    }
}

/// Every register round-trips through its wire code.
pub proof fn lemma_register_code_round_trip(r: Register)
    ensures
        Register::spec_from_code(r.spec_code()) == Some(r),
{
}

/// An expression kind: a wire name under which its attribute set is carried
/// inside a rule's expression list.
pub trait Expression: Sized {
    /// The kind's wire name.
    spec fn spec_name() -> Seq<char>;

    fn get_name() -> (r: &'static str)
        ensures
            r@ == Self::spec_name(),
            vstd::utf8::encode_utf8(Self::spec_name()).len() <= 32,
    ;
}

/// The attribute pair an optional field contributes: nothing when absent.
pub open spec fn opt_pair(t: u16, o: Option<AttrValue>) -> Seq<(u16, AttrValue)> {
    match o {
        None => Seq::empty(),
        Some(v) => seq![(t, v)],
    }
}

pub open spec fn opt_u32(o: Option<u32>) -> Option<AttrValue> {
    match o {
        None => None,
        Some(x) => Some(AttrValue::U32(x)),
    }
}

pub open spec fn opt_u8(o: Option<u8>) -> Option<AttrValue> {
    match o {
        None => None,
        Some(x) => Some(AttrValue::U8(x)),
    }
}

pub open spec fn opt_u64(o: Option<u64>) -> Option<AttrValue> {
    match o {
        None => None,
        Some(x) => Some(AttrValue::U64(x)),
    }
}

pub open spec fn opt_bytes(o: Option<Seq<u8>>) -> Option<AttrValue> {
    match o {
        None => None,
        Some(b) => Some(AttrValue::Bytes(b)),
    }
}

pub open spec fn opt_reg(o: Option<Register>) -> Option<AttrValue> {
    match o {
        None => None,
        Some(r) => Some(AttrValue::U32(r.spec_code())),
    }
}

pub open spec fn opt_proto(o: Option<crate::ProtocolFamily>) -> Option<AttrValue> {
    match o {
        None => None,
        Some(f) => Some(AttrValue::ProtoFamily(f)),
    }
}

pub open spec fn opt_str(o: Option<Seq<char>>) -> Option<AttrValue> {
    match o {
        None => None,
        Some(s) => Some(AttrValue::Str(s)),
    }
}

pub open spec fn opt_nested(o: Option<Seq<u8>>) -> Option<AttrValue> {
    match o {
        None => None,
        Some(b) => Some(AttrValue::Nested(b)),
    }
}

/// Appends one optional 32-bit field behind every present key.
pub fn append_opt_u32(attrs: &mut NfNetlinkAttributes, tag: u16, o: Option<u32>)
    requires
        old(attrs).wf(),
        tag <= NLA_TYPE_MASK,
        forall|i: int|
            0 <= i < old(attrs).pairs().len() ==> (#[trigger] old(attrs).pairs()[i]).0 < tag,
    ensures
        final(attrs).wf(),
        final(attrs).pairs() == old(attrs).pairs() + opt_pair(tag, opt_u32(o)),
        forall|i: int|
            0 <= i < final(attrs).pairs().len() ==> (#[trigger] final(attrs).pairs()[i]).0 <= tag,
{
    let ghost p = attrs.pairs();
    if let Some(x) = o {
        proof {
            lemma_fixed_attr_wf(AttrValue::U32(x));
        }
        attrs.set_attr(tag, Attribute::U32(x));
        proof {
            lemma_insert_append(p, tag, AttrValue::U32(x));
        }
    }
    proof {
        assert(attrs.pairs() =~= p + opt_pair(tag, opt_u32(o)));
    }
}

/// Appends one optional 8-bit field behind every present key.
pub fn append_opt_u8(attrs: &mut NfNetlinkAttributes, tag: u16, o: Option<u8>)
    requires
        old(attrs).wf(),
        tag <= NLA_TYPE_MASK,
        forall|i: int|
            0 <= i < old(attrs).pairs().len() ==> (#[trigger] old(attrs).pairs()[i]).0 < tag,
    ensures
        final(attrs).wf(),
        final(attrs).pairs() == old(attrs).pairs() + opt_pair(tag, opt_u8(o)),
        forall|i: int|
            0 <= i < final(attrs).pairs().len() ==> (#[trigger] final(attrs).pairs()[i]).0 <= tag,
{
    let ghost p = attrs.pairs();
    if let Some(x) = o {
        proof {
            lemma_fixed_attr_wf(AttrValue::U8(x));
        }
        attrs.set_attr(tag, Attribute::U8(x));
        proof {
            lemma_insert_append(p, tag, AttrValue::U8(x));
        }
    }
    proof {
        assert(attrs.pairs() =~= p + opt_pair(tag, opt_u8(o)));
    }
}

/// Appends one optional 64-bit field behind every present key.
pub fn append_opt_u64(attrs: &mut NfNetlinkAttributes, tag: u16, o: Option<u64>)
    requires
        old(attrs).wf(),
        tag <= NLA_TYPE_MASK,
        forall|i: int|
            0 <= i < old(attrs).pairs().len() ==> (#[trigger] old(attrs).pairs()[i]).0 < tag,
    ensures
        final(attrs).wf(),
        final(attrs).pairs() == old(attrs).pairs() + opt_pair(tag, opt_u64(o)),
        forall|i: int|
            0 <= i < final(attrs).pairs().len() ==> (#[trigger] final(attrs).pairs()[i]).0 <= tag,
{
    let ghost p = attrs.pairs();
    if let Some(x) = o {
        proof {
            lemma_fixed_attr_wf(AttrValue::U64(x));
        }
        attrs.set_attr(tag, Attribute::U64(x));
        proof {
            lemma_insert_append(p, tag, AttrValue::U64(x));
        }
    }
    proof {
        assert(attrs.pairs() =~= p + opt_pair(tag, opt_u64(o)));
    }
}

/// Appends one optional byte-string field behind every present key.
pub fn append_opt_bytes(attrs: &mut NfNetlinkAttributes, tag: u16, o: &Option<Vec<u8>>)
    requires
        old(attrs).wf(),
        tag <= NLA_TYPE_MASK,
        match o {
            Some(d) => d@.len() <= MAX_ATTR_PAYLOAD,
            None => true,
        },
        forall|i: int|
            0 <= i < old(attrs).pairs().len() ==> (#[trigger] old(attrs).pairs()[i]).0 < tag,
    ensures
        final(attrs).wf(),
        final(attrs).pairs() == old(attrs).pairs() + opt_pair(
            tag,
            opt_bytes(
                match o {
                    Some(d) => Some(d@),
                    None => None,
                },
            ),
        ),
        forall|i: int|
            0 <= i < final(attrs).pairs().len() ==> (#[trigger] final(attrs).pairs()[i]).0 <= tag,
{
    let ghost p = attrs.pairs();
    let ghost ov = opt_bytes(
        match o {
            Some(d) => Some(d@),
            None => None,
        },
    );
    if let Some(d) = o {
        attrs.set_attr(tag, Attribute::Bytes(vstd::slice::slice_to_vec(d.as_slice())));
        proof {
            lemma_insert_append(p, tag, AttrValue::Bytes(d@));
        }
    }
    proof {
        assert(attrs.pairs() =~= p + opt_pair(tag, ov));
    }
}

/// Appends one optional protocol-family field behind every present key.
pub fn append_opt_proto(
    attrs: &mut NfNetlinkAttributes,
    tag: u16,
    o: Option<crate::ProtocolFamily>,
)
    requires
        old(attrs).wf(),
        tag <= NLA_TYPE_MASK,
        forall|i: int|
            0 <= i < old(attrs).pairs().len() ==> (#[trigger] old(attrs).pairs()[i]).0 < tag,
    ensures
        final(attrs).wf(),
        final(attrs).pairs() == old(attrs).pairs() + opt_pair(tag, opt_proto(o)),
        forall|i: int|
            0 <= i < final(attrs).pairs().len() ==> (#[trigger] final(attrs).pairs()[i]).0 <= tag,
{
    let ghost p = attrs.pairs();
    if let Some(x) = o {
        proof {
            lemma_fixed_attr_wf(AttrValue::ProtoFamily(x));
        }
        attrs.set_attr(tag, Attribute::ProtoFamily(x));
        proof {
            lemma_insert_append(p, tag, AttrValue::ProtoFamily(x));
        }
    }
    proof {
        assert(attrs.pairs() =~= p + opt_pair(tag, opt_proto(o)));
    }
}

/// Appends one optional text field behind every present key.
pub fn append_opt_str(attrs: &mut NfNetlinkAttributes, tag: u16, o: &Option<String>)
    requires
        old(attrs).wf(),
        tag <= NLA_TYPE_MASK,
        match o {
            Some(s) => vstd::utf8::encode_utf8(s@).len() <= MAX_ATTR_PAYLOAD,
            None => true,
        },
        forall|i: int|
            0 <= i < old(attrs).pairs().len() ==> (#[trigger] old(attrs).pairs()[i]).0 < tag,
    ensures
        final(attrs).wf(),
        final(attrs).pairs() == old(attrs).pairs() + opt_pair(
            tag,
            opt_str(
                match o {
                    Some(s) => Some(s@),
                    None => None,
                },
            ),
        ),
        forall|i: int|
            0 <= i < final(attrs).pairs().len() ==> (#[trigger] final(attrs).pairs()[i]).0 <= tag,
{
    let ghost p = attrs.pairs();
    let ghost ov = opt_str(
        match o {
            Some(s) => Some(s@),
            None => None,
        },
    );
    if let Some(s) = o {
        attrs.set_attr(tag, Attribute::Str(s.clone()));
        proof {
            lemma_insert_append(p, tag, AttrValue::Str(s@));
        }
    }
    proof {
        assert(attrs.pairs() =~= p + opt_pair(tag, ov));
    }
}

/// Appends one optional nested-set field behind every present key.
pub fn append_opt_nested(attrs: &mut NfNetlinkAttributes, tag: u16, o: &Option<Vec<u8>>)
    requires
        old(attrs).wf(),
        tag <= NLA_TYPE_MASK,
        match o {
            Some(d) => d@.len() <= MAX_ATTR_PAYLOAD,
            None => true,
        },
        forall|i: int|
            0 <= i < old(attrs).pairs().len() ==> (#[trigger] old(attrs).pairs()[i]).0 < tag,
    ensures
        final(attrs).wf(),
        final(attrs).pairs() == old(attrs).pairs() + opt_pair(
            tag,
            opt_nested(
                match o {
                    Some(d) => Some(d@),
                    None => None,
                },
            ),
        ),
        forall|i: int|
            0 <= i < final(attrs).pairs().len() ==> (#[trigger] final(attrs).pairs()[i]).0 <= tag,
{
    let ghost p = attrs.pairs();
    let ghost ov = opt_nested(
        match o {
            Some(d) => Some(d@),
            None => None,
        },
    );
    if let Some(d) = o {
        attrs.set_attr(tag, Attribute::Nested(vstd::slice::slice_to_vec(d.as_slice())));
        proof {
            lemma_insert_append(p, tag, AttrValue::Nested(d@));
        }
    }
    proof {
        assert(attrs.pairs() =~= p + opt_pair(tag, ov));
    }
}

/// Looking a tag up in an optional-field chain: the head field answers for
/// its own tag, everything else passes to the rest.
pub proof fn lemma_lookup_opt_head(
    t: u16,
    o: Option<AttrValue>,
    rest: Seq<(u16, AttrValue)>,
    q: u16,
)
    ensures
        q == t ==> spec_lookup(opt_pair(t, o) + rest, q) == (match o {
            Some(v) => Some(v),
            None => spec_lookup(rest, q),
        }),
        q != t ==> spec_lookup(opt_pair(t, o) + rest, q) == spec_lookup(rest, q),
{
    match o {
        None => {
            assert(opt_pair(t, o) + rest =~= rest);
        },
        Some(v) => {
            let s = opt_pair(t, o) + rest;
            assert(s.len() == 1 + rest.len());
            assert(s[0] == (t, v));
            assert(s.subrange(1, s.len() as int) =~= rest);
        },
    }
}

/// Compares two byte slices.
pub fn slice_eq(a: &[u8], b: &[u8]) -> (r: bool)
    ensures
        r == (a@ == b@),
{
    let n = a.len();
    if n != b.len() {
        proof {
            assert(a@.len() != b@.len());
        }
        return false;
    }
    let mut i: usize = 0;
    while i < n
        invariant
            0 <= i <= n,
            n == a@.len() && n == b@.len(),
            forall|k: int| 0 <= k < i ==> a@[k] == b@[k],
        decreases n - i,
    {
        if a[i] != b[i] {
            return false;
        }
        i = i + 1;
    }
    proof {
        assert(a@ =~= b@);
    }
    true
}

/// Compares two strings by their UTF-8 bytes.
pub fn str_eq(a: &str, b: &str) -> (r: bool)
    ensures
        r == (a@ == b@),
{
    let r = slice_eq(a.as_bytes(), b.as_bytes());
    proof {
        vstd::utf8::encode_utf8_decode_utf8(a@);
        vstd::utf8::encode_utf8_decode_utf8(b@);
    }
    r
}


/// Tag of one expression element inside a rule's expression list.
pub const NFTA_LIST_ELEM: u16 = 1;

/// Tags of an expression element's name and body.
pub const NFTA_EXPR_NAME: u16 = 1;

pub const NFTA_EXPR_DATA: u16 = 2;

/// The closed set of expression kinds.
#[derive(Debug, Clone)]
pub enum ExpressionVariant {
    Bitwise(bitwise::Bitwise),
    Byteorder(byteorder::Byteorder),
    Cmp(cmp::Cmp),
    Conntrack(ct::Conntrack),
    Counter(counter::Counter),
    ExtHdr(exthdr::ExtHdr),
    Immediate(immediate::Immediate),
    Masquerade(masquerade::Masquerade),
    Meta(meta::Meta),
    Nat(nat_expr::Nat),
    Payload(payload::Payload),
    Reject(reject::Reject),
    Rt(rt::Rt),
}

/// Mathematical image of [`ExpressionVariant`].
pub enum ExpressionVariantView {
    Bitwise(bitwise::BitwiseView),
    Byteorder(byteorder::ByteorderView),
    Cmp(cmp::CmpView),
    Conntrack(ct::ConntrackView),
    Counter(counter::CounterView),
    ExtHdr(exthdr::ExtHdrView),
    Immediate(immediate::ImmediateView),
    Masquerade(masquerade::MasqueradeView),
    Meta(meta::MetaView),
    Nat(nat_expr::NatView),
    Payload(payload::PayloadView),
    Reject(reject::RejectView),
    Rt(rt::RtView),
}

impl View for ExpressionVariant {
    type V = ExpressionVariantView;

    open spec fn view(&self) -> ExpressionVariantView {
        match self {
            ExpressionVariant::Bitwise(e) => ExpressionVariantView::Bitwise(e@),
            ExpressionVariant::Byteorder(e) => ExpressionVariantView::Byteorder(e@),
            ExpressionVariant::Cmp(e) => ExpressionVariantView::Cmp(e@),
            ExpressionVariant::Conntrack(e) => ExpressionVariantView::Conntrack(e@),
            ExpressionVariant::Counter(e) => ExpressionVariantView::Counter(e@),
            ExpressionVariant::ExtHdr(e) => ExpressionVariantView::ExtHdr(e@),
            ExpressionVariant::Immediate(e) => ExpressionVariantView::Immediate(e@),
            ExpressionVariant::Masquerade(e) => ExpressionVariantView::Masquerade(e@),
            ExpressionVariant::Meta(e) => ExpressionVariantView::Meta(e@),
            ExpressionVariant::Nat(e) => ExpressionVariantView::Nat(e@),
            ExpressionVariant::Payload(e) => ExpressionVariantView::Payload(e@),
            ExpressionVariant::Reject(e) => ExpressionVariantView::Reject(e@),
            ExpressionVariant::Rt(e) => ExpressionVariantView::Rt(e@),
        }
    }
}

/// The expression a verdict becomes: most verdicts travel as an immediate
/// load into the verdict register; a rejection is a distinct wire expression
/// answering with an ICMP(X) host-unreachable message.
impl verdict::Verdict {
    pub fn to_expr(&self) -> (r: ExpressionVariant)
        ensures
            r@ == (if self@ is Reject {
                ExpressionVariantView::Reject(
                    reject::RejectView {
                        reject_type: Some(reject::RejectType::IcmpxUnreach),
                        icmp_code: Some(reject::NFT_REJECT_ICMPX_HOST_UNREACH),
                    },
                )
            } else {
                ExpressionVariantView::Immediate(
                    immediate::ImmediateView {
                        dreg: Some(Register::Verdict),
                        data: Some(immediate::ImmediateDataView::Verdict(self@)),
                    },
                )
            }),
    {
        match self {
            verdict::Verdict::Reject => ExpressionVariant::Reject(
                reject::Reject::empty().with_reject_type(reject::RejectType::IcmpxUnreach)
                    .with_icmp_code(reject::NFT_REJECT_ICMPX_HOST_UNREACH),
            ),
            _ => ExpressionVariant::Immediate(
                immediate::Immediate::new_verdict(self.clone_verdict()),
            ),
        }
    }

    /// A copy of the verdict.
    pub fn clone_verdict(&self) -> (r: Self)
        ensures
            r@ == self@,
    {
        match self {
            verdict::Verdict::Drop => verdict::Verdict::Drop,
            verdict::Verdict::Accept => verdict::Verdict::Accept,
            verdict::Verdict::Reject => verdict::Verdict::Reject,
            verdict::Verdict::Queue => verdict::Verdict::Queue,
            verdict::Verdict::Continue => verdict::Verdict::Continue,
            verdict::Verdict::Break => verdict::Verdict::Break,
            verdict::Verdict::Jump { chain } => verdict::Verdict::Jump { chain: chain.clone() },
            verdict::Verdict::Goto { chain } => verdict::Verdict::Goto { chain: chain.clone() },
            verdict::Verdict::Return => verdict::Verdict::Return,
        }
    }
}

/// The wire name of an expression kind.
pub open spec fn spec_expr_name(v: ExpressionVariantView) -> Seq<char> {
    match v {
        ExpressionVariantView::Bitwise(_) => bitwise::Bitwise::spec_name(),
        ExpressionVariantView::Byteorder(_) => byteorder::Byteorder::spec_name(),
        ExpressionVariantView::Cmp(_) => cmp::Cmp::spec_name(),
        ExpressionVariantView::Conntrack(_) => ct::Conntrack::spec_name(),
        ExpressionVariantView::Counter(_) => counter::Counter::spec_name(),
        ExpressionVariantView::ExtHdr(_) => exthdr::ExtHdr::spec_name(),
        ExpressionVariantView::Immediate(_) => immediate::Immediate::spec_name(),
        ExpressionVariantView::Masquerade(_) => masquerade::Masquerade::spec_name(),
        ExpressionVariantView::Meta(_) => meta::Meta::spec_name(),
        ExpressionVariantView::Nat(_) => nat_expr::Nat::spec_name(),
        ExpressionVariantView::Payload(_) => payload::Payload::spec_name(),
        ExpressionVariantView::Reject(_) => reject::Reject::spec_name(),
        ExpressionVariantView::Rt(_) => rt::Rt::spec_name(),
    }
}

/// The attribute pairs of an expression's body.
pub open spec fn spec_expr_pairs(v: ExpressionVariantView) -> Seq<(u16, AttrValue)> {
    match v {
        ExpressionVariantView::Bitwise(e) => e.spec_pairs(),
        ExpressionVariantView::Byteorder(e) => e.spec_pairs(),
        ExpressionVariantView::Cmp(e) => e.spec_pairs(),
        ExpressionVariantView::Conntrack(e) => e.spec_pairs(),
        ExpressionVariantView::Counter(e) => e.spec_pairs(),
        ExpressionVariantView::ExtHdr(e) => e.spec_pairs(),
        ExpressionVariantView::Immediate(e) => e.spec_pairs(),
        ExpressionVariantView::Masquerade(e) => e.spec_pairs(),
        ExpressionVariantView::Meta(e) => e.spec_pairs(),
        ExpressionVariantView::Nat(e) => e.spec_pairs(),
        ExpressionVariantView::Payload(e) => e.spec_pairs(),
        ExpressionVariantView::Reject(e) => e.spec_pairs(),
        ExpressionVariantView::Rt(e) => e.spec_pairs(),
    }
}

/// Well-formedness of an expression's body.
pub open spec fn spec_expr_wf(v: ExpressionVariantView) -> bool {
    match v {
        ExpressionVariantView::Bitwise(e) => e.wf(),
        ExpressionVariantView::Byteorder(e) => e.wf(),
        ExpressionVariantView::Cmp(e) => e.wf(),
        ExpressionVariantView::Conntrack(e) => e.wf(),
        ExpressionVariantView::Counter(e) => e.wf(),
        ExpressionVariantView::ExtHdr(e) => e.wf(),
        ExpressionVariantView::Immediate(e) => e.wf(),
        ExpressionVariantView::Masquerade(e) => e.wf(),
        ExpressionVariantView::Meta(e) => e.wf(),
        ExpressionVariantView::Nat(e) => e.wf(),
        ExpressionVariantView::Payload(e) => e.wf(),
        ExpressionVariantView::Reject(e) => e.wf(),
        ExpressionVariantView::Rt(e) => e.wf(),
    }
}

/// An expression fits one list element: its body is well formed and the
/// body's encoding leaves room for the element framing.
pub open spec fn spec_expr_elem_wf(v: ExpressionVariantView) -> bool {
    &&& spec_expr_wf(v)
    &&& spec_encode_pairs(spec_expr_pairs(v)).len() + 64 <= MAX_ATTR_PAYLOAD
}

/// The pairs of one expression element: its name, then its body as a nested
/// set.
pub open spec fn spec_elem_pairs(v: ExpressionVariantView) -> Seq<(u16, AttrValue)> {
    seq![
        (NFTA_EXPR_NAME, AttrValue::Str(spec_expr_name(v))),
        (NFTA_EXPR_DATA, AttrValue::Nested(spec_encode_pairs(spec_expr_pairs(v)))),
    ]
}

/// One encoded expression element.
pub open spec fn spec_encode_expr(v: ExpressionVariantView) -> Seq<u8> {
    spec_encode_attribute(
        NFTA_LIST_ELEM,
        AttrValue::Nested(spec_encode_pairs(spec_elem_pairs(v))),
    )
}

/// An encoded expression list: the elements in order, each at the previous
/// one's padded end.
pub open spec fn spec_encode_exprs(vs: Seq<ExpressionVariantView>) -> Seq<u8>
    decreases vs.len(),
{
    if vs.len() == 0 {
        Seq::empty()
    } else {
        spec_encode_expr(vs[0]) + spec_encode_exprs(vs.subrange(1, vs.len() as int))
    }
}

/// Encoding a list ends with its last element's encoding.
pub proof fn lemma_encode_exprs_snoc(vs: Seq<ExpressionVariantView>)
    requires
        vs.len() > 0,
    ensures
        spec_encode_exprs(vs) == spec_encode_exprs(vs.subrange(0, vs.len() - 1))
            + spec_encode_expr(vs[vs.len() - 1]),
    decreases vs.len(),
{
    let n = vs.len() as int;
    if n == 1 {
        assert(vs.subrange(0, 0) =~= Seq::<ExpressionVariantView>::empty());
        assert(spec_encode_exprs(vs.subrange(1, 1)) =~= Seq::<u8>::empty());
        assert(spec_encode_exprs(vs) =~= spec_encode_exprs(vs.subrange(0, 0)) + spec_encode_expr(
            vs[0],
        ));
    } else {
        let tail = vs.subrange(1, n);
        lemma_encode_exprs_snoc(tail);
        assert(tail.subrange(0, n - 2) =~= vs.subrange(1, n - 1));
        assert(tail[n - 2] == vs[n - 1]);
        let front = vs.subrange(0, n - 1);
        assert(front.subrange(1, n - 1) =~= vs.subrange(1, n - 1));
        assert(front[0] == vs[0]);
        assert(spec_encode_exprs(vs) =~= spec_encode_exprs(vs.subrange(0, n - 1))
            + spec_encode_expr(vs[n - 1]));
    }
}

/// The views of a list of expressions.
pub open spec fn spec_exprs_views(s: Seq<ExpressionVariant>) -> Seq<ExpressionVariantView> {
    Seq::new(s.len(), |i: int| s[i]@)
}

impl ExpressionVariant {
    /// The wire name of this expression's kind.
    pub fn name(&self) -> (r: &'static str)
        ensures
            r@ == spec_expr_name(self@),
            vstd::utf8::encode_utf8(spec_expr_name(self@)).len() <= 32,
    {
        match self {
            ExpressionVariant::Bitwise(_) => bitwise::Bitwise::get_name(),
            ExpressionVariant::Byteorder(_) => byteorder::Byteorder::get_name(),
            ExpressionVariant::Cmp(_) => cmp::Cmp::get_name(),
            ExpressionVariant::Conntrack(_) => ct::Conntrack::get_name(),
            ExpressionVariant::Counter(_) => counter::Counter::get_name(),
            ExpressionVariant::ExtHdr(_) => exthdr::ExtHdr::get_name(),
            ExpressionVariant::Immediate(_) => immediate::Immediate::get_name(),
            ExpressionVariant::Masquerade(_) => masquerade::Masquerade::get_name(),
            ExpressionVariant::Meta(_) => meta::Meta::get_name(),
            ExpressionVariant::Nat(_) => nat_expr::Nat::get_name(),
            ExpressionVariant::Payload(_) => payload::Payload::get_name(),
            ExpressionVariant::Reject(_) => reject::Reject::get_name(),
            ExpressionVariant::Rt(_) => rt::Rt::get_name(),
        }
    }

    /// The expression's body as an attribute set.
    pub fn to_attrs(&self) -> (r: NfNetlinkAttributes)
        requires
            spec_expr_wf(self@),
        ensures
            r.wf(),
            r.pairs() == spec_expr_pairs(self@),
    {
        match self {
            ExpressionVariant::Bitwise(e) => e.to_attrs(),
            ExpressionVariant::Byteorder(e) => e.to_attrs(),
            ExpressionVariant::Cmp(e) => e.to_attrs(),
            ExpressionVariant::Conntrack(e) => e.to_attrs(),
            ExpressionVariant::Counter(e) => e.to_attrs(),
            ExpressionVariant::ExtHdr(e) => e.to_attrs(),
            ExpressionVariant::Immediate(e) => e.to_attrs(),
            ExpressionVariant::Masquerade(e) => e.to_attrs(),
            ExpressionVariant::Meta(e) => e.to_attrs(),
            ExpressionVariant::Nat(e) => e.to_attrs(),
            ExpressionVariant::Payload(e) => e.to_attrs(),
            ExpressionVariant::Reject(e) => e.to_attrs(),
            ExpressionVariant::Rt(e) => e.to_attrs(),
        }
    }

    /// Appends this expression as one encoded list element.
    #[verifier::rlimit(60)]
    #[verifier::spinoff_prover]
    pub fn write_expr(&self, out: &mut Vec<u8>)
        requires
            spec_expr_elem_wf(self@),
        ensures
            final(out)@ == old(out)@ + spec_encode_expr(self@),
    {
        let attrs = self.to_attrs();
        let mut data: Vec<u8> = Vec::new();
        attrs.serialize(&mut data);
        let name_s = self.name();
        let mut elem = NfNetlinkAttributes::new();
        let ghost p0 = elem.pairs();
        elem.set_attr(NFTA_EXPR_NAME, Attribute::Str(name_s.to_owned()));
        proof {
            lemma_insert_append(p0, NFTA_EXPR_NAME, AttrValue::Str(name_s@));
        }
        let ghost p1 = elem.pairs();
        elem.set_attr(NFTA_EXPR_DATA, Attribute::Nested(data));
        proof {
            lemma_insert_append(p1, NFTA_EXPR_DATA, AttrValue::Nested(
                spec_encode_pairs(spec_expr_pairs(self@)),
            ));
            assert(elem.pairs() =~= spec_elem_pairs(self@));
        }
        let mut ebytes: Vec<u8> = Vec::new();
        elem.serialize(&mut ebytes);
        proof {
            lemma_encode_attribute_len(NFTA_EXPR_NAME, AttrValue::Str(spec_expr_name(self@)));
            lemma_encode_attribute_len(
                NFTA_EXPR_DATA,
                AttrValue::Nested(spec_encode_pairs(spec_expr_pairs(self@))),
            );
            let ep = spec_elem_pairs(self@);
            assert(ep.subrange(1, 2) =~= seq![ep[1]]);
            assert(seq![ep[1]].subrange(1, 1) =~= Seq::<(u16, AttrValue)>::empty());
            assert(spec_encode_pairs(Seq::<(u16, AttrValue)>::empty()) == Seq::<u8>::empty());
            assert(spec_encode_pairs(seq![ep[1]]) =~= spec_encode_attribute(ep[1].0, ep[1].1));
            assert(spec_encode_pairs(ep) =~= spec_encode_attribute(ep[0].0, ep[0].1)
                + spec_encode_pairs(ep.subrange(1, 2)));
        }
        write_attribute(NFTA_LIST_ELEM, &Attribute::Nested(ebytes), out);
    }
}

/// Appends a whole expression list.
#[verifier::rlimit(60)]
#[verifier::spinoff_prover]
pub fn write_exprs(exprs: &Vec<ExpressionVariant>, out: &mut Vec<u8>)
    requires
        forall|i: int|
            0 <= i < exprs@.len() ==> spec_expr_elem_wf(#[trigger] spec_exprs_views(exprs@)[i]),
    ensures
        final(out)@ == old(out)@ + spec_encode_exprs(spec_exprs_views(exprs@)),
{
    let ghost vs = spec_exprs_views(exprs@);
    let ghost out0 = out@;
    let n = exprs.len();
    let mut i: usize = 0;
    while i < n
        invariant
            0 <= i <= n,
            n == exprs@.len(),
            vs == spec_exprs_views(exprs@),
            forall|k: int| 0 <= k < n ==> spec_expr_elem_wf(#[trigger] vs[k]),
            out@ == out0 + spec_encode_exprs(vs.subrange(0, i as int)),
        decreases n - i,
    {
        proof {
            assert(vs[i as int] == exprs@[i as int]@);
        }
        exprs[i].write_expr(out);
        proof {
            lemma_encode_exprs_snoc(vs.subrange(0, i + 1));
            assert(vs.subrange(0, i + 1).subrange(0, i as int) =~= vs.subrange(0, i as int));
            assert(vs.subrange(0, i + 1)[i as int] == vs[i as int]);
            assert(out@ =~= out0 + spec_encode_exprs(vs.subrange(0, i + 1)));
        }
        i = i + 1;
    }
    proof {
        assert(vs.subrange(0, n as int) =~= vs);
    }
}

/// The expression a kind name and body bytes stand for; an unrecognized name
/// is rejected.
pub open spec fn spec_decode_expr(name: Seq<char>, b: Seq<u8>) -> Result<
    ExpressionVariantView,
    DecodeError,
> {
    if name == bitwise::Bitwise::spec_name() {
        match spec_decode_attrs::<bitwise::Bitwise>(b, Seq::empty()) {
            Err(e) => Err(e),
            Ok(s) => match bitwise::spec_bitwise_from_pairs(s) {
                Ok(v) => Ok(ExpressionVariantView::Bitwise(v)),
                Err(e) => Err(e),
            },
        }
    } else if name == byteorder::Byteorder::spec_name() {
        match spec_decode_attrs::<byteorder::Byteorder>(b, Seq::empty()) {
            Err(e) => Err(e),
            Ok(s) => match byteorder::spec_byteorder_from_pairs(s) {
                Ok(v) => Ok(ExpressionVariantView::Byteorder(v)),
                Err(e) => Err(e),
            },
        }
    } else if name == cmp::Cmp::spec_name() {
        match spec_decode_attrs::<cmp::Cmp>(b, Seq::empty()) {
            Err(e) => Err(e),
            Ok(s) => match cmp::spec_cmp_from_pairs(s) {
                Ok(v) => Ok(ExpressionVariantView::Cmp(v)),
                Err(e) => Err(e),
            },
        }
    } else if name == ct::Conntrack::spec_name() {
        match spec_decode_attrs::<ct::Conntrack>(b, Seq::empty()) {
            Err(e) => Err(e),
            Ok(s) => match ct::spec_conntrack_from_pairs(s) {
                Ok(v) => Ok(ExpressionVariantView::Conntrack(v)),
                Err(e) => Err(e),
            },
        }
    } else if name == counter::Counter::spec_name() {
        match spec_decode_attrs::<counter::Counter>(b, Seq::empty()) {
            Err(e) => Err(e),
            Ok(s) => match counter::spec_counter_from_pairs(s) {
                Ok(v) => Ok(ExpressionVariantView::Counter(v)),
                Err(e) => Err(e),
            },
        }
    } else if name == exthdr::ExtHdr::spec_name() {
        match spec_decode_attrs::<exthdr::ExtHdr>(b, Seq::empty()) {
            Err(e) => Err(e),
            Ok(s) => match exthdr::spec_ext_hdr_from_pairs(s) {
                Ok(v) => Ok(ExpressionVariantView::ExtHdr(v)),
                Err(e) => Err(e),
            },
        }
    } else if name == immediate::Immediate::spec_name() {
        match spec_decode_attrs::<immediate::Immediate>(b, Seq::empty()) {
            Err(e) => Err(e),
            Ok(s) => match immediate::spec_immediate_from_pairs(s) {
                Ok(v) => Ok(ExpressionVariantView::Immediate(v)),
                Err(e) => Err(e),
            },
        }
    } else if name == masquerade::Masquerade::spec_name() {
        match spec_decode_attrs::<masquerade::Masquerade>(b, Seq::empty()) {
            Err(e) => Err(e),
            Ok(s) => match masquerade::spec_masquerade_from_pairs(s) {
                Ok(v) => Ok(ExpressionVariantView::Masquerade(v)),
                Err(e) => Err(e),
            },
        }
    } else if name == meta::Meta::spec_name() {
        match spec_decode_attrs::<meta::Meta>(b, Seq::empty()) {
            Err(e) => Err(e),
            Ok(s) => match meta::spec_meta_from_pairs(s) {
                Ok(v) => Ok(ExpressionVariantView::Meta(v)),
                Err(e) => Err(e),
            },
        }
    } else if name == nat_expr::Nat::spec_name() {
        match spec_decode_attrs::<nat_expr::Nat>(b, Seq::empty()) {
            Err(e) => Err(e),
            Ok(s) => match nat_expr::spec_nat_from_pairs(s) {
                Ok(v) => Ok(ExpressionVariantView::Nat(v)),
                Err(e) => Err(e),
            },
        }
    } else if name == payload::Payload::spec_name() {
        match spec_decode_attrs::<payload::Payload>(b, Seq::empty()) {
            Err(e) => Err(e),
            Ok(s) => match payload::spec_payload_from_pairs(s) {
                Ok(v) => Ok(ExpressionVariantView::Payload(v)),
                Err(e) => Err(e),
            },
        }
    } else if name == reject::Reject::spec_name() {
        match spec_decode_attrs::<reject::Reject>(b, Seq::empty()) {
            Err(e) => Err(e),
            Ok(s) => match reject::spec_reject_from_pairs(s) {
                Ok(v) => Ok(ExpressionVariantView::Reject(v)),
                Err(e) => Err(e),
            },
        }
    } else if name == rt::Rt::spec_name() {
        match spec_decode_attrs::<rt::Rt>(b, Seq::empty()) {
            Err(e) => Err(e),
            Ok(s) => match rt::spec_rt_from_pairs(s) {
                Ok(v) => Ok(ExpressionVariantView::Rt(v)),
                Err(e) => Err(e),
            },
        }
    } else {
        Err(DecodeError::UnsupportedAttributeType(NFTA_EXPR_NAME))
    }
}

pub open spec fn expr_result_view(r: Result<ExpressionVariant, DecodeError>) -> Result<
    ExpressionVariantView,
    DecodeError,
> {
    match r {
        Ok(e) => Ok(e@),
        Err(e) => Err(e),
    }
}

/// Reconstructs an expression of the kind `name` names from its body bytes.
pub fn decode_expr(name: &str, data: &[u8]) -> (r: Result<ExpressionVariant, DecodeError>)
    ensures
        expr_result_view(r) == spec_decode_expr(name@, data@),
{
    if str_eq(name, bitwise::Bitwise::get_name()) {
        match decode_expr_body::<bitwise::Bitwise>(data) {
            Ok(s) => match bitwise::Bitwise::from_attrs(&s) {
                Ok(v) => Ok(ExpressionVariant::Bitwise(v)),
                Err(e) => Err(e),
            },
            Err(e) => Err(e),
        }
    } else if str_eq(name, byteorder::Byteorder::get_name()) {
        match decode_expr_body::<byteorder::Byteorder>(data) {
            Ok(s) => match byteorder::Byteorder::from_attrs(&s) {
                Ok(v) => Ok(ExpressionVariant::Byteorder(v)),
                Err(e) => Err(e),
            },
            Err(e) => Err(e),
        }
    } else if str_eq(name, cmp::Cmp::get_name()) {
        match decode_expr_body::<cmp::Cmp>(data) {
            Ok(s) => match cmp::Cmp::from_attrs(&s) {
                Ok(v) => Ok(ExpressionVariant::Cmp(v)),
                Err(e) => Err(e),
            },
            Err(e) => Err(e),
        }
    } else if str_eq(name, ct::Conntrack::get_name()) {
        match decode_expr_body::<ct::Conntrack>(data) {
            Ok(s) => match ct::Conntrack::from_attrs(&s) {
                Ok(v) => Ok(ExpressionVariant::Conntrack(v)),
                Err(e) => Err(e),
            },
            Err(e) => Err(e),
        }
    } else if str_eq(name, counter::Counter::get_name()) {
        match decode_expr_body::<counter::Counter>(data) {
            Ok(s) => match counter::Counter::from_attrs(&s) {
                Ok(v) => Ok(ExpressionVariant::Counter(v)),
                Err(e) => Err(e),
            },
            Err(e) => Err(e),
        }
    } else if str_eq(name, exthdr::ExtHdr::get_name()) {
        match decode_expr_body::<exthdr::ExtHdr>(data) {
            Ok(s) => match exthdr::ExtHdr::from_attrs(&s) {
                Ok(v) => Ok(ExpressionVariant::ExtHdr(v)),
                Err(e) => Err(e),
            },
            Err(e) => Err(e),
        }
    } else if str_eq(name, immediate::Immediate::get_name()) {
        match decode_expr_body::<immediate::Immediate>(data) {
            Ok(s) => match immediate::Immediate::from_attrs(&s) {
                Ok(v) => Ok(ExpressionVariant::Immediate(v)),
                Err(e) => Err(e),
            },
            Err(e) => Err(e),
        }
    } else if str_eq(name, masquerade::Masquerade::get_name()) {
        match decode_expr_body::<masquerade::Masquerade>(data) {
            Ok(s) => match masquerade::Masquerade::from_attrs(&s) {
                Ok(v) => Ok(ExpressionVariant::Masquerade(v)),
                Err(e) => Err(e),
            },
            Err(e) => Err(e),
        }
    } else if str_eq(name, meta::Meta::get_name()) {
        match decode_expr_body::<meta::Meta>(data) {
            Ok(s) => match meta::Meta::from_attrs(&s) {
                Ok(v) => Ok(ExpressionVariant::Meta(v)),
                Err(e) => Err(e),
            },
            Err(e) => Err(e),
        }
    } else if str_eq(name, nat_expr::Nat::get_name()) {
        match decode_expr_body::<nat_expr::Nat>(data) {
            Ok(s) => match nat_expr::Nat::from_attrs(&s) {
                Ok(v) => Ok(ExpressionVariant::Nat(v)),
                Err(e) => Err(e),
            },
            Err(e) => Err(e),
        }
    } else if str_eq(name, payload::Payload::get_name()) {
        match decode_expr_body::<payload::Payload>(data) {
            Ok(s) => match payload::Payload::from_attrs(&s) {
                Ok(v) => Ok(ExpressionVariant::Payload(v)),
                Err(e) => Err(e),
            },
            Err(e) => Err(e),
        }
    } else if str_eq(name, reject::Reject::get_name()) {
        match decode_expr_body::<reject::Reject>(data) {
            Ok(s) => match reject::Reject::from_attrs(&s) {
                Ok(v) => Ok(ExpressionVariant::Reject(v)),
                Err(e) => Err(e),
            },
            Err(e) => Err(e),
        }
    } else if str_eq(name, rt::Rt::get_name()) {
        match decode_expr_body::<rt::Rt>(data) {
            Ok(s) => match rt::Rt::from_attrs(&s) {
                Ok(v) => Ok(ExpressionVariant::Rt(v)),
                Err(e) => Err(e),
            },
            Err(e) => Err(e),
        }
    } else {
        Err(DecodeError::UnsupportedAttributeType(NFTA_EXPR_NAME))
    }
}

/// Decodes an expression body as kind `T`'s attribute set.
fn decode_expr_body<T: crate::nlmsg::AttributeDecoder>(data: &[u8]) -> (r: Result<
    NfNetlinkAttributes,
    DecodeError,
>)
    ensures
        (match r {
            Ok(a) => Ok::<Seq<(u16, AttrValue)>, DecodeError>(a.pairs()),
            Err(e) => Err(e),
        }) == spec_decode_attrs::<T>(data@, Seq::empty()),
{
    let reader = match NfNetlinkAttributeReader::new(data, data.len()) {
        Ok(rd) => rd,
        Err(e) => {
            return Err(e);
        },
    };
    proof {
        assert(reader.window() =~= data@);
    }
    reader.decode::<T>()
}

/// One kernel-returned expression element: its kind name and its raw body
/// bytes, to be decoded by the kind the name selects.
#[derive(Debug, Clone)]
pub struct ExpressionWrapper {
    name: String,
    data: Vec<u8>,
}

/// Mathematical image of [`ExpressionWrapper`].
pub struct ExpressionWrapperView {
    pub name: Seq<char>,
    pub data: Seq<u8>,
}

impl View for ExpressionWrapper {
    type V = ExpressionWrapperView;

    closed spec fn view(&self) -> ExpressionWrapperView {
        ExpressionWrapperView { name: self.name@, data: self.data@ }
    }
}

impl crate::nlmsg::AttributeDecoder for ExpressionWrapper {
    open spec fn spec_attr_kind(ty: u16) -> AttrKind {
        if ty == NFTA_EXPR_NAME {
            AttrKind::Str
        } else if ty == NFTA_EXPR_DATA {
            AttrKind::Nested
        } else {
            AttrKind::Unknown
        }
    }

    fn decode_attribute(ty: crate::parser::NetlinkType, buf: &[u8]) -> (r: Result<
        Attribute,
        DecodeError,
    >) {
        let kind = if ty == NFTA_EXPR_NAME {
            AttrKind::Str
        } else if ty == NFTA_EXPR_DATA {
            AttrKind::Nested
        } else {
            AttrKind::Unknown
        };
        crate::attribute::decode_typed_attribute(kind, ty, buf)
    }
}

/// The wrapper an element set stands for: name and body must both be
/// present.
pub open spec fn spec_wrapper_from_pairs(s: Seq<(u16, AttrValue)>) -> Result<
    ExpressionWrapperView,
    DecodeError,
> {
    match (spec_lookup(s, NFTA_EXPR_NAME), spec_lookup(s, NFTA_EXPR_DATA)) {
        (Some(AttrValue::Str(n)), Some(AttrValue::Nested(d))) => Ok(
            ExpressionWrapperView { name: n, data: d },
        ),
        _ => Err(DecodeError::InvalidAttributeType),
    }
}

/// The expression one encoded element's bytes stand for.
pub open spec fn spec_parse_expr_elem(b: Seq<u8>) -> Result<ExpressionVariantView, DecodeError> {
    match spec_decode_attrs::<ExpressionWrapper>(b, Seq::empty()) {
        Err(e) => Err(e),
        Ok(s) => match spec_wrapper_from_pairs(s) {
            Err(e) => Err(e),
            Ok(w) => spec_decode_expr(w.name, w.data),
        },
    }
}

impl ExpressionWrapper {
    /// The kind of expression ("cmp", "meta", ...).
    pub fn get_kind(&self) -> (r: &str)
        ensures
            r@ == self@.name,
    {
        self.name.as_str()
    }

    /// The raw body bytes.
    pub fn get_raw_data(&self) -> (r: &[u8])
        ensures
            r@ == self@.data,
    {
        self.data.as_slice()
    }

    /// Reads one element's wrapper out of its decoded attribute set.
    pub fn from_attrs(attrs: &NfNetlinkAttributes) -> (r: Result<Self, DecodeError>)
        ensures
            match r {
                Ok(w) => spec_wrapper_from_pairs(attrs.pairs()) == Ok::<
                    ExpressionWrapperView,
                    DecodeError,
                >(w@),
                Err(e) => spec_wrapper_from_pairs(attrs.pairs()) == Err::<
                    ExpressionWrapperView,
                    DecodeError,
                >(e),
            },
    {
        let name = match attrs.get_attr(NFTA_EXPR_NAME) {
            Some(Attribute::Str(n)) => n.clone(),
            _ => {
                return Err(DecodeError::InvalidAttributeType);
            },
        };
        match attrs.get_attr(NFTA_EXPR_DATA) {
            Some(Attribute::Nested(d)) => Ok(
                ExpressionWrapper { name, data: vstd::slice::slice_to_vec(d.as_slice()) },
            ),
            _ => Err(DecodeError::InvalidAttributeType),
        }
    }

    /// Attempts to decode the element as a typed expression.
    pub fn decode_expr(&self) -> (r: Result<ExpressionVariant, DecodeError>)
        ensures
            expr_result_view(r) == spec_decode_expr(self@.name, self@.data),
    {
        decode_expr(self.name.as_str(), self.data.as_slice())
    }
}

/// The expressions an encoded list's bytes stand for, appended to `acc` in
/// wire order. Every element must carry the list-element tag.
pub open spec fn spec_decode_expr_list(b: Seq<u8>, acc: Seq<ExpressionVariantView>) -> Result<
    Seq<ExpressionVariantView>,
    DecodeError,
>
    decreases b.len(),
    when b.len() >= 0
    via spec_decode_expr_list_decreases
{
    if b.len() < 4 {
        Ok(acc)
    } else {
        let nla_len = spec_u16_from_le_bytes(b.subrange(0, 2)) as int;
        let ty = spec_u16_from_le_bytes(b.subrange(2, 4)) & NLA_TYPE_MASK;
        if nla_len < 4 || nla_len > b.len() {
            Err(DecodeError::BufTooSmall)
        } else if ty != NFTA_LIST_ELEM {
            Err(DecodeError::UnsupportedAttributeType(ty))
        } else {
            match spec_parse_expr_elem(b.subrange(4, nla_len)) {
                Err(e) => Err(e),
                Ok(v) => {
                    let step = if crate::parser::spec_pad_netlink_size(nla_len) > b.len() {
                        b.len() as int
                    } else {
                        crate::parser::spec_pad_netlink_size(nla_len)
                    };
                    spec_decode_expr_list(b.subrange(step, b.len() as int), acc.push(v))
                },
            }
        }
    }
}

#[via_fn]
proof fn spec_decode_expr_list_decreases(b: Seq<u8>, acc: Seq<ExpressionVariantView>) {
    if b.len() >= 4 {
        let nla_len = spec_u16_from_le_bytes(b.subrange(0, 2)) as int;
        if 4 <= nla_len <= b.len() {
            crate::parser::lemma_pad_netlink_size(nla_len);
        }
    }
}

/// Law: an encoded expression list decodes back to exactly its expressions,
/// in their original order, appended to what was already accumulated —
/// whenever each expression's name fits an attribute and its own body
/// decodes back to it.
#[verifier::rlimit(100)]
#[verifier::spinoff_prover]
pub proof fn lemma_expr_list_round_trip(
    vs: Seq<ExpressionVariantView>,
    acc: Seq<ExpressionVariantView>,
)
    requires
        forall|i: int| 0 <= i < vs.len() ==> spec_expr_elem_wf(#[trigger] vs[i]),
        forall|i: int|
            0 <= i < vs.len() ==> vstd::utf8::encode_utf8(spec_expr_name(#[trigger] vs[i])).len()
                <= 32,
        forall|i: int|
            0 <= i < vs.len() ==> spec_decode_expr(
                spec_expr_name(#[trigger] vs[i]),
                spec_encode_pairs(spec_expr_pairs(vs[i])),
            ) == Ok::<ExpressionVariantView, DecodeError>(vs[i]),
    ensures
        spec_decode_expr_list(spec_encode_exprs(vs), acc) == Ok::<
            Seq<ExpressionVariantView>,
            DecodeError,
        >(acc + vs),
    decreases vs.len(),
{
    if vs.len() == 0 {
        assert(acc + vs =~= acc);
    } else {
        let v = vs[0];
        let tail = vs.subrange(1, vs.len() as int);
        let ep = spec_elem_pairs(v);
        let elem_bytes = spec_encode_pairs(ep);
        let restb = spec_encode_exprs(tail);
        let b = spec_encode_expr(v) + restb;
        // the element set is two attributes: the name, then the nested body
        crate::attribute::lemma_encode_attribute_len(NFTA_EXPR_NAME, ep[0].1);
        crate::attribute::lemma_encode_attribute_len(NFTA_EXPR_DATA, ep[1].1);
        assert(ep.subrange(1, 2) =~= seq![ep[1]]);
        assert(seq![ep[1]].subrange(1, 1) =~= Seq::<(u16, AttrValue)>::empty());
        assert(spec_encode_pairs(Seq::<(u16, AttrValue)>::empty()) == Seq::<u8>::empty());
        assert(spec_encode_pairs(seq![ep[1]]) =~= spec_encode_attribute(ep[1].0, ep[1].1));
        assert(spec_encode_pairs(ep) =~= spec_encode_attribute(ep[0].0, ep[0].1)
            + spec_encode_pairs(ep.subrange(1, 2)));
        assert(crate::attribute::spec_attr_wf(AttrValue::Nested(elem_bytes)));
        crate::attribute::lemma_parse_encoded_attribute(
            NFTA_LIST_ELEM,
            AttrValue::Nested(elem_bytes),
            restb,
        );
        // the element's own set decodes back to its two pairs
        assert(Seq::<(u16, AttrValue)>::empty() + ep =~= ep);
        crate::attribute::lemma_attribute_set_round_trip::<ExpressionWrapper>(ep, Seq::empty());
        // and its lookups hand the name and the body bytes back
        assert(spec_lookup(ep, NFTA_EXPR_NAME) == Some(ep[0].1));
        assert(spec_lookup(ep, NFTA_EXPR_DATA) == Some(ep[1].1)) by {
            assert(ep.subrange(1, ep.len() as int) =~= seq![ep[1]]);
            assert(spec_lookup(seq![ep[1]], NFTA_EXPR_DATA) == Some(ep[1].1));
        }
        assert(spec_parse_expr_elem(elem_bytes) == Ok::<ExpressionVariantView, DecodeError>(v));
        lemma_expr_list_round_trip(tail, acc.push(v));
        assert(acc + vs =~= acc.push(v) + tail);
        assert(spec_decode_expr_list(b, acc) == Ok::<Seq<ExpressionVariantView>, DecodeError>(
            acc + vs,
        ));
    }
}

/// Parses an encoded expression list back into typed expressions, in wire
/// order.
#[verifier::loop_isolation(false)]
pub fn parse_expr_list(buf: &[u8]) -> (r: Result<Vec<ExpressionVariant>, DecodeError>)
    ensures
        (match r {
            Ok(v) => Ok::<Seq<ExpressionVariantView>, DecodeError>(spec_exprs_views(v@)),
            Err(e) => Err(e),
        }) == spec_decode_expr_list(buf@, Seq::empty()),
{
    let n = buf.len();
    let mut pos: usize = 0;
    let mut remaining: usize = n;
    let mut out: Vec<ExpressionVariant> = Vec::new();
    proof {
        assert(spec_exprs_views(out@) =~= Seq::<ExpressionVariantView>::empty());
        assert(buf@.subrange(0, n as int) =~= buf@);
    }
    while remaining >= 4
        invariant
            pos + remaining == n,
            spec_decode_expr_list(
                buf@.subrange(pos as int, pos as int + remaining as int),
                spec_exprs_views(out@),
            ) == spec_decode_expr_list(buf@, Seq::empty()),
        decreases remaining,
    {
        let ghost w = buf@.subrange(pos as int, pos as int + remaining as int);
        let nla_len_raw = vstd::bytes::u16_from_le_bytes(vstd::slice::slice_subrange(
            buf,
            pos,
            pos + 2,
        ));
        let raw_ty = vstd::bytes::u16_from_le_bytes(vstd::slice::slice_subrange(
            buf,
            pos + 2,
            pos + 4,
        ));
        proof {
            assert(buf@.subrange(pos as int, pos as int + 2) =~= w.subrange(0, 2));
            assert(buf@.subrange(pos as int + 2, pos as int + 4) =~= w.subrange(2, 4));
        }
        let nla_type = raw_ty & NLA_TYPE_MASK;
        let nla_len = nla_len_raw as usize;
        if nla_len < 4 || nla_len > remaining {
            return Err(DecodeError::BufTooSmall);
        }
        if nla_type != NFTA_LIST_ELEM {
            return Err(DecodeError::UnsupportedAttributeType(nla_type));
        }
        let elem_bytes = vstd::slice::slice_subrange(buf, pos + 4, pos + nla_len);
        proof {
            assert(elem_bytes@ =~= w.subrange(4, nla_len as int));
        }
        let expr = match parse_expr_elem(elem_bytes) {
            Ok(v) => v,
            Err(e) => {
                return Err(e);
            },
        };
        let ghost acc = spec_exprs_views(out@);
        out.push(expr);
        proof {
            assert(spec_exprs_views(out@) =~= acc.push(expr@));
        }
        let padded = crate::parser::pad_netlink_object_with_variable_size(nla_len);
        let step = if padded > remaining {
            remaining
        } else {
            padded
        };
        proof {
            crate::parser::lemma_pad_netlink_size(nla_len as int);
        }
        pos = pos + step;
        remaining = remaining - step;
        proof {
            assert(buf@.subrange(pos as int, pos as int + remaining as int) =~= w.subrange(
                step as int,
                w.len() as int,
            ));
        }
    }
    Ok(out)
}

/// Parses one encoded element's bytes into a typed expression.
pub fn parse_expr_elem(b: &[u8]) -> (r: Result<ExpressionVariant, DecodeError>)
    ensures
        expr_result_view(r) == spec_parse_expr_elem(b@),
{
    let attrs = match decode_expr_body::<ExpressionWrapper>(b) {
        Ok(a) => a,
        Err(e) => {
            return Err(e);
        },
    };
    let w = match ExpressionWrapper::from_attrs(&attrs) {
        Ok(w) => w,
        Err(e) => {
            return Err(e);
        },
    };
    w.decode_expr()
}

} // verus!
