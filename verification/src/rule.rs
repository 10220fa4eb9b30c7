//! The rule object: an ordered list of expressions under a chain. The order
//! is semantically significant — the kernel evaluates left to right and the
//! first non-match halts the rule — so it is preserved exactly through
//! serialization and decoding.

use vstd::prelude::*;
use vstd::slice::slice_to_vec;
use vstd::utf8::encode_utf8;

use crate::MsgType;
use crate::ProtocolFamily;
use crate::attribute::{
    AttrKind, AttrValue, Attribute, MAX_ATTR_PAYLOAD, NfNetlinkAttributes, decode_typed_attribute,
    spec_lookup,
};
use crate::chain::{Chain, ChainView};
use crate::error::DecodeError;
use crate::expr::{
    ExpressionVariant, ExpressionVariantView, append_opt_bytes, append_opt_nested, append_opt_str,
    append_opt_u64, opt_bytes, opt_nested, opt_pair, opt_str, opt_u64, parse_expr_list, slice_eq,
    spec_decode_expr_list, spec_encode_expr, spec_encode_exprs, spec_expr_elem_wf,
    spec_exprs_views, write_exprs,
};
use crate::nlmsg::{AttributeDecoder, NfNetlinkObject};
use crate::parser::NetlinkType;
use crate::table::{Table, TableView};

verus! {

pub const NFTA_RULE_TABLE: u16 = 1;

pub const NFTA_RULE_CHAIN: u16 = 2;

pub const NFTA_RULE_HANDLE: u16 = 3;

pub const NFTA_RULE_EXPRESSIONS: u16 = 4;

pub const NFTA_RULE_POSITION: u16 = 6;

pub const NFTA_RULE_USERDATA: u16 = 7;

/// Operation codes of rule messages.
pub const NFT_MSG_NEWRULE: u8 = 6;

pub const NFT_MSG_GETRULE: u8 = 7;

pub const NFT_MSG_DELRULE: u8 = 8;

/// A firewall rule: an ordered expression list under a chain. The chain is
/// an identifying reference (name and family), resolved at serialize time.
/// The handle and position are kernel-assigned and absent until the kernel
/// has accepted the rule.
#[derive(Debug, Clone)]
pub struct Rule {
    chain: Chain,
    exprs: Vec<ExpressionVariant>,
    handle: Option<u64>,
    position: Option<u64>,
    userdata: Option<Vec<u8>>,
}

/// Mathematical image of [`Rule`].
pub struct RuleView {
    pub chain: ChainView,
    pub exprs: Seq<ExpressionVariantView>,
    pub handle: Option<u64>,
    pub position: Option<u64>,
    pub userdata: Option<Seq<u8>>,
}

impl View for Rule {
    type V = RuleView;

    closed spec fn view(&self) -> RuleView {
        RuleView {
            chain: self.chain@,
            exprs: spec_exprs_views(self.exprs@),
            handle: self.handle,
            position: self.position,
            userdata: match self.userdata {
                None => None,
                Some(d) => Some(d@),
            },
        }
    }
}

impl RuleView {
    /// A rule serializes as its table and chain names, its handle when the
    /// kernel assigned one, its expressions as a nested list, its position
    /// when set, and its opaque user data.
    pub open spec fn spec_attrs(self) -> Seq<(u16, AttrValue)> {
        opt_pair(NFTA_RULE_TABLE, opt_str(Some(self.chain.table.name))) + (opt_pair(
            NFTA_RULE_CHAIN,
            opt_str(Some(self.chain.name)),
        ) + (opt_pair(NFTA_RULE_HANDLE, opt_u64(self.handle)) + (opt_pair(
            NFTA_RULE_EXPRESSIONS,
            opt_nested(Some(spec_encode_exprs(self.exprs))),
        ) + (opt_pair(NFTA_RULE_POSITION, opt_u64(self.position)) + opt_pair(
            NFTA_RULE_USERDATA,
            opt_bytes(self.userdata),
        )))))
    }

    /// Names, user data and the encoded expression list each fit one
    /// attribute, and every expression fits one list element.
    pub open spec fn wf(self) -> bool {
        &&& encode_utf8(self.chain.table.name).len() <= MAX_ATTR_PAYLOAD
        &&& encode_utf8(self.chain.name).len() <= MAX_ATTR_PAYLOAD
        &&& match self.userdata {
            None => true,
            Some(d) => d.len() <= MAX_ATTR_PAYLOAD,
        }
        &&& spec_encode_exprs(self.exprs).len() <= MAX_ATTR_PAYLOAD
        &&& forall|i: int| 0 <= i < self.exprs.len() ==> spec_expr_elem_wf(#[trigger] self.exprs[i])
    }
}

impl Rule {
    /// A rule under `chain`, with no expressions yet.
    pub fn new(chain: &Chain) -> (r: Rule)
        ensures
            r@.chain == chain@,
            r@.exprs == Seq::<ExpressionVariantView>::empty(),
            r@.handle == None::<u64>,
            r@.position == None::<u64>,
            r@.userdata == None::<Seq<u8>>,
    {
        let r = Rule {
            chain: chain.clone_chain(),
            exprs: Vec::new(),
            handle: None,
            position: None,
            userdata: None,
        };
        proof {
            assert(r@.exprs =~= Seq::<ExpressionVariantView>::empty());
            assert(r@.chain == chain@);
        }
        r
    }

    /// Appends an expression; expressions are evaluated from first to last
    /// added and can neither be removed nor reordered.
    pub fn add_expr(&mut self, expr: ExpressionVariant)
        ensures
            final(self)@ == (RuleView { exprs: old(self)@.exprs.push(expr@), ..old(self)@ }),
    {
        self.exprs.push(expr);
        proof {
            assert(self@.exprs =~= old(self)@.exprs.push(expr@));
        }
    }

    /// The chain this rule lives in.
    pub fn get_chain(&self) -> (r: &Chain)
        ensures
            r@ == self@.chain,
    {
        &self.chain
    }

    pub fn get_handle(&self) -> (r: Option<u64>)
        ensures
            r == self@.handle,
    {
        self.handle
    }

    pub fn set_handle(&mut self, handle: u64)
        ensures
            final(self)@ == (RuleView { handle: Some(handle), ..old(self)@ }),
    {
        self.handle = Some(handle);
    }

    pub fn get_position(&self) -> (r: Option<u64>)
        ensures
            r == self@.position,
    {
        self.position
    }

    /// Sets the position of this rule within its chain; by default a new
    /// rule is appended at the end.
    pub fn set_position(&mut self, position: u64)
        ensures
            final(self)@ == (RuleView { position: Some(position), ..old(self)@ }),
    {
        self.position = Some(position);
    }

    /// The opaque user data attached to this rule.
    pub fn get_userdata(&self) -> (r: Option<&Vec<u8>>)
        ensures
            match r {
                Some(d) => self@.userdata == Some(d@),
                None => self@.userdata is None,
            },
    {
        self.userdata.as_ref()
    }

    pub fn set_userdata(&mut self, data: Vec<u8>)
        ensures
            final(self)@ == (RuleView { userdata: Some(data@), ..old(self)@ }),
    {
        self.userdata = Some(data);
    }

    /// An iterator over the rule's expressions, in evaluation order.
    pub fn get_exprs(&self) -> (r: RuleExprsIter<'_>)
        ensures
            r.spec_rule() == self@,
            r.spec_index() == 0,
    {
        RuleExprsIter { rule: self, index: 0 }
    }

    /// The number of expressions.
    pub fn expr_count(&self) -> (r: usize)
        ensures
            r == self@.exprs.len(),
    {
        self.exprs.len()
    }

    /// A deep comparison: same chain identity, same number of expressions,
    /// and pairwise identical expression encodings. Deliberately distinct
    /// from `==`, which demands kernel-assigned handles and positions.
    pub fn deep_eq(&self, other: &Self) -> (r: bool)
        requires
            forall|i: int|
                0 <= i < self@.exprs.len() ==> spec_expr_elem_wf(#[trigger] self@.exprs[i]),
            forall|i: int|
                0 <= i < other@.exprs.len() ==> spec_expr_elem_wf(#[trigger] other@.exprs[i]),
        ensures
            r == spec_rule_deep_eq(self@, other@),
    {
        if !(self.chain == other.chain) {
            return false;
        }
        let n = self.exprs.len();
        if n != other.exprs.len() {
            return false;
        }
        let mut i: usize = 0;
        while i < n
            invariant
                0 <= i <= n,
                n == self@.exprs.len() && n == other@.exprs.len(),
                forall|k: int|
                    0 <= k < self@.exprs.len() ==> spec_expr_elem_wf(#[trigger] self@.exprs[k]),
                forall|k: int|
                    0 <= k < other@.exprs.len() ==> spec_expr_elem_wf(#[trigger] other@.exprs[k]),
                forall|k: int|
                    0 <= k < i ==> spec_encode_expr(#[trigger] self@.exprs[k]) == spec_encode_expr(
                        other@.exprs[k],
                    ),
            decreases n - i,
        {
            let mut a: Vec<u8> = Vec::new();
            let mut b: Vec<u8> = Vec::new();
            proof {
                assert(self@.exprs[i as int] == self.exprs@[i as int]@);
                assert(other@.exprs[i as int] == other.exprs@[i as int]@);
            }
            self.exprs[i].write_expr(&mut a);
            other.exprs[i].write_expr(&mut b);
            if !slice_eq(a.as_slice(), b.as_slice()) {
                return false;
            }
            i = i + 1;
        }
        true
    }
}

/// Deep rule equality: same chain identity, and the same expression
/// encodings in the same order.
pub open spec fn spec_rule_deep_eq(a: RuleView, b: RuleView) -> bool {
    &&& crate::chain::spec_chain_identity_eq(a.chain, b.chain)
    &&& a.exprs.len() == b.exprs.len()
    &&& forall|i: int|
        0 <= i < a.exprs.len() ==> spec_encode_expr(#[trigger] a.exprs[i]) == spec_encode_expr(
            b.exprs[i],
        )
}

/// Default rule equality: chain identity first, and then both sides must
/// carry equal kernel-assigned handles and equal positions. A rule the
/// kernel has not accepted — either side missing a handle or a position —
/// never compares equal, even to an identical rule; content plays no part.
pub open spec fn spec_rule_eq(a: RuleView, b: RuleView) -> bool {
    &&& crate::chain::spec_chain_identity_eq(a.chain, b.chain)
    &&& match (a.handle, b.handle) {
        (Some(x), Some(y)) => x == y,
        _ => false,
    }
    &&& match (a.position, b.position) {
        (Some(x), Some(y)) => x == y,
        _ => false,
    }
}

impl PartialEq for Rule {
    fn eq(&self, other: &Self) -> (r: bool) {
        if !(self.chain == other.chain) {
            return false;
        }
        let h = match (self.handle, other.handle) {
            (Some(a), Some(b)) => a == b,
            _ => false,
        };
        let p = match (self.position, other.position) {
            (Some(a), Some(b)) => a == b,
            _ => false,
        };
        h && p
    }
}

impl vstd::std_specs::cmp::PartialEqSpecImpl for Rule {
    open spec fn obeys_eq_spec() -> bool {
        true
    }

    open spec fn eq_spec(&self, other: &Self) -> bool {
        spec_rule_eq(self@, other@)
    }
}

/// An iterator over a rule's expressions, in evaluation order.
pub struct RuleExprsIter<'a> {
    rule: &'a Rule,
    index: usize,
}

impl<'a> RuleExprsIter<'a> {
    pub closed spec fn spec_rule(&self) -> RuleView {
        self.rule@
    }

    pub closed spec fn spec_index(&self) -> int {
        self.index as int
    }

    /// The next expression, if any are left.
    pub fn next(&mut self) -> (r: Option<&'a ExpressionVariant>)
        ensures
            final(self).spec_rule() == old(self).spec_rule(),
            match r {
                Some(e) => {
                    &&& old(self).spec_index() < old(self).spec_rule().exprs.len()
                    &&& e@ == old(self).spec_rule().exprs[old(self).spec_index()]
                    &&& final(self).spec_index() == old(self).spec_index() + 1
                },
                None => {
                    &&& old(self).spec_index() >= old(self).spec_rule().exprs.len()
                    &&& final(self).spec_index() == old(self).spec_index()
                },
            },
    {
        if self.index < self.rule.exprs.len() {
            let e = &self.rule.exprs[self.index];
            proof {
                assert(e@ == self.spec_rule().exprs[self.index as int]);
            }
            self.index = self.index + 1;
            Some(e)
        } else {
            None
        }
    }
}

/// Concatenating six sequences groups either way.
proof fn lemma_concat_assoc6<A>(p1: Seq<A>, p2: Seq<A>, p3: Seq<A>, p4: Seq<A>, p5: Seq<A>, p6: Seq<A>)
    ensures
        p1 + p2 + p3 + p4 + p5 + p6 == p1 + (p2 + (p3 + (p4 + (p5 + p6)))),
{
    assert(p1 + p2 + p3 + p4 + p5 + p6 =~= p1 + (p2 + (p3 + (p4 + (p5 + p6)))));
}

impl AttributeDecoder for Rule {
    open spec fn spec_attr_kind(ty: u16) -> AttrKind {
        if ty == NFTA_RULE_TABLE {
            AttrKind::Str
        } else if ty == NFTA_RULE_CHAIN {
            AttrKind::Str
        } else if ty == NFTA_RULE_HANDLE {
            AttrKind::U64
        } else if ty == NFTA_RULE_EXPRESSIONS {
            AttrKind::Nested
        } else if ty == NFTA_RULE_POSITION {
            AttrKind::U64
        } else if ty == NFTA_RULE_USERDATA {
            AttrKind::Bytes
        } else {
            AttrKind::Unknown
        }
    }

    fn decode_attribute(ty: NetlinkType, buf: &[u8]) -> (r: Result<Attribute, DecodeError>) {
        let kind = if ty == NFTA_RULE_TABLE {
            AttrKind::Str
        } else if ty == NFTA_RULE_CHAIN {
            AttrKind::Str
        } else if ty == NFTA_RULE_HANDLE {
            AttrKind::U64
        } else if ty == NFTA_RULE_EXPRESSIONS {
            AttrKind::Nested
        } else if ty == NFTA_RULE_POSITION {
            AttrKind::U64
        } else if ty == NFTA_RULE_USERDATA {
            AttrKind::Bytes
        } else {
            AttrKind::Unknown
        };
        decode_typed_attribute(kind, ty, buf)
    }
}

impl NfNetlinkObject for Rule {
    open spec fn spec_add_op() -> u8 {
        NFT_MSG_NEWRULE
    }

    open spec fn spec_del_op() -> u8 {
        NFT_MSG_DELRULE
    }

    fn get_msg_op(op: MsgType) -> (r: u8) {
        match op {
            MsgType::Add => NFT_MSG_NEWRULE,
            MsgType::Del => NFT_MSG_DELRULE,
        }
    }

    open spec fn spec_family(&self) -> ProtocolFamily {
        self@.chain.table.family
    }

    fn family(&self) -> (r: ProtocolFamily) {
        self.chain.get_table().get_family()
    }

    open spec fn spec_attrs(&self) -> Seq<(u16, AttrValue)> {
        self@.spec_attrs()
    }

    open spec fn spec_serializable(&self) -> bool {
        self@.wf()
    }

    fn to_attrs(&self) -> (r: NfNetlinkAttributes) {
        let mut attrs = NfNetlinkAttributes::new();
        let tname: Option<String> = Some(self.chain.get_table().get_name().to_owned());
        append_opt_str(&mut attrs, NFTA_RULE_TABLE, &tname);
        let cname: Option<String> = Some(self.chain.get_name().to_owned());
        append_opt_str(&mut attrs, NFTA_RULE_CHAIN, &cname);
        append_opt_u64(&mut attrs, NFTA_RULE_HANDLE, self.handle);
        let mut exprs_bytes: Vec<u8> = Vec::new();
        proof {
            assert(forall|i: int|
                0 <= i < self.exprs@.len() ==> spec_expr_elem_wf(
                    #[trigger] spec_exprs_views(self.exprs@)[i],
                ));
        }
        write_exprs(&self.exprs, &mut exprs_bytes);
        let eb: Option<Vec<u8>> = Some(exprs_bytes);
        append_opt_nested(&mut attrs, NFTA_RULE_EXPRESSIONS, &eb);
        append_opt_u64(&mut attrs, NFTA_RULE_POSITION, self.position);
        append_opt_bytes(&mut attrs, NFTA_RULE_USERDATA, &self.userdata);
        proof {
            lemma_concat_assoc6(
                opt_pair(NFTA_RULE_TABLE, opt_str(Some(self@.chain.table.name))),
                opt_pair(NFTA_RULE_CHAIN, opt_str(Some(self@.chain.name))),
                opt_pair(NFTA_RULE_HANDLE, opt_u64(self@.handle)),
                opt_pair(NFTA_RULE_EXPRESSIONS, opt_nested(Some(spec_encode_exprs(self@.exprs)))),
                opt_pair(NFTA_RULE_POSITION, opt_u64(self@.position)),
                opt_pair(NFTA_RULE_USERDATA, opt_bytes(self@.userdata)),
            );
            assert(attrs.pairs() =~= opt_pair(
                NFTA_RULE_TABLE,
                opt_str(Some(self@.chain.table.name)),
            ) + opt_pair(NFTA_RULE_CHAIN, opt_str(Some(self@.chain.name))) + opt_pair(
                NFTA_RULE_HANDLE,
                opt_u64(self@.handle),
            ) + opt_pair(NFTA_RULE_EXPRESSIONS, opt_nested(Some(spec_encode_exprs(self@.exprs))))
                + opt_pair(NFTA_RULE_POSITION, opt_u64(self@.position)) + opt_pair(
                NFTA_RULE_USERDATA,
                opt_bytes(self@.userdata),
            ));
        }
        attrs
    }
}

/// The rule a decoded attribute set stands for: both names must be present;
/// the expression list, handle, position and user data are optional, and the
/// expression list must itself decode.
pub open spec fn spec_rule_from_pairs(s: Seq<(u16, AttrValue)>, family: ProtocolFamily) -> Result<
    RuleView,
    DecodeError,
> {
    let table = spec_lookup(s, NFTA_RULE_TABLE);
    let chain = spec_lookup(s, NFTA_RULE_CHAIN);
    let handle = spec_lookup(s, NFTA_RULE_HANDLE);
    let exprs = spec_lookup(s, NFTA_RULE_EXPRESSIONS);
    let position = spec_lookup(s, NFTA_RULE_POSITION);
    let userdata = spec_lookup(s, NFTA_RULE_USERDATA);
    if !(table is Some && table->0 is Str && chain is Some && chain->0 is Str && (match handle {
        None => true,
        Some(AttrValue::U64(_)) => true,
        Some(_) => false,
    }) && (match exprs {
        None => true,
        Some(AttrValue::Nested(_)) => true,
        Some(_) => false,
    }) && (match position {
        None => true,
        Some(AttrValue::U64(_)) => true,
        Some(_) => false,
    }) && (match userdata {
        None => true,
        Some(AttrValue::Bytes(_)) => true,
        Some(_) => false,
    })) {
        Err(DecodeError::InvalidAttributeType)
    } else {
        let evs = match exprs {
            Some(AttrValue::Nested(b)) => spec_decode_expr_list(b, Seq::empty()),
            _ => Ok(Seq::empty()),
        };
        match evs {
            Err(e) => Err(e),
            Ok(vs) => Ok(
                RuleView {
                    chain: ChainView {
                        table: TableView { name: table->0->Str_0, family },
                        name: chain->0->Str_0,
                        hook: None,
                        policy: None,
                    },
                    exprs: vs,
                    handle: match handle {
                        Some(AttrValue::U64(h)) => Some(h),
                        _ => None,
                    },
                    position: match position {
                        Some(AttrValue::U64(p)) => Some(p),
                        _ => None,
                    },
                    userdata: match userdata {
                        Some(AttrValue::Bytes(d)) => Some(d),
                        _ => None,
                    },
                },
            ),
        }
    }
}

impl Rule {
    /// The rule a decoded attribute set stands for; the family arrives in
    /// the message header and is supplied alongside.
    pub fn from_attrs(attrs: &NfNetlinkAttributes, family: ProtocolFamily) -> (r: Result<
        Rule,
        DecodeError,
    >)
        ensures
            match r {
                Ok(rule) => spec_rule_from_pairs(attrs.pairs(), family) == Ok::<
                    RuleView,
                    DecodeError,
                >(rule@),
                Err(e) => spec_rule_from_pairs(attrs.pairs(), family) == Err::<
                    RuleView,
                    DecodeError,
                >(e),
            },
    {
        let table_name: String = match attrs.get_attr(NFTA_RULE_TABLE) {
            Some(Attribute::Str(n)) => n.clone(),
            _ => {
                return Err(DecodeError::InvalidAttributeType);
            },
        };
        let chain_name: String = match attrs.get_attr(NFTA_RULE_CHAIN) {
            Some(Attribute::Str(n)) => n.clone(),
            _ => {
                return Err(DecodeError::InvalidAttributeType);
            },
        };
        let handle: Option<u64> = match attrs.get_attr(NFTA_RULE_HANDLE) {
            None => None,
            Some(Attribute::U64(h)) => Some(*h),
            Some(_) => {
                return Err(DecodeError::InvalidAttributeType);
            },
        };
        let position: Option<u64> = match attrs.get_attr(NFTA_RULE_POSITION) {
            None => None,
            Some(Attribute::U64(p)) => Some(*p),
            Some(_) => {
                return Err(DecodeError::InvalidAttributeType);
            },
        };
        let userdata: Option<Vec<u8>> = match attrs.get_attr(NFTA_RULE_USERDATA) {
            None => None,
            Some(Attribute::Bytes(d)) => Some(slice_to_vec(d.as_slice())),
            Some(_) => {
                return Err(DecodeError::InvalidAttributeType);
            },
        };
        let exprs: Vec<ExpressionVariant> = match attrs.get_attr(NFTA_RULE_EXPRESSIONS) {
            None => Vec::new(),
            Some(Attribute::Nested(b)) => match parse_expr_list(b.as_slice()) {
                Ok(v) => v,
                Err(e) => {
                    return Err(e);
                },
            },
            Some(_) => {
                return Err(DecodeError::InvalidAttributeType);
            },
        };
        let table = Table::new(table_name.as_str(), family);
        let chain = Chain::new(chain_name.as_str(), &table);
        proof {
            if exprs@.len() == 0 {
                assert(spec_exprs_views(exprs@) =~= Seq::<ExpressionVariantView>::empty());
            }
        }
        Ok(Rule { chain, exprs, handle, position, userdata })
    }
}

} // verus!
