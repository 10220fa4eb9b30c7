//! The chain object: a named sequence of rules under a table; attaching a
//! hook makes it a base chain, and only base chains carry a default policy.

use vstd::prelude::*;
use vstd::utf8::encode_utf8;

use crate::MsgType;
use crate::ProtocolFamily;
use crate::attribute::{
    AttrKind, AttrValue, Attribute, MAX_ATTR_PAYLOAD, NfNetlinkAttributes, SerializeNfNetlink,
    decode_typed_attribute, lemma_encode_attribute_len, spec_encode_attribute,
    spec_encode_pairs,
};
use crate::error::DecodeError;
use crate::expr::{append_opt_nested, append_opt_str, append_opt_u32, opt_pair};
use crate::nlmsg::{AttributeDecoder, NfNetlinkObject};
use crate::parser::NetlinkType;
use crate::table::{Table, TableView};

verus! {

pub const NFTA_CHAIN_TABLE: u16 = 1;

pub const NFTA_CHAIN_NAME: u16 = 3;

pub const NFTA_CHAIN_HOOK: u16 = 4;

pub const NFTA_CHAIN_POLICY: u16 = 5;

pub const NFTA_HOOK_HOOKNUM: u16 = 1;

pub const NFTA_HOOK_PRIORITY: u16 = 2;

/// Operation codes of chain messages.
pub const NFT_MSG_NEWCHAIN: u8 = 3;

pub const NFT_MSG_GETCHAIN: u8 = 4;

pub const NFT_MSG_DELCHAIN: u8 = 5;

/// A kernel packet-processing point a base chain attaches to.
#[derive(Debug, Clone, Copy, PartialEq, Eq, Structural)]
pub enum Hook {
    PreRouting,
    In,
    Forward,
    Out,
    PostRouting,
}

impl Hook {
    pub open spec fn spec_code(self) -> u32 {
        match self {
            Hook::PreRouting => 0,
            Hook::In => 1,
            Hook::Forward => 2,
            Hook::Out => 3,
            Hook::PostRouting => 4,
        }
    }

    pub fn code(self) -> (r: u32)
        ensures
            r == self.spec_code(),
    {
        match self {
            Hook::PreRouting => 0,
            Hook::In => 1,
            Hook::Forward => 2,
            Hook::Out => 3,
            Hook::PostRouting => 4,
        }
    }
}

/// A base chain's default policy for packets no rule decided.
#[derive(Debug, Clone, Copy, PartialEq, Eq, Structural)]
pub enum Policy {
    Drop,
    Accept,
}

impl Policy {
    pub open spec fn spec_code(self) -> u32 {
        match self {
            Policy::Drop => 0,
            Policy::Accept => 1,
        }
    }

    pub fn code(self) -> (r: u32)
        ensures
            r == self.spec_code(),
    {
        match self {
            Policy::Drop => 0,
            Policy::Accept => 1,
        }
    }
}

/// A hook priority as its 32-bit wire form (two's complement).
pub open spec fn spec_i32_wire(x: i32) -> u32 {
    if x >= 0 {
        x as u32
    } else {
        (x + 0x1_0000_0000) as u32
    }
}

/// Converts a signed priority to its wire form.
pub fn i32_wire(x: i32) -> (r: u32)
    ensures
        r == spec_i32_wire(x),
{
    if x >= 0 {
        x as u32
    } else {
        (((x as i64) + 0x1_0000_0000i64) as u32)
    }
}

/// A chain under a table: its identity is its name together with its table
/// and family. A hook descriptor makes it a base chain.
#[derive(Debug, Clone)]
pub struct Chain {
    table: Table,
    name: String,
    hook: Option<(Hook, i32)>,
    policy: Option<Policy>,
}

/// Mathematical image of [`Chain`].
pub struct ChainView {
    pub table: TableView,
    pub name: Seq<char>,
    pub hook: Option<(Hook, i32)>,
    pub policy: Option<Policy>,
}

impl View for Chain {
    type V = ChainView;

    closed spec fn view(&self) -> ChainView {
        ChainView { table: self.table@, name: self.name@, hook: self.hook, policy: self.policy }
    }
}

/// The pairs of a hook descriptor: the hook point and the priority.
pub open spec fn spec_hook_pairs(h: (Hook, i32)) -> Seq<(u16, AttrValue)> {
    seq![
        (NFTA_HOOK_HOOKNUM, AttrValue::U32(h.0.spec_code())),
        (NFTA_HOOK_PRIORITY, AttrValue::U32(spec_i32_wire(h.1))),
    ]
}

impl ChainView {
    /// A chain serializes as its table's name, its own name, its hook
    /// descriptor when it is a base chain, and then its policy — which only
    /// a base chain carries on the wire.
    pub open spec fn spec_attrs(self) -> Seq<(u16, AttrValue)> {
        seq![(NFTA_CHAIN_TABLE, AttrValue::Str(self.table.name))] + (seq![
            (NFTA_CHAIN_NAME, AttrValue::Str(self.name)),
        ] + (opt_pair(
            NFTA_CHAIN_HOOK,
            match self.hook {
                None => None,
                Some(h) => Some(AttrValue::Nested(spec_encode_pairs(spec_hook_pairs(h)))),
            },
        ) + opt_pair(
            NFTA_CHAIN_POLICY,
            match (self.hook, self.policy) {
                (Some(_), Some(p)) => Some(AttrValue::U32(p.spec_code())),
                _ => None,
            },
        )))
    }

    /// Both names must fit one attribute each.
    pub open spec fn wf(self) -> bool {
        &&& encode_utf8(self.table.name).len() <= MAX_ATTR_PAYLOAD
        &&& encode_utf8(self.name).len() <= MAX_ATTR_PAYLOAD
    }
}

impl Chain {
    /// A chain under `name` in `table`, with no hook and no policy.
    pub fn new(name: &str, table: &Table) -> (r: Chain)
        ensures
            r@.table == table@,
            r@.name == name@,
            r@.hook == None::<(Hook, i32)>,
            r@.policy == None::<Policy>,
    {
        Chain { table: table.clone_table(), name: name.to_owned(), hook: None, policy: None }
    }

    pub fn get_name(&self) -> (r: &str)
        ensures
            r@ == self@.name,
    {
        self.name.as_str()
    }

    pub fn get_table(&self) -> (r: &Table)
        ensures
            r@ == self@.table,
    {
        &self.table
    }

    pub fn get_hook(&self) -> (r: Option<&(Hook, i32)>)
        ensures
            match r {
                Some(h) => self@.hook == Some(*h),
                None => self@.hook is None,
            },
    {
        self.hook.as_ref()
    }

    pub fn get_policy(&self) -> (r: Option<&Policy>)
        ensures
            match r {
                Some(p) => self@.policy == Some(*p),
                None => self@.policy is None,
            },
    {
        self.policy.as_ref()
    }

    /// A copy of the chain.
    pub fn clone_chain(&self) -> (r: Chain)
        ensures
            r@ == self@,
    {
        Chain {
            table: self.table.clone_table(),
            name: self.name.clone(),
            hook: self.hook,
            policy: self.policy,
        }
    }

    /// Attaches the chain to a hook with a priority, making it a base chain.
    pub fn attach_hook(&mut self, hook: Hook, priority: i32)
        ensures
            final(self)@ == (ChainView { hook: Some((hook, priority)), ..old(self)@ }),
    {
        self.hook = Some((hook, priority));
    }

    /// Records a default policy; it reaches the wire only on a base chain.
    pub fn set_policy(&mut self, policy: Policy)
        ensures
            final(self)@ == (ChainView { policy: Some(policy), ..old(self)@ }),
    {
        self.policy = Some(policy);
    }
}

impl Table {
    /// A copy of the table.
    pub fn clone_table(&self) -> (r: Table)
        ensures
            r@ == self@,
    {
        Table::new(self.get_name(), self.get_family())
    }
}

/// Chain identity is its table's name, its family, and its own name; the
/// hook and policy play no part in it.
impl PartialEq for Chain {
    fn eq(&self, other: &Self) -> (r: bool) {
        let t = crate::expr::str_eq(self.table.get_name(), other.table.get_name());
        let f = self.table.get_family().code() == other.table.get_family().code();
        let n = crate::expr::str_eq(self.name.as_str(), other.name.as_str());
        proof {
            if self.table@.family.spec_code() == other.table@.family.spec_code() {
                crate::lemma_protocol_family_code_round_trip(self.table@.family);
                crate::lemma_protocol_family_code_round_trip(other.table@.family);
            }
        }
        t && f && n
    }
}

impl vstd::std_specs::cmp::PartialEqSpecImpl for Chain {
    open spec fn obeys_eq_spec() -> bool {
        true
    }

    open spec fn eq_spec(&self, other: &Self) -> bool {
        spec_chain_identity_eq(self@, other@)
    }
}

/// Two chains name the same kernel object.
pub open spec fn spec_chain_identity_eq(a: ChainView, b: ChainView) -> bool {
    &&& a.table.name == b.table.name
    &&& a.table.family == b.table.family
    &&& a.name == b.name
}

impl AttributeDecoder for Chain {
    open spec fn spec_attr_kind(ty: u16) -> AttrKind {
        if ty == NFTA_CHAIN_TABLE {
            AttrKind::Str
        } else if ty == NFTA_CHAIN_NAME {
            AttrKind::Str
        } else if ty == NFTA_CHAIN_HOOK {
            AttrKind::Nested
        } else if ty == NFTA_CHAIN_POLICY {
            AttrKind::U32
        } else {
            AttrKind::Unknown
        }
    }

    fn decode_attribute(ty: NetlinkType, buf: &[u8]) -> (r: Result<Attribute, DecodeError>) {
        let kind = if ty == NFTA_CHAIN_TABLE {
            AttrKind::Str
        } else if ty == NFTA_CHAIN_NAME {
            AttrKind::Str
        } else if ty == NFTA_CHAIN_HOOK {
            AttrKind::Nested
        } else if ty == NFTA_CHAIN_POLICY {
            AttrKind::U32
        } else {
            AttrKind::Unknown
        };
        decode_typed_attribute(kind, ty, buf)
    }
}

impl NfNetlinkObject for Chain {
    open spec fn spec_add_op() -> u8 {
        NFT_MSG_NEWCHAIN
    }

    open spec fn spec_del_op() -> u8 {
        NFT_MSG_DELCHAIN
    }

    fn get_msg_op(op: MsgType) -> (r: u8) {
        match op {
            MsgType::Add => NFT_MSG_NEWCHAIN,
            MsgType::Del => NFT_MSG_DELCHAIN,
        }
    }

    open spec fn spec_family(&self) -> ProtocolFamily {
        self@.table.family
    }

    fn family(&self) -> (r: ProtocolFamily) {
        self.table.get_family()
    }

    open spec fn spec_attrs(&self) -> Seq<(u16, AttrValue)> {
        self@.spec_attrs()
    }

    open spec fn spec_serializable(&self) -> bool {
        self@.wf()
    }

    fn to_attrs(&self) -> (r: NfNetlinkAttributes) {
        let mut attrs = NfNetlinkAttributes::new();
        let tname: Option<String> = Some(self.table.get_name().to_owned());
        append_opt_str(&mut attrs, NFTA_CHAIN_TABLE, &tname);
        let cname: Option<String> = Some(self.name.clone());
        append_opt_str(&mut attrs, NFTA_CHAIN_NAME, &cname);
        let hook_bytes: Option<Vec<u8>> = match &self.hook {
            None => None,
            Some(h) => {
                let mut inner = NfNetlinkAttributes::new();
                append_opt_u32(&mut inner, NFTA_HOOK_HOOKNUM, Some(h.0.code()));
                append_opt_u32(&mut inner, NFTA_HOOK_PRIORITY, Some(i32_wire(h.1)));
                proof {
                    assert(inner.pairs() =~= spec_hook_pairs(*h));
                    lemma_encode_attribute_len(
                        NFTA_HOOK_HOOKNUM,
                        AttrValue::U32(h.0.spec_code()),
                    );
                    lemma_encode_attribute_len(
                        NFTA_HOOK_PRIORITY,
                        AttrValue::U32(spec_i32_wire(h.1)),
                    );
                    crate::attribute::lemma_fixed_attr_wf(AttrValue::U32(h.0.spec_code()));
                    crate::attribute::lemma_fixed_attr_wf(AttrValue::U32(spec_i32_wire(h.1)));
                    let hp = spec_hook_pairs(*h);
                    assert(hp.subrange(1, 2) =~= seq![hp[1]]);
                    assert(seq![hp[1]].subrange(1, 1) =~= Seq::<(u16, AttrValue)>::empty());
                    assert(spec_encode_pairs(Seq::<(u16, AttrValue)>::empty()) == Seq::<
                        u8,
                    >::empty());
                    assert(spec_encode_pairs(seq![hp[1]]) =~= spec_encode_attribute(
                        hp[1].0,
                        hp[1].1,
                    ));
                    assert(spec_encode_pairs(hp) =~= spec_encode_attribute(hp[0].0, hp[0].1)
                        + spec_encode_pairs(hp.subrange(1, 2)));
                }
                let mut buf: Vec<u8> = Vec::new();
                inner.serialize(&mut buf);
                Some(buf)
            },
        };
        append_opt_nested(&mut attrs, NFTA_CHAIN_HOOK, &hook_bytes);
        let policy_code: Option<u32> = match (&self.hook, &self.policy) {
            (Some(_), Some(p)) => Some(p.code()),
            _ => None,
        };
        append_opt_u32(&mut attrs, NFTA_CHAIN_POLICY, policy_code);
        proof {
            assert(attrs.pairs() =~= self@.spec_attrs());
        }
        attrs
    }
}

} // verus!
