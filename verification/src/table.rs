//! The table object: the root container of chains and rules, named and bound
//! to a protocol family.

use vstd::prelude::*;
use vstd::utf8::encode_utf8;

use crate::MsgType;
use crate::ProtocolFamily;
use crate::attribute::{
    AttrKind, AttrValue, Attribute, MAX_ATTR_PAYLOAD, NfNetlinkAttributes, decode_typed_attribute,
    spec_lookup,
};
use crate::error::DecodeError;
use crate::expr::append_opt_str;
use crate::nlmsg::{AttributeDecoder, NfNetlinkObject};
use crate::parser::NetlinkType;

verus! {

pub const NFTA_TABLE_NAME: u16 = 1;

/// Operation codes of table messages.
pub const NFT_MSG_NEWTABLE: u8 = 0;

pub const NFT_MSG_GETTABLE: u8 = 1;

pub const NFT_MSG_DELTABLE: u8 = 2;

/// A top-level nftables table: a name and a protocol family. The family
/// travels in the message header, not as an attribute.
#[derive(Debug, Clone)]
pub struct Table {
    name: String,
    family: ProtocolFamily,
}

/// Mathematical image of [`Table`].
pub struct TableView {
    pub name: Seq<char>,
    pub family: ProtocolFamily,
}

impl View for Table {
    type V = TableView;

    closed spec fn view(&self) -> TableView {
        TableView { name: self.name@, family: self.family }
    }
}

impl TableView {
    /// A table serializes as its name alone.
    pub open spec fn spec_attrs(self) -> Seq<(u16, AttrValue)> {
        seq![(NFTA_TABLE_NAME, AttrValue::Str(self.name))]
    }

    /// The name must fit one attribute.
    pub open spec fn wf(self) -> bool {
        encode_utf8(self.name).len() <= MAX_ATTR_PAYLOAD
    }
}

impl Table {
    /// A table under `name`, operating on `family`.
    pub fn new(name: &str, family: ProtocolFamily) -> (r: Table)
        ensures
            r@.name == name@,
            r@.family == family,
    {
        Table { name: name.to_owned(), family }
    }

    pub fn get_name(&self) -> (r: &str)
        ensures
            r@ == self@.name,
    {
        self.name.as_str()
    }

    pub fn get_family(&self) -> (r: ProtocolFamily)
        ensures
            r == self@.family,
    {
        self.family
    }
}

impl AttributeDecoder for Table {
    open spec fn spec_attr_kind(ty: u16) -> AttrKind {
        if ty == NFTA_TABLE_NAME {
            AttrKind::Str
        } else {
            AttrKind::Unknown
        }
    }

    fn decode_attribute(ty: NetlinkType, buf: &[u8]) -> (r: Result<Attribute, DecodeError>) {
        let kind = if ty == NFTA_TABLE_NAME {
            AttrKind::Str
        } else {
            AttrKind::Unknown
        };
        decode_typed_attribute(kind, ty, buf)
    }
}

impl NfNetlinkObject for Table {
    open spec fn spec_add_op() -> u8 {
        NFT_MSG_NEWTABLE
    }

    open spec fn spec_del_op() -> u8 {
        NFT_MSG_DELTABLE
    }

    fn get_msg_op(op: MsgType) -> (r: u8) {
        match op {
            MsgType::Add => NFT_MSG_NEWTABLE,
            MsgType::Del => NFT_MSG_DELTABLE,
        }
    }

    open spec fn spec_family(&self) -> ProtocolFamily {
        self@.family
    }

    fn family(&self) -> (r: ProtocolFamily) {
        self.family
    }

    open spec fn spec_attrs(&self) -> Seq<(u16, AttrValue)> {
        self@.spec_attrs()
    }

    open spec fn spec_serializable(&self) -> bool {
        self@.wf()
    }

    fn to_attrs(&self) -> (r: NfNetlinkAttributes) {
        let mut attrs = NfNetlinkAttributes::new();
        let name: Option<String> = Some(self.name.clone());
        append_opt_str(&mut attrs, NFTA_TABLE_NAME, &name);
        proof {
            assert(attrs.pairs() =~= self@.spec_attrs());
        }
        attrs
    }
}

/// The table a decoded attribute set stands for (its family arrives in the
/// message header and is supplied alongside).
pub open spec fn spec_table_from_pairs(s: Seq<(u16, AttrValue)>, family: ProtocolFamily) -> Result<
    TableView,
    DecodeError,
> {
    match spec_lookup(s, NFTA_TABLE_NAME) {
        Some(AttrValue::Str(n)) => Ok(TableView { name: n, family }),
        _ => Err(DecodeError::InvalidAttributeType),
    }
}

impl Table {
    /// The table a decoded attribute set stands for.
    pub fn from_attrs(attrs: &NfNetlinkAttributes, family: ProtocolFamily) -> (r: Result<
        Table,
        DecodeError,
    >)
        ensures
            match r {
                Ok(t) => spec_table_from_pairs(attrs.pairs(), family) == Ok::<
                    TableView,
                    DecodeError,
                >(t@),
                Err(e) => spec_table_from_pairs(attrs.pairs(), family) == Err::<
                    TableView,
                    DecodeError,
                >(e),
            },
    {
        match attrs.get_attr(NFTA_TABLE_NAME) {
            Some(Attribute::Str(n)) => Ok(Table { name: n.clone(), family }),
            _ => Err(DecodeError::InvalidAttributeType),
        }
    }
}

} // verus!
