//! Source-address masquerading: rewrites the source address to the outgoing
//! interface's address; carries no parameters beyond its presence.

use vstd::prelude::*;

use crate::attribute::{AttrKind, AttrValue, Attribute, NfNetlinkAttributes, decode_typed_attribute};
use crate::error::DecodeError;
use crate::expr::Expression;
use crate::parser::NetlinkType;

verus! {

/// Rewrites the source address to the outgoing interface's address.
#[derive(Debug, Clone)]
pub struct Masquerade {}

/// Mathematical image of [`Masquerade`].
pub struct MasqueradeView {}

impl View for Masquerade {
    type V = MasqueradeView;

    open spec fn view(&self) -> MasqueradeView {
        MasqueradeView {}
    }
}

impl MasqueradeView {
    /// Masquerading carries no attributes.
    pub open spec fn spec_pairs(self) -> Seq<(u16, AttrValue)> {
        Seq::empty()
    }

    pub open spec fn wf(self) -> bool {
        true
    }
}

/// Only an empty attribute set decodes as masquerading.
pub open spec fn spec_masquerade_from_pairs(s: Seq<(u16, AttrValue)>) -> Result<
    MasqueradeView,
    DecodeError,
> {
    if s.len() == 0 {
        Ok(MasqueradeView {})
    } else {
        Err(DecodeError::InvalidAttributeType)
    }
}

impl Masquerade {
    /// The expression as an attribute set.
    pub fn to_attrs(&self) -> (r: NfNetlinkAttributes)
        ensures
            r.wf(),
            r.pairs() == self@.spec_pairs(),
    {
        NfNetlinkAttributes::new()
    }

    /// The expression a decoded attribute set stands for.
    pub fn from_attrs(attrs: &NfNetlinkAttributes) -> (r: Result<Self, DecodeError>)
        ensures
            match r {
                Ok(e) => spec_masquerade_from_pairs(attrs.pairs()) == Ok::<
                    MasqueradeView,
                    DecodeError,
                >(e@),
                Err(e) => spec_masquerade_from_pairs(attrs.pairs()) == Err::<
                    MasqueradeView,
                    DecodeError,
                >(e),
            },
    {
        if attrs.len() == 0 {
            Ok(Masquerade {})
        } else {
            Err(DecodeError::InvalidAttributeType)
        }
    }
}

/// Law: masquerading decodes back from its own (empty) attribute pairs.
pub proof fn lemma_masquerade_round_trip(v: MasqueradeView)
    ensures
        spec_masquerade_from_pairs(v.spec_pairs()) == Ok::<MasqueradeView, DecodeError>(v),
{
}

impl crate::nlmsg::AttributeDecoder for Masquerade {
    open spec fn spec_attr_kind(ty: u16) -> AttrKind {
        AttrKind::Unknown
    }

    fn decode_attribute(ty: NetlinkType, buf: &[u8]) -> (r: Result<Attribute, DecodeError>) {
        decode_typed_attribute(AttrKind::Unknown, ty, buf)
    }
}

impl Expression for Masquerade {
    open spec fn spec_name() -> Seq<char> {
        "masq"@
    }

    fn get_name() -> (r: &'static str) {
        proof {
            reveal_strlit("masq");
            assert(vstd::string::is_ascii("masq"));
            vstd::string::is_ascii_spec_bytes("masq");
        }
        "masq"
    }
}

} // verus!
