//! Verdicts: the terminal outcome of rule evaluation for a packet. Most are
//! carried as an immediate load into the verdict register; a rejection is a
//! distinct wire expression.

use vstd::prelude::*;
use vstd::utf8::encode_utf8;

use crate::attribute::{
    AttrKind, AttrValue, Attribute, MAX_ATTR_PAYLOAD, NfNetlinkAttributes, decode_typed_attribute,
    spec_lookup,
};
use crate::error::DecodeError;
use crate::expr::{append_opt_str, append_opt_u32, lemma_lookup_opt_head, opt_pair, opt_str, opt_u32};
use crate::parser::NetlinkType;

verus! {

pub const NFTA_VERDICT_CODE: u16 = 1;

pub const NFTA_VERDICT_CHAIN: u16 = 2;

/// Numeric verdict codes, as 32-bit wire values (the negative kernel codes
/// in two's complement).
pub const NF_DROP_CODE: u32 = 0;

pub const NF_ACCEPT_CODE: u32 = 1;

pub const NF_QUEUE_CODE: u32 = 3;

pub const NFT_CONTINUE_CODE: u32 = 0xffff_ffff;

pub const NFT_BREAK_CODE: u32 = 0xffff_fffe;

pub const NFT_JUMP_CODE: u32 = 0xffff_fffd;

pub const NFT_GOTO_CODE: u32 = 0xffff_fffc;

pub const NFT_RETURN_CODE: u32 = 0xffff_fffb;

/// The terminal outcome of rule evaluation for a packet. Jumping and going
/// to a chain carry the target chain's name; a rejection is not expressible
/// through the immediate path and becomes a separate expression.
#[derive(Debug, Clone)]
pub enum Verdict {
    /// Silently drop the packet.
    Drop,
    /// Accept the packet and let it pass.
    Accept,
    /// Reject the packet and return a message.
    Reject,
    Queue,
    Continue,
    Break,
    Jump { chain: String },
    Goto { chain: String },
    Return,
}

/// Mathematical image of [`Verdict`].
pub enum VerdictView {
    Drop,
    Accept,
    Reject,
    Queue,
    Continue,
    Break,
    Jump { chain: Seq<char> },
    Goto { chain: Seq<char> },
    Return,
}

impl View for Verdict {
    type V = VerdictView;

    open spec fn view(&self) -> VerdictView {
        match self {
            Verdict::Drop => VerdictView::Drop,
            Verdict::Accept => VerdictView::Accept,
            Verdict::Reject => VerdictView::Reject,
            Verdict::Queue => VerdictView::Queue,
            Verdict::Continue => VerdictView::Continue,
            Verdict::Break => VerdictView::Break,
            Verdict::Jump { chain } => VerdictView::Jump { chain: chain@ },
            Verdict::Goto { chain } => VerdictView::Goto { chain: chain@ },
            Verdict::Return => VerdictView::Return,
        }
    }
}

impl VerdictView {
    /// The numeric code of a verdict the immediate path can carry; a
    /// rejection has none.
    pub open spec fn spec_immediate_code(self) -> Option<u32> {
        match self {
            VerdictView::Drop => Some(NF_DROP_CODE),
            VerdictView::Accept => Some(NF_ACCEPT_CODE),
            VerdictView::Reject => None,
            VerdictView::Queue => Some(NF_QUEUE_CODE),
            VerdictView::Continue => Some(NFT_CONTINUE_CODE),
            VerdictView::Break => Some(NFT_BREAK_CODE),
            VerdictView::Jump { .. } => Some(NFT_JUMP_CODE),
            VerdictView::Goto { .. } => Some(NFT_GOTO_CODE),
            VerdictView::Return => Some(NFT_RETURN_CODE),
        }
    }

    /// The target chain name, for jumping and going only.
    pub open spec fn spec_chain(self) -> Option<Seq<char>> {
        match self {
            VerdictView::Jump { chain } => Some(chain),
            VerdictView::Goto { chain } => Some(chain),
            _ => None,
        }
    }

    /// The attribute pairs of the verdict's wire form: its code, and the
    /// target chain when there is one.
    pub open spec fn spec_pairs(self) -> Seq<(u16, AttrValue)> {
        opt_pair(NFTA_VERDICT_CODE, opt_u32(self.spec_immediate_code())) + opt_pair(
            NFTA_VERDICT_CHAIN,
            opt_str(self.spec_chain()),
        )
    }

    /// A chain name must fit one attribute.
    pub open spec fn wf(self) -> bool {
        match self.spec_chain() {
            None => true,
            Some(c) => encode_utf8(c).len() <= MAX_ATTR_PAYLOAD,
        }
    }
}

/// The verdict a code and an optional chain name stand for: the chain is
/// demanded exactly by the jumping codes.
pub open spec fn spec_verdict_of(code: u32, chain: Option<Seq<char>>) -> Option<VerdictView> {
    match chain {
        None => if code == NF_DROP_CODE {
            Some(VerdictView::Drop)
        } else if code == NF_ACCEPT_CODE {
            Some(VerdictView::Accept)
        } else if code == NF_QUEUE_CODE {
            Some(VerdictView::Queue)
        } else if code == NFT_CONTINUE_CODE {
            Some(VerdictView::Continue)
        } else if code == NFT_BREAK_CODE {
            Some(VerdictView::Break)
        } else if code == NFT_RETURN_CODE {
            Some(VerdictView::Return)
        } else {
            None
        },
        Some(c) => if code == NFT_JUMP_CODE {
            Some(VerdictView::Jump { chain: c })
        } else if code == NFT_GOTO_CODE {
            Some(VerdictView::Goto { chain: c })
        } else {
            None
        },
    }
}

/// The verdict a pair sequence decodes to: the code must be present, and the
/// chain name is allowed exactly where the code demands one.
pub open spec fn spec_verdict_from_pairs(s: Seq<(u16, AttrValue)>) -> Result<
    VerdictView,
    DecodeError,
> {
    let code = spec_lookup(s, NFTA_VERDICT_CODE);
    let chain = spec_lookup(s, NFTA_VERDICT_CHAIN);
    match (code, chain) {
        (Some(AttrValue::U32(c)), None) => match spec_verdict_of(c, None) {
            Some(v) => Ok(v),
            None => Err(DecodeError::InvalidAttributeType),
        },
        (Some(AttrValue::U32(c)), Some(AttrValue::Str(ch))) => match spec_verdict_of(
            c,
            Some(ch),
        ) {
            Some(v) => Ok(v),
            None => Err(DecodeError::InvalidAttributeType),
        },
        _ => Err(DecodeError::InvalidAttributeType),
    }
}

impl Verdict {
    /// The numeric code of a verdict the immediate path can carry.
    pub fn immediate_code(&self) -> (r: Option<u32>)
        ensures
            r == self@.spec_immediate_code(),
    {
        match self {
            Verdict::Drop => Some(NF_DROP_CODE),
            Verdict::Accept => Some(NF_ACCEPT_CODE),
            Verdict::Reject => None,
            Verdict::Queue => Some(NF_QUEUE_CODE),
            Verdict::Continue => Some(NFT_CONTINUE_CODE),
            Verdict::Break => Some(NFT_BREAK_CODE),
            Verdict::Jump { .. } => Some(NFT_JUMP_CODE),
            Verdict::Goto { .. } => Some(NFT_GOTO_CODE),
            Verdict::Return => Some(NFT_RETURN_CODE),
        }
    }

    /// The target chain name, for jumping and going only.
    pub fn chain(&self) -> (r: Option<&String>)
        ensures
            match r {
                Some(c) => self@.spec_chain() == Some(c@),
                None => self@.spec_chain() is None,
            },
    {
        match self {
            Verdict::Jump { chain } => Some(chain),
            Verdict::Goto { chain } => Some(chain),
            _ => None,
        }
    }

    /// The verdict as an attribute set; a rejection has no immediate form.
    pub fn to_attrs(&self) -> (r: NfNetlinkAttributes)
        requires
            !(self@ is Reject),
            self@.wf(),
        ensures
            r.wf(),
            r.pairs() == self@.spec_pairs(),
    {
        let mut attrs = NfNetlinkAttributes::new();
        append_opt_u32(&mut attrs, NFTA_VERDICT_CODE, self.immediate_code());
        let chain: Option<String> = match self.chain() {
            Some(c) => Some(c.clone()),
            None => None,
        };
        append_opt_str(&mut attrs, NFTA_VERDICT_CHAIN, &chain);
        proof {
            assert(attrs.pairs() =~= self@.spec_pairs());
        }
        attrs
    }

    /// The verdict a decoded attribute set stands for.
    pub fn from_attrs(attrs: &NfNetlinkAttributes) -> (r: Result<Self, DecodeError>)
        ensures
            match r {
                Ok(v) => spec_verdict_from_pairs(attrs.pairs()) == Ok::<VerdictView, DecodeError>(
                    v@,
                ),
                Err(e) => spec_verdict_from_pairs(attrs.pairs()) == Err::<VerdictView, DecodeError>(
                    e,
                ),
            },
    {
        let code: u32 = match attrs.get_attr(NFTA_VERDICT_CODE) {
            Some(Attribute::U32(c)) => *c,
            _ => {
                return Err(DecodeError::InvalidAttributeType);
            },
        };
        match attrs.get_attr(NFTA_VERDICT_CHAIN) {
            None => {
                if code == NF_DROP_CODE {
                    Ok(Verdict::Drop)
                } else if code == NF_ACCEPT_CODE {
                    Ok(Verdict::Accept)
                } else if code == NF_QUEUE_CODE {
                    Ok(Verdict::Queue)
                } else if code == NFT_CONTINUE_CODE {
                    Ok(Verdict::Continue)
                } else if code == NFT_BREAK_CODE {
                    Ok(Verdict::Break)
                } else if code == NFT_RETURN_CODE {
                    Ok(Verdict::Return)
                } else {
                    Err(DecodeError::InvalidAttributeType)
                }
            },
            Some(Attribute::Str(ch)) => {
                if code == NFT_JUMP_CODE {
                    Ok(Verdict::Jump { chain: ch.clone() })
                } else if code == NFT_GOTO_CODE {
                    Ok(Verdict::Goto { chain: ch.clone() })
                } else {
                    Err(DecodeError::InvalidAttributeType)
                }
            },
            Some(_) => Err(DecodeError::InvalidAttributeType),
        }
    }
}

/// Law: every verdict the immediate path can carry decodes back from its own
/// attribute pairs.
pub proof fn lemma_verdict_round_trip(v: VerdictView)
    requires
        !(v is Reject),
    ensures
        spec_verdict_from_pairs(v.spec_pairs()) == Ok::<VerdictView, DecodeError>(v),
{
    let code = opt_u32(v.spec_immediate_code());
    let chain = opt_str(v.spec_chain());
    let tail = opt_pair(NFTA_VERDICT_CHAIN, chain);
    let empty = Seq::<(u16, AttrValue)>::empty();
    assert(opt_pair(NFTA_VERDICT_CHAIN, chain) + empty =~= tail);
    assert(spec_lookup(empty, NFTA_VERDICT_CODE) == None::<AttrValue>);
    assert(spec_lookup(empty, NFTA_VERDICT_CHAIN) == None::<AttrValue>);
    lemma_lookup_opt_head(NFTA_VERDICT_CODE, code, tail, NFTA_VERDICT_CODE);
    lemma_lookup_opt_head(NFTA_VERDICT_CODE, code, tail, NFTA_VERDICT_CHAIN);
    lemma_lookup_opt_head(NFTA_VERDICT_CHAIN, chain, empty, NFTA_VERDICT_CODE);
    lemma_lookup_opt_head(NFTA_VERDICT_CHAIN, chain, empty, NFTA_VERDICT_CHAIN);
}

impl crate::nlmsg::AttributeDecoder for Verdict {
    open spec fn spec_attr_kind(ty: u16) -> AttrKind {
        if ty == NFTA_VERDICT_CODE {
            AttrKind::U32
        } else if ty == NFTA_VERDICT_CHAIN {
            AttrKind::Str
        } else {
            AttrKind::Unknown
        }
    }

    fn decode_attribute(ty: NetlinkType, buf: &[u8]) -> (r: Result<Attribute, DecodeError>) {
        let kind = if ty == NFTA_VERDICT_CODE {
            AttrKind::U32
        } else if ty == NFTA_VERDICT_CHAIN {
            AttrKind::Str
        } else {
            AttrKind::Unknown
        };
        decode_typed_attribute(kind, ty, buf)
    }
}

} // verus!
