//! Counts the packets and bytes of every packet that reached this
//! point of the rule.

use vstd::prelude::*;

use crate::attribute::{AttrKind, AttrValue, Attribute, NfNetlinkAttributes, decode_typed_attribute, spec_lookup};
use crate::attribute::{lemma_fixed_attr_wf, lemma_insert_append};
use crate::error::DecodeError;
use crate::parser::NetlinkType;
use crate::expr::{Expression, append_opt_u32, append_opt_u64, lemma_lookup_opt_head, opt_pair, opt_u32, opt_u64};

verus! {

pub const NFTA_COUNTER_BYTES: u16 = 1;

pub const NFTA_COUNTER_PACKETS: u16 = 2;

/// A packet and byte counter; the kernel fills the numbers in.
#[derive(Debug, Clone)]
pub struct Counter {
    nb_bytes: Option<u64>,
    nb_packets: Option<u64>,
}

/// Mathematical image of [`Counter`].
pub struct CounterView {
    pub nb_bytes: Option<u64>,
    pub nb_packets: Option<u64>,
}

impl View for Counter {
    type V = CounterView;

    closed spec fn view(&self) -> CounterView {
        CounterView {
            nb_bytes: self.nb_bytes,
            nb_packets: self.nb_packets,
        }
    }
}

impl CounterView {
    /// The attribute pairs of the present fields, in ascending tag order.
    pub open spec fn spec_pairs(self) -> Seq<(u16, AttrValue)> {
        opt_pair(NFTA_COUNTER_BYTES, opt_u64(self.nb_bytes)) + (opt_pair(NFTA_COUNTER_PACKETS, opt_u64(self.nb_packets)))
    }

    /// Every present field fits one attribute.
    pub open spec fn wf(self) -> bool {
        true
    }
}

/// The expression a pair sequence decodes to: every recognized tag must
/// carry its field's kind and a mappable code.
pub open spec fn spec_counter_from_pairs(s: Seq<(u16, AttrValue)>) -> Result<CounterView, DecodeError> {
    let nb_bytes = spec_lookup(s, NFTA_COUNTER_BYTES);
    let nb_packets = spec_lookup(s, NFTA_COUNTER_PACKETS);
    if !(match nb_bytes {
        None => true,
        Some(AttrValue::U64(_)) => true,
        Some(_) => false,
    } && match nb_packets {
        None => true,
        Some(AttrValue::U64(_)) => true,
        Some(_) => false,
    }) {
        Err(DecodeError::InvalidAttributeType)
    } else {
        Ok(
            CounterView {
                nb_bytes: match nb_bytes {
                    Some(AttrValue::U64(x)) => Some(x),
                    _ => None,
                },
                nb_packets: match nb_packets {
                    Some(AttrValue::U64(x)) => Some(x),
                    _ => None,
                },
            },
        )
    }
}

impl Counter {
    /// An expression with no fields set.
    pub fn empty() -> (r: Self)
        ensures
            r@.nb_bytes == None::<u64>,
            r@.nb_packets == None::<u64>,
    {
        Counter { nb_bytes: None, nb_packets: None }
    }

    /// A fresh counter starting at zero.
    pub fn new() -> (r: Self)
        ensures
            r@.nb_bytes == None::<u64>,
            r@.nb_packets == None::<u64>,
    {
        Counter { nb_bytes: None, nb_packets: None }
    }

    pub fn get_nb_bytes(&self) -> (r: Option<&u64>)
        ensures
            match r {
                Some(x) => self@.nb_bytes == Some(*x),
                None => self@.nb_bytes is None,
            },
    {
        self.nb_bytes.as_ref()
    }

    pub fn set_nb_bytes(&mut self, nb_bytes: u64)
        ensures
            final(self)@ == (CounterView { nb_bytes: Some(nb_bytes), ..old(self)@ }),
    {
        self.nb_bytes = Some(nb_bytes);
    }

    pub fn with_nb_bytes(self, nb_bytes: u64) -> (r: Self)
        ensures
            r@ == (CounterView { nb_bytes: Some(nb_bytes), ..self@ }),
    {
        Counter { nb_bytes: Some(nb_bytes), ..self }
    }

    pub fn get_nb_packets(&self) -> (r: Option<&u64>)
        ensures
            match r {
                Some(x) => self@.nb_packets == Some(*x),
                None => self@.nb_packets is None,
            },
    {
        self.nb_packets.as_ref()
    }

    pub fn set_nb_packets(&mut self, nb_packets: u64)
        ensures
            final(self)@ == (CounterView { nb_packets: Some(nb_packets), ..old(self)@ }),
    {
        self.nb_packets = Some(nb_packets);
    }

    pub fn with_nb_packets(self, nb_packets: u64) -> (r: Self)
        ensures
            r@ == (CounterView { nb_packets: Some(nb_packets), ..self@ }),
    {
        Counter { nb_packets: Some(nb_packets), ..self }
    }

    /// The expression as an attribute set.
    pub fn to_attrs(&self) -> (r: NfNetlinkAttributes)
        requires
            self@.wf(),
        ensures
            r.wf(),
            r.pairs() == self@.spec_pairs(),
    {
        let mut attrs = NfNetlinkAttributes::new();
        append_opt_u64(&mut attrs, NFTA_COUNTER_BYTES, self.nb_bytes);
        append_opt_u64(&mut attrs, NFTA_COUNTER_PACKETS, self.nb_packets);
        proof {
            assert(attrs.pairs() =~= self@.spec_pairs());
        }
        attrs
    }

    /// The expression a decoded attribute set stands for.
    pub fn from_attrs(attrs: &NfNetlinkAttributes) -> (r: Result<Self, DecodeError>)
        ensures
            match r {
                Ok(e) => spec_counter_from_pairs(attrs.pairs()) == Ok::<CounterView, DecodeError>(e@),
                Err(e) => spec_counter_from_pairs(attrs.pairs()) == Err::<CounterView, DecodeError>(e),
            },
    {
        let nb_bytes = match attrs.get_attr(NFTA_COUNTER_BYTES) {
            None => None,
            Some(Attribute::U64(x)) => Some(*x),
            Some(_) => {
                return Err(DecodeError::InvalidAttributeType);
            },
        };
        let nb_packets = match attrs.get_attr(NFTA_COUNTER_PACKETS) {
            None => None,
            Some(Attribute::U64(x)) => Some(*x),
            Some(_) => {
                return Err(DecodeError::InvalidAttributeType);
            },
        };
        Ok(Counter { nb_bytes, nb_packets })
    }
}

/// Law: the expression decodes back from its own attribute pairs.
pub proof fn lemma_counter_round_trip(v: CounterView)
    ensures
        spec_counter_from_pairs(v.spec_pairs()) == Ok::<CounterView, DecodeError>(v),
{
    let s = v.spec_pairs();
    let empty = Seq::<(u16, AttrValue)>::empty();
    let tail1 = opt_pair(NFTA_COUNTER_PACKETS, opt_u64(v.nb_packets));
    assert(opt_pair(NFTA_COUNTER_PACKETS, opt_u64(v.nb_packets)) + empty =~= tail1);
    assert(spec_lookup(empty, NFTA_COUNTER_BYTES) == None::<AttrValue>);
    assert(spec_lookup(empty, NFTA_COUNTER_PACKETS) == None::<AttrValue>);
    lemma_lookup_opt_head(NFTA_COUNTER_BYTES, opt_u64(v.nb_bytes), tail1, NFTA_COUNTER_BYTES);
    lemma_lookup_opt_head(NFTA_COUNTER_BYTES, opt_u64(v.nb_bytes), tail1, NFTA_COUNTER_PACKETS);
    lemma_lookup_opt_head(NFTA_COUNTER_PACKETS, opt_u64(v.nb_packets), empty, NFTA_COUNTER_BYTES);
    lemma_lookup_opt_head(NFTA_COUNTER_PACKETS, opt_u64(v.nb_packets), empty, NFTA_COUNTER_PACKETS);
}

impl crate::nlmsg::AttributeDecoder for Counter {
    open spec fn spec_attr_kind(ty: u16) -> AttrKind {
        if ty == NFTA_COUNTER_BYTES {
            AttrKind::U64
        } else if ty == NFTA_COUNTER_PACKETS {
            AttrKind::U64
        } else {
            AttrKind::Unknown
        }
    }

    fn decode_attribute(ty: NetlinkType, buf: &[u8]) -> (r: Result<Attribute, DecodeError>) {
        let kind = if ty == NFTA_COUNTER_BYTES {
            AttrKind::U64
        } else if ty == NFTA_COUNTER_PACKETS {
            AttrKind::U64
        } else {
            AttrKind::Unknown
        };
        decode_typed_attribute(kind, ty, buf)
    }
}

impl Expression for Counter {
    open spec fn spec_name() -> Seq<char> {
        "counter"@
    }

    fn get_name() -> (r: &'static str) {
        proof {
            reveal_strlit("counter");
            assert(vstd::string::is_ascii("counter"));
            vstd::string::is_ascii_spec_bytes("counter");
        }
        "counter"
    }
}

} // verus!
