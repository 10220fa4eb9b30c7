//! The attribute (TLV) codec: length-prefixed, 4-byte-aligned attributes,
//! the closed set of value kinds they carry, and ordered attribute sets.
//!
//! One attribute is encoded as a 4-byte header `{length: u16, type: u16}`
//! followed by the payload padded up to the next 4-byte boundary; the length
//! field holds the header size plus the unpadded payload size. A nested
//! attribute carries a recursively encoded child attribute set as payload,
//! marked only by the NESTED flag bit of its type.

use vstd::prelude::*;
use vstd::bytes::*;
use vstd::slice::{slice_subrange, slice_to_vec};
use vstd::utf8::{valid_utf8, decode_utf8, encode_utf8};

use crate::ProtocolFamily;
use crate::error::DecodeError;
use crate::parser::{NetlinkType, spec_pad_netlink_size, pad_netlink_object_with_variable_size};

verus! {

/// Type flag: the payload is a nested attribute set.
pub const NLA_F_NESTED: u16 = 0x8000;

/// Type flag: the payload is in network byte order.
pub const NLA_F_NET_BYTEORDER: u16 = 0x4000;

/// The low 14 bits of a type tag identify the field; the flags above are
/// masked off before dispatch.
pub const NLA_TYPE_MASK: u16 = 0x3fff;

/// Wire size of an attribute header.
pub const NLA_HDR_SIZE: usize = 4;

/// Largest payload representable in an attribute's 16-bit length field.
pub const MAX_ATTR_PAYLOAD: usize = 0xffff - 4;

/// A typed attribute value: the closed union of payloads the protocol
/// carries.
#[derive(Debug, Clone)]
pub enum Attribute {
    /// UTF-8 text, encoded without a terminator.
    Str(String),
    U8(u8),
    U16(u16),
    U32(u32),
    U64(u64),
    /// An opaque byte string.
    Bytes(Vec<u8>),
    /// An already-encoded child attribute set; its tag carries
    /// [`NLA_F_NESTED`] on the wire.
    Nested(Vec<u8>),
    /// A protocol family, carried as its 32-bit code.
    ProtoFamily(ProtocolFamily),
}

/// Mathematical image of [`Attribute`].
pub enum AttrValue {
    Str(Seq<char>),
    U8(u8),
    U16(u16),
    U32(u32),
    U64(u64),
    Bytes(Seq<u8>),
    Nested(Seq<u8>),
    ProtoFamily(ProtocolFamily),
}

impl View for Attribute {
    type V = AttrValue;

    open spec fn view(&self) -> AttrValue {
        match self {
            Attribute::Str(s) => AttrValue::Str(s@),
            Attribute::U8(x) => AttrValue::U8(*x),
            Attribute::U16(x) => AttrValue::U16(*x),
            Attribute::U32(x) => AttrValue::U32(*x),
            Attribute::U64(x) => AttrValue::U64(*x),
            Attribute::Bytes(b) => AttrValue::Bytes(b@),
            Attribute::Nested(b) => AttrValue::Nested(b@),
            Attribute::ProtoFamily(f) => AttrValue::ProtoFamily(*f),
        }
    }
}

/// The unpadded payload bytes a value writes.
pub open spec fn spec_attr_payload(v: AttrValue) -> Seq<u8> {
    match v {
        AttrValue::Str(s) => encode_utf8(s),
        AttrValue::U8(x) => seq![x],
        AttrValue::U16(x) => spec_u16_to_le_bytes(x),
        AttrValue::U32(x) => spec_u32_to_le_bytes(x),
        AttrValue::U64(x) => spec_u64_to_le_bytes(x),
        AttrValue::Bytes(b) => b,
        AttrValue::Nested(b) => b,
        AttrValue::ProtoFamily(f) => spec_u32_to_le_bytes(f.spec_code()),
    }
}

/// A value fits one attribute when its payload and the header fit the
/// 16-bit length field.
pub open spec fn spec_attr_wf(v: AttrValue) -> bool {
    spec_attr_payload(v).len() <= MAX_ATTR_PAYLOAD
}

/// A value that knows its encoded payload size and how to write itself.
pub trait NfNetlinkAttribute: Sized {
    /// The unpadded payload bytes this value writes.
    spec fn spec_payload(&self) -> Seq<u8>;

    /// The unpadded payload size.
    fn get_size(&self) -> (r: usize)
        requires
            self.spec_payload().len() <= usize::MAX,
        ensures
            r == self.spec_payload().len(),
    ;

    /// Appends the unpadded payload to `out`.
    fn write_payload(&self, out: &mut Vec<u8>)
        ensures
            final(out)@ == old(out)@ + self.spec_payload(),
    ;
}

impl NfNetlinkAttribute for u8 {
    open spec fn spec_payload(&self) -> Seq<u8> {
        seq![*self]
    }

    fn get_size(&self) -> (r: usize) {
        1
    }

    fn write_payload(&self, out: &mut Vec<u8>) {
        out.push(*self);
        proof {
            assert(out@ =~= old(out)@ + seq![*self]);
        }
    }
}

impl NfNetlinkAttribute for u16 {
    open spec fn spec_payload(&self) -> Seq<u8> {
        spec_u16_to_le_bytes(*self)
    }

    fn get_size(&self) -> (r: usize) {
        proof {
            lemma_auto_spec_u16_to_from_le_bytes();
        }
        2
    }

    fn write_payload(&self, out: &mut Vec<u8>) {
        let mut b = u16_to_le_bytes(*self);
        out.append(&mut b);
    }
}

impl NfNetlinkAttribute for u32 {
    open spec fn spec_payload(&self) -> Seq<u8> {
        spec_u32_to_le_bytes(*self)
    }

    fn get_size(&self) -> (r: usize) {
        proof {
            lemma_auto_spec_u32_to_from_le_bytes();
        }
        4
    }

    fn write_payload(&self, out: &mut Vec<u8>) {
        let mut b = u32_to_le_bytes(*self);
        out.append(&mut b);
    }
}

impl NfNetlinkAttribute for u64 {
    open spec fn spec_payload(&self) -> Seq<u8> {
        spec_u64_to_le_bytes(*self)
    }

    fn get_size(&self) -> (r: usize) {
        proof {
            lemma_auto_spec_u64_to_from_le_bytes();
        }
        8
    }

    fn write_payload(&self, out: &mut Vec<u8>) {
        let mut b = u64_to_le_bytes(*self);
        out.append(&mut b);
    }
}

impl NfNetlinkAttribute for String {
    open spec fn spec_payload(&self) -> Seq<u8> {
        encode_utf8(self@)
    }

    fn get_size(&self) -> (r: usize) {
        self.as_str().len()
    }

    fn write_payload(&self, out: &mut Vec<u8>) {
        out.extend_from_slice(self.as_str().as_bytes());
    }
}

impl NfNetlinkAttribute for Vec<u8> {
    open spec fn spec_payload(&self) -> Seq<u8> {
        self@
    }

    fn get_size(&self) -> (r: usize) {
        self.len()
    }

    fn write_payload(&self, out: &mut Vec<u8>) {
        out.extend_from_slice(self.as_slice());
    }
}

impl NfNetlinkAttribute for ProtocolFamily {
    open spec fn spec_payload(&self) -> Seq<u8> {
        spec_u32_to_le_bytes(self.spec_code())
    }

    fn get_size(&self) -> (r: usize) {
        proof {
            lemma_auto_spec_u32_to_from_le_bytes();
        }
        4
    }

    fn write_payload(&self, out: &mut Vec<u8>) {
        let mut b = u32_to_le_bytes(self.code());
        out.append(&mut b);
    }
}

impl NfNetlinkAttribute for Attribute {
    open spec fn spec_payload(&self) -> Seq<u8> {
        spec_attr_payload(self@)
    }

    fn get_size(&self) -> (r: usize) {
        match self {
            Attribute::Str(s) => s.get_size(),
            Attribute::U8(x) => x.get_size(),
            Attribute::U16(x) => x.get_size(),
            Attribute::U32(x) => x.get_size(),
            Attribute::U64(x) => x.get_size(),
            Attribute::Bytes(b) => b.get_size(),
            Attribute::Nested(b) => b.get_size(),
            Attribute::ProtoFamily(f) => f.get_size(),
        }
    }

    fn write_payload(&self, out: &mut Vec<u8>) {
        match self {
            Attribute::Str(s) => s.write_payload(out),
            Attribute::U8(x) => x.write_payload(out),
            Attribute::U16(x) => x.write_payload(out),
            Attribute::U32(x) => x.write_payload(out),
            Attribute::U64(x) => x.write_payload(out),
            Attribute::Bytes(b) => b.write_payload(out),
            Attribute::Nested(b) => b.write_payload(out),
            Attribute::ProtoFamily(f) => f.write_payload(out),
        }
    }
}

/// The type tag as written: nested payloads carry the NESTED flag.
pub open spec fn spec_wire_type(ty: u16, v: AttrValue) -> u16 {
    if v is Nested {
        ty | NLA_F_NESTED
    } else {
        ty
    }
}

/// One encoded attribute: header, payload, zero padding to the next 4-byte
/// boundary. The length field holds the unpadded size.
pub open spec fn spec_encode_attribute(ty: u16, v: AttrValue) -> Seq<u8> {
    let p = spec_attr_payload(v);
    spec_u16_to_le_bytes((p.len() + 4) as u16) + spec_u16_to_le_bytes(spec_wire_type(ty, v)) + p
        + Seq::new((spec_pad_netlink_size(p.len() as int) - p.len()) as nat, |i: int| 0u8)
}

/// Appends one encoded attribute to `out`.
pub fn write_attribute(ty: NetlinkType, obj: &Attribute, out: &mut Vec<u8>)
    requires
        ty <= NLA_TYPE_MASK,
        spec_attr_wf(obj@),
    ensures
        final(out)@ == old(out)@ + spec_encode_attribute(ty, obj@),
{
    let ghost out0 = out@;
    let size = obj.get_size();
    let nla_len = (size + 4) as u16;
    let wire_ty = match obj {
        Attribute::Nested(_) => ty | NLA_F_NESTED,
        _ => ty,
    };
    let mut lb = u16_to_le_bytes(nla_len);
    out.append(&mut lb);
    let mut tb = u16_to_le_bytes(wire_ty);
    out.append(&mut tb);
    obj.write_payload(out);
    proof {
        crate::parser::lemma_pad_netlink_size(size as int);
    }
    let padded = pad_netlink_object_with_variable_size(size);
    let ghost mid = out@;
    let mut i = size;
    while i < padded
        invariant
            size <= i <= padded,
            padded == spec_pad_netlink_size(size as int),
            out@ == mid + Seq::new((i - size) as nat, |k: int| 0u8),
        decreases padded - i,
    {
        out.push(0u8);
        proof {
            assert(out@ =~= mid + Seq::new((i + 1 - size) as nat, |k: int| 0u8));
        }
        i = i + 1;
    }
    proof {
        assert((nla_len as nat) == spec_attr_payload(obj@).len() + 4);
        assert(out@ =~= out0 + spec_encode_attribute(ty, obj@));
    }
}

/// Attributes compare by kind and value.
impl PartialEq for Attribute {
    fn eq(&self, other: &Self) -> (r: bool) {
        match (self, other) {
            (Attribute::Str(a), Attribute::Str(b)) => *a == *b,
            (Attribute::U8(a), Attribute::U8(b)) => *a == *b,
            (Attribute::U16(a), Attribute::U16(b)) => *a == *b,
            (Attribute::U32(a), Attribute::U32(b)) => *a == *b,
            (Attribute::U64(a), Attribute::U64(b)) => *a == *b,
            (Attribute::Bytes(a), Attribute::Bytes(b)) => crate::expr::slice_eq(
                a.as_slice(),
                b.as_slice(),
            ),
            (Attribute::Nested(a), Attribute::Nested(b)) => crate::expr::slice_eq(
                a.as_slice(),
                b.as_slice(),
            ),
            (Attribute::ProtoFamily(a), Attribute::ProtoFamily(b)) => *a == *b,
            _ => false,
        }
    }
}

impl vstd::std_specs::cmp::PartialEqSpecImpl for Attribute {
    open spec fn obeys_eq_spec() -> bool {
        true
    }

    open spec fn eq_spec(&self, other: &Self) -> bool {
        self@ == other@
    }
}

/// The value kind an attribute tag carries for a given object kind.
#[derive(Debug, Clone, Copy, PartialEq, Eq, Structural)]
pub enum AttrKind {
    Str,
    U8,
    U16,
    U32,
    U64,
    Bytes,
    Nested,
    ProtoFamily,
    /// Not part of the object kind's schema.
    Unknown,
}

/// The kind a value belongs to.
pub open spec fn spec_kind_of(v: AttrValue) -> AttrKind {
    match v {
        AttrValue::Str(_) => AttrKind::Str,
        AttrValue::U8(_) => AttrKind::U8,
        AttrValue::U16(_) => AttrKind::U16,
        AttrValue::U32(_) => AttrKind::U32,
        AttrValue::U64(_) => AttrKind::U64,
        AttrValue::Bytes(_) => AttrKind::Bytes,
        AttrValue::Nested(_) => AttrKind::Nested,
        AttrValue::ProtoFamily(_) => AttrKind::ProtoFamily,
    }
}

/// Decodes one payload as a value of the given kind.
///
/// Fixed-width kinds demand their exact payload size; text must be valid
/// UTF-8; a family code must be a known family; a kind outside the schema is
/// rejected as `UnsupportedAttributeType`.
pub open spec fn spec_decode_typed(kind: AttrKind, ty: u16, b: Seq<u8>) -> Result<
    AttrValue,
    DecodeError,
> {
    match kind {
        AttrKind::Str => if valid_utf8(b) {
            Ok(AttrValue::Str(decode_utf8(b)))
        } else {
            Err(DecodeError::StringDecodeFailure)
        },
        AttrKind::U8 => if b.len() == 1 {
            Ok(AttrValue::U8(b[0]))
        } else {
            Err(DecodeError::InvalidAttributeType)
        },
        AttrKind::U16 => if b.len() == 2 {
            Ok(AttrValue::U16(spec_u16_from_le_bytes(b)))
        } else {
            Err(DecodeError::InvalidAttributeType)
        },
        AttrKind::U32 => if b.len() == 4 {
            Ok(AttrValue::U32(spec_u32_from_le_bytes(b)))
        } else {
            Err(DecodeError::InvalidAttributeType)
        },
        AttrKind::U64 => if b.len() == 8 {
            Ok(AttrValue::U64(spec_u64_from_le_bytes(b)))
        } else {
            Err(DecodeError::InvalidAttributeType)
        },
        AttrKind::Bytes => Ok(AttrValue::Bytes(b)),
        AttrKind::Nested => Ok(AttrValue::Nested(b)),
        AttrKind::ProtoFamily => if b.len() == 4 {
            match ProtocolFamily::spec_from_code(spec_u32_from_le_bytes(b)) {
                Some(f) => Ok(AttrValue::ProtoFamily(f)),
                None => Err(DecodeError::InvalidProtocolFamily(spec_u32_from_le_bytes(b))),
            }
        } else {
            Err(DecodeError::InvalidAttributeType)
        },
        AttrKind::Unknown => Err(DecodeError::UnsupportedAttributeType(ty)),
    }
}

pub open spec fn attr_result_view(r: Result<Attribute, DecodeError>) -> Result<
    AttrValue,
    DecodeError,
> {
    match r {
        Ok(a) => Ok(a@),
        Err(e) => Err(e),
    }
}

/// Relies on `String::from_utf8`: it succeeds exactly on valid UTF-8 input
/// and represents exactly the given bytes.
#[verifier::external_body]
fn string_from_utf8(v: Vec<u8>) -> (r: Option<String>)
    ensures
        match r {
            Some(s) => valid_utf8(v@) && s@ == decode_utf8(v@),
            None => !valid_utf8(v@),
        },
{
    String::from_utf8(v).ok()
}

/// Decodes one attribute payload as the given kind.
pub fn decode_typed_attribute(kind: AttrKind, ty: NetlinkType, buf: &[u8]) -> (r: Result<
    Attribute,
    DecodeError,
>)
    ensures
        attr_result_view(r) == spec_decode_typed(kind, ty, buf@),
{
    match kind {
        AttrKind::Str => {
            let v = slice_to_vec(buf);
            match string_from_utf8(v) {
                Some(s) => Ok(Attribute::Str(s)),
                None => Err(DecodeError::StringDecodeFailure),
            }
        },
        AttrKind::U8 => {
            if buf.len() == 1 {
                Ok(Attribute::U8(buf[0]))
            } else {
                Err(DecodeError::InvalidAttributeType)
            }
        },
        AttrKind::U16 => {
            if buf.len() == 2 {
                Ok(Attribute::U16(u16_from_le_bytes(buf)))
            } else {
                Err(DecodeError::InvalidAttributeType)
            }
        },
        AttrKind::U32 => {
            if buf.len() == 4 {
                Ok(Attribute::U32(u32_from_le_bytes(buf)))
            } else {
                Err(DecodeError::InvalidAttributeType)
            }
        },
        AttrKind::U64 => {
            if buf.len() == 8 {
                Ok(Attribute::U64(u64_from_le_bytes(buf)))
            } else {
                Err(DecodeError::InvalidAttributeType)
            }
        },
        AttrKind::Bytes => Ok(Attribute::Bytes(slice_to_vec(buf))),
        AttrKind::Nested => Ok(Attribute::Nested(slice_to_vec(buf))),
        AttrKind::ProtoFamily => {
            if buf.len() == 4 {
                let code = u32_from_le_bytes(buf);
                match ProtocolFamily::from_code(code) {
                    Some(f) => Ok(Attribute::ProtoFamily(f)),
                    None => Err(DecodeError::InvalidProtocolFamily(code)),
                }
            } else {
                Err(DecodeError::InvalidAttributeType)
            }
        },
        AttrKind::Unknown => Err(DecodeError::UnsupportedAttributeType(ty)),
    }
}

/// Keys strictly ascend.
pub open spec fn spec_pairs_sorted(s: Seq<(u16, AttrValue)>) -> bool {
    forall|i: int, j: int| 0 <= i < j < s.len() ==> s[i].0 < s[j].0
}

/// Keys strictly ascend, stay below the flag bits, and every value fits one
/// attribute.
pub open spec fn spec_pairs_wf(s: Seq<(u16, AttrValue)>) -> bool {
    &&& spec_pairs_sorted(s)
    &&& forall|i: int|
        0 <= i < s.len() ==> (#[trigger] s[i]).0 <= NLA_TYPE_MASK && spec_attr_wf(s[i].1)
}

/// The value stored under `ty`, if any.
pub open spec fn spec_lookup(s: Seq<(u16, AttrValue)>, ty: u16) -> Option<AttrValue>
    decreases s.len(),
{
    if s.len() == 0 {
        None
    } else if s[0].0 == ty {
        Some(s[0].1)
    } else {
        spec_lookup(s.subrange(1, s.len() as int), ty)
    }
}

/// Insertion into a key-sorted pair sequence: replaces an equal key, else
/// splices the new pair before the first larger key.
pub open spec fn spec_insert(s: Seq<(u16, AttrValue)>, ty: u16, v: AttrValue) -> Seq<
    (u16, AttrValue),
>
    decreases s.len(),
{
    if s.len() == 0 {
        seq![(ty, v)]
    } else if s[0].0 < ty {
        seq![s[0]] + spec_insert(s.subrange(1, s.len() as int), ty, v)
    } else if s[0].0 == ty {
        seq![(ty, v)] + s.subrange(1, s.len() as int)
    } else {
        seq![(ty, v)] + s
    }
}

/// Inserting behind every existing key appends.
pub proof fn lemma_insert_append(s: Seq<(u16, AttrValue)>, ty: u16, v: AttrValue)
    requires
        forall|i: int| 0 <= i < s.len() ==> (#[trigger] s[i]).0 < ty,
    ensures
        spec_insert(s, ty, v) == s.push((ty, v)),
    decreases s.len(),
{
    if s.len() == 0 {
        assert(spec_insert(s, ty, v) =~= s.push((ty, v)));
    } else {
        lemma_insert_append(s.subrange(1, s.len() as int), ty, v);
        assert(spec_insert(s, ty, v) =~= s.push((ty, v)));
    }
}

/// Insertion preserves well-formedness and acts as map update on lookups.
pub proof fn lemma_insert_wf(s: Seq<(u16, AttrValue)>, ty: u16, v: AttrValue)
    requires
        spec_pairs_wf(s),
        ty <= NLA_TYPE_MASK,
        spec_attr_wf(v),
    ensures
        spec_pairs_wf(spec_insert(s, ty, v)),
        spec_lookup(spec_insert(s, ty, v), ty) == Some(v),
    decreases s.len(),
{
    let r = spec_insert(s, ty, v);
    if s.len() == 0 {
    } else {
        let tail = s.subrange(1, s.len() as int);
        assert(forall|i: int| 0 <= i < tail.len() ==> tail[i] == s[i + 1]);
        if s[0].0 < ty {
            lemma_insert_wf(tail, ty, v);
            let rt = spec_insert(tail, ty, v);
            assert(r =~= seq![s[0]] + rt);
            // every key of the inserted tail is either a tail key or `ty`,
            // both above s[0].0
            lemma_insert_keys(tail, ty, v);
            assert(spec_pairs_sorted(r)) by {
                assert(forall|j: int|
                    1 <= j < r.len() ==> r[j] == rt[j - 1] && (#[trigger] r[j]).0 > s[0].0);
            }
            assert(spec_lookup(r, ty) == Some(v)) by {
                assert(r.subrange(1, r.len() as int) =~= rt);
            }
        } else if s[0].0 == ty {
            assert(r =~= seq![(ty, v)] + tail);
            assert(spec_pairs_wf(r));
        } else {
            assert(r =~= seq![(ty, v)] + s);
            assert(spec_pairs_wf(r));
        }
    }
}

/// Every key of an insertion result is an old key or the inserted key.
proof fn lemma_insert_keys(s: Seq<(u16, AttrValue)>, ty: u16, v: AttrValue)
    ensures
        forall|j: int|
            0 <= j < spec_insert(s, ty, v).len() ==> ((#[trigger] spec_insert(s, ty, v)[j]).0 == ty
                || exists|i: int| 0 <= i < s.len() && s[i].0 == spec_insert(s, ty, v)[j].0),
    decreases s.len(),
{
    let r = spec_insert(s, ty, v);
    if s.len() == 0 {
    } else {
        let tail = s.subrange(1, s.len() as int);
        if s[0].0 < ty {
            lemma_insert_keys(tail, ty, v);
            let rt = spec_insert(tail, ty, v);
            assert forall|j: int| 0 <= j < r.len() implies ((#[trigger] r[j]).0 == ty || exists|i: int|
                0 <= i < s.len() && s[i].0 == r[j].0) by {
                if j == 0 {
                    assert(s[0].0 == r[0].0);
                } else {
                    assert(r[j] == rt[j - 1]);
                    if rt[j - 1].0 != ty {
                        let i = choose|i: int| 0 <= i < tail.len() && tail[i].0 == rt[j - 1].0;
                        assert(s[i + 1].0 == r[j].0);
                    }
                }
            }
        } else {
        }
    }
}

/// An ordered attribute set: a mapping from type tag to value, keys unique,
/// held and serialized in ascending key order.
#[derive(Debug, Clone)]
pub struct NfNetlinkAttributes {
    attributes: Vec<(NetlinkType, Attribute)>,
}

impl NfNetlinkAttributes {
    /// The key/value pairs, in storage order.
    pub closed spec fn pairs(&self) -> Seq<(u16, AttrValue)> {
        Seq::new(
            self.attributes@.len(),
            |i: int| (self.attributes@[i].0, self.attributes@[i].1@),
        )
    }

    pub open spec fn wf(&self) -> bool {
        spec_pairs_wf(self.pairs())
    }

    /// An empty set.
    pub fn new() -> (r: Self)
        ensures
            r.pairs() == Seq::<(u16, AttrValue)>::empty(),
            r.wf(),
    {
        let r = NfNetlinkAttributes { attributes: Vec::new() };
        proof {
            assert(r.pairs() =~= Seq::<(u16, AttrValue)>::empty());
        }
        r
    }

    /// Binds `ty` to `obj`, replacing any earlier binding.
    pub fn set_attr(&mut self, ty: NetlinkType, obj: Attribute)
        requires
            old(self).wf(),
            ty <= NLA_TYPE_MASK,
            spec_attr_wf(obj@),
        ensures
            final(self).pairs() == spec_insert(old(self).pairs(), ty, obj@),
            final(self).wf(),
    {
        proof {
            lemma_insert_wf(self.pairs(), ty, obj@);
        }
        let ghost s0 = self.pairs();
        let n = self.attributes.len();
        let mut i: usize = 0;
        while i < n && self.attributes[i].0 < ty
            invariant
                0 <= i <= n,
                n == self.attributes.len(),
                forall|k: int| 0 <= k < i ==> (#[trigger] self.pairs()[k]).0 < ty,
                self.pairs() == s0,
                spec_pairs_wf(s0),
            decreases n - i,
        {
            i = i + 1;
        }
        if i < n && self.attributes[i].0 == ty {
            self.attributes.remove(i);
            self.attributes.insert(i, (ty, obj));
            proof {
                lemma_insert_at(s0, ty, obj@, i as int);
                assert(self.pairs() =~= s0.subrange(0, i as int) + seq![(ty, obj@)] + s0.subrange(
                    i as int + 1,
                    s0.len() as int,
                ));
            }
        } else {
            self.attributes.insert(i, (ty, obj));
            proof {
                lemma_insert_at(s0, ty, obj@, i as int);
                assert(self.pairs() =~= s0.subrange(0, i as int) + seq![(ty, obj@)] + s0.subrange(
                    i as int,
                    s0.len() as int,
                ));
            }
        }
    }

    /// The number of attributes held.
    pub fn len(&self) -> (r: usize)
        ensures
            r == self.pairs().len(),
    {
        self.attributes.len()
    }

    /// The value bound to `ty`, if any.
    pub fn get_attr(&self, ty: NetlinkType) -> (r: Option<&Attribute>)
        ensures
            match r {
                Some(a) => spec_lookup(self.pairs(), ty) == Some(a@),
                None => spec_lookup(self.pairs(), ty) == None::<AttrValue>,
            },
    {
        let n = self.attributes.len();
        let mut i: usize = 0;
        while i < n
            invariant
                0 <= i <= n,
                n == self.attributes.len(),
                forall|k: int| 0 <= k < i ==> (#[trigger] self.pairs()[k]).0 != ty,
            decreases n - i,
        {
            if self.attributes[i].0 == ty {
                proof {
                    lemma_lookup_at(self.pairs(), ty, i as int);
                }
                return Some(&self.attributes[i].1);
            }
            i = i + 1;
        }
        proof {
            lemma_lookup_missing(self.pairs(), ty);
        }
        None
    }
}

/// Fixed-width attribute values always fit one attribute.
pub proof fn lemma_fixed_attr_wf(v: AttrValue)
    ensures
        !(v is Str || v is Bytes || v is Nested) ==> spec_attr_wf(v),
        v is U8 ==> spec_attr_payload(v).len() == 1,
        v is U16 ==> spec_attr_payload(v).len() == 2,
        v is U32 ==> spec_attr_payload(v).len() == 4,
        v is U64 ==> spec_attr_payload(v).len() == 8,
        v is ProtoFamily ==> spec_attr_payload(v).len() == 4,
{
    match v {
        AttrValue::U16(_) => {
            lemma_auto_spec_u16_to_from_le_bytes();
        },
        AttrValue::U32(_) => {
            lemma_auto_spec_u32_to_from_le_bytes();
        },
        AttrValue::U64(_) => {
            lemma_auto_spec_u64_to_from_le_bytes();
        },
        AttrValue::ProtoFamily(_) => {
            lemma_auto_spec_u32_to_from_le_bytes();
        },
        _ => {},
    }
}

/// One encoded attribute is its payload plus a header and padding: at least
/// the payload and at most seven bytes more.
pub proof fn lemma_encode_attribute_len(ty: u16, v: AttrValue)
    ensures
        spec_encode_attribute(ty, v).len() == 4 + spec_pad_netlink_size(
            spec_attr_payload(v).len() as int,
        ),
        spec_attr_payload(v).len() + 4 <= spec_encode_attribute(ty, v).len()
            <= spec_attr_payload(v).len() + 7,
{
    lemma_auto_spec_u16_to_from_le_bytes();
    crate::parser::lemma_pad_netlink_size(spec_attr_payload(v).len() as int);
}

/// The wire form of a pair sequence: each attribute encoded, in order, each
/// one starting at the previous one's padded end.
pub open spec fn spec_encode_pairs(s: Seq<(u16, AttrValue)>) -> Seq<u8>
    decreases s.len(),
{
    if s.len() == 0 {
        Seq::empty()
    } else {
        spec_encode_attribute(s[0].0, s[0].1) + spec_encode_pairs(s.subrange(1, s.len() as int))
    }
}

/// Encoding a sequence ends with its last attribute's encoding.
pub proof fn lemma_encode_pairs_snoc(s: Seq<(u16, AttrValue)>)
    requires
        s.len() > 0,
    ensures
        spec_encode_pairs(s) == spec_encode_pairs(s.subrange(0, s.len() - 1))
            + spec_encode_attribute(s[s.len() - 1].0, s[s.len() - 1].1),
    decreases s.len(),
{
    let n = s.len() as int;
    if n == 1 {
        assert(s.subrange(0, 0) =~= Seq::<(u16, AttrValue)>::empty());
        assert(spec_encode_pairs(s.subrange(1, 1)) =~= Seq::<u8>::empty());
        assert(spec_encode_pairs(s) =~= spec_encode_pairs(s.subrange(0, 0))
            + spec_encode_attribute(s[0].0, s[0].1));
    } else {
        let tail = s.subrange(1, n);
        lemma_encode_pairs_snoc(tail);
        assert(tail.subrange(0, n - 2) =~= s.subrange(1, n - 1));
        assert(tail[n - 2] == s[n - 1]);
        let front = s.subrange(0, n - 1);
        assert(front.subrange(1, n - 1) =~= s.subrange(1, n - 1));
        assert(front[0] == s[0]);
        assert(spec_encode_pairs(s) =~= spec_encode_pairs(s.subrange(0, n - 1))
            + spec_encode_attribute(s[n - 1].0, s[n - 1].1));
    }
}

/// A value that serializes as a run of netlink attributes.
pub trait SerializeNfNetlink {
    /// The bytes the value serializes to.
    spec fn spec_wire(&self) -> Seq<u8>;

    /// Whether the value fits the wire limits.
    spec fn spec_serializable(&self) -> bool;

    /// Appends the value's wire form to `out`.
    fn serialize(&self, out: &mut Vec<u8>)
        requires
            self.spec_serializable(),
        ensures
            final(out)@ == old(out)@ + self.spec_wire(),
    ;
}

impl SerializeNfNetlink for NfNetlinkAttributes {
    open spec fn spec_wire(&self) -> Seq<u8> {
        spec_encode_pairs(self.pairs())
    }

    open spec fn spec_serializable(&self) -> bool {
        self.wf()
    }

    fn serialize(&self, out: &mut Vec<u8>) {
        let ghost out0 = out@;
        let n = self.attributes.len();
        let mut i: usize = 0;
        while i < n
            invariant
                0 <= i <= n,
                n == self.attributes.len(),
                self.wf(),
                out@ == out0 + spec_encode_pairs(self.pairs().subrange(0, i as int)),
            decreases n - i,
        {
            let ghost prev = out@;
            assert(self.pairs()[i as int].0 == self.attributes@[i as int].0
                && self.pairs()[i as int].1 == self.attributes@[i as int].1@);
            write_attribute(self.attributes[i].0, &self.attributes[i].1, out);
            proof {
                let p = self.pairs();
                lemma_encode_pairs_snoc(p.subrange(0, i + 1));
                assert(p.subrange(0, i + 1).subrange(0, i as int) =~= p.subrange(0, i as int));
                assert(p.subrange(0, i + 1)[i as int] == p[i as int]);
                assert(out@ =~= out0 + spec_encode_pairs(p.subrange(0, i + 1)));
            }
            i = i + 1;
        }
        proof {
            assert(self.pairs().subrange(0, n as int) =~= self.pairs());
        }
    }
}

/// Sequential decoding of a byte window into an attribute set, under an
/// object kind's schema.
///
/// A window shorter than a header ends decoding; a declared length shorter
/// than a header or past the window fails with `BufTooSmall`; otherwise the
/// payload is decoded under the schema for the masked tag and the window
/// advances by the padded declared length (capped at the window's end, since
/// a message's final attribute may arrive unpadded).
pub open spec fn spec_decode_attrs<T: crate::nlmsg::AttributeDecoder>(
    b: Seq<u8>,
    acc: Seq<(u16, AttrValue)>,
) -> Result<Seq<(u16, AttrValue)>, DecodeError>
    decreases b.len(),
    when b.len() >= 0
    via spec_decode_attrs_decreases::<T>
{
    if b.len() < 4 {
        Ok(acc)
    } else {
        let nla_len = spec_u16_from_le_bytes(b.subrange(0, 2)) as int;
        let ty = spec_u16_from_le_bytes(b.subrange(2, 4)) & NLA_TYPE_MASK;
        if nla_len < 4 || nla_len > b.len() {
            Err(DecodeError::BufTooSmall)
        } else {
            match spec_decode_typed(T::spec_attr_kind(ty), ty, b.subrange(4, nla_len)) {
                Err(e) => Err(e),
                Ok(v) => {
                    let step = if spec_pad_netlink_size(nla_len) > b.len() {
                        b.len() as int
                    } else {
                        spec_pad_netlink_size(nla_len)
                    };
                    spec_decode_attrs::<T>(b.subrange(step, b.len() as int), spec_insert(acc, ty, v))
                },
            }
        }
    }
}

#[via_fn]
proof fn spec_decode_attrs_decreases<T: crate::nlmsg::AttributeDecoder>(
    b: Seq<u8>,
    acc: Seq<(u16, AttrValue)>,
) {
    if b.len() >= 4 {
        let nla_len = spec_u16_from_le_bytes(b.subrange(0, 2)) as int;
        if 4 <= nla_len <= b.len() {
            crate::parser::lemma_pad_netlink_size(nla_len);
        }
    }
}

/// A successfully decoded attribute fits the wire limits whenever its
/// payload came from a single attribute.
pub proof fn lemma_decoded_attr_wf(kind: AttrKind, ty: u16, b: Seq<u8>)
    requires
        b.len() <= MAX_ATTR_PAYLOAD,
    ensures
        match spec_decode_typed(kind, ty, b) {
            Ok(v) => spec_attr_wf(v) && spec_kind_of(v) == kind,
            Err(_) => true,
        },
{
    match kind {
        AttrKind::Str => {
            if valid_utf8(b) {
                vstd::utf8::decode_utf8_encode_utf8(b);
            }
        },
        AttrKind::U16 => {
            lemma_auto_spec_u16_to_from_le_bytes();
        },
        AttrKind::U32 => {
            lemma_auto_spec_u32_to_from_le_bytes();
        },
        AttrKind::U64 => {
            lemma_auto_spec_u64_to_from_le_bytes();
        },
        AttrKind::ProtoFamily => {
            lemma_auto_spec_u32_to_from_le_bytes();
        },
        _ => {},
    }
}

/// A streaming reader over the attribute bytes of one message, bounded by
/// the message's declared remaining size.
pub struct NfNetlinkAttributeReader<'a> {
    buf: &'a [u8],
    pos: usize,
    remaining_size: usize,
    attrs: NfNetlinkAttributes,
}

impl<'a> NfNetlinkAttributeReader<'a> {
    pub closed spec fn spec_buf(&self) -> Seq<u8> {
        self.buf@
    }

    pub closed spec fn spec_pos(&self) -> int {
        self.pos as int
    }

    pub closed spec fn spec_remaining(&self) -> int {
        self.remaining_size as int
    }

    pub closed spec fn spec_attrs(&self) -> Seq<(u16, AttrValue)> {
        self.attrs.pairs()
    }

    pub open spec fn wf(&self) -> bool {
        &&& self.spec_pos() + self.spec_remaining() <= self.spec_buf().len()
        &&& spec_pairs_wf(self.spec_attrs())
    }

    /// The byte window still to be decoded.
    pub open spec fn window(&self) -> Seq<u8> {
        self.spec_buf().subrange(self.spec_pos(), self.spec_pos() + self.spec_remaining())
    }

    /// A reader over `buf`, budgeted to `remaining_size` bytes; fails with
    /// `BufTooSmall` exactly when the buffer is shorter than the budget.
    pub fn new(buf: &'a [u8], remaining_size: usize) -> (r: Result<Self, DecodeError>)
        ensures
            match r {
                Ok(rd) => buf@.len() >= remaining_size && rd.wf() && rd.spec_buf() == buf@
                    && rd.spec_pos() == 0 && rd.spec_remaining() == remaining_size as int
                    && rd.spec_attrs() == Seq::<(u16, AttrValue)>::empty(),
                Err(e) => e == DecodeError::BufTooSmall && buf@.len() < remaining_size,
            },
    {
        if buf.len() < remaining_size {
            return Err(DecodeError::BufTooSmall);
        }
        Ok(Self { buf, pos: 0, remaining_size, attrs: NfNetlinkAttributes::new() })
    }

    /// The not-yet-consumed bytes, to the end of the underlying buffer.
    pub fn get_raw_data(&self) -> (r: &'a [u8])
        requires
            self.wf(),
        ensures
            r@ == self.spec_buf().subrange(self.spec_pos(), self.spec_buf().len() as int),
    {
        slice_subrange(self.buf, self.pos, self.buf.len())
    }

    /// Decodes the whole window as attributes of object kind `T`.
    #[verifier::loop_isolation(false)]
    pub fn decode<T: crate::nlmsg::AttributeDecoder>(self) -> (r: Result<
        NfNetlinkAttributes,
        DecodeError,
    >)
        requires
            self.wf(),
        ensures
            (match r {
                Ok(a) => Ok::<Seq<(u16, AttrValue)>, DecodeError>(a.pairs()),
                Err(e) => Err(e),
            }) == spec_decode_attrs::<T>(self.window(), self.spec_attrs()),
            match r {
                Ok(a) => a.wf(),
                Err(_) => true,
            },
    {
        let ghost w0 = self.window();
        let ghost a0 = self.spec_attrs();
        let NfNetlinkAttributeReader { buf, mut pos, mut remaining_size, mut attrs } = self;
        let n = buf.len();
        while remaining_size >= 4
            invariant
                n == buf@.len(),
                pos + remaining_size <= n,
                spec_pairs_wf(attrs.pairs()),
                spec_decode_attrs::<T>(
                    buf@.subrange(pos as int, pos as int + remaining_size as int),
                    attrs.pairs(),
                ) == spec_decode_attrs::<T>(w0, a0),
            decreases remaining_size,
        {
            let ghost w = buf@.subrange(pos as int, pos as int + remaining_size as int);
            let nla_len_raw = u16_from_le_bytes(slice_subrange(buf, pos, pos + 2));
            let raw_ty = u16_from_le_bytes(slice_subrange(buf, pos + 2, pos + 4));
            proof {
                assert(buf@.subrange(pos as int, pos as int + 2) =~= w.subrange(0, 2));
                assert(buf@.subrange(pos as int + 2, pos as int + 4) =~= w.subrange(2, 4));
            }
            let nla_type = raw_ty & NLA_TYPE_MASK;
            proof {
                assert(nla_type <= NLA_TYPE_MASK) by (bit_vector)
                    requires
                        nla_type == raw_ty & NLA_TYPE_MASK,
                ;
            }
            let nla_len = nla_len_raw as usize;
            if nla_len < 4 || nla_len > remaining_size {
                proof {
                    assert(spec_decode_attrs::<T>(w, attrs.pairs()) == Err::<
                        Seq<(u16, AttrValue)>,
                        DecodeError,
                    >(DecodeError::BufTooSmall));
                    assert(spec_decode_attrs::<T>(w, attrs.pairs()) == spec_decode_attrs::<T>(
                        w0,
                        a0,
                    ));
                }
                return Err(DecodeError::BufTooSmall);
            }
            let payload = slice_subrange(buf, pos + 4, pos + nla_len);
            proof {
                assert(payload@ =~= w.subrange(4, nla_len as int));
            }
            let attr = match T::decode_attribute(nla_type, payload) {
                Ok(a) => a,
                Err(e) => {
                    proof {
                        assert(spec_decode_attrs::<T>(w, attrs.pairs()) == Err::<
                            Seq<(u16, AttrValue)>,
                            DecodeError,
                        >(e));
                    }
                    return Err(e);
                },
            };
            proof {
                lemma_decoded_attr_wf(T::spec_attr_kind(nla_type), nla_type, payload@);
            }
            let ghost acc = attrs.pairs();
            attrs.set_attr(nla_type, attr);
            let padded = pad_netlink_object_with_variable_size(nla_len);
            let step = if padded > remaining_size {
                remaining_size
            } else {
                padded
            };
            proof {
                crate::parser::lemma_pad_netlink_size(nla_len as int);
            }
            pos = pos + step;
            remaining_size = remaining_size - step;
            proof {
                let w2 = buf@.subrange(pos as int, pos as int + remaining_size as int);
                assert(w2 =~= w.subrange(step as int, w.len() as int));
                assert(spec_decode_attrs::<T>(w, acc) == spec_decode_attrs::<T>(
                    w2,
                    attrs.pairs(),
                ));
            }
        }
        proof {
            assert(spec_decode_attrs::<T>(
                buf@.subrange(pos as int, pos as int + remaining_size as int),
                attrs.pairs(),
            ) == Ok::<Seq<(u16, AttrValue)>, DecodeError>(attrs.pairs()));
        }
        Ok(attrs)
    }
}

/// Law: every attribute value decodes back from its own payload encoding,
/// under its own kind.
pub proof fn lemma_attribute_payload_round_trip(ty: u16, v: AttrValue)
    ensures
        spec_decode_typed(spec_kind_of(v), ty, spec_attr_payload(v)) == Ok::<AttrValue, DecodeError>(v),
{
    match v {
        AttrValue::Str(s) => {
            vstd::utf8::encode_utf8_valid_utf8(s);
            vstd::utf8::encode_utf8_decode_utf8(s);
        },
        AttrValue::U16(_) => {
            lemma_auto_spec_u16_to_from_le_bytes();
        },
        AttrValue::U32(_) => {
            lemma_auto_spec_u32_to_from_le_bytes();
        },
        AttrValue::U64(_) => {
            lemma_auto_spec_u64_to_from_le_bytes();
        },
        AttrValue::ProtoFamily(f) => {
            lemma_auto_spec_u32_to_from_le_bytes();
            crate::lemma_protocol_family_code_round_trip(f);
        },
        _ => {},
    }
}

/// Padding the header-inclusive size is padding the payload plus the header.
proof fn lemma_pad_plus_header(n: int)
    requires
        n >= 0,
    ensures
        spec_pad_netlink_size(n + 4) == 4 + spec_pad_netlink_size(n),
{
    let q = (n + 3) / 4;
    let r = (n + 3) % 4;
    vstd::arithmetic::div_mod::lemma_fundamental_div_mod(n + 3, 4);
    vstd::arithmetic::div_mod::lemma_mod_bound(n + 3, 4);
    assert(n + 7 == 4 * (q + 1) + r);
    vstd::arithmetic::div_mod::lemma_fundamental_div_mod_converse(n + 7, 4, q + 1, r);
}

/// Law: one encoded attribute occupies exactly `4 * ceil((4 + payload) / 4)`
/// bytes; parsing a window that begins with it finds its declared length,
/// its masked tag, its exact payload, and resumes exactly at the padded
/// boundary, where whatever follows begins.
pub proof fn lemma_parse_encoded_attribute(ty: u16, v: AttrValue, rest: Seq<u8>)
    requires
        ty <= NLA_TYPE_MASK,
        spec_attr_wf(v),
    ensures
        ({
            let e = spec_encode_attribute(ty, v);
            let b = e + rest;
            let p = spec_attr_payload(v);
            &&& e.len() == spec_pad_netlink_size(p.len() + 4 as int)
            &&& e.len() == 4 * ((4 + p.len() + 3) / 4)
            &&& 4 <= e.len() <= b.len()
            &&& spec_u16_from_le_bytes(b.subrange(0, 2)) == p.len() + 4
            &&& (spec_u16_from_le_bytes(b.subrange(2, 4)) & NLA_TYPE_MASK) == ty
            &&& b.subrange(4, p.len() + 4 as int) == p
            &&& b.subrange(e.len() as int, b.len() as int) == rest
        }),
{
    let e = spec_encode_attribute(ty, v);
    let b = e + rest;
    let p = spec_attr_payload(v);
    let padz = Seq::new((spec_pad_netlink_size(p.len() as int) - p.len()) as nat, |i: int| 0u8);
    lemma_auto_spec_u16_to_from_le_bytes();
    crate::parser::lemma_pad_netlink_size(p.len() as int);
    lemma_pad_plus_header(p.len() as int);
    assert(e.len() == 4 + p.len() + padz.len());
    assert(b.subrange(0, 2) =~= spec_u16_to_le_bytes((p.len() + 4) as u16));
    assert(b.subrange(2, 4) =~= spec_u16_to_le_bytes(spec_wire_type(ty, v)));
    assert(b.subrange(4, p.len() + 4 as int) =~= p);
    assert(b.subrange(e.len() as int, b.len() as int) =~= rest);
    let wire = spec_wire_type(ty, v);
    if v is Nested {
        assert(wire == ty | NLA_F_NESTED);
        assert(ty <= 0x3fff ==> ((ty | 0x8000u16) & 0x3fff) == ty) by (bit_vector);
    } else {
        assert(ty <= 0x3fff ==> (ty & 0x3fff) == ty) by (bit_vector);
    }
}

/// Law: a serialized pair sequence decodes back to exactly itself, appended
/// to what was already accumulated, whenever every pair matches the schema.
pub proof fn lemma_attribute_set_round_trip<T: crate::nlmsg::AttributeDecoder>(
    s: Seq<(u16, AttrValue)>,
    acc: Seq<(u16, AttrValue)>,
)
    requires
        spec_pairs_wf(acc + s),
        forall|i: int|
            0 <= i < s.len() ==> T::spec_attr_kind((#[trigger] s[i]).0) == spec_kind_of(s[i].1),
    ensures
        spec_decode_attrs::<T>(spec_encode_pairs(s), acc) == Ok::<
            Seq<(u16, AttrValue)>,
            DecodeError,
        >(acc + s),
    decreases s.len(),
{
    if s.len() == 0 {
        assert(acc + s =~= acc);
    } else {
        let ty = s[0].0;
        let v = s[0].1;
        let tail = s.subrange(1, s.len() as int);
        let e = spec_encode_attribute(ty, v);
        let restb = spec_encode_pairs(tail);
        let b = e + restb;
        let p = spec_attr_payload(v);
        assert(acc + s =~= (acc + s).subrange(0, (acc + s).len() as int));
        assert(spec_attr_wf(v) && ty <= NLA_TYPE_MASK) by {
            assert((acc + s)[acc.len() as int] == s[0]);
        }
        lemma_parse_encoded_attribute(ty, v, restb);
        lemma_attribute_payload_round_trip(ty, v);
        assert(T::spec_attr_kind(ty) == spec_kind_of(v)) by {
            assert(s[0] == (ty, v));
        }
        assert(forall|k: int| 0 <= k < acc.len() ==> ((#[trigger] acc[k]).0 < ty)) by {
            assert(forall|k: int|
                0 <= k < acc.len() ==> acc[k] == (acc + s)[k] && s[0] == (acc + s)[acc.len() as int]);
        }
        lemma_insert_append(acc, ty, v);
        let acc2 = acc.push((ty, v));
        assert(acc + s =~= acc2 + tail);
        assert(forall|i: int|
            0 <= i < tail.len() ==> T::spec_attr_kind((#[trigger] tail[i]).0) == spec_kind_of(
                tail[i].1,
            )) by {
            assert(forall|i: int| 0 <= i < tail.len() ==> tail[i] == s[i + 1]);
        }
        lemma_attribute_set_round_trip::<T>(tail, acc2);
        let nla_len = p.len() + 4 as int;
        assert(spec_u16_from_le_bytes(b.subrange(0, 2)) as int == nla_len);
        assert(spec_pad_netlink_size(nla_len) == e.len());
        assert(b.subrange(e.len() as int, b.len() as int) == restb);
        assert(spec_decode_attrs::<T>(b, acc) == spec_decode_attrs::<T>(restb, acc2));
    }
}

/// Law: `decode(encode(a)) == a` — one encoded attribute decodes back to a
/// set holding exactly that attribute, for every attribute kind.
pub proof fn lemma_attribute_round_trip<T: crate::nlmsg::AttributeDecoder>(ty: u16, v: AttrValue)
    requires
        ty <= NLA_TYPE_MASK,
        spec_attr_wf(v),
        T::spec_attr_kind(ty) == spec_kind_of(v),
    ensures
        spec_decode_attrs::<T>(spec_encode_attribute(ty, v), Seq::empty()) == Ok::<
            Seq<(u16, AttrValue)>,
            DecodeError,
        >(seq![(ty, v)]),
{
    let s = seq![(ty, v)];
    let acc = Seq::<(u16, AttrValue)>::empty();
    assert(acc + s =~= s);
    assert(s.subrange(1, 1) =~= Seq::<(u16, AttrValue)>::empty());
    assert(spec_encode_pairs(Seq::<(u16, AttrValue)>::empty()) == Seq::<u8>::empty());
    assert(spec_encode_pairs(s) =~= spec_encode_attribute(ty, v));
    lemma_attribute_set_round_trip::<T>(s, acc);
}

/// Law: for every payload size the encoded attribute length is
/// `4 * ceil((4 + payload_len) / 4)`, and a second attribute encoded after a
/// first one starts at exactly that offset.
pub proof fn lemma_attribute_padding(ty1: u16, v1: AttrValue, ty2: u16, v2: AttrValue)
    ensures
        spec_encode_attribute(ty1, v1).len() == 4 * ((4 + spec_attr_payload(v1).len() + 3) / 4),
        spec_encode_pairs(seq![(ty1, v1), (ty2, v2)]) == spec_encode_attribute(ty1, v1)
            + spec_encode_attribute(ty2, v2),
        spec_encode_pairs(seq![(ty1, v1), (ty2, v2)]).subrange(
            spec_encode_attribute(ty1, v1).len() as int,
            spec_encode_pairs(seq![(ty1, v1), (ty2, v2)]).len() as int,
        ) == spec_encode_attribute(ty2, v2),
{
    let p = spec_attr_payload(v1);
    lemma_auto_spec_u16_to_from_le_bytes();
    crate::parser::lemma_pad_netlink_size(p.len() as int);
    lemma_pad_plus_header(p.len() as int);
    let s = seq![(ty1, v1), (ty2, v2)];
    assert(s.subrange(1, 2) =~= seq![(ty2, v2)]);
    assert(seq![(ty2, v2)].subrange(1, 1) =~= Seq::<(u16, AttrValue)>::empty());
    assert(spec_encode_pairs(Seq::<(u16, AttrValue)>::empty()) == Seq::<u8>::empty());
    assert(spec_encode_pairs(seq![(ty2, v2)]) =~= spec_encode_attribute(ty2, v2));
    assert(spec_encode_pairs(s) =~= spec_encode_attribute(ty1, v1) + spec_encode_attribute(
        ty2,
        v2,
    ));
    assert(spec_encode_pairs(s).subrange(
        spec_encode_attribute(ty1, v1).len() as int,
        spec_encode_pairs(s).len() as int,
    ) =~= spec_encode_attribute(ty2, v2));
}

/// When the first `i` keys differ from `ty` and position `i` holds `ty`,
/// lookup answers with position `i`.
proof fn lemma_lookup_at(s: Seq<(u16, AttrValue)>, ty: u16, i: int)
    requires
        0 <= i < s.len(),
        forall|k: int| 0 <= k < i ==> (#[trigger] s[k]).0 != ty,
        s[i].0 == ty,
    ensures
        spec_lookup(s, ty) == Some(s[i].1),
    decreases i,
{
    if i > 0 {
        let tail = s.subrange(1, s.len() as int);
        assert(forall|k: int| 0 <= k < tail.len() ==> tail[k] == s[k + 1]);
        lemma_lookup_at(tail, ty, i - 1);
    }
}

/// When no key equals `ty`, lookup answers nothing.
proof fn lemma_lookup_missing(s: Seq<(u16, AttrValue)>, ty: u16)
    requires
        forall|k: int| 0 <= k < s.len() ==> (#[trigger] s[k]).0 != ty,
    ensures
        spec_lookup(s, ty) == None::<AttrValue>,
    decreases s.len(),
{
    if s.len() > 0 {
        let tail = s.subrange(1, s.len() as int);
        assert(forall|k: int| 0 <= k < tail.len() ==> tail[k] == s[k + 1]);
        lemma_lookup_missing(tail, ty);
    }
}

/// Splicing `(ty, v)` at the first position `i` whose key is not below `ty`
/// is what [`spec_insert`] does.
proof fn lemma_insert_at(s: Seq<(u16, AttrValue)>, ty: u16, v: AttrValue, i: int)
    requires
        0 <= i <= s.len(),
        forall|k: int| 0 <= k < i ==> (#[trigger] s[k]).0 < ty,
        i < s.len() ==> s[i].0 >= ty,
    ensures
        i < s.len() && s[i].0 == ty ==> spec_insert(s, ty, v) == s.subrange(0, i) + seq![(ty, v)]
            + s.subrange(i + 1, s.len() as int),
        !(i < s.len() && s[i].0 == ty) ==> spec_insert(s, ty, v) == s.subrange(0, i) + seq![
            (ty, v),
        ] + s.subrange(i, s.len() as int),
    decreases s.len(),
{
    if i == 0 {
        if 0 < s.len() && s[0].0 == ty {
            assert(spec_insert(s, ty, v) =~= s.subrange(0, 0) + seq![(ty, v)] + s.subrange(
                1,
                s.len() as int,
            ));
        } else {
            assert(spec_insert(s, ty, v) =~= s.subrange(0, 0) + seq![(ty, v)] + s.subrange(
                0,
                s.len() as int,
            ));
        }
    } else {
        let tail = s.subrange(1, s.len() as int);
        assert(forall|k: int| 0 <= k < tail.len() ==> tail[k] == s[k + 1]);
        lemma_insert_at(tail, ty, v, i - 1);
        if i < s.len() && s[i].0 == ty {
            assert(tail.subrange(0, i - 1) =~= s.subrange(1, i));
            assert(tail.subrange(i, tail.len() as int) =~= s.subrange(i + 1, s.len() as int));
            assert(spec_insert(s, ty, v) =~= s.subrange(0, i) + seq![(ty, v)] + s.subrange(
                i + 1,
                s.len() as int,
            ));
        } else {
            assert(tail.subrange(0, i - 1) =~= s.subrange(1, i));
            assert(tail.subrange(i - 1, tail.len() as int) =~= s.subrange(i, s.len() as int));
            assert(spec_insert(s, ty, v) =~= s.subrange(0, i) + seq![(ty, v)] + s.subrange(
                i,
                s.len() as int,
            ));
        }
    }
}

} // verus!
