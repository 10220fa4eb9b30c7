//! The interfaces a value implements to take part in attribute decoding and
//! in whole-message encoding.

use vstd::prelude::*;

use crate::MsgType;
use crate::ProtocolFamily;
use vstd::bytes::*;

use crate::attribute::{
    AttrKind, AttrValue, Attribute, NLA_TYPE_MASK, NfNetlinkAttributes, SerializeNfNetlink,
    attr_result_view,
    lemma_encode_attribute_len, spec_attr_payload, spec_decode_typed, spec_encode_pairs,
    spec_pairs_wf,
};
use crate::error::DecodeError;
use crate::parser::{
    NetlinkType, Nfgenmsg, Nlmsghdr, spec_encode_nfgenmsg, spec_encode_nlmsghdr,
};

verus! {

/// A value kind with a fixed attribute schema: each tag carries one value
/// kind, and single attributes decode accordingly.
pub trait AttributeDecoder: Sized {
    /// The value kind each attribute tag carries.
    spec fn spec_attr_kind(ty: u16) -> AttrKind;

    /// Decodes one attribute of this schema.
    fn decode_attribute(ty: NetlinkType, buf: &[u8]) -> (r: Result<Attribute, DecodeError>)
        ensures
            attr_result_view(r) == spec_decode_typed(Self::spec_attr_kind(ty), ty, buf@),
    ;
}

/// An object kind that can be carried in nftables messages: beyond its
/// attribute schema, it serializes itself as a top-level attribute set and
/// knows the message-type codes of its add and delete operations.
pub trait NfNetlinkObject: AttributeDecoder {
    /// The operation code (low byte of the message type) used to add this
    /// object kind.
    spec fn spec_add_op() -> u8;

    /// The operation code used to delete this object kind.
    spec fn spec_del_op() -> u8;

    fn get_msg_op(op: MsgType) -> (r: u8)
        ensures
            r == (match op {
                MsgType::Add => Self::spec_add_op(),
                MsgType::Del => Self::spec_del_op(),
            }),
    ;

    /// The protocol family carried in the message header.
    spec fn spec_family(&self) -> ProtocolFamily;

    fn family(&self) -> (r: ProtocolFamily)
        ensures
            r == self.spec_family(),
    ;

    /// The object's top-level attribute pairs, in ascending key order.
    spec fn spec_attrs(&self) -> Seq<(u16, AttrValue)>;

    /// Whether the object's attributes fit the wire limits.
    spec fn spec_serializable(&self) -> bool;

    /// The object as a top-level attribute set.
    fn to_attrs(&self) -> (r: NfNetlinkAttributes)
        requires
            self.spec_serializable(),
        ensures
            r.wf(),
            r.pairs() == self.spec_attrs(),
    ;
}


/// A key-sorted pair sequence holds at most one pair per possible tag, so
/// its count and its encoding are bounded.
pub proof fn lemma_pairs_total_len(s: Seq<(u16, AttrValue)>)
    requires
        spec_pairs_wf(s),
    ensures
        s.len() <= 0x4000,
        spec_encode_pairs(s).len() <= s.len() * 65539,
        spec_encode_pairs(s).len() <= 0x4001_0000,
    decreases s.len(),
{
    if s.len() == 0 {
    } else {
        lemma_sorted_keys_ge_index(s, s.len() - 1);
        let tail = s.subrange(1, s.len() as int);
        assert(forall|k: int| 0 <= k < tail.len() ==> tail[k] == s[k + 1]);
        lemma_pairs_total_len(tail);
        lemma_encode_attribute_len(s[0].0, s[0].1);
        assert(spec_attr_payload(s[0].1).len() <= 0xffff - 4);
    }
}

/// In a strictly key-sorted sequence the key at a position is at least the
/// position.
proof fn lemma_sorted_keys_ge_index(s: Seq<(u16, AttrValue)>, i: int)
    requires
        crate::attribute::spec_pairs_sorted(s),
        0 <= i < s.len(),
    ensures
        s[i].0 >= i,
    decreases i,
{
    if i > 0 {
        lemma_sorted_keys_ge_index(s, i - 1);
    }
}

/// One whole wire message: the netlink header with the total length, the
/// nfnetlink header, then the attribute payload.
pub open spec fn spec_message_bytes(
    msg_type: u16,
    flags: u16,
    seq: u32,
    family: u8,
    res_id: u16,
    payload: Seq<u8>,
) -> Seq<u8> {
    spec_encode_nlmsghdr(
        Nlmsghdr {
            nlmsg_len: (20 + payload.len()) as u32,
            nlmsg_type: msg_type,
            nlmsg_flags: flags,
            nlmsg_seq: seq,
            nlmsg_pid: 0,
        },
    ) + spec_encode_nfgenmsg(Nfgenmsg { family, version: crate::parser::NFNETLINK_V0, res_id })
        + payload
}

/// Appends one whole wire message to `out`.
pub fn write_message(
    msg_type: u16,
    flags: u16,
    seq: u32,
    family: u8,
    res_id: u16,
    payload: &Vec<u8>,
    out: &mut Vec<u8>,
)
    requires
        payload@.len() + 20 <= u32::MAX,
    ensures
        final(out)@ == old(out)@ + spec_message_bytes(
            msg_type,
            flags,
            seq,
            family,
            res_id,
            payload@,
        ),
{
    let ghost out0 = out@;
    let nlmsg_len = (20 + payload.len()) as u32;
    let mut b = u32_to_le_bytes(nlmsg_len);
    out.append(&mut b);
    let mut b = u16_to_le_bytes(msg_type);
    out.append(&mut b);
    let mut b = u16_to_le_bytes(flags);
    out.append(&mut b);
    let mut b = u32_to_le_bytes(seq);
    out.append(&mut b);
    let mut b = u32_to_le_bytes(0);
    out.append(&mut b);
    out.push(family);
    out.push(crate::parser::NFNETLINK_V0);
    let mut b = u16_to_le_bytes(res_id);
    out.append(&mut b);
    out.extend_from_slice(payload.as_slice());
    proof {
        assert(out@ =~= out0 + spec_message_bytes(msg_type, flags, seq, family, res_id, payload@));
    }
}

/// The full message type of an nftables operation: the subsystem in the high
/// byte, the operation in the low byte.
pub open spec fn spec_nft_msg_type(op: u8) -> u16 {
    ((crate::parser::NFNL_SUBSYS_NFTABLES as u16) << 8) | (op as u16)
}

/// The wire message an object serializes to under an operation.
pub open spec fn spec_object_msg<T: NfNetlinkObject>(obj: T, op: MsgType, seq: u32) -> Seq<u8> {
    spec_message_bytes(
        spec_nft_msg_type(
            match op {
                MsgType::Add => T::spec_add_op(),
                MsgType::Del => T::spec_del_op(),
            },
        ),
        spec_batch_obj_flags(op),
        seq,
        obj.spec_family().spec_code() as u8,
        0,
        spec_encode_pairs(obj.spec_attrs()),
    )
}

/// Flags of a batched operation: creation asks for create, append, exclusive
/// and acknowledgement; deletion asks for acknowledgement only.
pub open spec fn spec_batch_obj_flags(op: MsgType) -> u16 {
    match op {
        MsgType::Add => NLM_F_CREATE | NLM_F_APPEND | NLM_F_EXCL | NLM_F_ACK,
        MsgType::Del => NLM_F_ACK,
    }
}

pub const NLM_F_REQUEST: u16 = 0x1;

pub const NLM_F_ACK: u16 = 0x4;

pub const NLM_F_EXCL: u16 = 0x200;

pub const NLM_F_CREATE: u16 = 0x400;

pub const NLM_F_APPEND: u16 = 0x800;

/// Root/match flags; together they ask for a full dump.
pub const NLM_F_DUMP: u16 = 0x300;

/// Appends one object's wire message to `out`.
pub fn write_object_msg<T: NfNetlinkObject>(obj: &T, op: MsgType, seq: u32, out: &mut Vec<u8>)
    requires
        obj.spec_serializable(),
    ensures
        final(out)@ == old(out)@ + spec_object_msg(*obj, op, seq),
{
    let attrs = obj.to_attrs();
    let mut payload: Vec<u8> = Vec::new();
    attrs.serialize(&mut payload);
    proof {
        lemma_pairs_total_len(obj.spec_attrs());
    }
    let op_code = T::get_msg_op(op);
    let msg_type = ((crate::parser::NFNL_SUBSYS_NFTABLES as u16) << 8) | (op_code as u16);
    let flags = match op {
        MsgType::Add => NLM_F_CREATE | NLM_F_APPEND | NLM_F_EXCL | NLM_F_ACK,
        MsgType::Del => NLM_F_ACK,
    };
    let family = obj.family();
    let fam_code = family.code();
    proof {
        assert(fam_code <= 0xff);
        assert((fam_code as u8) as u32 == fam_code);
    }
    write_message(msg_type, flags, seq, fam_code as u8, 0, &payload, out);
}

} // verus!
