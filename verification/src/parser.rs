//! Netlink message framing: 4-byte alignment, the fixed message headers, and
//! classification of raw kernel messages into control and payload messages.

use vstd::prelude::*;
use vstd::bytes::*;
use vstd::slice::slice_subrange;

use crate::attribute::NfNetlinkAttributeReader;
use crate::error::DecodeError;

verus! {

/// A 16-bit netlink attribute type tag.
pub type NetlinkType = u16;

pub const NLMSG_NOOP: u16 = 1;

pub const NLMSG_ERROR: u16 = 2;

pub const NLMSG_DONE: u16 = 3;

/// Values below this one are control messages shared by all of netlink.
pub const NLMSG_MIN_TYPE: u16 = 0x10;

pub const NFNL_SUBSYS_NFTABLES: u8 = 10;

pub const NFNETLINK_V0: u8 = 0;

/// Header flag: the kernel's generation counter changed during a dump.
pub const NLM_F_DUMP_INTR: u16 = 0x10;

/// Wire size of [`Nlmsghdr`].
pub const NLMSGHDR_SIZE: usize = 16;

/// Wire size of [`Nfgenmsg`].
pub const NFGENMSG_SIZE: usize = 4;

/// Wire size of [`Nlmsgerr`]: a 32-bit error number and the original header.
pub const NLMSGERR_SIZE: usize = 20;

/// The smallest multiple of 4 that is at least `size`: netlink objects are
/// laid out on 4-byte boundaries.
pub open spec fn spec_pad_netlink_size(size: int) -> int {
    ((size + 3) / 4) * 4
}

/// Alignment padding reaches the next boundary and never skips one: the
/// padded size is a multiple of 4 within `[size, size + 3]`.
pub proof fn lemma_pad_netlink_size(size: int)
    requires
        size >= 0,
    ensures
        size <= spec_pad_netlink_size(size) <= size + 3,
        spec_pad_netlink_size(size) % 4 == 0,
{
    vstd::arithmetic::div_mod::lemma_fundamental_div_mod(size + 3, 4);
    vstd::arithmetic::div_mod::lemma_mod_bound(size + 3, 4);
    vstd::arithmetic::div_mod::lemma_mod_multiples_basic((size + 3) / 4, 4);
}

/// Aligns `size` on a 4-byte boundary, rounding up.
pub fn pad_netlink_object_with_variable_size(size: usize) -> (r: usize)
    requires
        size + 3 <= usize::MAX,
    ensures
        r == spec_pad_netlink_size(size as int),
{
    proof {
        lemma_pad_netlink_size(size as int);
    }
    ((size + 3) / 4) * 4
}

/// The 4-byte-aligned size of a value of type `T`.
pub fn pad_netlink_object<T>() -> (r: usize)
    requires
        vstd::layout::size_of::<T>() + 3 <= usize::MAX,
    ensures
        r == spec_pad_netlink_size(vstd::layout::size_of::<T>() as int),
{
    let size = core::mem::size_of::<T>();
    pad_netlink_object_with_variable_size(size)
}

/// The subsystem identifier held in the high byte of a message type.
pub fn get_subsystem_from_nlmsghdr_type(x: u16) -> (r: u8)
    ensures
        r == (x >> 8) as u8,
{
    proof {
        assert(x >> 8 < 256 && (x & 0xff00) >> 8 == x >> 8) by (bit_vector);
    }
    ((x & 0xff00) >> 8) as u8
}

/// The operation code held in the low byte of a message type.
pub fn get_operation_from_nlmsghdr_type(x: u16) -> (r: u8)
    ensures
        r == (x & 0xff) as u8,
{
    proof {
        assert(x & 0xff < 256) by (bit_vector);
    }
    (x & 0x00ff) as u8
}

/// The fixed header opening every netlink message.
#[derive(Debug, Clone, Copy, PartialEq, Eq, Structural)]
pub struct Nlmsghdr {
    /// Total message length, header included.
    pub nlmsg_len: u32,
    /// Subsystem in the high byte, operation in the low byte.
    pub nlmsg_type: u16,
    pub nlmsg_flags: u16,
    pub nlmsg_seq: u32,
    pub nlmsg_pid: u32,
}

/// The fixed nfnetlink header following [`Nlmsghdr`] in every nftables
/// message.
#[derive(Debug, Clone, Copy, PartialEq, Eq, Structural)]
pub struct Nfgenmsg {
    /// An `NFPROTO_*` protocol family code.
    pub family: u8,
    /// Always [`NFNETLINK_V0`].
    pub version: u8,
    /// Resource id; carries the subsystem id in batch control messages.
    pub res_id: u16,
}

/// Payload of a netlink error control message: a pure acknowledgement when
/// the error number is zero.
#[derive(Debug, Clone, Copy, PartialEq, Eq, Structural)]
pub struct Nlmsgerr {
    /// Kernel error number, normalized to be non-negative.
    pub error: i32,
    /// Header of the message this reply answers.
    pub msg: Nlmsghdr,
}

pub open spec fn spec_encode_nlmsghdr(h: Nlmsghdr) -> Seq<u8> {
    spec_u32_to_le_bytes(h.nlmsg_len) + spec_u16_to_le_bytes(h.nlmsg_type)
        + spec_u16_to_le_bytes(h.nlmsg_flags) + spec_u32_to_le_bytes(h.nlmsg_seq)
        + spec_u32_to_le_bytes(h.nlmsg_pid)
}

pub open spec fn spec_parse_nlmsghdr(b: Seq<u8>) -> Nlmsghdr
    recommends
        b.len() >= 16,
{
    Nlmsghdr {
        nlmsg_len: spec_u32_from_le_bytes(b.subrange(0, 4)),
        nlmsg_type: spec_u16_from_le_bytes(b.subrange(4, 6)),
        nlmsg_flags: spec_u16_from_le_bytes(b.subrange(6, 8)),
        nlmsg_seq: spec_u32_from_le_bytes(b.subrange(8, 12)),
        nlmsg_pid: spec_u32_from_le_bytes(b.subrange(12, 16)),
    }
}

/// A message header survives the trip through its wire encoding.
pub proof fn lemma_nlmsghdr_round_trip(h: Nlmsghdr)
    ensures
        spec_encode_nlmsghdr(h).len() == 16,
        spec_parse_nlmsghdr(spec_encode_nlmsghdr(h)) == h,
{
    lemma_auto_spec_u32_to_from_le_bytes();
    lemma_auto_spec_u16_to_from_le_bytes();
    let e = spec_encode_nlmsghdr(h);
    assert(e.subrange(0, 4) =~= spec_u32_to_le_bytes(h.nlmsg_len));
    assert(e.subrange(4, 6) =~= spec_u16_to_le_bytes(h.nlmsg_type));
    assert(e.subrange(6, 8) =~= spec_u16_to_le_bytes(h.nlmsg_flags));
    assert(e.subrange(8, 12) =~= spec_u32_to_le_bytes(h.nlmsg_seq));
    assert(e.subrange(12, 16) =~= spec_u32_to_le_bytes(h.nlmsg_pid));
}

pub open spec fn spec_encode_nfgenmsg(g: Nfgenmsg) -> Seq<u8> {
    seq![g.family, g.version] + spec_u16_to_le_bytes(g.res_id)
}

pub open spec fn spec_parse_nfgenmsg(b: Seq<u8>) -> Nfgenmsg
    recommends
        b.len() >= 4,
{
    Nfgenmsg { family: b[0], version: b[1], res_id: spec_u16_from_le_bytes(b.subrange(2, 4)) }
}

/// An nfnetlink header survives the trip through its wire encoding.
pub proof fn lemma_nfgenmsg_round_trip(g: Nfgenmsg)
    ensures
        spec_encode_nfgenmsg(g).len() == 4,
        spec_parse_nfgenmsg(spec_encode_nfgenmsg(g)) == g,
{
    lemma_auto_spec_u16_to_from_le_bytes();
    let e = spec_encode_nfgenmsg(g);
    assert(e.subrange(2, 4) =~= spec_u16_to_le_bytes(g.res_id));
}

/// Kernel error numbers arrive under either sign convention; both map to the
/// same non-negative number (the unrepresentable minimum saturates).
pub open spec fn spec_norm_errno(v: u32) -> i32 {
    if v <= 0x7fff_ffff {
        v as i32
    } else if v == 0x8000_0000 {
        0x7fff_ffff as i32
    } else {
        (0x1_0000_0000 - v as int) as i32
    }
}

fn norm_errno(v: u32) -> (r: i32)
    ensures
        r == spec_norm_errno(v),
{
    if v <= 0x7fff_ffff {
        v as i32
    } else if v == 0x8000_0000 {
        i32::MAX
    } else {
        ((0x1_0000_0000u64 - v as u64) as u32) as i32
    }
}

pub open spec fn spec_parse_nlmsgerr(b: Seq<u8>) -> Nlmsgerr
    recommends
        b.len() >= 20,
{
    Nlmsgerr {
        error: spec_norm_errno(spec_u32_from_le_bytes(b.subrange(0, 4))),
        msg: spec_parse_nlmsghdr(b.subrange(4, 20)),
    }
}

/// Reads and validates the leading message header of `buf`.
///
/// Fails with `BufTooSmall` when fewer bytes than a header are present, with
/// `NlMsgTooSmall` when the declared message length is shorter than a header
/// or longer than the buffer, and with `ConcurrentGenerationUpdate` when the
/// dump-interrupted flag is set.
pub open spec fn spec_get_nlmsghdr(b: Seq<u8>) -> Result<Nlmsghdr, DecodeError> {
    if b.len() < 16 {
        Err(DecodeError::BufTooSmall)
    } else {
        let h = spec_parse_nlmsghdr(b);
        if h.nlmsg_len as int > b.len() || (h.nlmsg_len as int) < 16 {
            Err(DecodeError::NlMsgTooSmall)
        } else if h.nlmsg_flags & NLM_F_DUMP_INTR != 0 {
            Err(DecodeError::ConcurrentGenerationUpdate)
        } else {
            Ok(h)
        }
    }
}

fn read_nlmsghdr_at(buf: &[u8], pos: usize) -> (h: Nlmsghdr)
    requires
        pos + 16 <= buf@.len(),
    ensures
        h == spec_parse_nlmsghdr(buf@.subrange(pos as int, pos as int + 16)),
{
    let n = buf.len();
    assert(pos + 16 <= n);
    let ghost w = buf@.subrange(pos as int, pos as int + 16);
    let nlmsg_len = u32_from_le_bytes(slice_subrange(buf, pos, pos + 4));
    let nlmsg_type = u16_from_le_bytes(slice_subrange(buf, pos + 4, pos + 6));
    let nlmsg_flags = u16_from_le_bytes(slice_subrange(buf, pos + 6, pos + 8));
    let nlmsg_seq = u32_from_le_bytes(slice_subrange(buf, pos + 8, pos + 12));
    let nlmsg_pid = u32_from_le_bytes(slice_subrange(buf, pos + 12, pos + 16));
    proof {
        assert(buf@.subrange(pos as int, pos as int + 4) =~= w.subrange(0, 4));
        assert(buf@.subrange(pos as int + 4, pos as int + 6) =~= w.subrange(4, 6));
        assert(buf@.subrange(pos as int + 6, pos as int + 8) =~= w.subrange(6, 8));
        assert(buf@.subrange(pos as int + 8, pos as int + 12) =~= w.subrange(8, 12));
        assert(buf@.subrange(pos as int + 12, pos as int + 16) =~= w.subrange(12, 16));
    }
    Nlmsghdr { nlmsg_len, nlmsg_type, nlmsg_flags, nlmsg_seq, nlmsg_pid }
}

/// Reads and validates the message header opening `buf`.
pub fn get_nlmsghdr(buf: &[u8]) -> (r: Result<Nlmsghdr, DecodeError>)
    ensures
        r == spec_get_nlmsghdr(buf@),
{
    if buf.len() < NLMSGHDR_SIZE {
        return Err(DecodeError::BufTooSmall);
    }
    let hdr = read_nlmsghdr_at(buf, 0);
    proof {
        assert(buf@.subrange(0, 16) =~= buf@.subrange(0int, 0int + 16));
        assert(hdr == spec_parse_nlmsghdr(buf@)) by {
            assert(buf@.subrange(0, 16).subrange(0, 4) =~= buf@.subrange(0, 4));
            assert(buf@.subrange(0, 16).subrange(4, 6) =~= buf@.subrange(4, 6));
            assert(buf@.subrange(0, 16).subrange(6, 8) =~= buf@.subrange(6, 8));
            assert(buf@.subrange(0, 16).subrange(8, 12) =~= buf@.subrange(8, 12));
            assert(buf@.subrange(0, 16).subrange(12, 16) =~= buf@.subrange(12, 16));
        }
    }
    if hdr.nlmsg_len as usize > buf.len() || (hdr.nlmsg_len as usize) < NLMSGHDR_SIZE {
        return Err(DecodeError::NlMsgTooSmall);
    }
    if hdr.nlmsg_flags & NLM_F_DUMP_INTR != 0 {
        return Err(DecodeError::ConcurrentGenerationUpdate);
    }
    Ok(hdr)
}

/// A classified netlink message: a shared control message, or an nftables
/// payload message whose attribute bytes follow the two fixed headers.
pub enum NlMsg<'a> {
    /// End of a multi-part listing.
    Done,
    /// Ignored.
    Noop,
    /// Acknowledgement (error zero) or kernel error for one sequence number.
    Error(Nlmsgerr),
    /// An nftables message: its header and its raw attribute bytes.
    NfGenMsg(Nfgenmsg, &'a [u8]),
}

/// Mathematical image of [`NlMsg`], with the payload as a byte sequence.
pub enum NlMsgView {
    Done,
    Noop,
    Error(Nlmsgerr),
    NfGenMsg(Nfgenmsg, Seq<u8>),
}

impl<'a> View for NlMsg<'a> {
    type V = NlMsgView;

    open spec fn view(&self) -> NlMsgView {
        match self {
            NlMsg::Done => NlMsgView::Done,
            NlMsg::Noop => NlMsgView::Noop,
            NlMsg::Error(e) => NlMsgView::Error(*e),
            NlMsg::NfGenMsg(g, b) => NlMsgView::NfGenMsg(*g, b@),
        }
    }
}

/// Classifies the message opening `b`.
///
/// Control messages (type below [`NLMSG_MIN_TYPE`]) carry no nftables
/// header; everything else must name the nftables subsystem and the
/// supported nfnetlink version, and its attribute bytes run from byte 20 to
/// the declared message length.
pub open spec fn spec_parse_nlmsg(b: Seq<u8>) -> Result<(Nlmsghdr, NlMsgView), DecodeError> {
    match spec_get_nlmsghdr(b) {
        Err(e) => Err(e),
        Ok(h) => if h.nlmsg_type < NLMSG_MIN_TYPE {
            if h.nlmsg_type == NLMSG_NOOP {
                Ok((h, NlMsgView::Noop))
            } else if h.nlmsg_type == NLMSG_ERROR {
                if h.nlmsg_len as int > b.len() || (h.nlmsg_len as int) < 36 {
                    Err(DecodeError::NlMsgTooSmall)
                } else {
                    Ok((h, NlMsgView::Error(spec_parse_nlmsgerr(b.subrange(16, 36)))))
                }
            } else if h.nlmsg_type == NLMSG_DONE {
                Ok((h, NlMsgView::Done))
            } else {
                Err(DecodeError::UnsupportedType(h.nlmsg_type))
            }
        } else {
            let subsys = (h.nlmsg_type >> 8) as u8;
            if subsys != NFNL_SUBSYS_NFTABLES {
                Err(DecodeError::InvalidSubsystem(subsys))
            } else if h.nlmsg_len as int > b.len() || (h.nlmsg_len as int) < 20 {
                Err(DecodeError::NlMsgTooSmall)
            } else {
                let g = spec_parse_nfgenmsg(b.subrange(16, 20));
                if g.version != NFNETLINK_V0 {
                    Err(DecodeError::InvalidVersion(g.version))
                } else {
                    Ok((h, NlMsgView::NfGenMsg(g, b.subrange(20, h.nlmsg_len as int))))
                }
            }
        },
    }
}

pub open spec fn spec_nlmsg_res_view<'a>(
    r: Result<(Nlmsghdr, NlMsg<'a>), DecodeError>,
) -> Result<(Nlmsghdr, NlMsgView), DecodeError> {
    match r {
        Ok((h, m)) => Ok((h, m@)),
        Err(e) => Err(e),
    }
}

/// Splits one raw message into its validated header and its classification.
pub fn parse_nlmsg<'a>(buf: &'a [u8]) -> (r: Result<(Nlmsghdr, NlMsg<'a>), DecodeError>)
    ensures
        spec_nlmsg_res_view(r) == spec_parse_nlmsg(buf@),
{
    let nlmsghdr = match get_nlmsghdr(buf) {
        Ok(h) => h,
        Err(e) => {
            return Err(e);
        },
    };
    if nlmsghdr.nlmsg_type < NLMSG_MIN_TYPE {
        if nlmsghdr.nlmsg_type == NLMSG_NOOP {
            return Ok((nlmsghdr, NlMsg::Noop));
        } else if nlmsghdr.nlmsg_type == NLMSG_ERROR {
            if nlmsghdr.nlmsg_len as usize > buf.len() || (nlmsghdr.nlmsg_len as usize) < 36 {
                return Err(DecodeError::NlMsgTooSmall);
            }
            let ghost w = buf@.subrange(16, 36);
            let code = u32_from_le_bytes(slice_subrange(buf, 16, 20));
            let inner = read_nlmsghdr_at(buf, 20);
            proof {
                assert(buf@.subrange(16, 20) =~= w.subrange(0, 4));
                assert(buf@.subrange(20, 36) =~= w.subrange(4, 20));
            }
            let err = Nlmsgerr { error: norm_errno(code), msg: inner };
            return Ok((nlmsghdr, NlMsg::Error(err)));
        } else if nlmsghdr.nlmsg_type == NLMSG_DONE {
            return Ok((nlmsghdr, NlMsg::Done));
        } else {
            return Err(DecodeError::UnsupportedType(nlmsghdr.nlmsg_type));
        }
    }
    let subsys = get_subsystem_from_nlmsghdr_type(nlmsghdr.nlmsg_type);
    if subsys != NFNL_SUBSYS_NFTABLES {
        return Err(DecodeError::InvalidSubsystem(subsys));
    }
    if nlmsghdr.nlmsg_len as usize > buf.len() || (nlmsghdr.nlmsg_len as usize) < 20 {
        return Err(DecodeError::NlMsgTooSmall);
    }
    let ghost gw = buf@.subrange(16, 20);
    let family = buf[16];
    let version = buf[17];
    let res_id = u16_from_le_bytes(slice_subrange(buf, 18, 20));
    proof {
        assert(buf@.subrange(18, 20) =~= gw.subrange(2, 4));
        assert(family == gw[0] && version == gw[1]);
    }
    let nfgenmsg = Nfgenmsg { family, version, res_id };
    if nfgenmsg.version != NFNETLINK_V0 {
        return Err(DecodeError::InvalidVersion(nfgenmsg.version));
    }
    let raw_value = slice_subrange(buf, 20, nlmsghdr.nlmsg_len as usize);
    Ok((nlmsghdr, NlMsg::NfGenMsg(nfgenmsg, raw_value)))
}

/// Where the message after this one starts in `b`: the padded end of the
/// declared length, capped at the buffer's end since the last message of a
/// datagram may arrive unpadded.
pub open spec fn spec_next_message_start(h: Nlmsghdr, b: Seq<u8>) -> int {
    if spec_pad_netlink_size(h.nlmsg_len as int) > b.len() {
        b.len() as int
    } else {
        spec_pad_netlink_size(h.nlmsg_len as int)
    }
}

/// Opens an already-classified nftables message for attribute decoding: its
/// nfnetlink header, a reader over its attribute bytes (budgeted to the
/// declared message length minus the two fixed headers), and the bytes of
/// whatever messages follow in the same buffer.
///
/// Fails with `NlMsgTooSmall` when the declared length cannot cover the two
/// fixed headers, with `UnexpectedType` when the message is not an nftables
/// payload message, and with `BufTooSmall` when the payload slice is shorter
/// than the declared remaining size.
pub fn parse_object<'a>(hdr: Nlmsghdr, msg: NlMsg<'a>, buf: &'a [u8]) -> (r: Result<
    (Nfgenmsg, NfNetlinkAttributeReader<'a>, &'a [u8]),
    DecodeError,
>)
    ensures
        match r {
            Ok((g, rd, rest)) => {
                &&& hdr.nlmsg_len >= 20
                &&& match msg@ {
                    NlMsgView::NfGenMsg(g2, c) => {
                        &&& g == g2
                        &&& rd.wf()
                        &&& rd.spec_buf() == c
                        &&& rd.spec_pos() == 0
                        &&& rd.spec_remaining() == hdr.nlmsg_len - 20
                        &&& rd.spec_attrs() == Seq::<
                            (u16, crate::attribute::AttrValue),
                        >::empty()
                    },
                    _ => false,
                }
                &&& rest@ == buf@.subrange(spec_next_message_start(hdr, buf@), buf@.len() as int)
            },
            Err(e) => {
                ||| (hdr.nlmsg_len < 20 && e == DecodeError::NlMsgTooSmall)
                ||| (hdr.nlmsg_len >= 20 && !(msg@ is NfGenMsg) && e == DecodeError::UnexpectedType(
                    hdr.nlmsg_type,
                ))
                ||| (hdr.nlmsg_len >= 20 && match msg@ {
                    NlMsgView::NfGenMsg(_, c) => c.len() < hdr.nlmsg_len - 20,
                    _ => false,
                } && e == DecodeError::BufTooSmall)
            },
        },
{
    if hdr.nlmsg_len < 20 {
        return Err(DecodeError::NlMsgTooSmall);
    }
    let remaining_size = (hdr.nlmsg_len - 20) as usize;
    let padded = ((hdr.nlmsg_len as u64) + 3) / 4 * 4;
    let start = if padded > buf.len() as u64 {
        buf.len()
    } else {
        padded as usize
    };
    let remaining_data = slice_subrange(buf, start, buf.len());
    match msg {
        NlMsg::NfGenMsg(nfgenmsg, content) => {
            let reader = match NfNetlinkAttributeReader::new(content, remaining_size) {
                Ok(rd) => rd,
                Err(e) => {
                    return Err(e);
                },
            };
            Ok((nfgenmsg, reader, remaining_data))
        },
        _ => Err(DecodeError::UnexpectedType(hdr.nlmsg_type)),
    }
}

} // verus!
