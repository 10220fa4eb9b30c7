//! The response processor: classifies decoded kernel replies and tracks the
//! per-sequence-number outcome of one batch. A batch is not all-or-nothing:
//! each queued operation is acknowledged or refused on its own, and the
//! caller inspects every sequence number's outcome.

use vstd::prelude::*;

use crate::error::DecodeError;
use crate::parser::{NlMsg, NlMsgView, Nlmsghdr};

verus! {

/// What one decoded reply means to the sender of a batch.
#[derive(Debug, Clone, Copy, PartialEq, Eq, Structural)]
pub enum MessageClass {
    /// Ignored.
    Noop,
    /// Successful end of a listing; the receive loop stops.
    Done,
    /// A pure acknowledgement of the message with this sequence number.
    Ack { seq: u32 },
    /// A kernel error number attributed to this sequence number.
    Failure { seq: u32, code: i32 },
    /// Listing content, to be attribute-decoded by the object kind's
    /// decoder.
    Payload { seq: u32 },
}

/// The classification of a decoded message: an error with number zero is a
/// pure acknowledgement, a nonzero one a failure; an nftables message is
/// listing content.
pub open spec fn spec_classify(hdr: Nlmsghdr, msg: NlMsgView) -> MessageClass {
    match msg {
        NlMsgView::Noop => MessageClass::Noop,
        NlMsgView::Done => MessageClass::Done,
        NlMsgView::Error(e) => if e.error == 0 {
            MessageClass::Ack { seq: hdr.nlmsg_seq }
        } else {
            MessageClass::Failure { seq: hdr.nlmsg_seq, code: e.error }
        },
        NlMsgView::NfGenMsg(_, _) => MessageClass::Payload { seq: hdr.nlmsg_seq },
    }
}

/// Classifies one decoded reply.
pub fn classify_reply(hdr: &Nlmsghdr, msg: &NlMsg<'_>) -> (r: MessageClass)
    ensures
        r == spec_classify(*hdr, msg@),
{
    match msg {
        NlMsg::Noop => MessageClass::Noop,
        NlMsg::Done => MessageClass::Done,
        NlMsg::Error(e) => {
            if e.error == 0 {
                MessageClass::Ack { seq: hdr.nlmsg_seq }
            } else {
                MessageClass::Failure { seq: hdr.nlmsg_seq, code: e.error }
            }
        },
        NlMsg::NfGenMsg(_, _) => MessageClass::Payload { seq: hdr.nlmsg_seq },
    }
}

/// The outcome recorded so far for one queued operation.
#[derive(Debug, Clone, Copy, PartialEq, Eq, Structural)]
pub enum ReplyStatus {
    /// No reply seen yet.
    Pending,
    /// Acknowledged: the operation succeeded.
    Acked,
    /// Refused with this kernel error number.
    Failed(i32),
}

/// Tracks each issued sequence number's outcome, independently of the
/// others.
pub struct ResponseTracker {
    entries: Vec<(u32, ReplyStatus)>,
}

/// The entries after recording `status` for `seq`: every entry under that
/// sequence number takes the new status, the rest stay.
pub open spec fn spec_record(
    entries: Seq<(u32, ReplyStatus)>,
    seq: u32,
    status: ReplyStatus,
) -> Seq<(u32, ReplyStatus)> {
    Seq::new(
        entries.len(),
        |i: int|
            if entries[i].0 == seq {
                (seq, status)
            } else {
                entries[i]
            },
    )
}

impl ResponseTracker {
    /// The tracked (sequence number, outcome) entries.
    pub closed spec fn spec_entries(&self) -> Seq<(u32, ReplyStatus)> {
        self.entries@
    }

    /// A tracker expecting a reply for each of the given sequence numbers.
    pub fn new(seqs: &Vec<u32>) -> (r: ResponseTracker)
        ensures
            r.spec_entries().len() == seqs@.len(),
            forall|i: int|
                0 <= i < seqs@.len() ==> #[trigger] r.spec_entries()[i] == (
                seqs@[i],
                ReplyStatus::Pending,
                ),
    {
        let mut entries: Vec<(u32, ReplyStatus)> = Vec::new();
        let n = seqs.len();
        let mut i: usize = 0;
        while i < n
            invariant
                0 <= i <= n,
                n == seqs@.len(),
                entries@.len() == i,
                forall|k: int|
                    0 <= k < i ==> #[trigger] entries@[k] == (seqs@[k], ReplyStatus::Pending),
            decreases n - i,
        {
            entries.push((seqs[i], ReplyStatus::Pending));
            i = i + 1;
        }
        ResponseTracker { entries }
    }

    /// Records one classified reply. Acknowledgements and failures settle
    /// their sequence number's outcome; everything else changes nothing.
    pub fn record(&mut self, class: MessageClass)
        ensures
            final(self).spec_entries() == (match class {
                MessageClass::Ack { seq } => spec_record(
                    old(self).spec_entries(),
                    seq,
                    ReplyStatus::Acked,
                ),
                MessageClass::Failure { seq, code } => spec_record(
                    old(self).spec_entries(),
                    seq,
                    ReplyStatus::Failed(code),
                ),
                _ => old(self).spec_entries(),
            }),
    {
        let (seq, status) = match class {
            MessageClass::Ack { seq } => (seq, ReplyStatus::Acked),
            MessageClass::Failure { seq, code } => (seq, ReplyStatus::Failed(code)),
            _ => {
                return ;
            },
        };
        let n = self.entries.len();
        let mut i: usize = 0;
        while i < n
            invariant
                0 <= i <= n,
                n == self.entries@.len(),
                self.entries@.len() == old(self).spec_entries().len(),
                forall|k: int|
                    i <= k < n ==> #[trigger] self.entries@[k] == old(self).spec_entries()[k],
                forall|k: int|
                    0 <= k < i ==> #[trigger] self.entries@[k] == (
                    if old(self).spec_entries()[k].0 == seq {
                        (seq, status)
                    } else {
                        old(self).spec_entries()[k]
                    }),
            decreases n - i,
        {
            if self.entries[i].0 == seq {
                let ghost before = self.entries@;
                self.entries.remove(i);
                self.entries.insert(i, (seq, status));
                proof {
                    assert(self.entries@ =~= before.update(i as int, (seq, status)));
                }
            }
            i = i + 1;
        }
        proof {
            assert(self.entries@ =~= spec_record(old(self).spec_entries(), seq, status));
        }
    }

    /// The recorded outcome of one sequence number, if it is tracked.
    pub fn status_of(&self, seq: u32) -> (r: Option<ReplyStatus>)
        ensures
            match r {
                Some(st) => exists|i: int|
                    0 <= i < self.spec_entries().len() && #[trigger] self.spec_entries()[i] == (
                    seq,
                    st,
                    ),
                None => forall|i: int|
                    0 <= i < self.spec_entries().len() ==> (#[trigger] self.spec_entries()[i]).0
                        != seq,
            },
    {
        let n = self.entries.len();
        let mut i: usize = 0;
        while i < n
            invariant
                0 <= i <= n,
                n == self.spec_entries().len(),
                forall|k: int| 0 <= k < i ==> (#[trigger] self.spec_entries()[k]).0 != seq,
            decreases n - i,
        {
            if self.entries[i].0 == seq {
                return Some(self.entries[i].1);
            }
            i = i + 1;
        }
        None
    }

    /// Whether every tracked sequence number has been settled.
    pub fn is_complete(&self) -> (r: bool)
        ensures
            r == (forall|i: int|
                0 <= i < self.spec_entries().len() ==> (#[trigger] self.spec_entries()[i]).1
                    != ReplyStatus::Pending),
    {
        let n = self.entries.len();
        let mut i: usize = 0;
        while i < n
            invariant
                0 <= i <= n,
                n == self.spec_entries().len(),
                forall|k: int|
                    0 <= k < i ==> (#[trigger] self.spec_entries()[k]).1 != ReplyStatus::Pending,
            decreases n - i,
        {
            match self.entries[i].1 {
                ReplyStatus::Pending => {
                    return false;
                },
                _ => {},
            }
            i = i + 1;
        }
        true
    }
}

/// Builds the request message asking the kernel to list the rules of one
/// chain: a get-rules message flagged as a dump, carrying the chain's
/// identity.
pub fn build_get_rules_request(chain: &crate::chain::Chain, seq: u32) -> (r: Vec<u8>)
    requires
        chain@.wf(),
        vstd::utf8::encode_utf8(chain@.table.name).len() <= crate::attribute::MAX_ATTR_PAYLOAD,
    ensures
        r@ == crate::nlmsg::spec_message_bytes(
            crate::nlmsg::spec_nft_msg_type(crate::rule::NFT_MSG_GETRULE),
            crate::nlmsg::NLM_F_REQUEST | crate::nlmsg::NLM_F_DUMP,
            seq,
            chain@.table.family.spec_code() as u8,
            0,
            crate::attribute::spec_encode_pairs(
                crate::rule::RuleView {
                    chain: chain@,
                    exprs: Seq::empty(),
                    handle: None,
                    position: None,
                    userdata: None,
                }.spec_attrs(),
            ),
        ),
{
    let rule = crate::rule::Rule::new(chain);
    let attrs = crate::nlmsg::NfNetlinkObject::to_attrs(&rule);
    let mut payload: Vec<u8> = Vec::new();
    crate::attribute::SerializeNfNetlink::serialize(&attrs, &mut payload);
    proof {
        crate::nlmsg::lemma_pairs_total_len(rule@.spec_attrs());
    }
    let msg_type = ((crate::parser::NFNL_SUBSYS_NFTABLES as u16) << 8) | (
    crate::rule::NFT_MSG_GETRULE as u16);
    let fam = chain.get_table().get_family().code();
    proof {
        assert((fam as u8) as u32 == fam);
    }
    let mut out: Vec<u8> = Vec::new();
    crate::nlmsg::write_message(
        msg_type,
        crate::nlmsg::NLM_F_REQUEST | crate::nlmsg::NLM_F_DUMP,
        seq,
        fam as u8,
        0,
        &payload,
        &mut out,
    );
    out
}

/// A header flagged dump-interrupted reports that the kernel's generation
/// counter changed mid-listing: the caller discards partial results and
/// restarts the whole read; it is never conflated with a malformed message.
pub fn is_retryable(e: &DecodeError) -> (r: bool)
    ensures
        r == (e is ConcurrentGenerationUpdate),
{
    match e {
        DecodeError::ConcurrentGenerationUpdate => true,
        _ => false,
    }
}

} // verus!
