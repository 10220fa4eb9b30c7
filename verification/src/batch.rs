//! The batch builder: assembles (object, operation) pairs into one atomic
//! netlink transaction, framed by begin and end control messages, assigning
//! strictly increasing sequence numbers — zero is reserved for the implicit
//! begin message, the added objects take one upward in insertion order.

use vstd::prelude::*;

use crate::MsgType;
use crate::nlmsg::{NLM_F_REQUEST, NfNetlinkObject, spec_message_bytes, spec_object_msg, write_message, write_object_msg};
use crate::parser::NFNL_SUBSYS_NFTABLES;

verus! {

/// Full message type of the batch-begin control message.
pub const NFNL_MSG_BATCH_BEGIN: u16 = 0x10;

/// Full message type of the batch-end control message.
pub const NFNL_MSG_BATCH_END: u16 = 0x11;

/// The implicit begin message: sequence zero, addressed to no family, naming
/// the nftables subsystem in the resource id.
pub open spec fn spec_batch_begin_msg() -> Seq<u8> {
    spec_message_bytes(
        NFNL_MSG_BATCH_BEGIN,
        NLM_F_REQUEST,
        0,
        0,
        NFNL_SUBSYS_NFTABLES as u16,
        Seq::empty(),
    )
}

/// The end message closing a batch of `n` objects, at sequence `n + 1`.
pub open spec fn spec_batch_end_msg(seq: u32) -> Seq<u8> {
    spec_message_bytes(
        NFNL_MSG_BATCH_END,
        NLM_F_REQUEST,
        seq,
        0,
        NFNL_SUBSYS_NFTABLES as u16,
        Seq::empty(),
    )
}

/// An open batch: the begin message and the added objects' messages, each
/// with its assigned sequence number.
pub struct Batch {
    messages: Vec<Vec<u8>>,
    seqs: Ghost<Seq<u32>>,
}

/// A finalized batch: the raw message segments, ready for transmission in
/// order. Nothing further may be added.
pub struct FinalizedBatch {
    messages: Vec<Vec<u8>>,
}

impl Batch {
    /// The sequence numbers assigned to the added objects, in insertion
    /// order.
    pub closed spec fn seqs(&self) -> Seq<u32> {
        self.seqs@
    }

    /// The raw messages built so far, the begin message first.
    pub closed spec fn spec_messages(&self) -> Seq<Seq<u8>> {
        Seq::new(self.messages@.len(), |i: int| self.messages@[i]@)
    }

    /// The number of objects added so far.
    pub open spec fn num_objects(&self) -> int {
        self.seqs().len() as int
    }

    /// Sequence numbers are assigned consecutively from one; message `i + 1`
    /// carries the object with sequence `i + 1` behind the begin message.
    pub open spec fn wf(&self) -> bool {
        &&& self.spec_messages().len() == self.seqs().len() + 1
        &&& self.spec_messages()[0] == spec_batch_begin_msg()
        &&& forall|i: int| 0 <= i < self.seqs().len() ==> #[trigger] self.seqs()[i] == i + 1
        &&& self.seqs().len() + 2 <= u32::MAX
    }

    /// An open batch holding only the implicit begin message.
    pub fn new() -> (r: Batch)
        ensures
            r.wf(),
            r.num_objects() == 0,
            r.spec_messages() == seq![spec_batch_begin_msg()],
    {
        let mut begin: Vec<u8> = Vec::new();
        let payload: Vec<u8> = Vec::new();
        write_message(
            NFNL_MSG_BATCH_BEGIN,
            NLM_F_REQUEST,
            0,
            0,
            NFNL_SUBSYS_NFTABLES as u16,
            &payload,
            &mut begin,
        );
        let mut messages: Vec<Vec<u8>> = Vec::new();
        messages.push(begin);
        let r = Batch { messages, seqs: Ghost(Seq::empty()) };
        proof {
            assert(r.spec_messages() =~= seq![spec_batch_begin_msg()]);
        }
        r
    }

    /// Adds one object under an operation, assigning it the next unused
    /// sequence number.
    pub fn add<T: NfNetlinkObject>(&mut self, msg: &T, msg_type: MsgType)
        requires
            old(self).wf(),
            msg.spec_serializable(),
            old(self).num_objects() + 3 <= u32::MAX,
        ensures
            final(self).wf(),
            final(self).num_objects() == old(self).num_objects() + 1,
            final(self).seqs() == old(self).seqs().push((old(self).num_objects() + 1) as u32),
            final(self).spec_messages() == old(self).spec_messages().push(
                spec_object_msg(*msg, msg_type, (old(self).num_objects() + 1) as u32),
            ),
    {
        let seq = self.messages.len() as u32;
        let mut buf: Vec<u8> = Vec::new();
        write_object_msg(msg, msg_type, seq, &mut buf);
        self.messages.push(buf);
        proof {
            self.seqs@ = self.seqs@.push(seq);
            assert(self.spec_messages() =~= old(self).spec_messages().push(
                spec_object_msg(*msg, msg_type, seq),
            ));
        }
    }

    /// Closes the batch. An empty batch finalizes successfully and signals
    /// that there is nothing to send; otherwise the end control message is
    /// appended at the next unused sequence number and the raw message
    /// segments are handed over.
    pub fn finalize(self) -> (r: Option<FinalizedBatch>)
        requires
            self.wf(),
        ensures
            match r {
                None => self.num_objects() == 0,
                Some(fb) => self.num_objects() > 0 && fb.spec_messages() == self.spec_messages()
                    .push(spec_batch_end_msg((self.num_objects() + 1) as u32)),
            },
    {
        let Batch { mut messages, seqs } = self;
        if messages.len() <= 1 {
            return None;
        }
        let seq = messages.len() as u32;
        let mut end: Vec<u8> = Vec::new();
        let payload: Vec<u8> = Vec::new();
        write_message(
            NFNL_MSG_BATCH_END,
            NLM_F_REQUEST,
            seq,
            0,
            NFNL_SUBSYS_NFTABLES as u16,
            &payload,
            &mut end,
        );
        messages.push(end);
        let fb = FinalizedBatch { messages };
        proof {
            assert(fb.spec_messages() =~= self.spec_messages().push(
                spec_batch_end_msg((self.num_objects() + 1) as u32),
            ));
        }
        Some(fb)
    }
}

impl FinalizedBatch {
    /// The raw messages, in transmission order.
    pub closed spec fn spec_messages(&self) -> Seq<Seq<u8>> {
        Seq::new(self.messages@.len(), |i: int| self.messages@[i]@)
    }

    /// The raw message segments, in transmission order.
    pub fn messages(&self) -> (r: &Vec<Vec<u8>>)
        ensures
            r@.len() == self.spec_messages().len(),
            forall|i: int| 0 <= i < r@.len() ==> #[trigger] r@[i]@ == self.spec_messages()[i],
    {
        &self.messages
    }
}

/// Law: within one batch the object sequence numbers are exactly one through
/// the object count, in insertion order — strictly increasing, without
/// duplicates or gaps, whatever mix of operations was added; zero stays
/// reserved for the begin message.
pub proof fn lemma_batch_sequence_numbers(b: &Batch)
    requires
        b.wf(),
    ensures
        forall|i: int| 0 <= i < b.seqs().len() ==> #[trigger] b.seqs()[i] == i + 1,
        forall|i: int, j: int| 0 <= i < j < b.seqs().len() ==> b.seqs()[i] < b.seqs()[j],
        forall|i: int| 0 <= i < b.seqs().len() ==> #[trigger] b.seqs()[i] != 0,
{
    assert forall|i: int, j: int| 0 <= i < j < b.seqs().len() implies b.seqs()[i] < b.seqs()[j] by {
        assert(b.seqs()[i] == i + 1);
        assert(b.seqs()[j] == j + 1);
    }
}

} // verus!
