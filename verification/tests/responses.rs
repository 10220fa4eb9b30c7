//! Response processing: classification of kernel replies and per-sequence
//! outcome tracking for a mixed batch.

use rustables::parser::{NlMsg, Nlmsgerr, Nlmsghdr};
use rustables::query::{MessageClass, ReplyStatus, ResponseTracker, classify_reply, is_retryable};
use rustables::error::DecodeError;

fn hdr(seq: u32) -> Nlmsghdr {
    Nlmsghdr { nlmsg_len: 36, nlmsg_type: 2, nlmsg_flags: 0, nlmsg_seq: seq, nlmsg_pid: 0 }
}

fn err_msg(seq: u32, code: i32) -> (Nlmsghdr, Nlmsgerr) {
    let h = hdr(seq);
    (h, Nlmsgerr { error: code, msg: h })
}

#[test]
fn zero_error_is_an_ack_and_nonzero_a_failure() {
    let (h, e) = err_msg(5, 0);
    assert_eq!(classify_reply(&h, &NlMsg::Error(e)), MessageClass::Ack { seq: 5 });
    let (h, e) = err_msg(6, 2);
    assert_eq!(
        classify_reply(&h, &NlMsg::Error(e)),
        MessageClass::Failure { seq: 6, code: 2 }
    );
    assert_eq!(classify_reply(&hdr(1), &NlMsg::Noop), MessageClass::Noop);
    assert_eq!(classify_reply(&hdr(1), &NlMsg::Done), MessageClass::Done);
}

#[test]
fn mixed_batch_outcomes_are_reported_independently() {
    // two queued operations at sequence numbers 5 and 6
    let mut tracker = ResponseTracker::new(&vec![5, 6]);
    assert!(!tracker.is_complete());
    let (h, e) = err_msg(5, 0);
    tracker.record(classify_reply(&h, &NlMsg::Error(e)));
    assert!(!tracker.is_complete());
    let (h, e) = err_msg(6, 2);
    tracker.record(classify_reply(&h, &NlMsg::Error(e)));
    // the object at sequence five succeeded; the one at six failed with
    // kernel error two; neither outcome affected the other
    assert_eq!(tracker.status_of(5), Some(ReplyStatus::Acked));
    assert_eq!(tracker.status_of(6), Some(ReplyStatus::Failed(2)));
    assert!(tracker.is_complete());
    assert_eq!(tracker.status_of(7), None);
}

#[test]
fn unrelated_replies_do_not_settle_outcomes() {
    let mut tracker = ResponseTracker::new(&vec![1]);
    tracker.record(MessageClass::Noop);
    tracker.record(MessageClass::Done);
    tracker.record(MessageClass::Payload { seq: 1 });
    assert_eq!(tracker.status_of(1), Some(ReplyStatus::Pending));
    assert!(!tracker.is_complete());
}

#[test]
fn only_the_generation_update_is_retryable() {
    assert!(is_retryable(&DecodeError::ConcurrentGenerationUpdate));
    assert!(!is_retryable(&DecodeError::BufTooSmall));
    assert!(!is_retryable(&DecodeError::NlMsgTooSmall));
    assert!(!is_retryable(&DecodeError::InvalidSubsystem(3)));
}
