//! Message framing and validation: header parsing, control message
//! classification, and the dump-interrupted retry signal.

use rustables::error::DecodeError;
use rustables::parser::{
    NlMsg, get_nlmsghdr, get_operation_from_nlmsghdr_type, get_subsystem_from_nlmsghdr_type,
    pad_netlink_object_with_variable_size, parse_nlmsg, parse_object,
};

fn header_bytes(len: u32, ty: u16, flags: u16, seq: u32, pid: u32) -> Vec<u8> {
    let mut out = Vec::new();
    out.extend_from_slice(&len.to_le_bytes());
    out.extend_from_slice(&ty.to_le_bytes());
    out.extend_from_slice(&flags.to_le_bytes());
    out.extend_from_slice(&seq.to_le_bytes());
    out.extend_from_slice(&pid.to_le_bytes());
    out
}

#[test]
fn padding_rounds_up_to_four() {
    assert_eq!(pad_netlink_object_with_variable_size(0), 0);
    assert_eq!(pad_netlink_object_with_variable_size(1), 4);
    assert_eq!(pad_netlink_object_with_variable_size(4), 4);
    assert_eq!(pad_netlink_object_with_variable_size(5), 8);
    assert_eq!(pad_netlink_object_with_variable_size(20), 20);
}

#[test]
fn type_field_splits_into_subsystem_and_operation() {
    assert_eq!(get_subsystem_from_nlmsghdr_type(0x0A06), 0x0A);
    assert_eq!(get_operation_from_nlmsghdr_type(0x0A06), 0x06);
}

#[test]
fn short_buffer_fails_with_buf_too_small() {
    let raw = [0u8; 8];
    assert!(matches!(get_nlmsghdr(&raw), Err(DecodeError::BufTooSmall)));
}

#[test]
fn overlong_declared_length_fails_with_msg_too_small() {
    // claims 64 bytes but only 20 are present
    let buf = {
        let mut b = header_bytes(64, 0x0A00, 0, 1, 0);
        b.extend_from_slice(&[1, 0, 0, 0]);
        b
    };
    assert!(matches!(get_nlmsghdr(&buf), Err(DecodeError::NlMsgTooSmall)));
}

#[test]
fn dump_interrupted_yields_concurrent_generation_update() {
    // NLM_F_DUMP_INTR is 0x10
    let mut buf = header_bytes(20, 0x0A00, 0x10, 1, 0);
    buf.extend_from_slice(&[1, 0, 0, 0]);
    assert!(matches!(
        get_nlmsghdr(&buf),
        Err(DecodeError::ConcurrentGenerationUpdate)
    ));
    // and no partial attribute set: the full parse fails the same way
    assert!(matches!(
        parse_nlmsg(&buf),
        Err(DecodeError::ConcurrentGenerationUpdate)
    ));
}

#[test]
fn non_nftables_subsystem_is_rejected() {
    // subsystem 3 in the high byte of the type
    let mut buf = header_bytes(20, 0x0300, 0, 1, 0);
    buf.extend_from_slice(&[1, 0, 0, 0]);
    assert!(matches!(
        parse_nlmsg(&buf),
        Err(DecodeError::InvalidSubsystem(3))
    ));
}

#[test]
fn wrong_nfnetlink_version_is_rejected() {
    let mut buf = header_bytes(20, 0x0A00, 0, 1, 0);
    buf.extend_from_slice(&[1, 7, 0, 0]);
    assert!(matches!(parse_nlmsg(&buf), Err(DecodeError::InvalidVersion(7))));
}

#[test]
fn noop_and_done_control_messages_classify() {
    let buf = header_bytes(16, 1, 0, 9, 0);
    assert!(matches!(parse_nlmsg(&buf), Ok((_, NlMsg::Noop))));
    let buf = header_bytes(16, 3, 0, 9, 0);
    assert!(matches!(parse_nlmsg(&buf), Ok((_, NlMsg::Done))));
}

#[test]
fn error_message_normalizes_negative_error_numbers() {
    // an error control message: header, then -2 (i32 LE), then the original header
    let mut buf = header_bytes(36, 2, 0, 5, 0);
    buf.extend_from_slice(&(-2i32).to_le_bytes());
    buf.extend_from_slice(&header_bytes(20, 0x0A00, 0, 5, 0));
    match parse_nlmsg(&buf) {
        Ok((hdr, NlMsg::Error(err))) => {
            assert_eq!(hdr.nlmsg_seq, 5);
            assert_eq!(err.error, 2);
            assert_eq!(err.msg.nlmsg_seq, 5);
        },
        other => panic!("unexpected classification: {:?}", other.is_ok()),
    }
}

#[test]
fn payload_message_hands_out_attribute_bytes() {
    // an nftables message with one name attribute
    let attr = [8u8, 0, 1, 0, b'e', b'g', b'g', b's'];
    let mut buf = header_bytes(20 + attr.len() as u32, 0x0A00, 0, 2, 0);
    buf.extend_from_slice(&[1, 0, 0, 0]);
    buf.extend_from_slice(&attr);
    let (hdr, msg) = parse_nlmsg(&buf).unwrap();
    match &msg {
        NlMsg::NfGenMsg(g, raw) => {
            assert_eq!(g.family, 1);
            assert_eq!(g.version, 0);
            assert_eq!(*raw, &attr[..]);
        },
        _ => panic!("expected a payload message"),
    }
    let (_, reader, rest) = parse_object(hdr, msg, &buf).unwrap();
    assert!(rest.is_empty());
    let attrs = reader.decode::<rustables::table::Table>().unwrap();
    assert_eq!(
        attrs.get_attr(1),
        Some(&rustables::attribute::Attribute::Str(String::from("eggs")))
    );
}
