//! Batch assembly: sequence numbering, begin/end framing, and the wire form
//! of an added table.

use rustables::MsgType;
use rustables::ProtocolFamily;
use rustables::attribute::Attribute;
use rustables::batch::Batch;
use rustables::chain::Chain;
use rustables::parser::{get_nlmsghdr, parse_nlmsg, parse_object, NlMsg};
use rustables::rule::Rule;
use rustables::table::Table;

#[test]
fn sequence_numbers_count_up_from_one_in_insertion_order() {
    let table = Table::new("filter", ProtocolFamily::Inet);
    let chain = Chain::new("input", &table);
    let rule = Rule::new(&chain);
    let mut batch = Batch::new();
    batch.add(&table, MsgType::Add);
    batch.add(&chain, MsgType::Add);
    batch.add(&rule, MsgType::Add);
    batch.add(&table, MsgType::Del);
    let fb = batch.finalize().unwrap();
    let messages = fb.messages();
    // begin + four objects + end
    assert_eq!(messages.len(), 6);
    for (i, m) in messages.iter().enumerate() {
        let hdr = get_nlmsghdr(m).unwrap();
        assert_eq!(hdr.nlmsg_seq, i as u32);
    }
    // begin carries sequence zero; the end message takes the next unused one
    assert_eq!(get_nlmsghdr(&messages[0]).unwrap().nlmsg_type, 0x10);
    assert_eq!(get_nlmsghdr(&messages[5]).unwrap().nlmsg_type, 0x11);
}

#[test]
fn empty_batch_finalizes_to_nothing_to_send() {
    let batch = Batch::new();
    assert!(batch.finalize().is_none());
}

#[test]
fn added_table_serializes_to_a_new_table_message() {
    let table = Table::new("filter", ProtocolFamily::Inet);
    let mut batch = Batch::new();
    batch.add(&table, MsgType::Add);
    let fb = batch.finalize().unwrap();
    let msg = &fb.messages()[1];
    let (hdr, parsed) = parse_nlmsg(msg).unwrap();
    // subsystem 10 (nftables) in the high byte, operation zero: new table
    assert_eq!(hdr.nlmsg_type, 0x0A00);
    // flags include CREATE and ACK
    assert_eq!(hdr.nlmsg_flags & 0x400, 0x400);
    assert_eq!(hdr.nlmsg_flags & 0x4, 0x4);
    assert_eq!(hdr.nlmsg_seq, 1);
    match &parsed {
        NlMsg::NfGenMsg(g, _) => assert_eq!(g.family, 1),
        _ => panic!("expected an nftables payload message"),
    }
    let (_, reader, _) = parse_object(hdr, parsed, msg).unwrap();
    let attrs = reader.decode::<Table>().unwrap();
    assert_eq!(attrs.len(), 1);
    assert_eq!(attrs.get_attr(1), Some(&Attribute::Str(String::from("filter"))));
}

#[test]
fn deleted_object_asks_for_ack_only() {
    let table = Table::new("filter", ProtocolFamily::Inet);
    let mut batch = Batch::new();
    batch.add(&table, MsgType::Del);
    let fb = batch.finalize().unwrap();
    let hdr = get_nlmsghdr(&fb.messages()[1]).unwrap();
    assert_eq!(hdr.nlmsg_type, 0x0A02);
    assert_eq!(hdr.nlmsg_flags, 0x4);
}

#[test]
fn base_chain_carries_hook_and_policy_attributes() {
    let table = Table::new("filter", ProtocolFamily::Inet);
    let mut chain = Chain::new("input", &table);
    chain.attach_hook(rustables::chain::Hook::In, 0);
    chain.set_policy(rustables::chain::Policy::Accept);
    let mut batch = Batch::new();
    batch.add(&chain, MsgType::Add);
    let fb = batch.finalize().unwrap();
    let msg = &fb.messages()[1];
    let (hdr, parsed) = parse_nlmsg(msg).unwrap();
    assert_eq!(hdr.nlmsg_type, 0x0A03);
    let (_, reader, _) = parse_object(hdr, parsed, msg).unwrap();
    let attrs = reader.decode::<Chain>().unwrap();
    assert_eq!(attrs.get_attr(1), Some(&Attribute::Str(String::from("filter"))));
    assert_eq!(attrs.get_attr(3), Some(&Attribute::Str(String::from("input"))));
    // hook descriptor: hooknum 1 (input), priority 0
    let hook_bytes = match attrs.get_attr(4) {
        Some(Attribute::Nested(b)) => b.clone(),
        other => panic!("expected a nested hook descriptor, got {:?}", other.is_some()),
    };
    assert_eq!(
        hook_bytes,
        vec![8, 0, 1, 0, 1, 0, 0, 0, 8, 0, 2, 0, 0, 0, 0, 0]
    );
    assert_eq!(attrs.get_attr(5), Some(&Attribute::U32(1)));
}

#[test]
fn non_base_chain_has_no_hook_or_policy_attributes() {
    let table = Table::new("filter", ProtocolFamily::Inet);
    let mut chain = Chain::new("aux", &table);
    chain.set_policy(rustables::chain::Policy::Drop);
    let mut batch = Batch::new();
    batch.add(&chain, MsgType::Add);
    let fb = batch.finalize().unwrap();
    let msg = &fb.messages()[1];
    let (hdr, parsed) = parse_nlmsg(msg).unwrap();
    let (_, reader, _) = parse_object(hdr, parsed, msg).unwrap();
    let attrs = reader.decode::<Chain>().unwrap();
    assert!(attrs.get_attr(4).is_none());
    assert!(attrs.get_attr(5).is_none());
}
