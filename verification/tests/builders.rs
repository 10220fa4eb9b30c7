//! Rule building sugar and object behaviour: the high-level matchers, the
//! documented equality quirk, deep comparison, and network mask arithmetic.

use rustables::ProtocolFamily;
use rustables::chain::{Chain, Hook, Policy};
use rustables::chain_methods::ChainMethods as _;
use rustables::data_type::{IpAddress, IpNetwork, ip_to_vec};
use rustables::error::BuilderError;
use rustables::expr::ExpressionVariant;
use rustables::expr::cmp::CmpOp;
use rustables::rule::Rule;
use rustables::rule_methods::Protocol;
use rustables::table::Table;
use rustables::MsgType;
use rustables::parser::{parse_nlmsg, parse_object};
use rustables::nlmsg::NfNetlinkObject as _;

fn fresh_rule() -> Rule {
    let table = Table::new("filter", ProtocolFamily::Inet);
    let chain = Chain::new("input", &table);
    Rule::new(&chain)
}

#[test]
fn dport_builds_protocol_payload_and_comparison() {
    let rule = fresh_rule().dport(443, Protocol::TCP);
    assert_eq!(rule.expr_count(), 4);
    let mut it = rule.get_exprs();
    assert!(matches!(it.next(), Some(ExpressionVariant::Meta(_))));
    match it.next() {
        Some(ExpressionVariant::Cmp(c)) => assert_eq!(c.get_data(), Some(&vec![6u8])),
        _ => panic!("expected the protocol comparison"),
    }
    assert!(matches!(it.next(), Some(ExpressionVariant::Payload(_))));
    match it.next() {
        Some(ExpressionVariant::Cmp(c)) => {
            // 443 in network byte order
            assert_eq!(c.get_data(), Some(&vec![0x01u8, 0xBB]));
            assert_eq!(c.get_op(), Some(&CmpOp::Eq));
        },
        _ => panic!("expected the port comparison"),
    }
    assert!(it.next().is_none());
}

#[test]
fn saddr_matches_family_then_address() {
    let rule = fresh_rule().saddr(IpAddress::V4([10, 0, 0, 1]));
    assert_eq!(rule.expr_count(), 4);
    let mut it = rule.get_exprs();
    it.next();
    it.next();
    it.next();
    match it.next() {
        Some(ExpressionVariant::Cmp(c)) => assert_eq!(c.get_data(), Some(&vec![10u8, 0, 0, 1])),
        _ => panic!("expected the address comparison"),
    }
}

#[test]
fn network_mask_and_network_address_are_computed_from_the_prefix() {
    let net = IpNetwork::new(IpAddress::V4([10, 1, 0, 7]), 24).unwrap();
    assert_eq!(net.mask(), vec![255, 255, 255, 0]);
    assert_eq!(net.network(), vec![10, 1, 0, 0]);
    let net = IpNetwork::new(IpAddress::V4([192, 168, 130, 9]), 18).unwrap();
    assert_eq!(net.mask(), vec![255, 255, 192, 0]);
    assert_eq!(net.network(), vec![192, 168, 128, 0]);
    assert!(IpNetwork::new(IpAddress::V4([1, 2, 3, 4]), 33).is_none());
    assert!(IpNetwork::new(IpAddress::V6([0; 16]), 128).is_some());
}

#[test]
fn snetwork_appends_the_masked_match() {
    let net = IpNetwork::new(IpAddress::V4([10, 1, 0, 0]), 24).unwrap();
    let rule = fresh_rule().snetwork(net).unwrap();
    assert_eq!(rule.expr_count(), 5);
    let mut it = rule.get_exprs();
    it.next();
    it.next();
    it.next();
    match it.next() {
        Some(ExpressionVariant::Bitwise(b)) => {
            assert_eq!(b.get_mask(), Some(&vec![255u8, 255, 255, 0]));
            assert_eq!(b.get_xor(), Some(&vec![0u8, 0, 0, 0]));
        },
        _ => panic!("expected the masking expression"),
    }
    match it.next() {
        Some(ExpressionVariant::Cmp(c)) => assert_eq!(c.get_data(), Some(&vec![10u8, 1, 0, 0])),
        _ => panic!("expected the network comparison"),
    }
}

#[test]
fn interface_name_length_is_bounded() {
    let rule = fresh_rule().iface("a-far-too-long-interface-name");
    assert!(matches!(rule, Err(BuilderError::InterfaceNameTooLong)));
    let rule = fresh_rule().iface("lo").unwrap();
    assert_eq!(rule.expr_count(), 2);
    let mut it = rule.get_exprs();
    it.next();
    match it.next() {
        // the name travels with its terminator
        Some(ExpressionVariant::Cmp(c)) => assert_eq!(c.get_data(), Some(&vec![b'l', b'o', 0])),
        _ => panic!("expected the interface name comparison"),
    }
}

#[test]
fn established_builds_the_state_mask() {
    let rule = fresh_rule().established().unwrap();
    assert_eq!(rule.expr_count(), 3);
    let mut it = rule.get_exprs();
    assert!(matches!(it.next(), Some(ExpressionVariant::Conntrack(_))));
    match it.next() {
        Some(ExpressionVariant::Bitwise(b)) => {
            assert_eq!(b.get_mask(), Some(&vec![2u8, 0, 0, 0]));
        },
        _ => panic!("expected the state mask"),
    }
    match it.next() {
        Some(ExpressionVariant::Cmp(c)) => assert_eq!(c.get_op(), Some(&CmpOp::Neq)),
        _ => panic!("expected the nonzero test"),
    }
}

#[test]
fn verdict_and_action_builders_append_one_expression_each() {
    assert_eq!(fresh_rule().accept().expr_count(), 1);
    assert_eq!(fresh_rule().drop().expr_count(), 1);
    assert_eq!(fresh_rule().masquerade().expr_count(), 1);
    assert_eq!(fresh_rule().icmp().expr_count(), 2);
    assert_eq!(fresh_rule().icmpv6().expr_count(), 2);
    assert_eq!(fresh_rule().igmp().expr_count(), 2);
    assert_eq!(fresh_rule().ip4in6().expr_count(), 4);
    assert_eq!(fresh_rule().ip6in4().expr_count(), 4);
    assert_eq!(fresh_rule().syn().unwrap().expr_count(), 3);
    assert_eq!(fresh_rule().set_mss(1400).expr_count(), 2);
    assert_eq!(fresh_rule().clamp_mss_to_pmtu().expr_count(), 3);
    assert_eq!(fresh_rule().dnat(IpAddress::V4([10, 0, 0, 1]), Some(8080)).expr_count(), 3);
    assert_eq!(fresh_rule().dnat(IpAddress::V4([10, 0, 0, 1]), None).expr_count(), 2);
    assert_eq!(fresh_rule().iface_id(3).expr_count(), 2);
    assert_eq!(fresh_rule().oface_id(3).expr_count(), 2);
    assert_eq!(fresh_rule().oface("lo").unwrap().expr_count(), 2);
    assert_eq!(fresh_rule().sport(53, Protocol::UDP).expr_count(), 4);
    assert_eq!(fresh_rule().protocol(Protocol::UDP).expr_count(), 2);
}

#[test]
fn rule_equality_demands_kernel_assigned_identity() {
    // documented quirk: without a handle and a position on both sides,
    // equality is false even for identical content
    let a = fresh_rule().accept();
    let b = fresh_rule().accept();
    assert!(a != b);
    let mut a = a;
    let mut b = b;
    a.set_handle(7);
    b.set_handle(7);
    assert!(a != b);
    a.set_position(1);
    b.set_position(1);
    assert!(a == b);
    b.set_handle(8);
    assert!(a != b);
}

#[test]
fn deep_equality_compares_expressions_pairwise() {
    let a = fresh_rule().accept();
    let b = fresh_rule().accept();
    // deep equality sees identical content even without kernel identity
    assert!(a.deep_eq(&b));
    assert!(!a.deep_eq(&fresh_rule().drop()));
    assert!(!a.deep_eq(&fresh_rule()));
}

#[test]
fn chain_helpers_build_a_named_base_chain() {
    let table = Table::new("filter", ProtocolFamily::Inet);
    let chain = Chain::from_hook(Hook::In, &table).verdict(Policy::Accept);
    assert_eq!(chain.get_name(), "in");
    assert_eq!(chain.get_hook(), Some(&(Hook::In, 0)));
    assert_eq!(chain.get_policy(), Some(&Policy::Accept));
    let mut batch = rustables::batch::Batch::new();
    let _chain = chain.add_to_batch(&mut batch);
    assert!(batch.finalize().is_some());
}

#[test]
fn address_octets_convert_to_byte_vectors() {
    assert_eq!(ip_to_vec(&IpAddress::V4([1, 2, 3, 4])), vec![1, 2, 3, 4]);
    assert_eq!(ip_to_vec(&IpAddress::V6([9; 16])).len(), 16);
}

#[test]
fn protocol_family_codes_round_trip() {
    for f in [
        ProtocolFamily::Unspec,
        ProtocolFamily::Inet,
        ProtocolFamily::Ipv4,
        ProtocolFamily::Arp,
        ProtocolFamily::NetDev,
        ProtocolFamily::Bridge,
        ProtocolFamily::Ipv6,
    ] {
        assert_eq!(ProtocolFamily::from_code(f.code()), Some(f));
    }
    assert_eq!(ProtocolFamily::from_code(99), None);
}

#[test]
fn rule_round_trips_through_its_wire_message() {
    let rule = fresh_rule().dport(443, Protocol::TCP).accept();
    let mut batch = rustables::batch::Batch::new();
    batch.add(&rule, MsgType::Add);
    let fb = batch.finalize().unwrap();
    let msg = &fb.messages()[1];
    let (hdr, parsed) = parse_nlmsg(msg).unwrap();
    assert_eq!(hdr.nlmsg_type, 0x0A06);
    let (_, reader, _) = parse_object(hdr, parsed, msg).unwrap();
    let attrs = reader.decode::<Rule>().unwrap();
    let decoded = Rule::from_attrs(&attrs, ProtocolFamily::Inet).unwrap();
    assert_eq!(decoded.get_chain().get_name(), "input");
    assert_eq!(decoded.get_chain().get_table().get_name(), "filter");
    assert_eq!(decoded.expr_count(), 5);
    assert!(rule.deep_eq(&decoded));
}

#[test]
fn kernel_assigned_fields_and_userdata_are_kept() {
    let mut rule = fresh_rule();
    assert_eq!(rule.get_handle(), None);
    assert_eq!(rule.get_position(), None);
    assert!(rule.get_userdata().is_none());
    rule.set_handle(42);
    rule.set_position(7);
    rule.set_userdata(vec![1, 2, 3]);
    assert_eq!(rule.get_handle(), Some(42));
    assert_eq!(rule.get_position(), Some(7));
    assert_eq!(rule.get_userdata(), Some(&vec![1u8, 2, 3]));
    assert_eq!(rule.get_chain().get_name(), "input");
}

#[test]
fn expression_iterator_walks_in_order_and_ends() {
    let rule = fresh_rule().accept();
    let mut it = rule.get_exprs();
    assert!(it.next().is_some());
    assert!(it.next().is_none());
    assert!(it.next().is_none());
}

#[test]
fn chain_identity_ignores_hook_and_policy() {
    let table = Table::new("filter", ProtocolFamily::Inet);
    let plain = Chain::new("input", &table);
    let mut hooked = Chain::new("input", &table);
    hooked.attach_hook(Hook::In, 0);
    assert!(plain == hooked);
    let other_table = Table::new("nat", ProtocolFamily::Inet);
    assert!(plain != Chain::new("input", &other_table));
    assert!(plain != Chain::new("output", &table));
}

#[test]
fn table_decodes_back_from_its_attribute_set() {
    let table = Table::new("filter", ProtocolFamily::Inet);
    let decoded = Table::from_attrs(&table.to_attrs(), ProtocolFamily::Inet).unwrap();
    assert_eq!(decoded.get_name(), "filter");
    assert_eq!(decoded.get_family(), ProtocolFamily::Inet);
}
