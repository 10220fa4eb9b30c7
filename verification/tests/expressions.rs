//! Expression model behaviour: per-kind encode/decode round trips, order
//! preservation through the nested list, and the masked-network scenario.

use rustables::expr::bitwise::Bitwise;
use rustables::expr::cmp::{Cmp, CmpOp};
use rustables::expr::ct::{ConnTrackState, Conntrack, ConntrackKey};
use rustables::expr::immediate::{Immediate, ImmediateData};
use rustables::expr::meta::{Meta, MetaType};
use rustables::expr::verdict::Verdict;
use rustables::expr::{
    ExpressionVariant, Register, decode_expr, parse_expr_list, write_exprs,
};
use rustables::error::BuilderError;
use rustables::expr::Expression;
use rustables::expr::reject::{NFT_REJECT_ICMPX_HOST_UNREACH, RejectType};

fn encode_one(e: &ExpressionVariant) -> Vec<u8> {
    let mut out = Vec::new();
    write_exprs(&vec![e.clone()], &mut out);
    out
}

#[test]
fn expression_order_is_preserved_through_the_wire() {
    // a rule body of three expressions: load nfproto, compare with 2, accept
    let exprs = vec![
        ExpressionVariant::Meta(Meta::new(MetaType::NfProto)),
        ExpressionVariant::Cmp(Cmp::new(CmpOp::Eq, vec![2])),
        ExpressionVariant::Immediate(Immediate::new_verdict(Verdict::Accept)),
    ];
    let mut out = Vec::new();
    write_exprs(&exprs, &mut out);
    let decoded = parse_expr_list(&out).unwrap();
    assert_eq!(decoded.len(), 3);
    match &decoded[0] {
        ExpressionVariant::Meta(m) => {
            assert_eq!(m.get_dreg(), Some(&Register::Reg1));
            assert_eq!(m.get_key(), Some(&MetaType::NfProto));
        },
        _ => panic!("first expression should be the metadata load"),
    }
    match &decoded[1] {
        ExpressionVariant::Cmp(c) => {
            assert_eq!(c.get_op(), Some(&CmpOp::Eq));
            assert_eq!(c.get_data(), Some(&vec![2u8]));
        },
        _ => panic!("second expression should be the comparison"),
    }
    match &decoded[2] {
        ExpressionVariant::Immediate(imm) => {
            assert_eq!(imm.get_dreg(), Some(&Register::Verdict));
            match imm.get_data() {
                Some(ImmediateData::Verdict(Verdict::Accept)) => {},
                _ => panic!("third expression should carry the accept verdict"),
            }
        },
        _ => panic!("third expression should be the immediate verdict"),
    }
}

#[test]
fn masked_network_match_round_trips() {
    // mask 255.255.255.0, xor zero, then compare with 10.1.0.0
    let exprs = vec![
        ExpressionVariant::Bitwise(
            Bitwise::new(vec![255, 255, 255, 0], vec![0, 0, 0, 0]).unwrap(),
        ),
        ExpressionVariant::Cmp(Cmp::new(CmpOp::Eq, vec![10, 1, 0, 0])),
    ];
    let mut out = Vec::new();
    write_exprs(&exprs, &mut out);
    let decoded = parse_expr_list(&out).unwrap();
    assert_eq!(decoded.len(), 2);
    match &decoded[0] {
        ExpressionVariant::Bitwise(b) => {
            assert_eq!(b.get_mask(), Some(&vec![255u8, 255, 255, 0]));
            assert_eq!(b.get_xor(), Some(&vec![0u8, 0, 0, 0]));
            assert_eq!(b.get_len(), Some(&4u32));
        },
        _ => panic!("first expression should be the bitwise mask"),
    }
    match &decoded[1] {
        ExpressionVariant::Cmp(c) => {
            assert_eq!(c.get_op(), Some(&CmpOp::Eq));
            assert_eq!(c.get_data(), Some(&vec![10u8, 1, 0, 0]));
        },
        _ => panic!("second expression should be the comparison"),
    }
}

#[test]
fn bitwise_rejects_mismatched_mask_and_xor_lengths() {
    assert!(matches!(
        Bitwise::new(vec![255, 255], vec![0]),
        Err(BuilderError::InvalidMaskLength)
    ));
}

#[test]
fn jump_verdict_keeps_its_chain_name() {
    let e = ExpressionVariant::Immediate(Immediate::new_verdict(Verdict::Jump {
        chain: String::from("forwarding"),
    }));
    let out = encode_one(&e);
    let decoded = parse_expr_list(&out).unwrap();
    match &decoded[0] {
        ExpressionVariant::Immediate(imm) => match imm.get_data() {
            Some(ImmediateData::Verdict(Verdict::Jump { chain })) => {
                assert_eq!(chain, "forwarding");
            },
            _ => panic!("expected a jump verdict"),
        },
        _ => panic!("expected an immediate"),
    }
}

#[test]
fn conntrack_expression_round_trips() {
    let e = ExpressionVariant::Conntrack(Conntrack::new(ConntrackKey::State));
    let decoded = parse_expr_list(&encode_one(&e)).unwrap();
    match &decoded[0] {
        ExpressionVariant::Conntrack(ct) => {
            assert_eq!(ct.get_dreg(), Some(&Register::Reg1));
            assert_eq!(ct.get_key(), Some(&ConntrackKey::State));
        },
        _ => panic!("expected a conntrack expression"),
    }
    assert_eq!(ConnTrackState::Established.bits(), 2);
}

#[test]
fn unknown_expression_name_is_rejected() {
    assert!(decode_expr("frobnicate", &[]).is_err());
}

#[test]
fn expression_names_match_their_kinds() {
    assert_eq!(rustables::expr::cmp::Cmp::get_name(), "cmp");
    assert_eq!(rustables::expr::bitwise::Bitwise::get_name(), "bitwise");
    assert_eq!(rustables::expr::meta::Meta::get_name(), "meta");
    assert_eq!(rustables::expr::immediate::Immediate::get_name(), "immediate");
    assert_eq!(rustables::expr::masquerade::Masquerade::get_name(), "masq");
    assert_eq!(rustables::expr::counter::Counter::get_name(), "counter");
}

#[test]
fn counter_and_masquerade_round_trip() {
    let e = ExpressionVariant::Counter(rustables::expr::counter::Counter::new());
    let decoded = parse_expr_list(&encode_one(&e)).unwrap();
    assert!(matches!(&decoded[0], ExpressionVariant::Counter(_)));
    let e = ExpressionVariant::Masquerade(rustables::expr::masquerade::Masquerade {});
    let decoded = parse_expr_list(&encode_one(&e)).unwrap();
    assert!(matches!(&decoded[0], ExpressionVariant::Masquerade(_)));
}

#[test]
fn rejection_becomes_its_own_expression_and_other_verdicts_an_immediate() {
    match Verdict::Reject.to_expr() {
        ExpressionVariant::Reject(r) => {
            assert_eq!(r.get_reject_type(), Some(&RejectType::IcmpxUnreach));
            assert_eq!(r.get_icmp_code(), Some(&NFT_REJECT_ICMPX_HOST_UNREACH));
        },
        _ => panic!("a rejection must travel as its own expression"),
    }
    match Verdict::Drop.to_expr() {
        ExpressionVariant::Immediate(imm) => {
            assert_eq!(imm.get_dreg(), Some(&Register::Verdict));
            assert!(matches!(
                imm.get_data(),
                Some(ImmediateData::Verdict(Verdict::Drop))
            ));
        },
        _ => panic!("a drop travels through the immediate path"),
    }
    assert_eq!(Verdict::Drop.immediate_code(), Some(0));
    assert_eq!(Verdict::Accept.immediate_code(), Some(1));
    assert_eq!(Verdict::Reject.immediate_code(), None);
    assert_eq!(
        Verdict::Jump { chain: String::from("x") }.chain(),
        Some(&String::from("x"))
    );
}
