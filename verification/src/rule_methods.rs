//! Rule-building sugar: each helper appends the exact expressions that match
//! or act on one protocol aspect, in evaluation order.

use vstd::prelude::*;
use vstd::slice::slice_to_vec;

use crate::ProtocolFamily;
use crate::data_type::{IpAddress, IpNetwork, ip_to_vec, spec_network_bytes};
use crate::error::BuilderError;
use crate::expr::ExpressionVariant;
use crate::expr::ExpressionVariantView;
use crate::expr::Register;
use crate::expr::bitwise::{Bitwise, BitwiseView};
use crate::expr::byteorder::{Byteorder, ByteorderOp, ByteorderView};
use crate::expr::cmp::{Cmp, CmpOp, CmpView};
use crate::expr::ct::{ConnTrackState, Conntrack, ConntrackKey, ConntrackView};
use crate::expr::exthdr::{ExtHdr, ExtHdrOp, ExtHdrView};
use crate::expr::immediate::{Immediate, ImmediateDataView};
use crate::expr::masquerade::Masquerade;
use crate::expr::meta::{Meta, MetaType, MetaView};
use crate::expr::nat_expr::{Nat, NatType, NatView};
use crate::expr::payload::{
    HighLevelPayload, IPv4HeaderField, IPv6HeaderField, NFT_PAYLOAD_TRANSPORT_HEADER,
    NetworkHeaderField, Payload, PayloadView, TCPHeaderField, TransportHeaderField, UDPHeaderField,
};
use crate::expr::rt::{Rt, RtKey, RtView};
use crate::expr::verdict::Verdict;
use crate::rule::{Rule, RuleView};

verus! {

/// Layer-4 protocol numbers.
pub const IPPROTO_ICMP: u8 = 1;

pub const IPPROTO_IGMP: u8 = 2;

pub const IPPROTO_TCP: u8 = 6;

pub const IPPROTO_UDP: u8 = 17;

pub const IPPROTO_ICMPV6: u8 = 58;

/// Layer-3 protocol family codes as seen by the hooks.
pub const NFPROTO_IPV4: u8 = 2;

pub const NFPROTO_IPV6: u8 = 10;

/// The kernel's bound on interface name length, terminator included.
pub const IFNAMSIZ: usize = 16;

/// Simple transport protocol selection. Other layer-4 protocols are matched
/// through their numbers, as the ICMP and IGMP helpers do.
#[derive(Debug, Clone, Copy, PartialEq, Eq, Structural)]
pub enum Protocol {
    TCP,
    UDP,
}

impl Protocol {
    /// The protocol's layer-4 number.
    pub open spec fn spec_number(self) -> u8 {
        match self {
            Protocol::TCP => IPPROTO_TCP,
            Protocol::UDP => IPPROTO_UDP,
        }
    }

    pub fn number(self) -> (r: u8)
        ensures
            r == self.spec_number(),
    {
        match self {
            Protocol::TCP => IPPROTO_TCP,
            Protocol::UDP => IPPROTO_UDP,
        }
    }
}

/// A 16-bit value in network byte order.
fn u16_be_bytes(x: u16) -> (r: Vec<u8>)
    ensures
        r@ == seq![(x >> 8) as u8, (x & 0xff) as u8],
{
    proof {
        assert(x >> 8 < 256 && (x & 0xff) < 256) by (bit_vector);
    }
    let mut v: Vec<u8> = Vec::new();
    v.push((x >> 8) as u8);
    v.push((x & 0xff) as u8);
    proof {
        assert(v@ =~= seq![(x >> 8) as u8, (x & 0xff) as u8]);
    }
    v
}

/// A 32-bit value in network byte order.
fn u32_be_bytes(x: u32) -> (r: Vec<u8>)
    ensures
        r@ == seq![
            (x >> 24) as u8,
            ((x >> 16) & 0xff) as u8,
            ((x >> 8) & 0xff) as u8,
            (x & 0xff) as u8,
        ],
{
    proof {
        assert(x >> 24 < 256 && ((x >> 16) & 0xff) < 256 && ((x >> 8) & 0xff) < 256 && (x & 0xff)
            < 256) by (bit_vector);
    }
    let mut v: Vec<u8> = Vec::new();
    v.push((x >> 24) as u8);
    v.push(((x >> 16) & 0xff) as u8);
    v.push(((x >> 8) & 0xff) as u8);
    v.push((x & 0xff) as u8);
    proof {
        assert(v@ =~= seq![
            (x >> 24) as u8,
            ((x >> 16) & 0xff) as u8,
            ((x >> 8) & 0xff) as u8,
            (x & 0xff) as u8,
        ]);
    }
    v
}

/// The expression views loading and testing the layer-4 protocol number.
pub open spec fn spec_protocol_exprs(p: Protocol) -> Seq<ExpressionVariantView> {
    seq![
        ExpressionVariantView::Meta(
            MetaView { dreg: Some(Register::Reg1), key: Some(MetaType::L4Proto), sreg: None },
        ),
        ExpressionVariantView::Cmp(
            CmpView {
                sreg: Some(Register::Reg1),
                op: Some(CmpOp::Eq),
                data: Some(seq![p.spec_number()]),
            },
        ),
    ]
}

/// The expression views loading and testing one layer-4 protocol number.
pub open spec fn spec_l4_match_exprs(number: u8) -> Seq<ExpressionVariantView> {
    seq![
        ExpressionVariantView::Meta(
            MetaView { dreg: Some(Register::Reg1), key: Some(MetaType::L4Proto), sreg: None },
        ),
        ExpressionVariantView::Cmp(
            CmpView { sreg: Some(Register::Reg1), op: Some(CmpOp::Eq), data: Some(seq![number]) },
        ),
    ]
}

impl Rule {
    /// Matches one transport-layer port: the protocol first, then the source
    /// or destination port field against the port in network order.
    fn match_port(self, port: u16, protocol: Protocol, source: bool) -> (r: Self)
        ensures
            r@ == (RuleView {
                exprs: self@.exprs + spec_protocol_exprs(protocol) + seq![
                    ExpressionVariantView::Payload(
                        PayloadView {
                            dreg: Some(Register::Reg1),
                            base: Some(NFT_PAYLOAD_TRANSPORT_HEADER),
                            offset: Some(if source { 0u32 } else { 2u32 }),
                            len: Some(2u32),
                            sreg: None,
                        },
                    ),
                    ExpressionVariantView::Cmp(
                        CmpView {
                            sreg: Some(Register::Reg1),
                            op: Some(CmpOp::Eq),
                            data: Some(seq![(port >> 8) as u8, (port & 0xff) as u8]),
                        },
                    ),
                ],
                ..self@
            }),
    {
        let mut r = self.protocol(protocol);
        let field = match protocol {
            Protocol::TCP => TransportHeaderField::Tcp(
                if source {
                    TCPHeaderField::Sport
                } else {
                    TCPHeaderField::Dport
                },
            ),
            Protocol::UDP => TransportHeaderField::Udp(
                if source {
                    UDPHeaderField::Sport
                } else {
                    UDPHeaderField::Dport
                },
            ),
        };
        r.add_expr(ExpressionVariant::Payload(HighLevelPayload::Transport(field).build()));
        r.add_expr(ExpressionVariant::Cmp(Cmp::new(CmpOp::Eq, u16_be_bytes(port))));
        proof {
            assert(r@.exprs =~= self@.exprs + spec_protocol_exprs(protocol) + seq![
                ExpressionVariantView::Payload(
                    PayloadView {
                        dreg: Some(Register::Reg1),
                        base: Some(NFT_PAYLOAD_TRANSPORT_HEADER),
                        offset: Some(if source { 0u32 } else { 2u32 }),
                        len: Some(2u32),
                        sreg: None,
                    },
                ),
                ExpressionVariantView::Cmp(
                    CmpView {
                        sreg: Some(Register::Reg1),
                        op: Some(CmpOp::Eq),
                        data: Some(seq![(port >> 8) as u8, (port & 0xff) as u8]),
                    },
                ),
            ]);
        }
        r
    }

    /// Matches packets from source `port` over `protocol`.
    pub fn sport(self, port: u16, protocol: Protocol) -> (r: Self)
        ensures
            r@.exprs.len() == self@.exprs.len() + 4,
            r@.chain == self@.chain,
    {
        self.match_port(port, protocol, true)
    }

    /// Matches packets to destination `port` over `protocol`.
    pub fn dport(self, port: u16, protocol: Protocol) -> (r: Self)
        ensures
            r@.exprs.len() == self@.exprs.len() + 4,
            r@.chain == self@.chain,
    {
        self.match_port(port, protocol, false)
    }

    /// Matches packets carrying `protocol`.
    pub fn protocol(self, protocol: Protocol) -> (r: Self)
        ensures
            r@ == (RuleView { exprs: self@.exprs + spec_protocol_exprs(protocol), ..self@ }),
    {
        let mut r = self;
        r.add_expr(ExpressionVariant::Meta(Meta::new(MetaType::L4Proto)));
        let mut data: Vec<u8> = Vec::new();
        data.push(protocol.number());
        proof {
            assert(data@ =~= seq![protocol.spec_number()]);
        }
        r.add_expr(ExpressionVariant::Cmp(Cmp::new(CmpOp::Eq, data)));
        proof {
            assert(r@.exprs =~= self@.exprs + spec_protocol_exprs(protocol));
        }
        r
    }

    /// Matches one layer-4 protocol by number.
    fn match_l4(self, number: u8) -> (r: Self)
        ensures
            r@ == (RuleView { exprs: self@.exprs + spec_l4_match_exprs(number), ..self@ }),
    {
        let mut r = self;
        r.add_expr(ExpressionVariant::Meta(Meta::new(MetaType::L4Proto)));
        let mut data: Vec<u8> = Vec::new();
        data.push(number);
        proof {
            assert(data@ =~= seq![number]);
        }
        r.add_expr(ExpressionVariant::Cmp(Cmp::new(CmpOp::Eq, data)));
        proof {
            assert(r@.exprs =~= self@.exprs + spec_l4_match_exprs(number));
        }
        r
    }

    /// Matches ICMP packets.
    pub fn icmp(self) -> (r: Self)
        ensures
            r@ == (RuleView { exprs: self@.exprs + spec_l4_match_exprs(IPPROTO_ICMP), ..self@ }),
    {
        self.match_l4(IPPROTO_ICMP)
    }

    /// Matches ICMPv6 packets.
    pub fn icmpv6(self) -> (r: Self)
        ensures
            r@ == (RuleView { exprs: self@.exprs + spec_l4_match_exprs(IPPROTO_ICMPV6), ..self@ }),
    {
        self.match_l4(IPPROTO_ICMPV6)
    }

    /// Matches IGMP packets.
    pub fn igmp(self) -> (r: Self)
        ensures
            r@ == (RuleView { exprs: self@.exprs + spec_l4_match_exprs(IPPROTO_IGMP), ..self@ }),
    {
        self.match_l4(IPPROTO_IGMP)
    }

    /// Matches packets whose address (source or destination) is `ip`; the
    /// family is tested first so the address bytes can be loaded safely.
    pub fn match_ip(self, ip: IpAddress, source: bool) -> (r: Self)
        ensures
            r@.exprs.len() == self@.exprs.len() + 4,
            r@.chain == self@.chain,
            r@.handle == self@.handle,
            r@.position == self@.position,
            r@.userdata == self@.userdata,
            r@.exprs.subrange(0, self@.exprs.len() as int) == self@.exprs,
            r@.exprs[self@.exprs.len() as int + 3] == ExpressionVariantView::Cmp(
                CmpView {
                    sreg: Some(Register::Reg1),
                    op: Some(CmpOp::Eq),
                    data: Some(ip.spec_bytes()),
                },
            ),
    {
        let mut r = self;
        r.add_expr(ExpressionVariant::Meta(Meta::new(MetaType::NfProto)));
        let fam: u8 = if ip.is_v4() {
            NFPROTO_IPV4
        } else {
            NFPROTO_IPV6
        };
        let mut fam_data: Vec<u8> = Vec::new();
        fam_data.push(fam);
        r.add_expr(ExpressionVariant::Cmp(Cmp::new(CmpOp::Eq, fam_data)));
        let field = match ip {
            IpAddress::V4(_) => NetworkHeaderField::IPv4(
                if source {
                    IPv4HeaderField::Saddr
                } else {
                    IPv4HeaderField::Daddr
                },
            ),
            IpAddress::V6(_) => NetworkHeaderField::IPv6(
                if source {
                    IPv6HeaderField::Saddr
                } else {
                    IPv6HeaderField::Daddr
                },
            ),
        };
        r.add_expr(ExpressionVariant::Payload(HighLevelPayload::Network(field).build()));
        r.add_expr(ExpressionVariant::Cmp(Cmp::new(CmpOp::Eq, ip_to_vec(&ip))));
        proof {
            assert(r@.exprs.subrange(0, self@.exprs.len() as int) =~= self@.exprs);
        }
        r
    }

    /// Matches packets whose source address is `ip`.
    pub fn saddr(self, ip: IpAddress) -> (r: Self)
        ensures
            r@.exprs.len() == self@.exprs.len() + 4,
            r@.chain == self@.chain,
    {
        self.match_ip(ip, true)
    }

    /// Matches packets whose destination address is `ip`.
    pub fn daddr(self, ip: IpAddress) -> (r: Self)
        ensures
            r@.exprs.len() == self@.exprs.len() + 4,
            r@.chain == self@.chain,
    {
        self.match_ip(ip, false)
    }

    /// Matches packets whose address lies in `net`: the family is tested,
    /// the address register is masked down to the prefix, and the result is
    /// compared with the network address.
    pub fn match_network(self, net: IpNetwork, source: bool) -> (r: Result<Self, BuilderError>)
        requires
            net.wf(),
        ensures
            match r {
                Ok(rule) => {
                    &&& rule@.exprs.len() == self@.exprs.len() + 5
                    &&& rule@.chain == self@.chain
                    &&& rule@.handle == self@.handle
                    &&& rule@.position == self@.position
                    &&& rule@.userdata == self@.userdata
                    &&& rule@.exprs.subrange(0, self@.exprs.len() as int) == self@.exprs
                    &&& rule@.exprs[self@.exprs.len() as int + 3]
                        == ExpressionVariantView::Bitwise(
                        BitwiseView {
                            sreg: Some(Register::Reg1),
                            dreg: Some(Register::Reg1),
                            len: Some(net.spec_addr().spec_len() as u32),
                            mask: Some(
                                crate::data_type::spec_mask_bytes(
                                    net.spec_prefix() as int,
                                    net.spec_addr().spec_len(),
                                ),
                            ),
                            xor: Some(Seq::new(net.spec_addr().spec_len() as nat, |j: int| 0u8)),
                        },
                    )
                    &&& rule@.exprs[self@.exprs.len() as int + 4] == ExpressionVariantView::Cmp(
                        CmpView {
                            sreg: Some(Register::Reg1),
                            op: Some(CmpOp::Eq),
                            data: Some(spec_network_bytes(net)),
                        },
                    )
                },
                Err(_) => false,
            },
    {
        let mut r = self;
        r.add_expr(ExpressionVariant::Meta(Meta::new(MetaType::NfProto)));
        let fam: u8 = if net.is_v4() {
            NFPROTO_IPV4
        } else {
            NFPROTO_IPV6
        };
        let mut fam_data: Vec<u8> = Vec::new();
        fam_data.push(fam);
        r.add_expr(ExpressionVariant::Cmp(Cmp::new(CmpOp::Eq, fam_data)));
        let field = match net.get_addr() {
            IpAddress::V4(_) => NetworkHeaderField::IPv4(
                if source {
                    IPv4HeaderField::Saddr
                } else {
                    IPv4HeaderField::Daddr
                },
            ),
            IpAddress::V6(_) => NetworkHeaderField::IPv6(
                if source {
                    IPv6HeaderField::Saddr
                } else {
                    IPv6HeaderField::Daddr
                },
            ),
        };
        r.add_expr(ExpressionVariant::Payload(HighLevelPayload::Network(field).build()));
        let mask = net.mask();
        let n = mask.len();
        let mut zeros: Vec<u8> = Vec::new();
        let mut j: usize = 0;
        while j < n
            invariant
                0 <= j <= n,
                zeros@ =~= Seq::new(j as nat, |k: int| 0u8),
            decreases n - j,
        {
            zeros.push(0);
            proof {
                assert(zeros@ =~= Seq::new(j as nat + 1, |k: int| 0u8));
            }
            j = j + 1;
        }
        let bw = match Bitwise::new(mask, zeros) {
            Ok(b) => b,
            Err(e) => {
                return Err(e);
            },
        };
        r.add_expr(ExpressionVariant::Bitwise(bw));
        r.add_expr(ExpressionVariant::Cmp(Cmp::new(CmpOp::Eq, net.network())));
        proof {
            assert(r@.exprs.subrange(0, self@.exprs.len() as int) =~= self@.exprs);
        }
        Ok(r)
    }

    /// Matches packets whose source network is `net`.
    pub fn snetwork(self, net: IpNetwork) -> (r: Result<Self, BuilderError>)
        requires
            net.wf(),
        ensures
            match r {
                Ok(rule) => rule@.exprs.len() == self@.exprs.len() + 5 && rule@.chain
                    == self@.chain,
                Err(_) => false,
            },
    {
        self.match_network(net, true)
    }

    /// Matches packets whose destination network is `net`.
    pub fn dnetwork(self, net: IpNetwork) -> (r: Result<Self, BuilderError>)
        requires
            net.wf(),
        ensures
            match r {
                Ok(rule) => rule@.exprs.len() == self@.exprs.len() + 5 && rule@.chain
                    == self@.chain,
                Err(_) => false,
            },
    {
        self.match_network(net, false)
    }

    /// Matches 4-in-6 tunnelled packets.
    pub fn ip4in6(self) -> (r: Self)
        ensures
            r@.exprs.len() == self@.exprs.len() + 4,
            r@.chain == self@.chain,
    {
        let mut r = self;
        r.add_expr(ExpressionVariant::Meta(Meta::new(MetaType::NfProto)));
        let mut fam_data: Vec<u8> = Vec::new();
        fam_data.push(NFPROTO_IPV6);
        r.add_expr(ExpressionVariant::Cmp(Cmp::new(CmpOp::Eq, fam_data)));
        r.add_expr(
            ExpressionVariant::Payload(
                HighLevelPayload::Network(
                    NetworkHeaderField::IPv6(IPv6HeaderField::NextHeader),
                ).build(),
            ),
        );
        let mut proto: Vec<u8> = Vec::new();
        proto.push(60);
        r.add_expr(ExpressionVariant::Cmp(Cmp::new(CmpOp::Eq, proto)));
        r
    }

    /// Matches 6-in-4 tunnelled packets.
    pub fn ip6in4(self) -> (r: Self)
        ensures
            r@.exprs.len() == self@.exprs.len() + 4,
            r@.chain == self@.chain,
    {
        let mut r = self;
        r.add_expr(ExpressionVariant::Meta(Meta::new(MetaType::NfProto)));
        let mut fam_data: Vec<u8> = Vec::new();
        fam_data.push(NFPROTO_IPV4);
        r.add_expr(ExpressionVariant::Cmp(Cmp::new(CmpOp::Eq, fam_data)));
        r.add_expr(
            ExpressionVariant::Payload(
                HighLevelPayload::Network(
                    NetworkHeaderField::IPv4(IPv4HeaderField::Protocol),
                ).build(),
            ),
        );
        let mut proto: Vec<u8> = Vec::new();
        proto.push(41);
        r.add_expr(ExpressionVariant::Cmp(Cmp::new(CmpOp::Eq, proto)));
        r
    }

    /// Matches packets in an established connection: the connection state is
    /// loaded, masked to the established bit, and tested nonzero.
    pub fn established(self) -> (r: Result<Self, BuilderError>)
        ensures
            match r {
                Ok(rule) => {
                    &&& rule@.exprs.len() == self@.exprs.len() + 3
                    &&& rule@.chain == self@.chain
                    &&& rule@.exprs.subrange(0, self@.exprs.len() as int) == self@.exprs
                    &&& rule@.exprs[self@.exprs.len() as int] == ExpressionVariantView::Conntrack(
                        ConntrackView {
                            dreg: Some(Register::Reg1),
                            key: Some(ConntrackKey::State),
                            direction: None,
                            sreg: None,
                        },
                    )
                },
                Err(_) => false,
            },
    {
        let mut r = self;
        r.add_expr(ExpressionVariant::Conntrack(Conntrack::new(ConntrackKey::State)));
        let bits = ConnTrackState::Established.bits();
        let mask = vstd::bytes::u32_to_le_bytes(bits);
        let mut zeros: Vec<u8> = Vec::new();
        zeros.push(0);
        zeros.push(0);
        zeros.push(0);
        zeros.push(0);
        let bw = match Bitwise::new(mask, zeros) {
            Ok(b) => b,
            Err(e) => {
                return Err(e);
            },
        };
        r.add_expr(ExpressionVariant::Bitwise(bw));
        let mut z4: Vec<u8> = Vec::new();
        z4.push(0);
        z4.push(0);
        z4.push(0);
        z4.push(0);
        r.add_expr(ExpressionVariant::Cmp(Cmp::new(CmpOp::Neq, z4)));
        proof {
            assert(r@.exprs.subrange(0, self@.exprs.len() as int) =~= self@.exprs);
        }
        Ok(r)
    }

    /// Matches packets arriving through the interface with this index.
    pub fn iface_id(self, iface_index: u32) -> (r: Self)
        ensures
            r@ == (RuleView {
                exprs: self@.exprs + seq![
                    ExpressionVariantView::Meta(
                        MetaView {
                            dreg: Some(Register::Reg1),
                            key: Some(MetaType::Iif),
                            sreg: None,
                        },
                    ),
                    ExpressionVariantView::Cmp(
                        CmpView {
                            sreg: Some(Register::Reg1),
                            op: Some(CmpOp::Eq),
                            data: Some(
                                seq![
                                    (iface_index >> 24) as u8,
                                    ((iface_index >> 16) & 0xff) as u8,
                                    ((iface_index >> 8) & 0xff) as u8,
                                    (iface_index & 0xff) as u8,
                                ],
                            ),
                        },
                    ),
                ],
                ..self@
            }),
    {
        let mut r = self;
        r.add_expr(ExpressionVariant::Meta(Meta::new(MetaType::Iif)));
        r.add_expr(ExpressionVariant::Cmp(Cmp::new(CmpOp::Eq, u32_be_bytes(iface_index))));
        proof {
            assert(r@.exprs =~= self@.exprs + seq![
                ExpressionVariantView::Meta(
                    MetaView { dreg: Some(Register::Reg1), key: Some(MetaType::Iif), sreg: None },
                ),
                ExpressionVariantView::Cmp(
                    CmpView {
                        sreg: Some(Register::Reg1),
                        op: Some(CmpOp::Eq),
                        data: Some(
                            seq![
                                (iface_index >> 24) as u8,
                                ((iface_index >> 16) & 0xff) as u8,
                                ((iface_index >> 8) & 0xff) as u8,
                                (iface_index & 0xff) as u8,
                            ],
                        ),
                    },
                ),
            ]);
        }
        r
    }

    /// Matches packets arriving through the named interface. The name, with
    /// its terminator, must fit the kernel's bound.
    pub fn iface(self, iface_name: &str) -> (r: Result<Self, BuilderError>)
        ensures
            match r {
                Ok(rule) => vstd::utf8::encode_utf8(iface_name@).len() < IFNAMSIZ && rule@ == (
                RuleView {
                    exprs: self@.exprs + seq![
                        ExpressionVariantView::Meta(
                            MetaView {
                                dreg: Some(Register::Reg1),
                                key: Some(MetaType::IifName),
                                sreg: None,
                            },
                        ),
                        ExpressionVariantView::Cmp(
                            CmpView {
                                sreg: Some(Register::Reg1),
                                op: Some(CmpOp::Eq),
                                data: Some(vstd::utf8::encode_utf8(iface_name@).push(0u8)),
                            },
                        ),
                    ],
                    ..self@
                }),
                Err(e) => e == BuilderError::InterfaceNameTooLong && vstd::utf8::encode_utf8(
                    iface_name@,
                ).len() >= IFNAMSIZ,
            },
    {
        if iface_name.as_bytes().len() >= IFNAMSIZ {
            return Err(BuilderError::InterfaceNameTooLong);
        }
        let mut name_vec = slice_to_vec(iface_name.as_bytes());
        name_vec.push(0u8);
        let mut r = self;
        r.add_expr(ExpressionVariant::Meta(Meta::new(MetaType::IifName)));
        r.add_expr(ExpressionVariant::Cmp(Cmp::new(CmpOp::Eq, name_vec)));
        proof {
            assert(r@.exprs =~= self@.exprs + seq![
                ExpressionVariantView::Meta(
                    MetaView {
                        dreg: Some(Register::Reg1),
                        key: Some(MetaType::IifName),
                        sreg: None,
                    },
                ),
                ExpressionVariantView::Cmp(
                    CmpView {
                        sreg: Some(Register::Reg1),
                        op: Some(CmpOp::Eq),
                        data: Some(vstd::utf8::encode_utf8(iface_name@).push(0u8)),
                    },
                ),
            ]);
        }
        Ok(r)
    }

    /// Matches packets leaving through the interface with this index.
    pub fn oface_id(self, oface_index: u32) -> (r: Self)
        ensures
            r@.exprs.len() == self@.exprs.len() + 2,
            r@.chain == self@.chain,
    {
        let mut r = self;
        r.add_expr(ExpressionVariant::Meta(Meta::new(MetaType::Oif)));
        r.add_expr(ExpressionVariant::Cmp(Cmp::new(CmpOp::Eq, u32_be_bytes(oface_index))));
        r
    }

    /// Matches packets leaving through the named interface.
    pub fn oface(self, oface_name: &str) -> (r: Result<Self, BuilderError>)
        ensures
            match r {
                Ok(rule) => vstd::utf8::encode_utf8(oface_name@).len() < IFNAMSIZ && rule@.exprs.len()
                    == self@.exprs.len() + 2 && rule@.chain == self@.chain,
                Err(e) => e == BuilderError::InterfaceNameTooLong && vstd::utf8::encode_utf8(
                    oface_name@,
                ).len() >= IFNAMSIZ,
            },
    {
        if oface_name.as_bytes().len() >= IFNAMSIZ {
            return Err(BuilderError::InterfaceNameTooLong);
        }
        let mut name_vec = slice_to_vec(oface_name.as_bytes());
        name_vec.push(0u8);
        let mut r = self;
        r.add_expr(ExpressionVariant::Meta(Meta::new(MetaType::OifName)));
        r.add_expr(ExpressionVariant::Cmp(Cmp::new(CmpOp::Eq, name_vec)));
        Ok(r)
    }

    /// Gives the rule the accept outcome; matched packets pass.
    pub fn accept(self) -> (r: Self)
        ensures
            r@ == (RuleView {
                exprs: self@.exprs.push(
                    ExpressionVariantView::Immediate(
                        crate::expr::immediate::ImmediateView {
                            dreg: Some(Register::Verdict),
                            data: Some(
                                ImmediateDataView::Verdict(
                                    crate::expr::verdict::VerdictView::Accept,
                                ),
                            ),
                        },
                    ),
                ),
                ..self@
            }),
    {
        let mut r = self;
        r.add_expr(ExpressionVariant::Immediate(Immediate::new_verdict(Verdict::Accept)));
        r
    }

    /// Gives the rule the drop outcome; matched packets are dropped.
    pub fn drop(self) -> (r: Self)
        ensures
            r@ == (RuleView {
                exprs: self@.exprs.push(
                    ExpressionVariantView::Immediate(
                        crate::expr::immediate::ImmediateView {
                            dreg: Some(Register::Verdict),
                            data: Some(
                                ImmediateDataView::Verdict(crate::expr::verdict::VerdictView::Drop),
                            ),
                        },
                    ),
                ),
                ..self@
            }),
    {
        let mut r = self;
        r.add_expr(ExpressionVariant::Immediate(Immediate::new_verdict(Verdict::Drop)));
        r
    }

    /// Rewrites the source address to the outgoing interface's address.
    pub fn masquerade(self) -> (r: Self)
        ensures
            r@ == (RuleView {
                exprs: self@.exprs.push(
                    ExpressionVariantView::Masquerade(
                        crate::expr::masquerade::MasqueradeView {},
                    ),
                ),
                ..self@
            }),
    {
        let mut r = self;
        r.add_expr(ExpressionVariant::Masquerade(Masquerade {}));
        r
    }

    /// Rewrites the destination address (and optionally the port) of matched
    /// packets.
    pub fn dnat(self, dst: IpAddress, port: Option<u16>) -> (r: Self)
        ensures
            r@.chain == self@.chain,
            r@.exprs.len() == self@.exprs.len() + (match port {
                Some(_) => 3int,
                None => 2int,
            }),
            r@.exprs.subrange(0, self@.exprs.len() as int) == self@.exprs,
            r@.exprs[r@.exprs.len() - 1] == ExpressionVariantView::Nat(
                NatView {
                    nat_type: Some(NatType::DNat),
                    family: Some(ProtocolFamily::Ipv4),
                    ip_register: Some(Register::Reg1),
                    port_register: match port {
                        Some(_) => Some(Register::Reg2),
                        None => None,
                    },
                },
            ),
    {
        let mut r = self;
        r.add_expr(
            ExpressionVariant::Immediate(Immediate::new_data(ip_to_vec(&dst), Register::Reg1)),
        );
        let port_register: Option<Register> = match port {
            Some(p) => {
                r.add_expr(
                    ExpressionVariant::Immediate(
                        Immediate::new_data(u16_be_bytes(p), Register::Reg2),
                    ),
                );
                Some(Register::Reg2)
            },
            None => None,
        };
        r.add_expr(
            ExpressionVariant::Nat(
                Nat {
                    nat_type: Some(NatType::DNat),
                    family: Some(ProtocolFamily::Ipv4),
                    ip_register: Some(Register::Reg1),
                    port_register,
                },
            ),
        );
        proof {
            assert(r@.exprs.subrange(0, self@.exprs.len() as int) =~= self@.exprs);
        }
        r
    }

    /// Rewrites the TCP maximum segment size of matched packets to `mss`.
    pub fn set_mss(self, mss: u16) -> (r: Self)
        ensures
            r@.chain == self@.chain,
            r@.exprs.len() == self@.exprs.len() + 2,
            r@.exprs.subrange(0, self@.exprs.len() as int) == self@.exprs,
            r@.exprs[r@.exprs.len() - 1] == ExpressionVariantView::ExtHdr(
                ExtHdrView {
                    dreg: None,
                    typ: Some(2u8),
                    offset: Some(2u32),
                    len: Some(2u32),
                    flags: None,
                    op: Some(ExtHdrOp::TCPOpt),
                    sreg: Some(Register::Reg1),
                },
            ),
    {
        let mut r = self;
        r.add_expr(
            ExpressionVariant::Immediate(Immediate::new_data(u16_be_bytes(mss), Register::Reg1)),
        );
        r.add_expr(
            ExpressionVariant::ExtHdr(
                ExtHdr::empty().with_sreg(Register::Reg1).with_typ(2u8).with_offset(
                    2u32,
                ).with_len(2u32).with_op(ExtHdrOp::TCPOpt),
            ),
        );
        proof {
            assert(r@.exprs.subrange(0, self@.exprs.len() as int) =~= self@.exprs);
        }
        r
    }

    /// Clamps the TCP maximum segment size to the path MTU the routing cache
    /// observed.
    pub fn clamp_mss_to_pmtu(self) -> (r: Self)
        ensures
            r@.chain == self@.chain,
            r@.exprs.len() == self@.exprs.len() + 3,
            r@.exprs.subrange(0, self@.exprs.len() as int) == self@.exprs,
            r@.exprs[self@.exprs.len() as int] == ExpressionVariantView::Rt(
                RtView { dreg: Some(Register::Reg1), key: Some(RtKey::TCPMSS) },
            ),
            r@.exprs[self@.exprs.len() as int + 1] == ExpressionVariantView::Byteorder(
                ByteorderView {
                    sreg: Some(Register::Reg1),
                    dreg: Some(Register::Reg1),
                    op: Some(ByteorderOp::HtoN),
                    len: Some(2u32),
                    siz: Some(2u32),
                },
            ),
    {
        let mut r = self;
        r.add_expr(
            ExpressionVariant::Rt(Rt::empty().with_dreg(Register::Reg1).with_key(RtKey::TCPMSS)),
        );
        r.add_expr(
            ExpressionVariant::Byteorder(
                Byteorder::empty().with_sreg(Register::Reg1).with_dreg(Register::Reg1).with_op(
                    ByteorderOp::HtoN,
                ).with_len(2u32).with_siz(2u32),
            ),
        );
        r.add_expr(
            ExpressionVariant::ExtHdr(
                ExtHdr::empty().with_sreg(Register::Reg1).with_typ(2u8).with_offset(
                    2u32,
                ).with_len(2u32).with_op(ExtHdrOp::TCPOpt),
            ),
        );
        proof {
            assert(r@.exprs.subrange(0, self@.exprs.len() as int) =~= self@.exprs);
        }
        r
    }

    /// Matches TCP packets whose flags include SYN.
    pub fn syn(self) -> (r: Result<Self, BuilderError>)
        ensures
            match r {
                Ok(rule) => {
                    &&& rule@.chain == self@.chain
                    &&& rule@.exprs.len() == self@.exprs.len() + 3
                    &&& rule@.exprs.subrange(0, self@.exprs.len() as int) == self@.exprs
                    &&& rule@.exprs[self@.exprs.len() as int] == ExpressionVariantView::Payload(
                        PayloadView {
                            dreg: Some(Register::Reg1),
                            base: Some(NFT_PAYLOAD_TRANSPORT_HEADER),
                            offset: Some(13u32),
                            len: Some(1u32),
                            sreg: None,
                        },
                    )
                },
                Err(_) => false,
            },
    {
        let mut r = self;
        r.add_expr(
            ExpressionVariant::Payload(
                Payload::empty().with_base(NFT_PAYLOAD_TRANSPORT_HEADER).with_offset(
                    13u32,
                ).with_len(1u32).with_dreg(Register::Reg1),
            ),
        );
        let mut mask: Vec<u8> = Vec::new();
        mask.push(2u8);
        let mut zeros: Vec<u8> = Vec::new();
        zeros.push(0u8);
        let bw = match Bitwise::new(mask, zeros) {
            Ok(b) => b,
            Err(e) => {
                return Err(e);
            },
        };
        r.add_expr(ExpressionVariant::Bitwise(bw));
        let mut z: Vec<u8> = Vec::new();
        z.push(0u8);
        r.add_expr(ExpressionVariant::Cmp(Cmp::new(CmpOp::Neq, z)));
        proof {
            assert(r@.exprs.subrange(0, self@.exprs.len() as int) =~= self@.exprs);
        }
        Ok(r)
    }
}

} // verus!
