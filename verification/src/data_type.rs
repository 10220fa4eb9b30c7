//! Plain-value address types: IP addresses as their octets, and networks as
//! an address plus a prefix length, with the mask and network computations
//! the masked-match builders rest on.

use vstd::prelude::*;

verus! {

/// An IP address, as its octets in network order.
#[derive(Debug, Clone, Copy, PartialEq, Eq)]
pub enum IpAddress {
    V4([u8; 4]),
    V6([u8; 16]),
}

impl IpAddress {
    /// The address octets.
    pub open spec fn spec_bytes(self) -> Seq<u8> {
        match self {
            IpAddress::V4(a) => a@,
            IpAddress::V6(a) => a@,
        }
    }

    /// The number of address octets.
    pub open spec fn spec_len(self) -> int {
        match self {
            IpAddress::V4(_) => 4,
            IpAddress::V6(_) => 16,
        }
    }

    pub open spec fn spec_is_v4(self) -> bool {
        self is V4
    }

    pub fn is_v4(&self) -> (r: bool)
        ensures
            r == self.spec_is_v4(),
    {
        match self {
            IpAddress::V4(_) => true,
            IpAddress::V6(_) => false,
        }
    }
}

/// The address as a byte vector.
pub fn ip_to_vec(ip: &IpAddress) -> (r: Vec<u8>)
    ensures
        r@ == ip.spec_bytes(),
{
    match ip {
        IpAddress::V4(a) => vstd::slice::slice_to_vec(a.as_slice()),
        IpAddress::V6(a) => vstd::slice::slice_to_vec(a.as_slice()),
    }
}

/// One byte of the prefix mask: ones down from the top until `prefix` bits
/// are set over the whole mask.
pub open spec fn spec_mask_byte(prefix: int, j: int) -> u8 {
    if prefix >= 8 * (j + 1) {
        0xff
    } else if prefix <= 8 * j {
        0
    } else {
        (0xff & (0xffu8 << ((8 * (j + 1) - prefix) as u8))) as u8
    }
}

/// The prefix mask over `n` bytes.
pub open spec fn spec_mask_bytes(prefix: int, n: int) -> Seq<u8> {
    Seq::new(n as nat, |j: int| spec_mask_byte(prefix, j))
}

/// The network address bytes of a network: its address masked down to the
/// prefix.
pub open spec fn spec_network_bytes(n: IpNetwork) -> Seq<u8> {
    Seq::new(
        n.spec_addr().spec_len() as nat,
        |j: int| (n.spec_addr().spec_bytes()[j] & spec_mask_byte(n.spec_prefix() as int, j)) as u8,
    )
}

/// An IP network: an address and a prefix length. Matching a packet against
/// it masks the address register down to the prefix and compares it with the
/// network address.
#[derive(Debug, Clone, Copy, PartialEq, Eq)]
pub struct IpNetwork {
    addr: IpAddress,
    prefix: u8,
}

impl IpNetwork {
    pub closed spec fn spec_addr(self) -> IpAddress {
        self.addr
    }

    pub closed spec fn spec_prefix(self) -> u8 {
        self.prefix
    }

    pub open spec fn wf(self) -> bool {
        self.spec_prefix() as int <= 8 * self.spec_addr().spec_len()
    }

    /// A network from an address and a prefix length; the prefix must fit
    /// the address width.
    pub fn new(addr: IpAddress, prefix: u8) -> (r: Option<IpNetwork>)
        ensures
            match r {
                Some(n) => n.spec_addr() == addr && n.spec_prefix() == prefix && n.wf(),
                None => 8 * addr.spec_len() < prefix as int,
            },
    {
        let bits: u16 = match addr {
            IpAddress::V4(_) => 32,
            IpAddress::V6(_) => 128,
        };
        if (prefix as u16) > bits {
            return None;
        }
        Some(IpNetwork { addr, prefix })
    }

    pub fn get_prefix(&self) -> (r: u8)
        ensures
            r == self.spec_prefix(),
    {
        self.prefix
    }

    pub fn get_addr(&self) -> (r: IpAddress)
        ensures
            r == self.spec_addr(),
    {
        self.addr
    }

    pub fn is_v4(&self) -> (r: bool)
        ensures
            r == self.spec_addr().spec_is_v4(),
    {
        self.addr.is_v4()
    }

    /// The prefix mask: the top `prefix` bits set, the rest clear.
    pub fn mask(&self) -> (r: Vec<u8>)
        requires
            self.wf(),
        ensures
            r@ == spec_mask_bytes(self.spec_prefix() as int, self.spec_addr().spec_len()),
    {
        let n: usize = match self.addr {
            IpAddress::V4(_) => 4,
            IpAddress::V6(_) => 16,
        };
        let prefix = self.prefix as usize;
        let mut out: Vec<u8> = Vec::new();
        let mut j: usize = 0;
        while j < n
            invariant
                0 <= j <= n,
                n == self.spec_addr().spec_len(),
                prefix == self.spec_prefix() as int,
                prefix <= 8 * n,
                out@ =~= spec_mask_bytes(prefix as int, j as int),
            decreases n - j,
        {
            let b: u8 = if prefix >= 8 * (j + 1) {
                0xff
            } else if prefix <= 8 * j {
                0
            } else {
                let shift = (8 * (j + 1) - prefix) as u8;
                proof {
                    assert(1 <= shift < 8);
                }
                0xff & (0xffu8 << shift)
            };
            out.push(b);
            proof {
                assert(out@ =~= spec_mask_bytes(prefix as int, j as int + 1));
            }
            j = j + 1;
        }
        out
    }

    /// The network address: the address masked down to the prefix.
    pub fn network(&self) -> (r: Vec<u8>)
        requires
            self.wf(),
        ensures
            r@ == spec_network_bytes(*self),
    {
        let mask = self.mask();
        let addr = ip_to_vec(&self.addr);
        let n = addr.len();
        let mut out: Vec<u8> = Vec::new();
        let mut j: usize = 0;
        while j < n
            invariant
                0 <= j <= n,
                n == self.spec_addr().spec_len(),
                addr@ == self.spec_addr().spec_bytes(),
                mask@ == spec_mask_bytes(self.spec_prefix() as int, n as int),
                out@.len() == j,
                forall|k: int|
                    0 <= k < j ==> out@[k] == (self.spec_addr().spec_bytes()[k] & spec_mask_byte(
                        self.spec_prefix() as int,
                        k,
                    )),
            decreases n - j,
        {
            out.push(addr[j] & mask[j]);
            j = j + 1;
        }
        proof {
            assert(out@ =~= spec_network_bytes(*self));
        }
        out
    }
}

} // verus!
