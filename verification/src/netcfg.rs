//! Static network identity.
//!
//! The address, prefix and gateway are fixed at build time; nothing is
//! negotiated at runtime. The stack's one 64-bit seed is read once from the
//! entropy source, as eight little-endian bytes.

use vstd::prelude::*;

verus! {

/// A dotted-quad IPv4 address.
#[derive(Clone, Copy, Debug, PartialEq, Eq, Structural)]
pub struct Ipv4Address {
    /// First octet.
    pub o1: u8,
    /// Second octet.
    pub o2: u8,
    /// Third octet.
    pub o3: u8,
    /// Fourth octet.
    pub o4: u8,
}

/// The address with the given octets, in dotted-quad order.
pub open spec fn spec_ip(o1: u8, o2: u8, o3: u8, o4: u8) -> Ipv4Address {
    Ipv4Address { o1, o2, o3, o4 }
}

/// The static IPv4 configuration the stack runs with for the whole process
/// lifetime.
#[derive(Clone, Copy, Debug, PartialEq, Eq)]
pub struct NetConfig {
    /// The interface's own address.
    pub address: Ipv4Address,
    /// Subnet prefix length, at most 32.
    pub prefix_len: u8,
    /// The default gateway, when one is configured.
    pub gateway: Option<Ipv4Address>,
}

impl NetConfig {
    /// A subnet prefix cannot exceed the address width.
    pub open spec fn wf(self) -> bool {
        self.prefix_len <= 32
    }
}

/// The board's static network identity: 192.168.177.222/24 with gateway
/// 192.168.177.1 and no name servers.
pub fn board_net_config() -> (c: NetConfig)
    ensures
        c.wf(),
        c.address == spec_ip(192, 168, 177, 222),
        c.prefix_len == 24,
        c.gateway == Some(spec_ip(192, 168, 177, 1)),
{
    NetConfig {
        address: Ipv4Address { o1: 192, o2: 168, o3: 177, o4: 222 },
        prefix_len: 24,
        gateway: Some(Ipv4Address { o1: 192, o2: 168, o3: 177, o4: 1 }),
    }
}

/// The board's fixed MAC address.
pub open spec fn board_mac_bytes() -> Seq<u8> {
    seq![0x00u8, 0x00u8, 0xDEu8, 0xADu8, 0xBEu8, 0xEFu8]
}

/// The board's fixed MAC address, as the device setup needs it.
pub fn board_mac() -> (m: Vec<u8>)
    ensures
        m@ == board_mac_bytes(),
{
    let mut m: Vec<u8> = Vec::new();
    m.push(0x00);
    m.push(0x00);
    m.push(0xDE);
    m.push(0xAD);
    m.push(0xBE);
    m.push(0xEF);
    assert(m@ =~= board_mac_bytes());
    m
}

/// The value of a little-endian byte sequence: the first byte is the least
/// significant.
pub open spec fn le_value(s: Seq<u8>) -> nat
    decreases s.len(),
{
    if s.len() == 0 {
        0
    } else {
        s[0] as nat + 256 * le_value(s.drop_first())
    }
}

/// 256 to the power `n`.
pub open spec fn pow256(n: nat) -> nat
    decreases n,
{
    if n == 0 {
        1
    } else {
        256 * pow256((n - 1) as nat)
    }
}

/// A little-endian value fits in as many bytes as it was read from.
proof fn lemma_le_value_bound(s: Seq<u8>)
    ensures
        le_value(s) < pow256(s.len()),
    decreases s.len(),
{
    if s.len() > 0 {
        lemma_le_value_bound(s.drop_first());
    }
}

/// Reads the one 64-bit stack seed from eight little-endian bytes, as the
/// entropy source hands them out.
pub fn seed_from_le_bytes(bytes: &[u8]) -> (r: u64)
    requires
        bytes@.len() == 8,
    ensures
        r as nat == le_value(bytes@),
{
    proof {
        reveal_with_fuel(pow256, 9);
        assert(pow256(8) == 0x1_0000_0000_0000_0000);
    }
    let mut v: u64 = 0;
    let mut i: usize = 8;
    while i > 0
        invariant
            bytes@.len() == 8,
            i <= 8,
            v as nat == le_value(bytes@.skip(i as int)),
            pow256(8) == 0x1_0000_0000_0000_0000,
        decreases i,
    {
        proof {
            lemma_le_value_bound(bytes@.skip(i as int));
            lemma_pow256_mono((8 - i) as nat, 7);
            assert(bytes@.skip(i - 1).drop_first() =~= bytes@.skip(i as int));
            assert(bytes@.skip(i - 1)[0] == bytes@[i - 1]);
        }
        i = i - 1;
        v = v * 256 + bytes[i] as u64;
    }
    assert(bytes@.skip(0) =~= bytes@);
    v
}

/// Larger byte counts hold no smaller a range.
proof fn lemma_pow256_mono(a: nat, b: nat)
    requires
        a <= b,
    ensures
        pow256(a) <= pow256(b),
    decreases b,
{
    if a < b {
        lemma_pow256_mono(a, (b - 1) as nat);
        assert(pow256(b) == 256 * pow256((b - 1) as nat));
        assert(pow256((b - 1) as nat) <= 256 * pow256((b - 1) as nat)) by {
            assert(pow256((b - 1) as nat) >= 1) by {
                lemma_pow256_pos((b - 1) as nat);
            }
        }
    }
}

/// Powers of 256 are positive.
proof fn lemma_pow256_pos(n: nat)
    ensures
        pow256(n) >= 1,
    decreases n,
{
    if n > 0 {
        lemma_pow256_pos((n - 1) as nat);
    }
}

} // verus!
