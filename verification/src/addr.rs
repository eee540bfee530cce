//! Socket addresses as plain integers.
//!
//! An IPv4 address is its 32 bits in network order, an IPv6 address its 128
//! bits in network order, so `10.0.0.1` is `0x0a00_0001` and `::1` is `1`.

use vstd::prelude::*;

verus! {

/// The 128-bit value of `::ffff:0.0.0.0`, the lowest IPv4-mapped address.
pub const MAPPED_PREFIX: u128 = 0xffff_0000_0000u128;

/// The 128-bit value of `::ffff:255.255.255.255`, the highest IPv4-mapped address.
pub const MAPPED_LAST: u128 = 0xffff_ffff_ffffu128;

/// What an association table is keyed by: family tag (4 or 6), address bits,
/// port, flow information and scope identifier.
pub type AddrKey = (u8, u128, u16, u32, u32);

/// The address of one end of a flow.
#[derive(Clone, Copy, Debug, PartialEq, Eq, Structural)]
#[allow(inconsistent_fields)]
pub enum SocketAddress {
    V4 { ip: u32, port: u16 },
    V6 { ip: u128, port: u16, flowinfo: u32, scope_id: u32 },
}

/// The 32 bits of the IPv4 address `a.b.c.d`.
pub open spec fn spec_ipv4_bits(a: u8, b: u8, c: u8, d: u8) -> int {
    a as int * 0x100_0000 + b as int * 0x1_0000 + c as int * 0x100 + d as int
}

/// The 128 bits of the IPv6 address `::ffff:a.b.c.d`.
pub open spec fn spec_ipv4_mapped_bits(a: u8, b: u8, c: u8, d: u8) -> int {
    MAPPED_PREFIX as int + spec_ipv4_bits(a, b, c, d)
}

/// The IPv4 address embedded in `ip6`, if `ip6` is of the form `::ffff:a.b.c.d`.
pub open spec fn spec_to_ipv4_mapped(ip6: u128) -> Option<u32> {
    if MAPPED_PREFIX <= ip6 <= MAPPED_LAST {
        Some((ip6 - MAPPED_PREFIX) as u32)
    } else {
        None
    }
}

/// The bits of `a.b.c.d`.
pub fn ipv4_bits(a: u8, b: u8, c: u8, d: u8) -> (bits: u32)
    ensures
        bits == spec_ipv4_bits(a, b, c, d),
{
    let high: u32 = a as u32 * 0x100_0000u32 + b as u32 * 0x1_0000u32;
    let low: u32 = c as u32 * 0x100u32 + d as u32;
    high + low
}

/// The bits of `::ffff:a.b.c.d`.
pub fn ipv4_mapped_bits(a: u8, b: u8, c: u8, d: u8) -> (bits: u128)
    ensures
        bits == spec_ipv4_mapped_bits(a, b, c, d),
{
    MAPPED_PREFIX + ipv4_bits(a, b, c, d) as u128
}

/// Extracts the IPv4 address from an IPv4-mapped IPv6 address.
pub fn to_ipv4_mapped(ip6: u128) -> (v4: Option<u32>)
    ensures
        v4 == spec_to_ipv4_mapped(ip6),
{
    if MAPPED_PREFIX <= ip6 && ip6 <= MAPPED_LAST {
        Some((ip6 - MAPPED_PREFIX) as u32)
    } else {
        None
    }
}

impl SocketAddress {
    /// The port of the address.
    pub open spec fn spec_port(&self) -> u16 {
        match *self {
            SocketAddress::V4 { port, .. } => port,
            SocketAddress::V6 { port, .. } => port,
        }
    }

    /// The address a tunnel connects to for destination `self`: an
    /// IPv4-mapped IPv6 destination is replaced by its IPv4 address with the
    /// same port; every other destination stands as it is.
    pub open spec fn spec_unmapped(self) -> SocketAddress {
        match self {
            SocketAddress::V4 { .. } => self,
            SocketAddress::V6 { ip, port, .. } => match spec_to_ipv4_mapped(ip) {
                Some(v4) => SocketAddress::V4 { ip: v4, port },
                None => self,
            },
        }
    }

    /// The table key of the address.
    pub open spec fn spec_key(self) -> AddrKey {
        match self {
            SocketAddress::V4 { ip, port } => (4u8, ip as u128, port, 0u32, 0u32),
            SocketAddress::V6 { ip, port, flowinfo, scope_id } => (6u8, ip, port, flowinfo, scope_id),
        }
    }

    /// The address that a table key stands for; keys that no address has
    /// stand for nothing.
    pub open spec fn spec_from_key(key: AddrKey) -> Option<SocketAddress> {
        if key.0 == 4 && key.1 <= u32::MAX && key.3 == 0 && key.4 == 0 {
            Some(SocketAddress::V4 { ip: key.1 as u32, port: key.2 })
        } else if key.0 == 6 {
            Some(SocketAddress::V6 { ip: key.1, port: key.2, flowinfo: key.3, scope_id: key.4 })
        } else {
            None
        }
    }

    #[verifier::when_used_as_spec(spec_port)]
    pub fn port(&self) -> (port: u16)
        ensures
            port == self.spec_port(),
    {
        match self {
            SocketAddress::V4 { port, .. } => *port,
            SocketAddress::V6 { port, .. } => *port,
        }
    }

    /// Resolves the effective destination of a flow.
    pub fn unmapped(self) -> (target: SocketAddress)
        ensures
            target == self.spec_unmapped(),
    {
        match self {
            SocketAddress::V4 { .. } => self,
            SocketAddress::V6 { ip, port, .. } => match to_ipv4_mapped(ip) {
                Some(v4) => SocketAddress::V4 { ip: v4, port },
                None => self,
            },
        }
    }

    pub fn key(&self) -> (key: AddrKey)
        ensures
            key == self.spec_key(),
    {
        match self {
            SocketAddress::V4 { ip, port } => (4u8, *ip as u128, *port, 0u32, 0u32),
            SocketAddress::V6 { ip, port, flowinfo, scope_id } => (
                6u8,
                *ip,
                *port,
                *flowinfo,
                *scope_id,
            ),
        }
    }

    pub fn from_key(key: AddrKey) -> (addr: Option<SocketAddress>)
        ensures
            addr == Self::spec_from_key(key),
    {
        if key.0 == 4 && key.1 <= 0xffff_ffffu128 && key.3 == 0 && key.4 == 0 {
            Some(SocketAddress::V4 { ip: key.1 as u32, port: key.2 })
        } else if key.0 == 6 {
            Some(SocketAddress::V6 { ip: key.1, port: key.2, flowinfo: key.3, scope_id: key.4 })
        } else {
            None
        }
    }
}

/// The addresses that the keys stand for, in the order of the keys.  A key
/// that stands for no address contributes nothing.
pub open spec fn spec_addresses_of(keys: Seq<AddrKey>) -> Seq<SocketAddress>
    decreases keys.len(),
{
    if keys.len() == 0 {
        Seq::empty()
    } else {
        let front = spec_addresses_of(keys.drop_last());
        match SocketAddress::spec_from_key(keys.last()) {
            Some(addr) => front.push(addr),
            None => front,
        }
    }
}

/// Turns table keys back into the addresses that they stand for.
pub fn addresses_of(keys: &Vec<AddrKey>) -> (addresses: Vec<SocketAddress>)
    ensures
        addresses@ == spec_addresses_of(keys@),
{
    let mut addresses: Vec<SocketAddress> = Vec::new();
    let mut i: usize = 0;
    while i < keys.len()
        invariant
            i <= keys.len(),
            addresses@ == spec_addresses_of(keys@.take(i as int)),
        decreases keys.len() - i,
    {
        proof {
            assert(keys@.take(i + 1).drop_last() =~= keys@.take(i as int));
            assert(keys@.take(i + 1).last() == keys@[i as int]);
        }
        match SocketAddress::from_key(keys[i]) {
            Some(addr) => {
                addresses.push(addr);
            },
            None => {},
        }
        i = i + 1;
    }
    proof {
        assert(keys@.take(keys.len() as int) =~= keys@);
    }
    addresses
}

/// Keys that all stand for addresses give one address each, in order, and
/// each address has the key that it came from.
pub proof fn lemma_addresses_of_address_keys(keys: Seq<AddrKey>)
    requires
        forall|i: int| 0 <= i < keys.len() ==> SocketAddress::spec_from_key(#[trigger] keys[i]).is_some(),
    ensures
        spec_addresses_of(keys).len() == keys.len(),
        forall|i: int|
            0 <= i < keys.len() ==> SocketAddress::spec_from_key(keys[i]) == Some(
                #[trigger] spec_addresses_of(keys)[i],
            ) && spec_addresses_of(keys)[i].spec_key() == keys[i],
    decreases keys.len(),
{
    if keys.len() > 0 {
        let front = keys.drop_last();
        assert forall|i: int| 0 <= i < front.len() implies SocketAddress::spec_from_key(
            #[trigger] front[i],
        ).is_some() by {
            assert(front[i] == keys[i]);
        }
        lemma_addresses_of_address_keys(front);
        lemma_address_determines_key(keys.last());
        assert forall|i: int| 0 <= i < keys.len() implies SocketAddress::spec_from_key(keys[i])
            == Some(#[trigger] spec_addresses_of(keys)[i]) && spec_addresses_of(keys)[i].spec_key()
            == keys[i] by {
            if i < front.len() {
                assert(front[i] == keys[i]);
                assert(spec_addresses_of(keys)[i] == spec_addresses_of(front)[i]);
            }
        }
    }
}

/// Every destination `::ffff:a.b.c.d` with port `p` resolves to `a.b.c.d`
/// with port `p`, whatever its flow information and scope.
pub proof fn lemma_mapped_destination_resolves_to_ipv4(
    a: u8,
    b: u8,
    c: u8,
    d: u8,
    port: u16,
    flowinfo: u32,
    scope_id: u32,
)
    ensures
        0 <= spec_ipv4_bits(a, b, c, d) <= u32::MAX,
        0 <= spec_ipv4_mapped_bits(a, b, c, d) <= u128::MAX,
        (SocketAddress::V6 {
            ip: spec_ipv4_mapped_bits(a, b, c, d) as u128,
            port,
            flowinfo,
            scope_id,
        }).spec_unmapped() == (SocketAddress::V4 { ip: spec_ipv4_bits(a, b, c, d) as u32, port }),
{
}

/// Resolving a destination never changes its port, and resolving twice is
/// the same as resolving once.
pub proof fn lemma_unmapped_keeps_port(addr: SocketAddress)
    ensures
        addr.spec_unmapped().spec_port() == addr.spec_port(),
        addr.spec_unmapped().spec_unmapped() == addr.spec_unmapped(),
        addr.spec_unmapped() is V6 ==> addr.spec_unmapped() == addr,
{
}

/// A table key determines its address.
pub proof fn lemma_key_determines_address(addr: SocketAddress)
    ensures
        SocketAddress::spec_from_key(addr.spec_key()) == Some(addr),
{
}

/// A key that stands for an address is the key of that address.
pub proof fn lemma_address_determines_key(key: AddrKey)
    ensures
        SocketAddress::spec_from_key(key) matches Some(addr) ==> addr.spec_key() == key,
{
}

/// Distinct addresses have distinct table keys.
pub proof fn lemma_key_is_injective(a: SocketAddress, b: SocketAddress)
    requires
        a.spec_key() == b.spec_key(),
    ensures
        a == b,
{
    lemma_key_determines_address(a);
    lemma_key_determines_address(b);
}

} // verus!
