//! The table of address ranges that are never routed on the public internet,
//! and the filter that keeps probe destinations out of them.

use crate::address::IpAddress;
use vstd::arithmetic::power2::{lemma2_to64, pow2};
use vstd::prelude::*;

verus! {

/// An address range in CIDR form: every address that agrees with `base` on
/// its first `prefix` bits.
#[derive(Clone, Copy, Debug, PartialEq, Eq)]
pub struct Subnet {
    pub base: IpAddress,
    pub prefix: u8,
}

/// How many of the bits of byte `index` lie within the first `prefix` bits of
/// an address.
pub open spec fn covered_bits(prefix: int, index: int) -> nat {
    if prefix <= 8 * index {
        0
    } else if prefix >= 8 * index + 8 {
        8
    } else {
        (prefix - 8 * index) as nat
    }
}

/// Whether two bytes agree on their `bits` most significant bits.
pub open spec fn same_leading_bits(a: u8, b: u8, bits: nat) -> bool
    recommends
        bits <= 8,
{
    a as nat / pow2((8 - bits) as nat) == b as nat / pow2((8 - bits) as nat)
}

impl Subnet {
    /// The prefix is no longer than an address of the base's family.
    pub open spec fn wf(self) -> bool {
        self.prefix <= 8 * self.base.bytes().len()
    }

    /// Membership: the address is of the subnet's family and agrees with the
    /// base on every bit that the prefix covers.
    pub open spec fn contains(self, addr: IpAddress) -> bool {
        &&& (self.base is V4) == (addr is V4)
        &&& forall|i: int|
            0 <= i < addr.bytes().len() ==> same_leading_bits(
                self.base.bytes()[i],
                #[trigger] addr.bytes()[i],
                covered_bits(self.prefix as int, i),
            )
    }
}

/// Asks `ipnetwork` whether the network made by `IpNetwork::new(base, prefix)`
/// contains the address (`IpNetwork::contains`).
///
/// Trusted: `ipnetwork` compares the two addresses under a mask whose first
/// `prefix` bits are set, and reports `false` when the families differ. For
/// IPv4 the mask is one 32-bit word, for IPv6 it is built byte by byte; both
/// come to the byte-wise statement of [`Subnet::contains`].
#[verifier::external_body]
fn network_contains(net: &Subnet, addr: &IpAddress) -> (r: bool)
    requires
        net.wf(),
    ensures
        r == net.contains(*addr),
{
    let base = match net.base {
        IpAddress::V4(octets) => octets.into(),
        IpAddress::V6(octets) => octets.into(),
    };
    let ip = match *addr {
        IpAddress::V4(octets) => octets.into(),
        IpAddress::V6(octets) => octets.into(),
    };
    ipnetwork::IpNetwork::new(base, net.prefix).map_or(false, |network| network.contains(ip))
}

/// The ranges that are private, link-local, reserved for documentation or
/// otherwise never forwarded.
pub open spec fn unroutable_subnets() -> Seq<Subnet> {
    seq![
        // IPv4 local networks
        (Subnet { base: IpAddress::V4([10u8, 0u8, 0u8, 0u8]), prefix: 8 }),
        (Subnet { base: IpAddress::V4([172u8, 16u8, 0u8, 0u8]), prefix: 12 }),
        (Subnet { base: IpAddress::V4([192u8, 168u8, 0u8, 0u8]), prefix: 16 }),
        // IPv4 non-forwardable networks
        (Subnet { base: IpAddress::V4([169u8, 254u8, 0u8, 0u8]), prefix: 16 }),
        (Subnet { base: IpAddress::V4([192u8, 0u8, 0u8, 0u8]), prefix: 8 }),
        // Documentation networks
        (Subnet { base: IpAddress::V4([192u8, 0u8, 2u8, 0u8]), prefix: 24 }),
        (Subnet { base: IpAddress::V4([198u8, 51u8, 100u8, 0u8]), prefix: 24 }),
        (Subnet { base: IpAddress::V4([203u8, 0u8, 113u8, 0u8]), prefix: 24 }),
        // IPv6 unique local and link-local networks
        (Subnet {
            base: IpAddress::V6(
                [0xfcu8, 0u8, 0u8, 0u8, 0u8, 0u8, 0u8, 0u8, 0u8, 0u8, 0u8, 0u8, 0u8, 0u8, 0u8, 0u8],
            ),
            prefix: 7,
        }),
        (Subnet {
            base: IpAddress::V6(
                [0xfeu8, 0x80u8, 0u8, 0u8, 0u8, 0u8, 0u8, 0u8, 0u8, 0u8, 0u8, 0u8, 0u8, 0u8, 0u8, 0u8],
            ),
            prefix: 10,
        }),
    ]
}

/// The table as a value.
pub fn unroutable_subnet_table() -> (table: Vec<Subnet>)
    ensures
        table@ == unroutable_subnets(),
        forall|i: int| 0 <= i < table.len() ==> (#[trigger] table[i]).wf(),
{
    let v6_unique_local: [u8; 16] = [0xfc, 0, 0, 0, 0, 0, 0, 0, 0, 0, 0, 0, 0, 0, 0, 0];
    let v6_link_local: [u8; 16] = [0xfe, 0x80, 0, 0, 0, 0, 0, 0, 0, 0, 0, 0, 0, 0, 0, 0];
    let mut table: Vec<Subnet> = Vec::new();
    table.push(Subnet { base: IpAddress::V4([10, 0, 0, 0]), prefix: 8 });
    table.push(Subnet { base: IpAddress::V4([172, 16, 0, 0]), prefix: 12 });
    table.push(Subnet { base: IpAddress::V4([192, 168, 0, 0]), prefix: 16 });
    table.push(Subnet { base: IpAddress::V4([169, 254, 0, 0]), prefix: 16 });
    table.push(Subnet { base: IpAddress::V4([192, 0, 0, 0]), prefix: 8 });
    table.push(Subnet { base: IpAddress::V4([192, 0, 2, 0]), prefix: 24 });
    table.push(Subnet { base: IpAddress::V4([198, 51, 100, 0]), prefix: 24 });
    table.push(Subnet { base: IpAddress::V4([203, 0, 113, 0]), prefix: 24 });
    table.push(Subnet { base: IpAddress::V6(v6_unique_local), prefix: 7 });
    table.push(Subnet { base: IpAddress::V6(v6_link_local), prefix: 10 });
    table
}

/// The leading unit of the address is zero: the first octet of an IPv4
/// address, the first 16-bit segment of an IPv6 address.
pub open spec fn leading_unit_is_zero(addr: IpAddress) -> bool {
    match addr {
        IpAddress::V4(octets) => octets[0] == 0,
        IpAddress::V6(octets) => octets[0] == 0 && octets[1] == 0,
    }
}

/// The address lies in one of the ranges of the table.
pub open spec fn in_unroutable_subnet(addr: IpAddress) -> bool {
    exists|i: int|
        0 <= i < unroutable_subnets().len() && (#[trigger] unroutable_subnets()[i]).contains(addr)
}

/// What makes an address a plausible public destination: its leading unit is
/// not zero and no range of the table holds it.
pub open spec fn is_public(addr: IpAddress) -> bool {
    !leading_unit_is_zero(addr) && !in_unroutable_subnet(addr)
}

/// Decides whether an address may serve as a probe destination.
pub fn is_public_ip(addr: IpAddress) -> (public: bool)
    ensures
        public == is_public(addr),
{
    match addr {
        IpAddress::V4(octets) => {
            // 0.x.x.x is not a publicly routable address
            if octets[0] == 0 {
                return false;
            }
        },
        IpAddress::V6(octets) => {
            if octets[0] == 0 && octets[1] == 0 {
                return false;
            }
        },
    }
    let table = unroutable_subnet_table();
    let mut i: usize = 0;
    while i < table.len()
        invariant
            i <= table.len(),
            table@ == unroutable_subnets(),
            forall|k: int| 0 <= k < table.len() ==> (#[trigger] table[k]).wf(),
            forall|k: int| 0 <= k < i ==> !(#[trigger] unroutable_subnets()[k]).contains(addr),
        decreases table.len() - i,
    {
        if network_contains(&table[i], &addr) {
            return false;
        }
        i += 1;
    }
    true
}


/// The IPv4 addresses that the filter turns away, read off their octets.
/// `192.0.0.0/8` swallows the two narrower ranges that begin with 192.
pub open spec fn v4_is_unroutable(octets: [u8; 4]) -> bool {
    ||| octets[0] == 0
    ||| octets[0] == 10
    ||| octets[0] == 172 && 16 <= octets[1] <= 31
    ||| octets[0] == 169 && octets[1] == 254
    ||| octets[0] == 192
    ||| octets[0] == 198 && octets[1] == 51 && octets[2] == 100
    ||| octets[0] == 203 && octets[1] == 0 && octets[2] == 113
}

/// The IPv6 addresses that the filter turns away, read off their first two
/// bytes: a zero first segment, `fc00::/7` and `fe80::/10`.
pub open spec fn v6_is_unroutable(octets: [u8; 16]) -> bool {
    ||| octets[0] == 0 && octets[1] == 0
    ||| octets[0] == 0xfc
    ||| octets[0] == 0xfd
    ||| octets[0] == 0xfe && 0x80 <= octets[1] <= 0xbf
}

/// Agreement on leading bits, with the power of two written out.
proof fn lemma_same_leading_bits(a: u8, b: u8, bits: nat)
    requires
        bits <= 8,
    ensures
        same_leading_bits(a, b, bits) <==> if bits == 0 {
            true
        } else if bits == 1 {
            a / 128 == b / 128
        } else if bits == 2 {
            a / 64 == b / 64
        } else if bits == 3 {
            a / 32 == b / 32
        } else if bits == 4 {
            a / 16 == b / 16
        } else if bits == 5 {
            a / 8 == b / 8
        } else if bits == 6 {
            a / 4 == b / 4
        } else if bits == 7 {
            a / 2 == b / 2
        } else {
            a == b
        },
{
    lemma2_to64();
    let span = pow2((8 - bits) as nat);
    if bits == 0 {
        assert(a as nat / 256 == 0 && b as nat / 256 == 0);
    } else if bits == 1 {
        assert(a as nat / span == a as nat / 128 && b as nat / span == b as nat / 128);
    } else if bits == 2 {
        assert(a as nat / span == a as nat / 64 && b as nat / span == b as nat / 64);
    } else if bits == 3 {
        assert(a as nat / span == a as nat / 32 && b as nat / span == b as nat / 32);
    } else if bits == 4 {
        assert(a as nat / span == a as nat / 16 && b as nat / span == b as nat / 16);
    } else if bits == 5 {
        assert(a as nat / span == a as nat / 8 && b as nat / span == b as nat / 8);
    } else if bits == 6 {
        assert(a as nat / span == a as nat / 4 && b as nat / span == b as nat / 4);
    } else if bits == 7 {
        assert(a as nat / span == a as nat / 2 && b as nat / span == b as nat / 2);
    } else {
        assert(a as nat / span == a as nat / 1 && b as nat / span == b as nat / 1);
    }
}

/// Membership of an IPv4 address in an IPv4 range, octet by octet; only the
/// first three octets matter for a prefix of at most 24 bits.
proof fn lemma_v4_membership(base: [u8; 4], prefix: u8, octets: [u8; 4])
    requires
        prefix <= 24,
    ensures
        (Subnet { base: IpAddress::V4(base), prefix }).contains(IpAddress::V4(octets)) <==> {
            &&& same_leading_bits(base[0], octets[0], covered_bits(prefix as int, 0))
            &&& same_leading_bits(base[1], octets[1], covered_bits(prefix as int, 1))
            &&& same_leading_bits(base[2], octets[2], covered_bits(prefix as int, 2))
        },
{
    let net = Subnet { base: IpAddress::V4(base), prefix };
    let addr = IpAddress::V4(octets);
    lemma_same_leading_bits(base[3], octets[3], 0);
    if net.contains(addr) {
        assert(same_leading_bits(base[0], addr.bytes()[0], covered_bits(prefix as int, 0)));
        assert(same_leading_bits(base[1], addr.bytes()[1], covered_bits(prefix as int, 1)));
        assert(same_leading_bits(base[2], addr.bytes()[2], covered_bits(prefix as int, 2)));
    }
}

/// Membership of an IPv6 address in an IPv6 range whose prefix ends within
/// the first two bytes.
proof fn lemma_v6_membership(base: [u8; 16], prefix: u8, octets: [u8; 16])
    requires
        prefix <= 16,
    ensures
        (Subnet { base: IpAddress::V6(base), prefix }).contains(IpAddress::V6(octets)) <==> {
            &&& same_leading_bits(base[0], octets[0], covered_bits(prefix as int, 0))
            &&& same_leading_bits(base[1], octets[1], covered_bits(prefix as int, 1))
        },
{
    let net = Subnet { base: IpAddress::V6(base), prefix };
    let addr = IpAddress::V6(octets);
    assert forall|i: int| 2 <= i < 16 implies same_leading_bits(
        base@[i],
        #[trigger] addr.bytes()[i],
        covered_bits(prefix as int, i),
    ) by {
        lemma_same_leading_bits(base@[i], octets@[i], 0);
    }
    if net.contains(addr) {
        assert(same_leading_bits(base[0], addr.bytes()[0], covered_bits(prefix as int, 0)));
        assert(same_leading_bits(base[1], addr.bytes()[1], covered_bits(prefix as int, 1)));
    }
}

/// The filter, spelled out on the bytes of the address: an address is public
/// exactly when it falls under none of the listed patterns.
pub proof fn lemma_public_by_octets(addr: IpAddress)
    ensures
        is_public(addr) <==> match addr {
            IpAddress::V4(octets) => !v4_is_unroutable(octets),
            IpAddress::V6(octets) => !v6_is_unroutable(octets),
        },
{
    let table = unroutable_subnets();
    match addr {
        IpAddress::V4(o) => {
            lemma_v4_membership([10u8, 0u8, 0u8, 0u8], 8, o);
            lemma_v4_membership([172u8, 16u8, 0u8, 0u8], 12, o);
            lemma_v4_membership([192u8, 168u8, 0u8, 0u8], 16, o);
            lemma_v4_membership([169u8, 254u8, 0u8, 0u8], 16, o);
            lemma_v4_membership([192u8, 0u8, 0u8, 0u8], 8, o);
            lemma_v4_membership([192u8, 0u8, 2u8, 0u8], 24, o);
            lemma_v4_membership([198u8, 51u8, 100u8, 0u8], 24, o);
            lemma_v4_membership([203u8, 0u8, 113u8, 0u8], 24, o);
            lemma_same_leading_bits(10, o[0], 8);
            lemma_same_leading_bits(172, o[0], 8);
            lemma_same_leading_bits(192, o[0], 8);
            lemma_same_leading_bits(169, o[0], 8);
            lemma_same_leading_bits(198, o[0], 8);
            lemma_same_leading_bits(203, o[0], 8);
            lemma_same_leading_bits(0, o[1], 0);
            lemma_same_leading_bits(16, o[1], 4);
            lemma_same_leading_bits(168, o[1], 8);
            lemma_same_leading_bits(254, o[1], 8);
            lemma_same_leading_bits(0, o[1], 8);
            lemma_same_leading_bits(51, o[1], 8);
            lemma_same_leading_bits(0, o[2], 0);
            lemma_same_leading_bits(2, o[2], 8);
            lemma_same_leading_bits(100, o[2], 8);
            lemma_same_leading_bits(113, o[2], 8);
            if in_unroutable_subnet(addr) {
                let i = choose|i: int| 0 <= i < table.len() && (#[trigger] table[i]).contains(addr);
                assert(v4_is_unroutable(o));
            }
            if v4_is_unroutable(o) && o[0] != 0 {
                if o[0] == 10 {
                    assert(table[0].contains(addr));
                } else if o[0] == 172 {
                    assert(table[1].contains(addr));
                } else if o[0] == 169 {
                    assert(table[3].contains(addr));
                } else if o[0] == 192 {
                    assert(table[4].contains(addr));
                } else if o[0] == 198 {
                    assert(table[6].contains(addr));
                } else {
                    assert(table[7].contains(addr));
                }
            }
        },
        IpAddress::V6(o) => {
            let unique_local: [u8; 16] =
                [0xfcu8, 0u8, 0u8, 0u8, 0u8, 0u8, 0u8, 0u8, 0u8, 0u8, 0u8, 0u8, 0u8, 0u8, 0u8, 0u8];
            let link_local: [u8; 16] =
                [0xfeu8, 0x80u8, 0u8, 0u8, 0u8, 0u8, 0u8, 0u8, 0u8, 0u8, 0u8, 0u8, 0u8, 0u8, 0u8, 0u8];
            lemma_v6_membership(unique_local, 7, o);
            lemma_v6_membership(link_local, 10, o);
            lemma_same_leading_bits(0xfc, o[0], 7);
            lemma_same_leading_bits(0xfe, o[0], 8);
            lemma_same_leading_bits(0, o[1], 0);
            lemma_same_leading_bits(0x80, o[1], 2);
            if in_unroutable_subnet(addr) {
                let i = choose|i: int| 0 <= i < table.len() && (#[trigger] table[i]).contains(addr);
                assert(v6_is_unroutable(o));
            }
            if v6_is_unroutable(o) && !(o[0] == 0 && o[1] == 0) {
                if o[0] == 0xfe {
                    assert(table[9].contains(addr));
                } else {
                    assert(table[8].contains(addr));
                }
            }
        },
    }
}

/// No address of a listed range passes the filter.
pub proof fn lemma_listed_ranges_are_rejected(addr: IpAddress, index: int)
    requires
        0 <= index < unroutable_subnets().len(),
        unroutable_subnets()[index].contains(addr),
    ensures
        !is_public(addr),
{
}

} // verus!
