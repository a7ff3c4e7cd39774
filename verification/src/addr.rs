use vstd::prelude::*;

verus! {

/// A portable host address: either four IPv4 octets in dotted-decimal order
/// or sixteen raw IPv6 bytes. Values are only ever produced by the two query
/// paths and never mutated afterwards.
#[derive(Debug, Clone, Copy, PartialEq, Eq)]
pub enum IpAddress {
    V4([u8; 4]),
    V6([u8; 16]),
}

/// The raw bytes of an address.
pub open spec fn addr_bytes(a: IpAddress) -> Seq<u8> {
    match a {
        IpAddress::V4(b) => b@,
        IpAddress::V6(b) => b@,
    }
}

/// Every address is exactly four or sixteen bytes long.
pub proof fn lemma_addr_size(a: IpAddress)
    ensures
        addr_bytes(a).len() == 4 || addr_bytes(a).len() == 16,
{
}

/// The value with the bytes of `x` in reverse order.
pub open spec fn byte_swapped(x: u32) -> u32 {
    ((x & 0xFF) << 24) | (((x >> 8) & 0xFF) << 16) | (((x >> 16) & 0xFF) << 8) | ((x >> 24) & 0xFF)
}

/// The kernel hands an IPv4 address as a 32-bit word whose in-memory bytes are
/// in network order. A little-endian host reads that word with its bytes
/// reversed, so the word must be swapped there; a big-endian host reads it as
/// is and must not swap.
pub open spec fn corrected_raw(raw: u32, little_endian: bool) -> u32 {
    if little_endian {
        byte_swapped(raw)
    } else {
        raw
    }
}

/// The big-endian octets of a 32-bit value, most significant first.
pub open spec fn octets_be(x: u32) -> [u8; 4] {
    [(x >> 24) as u8, (x >> 16) as u8, (x >> 8) as u8, x as u8]
}

/// The address denoted by a raw interface-list word on a host of the given
/// byte order.
pub open spec fn ipv4_of_raw(raw: u32, little_endian: bool) -> IpAddress {
    IpAddress::V4(octets_be(corrected_raw(raw, little_endian)))
}

/// Turns the raw 32-bit address word of an IPv4 record into an address,
/// swapping bytes exactly when the host is little-endian.
pub fn ipv4_from_raw(raw: u32, little_endian: bool) -> (a: IpAddress)
    ensures
        a == ipv4_of_raw(raw, little_endian),
{
    let v: u32 = if little_endian {
        ((raw & 0xFF) << 24) | (((raw >> 8) & 0xFF) << 16) | (((raw >> 16) & 0xFF) << 8)
            | ((raw >> 24) & 0xFF)
    } else {
        raw
    };
    let octets: [u8; 4] = [(v >> 24) as u8, (v >> 16) as u8, (v >> 8) as u8, v as u8];
    proof {
        assert(octets =~= octets_be(corrected_raw(raw, little_endian)));
    }
    IpAddress::V4(octets)
}

/// The word a host of the given byte order reads from the four in-memory
/// bytes `b0 b1 b2 b3`.
pub open spec fn native_raw(b0: u8, b1: u8, b2: u8, b3: u8, little_endian: bool) -> u32 {
    if little_endian {
        ((b3 as u32) << 24) | ((b2 as u32) << 16) | ((b1 as u32) << 8) | (b0 as u32)
    } else {
        ((b0 as u32) << 24) | ((b1 as u32) << 16) | ((b2 as u32) << 8) | (b3 as u32)
    }
}

/// The byte-order correction undoes the host's reading of the wire bytes: an
/// address stored in memory as the network-order bytes `b0 b1 b2 b3` decodes
/// to exactly those octets on little- and big-endian hosts alike.
pub proof fn lemma_byte_order_involution(b0: u8, b1: u8, b2: u8, b3: u8, little_endian: bool)
    ensures
        ipv4_of_raw(native_raw(b0, b1, b2, b3, little_endian), little_endian) == IpAddress::V4(
            [b0, b1, b2, b3],
        ),
{
    let v = corrected_raw(native_raw(b0, b1, b2, b3, little_endian), little_endian);
    assert((v >> 24) as u8 == b0 && (v >> 16) as u8 == b1 && (v >> 8) as u8 == b2 && v as u8 == b3)
        by (bit_vector)
        requires
            v == corrected_raw(native_raw(b0, b1, b2, b3, little_endian), little_endian),
    ;
    assert(octets_be(v) =~= [b0, b1, b2, b3]);
}

} // verus!
