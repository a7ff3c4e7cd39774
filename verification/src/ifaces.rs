use vstd::prelude::*;

use crate::addr::{ipv4_of_raw, IpAddress};
use crate::error::Error;

verus! {

/// The family-specific address payload of one interface record, decoded once
/// at the boundary: the raw 32-bit word of an IPv4 record as the host read
/// it, the sixteen raw bytes of an IPv6 record, or an unrecognized family.
#[derive(Debug, Clone, Copy, PartialEq, Eq)]
pub enum NodeAddress {
    V4(u32),
    V6([u8; 16]),
    Other,
}

/// One interface-address record, copied out of the OS-owned list: the bytes
/// of its null-terminated name (terminator excluded) and its address payload.
#[derive(Debug, Clone, PartialEq, Eq)]
pub struct IfaceNode {
    pub name: Vec<u8>,
    pub addr: NodeAddress,
}

/// What decoding a byte string as UTF-8 yields, if it is valid.
pub uninterp spec fn utf8_chars(bytes: Seq<u8>) -> Option<Seq<char>>;

/// Relies on `String::from_utf8`: it succeeds exactly when the bytes are
/// valid UTF-8, the resulting string is their decoding — determined by the
/// bytes alone — and it is empty exactly when the bytes are.
#[verifier::external_body]
fn utf8_to_string(bytes: &Vec<u8>) -> (r: Option<String>)
    ensures
        r matches Some(s) ==> utf8_chars(bytes@) == Some(s@) && (s@.len() == 0 <==> bytes@.len()
            == 0),
        r is None ==> utf8_chars(bytes@) is None,
{
    String::from_utf8(bytes.clone()).ok()
}

/// An exact copy of a byte string.
fn copy_bytes(v: &Vec<u8>) -> (r: Vec<u8>)
    ensures
        r@ == v@,
{
    let mut r: Vec<u8> = Vec::new();
    let n: usize = v.len();
    let mut i: usize = 0;
    while i < n
        invariant
            0 <= i <= n,
            n == v@.len(),
            r@ =~= v@.take(i as int),
        decreases n - i,
    {
        r.push(v[i]);
        i = i + 1;
    }
    proof {
        assert(v@.take(n as int) =~= v@);
    }
    r
}

/// Validates the copied-out bytes of an interface name as text, as the
/// enumeration's name helper does; failure carries the offending bytes.
pub fn get_ifa_name(bytes: &Vec<u8>) -> (r: Result<String, Error>)
    ensures
        r matches Ok(s) ==> utf8_chars(bytes@) == Some(s@) && (s@.len() == 0 <==> bytes@.len()
            == 0),
        r matches Err(e) ==> utf8_chars(bytes@) is None && (e matches Error::IntAddrNameParseError(
            b,
        ) && b@ == bytes@),
{
    match utf8_to_string(bytes) {
        Option::Some(s) => Ok(s),
        Option::None => Err(Error::IntAddrNameParseError(copy_bytes(bytes))),
    }
}

/// A record whose family the enumeration recognizes (IPv4 or IPv6).
pub open spec fn recognized(n: IfaceNode) -> bool {
    !(n.addr matches NodeAddress::Other)
}

/// A record whose name the enumeration can accept: either its family is
/// skipped anyway, or the name bytes are valid text.
pub open spec fn name_ok(n: IfaceNode) -> bool {
    recognized(n) ==> utf8_chars(n.name@) is Some
}

/// The entry one record contributes, if any: its decoded name paired with its
/// address, the IPv4 word byte-order-corrected for the given host order.
pub open spec fn node_entry(n: IfaceNode, little_endian: bool) -> Option<(Seq<char>, IpAddress)> {
    match n.addr {
        NodeAddress::V4(raw) => match utf8_chars(n.name@) {
            Option::Some(cs) => Some((cs, ipv4_of_raw(raw, little_endian))),
            Option::None => None,
        },
        NodeAddress::V6(b) => match utf8_chars(n.name@) {
            Option::Some(cs) => Some((cs, IpAddress::V6(b))),
            Option::None => None,
        },
        NodeAddress::Other => None,
    }
}

/// The entries of a record list, in list order.
pub open spec fn nodes_entries(nodes: Seq<IfaceNode>, little_endian: bool) -> Seq<
    (Seq<char>, IpAddress),
>
    decreases nodes.len(),
{
    if nodes.len() == 0 {
        Seq::empty()
    } else {
        nodes_entries(nodes.drop_last(), little_endian) + match node_entry(
            nodes.last(),
            little_endian,
        ) {
            Option::Some(e) => seq![e],
            Option::None => Seq::empty(),
        }
    }
}

/// Whether some recognized record carries a name that is not valid text.
pub open spec fn some_name_fault(nodes: Seq<IfaceNode>) -> bool {
    exists|i: int| 0 <= i < nodes.len() && !name_ok(#[trigger] nodes[i])
}

/// The name bytes of the first record that fails name validation.
pub open spec fn first_bad_name(nodes: Seq<IfaceNode>) -> Seq<u8>
    decreases nodes.len(),
{
    if nodes.len() == 0 {
        Seq::empty()
    } else if !name_ok(nodes[0]) {
        nodes[0].name@
    } else {
        first_bad_name(nodes.drop_first())
    }
}

/// The result the enumeration owes for a given record list: every recognized
/// record's `(name, address)` pair in list order, or the name bytes on which
/// validation first failed.
pub open spec fn spec_find_af_inet(nodes: Seq<IfaceNode>, little_endian: bool) -> Result<
    Seq<(Seq<char>, IpAddress)>,
    Seq<u8>,
> {
    if some_name_fault(nodes) {
        Err(first_bad_name(nodes))
    } else {
        Ok(nodes_entries(nodes, little_endian))
    }
}

/// The observable content of an entry list: each name as its characters.
pub open spec fn pairs_view(v: Seq<(String, IpAddress)>) -> Seq<(Seq<char>, IpAddress)> {
    Seq::new(v.len(), |i: int| (v[i].0@, v[i].1))
}

/// If validation fails first at position `i`, the faulting name is that
/// record's.
proof fn lemma_first_bad_name_at(nodes: Seq<IfaceNode>, i: int)
    requires
        0 <= i < nodes.len(),
        forall|k: int| 0 <= k < i ==> name_ok(#[trigger] nodes[k]),
        !name_ok(nodes[i]),
    ensures
        first_bad_name(nodes) == nodes[i].name@,
    decreases i,
{
    if i > 0 {
        lemma_first_bad_name_at(nodes.drop_first(), i - 1);
    }
}

/// Walks a copied-out record list in order: for each record recognized as
/// IPv4 or IPv6, validates its name and accumulates the `(name, address)`
/// pair, correcting IPv4 byte order for the given host order; skips every
/// other family; the first invalid name aborts the whole enumeration. On
/// success, if every recognized record's name is non-empty, so is every
/// returned name.
#[verifier::loop_isolation(false)]
pub fn find_af_inet(nodes: &Vec<IfaceNode>, little_endian: bool) -> (r: Result<
    Vec<(String, IpAddress)>,
    Error,
>)
    ensures
        match r {
            Ok(v) => spec_find_af_inet(nodes@, little_endian) == Ok::<_, Seq<u8>>(pairs_view(v@))
                && ((forall|j: int|
                0 <= j < nodes@.len() && recognized(#[trigger] nodes@[j]) ==> nodes@[j].name@.len()
                    > 0) ==> (forall|k: int| 0 <= k < v@.len() ==> #[trigger] v@[k].0@.len() > 0)),
            Err(e) => e matches Error::IntAddrNameParseError(b) && spec_find_af_inet(
                nodes@,
                little_endian,
            ) == Err::<Seq<(Seq<char>, IpAddress)>, _>(b@),
        },
{
    let ghost all = nodes@;
    let mut out: Vec<(String, IpAddress)> = Vec::new();
    let n: usize = nodes.len();
    let mut i: usize = 0;
    while i < n
        invariant
            0 <= i <= n,
            forall|k: int| 0 <= k < i ==> name_ok(#[trigger] all[k]),
            out@.len() == nodes_entries(all.take(i as int), little_endian).len(),
            forall|k: int|
                0 <= k < out@.len() ==> (#[trigger] out@[k].0@, out@[k].1) == nodes_entries(
                    all.take(i as int),
                    little_endian,
                )[k],
            forall|k: int|
                0 <= k < out@.len() ==> (#[trigger] out@[k].0@.len() > 0 || exists|j: int|
                    0 <= j < i && recognized(#[trigger] all[j]) && all[j].name@.len() == 0),
        decreases n - i,
    {
        let ghost prefix = all.take(i as int);
        let ghost next_prefix = all.take(i as int + 1);
        proof {
            assert(next_prefix.drop_last() =~= prefix);
            assert(next_prefix.last() == all[i as int]);
        }
        match &nodes[i].addr {
            NodeAddress::V4(raw) => {
                match get_ifa_name(&nodes[i].name) {
                    Ok(name) => {
                        let a = crate::addr::ipv4_from_raw(*raw, little_endian);
                        out.push((name, a));
                    },
                    Err(e) => {
                        proof {
                            lemma_first_bad_name_at(all, i as int);
                        }
                        return Err(e);
                    },
                }
            },
            NodeAddress::V6(b) => {
                match get_ifa_name(&nodes[i].name) {
                    Ok(name) => {
                        out.push((name, IpAddress::V6(*b)));
                    },
                    Err(e) => {
                        proof {
                            lemma_first_bad_name_at(all, i as int);
                        }
                        return Err(e);
                    },
                }
            },
            NodeAddress::Other => {},
        }
        i = i + 1;
    }
    proof {
        assert(all.take(n as int) =~= all);
        assert(!some_name_fault(all));
        assert(pairs_view(out@) =~= nodes_entries(all, little_endian));
    }
    Ok(out)
}

/// Repeating the enumeration over an unchanged record list owes the same
/// result: any two results that meet the enumeration's contract on equal
/// lists are equal.
pub proof fn lemma_find_af_inet_idempotent(
    nodes1: Seq<IfaceNode>,
    nodes2: Seq<IfaceNode>,
    little_endian: bool,
    r1: Result<Seq<(Seq<char>, IpAddress)>, Seq<u8>>,
    r2: Result<Seq<(Seq<char>, IpAddress)>, Seq<u8>>,
)
    requires
        nodes1 == nodes2,
        r1 == spec_find_af_inet(nodes1, little_endian),
        r2 == spec_find_af_inet(nodes2, little_endian),
    ensures
        r1 == r2,
{
}

} // verus!
