use vstd::prelude::*;

use crate::addr::IpAddress;
use crate::error::Error;

verus! {

/// Message type of a kernel "new address" record (rtnetlink `RTM_NEWADDR`).
pub const RTM_NEWADDR: u16 = 20;

/// Message type of an address dump request (rtnetlink `RTM_GETADDR`).
pub const RTM_GETADDR: u16 = 22;

/// Scope of a globally-routable address (`RT_SCOPE_UNIVERSE`).
pub const SCOPE_UNIVERSE: u8 = 0;

/// Attribute tag carrying the local address of a record (`IFA_LOCAL`).
pub const IFA_LOCAL: u16 = 2;

/// The IPv4 address family (`AF_INET`).
pub const FAMILY_INET: u8 = 2;

/// Header flag marking a request (`NLM_F_REQUEST`).
pub const NLM_F_REQUEST: u16 = 1;

/// Header flag asking for a dump of the whole table (`NLM_F_ROOT`).
pub const NLM_F_ROOT: u16 = 0x100;

/// The body of the address dump request: ask for IPv4 addresses of every
/// scope, prefix and interface.
#[derive(Debug, Clone, Copy, PartialEq, Eq, Structural)]
pub struct AddressRequest {
    pub family: u8,
    pub prefix_len: u8,
    pub flags: u32,
    pub scope: u8,
    pub index: i32,
}

/// A request message: a header around the request body.
#[derive(Debug, Clone, Copy, PartialEq, Eq, Structural)]
pub struct NetlinkRequest {
    pub msg_type: u16,
    pub header_flags: u16,
    pub body: AddressRequest,
}

/// Builds the dump request body: family Inet, prefix length 0, no flags,
/// scope 0, interface index 0 — that is, every address.
pub fn make_ifaddrmsg() -> (r: AddressRequest)
    ensures
        r == (AddressRequest { family: FAMILY_INET, prefix_len: 0, flags: 0, scope: 0, index: 0 }),
{
    AddressRequest { family: FAMILY_INET, prefix_len: 0, flags: 0, scope: 0, index: 0 }
}

/// Wraps a request body in a header marked as a "get address" request for
/// the full table.
pub fn make_netlink_message(body: AddressRequest) -> (r: NetlinkRequest)
    ensures
        r == (NetlinkRequest {
            msg_type: RTM_GETADDR,
            header_flags: NLM_F_REQUEST | NLM_F_ROOT,
            body,
        }),
{
    NetlinkRequest { msg_type: RTM_GETADDR, header_flags: NLM_F_REQUEST | NLM_F_ROOT, body }
}

/// One typed attribute of an address record, with its raw payload bytes.
#[derive(Debug, Clone, PartialEq, Eq)]
pub struct RouteAttr {
    pub kind: u16,
    pub payload: Vec<u8>,
}

/// The decoded body of an address record: its scope and its attribute list.
/// Only the fields the query reads are kept.
#[derive(Debug, Clone, PartialEq, Eq)]
pub struct AddressInfo {
    pub scope: u8,
    pub attrs: Vec<RouteAttr>,
}

/// What one response message carried.
#[derive(Debug, Clone, PartialEq, Eq)]
pub enum MessagePayload {
    /// The message carried no payload at all.
    Empty,
    /// The message carried a control or error payload, not an address record.
    Control,
    /// The message carried an address record.
    Addr(AddressInfo),
}

/// One message of the kernel's streamed response.
#[derive(Debug, Clone, PartialEq, Eq)]
pub struct RouteMessage {
    pub msg_type: u16,
    pub payload: MessagePayload,
}

/// One item of the response stream as the transport hands it over.
#[derive(Debug, Clone, PartialEq, Eq)]
pub enum RouteResponse {
    /// The transport could not read or decode this item.
    Unreadable,
    /// A readable message.
    Message(RouteMessage),
}

/// A local-address attribute whose payload is too short to hold an IPv4
/// address; decoding it fails.
pub open spec fn attr_faulty(a: RouteAttr) -> bool {
    a.kind == IFA_LOCAL && a.payload@.len() < 4
}

/// The address a local-address attribute holds: its first four payload bytes,
/// read in network (big-endian) order.
pub open spec fn attr_addr(a: RouteAttr) -> IpAddress {
    IpAddress::V4([a.payload@[0], a.payload@[1], a.payload@[2], a.payload@[3]])
}

/// The addresses of an attribute list: one per well-sized local-address
/// attribute, in list order.
pub open spec fn attrs_addrs(attrs: Seq<RouteAttr>) -> Seq<IpAddress>
    decreases attrs.len(),
{
    if attrs.len() == 0 {
        Seq::empty()
    } else {
        attrs_addrs(attrs.drop_last()) + if attrs.last().kind == IFA_LOCAL && attrs.last().payload@.len() >= 4 {
            seq![attr_addr(attrs.last())]
        } else {
            Seq::empty()
        }
    }
}

/// A message that aborts the query: a non-empty message that is not a "new
/// address" record, one whose record cannot be extracted, or a
/// globally-scoped record with an undecodable local-address attribute.
/// Empty messages are skipped and never fault.
pub open spec fn message_faulty(m: RouteMessage) -> bool {
    match m.payload {
        MessagePayload::Empty => false,
        MessagePayload::Control => true,
        MessagePayload::Addr(info) => m.msg_type != RTM_NEWADDR || (info.scope == SCOPE_UNIVERSE
            && exists|i: int| 0 <= i < info.attrs@.len() && attr_faulty(#[trigger] info.attrs@[i])),
    }
}

/// The addresses a message contributes: those of its attribute list, if it is
/// a globally-scoped address record; link- and site-local records contribute
/// nothing.
pub open spec fn message_addrs(m: RouteMessage) -> Seq<IpAddress> {
    match m.payload {
        MessagePayload::Addr(info) => if m.msg_type == RTM_NEWADDR && info.scope
            == SCOPE_UNIVERSE {
            attrs_addrs(info.attrs@)
        } else {
            Seq::empty()
        },
        _ => Seq::empty(),
    }
}

/// A stream item that aborts the query.
pub open spec fn response_faulty(r: RouteResponse) -> bool {
    match r {
        RouteResponse::Unreadable => true,
        RouteResponse::Message(m) => message_faulty(m),
    }
}

/// The addresses a stream item contributes.
pub open spec fn response_addrs(r: RouteResponse) -> Seq<IpAddress> {
    match r {
        RouteResponse::Unreadable => Seq::empty(),
        RouteResponse::Message(m) => message_addrs(m),
    }
}

/// Whether any item of the stream aborts the query.
pub open spec fn stream_faulty(rs: Seq<RouteResponse>) -> bool {
    exists|i: int| 0 <= i < rs.len() && response_faulty(#[trigger] rs[i])
}

/// Every globally-routable address of the stream, in stream order.
pub open spec fn stream_addrs(rs: Seq<RouteResponse>) -> Seq<IpAddress>
    decreases rs.len(),
{
    if rs.len() == 0 {
        Seq::empty()
    } else {
        stream_addrs(rs.drop_last()) + response_addrs(rs.last())
    }
}

/// The result the route query owes for a given response stream: the first
/// globally-routable IPv4 address, or failure when the stream is faulty or
/// holds none.
pub open spec fn spec_local_ip(rs: Seq<RouteResponse>) -> Result<IpAddress, Error> {
    if stream_faulty(rs) {
        Err(Error::NetlinkFailedToFindLocalIp)
    } else if stream_addrs(rs).len() > 0 {
        Ok(stream_addrs(rs)[0])
    } else {
        Err(Error::NetlinkFailedToFindLocalIp)
    }
}

/// Selects the local IP address from the kernel's streamed answer to the
/// address dump request: skips empty messages, aborts on any message that is
/// not a well-formed "new address" record, keeps only globally-scoped
/// records, and returns the first local address found — or fails when the
/// whole stream yields none.
#[verifier::loop_isolation(false)]
pub fn local_ip(responses: &Vec<RouteResponse>) -> (r: Result<IpAddress, Error>)
    ensures
        r == spec_local_ip(responses@),
{
    let ghost all = responses@;
    let mut found: Option<IpAddress> = None;
    let n: usize = responses.len();
    let mut i: usize = 0;
    while i < n
        invariant
            0 <= i <= n,
            n == all.len(),
            all == responses@,
            !stream_faulty(all.take(i as int)),
            match found {
                Option::None => stream_addrs(all.take(i as int)).len() == 0,
                Option::Some(a) => stream_addrs(all.take(i as int)).len() > 0 && stream_addrs(
                    all.take(i as int),
                )[0] == a,
            },
        decreases n - i,
    {
        let ghost prefix = all.take(i as int);
        let ghost next_prefix = all.take(i as int + 1);
        proof {
            assert(next_prefix.drop_last() =~= prefix);
            assert(next_prefix.last() == all[i as int]);
        }
        match &responses[i] {
            RouteResponse::Unreadable => {
                proof {
                    assert(response_faulty(all[i as int]));
                }
                return Err(Error::NetlinkFailedToFindLocalIp);
            },
            RouteResponse::Message(m) => {
                match &m.payload {
                    MessagePayload::Empty => {},
                    MessagePayload::Control => {
                        proof {
                            assert(response_faulty(all[i as int]));
                        }
                        return Err(Error::NetlinkFailedToFindLocalIp);
                    },
                    MessagePayload::Addr(info) => {
                        if m.msg_type != RTM_NEWADDR {
                            proof {
                                assert(response_faulty(all[i as int]));
                            }
                            return Err(Error::NetlinkFailedToFindLocalIp);
                        }
                        if info.scope == SCOPE_UNIVERSE {
                            let ghost attrs = info.attrs@;
                            let m_attrs: usize = info.attrs.len();
                            let mut j: usize = 0;
                            while j < m_attrs
                                invariant
                                    0 <= j <= m_attrs,
                                    m_attrs == attrs.len(),
                                    attrs == info.attrs@,
                                    forall|k: int|
                                        0 <= k < j ==> !attr_faulty(#[trigger] attrs[k]),
                                    match found {
                                        Option::None => (stream_addrs(all.take(i as int))
                                            + attrs_addrs(attrs.take(j as int))).len() == 0,
                                        Option::Some(a) => {
                                            let c = stream_addrs(all.take(i as int)) + attrs_addrs(
                                                attrs.take(j as int),
                                            );
                                            c.len() > 0 && c[0] == a
                                        },
                                    },
                                decreases m_attrs - j,
                            {
                                let ghost attr_prefix = attrs.take(j as int);
                                let ghost attr_next = attrs.take(j as int + 1);
                                proof {
                                    assert(attr_next.drop_last() =~= attr_prefix);
                                    assert(attr_next.last() == attrs[j as int]);
                                }
                                let a = &info.attrs[j];
                                if a.kind == IFA_LOCAL {
                                    if a.payload.len() < 4 {
                                        proof {
                                            assert(attr_faulty(attrs[j as int]));
                                            assert(response_faulty(all[i as int]));
                                        }
                                        return Err(Error::NetlinkFailedToFindLocalIp);
                                    }
                                    let octets: [u8; 4] = [
                                        a.payload[0],
                                        a.payload[1],
                                        a.payload[2],
                                        a.payload[3],
                                    ];
                                    proof {
                                        assert(octets =~= [
                                            attrs[j as int].payload@[0],
                                            attrs[j as int].payload@[1],
                                            attrs[j as int].payload@[2],
                                            attrs[j as int].payload@[3],
                                        ]);
                                    }
                                    if found.is_none() {
                                        found = Some(IpAddress::V4(octets));
                                    }
                                }
                                j = j + 1;
                            }
                            proof {
                                assert(attrs.take(m_attrs as int) =~= attrs);
                                assert(message_addrs(*m) == attrs_addrs(attrs));
                                assert(!message_faulty(*m));
                            }
                        }
                    },
                }
            },
        }
        proof {
            assert(stream_addrs(next_prefix) == stream_addrs(prefix) + response_addrs(
                all[i as int],
            ));
            assert(!response_faulty(all[i as int]));
            assert forall|k: int| 0 <= k < next_prefix.len() implies !response_faulty(
                #[trigger] next_prefix[k],
            ) by {
                assert(next_prefix[k] == all[k]);
                if k < i as int {
                    assert(prefix[k] == all[k]);
                }
            }
            assert(!stream_faulty(next_prefix));
        }
        i = i + 1;
    }
    proof {
        assert(all.take(n as int) =~= all);
    }
    match found {
        Option::Some(a) => Ok(a),
        Option::None => Err(Error::NetlinkFailedToFindLocalIp),
    }
}

/// A stream with no globally-routable address never falls back to another
/// address: the query fails.
pub proof fn lemma_no_universe_address_fails(rs: Seq<RouteResponse>)
    requires
        stream_addrs(rs).len() == 0,
    ensures
        spec_local_ip(rs) == Err::<IpAddress, Error>(Error::NetlinkFailedToFindLocalIp),
{
}

/// Repeating the query over an unchanged response stream owes the same
/// result: any two results that meet the query's contract on equal streams
/// are equal.
pub proof fn lemma_local_ip_idempotent(
    rs1: Seq<RouteResponse>,
    rs2: Seq<RouteResponse>,
    r1: Result<IpAddress, Error>,
    r2: Result<IpAddress, Error>,
)
    requires
        rs1 == rs2,
        r1 == spec_local_ip(rs1),
        r2 == spec_local_ip(rs2),
    ensures
        r1 == r2,
{
}

} // verus!
