use local_ip_address::addr::ipv4_from_raw;
use local_ip_address::ifaces::{find_af_inet, get_ifa_name, IfaceNode, NodeAddress};
use local_ip_address::route::{
    local_ip, make_ifaddrmsg, make_netlink_message, AddressInfo, MessagePayload, RouteAttr,
    RouteMessage, RouteResponse, IFA_LOCAL, NLM_F_REQUEST, NLM_F_ROOT, RTM_GETADDR, RTM_NEWADDR,
    SCOPE_UNIVERSE,
};
use local_ip_address::{Error, IpAddress};

const SCOPE_HOST: u8 = 254;

fn addr_message(scope: u8, attrs: Vec<RouteAttr>) -> RouteResponse {
    RouteResponse::Message(RouteMessage {
        msg_type: RTM_NEWADDR,
        payload: MessagePayload::Addr(AddressInfo { scope, attrs }),
    })
}

fn local_attr(payload: Vec<u8>) -> RouteAttr {
    RouteAttr { kind: IFA_LOCAL, payload }
}

#[test]
fn byte_order_little_endian_host() {
    // 127.0.0.1 in network order, read natively by a little-endian host.
    let a = ipv4_from_raw(0x0100_007F, true);
    assert_eq!(a, IpAddress::V4([127, 0, 0, 1]));
}

#[test]
fn byte_order_big_endian_host() {
    // 127.0.0.1 in network order, read natively by a big-endian host.
    let a = ipv4_from_raw(0x7F00_0001, false);
    assert_eq!(a, IpAddress::V4([127, 0, 0, 1]));
}

#[test]
fn byte_order_asymmetric_value() {
    assert_eq!(ipv4_from_raw(0x0500_000A, true), IpAddress::V4([10, 0, 0, 5]));
    assert_eq!(ipv4_from_raw(0x0A00_0005, false), IpAddress::V4([10, 0, 0, 5]));
}

#[test]
fn request_body_fields() {
    let body = make_ifaddrmsg();
    assert_eq!(body.family, 2);
    assert_eq!(body.prefix_len, 0);
    assert_eq!(body.flags, 0);
    assert_eq!(body.scope, 0);
    assert_eq!(body.index, 0);
}

#[test]
fn request_header_fields() {
    let body = make_ifaddrmsg();
    let msg = make_netlink_message(body);
    assert_eq!(msg.msg_type, RTM_GETADDR);
    assert_eq!(msg.header_flags, NLM_F_REQUEST | NLM_F_ROOT);
    assert_eq!(msg.body, body);
}

#[test]
fn local_ip_prefers_universe_scope() {
    let responses = vec![
        addr_message(SCOPE_HOST, vec![local_attr(vec![127, 0, 0, 1])]),
        addr_message(SCOPE_UNIVERSE, vec![local_attr(vec![192, 168, 1, 50])]),
    ];
    assert_eq!(local_ip(&responses), Ok(IpAddress::V4([192, 168, 1, 50])));
}

#[test]
fn local_ip_no_universe_fails() {
    let responses = vec![addr_message(SCOPE_HOST, vec![local_attr(vec![127, 0, 0, 1])])];
    assert_eq!(local_ip(&responses), Err(Error::NetlinkFailedToFindLocalIp));
}

#[test]
fn local_ip_empty_stream_fails() {
    let responses: Vec<RouteResponse> = Vec::new();
    assert_eq!(local_ip(&responses), Err(Error::NetlinkFailedToFindLocalIp));
}

#[test]
fn local_ip_skips_empty_messages() {
    let responses = vec![
        RouteResponse::Message(RouteMessage { msg_type: 0, payload: MessagePayload::Empty }),
        addr_message(SCOPE_UNIVERSE, vec![local_attr(vec![192, 168, 1, 50])]),
    ];
    assert_eq!(local_ip(&responses), Ok(IpAddress::V4([192, 168, 1, 50])));
}

#[test]
fn local_ip_wrong_message_type_fails() {
    let responses = vec![
        RouteResponse::Message(RouteMessage {
            msg_type: 16,
            payload: MessagePayload::Addr(AddressInfo {
                scope: SCOPE_UNIVERSE,
                attrs: vec![local_attr(vec![192, 168, 1, 50])],
            }),
        }),
    ];
    assert_eq!(local_ip(&responses), Err(Error::NetlinkFailedToFindLocalIp));
}

#[test]
fn local_ip_unreadable_item_fails() {
    let responses = vec![
        addr_message(SCOPE_UNIVERSE, vec![local_attr(vec![192, 168, 1, 50])]),
        RouteResponse::Unreadable,
    ];
    assert_eq!(local_ip(&responses), Err(Error::NetlinkFailedToFindLocalIp));
}

#[test]
fn local_ip_control_payload_fails() {
    let responses = vec![
        RouteResponse::Message(RouteMessage {
            msg_type: RTM_NEWADDR,
            payload: MessagePayload::Control,
        }),
    ];
    assert_eq!(local_ip(&responses), Err(Error::NetlinkFailedToFindLocalIp));
}

#[test]
fn local_ip_short_attr_payload_fails() {
    let responses = vec![addr_message(SCOPE_UNIVERSE, vec![local_attr(vec![192, 168])])];
    assert_eq!(local_ip(&responses), Err(Error::NetlinkFailedToFindLocalIp));
}

#[test]
fn local_ip_ignores_other_attr_kinds() {
    // An attribute that is not the local address never yields a result.
    let responses = vec![
        addr_message(
            SCOPE_UNIVERSE,
            vec![RouteAttr { kind: 1, payload: vec![192, 168, 1, 50] }],
        ),
    ];
    assert_eq!(local_ip(&responses), Err(Error::NetlinkFailedToFindLocalIp));
}

#[test]
fn local_ip_takes_first_universe_address() {
    let responses = vec![
        addr_message(SCOPE_UNIVERSE, vec![local_attr(vec![10, 0, 0, 7])]),
        addr_message(SCOPE_UNIVERSE, vec![local_attr(vec![192, 168, 1, 50])]),
    ];
    assert_eq!(local_ip(&responses), Ok(IpAddress::V4([10, 0, 0, 7])));
}

#[test]
fn local_ip_reads_first_four_payload_bytes() {
    let responses = vec![addr_message(SCOPE_UNIVERSE, vec![local_attr(vec![10, 0, 0, 7, 99])])];
    assert_eq!(local_ip(&responses), Ok(IpAddress::V4([10, 0, 0, 7])));
}

const FE80_1: [u8; 16] = [0xFE, 0x80, 0, 0, 0, 0, 0, 0, 0, 0, 0, 0, 0, 0, 0, 1];

#[test]
fn find_af_inet_synthetic_list() {
    let nodes = vec![
        IfaceNode { name: b"eth0".to_vec(), addr: NodeAddress::V4(0x0500_000A) },
        IfaceNode { name: b"eth0".to_vec(), addr: NodeAddress::V6(FE80_1) },
        IfaceNode { name: b"lo".to_vec(), addr: NodeAddress::Other },
    ];
    let got = find_af_inet(&nodes, true).unwrap();
    assert_eq!(
        got,
        vec![
            ("eth0".to_string(), IpAddress::V4([10, 0, 0, 5])),
            ("eth0".to_string(), IpAddress::V6(FE80_1)),
        ]
    );
}

#[test]
fn find_af_inet_big_endian_flag() {
    let nodes = vec![IfaceNode { name: b"eth0".to_vec(), addr: NodeAddress::V4(0x0A00_0005) }];
    let got = find_af_inet(&nodes, false).unwrap();
    assert_eq!(got, vec![("eth0".to_string(), IpAddress::V4([10, 0, 0, 5]))]);
}

#[test]
fn find_af_inet_empty_list() {
    let nodes: Vec<IfaceNode> = Vec::new();
    assert_eq!(find_af_inet(&nodes, true), Ok(Vec::new()));
}

#[test]
fn find_af_inet_bad_name_fails() {
    let nodes = vec![IfaceNode { name: vec![0xFF, 0xFE], addr: NodeAddress::V4(0x0500_000A) }];
    assert_eq!(
        find_af_inet(&nodes, true),
        Err(Error::IntAddrNameParseError(vec![0xFF, 0xFE]))
    );
}

#[test]
fn find_af_inet_bad_name_aborts_whole_call() {
    // No partial result: an earlier good record is discarded.
    let nodes = vec![
        IfaceNode { name: b"eth0".to_vec(), addr: NodeAddress::V4(0x0500_000A) },
        IfaceNode { name: vec![0x80], addr: NodeAddress::V6(FE80_1) },
    ];
    assert_eq!(find_af_inet(&nodes, true), Err(Error::IntAddrNameParseError(vec![0x80])));
}

#[test]
fn find_af_inet_bad_name_on_skipped_family_is_ignored() {
    let nodes = vec![
        IfaceNode { name: vec![0xFF], addr: NodeAddress::Other },
        IfaceNode { name: b"eth0".to_vec(), addr: NodeAddress::V4(0x0500_000A) },
    ];
    let got = find_af_inet(&nodes, true).unwrap();
    assert_eq!(got, vec![("eth0".to_string(), IpAddress::V4([10, 0, 0, 5]))]);
}

#[test]
fn find_af_inet_decodes_multibyte_names() {
    // A valid two-byte UTF-8 sequence becomes one character, not two.
    let nodes = vec![IfaceNode { name: vec![0xC3, 0xA9], addr: NodeAddress::V4(0x0500_000A) }];
    let got = find_af_inet(&nodes, true).unwrap();
    assert_eq!(got.len(), 1);
    assert_eq!(got[0].0, "\u{e9}".to_string());
    assert_eq!(got[0].0.chars().count(), 1);
}

#[test]
fn get_ifa_name_valid() {
    assert_eq!(get_ifa_name(&b"eth0".to_vec()), Ok("eth0".to_string()));
}

#[test]
fn get_ifa_name_invalid() {
    assert_eq!(
        get_ifa_name(&vec![0x65, 0xFF]),
        Err(Error::IntAddrNameParseError(vec![0x65, 0xFF]))
    );
}

#[test]
fn repeated_calls_identical() {
    let responses = vec![
        addr_message(SCOPE_HOST, vec![local_attr(vec![127, 0, 0, 1])]),
        addr_message(SCOPE_UNIVERSE, vec![local_attr(vec![192, 168, 1, 50])]),
    ];
    assert_eq!(local_ip(&responses), local_ip(&responses));

    let nodes = vec![
        IfaceNode { name: b"eth0".to_vec(), addr: NodeAddress::V4(0x0500_000A) },
        IfaceNode { name: b"eth0".to_vec(), addr: NodeAddress::V6(FE80_1) },
    ];
    assert_eq!(find_af_inet(&nodes, true), find_af_inet(&nodes, true));
}
