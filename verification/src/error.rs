use vstd::prelude::*;

verus! {

/// The failures of the two discovery paths. Every failure ends its call at
/// once; none is retried and no partial result is returned beside one.
#[derive(Debug, Clone, PartialEq, Eq)]
pub enum Error {
    /// Opening the kernel routing channel failed; carries the system error
    /// text.
    NetlinkIOError(String),
    /// Sending the address dump request failed; carries the system error
    /// text.
    NetlinkSendMessageError(String),
    /// The kernel's response stream was malformed, unreadable, or exhausted
    /// without a globally-routable IPv4 address.
    NetlinkFailedToFindLocalIp,
    /// The interface enumeration call returned the carried nonzero status.
    GetIfAddrsError(i32),
    /// An interface name was not valid text; carries the offending bytes.
    IntAddrNameParseError(Vec<u8>),
}

} // verus!
