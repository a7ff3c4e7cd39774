//! Discovery of the host machine's IP addresses through two independent
//! OS-level queries: a kernel routing-table dump that yields the one
//! globally-routable IPv4 address, and a full enumeration of the interface
//! address list. The kernel interaction itself is ordinary I/O and stays with
//! the caller; this crate holds the protocol decisions — what to request, how
//! each streamed record is filtered and decoded, and the byte-order
//! correction — as verified functions over plainly modelled records.

pub mod addr;
pub mod error;
pub mod ifaces;
pub mod route;

pub use addr::IpAddress;
pub use error::Error;
pub use ifaces::find_af_inet;
pub use route::local_ip;
