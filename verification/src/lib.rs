//! A decoder for DHCP messages and a client-side protocol state machine.
//!
//! See also:
//! - [RFC 1541](https://tools.ietf.org/html/rfc1541): Dynamic Host Configuration Protocol
//! - [RFC 1533](https://tools.ietf.org/html/rfc1533): DHCP Options and BOOTP Vendor Extensions

pub mod addr;
pub mod dhcp;
pub mod dhcp_options;
pub mod error;
pub mod laws;
pub mod parser;
pub mod reader;
pub mod state;

pub use addr::Ipv4Address;
pub use dhcp::{DHCPMessage, MaybeStr};
pub use dhcp_options::{DHCPGenericOption, DHCPMessageType, DHCPOption, DHCPParameterRequest};
pub use error::ParseError;
pub use parser::parse_dhcp_message;
pub use state::DHCPClientState;
