//! The client side of the protocol as a state machine.

use crate::dhcp::{spec_message_type, DHCPMessage};
use crate::dhcp_options::DHCPMessageType;
use vstd::prelude::*;

verus! {

/// DHCP State Machine
#[derive(Clone, Copy, Debug, PartialEq, Eq, Hash, Structural)]
pub enum DHCPClientState {
    Init,
    Selecting,
    Requesting,
    Bound,
    Renewing,
    Rebinding,
    Error,
}

/// The transition table: the state that follows `state` on a message whose
/// message type is `message_type`. A message without a message type, and
/// every pair that the table does not list, leads to `Error`.
pub open spec fn spec_next(
    state: DHCPClientState,
    message_type: Option<DHCPMessageType>,
) -> DHCPClientState {
    match message_type {
        None => DHCPClientState::Error,
        Some(t) => match state {
            DHCPClientState::Init => if t.0 == DHCPMessageType::DHCPDISCOVER {
                DHCPClientState::Selecting
            } else {
                DHCPClientState::Error
            },
            DHCPClientState::Selecting => if t.0 == DHCPMessageType::DHCPOFFER {
                DHCPClientState::Selecting
            } else if t.0 == DHCPMessageType::DHCPREQUEST {
                DHCPClientState::Requesting
            } else {
                DHCPClientState::Error
            },
            DHCPClientState::Requesting => if t.0 == DHCPMessageType::DHCPACK {
                DHCPClientState::Bound
            } else {
                DHCPClientState::Error
            },
            DHCPClientState::Bound => if t.0 == DHCPMessageType::DHCPREQUEST {
                DHCPClientState::Renewing
            } else if t.0 == DHCPMessageType::DHCPRELEASE {
                DHCPClientState::Init
            } else {
                DHCPClientState::Error
            },
            DHCPClientState::Renewing => if t.0 == DHCPMessageType::DHCPACK {
                DHCPClientState::Bound
            } else if t.0 == DHCPMessageType::DHCPREQUEST {
                DHCPClientState::Rebinding
            } else {
                DHCPClientState::Error
            },
            DHCPClientState::Rebinding => if t.0 == DHCPMessageType::DHCPACK {
                DHCPClientState::Bound
            } else if t.0 == DHCPMessageType::DHCPNAK {
                DHCPClientState::Init
            } else {
                DHCPClientState::Error
            },
            DHCPClientState::Error => DHCPClientState::Error,
        },
    }
}

impl DHCPClientState {
    /// The state after a message of the given type, by the transition table.
    pub fn step(self, message_type: Option<DHCPMessageType>) -> (r: Self)
        ensures
            r == spec_next(self, message_type),
    {
        let t = match message_type {
            Some(t) => t.0,
            None => {
                return DHCPClientState::Error;
            },
        };
        match self {
            DHCPClientState::Error => DHCPClientState::Error,
            DHCPClientState::Init => {
                if t == DHCPMessageType::DHCPDISCOVER {
                    DHCPClientState::Selecting
                } else {
                    DHCPClientState::Error
                }
            },
            DHCPClientState::Selecting => {
                if t == DHCPMessageType::DHCPOFFER {
                    DHCPClientState::Selecting
                } else if t == DHCPMessageType::DHCPREQUEST {
                    DHCPClientState::Requesting
                } else {
                    DHCPClientState::Error
                }
            },
            DHCPClientState::Requesting => {
                if t == DHCPMessageType::DHCPACK {
                    DHCPClientState::Bound
                } else {
                    DHCPClientState::Error
                }
            },
            DHCPClientState::Bound => {
                if t == DHCPMessageType::DHCPREQUEST {
                    DHCPClientState::Renewing
                } else if t == DHCPMessageType::DHCPRELEASE {
                    DHCPClientState::Init
                } else {
                    DHCPClientState::Error
                }
            },
            DHCPClientState::Renewing => {
                if t == DHCPMessageType::DHCPACK {
                    DHCPClientState::Bound
                } else if t == DHCPMessageType::DHCPREQUEST {
                    DHCPClientState::Rebinding
                } else {
                    DHCPClientState::Error
                }
            },
            DHCPClientState::Rebinding => {
                if t == DHCPMessageType::DHCPACK {
                    DHCPClientState::Bound
                } else if t == DHCPMessageType::DHCPNAK {
                    DHCPClientState::Init
                } else {
                    DHCPClientState::Error
                }
            },
        }
    }

    /// Advance to next state
    pub fn next(self, msg: &DHCPMessage) -> (r: Self)
        ensures
            r == spec_next(self, spec_message_type(msg@.options)),
    {
        self.step(msg.message_type())
    }
}

} // verus!
