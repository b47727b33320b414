//! DHCP options (RFC 1533) as decoded values.

use crate::addr::Ipv4Address;
use vstd::prelude::*;

verus! {

/// A DHCP Option
#[derive(Clone, Copy, Debug, PartialEq, Eq)]
pub enum DHCPOption<'a> {
    /// Padding (0)
    Pad,
    /// Subnet Mask (1)
    SubnetMask(Ipv4Address),
    /// Requested IP Address (50)
    RequestedIPAddress(Ipv4Address),
    /// IP Address Lease Time (51)
    AddressLeaseTime(u32),
    /// Option Overload (52)
    OptionOverload(u8),
    /// Message Type (53)
    MessageType(DHCPMessageType),
    /// Server Identifier (54)
    ServerIdentifier(Ipv4Address),
    /// Parameter Request List (55)
    ParameterRequestList(DHCPParameterRequest<'a>),
    /// Message (56)
    Message(&'a [u8]),
    /// Maximum DHCP Message Size (57)
    MaximumSize(u16),
    /// Renewal (T1) Time Value (58)
    Renewal(u32),
    /// Rebinding (T2) Time Value (59)
    Rebinding(u32),
    /// Vendor Class Identifier (60)
    ClassIdentifier(&'a [u8]),
    /// Client Identifier (61)
    ClientIdentifier(&'a [u8]),
    /// Generic (unparsed) option
    Generic(DHCPGenericOption<'a>),
    /// End of options (255)
    End,
}

/// A DHCP Unknown Option
#[derive(Clone, Copy, Debug, PartialEq, Eq)]
pub struct DHCPGenericOption<'a> {
    /// Tag
    pub t: u8,
    /// Length
    pub l: u8,
    /// Value
    pub v: &'a [u8],
}

/// DHCP Message Type
#[derive(Clone, Copy, Debug, PartialEq, Eq, Hash, Structural)]
pub struct DHCPMessageType(pub u8);

/// Parameter Request List
#[derive(Clone, Copy, Debug, PartialEq, Eq)]
pub struct DHCPParameterRequest<'a>(pub &'a [u8]);

/// What a [`DHCPGenericOption`] holds.
#[verifier::ext_equal]
pub struct GenericOptionView {
    pub t: u8,
    pub l: u8,
    pub v: Seq<u8>,
}

/// What a [`DHCPOption`] holds.
#[verifier::ext_equal]
pub enum OptionView {
    Pad,
    SubnetMask(Ipv4Address),
    RequestedIPAddress(Ipv4Address),
    AddressLeaseTime(u32),
    OptionOverload(u8),
    MessageType(DHCPMessageType),
    ServerIdentifier(Ipv4Address),
    ParameterRequestList(Seq<u8>),
    Message(Seq<u8>),
    MaximumSize(u16),
    Renewal(u32),
    Rebinding(u32),
    ClassIdentifier(Seq<u8>),
    ClientIdentifier(Seq<u8>),
    Generic(GenericOptionView),
    End,
}

impl<'a> View for DHCPGenericOption<'a> {
    type V = GenericOptionView;

    open spec fn view(&self) -> GenericOptionView {
        GenericOptionView { t: self.t, l: self.l, v: self.v@ }
    }
}

impl<'a> View for DHCPParameterRequest<'a> {
    type V = Seq<u8>;

    open spec fn view(&self) -> Seq<u8> {
        self.0@
    }
}

impl<'a> View for DHCPOption<'a> {
    type V = OptionView;

    open spec fn view(&self) -> OptionView {
        match *self {
            DHCPOption::Pad => OptionView::Pad,
            DHCPOption::SubnetMask(a) => OptionView::SubnetMask(a),
            DHCPOption::RequestedIPAddress(a) => OptionView::RequestedIPAddress(a),
            DHCPOption::AddressLeaseTime(n) => OptionView::AddressLeaseTime(n),
            DHCPOption::OptionOverload(n) => OptionView::OptionOverload(n),
            DHCPOption::MessageType(t) => OptionView::MessageType(t),
            DHCPOption::ServerIdentifier(a) => OptionView::ServerIdentifier(a),
            DHCPOption::ParameterRequestList(p) => OptionView::ParameterRequestList(p@),
            DHCPOption::Message(b) => OptionView::Message(b@),
            DHCPOption::MaximumSize(n) => OptionView::MaximumSize(n),
            DHCPOption::Renewal(n) => OptionView::Renewal(n),
            DHCPOption::Rebinding(n) => OptionView::Rebinding(n),
            DHCPOption::ClassIdentifier(b) => OptionView::ClassIdentifier(b@),
            DHCPOption::ClientIdentifier(b) => OptionView::ClientIdentifier(b@),
            DHCPOption::Generic(g) => OptionView::Generic(g@),
            DHCPOption::End => OptionView::End,
        }
    }
}

/// Whether the tag has a typed option of its own.
pub open spec fn is_known_tag(t: u8) -> bool {
    t == 0 || t == 1 || 50 <= t <= 61 || t == 255
}

impl OptionView {
    /// Whether the option is one that a buffer can decode to: a generic
    /// option has a tag without a typed option, and every span of bytes is
    /// as long as a length byte that its tag allows.
    pub open spec fn wf(self) -> bool {
        match self {
            OptionView::ParameterRequestList(v) => 1 <= v.len() <= 255,
            OptionView::Message(v) => 1 <= v.len() <= 255,
            OptionView::ClassIdentifier(v) => v.len() <= 255,
            OptionView::ClientIdentifier(v) => 2 <= v.len() <= 255,
            OptionView::Generic(g) => !is_known_tag(g.t) && g.v.len() == g.l,
            _ => true,
        }
    }

    /// The numeric code of the option.
    pub open spec fn tag(self) -> u8 {
        match self {
            OptionView::Pad => 0,
            OptionView::SubnetMask(_) => 1,
            OptionView::RequestedIPAddress(_) => 50,
            OptionView::AddressLeaseTime(_) => 51,
            OptionView::OptionOverload(_) => 52,
            OptionView::MessageType(_) => 53,
            OptionView::ServerIdentifier(_) => 54,
            OptionView::ParameterRequestList(_) => 55,
            OptionView::Message(_) => 56,
            OptionView::MaximumSize(_) => 57,
            OptionView::Renewal(_) => 58,
            OptionView::Rebinding(_) => 59,
            OptionView::ClassIdentifier(_) => 60,
            OptionView::ClientIdentifier(_) => 61,
            OptionView::Generic(g) => g.t,
            OptionView::End => 255,
        }
    }
}

// --------- helpers ------------

impl<'a> DHCPOption<'a> {
    /// Get the numeric code for the option
    pub fn tag(&self) -> (r: u8)
        ensures
            r == self@.tag(),
    {
        match self {
            DHCPOption::Pad => 0,
            DHCPOption::SubnetMask(_) => 1,
            DHCPOption::RequestedIPAddress(_) => 50,
            DHCPOption::AddressLeaseTime(_) => 51,
            DHCPOption::OptionOverload(_) => 52,
            DHCPOption::MessageType(_) => 53,
            DHCPOption::ServerIdentifier(_) => 54,
            DHCPOption::ParameterRequestList(_) => 55,
            DHCPOption::Message(_) => 56,
            DHCPOption::MaximumSize(_) => 57,
            DHCPOption::Renewal(_) => 58,
            DHCPOption::Rebinding(_) => 59,
            DHCPOption::ClassIdentifier(_) => 60,
            DHCPOption::ClientIdentifier(_) => 61,
            DHCPOption::Generic(opt) => opt.t,
            DHCPOption::End => 255,
        }
    }
}

// --------- RFC 1533 ------------

/// The name that the protocol gives to a message type code.
pub open spec fn spec_message_type_name(code: u8) -> Seq<char>
    recommends
        1 <= code <= 7,
{
    if code == 1 {
        "DHCPDISCOVER"@
    } else if code == 2 {
        "DHCPOFFER"@
    } else if code == 3 {
        "DHCPREQUEST"@
    } else if code == 4 {
        "DHCPDECLINE"@
    } else if code == 5 {
        "DHCPACK"@
    } else if code == 6 {
        "DHCPNAK"@
    } else {
        "DHCPRELEASE"@
    }
}

#[allow(non_upper_case_globals)]
impl DHCPMessageType {
    pub const DHCPDISCOVER: u8 = 1;
    pub const DHCPOFFER: u8 = 2;
    pub const DHCPREQUEST: u8 = 3;
    pub const DHCPDECLINE: u8 = 4;
    pub const DHCPACK: u8 = 5;
    pub const DHCPNAK: u8 = 6;
    pub const DHCPRELEASE: u8 = 7;

    /// The name of the message type, where the protocol gives its code one.
    pub fn name(&self) -> (r: Option<&'static str>)
        ensures
            match r {
                Some(n) => 1 <= self.0 <= 7 && n@ == spec_message_type_name(self.0),
                None => !(1 <= self.0 <= 7),
            },
    {
        match self.0 {
            1 => Some("DHCPDISCOVER"),
            2 => Some("DHCPOFFER"),
            3 => Some("DHCPREQUEST"),
            4 => Some("DHCPDECLINE"),
            5 => Some("DHCPACK"),
            6 => Some("DHCPNAK"),
            7 => Some("DHCPRELEASE"),
            _ => None,
        }
    }

    /// Whether the code is none of the seven that the protocol names.
    pub fn is_unknown(&self) -> (r: bool)
        ensures
            r == !(1 <= self.0 <= 7),
    {
        self.0 < 1 || self.0 > 7
    }
}

} // verus!
