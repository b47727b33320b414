//! The decoded DHCP message.

use crate::addr::Ipv4Address;
use crate::dhcp_options::{DHCPMessageType, DHCPOption, OptionView};
use vstd::prelude::*;

verus! {

/// A DHCP Message
#[derive(Debug, PartialEq, Eq)]
pub struct DHCPMessage<'a> {
    /// Message op code / message type
    pub op: u8,
    /// Hardware address type
    pub htype: u8,
    /// Hardware address length
    pub hlen: u8,
    /// Client sets to zero, optionally used by relay-agents when booting via a relay-agent.
    pub hops: u8,
    /// Transaction ID
    pub xid: u32,
    /// Seconds elapsed since client started trying to boot
    pub secs: u16,
    /// Flags
    pub flags: u16,
    /// Client IP address
    pub ciaddr: Ipv4Address,
    /// Your (client) IP address
    pub yiaddr: Ipv4Address,
    /// IP address of next server to use in bootstrap
    pub siaddr: Ipv4Address,
    /// Relay agent IP address
    pub giaddr: Ipv4Address,
    /// Client hardware address
    pub chaddr: Vec<u8>,
    /// Optional server host name, null terminated string
    pub sname: &'a [u8],
    /// Boot file name, null terminated string
    pub file: &'a [u8],
    /// Magic (usually DHCP)
    pub magic: Vec<u8>,
    /// Optional parameters field
    pub options: Vec<DHCPOption<'a>>,
}

/// What one of the two text fields of a message holds.
#[derive(Clone, Copy, Debug, PartialEq, Eq)]
pub enum MaybeStr<'a> {
    /// The field starts with a NUL byte.
    Empty,
    /// The field is one NUL-terminated string that fills it: the bytes before
    /// the terminator.
    Str(&'a [u8]),
    /// The field is not one NUL-terminated string.
    FromUTF8Error,
}

/// What a [`DHCPMessage`] holds.
#[verifier::ext_equal]
pub struct MessageView {
    pub op: u8,
    pub htype: u8,
    pub hlen: u8,
    pub hops: u8,
    pub xid: u32,
    pub secs: u16,
    pub flags: u16,
    pub ciaddr: Ipv4Address,
    pub yiaddr: Ipv4Address,
    pub siaddr: Ipv4Address,
    pub giaddr: Ipv4Address,
    pub chaddr: Seq<u8>,
    pub sname: Seq<u8>,
    pub file: Seq<u8>,
    pub magic: Seq<u8>,
    pub options: Seq<OptionView>,
}

/// What a [`MaybeStr`] holds.
#[verifier::ext_equal]
pub enum MaybeStrView {
    Empty,
    Str(Seq<u8>),
    FromUTF8Error,
}

/// The options of a message, each by its view, in order.
pub open spec fn options_view(options: Seq<DHCPOption>) -> Seq<OptionView> {
    Seq::new(options.len(), |k: int| options[k]@)
}

impl<'a> View for DHCPMessage<'a> {
    type V = MessageView;

    open spec fn view(&self) -> MessageView {
        MessageView {
            op: self.op,
            htype: self.htype,
            hlen: self.hlen,
            hops: self.hops,
            xid: self.xid,
            secs: self.secs,
            flags: self.flags,
            ciaddr: self.ciaddr,
            yiaddr: self.yiaddr,
            siaddr: self.siaddr,
            giaddr: self.giaddr,
            chaddr: self.chaddr@,
            sname: self.sname@,
            file: self.file@,
            magic: self.magic@,
            options: options_view(self.options@),
        }
    }
}

impl<'a> View for MaybeStr<'a> {
    type V = MaybeStrView;

    open spec fn view(&self) -> MaybeStrView {
        match *self {
            MaybeStr::Empty => MaybeStrView::Empty,
            MaybeStr::Str(s) => MaybeStrView::Str(s@),
            MaybeStr::FromUTF8Error => MaybeStrView::FromUTF8Error,
        }
    }
}

/// The message type that the first message-type option of `options` carries.
pub open spec fn spec_message_type(options: Seq<OptionView>) -> Option<DHCPMessageType>
    decreases options.len(),
{
    if options.len() == 0 {
        None
    } else if let OptionView::MessageType(t) = options[0] {
        Some(t)
    } else {
        spec_message_type(options.skip(1))
    }
}

/// How a fixed-width text field reads: empty when it starts with NUL, a
/// string when its only NUL is its last byte, and not a string otherwise.
pub open spec fn spec_text_field(field: Seq<u8>) -> MaybeStrView {
    if field.len() > 0 && field[0] == 0 {
        MaybeStrView::Empty
    } else if field.len() > 0 && field.last() == 0 && forall|k: int|
        0 <= k < field.len() - 1 ==> field[k] != 0 {
        MaybeStrView::Str(field.drop_last())
    } else {
        MaybeStrView::FromUTF8Error
    }
}

impl MessageView {
    /// The four fixed-width spans have their widths.
    pub open spec fn wf(self) -> bool {
        &&& self.chaddr.len() == 16
        &&& self.sname.len() == 64
        &&& self.file.len() == 128
        &&& self.magic.len() == 4
    }
}

/// Reads a fixed-width text field.
fn text_field<'a>(field: &'a [u8]) -> (r: MaybeStr<'a>)
    ensures
        r@ == spec_text_field(field@),
{
    let n = field.len();
    if n == 0 {
        return MaybeStr::FromUTF8Error;
    }
    if field[0] == 0 {
        return MaybeStr::Empty;
    }
    let mut k: usize = 1;
    while k < n && field[k] != 0
        invariant
            1 <= k <= n,
            n == field@.len(),
            forall|j: int| 0 <= j < k ==> field@[j] != 0,
        decreases n - k,
    {
        k += 1;
    }
    if k == n - 1 {
        let text = &field[0..k];
        assert(text@ =~= field@.drop_last());
        MaybeStr::Str(text)
    } else {
        MaybeStr::FromUTF8Error
    }
}

impl<'a> DHCPMessage<'a> {
    /// The four fixed-width spans have their widths.
    pub open spec fn wf(&self) -> bool {
        self@.wf()
    }

    /// Get the server host name
    pub fn server_name(&self) -> (r: MaybeStr<'a>)
        ensures
            r@ == spec_text_field(self.sname@),
    {
        text_field(self.sname)
    }

    /// Get the boot file name
    pub fn file(&self) -> (r: MaybeStr<'a>)
        ensures
            r@ == spec_text_field(self.file@),
    {
        text_field(self.file)
    }

    /// Get the message type: what the first message-type option carries
    pub fn message_type(&self) -> (r: Option<DHCPMessageType>)
        ensures
            r == spec_message_type(self@.options),
    {
        let n = self.options.len();
        let mut k: usize = 0;
        assert(self@.options.skip(0) =~= self@.options);
        while k < n
            invariant
                k <= n,
                n == self.options@.len(),
                spec_message_type(self@.options) == spec_message_type(self@.options.skip(k as int)),
            decreases n - k,
        {
            let ghost rest = self@.options.skip(k as int);
            assert(rest[0] == self.options@[k as int]@);
            assert(rest.skip(1) =~= self@.options.skip(k + 1));
            if let DHCPOption::MessageType(t) = self.options[k] {
                return Some(t);
            }
            k += 1;
        }
        None
    }
}

} // verus!
