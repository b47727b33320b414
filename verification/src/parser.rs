//! The decoder: bytes to [`DHCPMessage`].
//!
//! Each executable function here is specified by a `spec_` function over
//! `Seq<u8>` that says what the bytes mean; the executable code is proved to
//! compute exactly that.

use crate::addr::{parse_addr_v4, spec_addr_v4};
use crate::dhcp::{options_view, DHCPMessage, MessageView};
use crate::dhcp_options::{
    DHCPGenericOption, DHCPMessageType, DHCPOption, DHCPParameterRequest, GenericOptionView,
    OptionView,
};
use crate::error::ParseError;
use crate::reader::{
    nom_many0_zero, read_be_u16, read_be_u32, read_u8, spec_be_u16, spec_be_u32, spec_skip_zeros,
    take_bytes,
};
use vstd::prelude::*;
use vstd::slice::slice_to_vec;

verus! {

/// Whether an option with tag `t` may declare the length `l`.
pub open spec fn length_allowed(t: u8, l: u8) -> bool {
    if t == 0 || t == 255 {
        l == 0
    } else if t == 1 || t == 50 || t == 51 || t == 54 || t == 58 || t == 59 {
        l == 4
    } else if t == 52 || t == 53 {
        l == 1
    } else if t == 57 {
        l == 2
    } else if t == 55 || t == 56 {
        l >= 1
    } else if t == 61 {
        l >= 2
    } else {
        true
    }
}

/// The length that tag `t` requires, or the least one where it only sets a
/// minimum; 0 where it requires nothing.
pub open spec fn expected_length(t: u8) -> u8 {
    if t == 1 || t == 50 || t == 51 || t == 54 || t == 58 || t == 59 {
        4
    } else if t == 52 || t == 53 || t == 55 || t == 56 {
        1
    } else if t == 57 || t == 61 {
        2
    } else {
        0
    }
}

/// How many bytes the decoding of tag `t` reads from the value: the width of
/// its address or number, 0 where the value is kept as bytes.
pub open spec fn payload_width(t: u8) -> int {
    if t == 1 || t == 50 || t == 51 || t == 54 || t == 58 || t == 59 {
        4
    } else if t == 52 || t == 53 {
        1
    } else if t == 57 {
        2
    } else {
        0
    }
}

/// The typed option that a record stands for, its lengths taken as checked.
pub open spec fn spec_typed_option(g: GenericOptionView) -> OptionView {
    if g.t == 0 {
        OptionView::Pad
    } else if g.t == 1 {
        OptionView::SubnetMask(spec_addr_v4(g.v))
    } else if g.t == 50 {
        OptionView::RequestedIPAddress(spec_addr_v4(g.v))
    } else if g.t == 51 {
        OptionView::AddressLeaseTime(spec_be_u32(g.v))
    } else if g.t == 52 {
        OptionView::OptionOverload(g.v[0])
    } else if g.t == 53 {
        OptionView::MessageType(DHCPMessageType(g.v[0]))
    } else if g.t == 54 {
        OptionView::ServerIdentifier(spec_addr_v4(g.v))
    } else if g.t == 55 {
        OptionView::ParameterRequestList(g.v)
    } else if g.t == 56 {
        OptionView::Message(g.v)
    } else if g.t == 57 {
        OptionView::MaximumSize(spec_be_u16(g.v))
    } else if g.t == 58 {
        OptionView::Renewal(spec_be_u32(g.v))
    } else if g.t == 59 {
        OptionView::Rebinding(spec_be_u32(g.v))
    } else if g.t == 60 {
        OptionView::ClassIdentifier(g.v)
    } else if g.t == 61 {
        OptionView::ClientIdentifier(g.v)
    } else if g.t == 255 {
        OptionView::End
    } else {
        OptionView::Generic(g)
    }
}

/// The typed option that a tag-length-value record decodes to. A declared
/// length that the tag does not allow is rejected first. A value too short
/// to hold the tag's address or number (which no record read from a buffer
/// has) is rejected next.
pub open spec fn spec_convert_generic_option(g: GenericOptionView) -> Result<
    OptionView,
    ParseError,
> {
    if !length_allowed(g.t, g.l) {
        Err(
            ParseError::InvalidOptionLength {
                tag: g.t,
                expected: expected_length(g.t),
                actual: g.l,
            },
        )
    } else if g.v.len() < payload_width(g.t) {
        if g.t == 53 {
            Err(ParseError::InvalidMessageType)
        } else {
            Err(ParseError::Truncated)
        }
    } else {
        Ok(spec_typed_option(g))
    }
}

/// The error for a record of `tag` that declares `actual` bytes where the
/// tag requires `expected`.
fn invalid_length(tag: u8, expected: u8, actual: u8) -> (e: ParseError)
    ensures
        e == (ParseError::InvalidOptionLength { tag, expected, actual }),
{
    ParseError::InvalidOptionLength { tag, expected, actual }
}

/// Decodes a tag-length-value record into the typed option of its tag; a
/// record with a tag that has no typed option is kept as it is.
pub fn convert_generic_option<'a>(opt: DHCPGenericOption<'a>) -> (r: Result<
    DHCPOption<'a>,
    ParseError,
>)
    ensures
        match spec_convert_generic_option(opt@) {
            Ok(o) => r matches Ok(decoded) && decoded@ == o,
            Err(e) => r matches Err(re) && re == e,
        },
{
    let opt = match opt.t {
        0 => {
            if opt.l != 0 {
                return Err(invalid_length(opt.t, 0, opt.l));
            }
            DHCPOption::Pad
        },
        1 => {
            if opt.l != 4 {
                return Err(invalid_length(opt.t, 4, opt.l));
            }
            let (_, addr) = parse_addr_v4(opt.v)?;
            DHCPOption::SubnetMask(addr)
        },
        50 => {
            if opt.l != 4 {
                return Err(invalid_length(opt.t, 4, opt.l));
            }
            let (_, addr) = parse_addr_v4(opt.v)?;
            DHCPOption::RequestedIPAddress(addr)
        },
        51 => {
            if opt.l != 4 {
                return Err(invalid_length(opt.t, 4, opt.l));
            }
            let (_, v) = read_be_u32(opt.v)?;
            DHCPOption::AddressLeaseTime(v)
        },
        52 => {
            if opt.l != 1 {
                return Err(invalid_length(opt.t, 1, opt.l));
            }
            let (_, v) = read_u8(opt.v)?;
            DHCPOption::OptionOverload(v)
        },
        53 => {
            if opt.l != 1 {
                return Err(invalid_length(opt.t, 1, opt.l));
            }
            match read_u8(opt.v) {
                Ok((_, v)) => DHCPOption::MessageType(DHCPMessageType(v)),
                Err(_) => {
                    return Err(ParseError::InvalidMessageType);
                },
            }
        },
        54 => {
            if opt.l != 4 {
                return Err(invalid_length(opt.t, 4, opt.l));
            }
            let (_, addr) = parse_addr_v4(opt.v)?;
            DHCPOption::ServerIdentifier(addr)
        },
        55 => {
            if opt.l < 1 {
                return Err(invalid_length(opt.t, 1, opt.l));
            }
            DHCPOption::ParameterRequestList(DHCPParameterRequest(opt.v))
        },
        56 => {
            if opt.l < 1 {
                return Err(invalid_length(opt.t, 1, opt.l));
            }
            DHCPOption::Message(opt.v)
        },
        57 => {
            if opt.l != 2 {
                return Err(invalid_length(opt.t, 2, opt.l));
            }
            let (_, v) = read_be_u16(opt.v)?;
            DHCPOption::MaximumSize(v)
        },
        58 => {
            if opt.l != 4 {
                return Err(invalid_length(opt.t, 4, opt.l));
            }
            let (_, v) = read_be_u32(opt.v)?;
            DHCPOption::Renewal(v)
        },
        59 => {
            if opt.l != 4 {
                return Err(invalid_length(opt.t, 4, opt.l));
            }
            let (_, v) = read_be_u32(opt.v)?;
            DHCPOption::Rebinding(v)
        },
        60 => DHCPOption::ClassIdentifier(opt.v),
        61 => {
            if opt.l < 2 {
                return Err(invalid_length(opt.t, 2, opt.l));
            }
            DHCPOption::ClientIdentifier(opt.v)
        },
        255 => {
            if opt.l != 0 {
                return Err(invalid_length(opt.t, 0, opt.l));
            }
            DHCPOption::End
        },
        _ => DHCPOption::Generic(opt),
    };
    Ok(opt)
}

/// The record at the front of `s`: a tag byte, a length byte, and as many
/// value bytes as the length byte says; with it, what follows the record.
pub open spec fn spec_parse_generic_option(s: Seq<u8>) -> Result<
    (Seq<u8>, GenericOptionView),
    ParseError,
> {
    if s.len() < 2 || s.len() < 2 + s[1] {
        Err(ParseError::Truncated)
    } else {
        Ok((s.skip(2 + s[1]), GenericOptionView { t: s[0], l: s[1], v: s.subrange(2, 2 + s[1]) }))
    }
}

/// The option at the front of `s`, and what follows it. Pad and End are one
/// byte each; every other option is a record.
pub open spec fn spec_parse_option(s: Seq<u8>) -> Result<(Seq<u8>, OptionView), ParseError> {
    if s.len() < 1 {
        Err(ParseError::Truncated)
    } else if s[0] == 0 {
        Ok((s.skip(1), OptionView::Pad))
    } else if s[0] == 255 {
        Ok((s.skip(1), OptionView::End))
    } else {
        match spec_parse_generic_option(s) {
            Ok((rest, g)) => match spec_convert_generic_option(g) {
                Ok(o) => Ok((rest, o)),
                Err(e) => Err(e),
            },
            Err(e) => Err(e),
        }
    }
}

/// `r` with `prefix` put before its options.
pub open spec fn prepend_options(
    prefix: Seq<OptionView>,
    r: Result<(Seq<u8>, Seq<OptionView>), ParseError>,
) -> Result<(Seq<u8>, Seq<OptionView>), ParseError> {
    match r {
        Ok((rest, options)) => Ok((rest, prefix + options)),
        Err(e) => Err(e),
    }
}

/// The options at the front of `s`, up to the first End and with it, and
/// what follows that End. An option that does not decode fails the list
/// with its own error; where the bytes run out at the start of an option,
/// the End is missing.
pub open spec fn spec_parse_options(s: Seq<u8>) -> Result<(Seq<u8>, Seq<OptionView>), ParseError>
    decreases s.len(),
{
    if s.len() == 0 {
        Err(ParseError::MissingEndOption)
    } else {
        match spec_parse_option(s) {
            Ok((rest, o)) => if o is End {
                Ok((rest, seq![o]))
            } else {
                prepend_options(seq![o], spec_parse_options(rest))
            },
            Err(e) => Err(e),
        }
    }
}

/// The message whose fixed-layout header is the first 240 bytes of `s`, with
/// the options given.
pub open spec fn spec_header(s: Seq<u8>, options: Seq<OptionView>) -> MessageView
    recommends
        s.len() >= 240,
{
    MessageView {
        op: s[0],
        htype: s[1],
        hlen: s[2],
        hops: s[3],
        xid: spec_be_u32(s.subrange(4, 8)),
        secs: spec_be_u16(s.subrange(8, 10)),
        flags: spec_be_u16(s.subrange(10, 12)),
        ciaddr: spec_addr_v4(s.subrange(12, 16)),
        yiaddr: spec_addr_v4(s.subrange(16, 20)),
        siaddr: spec_addr_v4(s.subrange(20, 24)),
        giaddr: spec_addr_v4(s.subrange(24, 28)),
        chaddr: s.subrange(28, 44),
        sname: s.subrange(44, 108),
        file: s.subrange(108, 236),
        magic: s.subrange(236, 240),
        options,
    }
}

/// The message that `s` encodes, and what follows it: a header of 240
/// bytes, the options up to the first End, and the zero bytes after that
/// End, which are padding and belong to the message.
pub open spec fn spec_parse_message(s: Seq<u8>) -> Result<(Seq<u8>, MessageView), ParseError> {
    if s.len() < 240 {
        Err(ParseError::Truncated)
    } else {
        match spec_parse_options(s.skip(240)) {
            Ok((rest, options)) => Ok((spec_skip_zeros(rest), spec_header(s, options))),
            Err(e) => Err(e),
        }
    }
}

/// Reads one tag-length-value record.
pub fn parse_generic_option<'a>(i: &'a [u8]) -> (r: Result<
    (&'a [u8], DHCPGenericOption<'a>),
    ParseError,
>)
    ensures
        match spec_parse_generic_option(i@) {
            Ok((rest, g)) => r matches Ok((r_rest, r_g)) && r_rest@ == rest && r_g@ == g,
            Err(e) => r matches Err(re) && re == e,
        },
{
    let (i1, t) = read_u8(i)?;
    let (i2, l) = read_u8(i1)?;
    let (i3, v) = take_bytes(i2, l as usize)?;
    assert(i3@ =~= i@.skip(2 + l));
    assert(v@ =~= i@.subrange(2, 2 + l));
    Ok((i3, DHCPGenericOption { t, l, v }))
}

/// Reads one option.
pub fn parse_option<'a>(i: &'a [u8]) -> (r: Result<(&'a [u8], DHCPOption<'a>), ParseError>)
    ensures
        match spec_parse_option(i@) {
            Ok((rest, o)) => r matches Ok((r_rest, r_o)) && r_rest@ == rest && r_o@ == o,
            Err(e) => r matches Err(re) && re == e,
        },
{
    let (rest, tag) = read_u8(i)?;
    if tag == 0 {
        return Ok((rest, DHCPOption::Pad));
    }
    if tag == 255 {
        return Ok((rest, DHCPOption::End));
    }
    let (rest, opt) = parse_generic_option(i)?;
    let opt = convert_generic_option(opt)?;
    Ok((rest, opt))
}

/// Reads options up to the first End, which is the last one returned.
pub fn parse_options<'a>(i: &'a [u8]) -> (r: Result<(&'a [u8], Vec<DHCPOption<'a>>), ParseError>)
    ensures
        match spec_parse_options(i@) {
            Ok((rest, options)) => r matches Ok((r_rest, r_options)) && r_rest@ == rest
                && options_view(r_options@) == options,
            Err(e) => r matches Err(re) && re == e,
        },
{
    let mut acc: Vec<DHCPOption<'a>> = Vec::new();
    let mut cur = i;
    assert(options_view(acc@) + seq![OptionView::End] =~= seq![OptionView::End]);
    loop
        invariant
            spec_parse_options(i@) == prepend_options(
                options_view(acc@),
                spec_parse_options(cur@),
            ),
        decreases cur@.len(),
    {
        if cur.len() == 0 {
            return Err(ParseError::MissingEndOption);
        }
        let ghost before = options_view(acc@);
        let (rem, opt) = parse_option(cur)?;
        acc.push(opt);
        assert(options_view(acc@) =~= before + seq![opt@]);
        if let DHCPOption::End = opt {
            return Ok((rem, acc));
        }
        proof {
            match spec_parse_options(rem@) {
                Ok((_, options)) => {
                    assert(before + (seq![opt@] + options) =~= (before + seq![opt@]) + options);
                },
                Err(_) => {},
            }
        }
        cur = rem;
    }
}

/// Consumes the zero bytes that pad a message after its End option. This
/// never fails.
pub fn parse_padding<'a>(i: &'a [u8]) -> (r: Result<(&'a [u8], ()), ParseError>)
    ensures
        r matches Ok((rest, _)) && rest@ == spec_skip_zeros(i@),
{
    match nom_many0_zero(i) {
        Ok((rem, _)) => Ok((rem, ())),
        Err(_) => Err(ParseError::Truncated),
    }
}

/// Parse a DHCP message
pub fn parse_dhcp_message<'a>(i: &'a [u8]) -> (r: Result<(&'a [u8], DHCPMessage<'a>), ParseError>)
    ensures
        match spec_parse_message(i@) {
            Ok((rest, m)) => r matches Ok((r_rest, r_m)) && r_rest@ == rest && r_m@ == m
                && r_m.wf(),
            Err(e) => r matches Err(re) && re == e,
        },
{
    let (i1, op) = read_u8(i)?;
    let (i2, htype) = read_u8(i1)?;
    let (i3, hlen) = read_u8(i2)?;
    let (i4, hops) = read_u8(i3)?;
    assert(i4@ =~= i@.skip(4));
    let (i5, xid) = read_be_u32(i4)?;
    assert(i5@ =~= i@.skip(8));
    let (i6, secs) = read_be_u16(i5)?;
    assert(i6@ =~= i@.skip(10));
    let (i7, flags) = read_be_u16(i6)?;
    assert(i7@ =~= i@.skip(12));
    let (i8, ciaddr) = parse_addr_v4(i7)?;
    assert(i8@ =~= i@.skip(16));
    let (i9, yiaddr) = parse_addr_v4(i8)?;
    assert(i9@ =~= i@.skip(20));
    let (i10, siaddr) = parse_addr_v4(i9)?;
    assert(i10@ =~= i@.skip(24));
    let (i11, giaddr) = parse_addr_v4(i10)?;
    assert(i11@ =~= i@.skip(28));
    let (i12, chaddr) = take_bytes(i11, 16)?;
    assert(i12@ =~= i@.skip(44));
    assert(chaddr@ =~= i@.subrange(28, 44));
    let (i13, sname) = take_bytes(i12, 64)?;
    assert(i13@ =~= i@.skip(108));
    assert(sname@ =~= i@.subrange(44, 108));
    let (i14, file) = take_bytes(i13, 128)?;
    assert(i14@ =~= i@.skip(236));
    assert(file@ =~= i@.subrange(108, 236));
    // options
    let (i15, magic) = take_bytes(i14, 4)?;
    assert(i15@ =~= i@.skip(240));
    assert(magic@ =~= i@.subrange(236, 240));
    let (i16, options) = parse_options(i15)?;
    // padding
    let (rest, _padding) = parse_padding(i16)?;
    let msg = DHCPMessage {
        op,
        htype,
        hlen,
        hops,
        xid,
        secs,
        flags,
        ciaddr,
        yiaddr,
        siaddr,
        giaddr,
        chaddr: slice_to_vec(chaddr),
        sname,
        file,
        magic: slice_to_vec(magic),
        options,
    };
    assert(msg@ =~= spec_header(i@, options_view(options@)));
    Ok((rest, msg))
}

} // verus!
