//! What holds of every buffer and every state, proved from the definitions
//! that the decoder and the state machine are specified by.

use crate::addr::Ipv4Address;
use crate::dhcp::{spec_message_type, MessageView};
use crate::dhcp_options::{is_known_tag, GenericOptionView, OptionView};
use crate::error::ParseError;
use crate::parser::{
    expected_length, length_allowed, spec_convert_generic_option, spec_parse_generic_option,
    spec_parse_message, spec_parse_option, spec_parse_options,
};
use crate::reader::{spec_be_u16, spec_be_u32};
use crate::state::{spec_next, DHCPClientState};
use vstd::prelude::*;

verus! {

/// The two bytes that encode `v` in big-endian order.
pub open spec fn spec_u16_bytes(v: u16) -> Seq<u8> {
    seq![(v / 0x100) as u8, (v % 0x100) as u8]
}

/// The four bytes that encode `v` in big-endian order.
pub open spec fn spec_u32_bytes(v: u32) -> Seq<u8> {
    seq![
        (v / 0x100_0000) as u8,
        (v / 0x1_0000 % 0x100) as u8,
        (v / 0x100 % 0x100) as u8,
        (v % 0x100) as u8,
    ]
}

/// The four bytes that encode an address in network order.
pub open spec fn spec_addr_bytes(a: Ipv4Address) -> Seq<u8> {
    seq![a.0, a.1, a.2, a.3]
}

/// The fixed-layout header that encodes the fields of `m`.
pub open spec fn spec_header_bytes(m: MessageView) -> Seq<u8> {
    seq![m.op, m.htype, m.hlen, m.hops] + spec_u32_bytes(m.xid) + spec_u16_bytes(m.secs)
        + spec_u16_bytes(m.flags) + spec_addr_bytes(m.ciaddr) + spec_addr_bytes(m.yiaddr)
        + spec_addr_bytes(m.siaddr) + spec_addr_bytes(m.giaddr) + m.chaddr + m.sname + m.file
        + m.magic
}

/// Whether an option starts `k` bytes into `s`: the bytes before it are
/// whole options, none of them End.
pub open spec fn option_boundary(s: Seq<u8>, k: int) -> bool
    decreases s.len(),
{
    k == 0 || match spec_parse_option(s) {
        Ok((rest, o)) => !(o is End) && s.len() - rest.len() <= k && option_boundary(
            rest,
            k - (s.len() - rest.len()),
        ),
        Err(_) => false,
    }
}

/// How many options stand before the boundary `k` of `s`.
pub open spec fn options_before(s: Seq<u8>, k: int) -> nat
    decreases s.len(),
{
    if k <= 0 {
        0
    } else {
        match spec_parse_option(s) {
            Ok((rest, o)) => if s.len() - rest.len() <= k {
                1 + options_before(rest, k - (s.len() - rest.len()))
            } else {
                0
            },
            Err(_) => 0,
        }
    }
}

/// A buffer of at least 240 bytes whose option stream is well formed
/// decodes, and the header of the decoded message is the first 240 bytes of
/// the buffer: each field is the bytes at its offset, and encoding the
/// fields again gives those 240 bytes back.
pub proof fn lemma_well_formed_message_decodes(s: Seq<u8>)
    requires
        s.len() >= 240,
        spec_parse_options(s.skip(240)) is Ok,
    ensures
        spec_parse_message(s) matches Ok((_, m)) && {
            &&& m.wf()
            &&& m.op == s[0]
            &&& m.htype == s[1]
            &&& m.hlen == s[2]
            &&& m.hops == s[3]
            &&& spec_u32_bytes(m.xid) == s.subrange(4, 8)
            &&& spec_u16_bytes(m.secs) == s.subrange(8, 10)
            &&& spec_u16_bytes(m.flags) == s.subrange(10, 12)
            &&& spec_addr_bytes(m.ciaddr) == s.subrange(12, 16)
            &&& spec_addr_bytes(m.yiaddr) == s.subrange(16, 20)
            &&& spec_addr_bytes(m.siaddr) == s.subrange(20, 24)
            &&& spec_addr_bytes(m.giaddr) == s.subrange(24, 28)
            &&& m.chaddr == s.subrange(28, 44)
            &&& m.sname == s.subrange(44, 108)
            &&& m.file == s.subrange(108, 236)
            &&& m.magic == s.subrange(236, 240)
            &&& spec_header_bytes(m) == s.take(240)
        },
{
    let m = spec_parse_message(s)->Ok_0.1;
    lemma_u32_bytes_of_be_u32(s.subrange(4, 8));
    lemma_u16_bytes_of_be_u16(s.subrange(8, 10));
    lemma_u16_bytes_of_be_u16(s.subrange(10, 12));
    assert(s.subrange(4, 8).take(4) =~= s.subrange(4, 8));
    assert(s.subrange(8, 10).take(2) =~= s.subrange(8, 10));
    assert(s.subrange(10, 12).take(2) =~= s.subrange(10, 12));
    assert(spec_addr_bytes(m.ciaddr) =~= s.subrange(12, 16));
    assert(spec_addr_bytes(m.yiaddr) =~= s.subrange(16, 20));
    assert(spec_addr_bytes(m.siaddr) =~= s.subrange(20, 24));
    assert(spec_addr_bytes(m.giaddr) =~= s.subrange(24, 28));
    let h = seq![m.op, m.htype, m.hlen, m.hops];
    assert(h =~= s.subrange(0, 4));
    lemma_subrange_join(s, 4, 8);
    lemma_subrange_join(s, 8, 10);
    lemma_subrange_join(s, 10, 12);
    lemma_subrange_join(s, 12, 16);
    lemma_subrange_join(s, 16, 20);
    lemma_subrange_join(s, 20, 24);
    lemma_subrange_join(s, 24, 28);
    lemma_subrange_join(s, 28, 44);
    lemma_subrange_join(s, 44, 108);
    lemma_subrange_join(s, 108, 236);
    lemma_subrange_join(s, 236, 240);
    assert(s.subrange(0, 240) =~= s.take(240));
}

proof fn lemma_subrange_join(s: Seq<u8>, a: int, b: int)
    requires
        0 <= a <= b <= s.len(),
    ensures
        s.subrange(0, a) + s.subrange(a, b) == s.subrange(0, b),
{
    assert(s.subrange(0, a) + s.subrange(a, b) =~= s.subrange(0, b));
}

/// Encoding the number that two bytes decode to gives the two bytes back.
pub proof fn lemma_u16_bytes_of_be_u16(s: Seq<u8>)
    requires
        s.len() >= 2,
    ensures
        spec_u16_bytes(spec_be_u16(s)) == s.take(2),
{
    assert(spec_u16_bytes(spec_be_u16(s)) =~= s.take(2));
}

/// Encoding the number that four bytes decode to gives the four bytes back.
pub proof fn lemma_u32_bytes_of_be_u32(s: Seq<u8>)
    requires
        s.len() >= 4,
    ensures
        spec_u32_bytes(spec_be_u32(s)) == s.take(4),
{
    let v = spec_be_u32(s);
    let (a, b, c, d) = (s[0], s[1], s[2], s[3]);
    assert(v == a * 0x100_0000 + b * 0x1_0000 + c * 0x100 + d);
    assert(v / 0x100_0000 == a && v / 0x1_0000 % 0x100 == b && v / 0x100 % 0x100 == c && v % 0x100
        == d) by (bit_vector)
        requires
            v == a * 0x100_0000 + b * 0x1_0000 + c * 0x100 + d,
    ;
    assert(spec_u32_bytes(v) =~= s.take(4));
}

/// A buffer shorter than 240 bytes is rejected as truncated.
pub proof fn lemma_short_buffer_is_truncated(s: Seq<u8>)
    requires
        s.len() < 240,
    ensures
        spec_parse_message(s) == Err::<(Seq<u8>, MessageView), ParseError>(ParseError::Truncated),
{
}

/// The subnet mask, the requested address and the server identifier are
/// four bytes long: a record of one of these tags that declares another
/// length is rejected, whatever its value.
pub proof fn lemma_address_option_needs_four_bytes(g: GenericOptionView)
    requires
        g.t == 1 || g.t == 50 || g.t == 54,
        g.l != 4,
    ensures
        spec_convert_generic_option(g) == Err::<OptionView, ParseError>(
            ParseError::InvalidOptionLength { tag: g.t, expected: 4, actual: g.l },
        ),
{
}

/// The three time values are four bytes long, the maximum message size two,
/// the overload flag and the message type one: a record of one of these
/// tags that declares another length is rejected, whatever its value.
pub proof fn lemma_number_option_needs_its_width(g: GenericOptionView)
    requires
        g.t == 51 || g.t == 58 || g.t == 59 || g.t == 57 || g.t == 52 || g.t == 53,
        g.l != expected_length(g.t),
    ensures
        expected_length(g.t) == (if g.t == 57 {
            2u8
        } else if g.t == 52 || g.t == 53 {
            1u8
        } else {
            4u8
        }),
        spec_convert_generic_option(g) == Err::<OptionView, ParseError>(
            ParseError::InvalidOptionLength {
                tag: g.t,
                expected: expected_length(g.t),
                actual: g.l,
            },
        ),
{
}

/// A record with a tag that has no typed option decodes to the generic
/// option of that tag, length and value, whatever the length.
pub proof fn lemma_unknown_tag_is_generic(g: GenericOptionView)
    requires
        !is_known_tag(g.t),
    ensures
        spec_convert_generic_option(g) == Ok::<OptionView, ParseError>(OptionView::Generic(g)),
{
}

/// In a buffer, a whole record with a tag that has no typed option is
/// never an error: it decodes to the generic option that holds the tag,
/// the declared length and the value bytes.
pub proof fn lemma_unknown_option_decodes(s: Seq<u8>)
    requires
        s.len() >= 2,
        !is_known_tag(s[0]),
        s.len() >= 2 + s[1],
    ensures
        spec_parse_option(s) == Ok::<(Seq<u8>, OptionView), ParseError>(
            (
                s.skip(2 + s[1]),
                OptionView::Generic(
                    GenericOptionView { t: s[0], l: s[1], v: s.subrange(2, 2 + s[1]) },
                ),
            ),
        ),
{
}

/// A decoded option reports the tag that it was decoded from and is well
/// formed; it takes at least one byte, and what follows it is the end of
/// the buffer that it was decoded from. A record read from a buffer never
/// lacks the byte of a message type.
pub proof fn lemma_option_keeps_its_tag(s: Seq<u8>)
    ensures
        match spec_parse_option(s) {
            Ok((rest, o)) => {
                &&& o.tag() == s[0]
                &&& o.wf()
                &&& rest.len() < s.len()
                &&& rest == s.skip(s.len() - rest.len())
            },
            Err(e) => e != ParseError::InvalidMessageType && e != ParseError::MissingEndOption,
        },
{
    if s.len() >= 1 && s[0] != 0 && s[0] != 255 {
        if let Ok((rest, g)) = spec_parse_generic_option(s) {
            assert(g.v.len() == g.l);
        }
    }
}

/// In a buffer, a whole record that declares a length that its tag does
/// not allow is rejected; the error names the tag, the length that the tag
/// requires and the length declared.
pub proof fn lemma_disallowed_length_is_rejected(s: Seq<u8>)
    requires
        s.len() >= 2,
        s[0] != 0 && s[0] != 255,
        s.len() >= 2 + s[1],
        !length_allowed(s[0], s[1]),
    ensures
        spec_parse_option(s) == Err::<(Seq<u8>, OptionView), ParseError>(
            ParseError::InvalidOptionLength {
                tag: s[0],
                expected: expected_length(s[0]),
                actual: s[1],
            },
        ),
{
}

/// Where the options of a buffer run up to an option that does not decode,
/// the option stream fails with the error of that option; where they run
/// up to the end of the buffer, it fails for want of an End.
pub proof fn lemma_options_fail_at_boundary(s: Seq<u8>, k: int)
    requires
        option_boundary(s, k),
    ensures
        0 <= k <= s.len(),
        k == s.len() ==> spec_parse_options(s) == Err::<(Seq<u8>, Seq<OptionView>), ParseError>(
            ParseError::MissingEndOption,
        ),
        k < s.len() ==> (spec_parse_option(s.skip(k)) matches Err(e) ==> spec_parse_options(s)
            == Err::<(Seq<u8>, Seq<OptionView>), ParseError>(e)),
    decreases s.len(),
{
    if k == 0 {
        assert(s.skip(0) =~= s);
    } else {
        lemma_option_keeps_its_tag(s);
        let (rest, o) = spec_parse_option(s)->Ok_0;
        let n = s.len() - rest.len();
        lemma_options_fail_at_boundary(rest, k - n);
        assert(rest.skip(k - n) =~= s.skip(k));
    }
}

/// An option stream that lacks an End before the buffer runs out fails
/// with `MissingEndOption`: so where whole options other than End fill the
/// buffer to its last byte.
pub proof fn lemma_missing_end(s: Seq<u8>)
    requires
        option_boundary(s, s.len() as int),
    ensures
        spec_parse_options(s) == Err::<(Seq<u8>, Seq<OptionView>), ParseError>(
            ParseError::MissingEndOption,
        ),
{
    lemma_options_fail_at_boundary(s, s.len() as int);
}

/// The same of a whole message: a header followed by whole options other
/// than End up to the last byte is rejected with `MissingEndOption`.
pub proof fn lemma_message_missing_end(s: Seq<u8>)
    requires
        s.len() >= 240,
        option_boundary(s.skip(240), s.len() - 240),
    ensures
        spec_parse_message(s) == Err::<(Seq<u8>, MessageView), ParseError>(
            ParseError::MissingEndOption,
        ),
{
    lemma_missing_end(s.skip(240));
}

/// A message is rejected with `InvalidOptionLength` where its options run
/// up to a whole record that declares a length that its tag does not
/// allow; the error names the tag, the length that the tag requires and
/// the length declared.
pub proof fn lemma_message_rejects_disallowed_length(s: Seq<u8>, k: int)
    requires
        s.len() >= 240,
        option_boundary(s.skip(240), k),
        240 + k + 2 <= s.len(),
        s[240 + k] != 0 && s[240 + k] != 255,
        240 + k + 2 + s[240 + k + 1] <= s.len(),
        !length_allowed(s[240 + k], s[240 + k + 1]),
    ensures
        spec_parse_message(s) == Err::<(Seq<u8>, MessageView), ParseError>(
            ParseError::InvalidOptionLength {
                tag: s[240 + k],
                expected: expected_length(s[240 + k]),
                actual: s[240 + k + 1],
            },
        ),
{
    lemma_options_fail_at_boundary(s.skip(240), k);
    let at = s.skip(240).skip(k);
    assert(at[0] == s[240 + k]);
    assert(at[1] == s[240 + k + 1]);
}

/// The options come out in the order in which they stand in the buffer:
/// the option that starts at a boundary is the one at the index that counts
/// the options before that boundary, and a later boundary has the higher
/// index.
pub proof fn lemma_option_order_is_preserved(s: Seq<u8>, k: int)
    requires
        option_boundary(s, k),
        spec_parse_options(s) is Ok,
    ensures
        spec_parse_options(s) matches Ok((_, options)) && spec_parse_option(s.skip(k)) matches Ok(
            (_, o),
        ) && options_before(s, k) < options.len() && options[options_before(s, k) as int] == o,
        forall|j: int|
            0 <= j < k && option_boundary(s, j) ==> options_before(s, j) < options_before(s, k),
    decreases s.len(),
{
    if k == 0 {
        assert(s.skip(0) =~= s);
    } else {
        lemma_option_keeps_its_tag(s);
        let (rest, o) = spec_parse_option(s)->Ok_0;
        let n = s.len() - rest.len();
        lemma_options_fail_at_boundary(s, k);
        lemma_option_order_is_preserved(rest, k - n);
        assert(rest.skip(k - n) =~= s.skip(k));
        assert forall|j: int| 0 <= j < k && option_boundary(s, j) implies options_before(s, j)
            < options_before(s, k) by {
            if j > 0 {
                assert(option_boundary(rest, j - n));
            }
        }
    }
}

/// The list of decoded options ends with End and holds no other End.
pub proof fn lemma_end_is_last(s: Seq<u8>)
    requires
        spec_parse_options(s) is Ok,
    ensures
        spec_parse_options(s) matches Ok((rest, options)) && {
            &&& options.len() >= 1
            &&& options.last() is End
            &&& forall|j: int| 0 <= j < options.len() - 1 ==> !(options[j] is End)
            &&& rest.len() < s.len()
        },
    decreases s.len(),
{
    lemma_option_keeps_its_tag(s);
    let (rest, o) = spec_parse_option(s)->Ok_0;
    if !(o is End) {
        lemma_end_is_last(rest);
    }
}

/// Every decoded option is well formed, so the options with the tag of
/// the message type are the message-type options.
pub proof fn lemma_decoded_options_are_well_formed(s: Seq<u8>)
    requires
        spec_parse_options(s) is Ok,
    ensures
        spec_parse_options(s) matches Ok((_, options)) && forall|j: int|
            0 <= j < options.len() ==> (#[trigger] options[j]).wf() && (options[j].tag() == 53
                <==> options[j] is MessageType),
    decreases s.len(),
{
    lemma_option_keeps_its_tag(s);
    let (rest, o) = spec_parse_option(s)->Ok_0;
    if !(o is End) {
        lemma_decoded_options_are_well_formed(rest);
    }
}

/// `Error` is absorbing: no message leads out of it.
pub proof fn lemma_error_is_absorbing(m: MessageView)
    ensures
        spec_next(DHCPClientState::Error, spec_message_type(m.options)) == DHCPClientState::Error,
{
}

/// A message without a message-type option leads to `Error` from every
/// state.
pub proof fn lemma_no_message_type_is_error(state: DHCPClientState, m: MessageView)
    requires
        forall|j: int| 0 <= j < m.options.len() ==> !(m.options[j] is MessageType),
    ensures
        spec_message_type(m.options) is None,
        spec_next(state, spec_message_type(m.options)) == DHCPClientState::Error,
{
    lemma_message_type_is_first(m.options);
}

/// The message type of a list of options is that of the first message-type
/// option in it, and there is none where the list holds no such option.
pub proof fn lemma_message_type_is_first(options: Seq<OptionView>)
    ensures
        match spec_message_type(options) {
            Some(t) => exists|k: int|
                0 <= k < options.len() && options[k] == OptionView::MessageType(t) && forall|j: int|
                    0 <= j < k ==> !(#[trigger] options[j] is MessageType),
            None => forall|j: int|
                0 <= j < options.len() ==> !(#[trigger] options[j] is MessageType),
        },
    decreases options.len(),
{
    if options.len() > 0 && !(options[0] is MessageType) {
        let tail = options.skip(1);
        lemma_message_type_is_first(tail);
        match spec_message_type(tail) {
            Some(t) => {
                let k = choose|k: int|
                    0 <= k < tail.len() && tail[k] == OptionView::MessageType(t) && forall|j: int|
                        0 <= j < k ==> !(#[trigger] tail[j] is MessageType);
                assert(options[k + 1] == tail[k]);
                assert forall|j: int| 0 <= j < k + 1 implies !(#[trigger] options[j]
                    is MessageType) by {
                    if j > 0 {
                        assert(options[j] == tail[j - 1]);
                    }
                }
            },
            None => {
                assert forall|j: int| 0 <= j < options.len() implies !(#[trigger] options[j]
                    is MessageType) by {
                    if j > 0 {
                        assert(options[j] == tail[j - 1]);
                    }
                }
            },
        }
    } else if options.len() > 0 {
        assert(options[0] == OptionView::MessageType(options[0]->MessageType_0));
    }
}

} // verus!
