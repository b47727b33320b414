//! Fixed-width reads from the front of a buffer.
//!
//! The reads themselves are nom's; this module gives each of them a contract
//! and turns nom's error into [`ParseError::Truncated`].

use crate::error::ParseError;
use vstd::prelude::*;

verus! {

/// `nom::Err`, the error of every nom parser. Nothing is read from it: a
/// failed read is reported as [`ParseError::Truncated`].
#[verifier::external_type_specification]
#[verifier::external_body]
#[verifier::reject_recursive_types(E)]
pub struct ExNomErr<E>(nom::Err<E>);

/// `nom::error::ErrorKind`, which `nom::Err` carries here beside the input.
#[verifier::external_type_specification]
#[verifier::external_body]
pub struct ExNomErrorKind(nom::error::ErrorKind);

/// The 16-bit value whose big-endian encoding is the first two bytes of `s`.
pub open spec fn spec_be_u16(s: Seq<u8>) -> u16
    recommends
        s.len() >= 2,
{
    (s[0] as int * 0x100 + s[1] as int) as u16
}

/// The 32-bit value whose big-endian encoding is the first four bytes of `s`.
pub open spec fn spec_be_u32(s: Seq<u8>) -> u32
    recommends
        s.len() >= 4,
{
    (s[0] as int * 0x100_0000 + s[1] as int * 0x1_0000 + s[2] as int * 0x100 + s[3] as int) as u32
}

/// `s` without its leading zero bytes.
pub open spec fn spec_skip_zeros(s: Seq<u8>) -> Seq<u8>
    decreases s.len(),
{
    if s.len() > 0 && s[0] == 0 {
        spec_skip_zeros(s.skip(1))
    } else {
        s
    }
}

/// `nom::number::complete::be_u8`: fails on an empty input; otherwise returns
/// the first byte and the input after it.
#[verifier::external_body]
fn nom_be_u8<'a>(i: &'a [u8]) -> (r: Result<
    (&'a [u8], u8),
    nom::Err<(&'a [u8], nom::error::ErrorKind)>,
>)
    ensures
        r is Ok <==> i@.len() >= 1,
        r matches Ok((rest, v)) ==> rest@ == i@.skip(1) && v == i@[0],
{
    nom::number::complete::be_u8(i)
}

/// `nom::number::complete::be_u16`: fails on fewer than two bytes; otherwise
/// returns the first two bytes read as a big-endian number and the input
/// after them.
#[verifier::external_body]
fn nom_be_u16<'a>(i: &'a [u8]) -> (r: Result<
    (&'a [u8], u16),
    nom::Err<(&'a [u8], nom::error::ErrorKind)>,
>)
    ensures
        r is Ok <==> i@.len() >= 2,
        r matches Ok((rest, v)) ==> rest@ == i@.skip(2) && v == spec_be_u16(i@),
{
    nom::number::complete::be_u16(i)
}

/// `nom::number::complete::be_u32`: fails on fewer than four bytes; otherwise
/// returns the first four bytes read as a big-endian number and the input
/// after them.
#[verifier::external_body]
fn nom_be_u32<'a>(i: &'a [u8]) -> (r: Result<
    (&'a [u8], u32),
    nom::Err<(&'a [u8], nom::error::ErrorKind)>,
>)
    ensures
        r is Ok <==> i@.len() >= 4,
        r matches Ok((rest, v)) ==> rest@ == i@.skip(4) && v == spec_be_u32(i@),
{
    nom::number::complete::be_u32(i)
}

/// `nom::bytes::complete::take`: fails when the input is shorter than
/// `count`; otherwise splits the input after `count` bytes and returns the
/// tail first, the head second.
#[verifier::external_body]
fn nom_take<'a>(count: usize, i: &'a [u8]) -> (r: Result<
    (&'a [u8], &'a [u8]),
    nom::Err<(&'a [u8], nom::error::ErrorKind)>,
>)
    ensures
        r is Ok <==> i@.len() >= count,
        r matches Ok((rest, head)) ==> rest@ == i@.skip(count as int) && head@ == i@.take(
            count as int,
        ),
{
    nom::bytes::complete::take(count)(i)
}

/// `nom::multi::many0` over `nom::bytes::complete::tag` of one zero byte:
/// `tag` takes one zero byte off the front and fails, recoverably, on any
/// other byte and on an empty input; `many0` repeats it until that failure,
/// which it turns into success. So the call never fails, and returns the
/// input after its leading zero bytes, with the bytes that matched.
#[verifier::external_body]
pub(crate) fn nom_many0_zero<'a>(i: &'a [u8]) -> (r: Result<
    (&'a [u8], Vec<&'a [u8]>),
    nom::Err<(&'a [u8], nom::error::ErrorKind)>,
>)
    ensures
        r is Ok,
        r matches Ok((rest, zeros)) ==> rest@ == spec_skip_zeros(i@),
{
    nom::multi::many0(nom::bytes::complete::tag(b"\x00"))(i)
}

/// Reads one byte.
pub fn read_u8<'a>(i: &'a [u8]) -> (r: Result<(&'a [u8], u8), ParseError>)
    ensures
        match r {
            Ok((rest, v)) => i@.len() >= 1 && rest@ == i@.skip(1) && v == i@[0],
            Err(e) => i@.len() < 1 && e == ParseError::Truncated,
        },
{
    match nom_be_u8(i) {
        Ok(pair) => Ok(pair),
        Err(_) => Err(ParseError::Truncated),
    }
}

/// Reads a 16-bit big-endian number.
pub fn read_be_u16<'a>(i: &'a [u8]) -> (r: Result<(&'a [u8], u16), ParseError>)
    ensures
        match r {
            Ok((rest, v)) => i@.len() >= 2 && rest@ == i@.skip(2) && v == spec_be_u16(i@),
            Err(e) => i@.len() < 2 && e == ParseError::Truncated,
        },
{
    match nom_be_u16(i) {
        Ok(pair) => Ok(pair),
        Err(_) => Err(ParseError::Truncated),
    }
}

/// Reads a 32-bit big-endian number.
pub fn read_be_u32<'a>(i: &'a [u8]) -> (r: Result<(&'a [u8], u32), ParseError>)
    ensures
        match r {
            Ok((rest, v)) => i@.len() >= 4 && rest@ == i@.skip(4) && v == spec_be_u32(i@),
            Err(e) => i@.len() < 4 && e == ParseError::Truncated,
        },
{
    match nom_be_u32(i) {
        Ok(pair) => Ok(pair),
        Err(_) => Err(ParseError::Truncated),
    }
}

/// Splits off the first `count` bytes. The span returned borrows from `i`.
pub fn take_bytes<'a>(i: &'a [u8], count: usize) -> (r: Result<(&'a [u8], &'a [u8]), ParseError>)
    ensures
        match r {
            Ok((rest, head)) => i@.len() >= count && rest@ == i@.skip(count as int) && head@
                == i@.take(count as int),
            Err(e) => i@.len() < count && e == ParseError::Truncated,
        },
{
    match nom_take(count, i) {
        Ok(pair) => Ok(pair),
        Err(_) => Err(ParseError::Truncated),
    }
}

} // verus!
