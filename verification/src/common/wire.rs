//! The primitives of the wire format: little-endian integers without
//! padding, strings as a 32-bit byte length followed by UTF-8, optional
//! reals as a presence byte followed by the bit pattern, enumerated values
//! as 32-bit codes.
//!
//! Each primitive has a layout `put_*`, which places the field in front of
//! what follows it, and a parser `take_*`, which splits the field off the
//! front of the input. A parser undoes its layout whatever follows the
//! field ([`group_take_put`]). The writers `write_*` and readers `read_*`
//! compute what layouts and parsers say.

use vstd::prelude::*;
use vstd::bytes::{
    lemma_auto_spec_u32_to_from_le_bytes, lemma_auto_spec_u64_to_from_le_bytes,
    spec_u32_from_le_bytes, spec_u32_to_le_bytes, spec_u64_from_le_bytes, spec_u64_to_le_bytes,
    u32_from_le_bytes, u32_to_le_bytes, u64_from_le_bytes, u64_to_le_bytes,
};
use vstd::slice::{slice_subrange, slice_to_vec};
use vstd::utf8::{
    decode_utf8, encode_utf8, encode_utf8_decode_utf8, encode_utf8_valid_utf8, valid_utf8,
};
use crate::common::calendar::{calendar_accepts, timestamp_in_range};
use crate::common::text::string_from_utf8;
use crate::common::types::{
    Exchange, FundingDirection, OrderResponseStatus, OrderType, Real, RiskLevel, Side, Symbol,
    TriggerType,
};

verus! {

/// The field of a message whose numeric code was out of range.
#[derive(Debug, Clone, Copy, PartialEq, Eq, Structural)]
pub enum Field {
    Direction,
    RiskLevel,
    Status,
    Exchange,
    Side,
    OrderType,
    TriggerType,
    PresenceFlag,
}

/// Why a byte sequence is not a message.
#[derive(Debug, Clone, Copy, PartialEq, Eq, Structural)]
pub enum DecodeError {
    /// The input ends inside a field.
    Truncated,
    /// The leading tag names no signal kind.
    InvalidSignalType,
    /// The leading tag names no event kind.
    InvalidEventType,
    /// An enumerated field holds a code outside its range.
    InvalidField(Field),
    /// The timestamp is outside the range of the calendar.
    InvalidTimestamp,
    /// A string field is not valid UTF-8.
    InvalidUtf8,
    /// An event body is followed by bytes that belong to no field.
    TrailingBytes,
}

/// The outcome of a parser: the value and the input that is left.
pub type Parsed<T> = Result<(T, Seq<u8>), DecodeError>;

pub const TWO_TO_32: u64 = 0x1_0000_0000;

pub const TWO_TO_63: u64 = 0x8000_0000_0000_0000;

/// The two's complement bit pattern of `x`.
pub open spec fn i64_bits(x: i64) -> u64 {
    if x >= 0 {
        x as u64
    } else {
        (x + 0x1_0000_0000_0000_0000) as u64
    }
}

/// The signed number whose two's complement bit pattern is `u`.
pub open spec fn bits_i64(u: u64) -> i64 {
    if u < TWO_TO_63 {
        u as i64
    } else {
        (u - 0x1_0000_0000_0000_0000) as i64
    }
}

#[verifier::opaque]
pub open spec fn put_u8(x: u8, rest: Seq<u8>) -> Seq<u8> {
    seq![x] + rest
}

#[verifier::opaque]
pub open spec fn put_u32(x: u32, rest: Seq<u8>) -> Seq<u8> {
    spec_u32_to_le_bytes(x) + rest
}

#[verifier::opaque]
pub open spec fn put_u64(x: u64, rest: Seq<u8>) -> Seq<u8> {
    spec_u64_to_le_bytes(x) + rest
}

pub open spec fn put_i64(x: i64, rest: Seq<u8>) -> Seq<u8> {
    put_u64(i64_bits(x), rest)
}

/// The length prefix is the byte length modulo `2^32`: a string of four
/// gigabytes or more does not survive the trip.
#[verifier::opaque]
pub open spec fn put_string(s: Seq<char>, rest: Seq<u8>) -> Seq<u8> {
    put_u32((encode_utf8(s).len() % (TWO_TO_32 as nat)) as u32, encode_utf8(s) + rest)
}

pub open spec fn put_real(x: Real, rest: Seq<u8>) -> Seq<u8> {
    put_u64(x.bits, rest)
}

pub open spec fn put_opt_real(x: Option<Real>, rest: Seq<u8>) -> Seq<u8> {
    match x {
        Some(r) => put_u8(1, put_u64(r.bits, rest)),
        None => put_u8(0, rest),
    }
}

pub open spec fn put_symbol(x: Symbol, rest: Seq<u8>) -> Seq<u8> {
    put_u32(x.0, rest)
}

pub open spec fn put_timestamp(x: i64, rest: Seq<u8>) -> Seq<u8> {
    put_i64(x, rest)
}

#[verifier::opaque]
pub open spec fn take_u8(s: Seq<u8>) -> Parsed<u8> {
    if s.len() < 1 {
        Err(DecodeError::Truncated)
    } else {
        Ok((s[0], s.skip(1)))
    }
}

#[verifier::opaque]
pub open spec fn take_u32(s: Seq<u8>) -> Parsed<u32> {
    if s.len() < 4 {
        Err(DecodeError::Truncated)
    } else {
        Ok((spec_u32_from_le_bytes(s.subrange(0, 4)), s.skip(4)))
    }
}

#[verifier::opaque]
pub open spec fn take_u64(s: Seq<u8>) -> Parsed<u64> {
    if s.len() < 8 {
        Err(DecodeError::Truncated)
    } else {
        Ok((spec_u64_from_le_bytes(s.subrange(0, 8)), s.skip(8)))
    }
}

pub open spec fn take_i64(s: Seq<u8>) -> Parsed<i64> {
    match take_u64(s) {
        Ok((u, rest)) => Ok((bits_i64(u), rest)),
        Err(e) => Err(e),
    }
}

#[verifier::opaque]
pub open spec fn take_string(s: Seq<u8>) -> Parsed<Seq<char>> {
    match take_u32(s) {
        Err(e) => Err(e),
        Ok((n, rest)) => if rest.len() < n {
            Err(DecodeError::Truncated)
        } else if !valid_utf8(rest.subrange(0, n as int)) {
            Err(DecodeError::InvalidUtf8)
        } else {
            Ok((decode_utf8(rest.subrange(0, n as int)), rest.skip(n as int)))
        },
    }
}

pub open spec fn take_real(s: Seq<u8>) -> Parsed<Real> {
    match take_u64(s) {
        Err(e) => Err(e),
        Ok((bits, rest)) => Ok((Real { bits }, rest)),
    }
}

/// The presence byte is 0 or 1; any other value is an error.
pub open spec fn take_opt_real(s: Seq<u8>) -> Parsed<Option<Real>> {
    match take_u8(s) {
        Err(e) => Err(e),
        Ok((flag, rest)) => if flag == 0 {
            Ok((None, rest))
        } else if flag == 1 {
            match take_u64(rest) {
                Err(e) => Err(e),
                Ok((bits, rest2)) => Ok((Some(Real { bits }), rest2)),
            }
        } else {
            Err(DecodeError::InvalidField(Field::PresenceFlag))
        },
    }
}

pub open spec fn take_symbol(s: Seq<u8>) -> Parsed<Symbol> {
    match take_u32(s) {
        Err(e) => Err(e),
        Ok((id, rest)) => Ok((Symbol(id), rest)),
    }
}

/// A timestamp is read only if the calendar can name it.
pub open spec fn take_timestamp(s: Seq<u8>) -> Parsed<i64> {
    match take_i64(s) {
        Err(e) => Err(e),
        Ok((t, rest)) => if calendar_accepts(t) {
            Ok((t, rest))
        } else {
            Err(DecodeError::InvalidTimestamp)
        },
    }
}

pub broadcast proof fn lemma_take_put_u8(x: u8, rest: Seq<u8>)
    ensures
        #[trigger] take_u8(put_u8(x, rest)) == Ok::<(u8, Seq<u8>), DecodeError>((x, rest)),
{
    reveal(put_u8);
    reveal(take_u8);
    assert(put_u8(x, rest).skip(1) =~= rest);
}

pub broadcast proof fn lemma_take_put_u32(x: u32, rest: Seq<u8>)
    ensures
        #[trigger] take_u32(put_u32(x, rest)) == Ok::<(u32, Seq<u8>), DecodeError>((x, rest)),
{
    reveal(put_u32);
    reveal(take_u32);
    lemma_auto_spec_u32_to_from_le_bytes();
    let s = put_u32(x, rest);
    assert(s.subrange(0, 4) =~= spec_u32_to_le_bytes(x));
    assert(s.skip(4) =~= rest);
}

pub broadcast proof fn lemma_take_put_u64(x: u64, rest: Seq<u8>)
    ensures
        #[trigger] take_u64(put_u64(x, rest)) == Ok::<(u64, Seq<u8>), DecodeError>((x, rest)),
{
    reveal(put_u64);
    reveal(take_u64);
    lemma_auto_spec_u64_to_from_le_bytes();
    let s = put_u64(x, rest);
    assert(s.subrange(0, 8) =~= spec_u64_to_le_bytes(x));
    assert(s.skip(8) =~= rest);
}

pub broadcast proof fn lemma_take_put_string(s: Seq<char>, rest: Seq<u8>)
    requires
        encode_utf8(s).len() < TWO_TO_32,
    ensures
        #[trigger] take_string(put_string(s, rest)) == Ok::<(Seq<char>, Seq<u8>), DecodeError>(
            (s, rest),
        ),
{
    reveal(put_string);
    reveal(take_string);
    let bytes = encode_utf8(s);
    let n = bytes.len() as u32;
    let tail = bytes + rest;
    lemma_take_put_u32(n, tail);
    assert(tail.subrange(0, n as int) =~= bytes);
    assert(tail.skip(n as int) =~= rest);
    encode_utf8_valid_utf8(s);
    encode_utf8_decode_utf8(s);
}

/// Every parser undoes its layout.
pub broadcast group group_take_put {
    lemma_take_put_u8,
    lemma_take_put_u32,
    lemma_take_put_u64,
    lemma_take_put_string,
}

/// A 64-bit field takes eight bytes.
pub proof fn lemma_put_u64_len(x: u64, rest: Seq<u8>)
    ensures
        put_u64(x, rest).len() == 8 + rest.len(),
{
    reveal(put_u64);
    lemma_auto_spec_u64_to_from_le_bytes();
}

/// The two's complement bit pattern of `x`.
pub fn i64_to_bits(x: i64) -> (r: u64)
    ensures
        r == i64_bits(x),
{
    if x >= 0 {
        x as u64
    } else {
        let m: u64 = (-(x + 1)) as u64;
        u64::MAX - m
    }
}

/// The signed number whose two's complement bit pattern is `u`.
pub fn i64_from_bits(u: u64) -> (r: i64)
    ensures
        r == bits_i64(u),
{
    if u < TWO_TO_63 {
        u as i64
    } else {
        let m: u64 = u64::MAX - u;
        -(m as i64) - 1
    }
}

/// What a writer leaves in `after`, given `before`: whatever is written
/// next, the buffer holds `field` laid out in front of it.
pub open spec fn appended(before: Seq<u8>, after: Seq<u8>, field: spec_fn(Seq<u8>) -> Seq<u8>) -> bool {
    forall|rest: Seq<u8>| #[trigger] (after + rest) == before + field(rest)
}

pub fn write_u8(buf: &mut Vec<u8>, x: u8)
    ensures
        appended(old(buf)@, final(buf)@, |rest: Seq<u8>| put_u8(x, rest)),
{
    buf.push(x);
    proof {
        reveal(put_u8);
        assert forall|rest: Seq<u8>| #[trigger] (buf@ + rest) == old(buf)@ + put_u8(x, rest) by {
            assert(buf@ + rest =~= old(buf)@ + put_u8(x, rest));
        }
    }
}

pub fn write_u32(buf: &mut Vec<u8>, x: u32)
    ensures
        appended(old(buf)@, final(buf)@, |rest: Seq<u8>| put_u32(x, rest)),
{
    let b = u32_to_le_bytes(x);
    buf.extend_from_slice(b.as_slice());
    proof {
        reveal(put_u32);
        assert forall|rest: Seq<u8>| #[trigger] (buf@ + rest) == old(buf)@ + put_u32(x, rest) by {
            assert(buf@ + rest =~= old(buf)@ + put_u32(x, rest));
        }
    }
}

pub fn write_u64(buf: &mut Vec<u8>, x: u64)
    ensures
        appended(old(buf)@, final(buf)@, |rest: Seq<u8>| put_u64(x, rest)),
{
    let b = u64_to_le_bytes(x);
    buf.extend_from_slice(b.as_slice());
    proof {
        reveal(put_u64);
        assert forall|rest: Seq<u8>| #[trigger] (buf@ + rest) == old(buf)@ + put_u64(x, rest) by {
            assert(buf@ + rest =~= old(buf)@ + put_u64(x, rest));
        }
    }
}

pub fn write_i64(buf: &mut Vec<u8>, x: i64)
    ensures
        appended(old(buf)@, final(buf)@, |rest: Seq<u8>| put_i64(x, rest)),
{
    write_u64(buf, i64_to_bits(x));
}

pub fn write_string(buf: &mut Vec<u8>, s: &str)
    ensures
        appended(old(buf)@, final(buf)@, |rest: Seq<u8>| put_string(s@, rest)),
{
    let bytes = s.as_bytes();
    let n: u64 = bytes.len() as u64;
    let prefix: u32 = (n % TWO_TO_32) as u32;
    write_u32(buf, prefix);
    let ghost mid = buf@;
    buf.extend_from_slice(bytes);
    proof {
        reveal(put_string);
        assert forall|rest: Seq<u8>| #[trigger] (buf@ + rest) == old(buf)@ + put_string(s@, rest) by {
            assert(buf@ + rest =~= mid + (encode_utf8(s@) + rest));
        }
    }
}

pub fn write_real(buf: &mut Vec<u8>, x: Real)
    ensures
        appended(old(buf)@, final(buf)@, |rest: Seq<u8>| put_real(x, rest)),
{
    write_u64(buf, x.bits);
}

pub fn write_opt_real(buf: &mut Vec<u8>, x: Option<Real>)
    ensures
        appended(old(buf)@, final(buf)@, |rest: Seq<u8>| put_opt_real(x, rest)),
{
    match x {
        Some(r) => {
            write_u8(buf, 1);
            write_u64(buf, r.bits);
        },
        None => {
            write_u8(buf, 0);
        },
    }
}

pub fn write_symbol(buf: &mut Vec<u8>, x: Symbol)
    ensures
        appended(old(buf)@, final(buf)@, |rest: Seq<u8>| put_symbol(x, rest)),
{
    write_u32(buf, x.0);
}

pub fn write_timestamp(buf: &mut Vec<u8>, x: i64)
    ensures
        appended(old(buf)@, final(buf)@, |rest: Seq<u8>| put_timestamp(x, rest)),
{
    write_i64(buf, x);
}

/// What a reader at `pos` sees: the input from `pos` on.
pub open spec fn tail(buf: Seq<u8>, pos: usize) -> Seq<u8> {
    buf.skip(pos as int)
}

/// The outcome of a reader that started at `pos`, against the outcome of
/// the parser on the same input.
pub open spec fn agrees<T>(
    buf: Seq<u8>,
    pos: usize,
    r: Result<(T, usize), DecodeError>,
    expected: Parsed<T>,
) -> bool {
    match r {
        Ok((v, next)) => pos <= next <= buf.len() && expected == Ok::<(T, Seq<u8>), DecodeError>(
            (v, tail(buf, next)),
        ),
        Err(e) => expected == Err::<(T, Seq<u8>), DecodeError>(e),
    }
}

pub fn read_u8(buf: &[u8], pos: usize) -> (r: Result<(u8, usize), DecodeError>)
    requires
        pos <= buf@.len(),
    ensures
        agrees(buf@, pos, r, take_u8(tail(buf@, pos))),
{
    proof {
        reveal(take_u8);
    }
    if buf.len() - pos < 1 {
        return Err(DecodeError::Truncated);
    }
    let v = buf[pos];
    proof {
        assert(tail(buf@, pos).skip(1) =~= tail(buf@, (pos + 1) as usize));
    }
    Ok((v, pos + 1))
}

pub fn read_u32(buf: &[u8], pos: usize) -> (r: Result<(u32, usize), DecodeError>)
    requires
        pos <= buf@.len(),
    ensures
        agrees(buf@, pos, r, take_u32(tail(buf@, pos))),
{
    proof {
        reveal(take_u32);
    }
    if buf.len() - pos < 4 {
        return Err(DecodeError::Truncated);
    }
    let v = u32_from_le_bytes(slice_subrange(buf, pos, pos + 4));
    proof {
        assert(tail(buf@, pos).subrange(0, 4) =~= buf@.subrange(pos as int, pos + 4));
        assert(tail(buf@, pos).skip(4) =~= tail(buf@, (pos + 4) as usize));
    }
    Ok((v, pos + 4))
}

pub fn read_u64(buf: &[u8], pos: usize) -> (r: Result<(u64, usize), DecodeError>)
    requires
        pos <= buf@.len(),
    ensures
        agrees(buf@, pos, r, take_u64(tail(buf@, pos))),
{
    proof {
        reveal(take_u64);
    }
    if buf.len() - pos < 8 {
        return Err(DecodeError::Truncated);
    }
    let v = u64_from_le_bytes(slice_subrange(buf, pos, pos + 8));
    proof {
        assert(tail(buf@, pos).subrange(0, 8) =~= buf@.subrange(pos as int, pos + 8));
        assert(tail(buf@, pos).skip(8) =~= tail(buf@, (pos + 8) as usize));
    }
    Ok((v, pos + 8))
}

pub fn read_i64(buf: &[u8], pos: usize) -> (r: Result<(i64, usize), DecodeError>)
    requires
        pos <= buf@.len(),
    ensures
        agrees(buf@, pos, r, take_i64(tail(buf@, pos))),
{
    match read_u64(buf, pos) {
        Ok((u, next)) => Ok((i64_from_bits(u), next)),
        Err(e) => Err(e),
    }
}

/// Reads a string field. The outcome is told over the characters of the
/// string, which is what the parser returns.
pub fn read_string(buf: &[u8], pos: usize) -> (r: Result<(String, usize), DecodeError>)
    requires
        pos <= buf@.len(),
    ensures
        match r {
            Ok((s, next)) => pos <= next <= buf@.len() && take_string(tail(buf@, pos)) == Ok::<
                (Seq<char>, Seq<u8>),
                DecodeError,
            >((s@, tail(buf@, next))),
            Err(e) => take_string(tail(buf@, pos)) == Err::<(Seq<char>, Seq<u8>), DecodeError>(e),
        },
{
    proof {
        reveal(take_string);
    }
    let (n, start) = match read_u32(buf, pos) {
        Ok(p) => p,
        Err(e) => {
            return Err(e);
        },
    };
    if ((buf.len() - start) as u64) < (n as u64) {
        return Err(DecodeError::Truncated);
    }
    let end: usize = start + n as usize;
    let piece = slice_to_vec(slice_subrange(buf, start, end));
    proof {
        assert(tail(buf@, start).subrange(0, n as int) =~= buf@.subrange(start as int, end as int));
        assert(tail(buf@, start).skip(n as int) =~= tail(buf@, end));
    }
    match string_from_utf8(piece) {
        Some(s) => Ok((s, end)),
        None => Err(DecodeError::InvalidUtf8),
    }
}

pub fn read_real(buf: &[u8], pos: usize) -> (r: Result<(Real, usize), DecodeError>)
    requires
        pos <= buf@.len(),
    ensures
        agrees(buf@, pos, r, take_real(tail(buf@, pos))),
{
    match read_u64(buf, pos) {
        Err(e) => Err(e),
        Ok((bits, next)) => Ok((Real { bits }, next)),
    }
}

pub fn read_opt_real(buf: &[u8], pos: usize) -> (r: Result<(Option<Real>, usize), DecodeError>)
    requires
        pos <= buf@.len(),
    ensures
        agrees(buf@, pos, r, take_opt_real(tail(buf@, pos))),
{
    let (flag, next) = match read_u8(buf, pos) {
        Ok(p) => p,
        Err(e) => {
            return Err(e);
        },
    };
    if flag == 0 {
        Ok((None, next))
    } else if flag == 1 {
        match read_u64(buf, next) {
            Ok((bits, after)) => Ok((Some(Real { bits }), after)),
            Err(e) => Err(e),
        }
    } else {
        Err(DecodeError::InvalidField(Field::PresenceFlag))
    }
}

pub fn read_symbol(buf: &[u8], pos: usize) -> (r: Result<(Symbol, usize), DecodeError>)
    requires
        pos <= buf@.len(),
    ensures
        agrees(buf@, pos, r, take_symbol(tail(buf@, pos))),
{
    match read_u32(buf, pos) {
        Err(e) => Err(e),
        Ok((id, next)) => Ok((Symbol(id), next)),
    }
}

pub fn read_timestamp(buf: &[u8], pos: usize) -> (r: Result<(i64, usize), DecodeError>)
    requires
        pos <= buf@.len(),
    ensures
        agrees(buf@, pos, r, take_timestamp(tail(buf@, pos))),
{
    match read_i64(buf, pos) {
        Err(e) => Err(e),
        Ok((t, next)) => if timestamp_in_range(t) {
            Ok((t, next))
        } else {
            Err(DecodeError::InvalidTimestamp)
        },
    }
}

pub open spec fn put_exchange(x: Exchange, rest: Seq<u8>) -> Seq<u8> {
    put_u32(x.code_spec(), rest)
}

pub open spec fn take_exchange(s: Seq<u8>) -> Parsed<Exchange> {
    match take_u32(s) {
        Err(e) => Err(e),
        Ok((c, rest)) => match Exchange::from_code_spec(c) {
            Some(v) => Ok((v, rest)),
            None => Err(DecodeError::InvalidField(Field::Exchange)),
        },
    }
}

pub fn write_exchange(buf: &mut Vec<u8>, x: Exchange)
    ensures
        appended(old(buf)@, final(buf)@, |rest: Seq<u8>| put_exchange(x, rest)),
{
    write_u32(buf, x.code());
}

pub fn read_exchange(buf: &[u8], pos: usize) -> (r: Result<(Exchange, usize), DecodeError>)
    requires
        pos <= buf@.len(),
    ensures
        agrees(buf@, pos, r, take_exchange(tail(buf@, pos))),
{
    match read_u32(buf, pos) {
        Err(e) => Err(e),
        Ok((c, next)) => match Exchange::from_code(c) {
            Some(v) => Ok((v, next)),
            None => Err(DecodeError::InvalidField(Field::Exchange)),
        },
    }
}

pub open spec fn put_side(x: Side, rest: Seq<u8>) -> Seq<u8> {
    put_u32(x.code_spec(), rest)
}

pub open spec fn take_side(s: Seq<u8>) -> Parsed<Side> {
    match take_u32(s) {
        Err(e) => Err(e),
        Ok((c, rest)) => match Side::from_code_spec(c) {
            Some(v) => Ok((v, rest)),
            None => Err(DecodeError::InvalidField(Field::Side)),
        },
    }
}

pub fn write_side(buf: &mut Vec<u8>, x: Side)
    ensures
        appended(old(buf)@, final(buf)@, |rest: Seq<u8>| put_side(x, rest)),
{
    write_u32(buf, x.code());
}

pub fn read_side(buf: &[u8], pos: usize) -> (r: Result<(Side, usize), DecodeError>)
    requires
        pos <= buf@.len(),
    ensures
        agrees(buf@, pos, r, take_side(tail(buf@, pos))),
{
    match read_u32(buf, pos) {
        Err(e) => Err(e),
        Ok((c, next)) => match Side::from_code(c) {
            Some(v) => Ok((v, next)),
            None => Err(DecodeError::InvalidField(Field::Side)),
        },
    }
}

pub open spec fn put_order_type(x: OrderType, rest: Seq<u8>) -> Seq<u8> {
    put_u32(x.code_spec(), rest)
}

pub open spec fn take_order_type(s: Seq<u8>) -> Parsed<OrderType> {
    match take_u32(s) {
        Err(e) => Err(e),
        Ok((c, rest)) => match OrderType::from_code_spec(c) {
            Some(v) => Ok((v, rest)),
            None => Err(DecodeError::InvalidField(Field::OrderType)),
        },
    }
}

pub fn write_order_type(buf: &mut Vec<u8>, x: OrderType)
    ensures
        appended(old(buf)@, final(buf)@, |rest: Seq<u8>| put_order_type(x, rest)),
{
    write_u32(buf, x.code());
}

pub fn read_order_type(buf: &[u8], pos: usize) -> (r: Result<(OrderType, usize), DecodeError>)
    requires
        pos <= buf@.len(),
    ensures
        agrees(buf@, pos, r, take_order_type(tail(buf@, pos))),
{
    match read_u32(buf, pos) {
        Err(e) => Err(e),
        Ok((c, next)) => match OrderType::from_code(c) {
            Some(v) => Ok((v, next)),
            None => Err(DecodeError::InvalidField(Field::OrderType)),
        },
    }
}

pub open spec fn put_trigger_type(x: TriggerType, rest: Seq<u8>) -> Seq<u8> {
    put_u32(x.code_spec(), rest)
}

pub open spec fn take_trigger_type(s: Seq<u8>) -> Parsed<TriggerType> {
    match take_u32(s) {
        Err(e) => Err(e),
        Ok((c, rest)) => match TriggerType::from_code_spec(c) {
            Some(v) => Ok((v, rest)),
            None => Err(DecodeError::InvalidField(Field::TriggerType)),
        },
    }
}

pub fn write_trigger_type(buf: &mut Vec<u8>, x: TriggerType)
    ensures
        appended(old(buf)@, final(buf)@, |rest: Seq<u8>| put_trigger_type(x, rest)),
{
    write_u32(buf, x.code());
}

pub fn read_trigger_type(buf: &[u8], pos: usize) -> (r: Result<(TriggerType, usize), DecodeError>)
    requires
        pos <= buf@.len(),
    ensures
        agrees(buf@, pos, r, take_trigger_type(tail(buf@, pos))),
{
    match read_u32(buf, pos) {
        Err(e) => Err(e),
        Ok((c, next)) => match TriggerType::from_code(c) {
            Some(v) => Ok((v, next)),
            None => Err(DecodeError::InvalidField(Field::TriggerType)),
        },
    }
}

pub open spec fn put_direction(x: FundingDirection, rest: Seq<u8>) -> Seq<u8> {
    put_u32(x.code_spec(), rest)
}

pub open spec fn take_direction(s: Seq<u8>) -> Parsed<FundingDirection> {
    match take_u32(s) {
        Err(e) => Err(e),
        Ok((c, rest)) => match FundingDirection::from_code_spec(c) {
            Some(v) => Ok((v, rest)),
            None => Err(DecodeError::InvalidField(Field::Direction)),
        },
    }
}

pub fn write_direction(buf: &mut Vec<u8>, x: FundingDirection)
    ensures
        appended(old(buf)@, final(buf)@, |rest: Seq<u8>| put_direction(x, rest)),
{
    write_u32(buf, x.code());
}

pub fn read_direction(buf: &[u8], pos: usize) -> (r: Result<(FundingDirection, usize), DecodeError>)
    requires
        pos <= buf@.len(),
    ensures
        agrees(buf@, pos, r, take_direction(tail(buf@, pos))),
{
    match read_u32(buf, pos) {
        Err(e) => Err(e),
        Ok((c, next)) => match FundingDirection::from_code(c) {
            Some(v) => Ok((v, next)),
            None => Err(DecodeError::InvalidField(Field::Direction)),
        },
    }
}

pub open spec fn put_risk_level(x: RiskLevel, rest: Seq<u8>) -> Seq<u8> {
    put_u32(x.code_spec(), rest)
}

pub open spec fn take_risk_level(s: Seq<u8>) -> Parsed<RiskLevel> {
    match take_u32(s) {
        Err(e) => Err(e),
        Ok((c, rest)) => match RiskLevel::from_code_spec(c) {
            Some(v) => Ok((v, rest)),
            None => Err(DecodeError::InvalidField(Field::RiskLevel)),
        },
    }
}

pub fn write_risk_level(buf: &mut Vec<u8>, x: RiskLevel)
    ensures
        appended(old(buf)@, final(buf)@, |rest: Seq<u8>| put_risk_level(x, rest)),
{
    write_u32(buf, x.code());
}

pub fn read_risk_level(buf: &[u8], pos: usize) -> (r: Result<(RiskLevel, usize), DecodeError>)
    requires
        pos <= buf@.len(),
    ensures
        agrees(buf@, pos, r, take_risk_level(tail(buf@, pos))),
{
    match read_u32(buf, pos) {
        Err(e) => Err(e),
        Ok((c, next)) => match RiskLevel::from_code(c) {
            Some(v) => Ok((v, next)),
            None => Err(DecodeError::InvalidField(Field::RiskLevel)),
        },
    }
}

pub open spec fn put_response_status(x: OrderResponseStatus, rest: Seq<u8>) -> Seq<u8> {
    put_u32(x.code_spec(), rest)
}

pub open spec fn take_response_status(s: Seq<u8>) -> Parsed<OrderResponseStatus> {
    match take_u32(s) {
        Err(e) => Err(e),
        Ok((c, rest)) => match OrderResponseStatus::from_code_spec(c) {
            Some(v) => Ok((v, rest)),
            None => Err(DecodeError::InvalidField(Field::Status)),
        },
    }
}

pub fn write_response_status(buf: &mut Vec<u8>, x: OrderResponseStatus)
    ensures
        appended(old(buf)@, final(buf)@, |rest: Seq<u8>| put_response_status(x, rest)),
{
    write_u32(buf, x.code());
}

pub fn read_response_status(buf: &[u8], pos: usize) -> (r: Result<(OrderResponseStatus, usize), DecodeError>)
    requires
        pos <= buf@.len(),
    ensures
        agrees(buf@, pos, r, take_response_status(tail(buf@, pos))),
{
    match read_u32(buf, pos) {
        Err(e) => Err(e),
        Ok((c, next)) => match OrderResponseStatus::from_code(c) {
            Some(v) => Ok((v, next)),
            None => Err(DecodeError::InvalidField(Field::Status)),
        },
    }
}

} // verus!
