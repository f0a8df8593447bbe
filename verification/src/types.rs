//! The value codec: information-object types, the byte-level helpers they
//! share, and the generic framing of addressed object lists.

pub mod commands;
pub mod information_elements;
pub mod measurements;
pub mod objects;
pub mod parameters;
pub mod quality_descriptors;
pub mod time;


use vstd::prelude::*;

pub use objects::{InformationObjects, ObjectsView};

use crate::types::time::ParseTimeError;
use crate::types_id::TypeId;

verus! {

/// Why an information-object payload failed to decode.
#[derive(Debug, Copy, Clone, Eq, PartialEq, Structural)]
pub enum ParseError {
    /// A time tag had a field out of range.
    ParseTimeTag(ParseTimeError),
    /// The type identifier is not a standard one.
    InvalidType,
    /// The type identifier is standard but not supported.
    NotImplemented,
    /// The payload is shorter than the type requires.
    NotEnoughBytes,
}

/// The value of a 16-bit little-endian word.
pub open spec fn word16(b0: u8, b1: u8) -> u16 {
    (b0 + 256 * b1) as u16
}

/// The two little-endian bytes of a 16-bit word.
pub open spec fn word16_bytes(v: u16) -> Seq<u8> {
    seq![(v % 256) as u8, (v / 256) as u8]
}

/// The value of a 32-bit little-endian word.
pub open spec fn word32(b0: u8, b1: u8, b2: u8, b3: u8) -> u32 {
    (b0 + 256 * b1 + 65536 * b2 + 16777216 * b3) as u32
}

/// The four little-endian bytes of a 32-bit word.
pub open spec fn word32_bytes(v: u32) -> Seq<u8> {
    seq![(v % 256) as u8, ((v / 256) % 256) as u8, ((v / 65536) % 256) as u8, (v / 16777216) as u8]
}

/// The 24-bit information-object address held in three little-endian bytes.
pub open spec fn addr24(b0: u8, b1: u8, b2: u8) -> u32 {
    (b0 + 256 * b1 + 65536 * b2) as u32
}

/// The three little-endian bytes of a 24-bit address.
pub open spec fn addr24_bytes(a: u32) -> Seq<u8> {
    seq![(a % 256) as u8, ((a / 256) % 256) as u8, ((a / 65536) % 256) as u8]
}

/// The signed reading of a 16-bit word (two's complement).
pub open spec fn signed16(u: u16) -> i16 {
    if u < 32768 {
        u as i16
    } else {
        (u - 65536) as i16
    }
}

/// The unsigned 16-bit word that carries a signed value on the wire.
pub open spec fn unsigned16(v: i16) -> u16 {
    if v >= 0 {
        v as u16
    } else {
        (v + 65536) as u16
    }
}

/// The signed reading of a 32-bit word (two's complement).
pub open spec fn signed32(u: u32) -> i32 {
    if u < 2147483648 {
        u as i32
    } else {
        (u - 4294967296) as i32
    }
}

/// The unsigned 32-bit word that carries a signed value on the wire.
pub open spec fn unsigned32(v: i32) -> u32 {
    if v >= 0 {
        v as u32
    } else {
        (v + 4294967296) as u32
    }
}

/// Reads a 16-bit little-endian word.
pub fn u16_from_le_pair(b0: u8, b1: u8) -> (r: u16)
    ensures
        r == word16(b0, b1),
{
    b0 as u16 + b1 as u16 * 256
}

/// Reads a signed 16-bit little-endian word.
pub fn i16_from_le_pair(b0: u8, b1: u8) -> (r: i16)
    ensures
        r == signed16(word16(b0, b1)),
{
    let u = u16_from_le_pair(b0, b1);
    if u < 32768 {
        u as i16
    } else {
        (u as i32 - 65536) as i16
    }
}

/// The unsigned word behind a signed 16-bit value.
pub fn u16_of_i16(v: i16) -> (r: u16)
    ensures
        r == unsigned16(v),
{
    if v >= 0 {
        v as u16
    } else {
        (v as i32 + 65536) as u16
    }
}

/// Reads a 32-bit little-endian word.
pub fn u32_from_le_quad(b0: u8, b1: u8, b2: u8, b3: u8) -> (r: u32)
    ensures
        r == word32(b0, b1, b2, b3),
{
    b0 as u32 + b1 as u32 * 256 + b2 as u32 * 65536 + b3 as u32 * 16777216
}

/// Reads a signed 32-bit little-endian word.
pub fn i32_from_le_quad(b0: u8, b1: u8, b2: u8, b3: u8) -> (r: i32)
    ensures
        r == signed32(word32(b0, b1, b2, b3)),
{
    let u = u32_from_le_quad(b0, b1, b2, b3);
    if u < 2147483648 {
        u as i32
    } else {
        (u as i64 - 4294967296) as i32
    }
}

/// The unsigned word behind a signed 32-bit value.
pub fn u32_of_i32(v: i32) -> (r: u32)
    ensures
        r == unsigned32(v),
{
    if v >= 0 {
        v as u32
    } else {
        (v as i64 + 4294967296) as u32
    }
}

/// Reads the 24-bit address held in three little-endian bytes.
pub fn addr_from_le_triple(b0: u8, b1: u8, b2: u8) -> (r: u32)
    ensures
        r == addr24(b0, b1, b2),
        r < 16777216,
{
    b0 as u32 + b1 as u32 * 256 + b2 as u32 * 65536
}

/// Appends the two little-endian bytes of a 16-bit word.
pub fn push_u16_le(buffer: &mut Vec<u8>, v: u16)
    ensures
        final(buffer)@ == old(buffer)@ + word16_bytes(v),
{
    buffer.push((v % 256) as u8);
    buffer.push((v / 256) as u8);
}

/// Appends the four little-endian bytes of a 32-bit word.
pub fn push_u32_le(buffer: &mut Vec<u8>, v: u32)
    ensures
        final(buffer)@ == old(buffer)@ + word32_bytes(v),
{
    buffer.push((v % 256) as u8);
    buffer.push(((v / 256) % 256) as u8);
    buffer.push(((v / 65536) % 256) as u8);
    buffer.push((v / 16777216) as u8);
}

/// Appends the three little-endian bytes of a 24-bit address.
pub fn push_addr24_le(buffer: &mut Vec<u8>, a: u32)
    ensures
        final(buffer)@ == old(buffer)@ + addr24_bytes(a),
{
    buffer.push((a % 256) as u8);
    buffer.push(((a / 256) % 256) as u8);
    buffer.push(((a / 65536) % 256) as u8);
}

/// A 16-bit round trip: the word rebuilt from its little-endian bytes is the
/// word itself.
pub proof fn lemma_word16_round_trip(v: u16)
    ensures
        word16((v % 256) as u8, (v / 256) as u8) == v,
{
}

/// A 32-bit round trip.
pub proof fn lemma_word32_round_trip(v: u32)
    ensures
        word32(
            (v % 256) as u8,
            ((v / 256) % 256) as u8,
            ((v / 65536) % 256) as u8,
            (v / 16777216) as u8,
        ) == v,
{
}

/// A 24-bit address round trip, for addresses that fit in three bytes.
pub proof fn lemma_addr24_round_trip(a: u32)
    requires
        a < 16777216,
    ensures
        addr24((a % 256) as u8, ((a / 256) % 256) as u8, ((a / 65536) % 256) as u8) == a,
{
}

/// Division and remainder of a value given as quotient and remainder: the
/// workhorse behind every bit-field round trip in this crate.
pub proof fn lemma_split_word(x: int, d: int, q: int, r: int)
    requires
        d > 0,
        0 <= r < d,
        x == q * d + r,
    ensures
        x / d == q,
        x % d == r,
{
    vstd::arithmetic::div_mod::lemma_fundamental_div_mod_converse(x, d, q, r);
}

/// Extraction of the eight bit positions from a byte given as a weighted sum
/// of bits: the encode-then-decode half of every flag-byte round trip.
pub proof fn lemma_byte_parts(
    v: int,
    a7: int,
    a6: int,
    a5: int,
    a4: int,
    a3: int,
    a2: int,
    a1: int,
    a0: int,
)
    requires
        0 <= a7 < 2,
        0 <= a6 < 2,
        0 <= a5 < 2,
        0 <= a4 < 2,
        0 <= a3 < 2,
        0 <= a2 < 2,
        0 <= a1 < 2,
        0 <= a0 < 2,
        v == 128 * a7 + 64 * a6 + 32 * a5 + 16 * a4 + 8 * a3 + 4 * a2 + 2 * a1 + a0,
    ensures
        v / 128 == a7,
        (v % 128) / 64 == a6,
        (v % 64) / 32 == a5,
        (v % 32) / 16 == a4,
        (v % 16) / 8 == a3,
        (v % 8) / 4 == a2,
        (v % 4) / 2 == a1,
        v % 2 == a0,
        v % 128 == 64 * a6 + 32 * a5 + 16 * a4 + 8 * a3 + 4 * a2 + 2 * a1 + a0,
        v % 64 == 32 * a5 + 16 * a4 + 8 * a3 + 4 * a2 + 2 * a1 + a0,
        v % 32 == 16 * a4 + 8 * a3 + 4 * a2 + 2 * a1 + a0,
        v % 16 == 8 * a3 + 4 * a2 + 2 * a1 + a0,
        v % 8 == 4 * a2 + 2 * a1 + a0,
        v % 4 == 2 * a1 + a0,
{
    lemma_split_word(v, 128, a7, 64 * a6 + 32 * a5 + 16 * a4 + 8 * a3 + 4 * a2 + 2 * a1 + a0);
    lemma_split_word(v, 64, 2 * a7 + a6, 32 * a5 + 16 * a4 + 8 * a3 + 4 * a2 + 2 * a1 + a0);
    lemma_split_word(v, 32, 4 * a7 + 2 * a6 + a5, 16 * a4 + 8 * a3 + 4 * a2 + 2 * a1 + a0);
    lemma_split_word(v, 16, 8 * a7 + 4 * a6 + 2 * a5 + a4, 8 * a3 + 4 * a2 + 2 * a1 + a0);
    lemma_split_word(v, 8, 16 * a7 + 8 * a6 + 4 * a5 + 2 * a4 + a3, 4 * a2 + 2 * a1 + a0);
    lemma_split_word(v, 4, 32 * a7 + 16 * a6 + 8 * a5 + 4 * a4 + 2 * a3 + a2, 2 * a1 + a0);
    lemma_split_word(v, 2, 64 * a7 + 32 * a6 + 16 * a5 + 8 * a4 + 4 * a3 + 2 * a2 + a1, a0);
    lemma_split_word(v % 128, 64, a6, 32 * a5 + 16 * a4 + 8 * a3 + 4 * a2 + 2 * a1 + a0);
    lemma_split_word(v % 64, 32, a5, 16 * a4 + 8 * a3 + 4 * a2 + 2 * a1 + a0);
    lemma_split_word(v % 32, 16, a4, 8 * a3 + 4 * a2 + 2 * a1 + a0);
    lemma_split_word(v % 16, 8, a3, 4 * a2 + 2 * a1 + a0);
    lemma_split_word(v % 8, 4, a2, 2 * a1 + a0);
    lemma_split_word(v % 4, 2, a1, a0);
}

/// Decomposition of a byte into its eight bit positions: the decode-then-
/// encode half of every flag-byte round trip.
pub proof fn lemma_byte_decomp(b: u8)
    ensures
        b == 128 * (b / 128) + 64 * ((b % 128) / 64) + 32 * ((b % 64) / 32) + 16 * ((b % 32) / 16)
            + 8 * ((b % 16) / 8) + 4 * ((b % 8) / 4) + 2 * ((b % 4) / 2) + (b % 2),
        b / 128 <= 1,
        (b % 128) / 64 <= 1,
        (b % 64) / 32 <= 1,
        (b % 32) / 16 <= 1,
        (b % 16) / 8 <= 1,
        (b % 8) / 4 <= 1,
        (b % 4) / 2 <= 1,
        b % 2 <= 1,
{
    assert(b == 128 * (b / 128) + 64 * ((b % 128) / 64) + 32 * ((b % 64) / 32) + 16 * ((b % 32)
        / 16) + 8 * ((b % 16) / 8) + 4 * ((b % 8) / 4) + 2 * ((b % 4) / 2) + (b % 2) && b / 128
        <= 1 && (b % 128) / 64 <= 1 && (b % 64) / 32 <= 1 && (b % 32) / 16 <= 1 && (b % 16) / 8
        <= 1 && (b % 8) / 4 <= 1 && (b % 4) / 2 <= 1 && b % 2 <= 1) by (bit_vector);
}

/// Every byte is the weighted sum of its eight bit positions, and the
/// remainders below each power of two are the corresponding partial sums.
pub proof fn lemma_byte_bits(b: u8)
    ensures
        b == 128 * (b / 128) + 64 * ((b % 128) / 64) + 32 * ((b % 64) / 32) + 16 * ((b % 32) / 16)
            + 8 * ((b % 16) / 8) + 4 * ((b % 8) / 4) + 2 * ((b % 4) / 2) + (b % 2),
        b % 128 == 64 * ((b % 128) / 64) + 32 * ((b % 64) / 32) + 16 * ((b % 32) / 16) + 8 * ((b
            % 16) / 8) + 4 * ((b % 8) / 4) + 2 * ((b % 4) / 2) + (b % 2),
        b % 64 == 32 * ((b % 64) / 32) + 16 * ((b % 32) / 16) + 8 * ((b % 16) / 8) + 4 * ((b % 8)
            / 4) + 2 * ((b % 4) / 2) + (b % 2),
        b % 32 == 16 * ((b % 32) / 16) + 8 * ((b % 16) / 8) + 4 * ((b % 8) / 4) + 2 * ((b % 4) / 2)
            + (b % 2),
        b % 16 == 8 * ((b % 16) / 8) + 4 * ((b % 8) / 4) + 2 * ((b % 4) / 2) + (b % 2),
        b % 8 == 4 * ((b % 8) / 4) + 2 * ((b % 4) / 2) + (b % 2),
        b % 4 == 2 * ((b % 4) / 2) + (b % 2),
        b / 128 <= 1,
        (b % 128) / 64 <= 1,
        (b % 64) / 32 <= 1,
        (b % 32) / 16 <= 1,
        (b % 16) / 8 <= 1,
        (b % 8) / 4 <= 1,
        (b % 4) / 2 <= 1,
        b % 2 <= 1,
{
    lemma_byte_decomp(b);
    lemma_byte_parts(
        b as int,
        b as int / 128,
        (b as int % 128) / 64,
        (b as int % 64) / 32,
        (b as int % 32) / 16,
        (b as int % 16) / 8,
        (b as int % 8) / 4,
        (b as int % 4) / 2,
        b as int % 2,
    );
}

/// The signed reading undoes the unsigned carrier, and the other way round.
pub proof fn lemma_signed16_round_trip(v: i16, u: u16)
    ensures
        signed16(unsigned16(v)) == v,
        unsigned16(signed16(u)) == u,
{
}

/// The 32-bit signed round trip.
pub proof fn lemma_signed32_round_trip(v: i32, u: u32)
    ensures
        signed32(unsigned32(v)) == v,
        unsigned32(signed32(u)) == u,
{
}

/// The encoding side of an information-object payload: a fixed size, a
/// well-formedness condition under which encoding is lossless, and the
/// payload bytes themselves.
pub trait ToBytes: Sized {
    /// The fixed payload size of this object type, excluding the address.
    spec fn size_spec() -> nat;

    /// Whether encoding this value loses nothing.
    spec fn wf(self) -> bool;

    /// The wire payload of this value.
    spec fn enc(self) -> Seq<u8>;

    /// The payload size, as a run-time value.
    fn size() -> (r: usize)
        ensures
            r == Self::size_spec(),
    ;

    /// The payload of any value has the fixed size.
    proof fn lemma_enc_len(self)
        ensures
            self.enc().len() == Self::size_spec(),
    ;

    /// Appends the wire payload of this value.
    fn to_bytes(&self, buffer: &mut Vec<u8>) -> (r: Result<(), ParseError>)
        ensures
            r is Ok,
            final(buffer)@ == old(buffer)@ + self.enc(),
    ;
}

/// The decoding side of an information-object payload, tied to the encoding
/// side by two round-trip laws.
pub trait FromBytes: ToBytes {
    /// What a payload decodes to; only the first `size_spec()` bytes matter.
    spec fn dec(b: Seq<u8>) -> Result<Self, ParseError>;

    /// Payloads whose reserved bits are clear: those that survive a
    /// decode-encode round trip.
    spec fn canon(b: Seq<u8>) -> bool;

    /// Decodes one object payload from the front of `bytes`.
    fn from_bytes(bytes: &[u8]) -> (r: Result<Self, ParseError>)
        ensures
            r == Self::dec(bytes@),
    ;

    /// Decoding needs at least the fixed size; on canonical payloads it
    /// yields well-formed values and is undone by encoding.
    proof fn lemma_dec(b: Seq<u8>)
        ensures
            Self::dec(b) matches Ok(x) ==> b.len() >= Self::size_spec(),
            Self::dec(b) matches Ok(x) ==> Self::canon(b) && b.len() == Self::size_spec()
                ==> x.wf() && x.enc() =~= b,
    ;

    /// Encoding a well-formed value is undone by decoding.
    proof fn lemma_enc(self)
        ensures
            self.wf() ==> Self::dec(self.enc()) == Ok::<Self, ParseError>(self),
    ;
}

/// One addressed information object.
#[derive(Debug, Clone, PartialEq)]
pub struct GenericObject<T> {
    /// The 24-bit information-object address.
    pub address: u32,
    /// The typed payload.
    pub object: T,
}

/// Objects whose payloads are well formed and whose addresses fit 24 bits.
pub open spec fn objs_wf<T: ToBytes>(objs: Seq<GenericObject<T>>) -> bool {
    forall|i: int|
        0 <= i < objs.len() ==> (#[trigger] objs[i]).object.wf() && objs[i].address < 16777216
}

/// Addresses that run consecutively from the first object: the condition for
/// losslessly encoding a list in sequence mode.
pub open spec fn objs_consecutive<T>(objs: Seq<GenericObject<T>>) -> bool {
    forall|i: int| 0 <= i < objs.len() ==> (#[trigger] objs[i]).address == objs[0].address + i
}

/// The multi-address wire form: each payload preceded by its three address
/// bytes.
pub open spec fn objs_enc_multi<T: ToBytes>(objs: Seq<GenericObject<T>>) -> Seq<u8>
    decreases objs.len(),
{
    if objs.len() == 0 {
        Seq::empty()
    } else {
        addr24_bytes(objs[0].address) + objs[0].object.enc() + objs_enc_multi(objs.skip(1))
    }
}

/// The payloads alone, back to back: the tail of the sequence-mode wire form.
pub open spec fn objs_enc_payloads<T: ToBytes>(objs: Seq<GenericObject<T>>) -> Seq<u8>
    decreases objs.len(),
{
    if objs.len() == 0 {
        Seq::empty()
    } else {
        objs[0].object.enc() + objs_enc_payloads(objs.skip(1))
    }
}

/// The sequence-mode wire form: the first address once, then payloads only.
pub open spec fn objs_enc_seq<T: ToBytes>(objs: Seq<GenericObject<T>>) -> Seq<u8> {
    addr24_bytes(objs[0].address) + objs_enc_payloads(objs)
}

/// What multi-address object bytes decode to: a full list, or the error of
/// the first object that fails, or `NotEnoughBytes` on a short tail.
pub open spec fn objs_dec_multi<T: FromBytes>(b: Seq<u8>) -> Result<
    Seq<GenericObject<T>>,
    ParseError,
>
    decreases b.len(),
{
    if b.len() == 0 {
        Ok(Seq::empty())
    } else if b.len() < 3 + T::size_spec() {
        Err(ParseError::NotEnoughBytes)
    } else {
        let address = addr24(b[0], b[1], b[2]);
        match T::dec(b.subrange(3, 3 + T::size_spec() as int)) {
            Err(e) => Err(e),
            Ok(object) => match objs_dec_multi::<T>(b.skip(3 + T::size_spec() as int)) {
                Err(e) => Err(e),
                Ok(rest) => Ok(seq![GenericObject { address, object }] + rest),
            },
        }
    }
}

/// The successor of an information-object address in its 32-bit carrier,
/// wrapping at the top.
pub open spec fn next_addr32(a: u32) -> u32 {
    if a == 0xFFFF_FFFF {
        0
    } else {
        (a + 1) as u32
    }
}

/// What the payload tail of a sequence-mode list decodes to, with implied
/// addresses counting up from `next_addr`, wrapping with its carrier.
#[verifier::opaque]
pub open spec fn objs_dec_rest<T: FromBytes>(b: Seq<u8>, next_addr: u32) -> Result<
    Seq<GenericObject<T>>,
    ParseError,
>
    decreases b.len(),
{
    if b.len() == 0 {
        Ok(Seq::empty())
    } else if T::size_spec() == 0 || b.len() < T::size_spec() {
        Err(ParseError::NotEnoughBytes)
    } else {
        match T::dec(b.take(T::size_spec() as int)) {
            Err(e) => Err(e),
            Ok(object) => match objs_dec_rest::<T>(
                b.skip(T::size_spec() as int),
                next_addr32(next_addr),
            ) {
                Err(e) => Err(e),
                Ok(rest) => Ok(seq![GenericObject { address: next_addr, object }] + rest),
            },
        }
    }
}

/// What sequence-mode object bytes decode to: one explicit address, a first
/// payload, then implied addresses. A type of payload size zero carries no
/// tail, so the header count `n` alone fixes how many objects there are.
pub open spec fn objs_dec_seq<T: FromBytes>(b: Seq<u8>, n: u8) -> Result<
    Seq<GenericObject<T>>,
    ParseError,
>
{
    if b.len() < 3 + T::size_spec() {
        Err(ParseError::NotEnoughBytes)
    } else {
        let first_addr = addr24(b[0], b[1], b[2]);
        match T::dec(b.subrange(3, 3 + T::size_spec() as int)) {
            Err(e) => Err(e),
            Ok(first) => if T::size_spec() == 0 {
                if b.len() == 3 {
                    Ok(
                        Seq::new(
                            n as nat,
                            |i: int|
                                GenericObject { address: (first_addr + i) as u32, object: first },
                        ),
                    )
                } else {
                    Err(ParseError::NotEnoughBytes)
                }
            } else {
                match objs_dec_rest::<T>(
                    b.skip(3 + T::size_spec() as int),
                    next_addr32(first_addr),
                ) {
                    Err(e) => Err(e),
                    Ok(rest) => Ok(seq![GenericObject { address: first_addr, object: first }] + rest),
                }
            },
        }
    }
}

/// Multi-address bytes whose every payload chunk is canonical.
pub open spec fn objs_canon_multi<T: FromBytes>(b: Seq<u8>) -> bool
    decreases b.len(),
{
    if b.len() < 3 + T::size_spec() {
        true
    } else {
        T::canon(b.subrange(3, 3 + T::size_spec() as int)) && objs_canon_multi::<T>(
            b.skip(3 + T::size_spec() as int),
        )
    }
}

/// Sequence-mode bytes whose every payload chunk is canonical.
pub open spec fn objs_canon_rest<T: FromBytes>(b: Seq<u8>) -> bool
    decreases b.len(),
{
    if T::size_spec() == 0 || b.len() < T::size_spec() {
        true
    } else {
        T::canon(b.take(T::size_spec() as int)) && objs_canon_rest::<T>(
            b.skip(T::size_spec() as int),
        )
    }
}

/// Sequence-mode bytes whose first payload and every later chunk are
/// canonical.
pub open spec fn objs_canon_seq<T: FromBytes>(b: Seq<u8>) -> bool {
    b.len() >= 3 + T::size_spec() ==> (T::canon(b.subrange(3, 3 + T::size_spec() as int))
        && objs_canon_rest::<T>(b.skip(3 + T::size_spec() as int)))
}

/// Decodes a run of objects that each carry their own address.
pub(crate) fn decode_multi<T: FromBytes>(bytes: &[u8]) -> (r: Result<
    Vec<GenericObject<T>>,
    ParseError,
>)
    ensures
        match r {
            Ok(v) => objs_dec_multi::<T>(bytes@) == Ok::<Seq<GenericObject<T>>, ParseError>(v@),
            Err(e) => objs_dec_multi::<T>(bytes@) == Err::<Seq<GenericObject<T>>, ParseError>(e),
        },
    decreases bytes@.len(),
{
    proof {
        reveal_with_fuel(objs_dec_multi, 2);
        reveal_with_fuel(objs_dec_rest, 2);
        reveal(objs_dec_seq);
        reveal_with_fuel(objs_canon_multi, 2);
        reveal_with_fuel(objs_canon_rest, 2);
        reveal(objs_canon_seq);
    }
    if bytes.len() == 0 {
        return Ok(Vec::new());
    }
    let size = T::size();
    if bytes.len() < 3 || bytes.len() - 3 < size {
        return Err(ParseError::NotEnoughBytes);
    }
    let address = addr_from_le_triple(bytes[0], bytes[1], bytes[2]);
    let chunk = &bytes[3..3 + size];
    proof {
        assert(chunk@ =~= bytes@.subrange(3, 3 + T::size_spec() as int));
    }
    match T::from_bytes(chunk) {
        Err(e) => Err(e),
        Ok(object) => {
            let rest_bytes = &bytes[3 + size..bytes.len()];
            proof {
                assert(rest_bytes@ =~= bytes@.skip(3 + T::size_spec() as int));
            }
            match decode_multi::<T>(rest_bytes) {
                Err(e) => Err(e),
                Ok(mut rest) => {
                    rest.insert(0, GenericObject { address, object });
                    proof {
                        assert(rest@ =~= seq![
                            GenericObject { address, object },
                        ] + objs_dec_multi::<T>(rest_bytes@)->Ok_0);
                    }
                    Ok(rest)
                },
            }
        },
    }
}

/// Decodes the payload tail of a sequence-mode run, with implied addresses.
pub(crate) fn decode_rest<T: FromBytes>(bytes: &[u8], next_addr: u32) -> (r: Result<
    Vec<GenericObject<T>>,
    ParseError,
>)
    ensures
        match r {
            Ok(v) => objs_dec_rest::<T>(bytes@, next_addr) == Ok::<
                Seq<GenericObject<T>>,
                ParseError,
            >(v@),
            Err(e) => objs_dec_rest::<T>(bytes@, next_addr) == Err::<
                Seq<GenericObject<T>>,
                ParseError,
            >(e),
        },
    decreases bytes@.len(),
{
    proof {
        reveal_with_fuel(objs_dec_multi, 2);
        reveal_with_fuel(objs_dec_rest, 2);
        reveal(objs_dec_seq);
        reveal_with_fuel(objs_canon_multi, 2);
        reveal_with_fuel(objs_canon_rest, 2);
        reveal(objs_canon_seq);
    }
    if bytes.len() == 0 {
        return Ok(Vec::new());
    }
    let size = T::size();
    if size == 0 || bytes.len() < size {
        return Err(ParseError::NotEnoughBytes);
    }
    let chunk = &bytes[0..size];
    proof {
        assert(chunk@ =~= bytes@.take(T::size_spec() as int));
    }
    match T::from_bytes(chunk) {
        Err(e) => Err(e),
        Ok(object) => {
            let rest_bytes = &bytes[size..bytes.len()];
            let next: u32 = if next_addr == 0xFFFF_FFFF {
                0
            } else {
                next_addr + 1
            };
            proof {
                assert(rest_bytes@ =~= bytes@.skip(T::size_spec() as int));
            }
            match decode_rest::<T>(rest_bytes, next) {
                Err(e) => Err(e),
                Ok(mut rest) => {
                    rest.insert(0, GenericObject { address: next_addr, object });
                    proof {
                        assert(rest@ =~= seq![
                            GenericObject { address: next_addr, object },
                        ] + objs_dec_rest::<T>(rest_bytes@, next_addr32(next_addr))->Ok_0);
                    }
                    Ok(rest)
                },
            }
        },
    }
}

/// Builds the object list of one ASDU from its body bytes, in either
/// addressing mode; `num_objs` matters only for payloads of size zero.
pub fn build_objects<T: FromBytes>(sequence: bool, num_objs: u8, bytes: &[u8]) -> (r: Result<
    Vec<GenericObject<T>>,
    ParseError,
>)
    ensures
        match r {
            Ok(v) => if sequence {
                objs_dec_seq::<T>(bytes@, num_objs) == Ok::<Seq<GenericObject<T>>, ParseError>(v@)
            } else {
                objs_dec_multi::<T>(bytes@) == Ok::<Seq<GenericObject<T>>, ParseError>(v@)
            },
            Err(e) => if sequence {
                objs_dec_seq::<T>(bytes@, num_objs) == Err::<Seq<GenericObject<T>>, ParseError>(e)
            } else {
                objs_dec_multi::<T>(bytes@) == Err::<Seq<GenericObject<T>>, ParseError>(e)
            },
        },
{
    proof {
        reveal_with_fuel(objs_dec_multi, 2);
        reveal_with_fuel(objs_dec_rest, 2);
        reveal(objs_dec_seq);
        reveal_with_fuel(objs_canon_multi, 2);
        reveal_with_fuel(objs_canon_rest, 2);
        reveal(objs_canon_seq);
    }
    if !sequence {
        return decode_multi::<T>(bytes);
    }
    let size = T::size();
    if bytes.len() < 3 || bytes.len() - 3 < size {
        return Err(ParseError::NotEnoughBytes);
    }
    let first_addr = addr_from_le_triple(bytes[0], bytes[1], bytes[2]);
    let chunk = &bytes[3..3 + size];
    proof {
        assert(chunk@ =~= bytes@.subrange(3, 3 + T::size_spec() as int));
    }
    match T::from_bytes(chunk) {
        Err(e) => Err(e),
        Ok(first) => {
            if size == 0 {
                if bytes.len() != 3 {
                    return Err(ParseError::NotEnoughBytes);
                }
                let mut v: Vec<GenericObject<T>> = Vec::new();
                let mut i: u8 = 0;
                while i < num_objs
                    invariant
                        i <= num_objs,
                        first_addr < 16777216,
                        v@ =~= Seq::new(
                            i as nat,
                            |j: int|
                                GenericObject::<T> {
                                    address: (first_addr + j) as u32,
                                    object: first,
                                },
                        ),
                        T::dec(bytes@.subrange(3, 3 + T::size_spec() as int)) == Ok::<
                            T,
                            ParseError,
                        >(first),
                        T::size_spec() == 0,
                        bytes@.len() == 3,
                    decreases num_objs - i,
                {
                    let chunk2 = &bytes[3..3];
                    proof {
                        assert(chunk2@ =~= bytes@.subrange(3, 3 + T::size_spec() as int));
                    }
                    let object = match T::from_bytes(chunk2) {
                        Ok(o) => o,
                        Err(_) => {
                            return Err(ParseError::NotEnoughBytes);  // unreachable: the first decode succeeded
                        },
                    };
                    v.push(GenericObject { address: first_addr + i as u32, object });
                    i = i + 1;
                }
                proof {
                    assert(v@ =~= objs_dec_seq::<T>(bytes@, num_objs)->Ok_0);
                }
                Ok(v)
            } else {
                let rest_bytes = &bytes[3 + size..bytes.len()];
                proof {
                    assert(rest_bytes@ =~= bytes@.skip(3 + T::size_spec() as int));
                }
                match decode_rest::<T>(rest_bytes, first_addr + 1) {
                    Err(e) => Err(e),
                    Ok(mut rest) => {
                        rest.insert(0, GenericObject { address: first_addr, object: first });
                        proof {
                            assert(rest@ =~= seq![
                                GenericObject { address: first_addr, object: first },
                            ] + objs_dec_rest::<T>(rest_bytes@, next_addr32(first_addr))->Ok_0);
                        }
                        Ok(rest)
                    },
                }
            }
        },
    }
}

/// Appends the multi-address wire form of an object list.
pub(crate) fn serialize_multi<T: ToBytes>(objects: &Vec<GenericObject<T>>, buffer: &mut Vec<u8>)
    ensures
        final(buffer)@ == old(buffer)@ + objs_enc_multi(objects@),
{
    let mut k: usize = 0;
    while k < objects.len()
        invariant
            k <= objects@.len(),
            buffer@ == old(buffer)@ + objs_enc_multi(objects@.take(k as int)),
        decreases objects@.len() - k,
    {
        let ghost pre = buffer@;
        push_addr24_le(buffer, objects[k].address);
        let r = objects[k].object.to_bytes(buffer);
        proof {
            assert(buffer@ == pre + addr24_bytes(objects@[k as int].address)
                + objects@[k as int].object.enc());
            lemma_objs_enc_multi_push(objects@.take(k as int), objects@[k as int]);
            assert(objects@.take(k + 1) =~= objects@.take(k as int).push(objects@[k as int]));
        }
        k = k + 1;
    }
    proof {
        assert(objects@.take(objects@.len() as int) =~= objects@);
    }
}

/// Appends the sequence-mode wire form: the first address, then payloads.
pub(crate) fn serialize_seq<T: ToBytes>(objects: &Vec<GenericObject<T>>, buffer: &mut Vec<u8>)
    requires
        objects@.len() > 0,
    ensures
        final(buffer)@ == old(buffer)@ + objs_enc_seq(objects@),
{
    push_addr24_le(buffer, objects[0].address);
    let mut k: usize = 0;
    while k < objects.len()
        invariant
            k <= objects@.len(),
            objects@.len() > 0,
            buffer@ == old(buffer)@ + addr24_bytes(objects@[0].address) + objs_enc_payloads(
                objects@.take(k as int),
            ),
        decreases objects@.len() - k,
    {
        let ghost pre = buffer@;
        let r = objects[k].object.to_bytes(buffer);
        proof {
            lemma_objs_enc_payloads_push(objects@.take(k as int), objects@[k as int]);
            assert(objects@.take(k + 1) =~= objects@.take(k as int).push(objects@[k as int]));
        }
        k = k + 1;
    }
    proof {
        assert(objects@.take(objects@.len() as int) =~= objects@);
    }
}

/// The three little-endian bytes of a 24-bit address are recovered by the
/// remainder chain that `addr24_bytes` uses.
pub proof fn lemma_addr24_parts(b0: u8, b1: u8, b2: u8)
    ensures
        addr24_bytes(addr24(b0, b1, b2)) =~= seq![b0, b1, b2],
{
    let v = addr24(b0, b1, b2) as int;
    lemma_split_word(v, 256, b1 + 256 * b2, b0 as int);
    lemma_split_word(b1 + 256 * b2, 256, b2 as int, b1 as int);
    lemma_split_word(v, 65536, b2 as int, b0 + 256 * b1);
    lemma_split_word(b2 as int, 256, 0, b2 as int);
}

/// What a successful multi-address decode guarantees: the byte count is
/// exact, every object is well formed, and on canonical bytes encoding
/// rebuilds the input.
pub proof fn lemma_objs_dec_multi<T: FromBytes>(b: Seq<u8>)
    ensures
        objs_dec_multi::<T>(b) matches Ok(s) ==> (3 + T::size_spec()) * s.len() == b.len(),
        objs_dec_multi::<T>(b) matches Ok(s) ==> objs_canon_multi::<T>(b) ==> objs_wf(s)
            && objs_enc_multi(s) =~= b,
    decreases b.len(),
{
    reveal_with_fuel(objs_dec_multi, 2);
    reveal_with_fuel(objs_dec_rest, 2);
    reveal(objs_dec_seq);
    reveal_with_fuel(objs_canon_multi, 2);
    reveal_with_fuel(objs_canon_rest, 2);
    reveal(objs_canon_seq);
    let size = T::size_spec() as int;
    if b.len() == 0 {
        assert(objs_dec_multi::<T>(b) matches Ok(s) ==> s.len() == 0);
        vstd::arithmetic::mul::lemma_mul_basics(3 + size);
    } else if b.len() < 3 + size {
    } else {
        let chunk = b.subrange(3, 3 + size);
        let tail = b.skip(3 + size);
        T::lemma_dec(chunk);
        lemma_objs_dec_multi::<T>(tail);
        if objs_dec_multi::<T>(b) is Ok {
            let s = objs_dec_multi::<T>(b)->Ok_0;
            let rest = objs_dec_multi::<T>(tail)->Ok_0;
            let g = GenericObject { address: addr24(b[0], b[1], b[2]), object: T::dec(chunk)->Ok_0 };
            assert(s == seq![g] + rest);
            assert(s.skip(1) =~= rest);
            assert((3 + size) * s.len() == (3 + size) * (1 + rest.len())) by {
            }
            assert((3 + size) * (1 + rest.len()) == (3 + size) + (3 + size) * rest.len()) by {
                vstd::arithmetic::mul::lemma_mul_is_distributive_add(
                    3 + size,
                    1,
                    rest.len() as int,
                );
            }
            if objs_canon_multi::<T>(b) {
                lemma_addr24_parts(b[0], b[1], b[2]);
                assert(objs_wf(s)) by {
                    assert(forall|i: int|
                        0 <= i < s.len() ==> #[trigger] s[i] == if i == 0 {
                            g
                        } else {
                            rest[i - 1]
                        });
                }
                assert(objs_enc_multi(s) =~= b);
            }
        }
    }
}

/// Encoding a well-formed object list in multi-address mode is undone by
/// decoding.
pub proof fn lemma_objs_enc_multi_dec<T: FromBytes>(s: Seq<GenericObject<T>>)
    requires
        objs_wf(s),
    ensures
        objs_dec_multi::<T>(objs_enc_multi(s)) == Ok::<Seq<GenericObject<T>>, ParseError>(s),
    decreases s.len(),
{
    reveal_with_fuel(objs_dec_multi, 2);
    reveal_with_fuel(objs_dec_rest, 2);
    reveal(objs_dec_seq);
    reveal_with_fuel(objs_canon_multi, 2);
    reveal_with_fuel(objs_canon_rest, 2);
    reveal(objs_canon_seq);
    let size = T::size_spec() as int;
    if s.len() == 0 {
        assert(objs_enc_multi(s) =~= Seq::<u8>::empty());
        assert(s =~= Seq::<GenericObject<T>>::empty());
    } else {
        let g = s[0];
        assert(g.object.wf() && g.address < 16777216);
        g.object.lemma_enc_len();
        T::lemma_enc(g.object);
        assert(objs_wf(s.skip(1))) by {
            assert(forall|i: int|
                0 <= i < s.skip(1).len() ==> #[trigger] s.skip(1)[i] == s[i + 1]);
        }
        lemma_objs_enc_multi_dec::<T>(s.skip(1));
        let e = objs_enc_multi(s);
        assert(e.subrange(3, 3 + size) =~= g.object.enc());
        assert(e.skip(3 + size) =~= objs_enc_multi(s.skip(1)));
        lemma_addr24_round_trip(g.address);
        assert(addr24(e[0], e[1], e[2]) == g.address) by {
            assert(e[0] == addr24_bytes(g.address)[0]);
            assert(e[1] == addr24_bytes(g.address)[1]);
            assert(e[2] == addr24_bytes(g.address)[2]);
        }
        assert(T::dec(e.subrange(3, 3 + size)) == Ok::<T, ParseError>(g.object));
        assert(objs_dec_multi::<T>(e.skip(3 + size)) == Ok::<Seq<GenericObject<T>>, ParseError>(
            s.skip(1),
        ));
        assert(e.len() >= 3 + size && e.len() != 0);
        assert(objs_dec_multi::<T>(e) == Ok::<Seq<GenericObject<T>>, ParseError>(
            seq![GenericObject { address: g.address, object: g.object }] + s.skip(1),
        ));
        assert(seq![
            GenericObject { address: g.address, object: g.object },
        ] + s.skip(1) =~= s);
    }
}

/// What a successful sequence-tail decode guarantees: a positive payload
/// size divides the byte count, objects are well formed with implied
/// addresses, and on canonical bytes encoding rebuilds the input.
pub proof fn lemma_objs_dec_rest<T: FromBytes>(b: Seq<u8>, a: u32)
    requires
        a + b.len() < 0x1_0000_0000,
    ensures
        objs_dec_rest::<T>(b, a) matches Ok(s) ==> T::size_spec() * s.len() == b.len() && forall|
            i: int,
        | 0 <= i < s.len() ==> (#[trigger] s[i]).address == ((a + i) as u32),
        objs_dec_rest::<T>(b, a) matches Ok(s) ==> objs_canon_rest::<T>(b) ==> (forall|i: int|
            0 <= i < s.len() ==> (#[trigger] s[i]).object.wf()) && objs_enc_payloads(s) =~= b,
    decreases b.len(),
{
    reveal_with_fuel(objs_dec_multi, 2);
    reveal_with_fuel(objs_dec_rest, 2);
    reveal(objs_dec_seq);
    reveal_with_fuel(objs_canon_multi, 2);
    reveal_with_fuel(objs_canon_rest, 2);
    reveal(objs_canon_seq);
    let size = T::size_spec() as int;
    if b.len() == 0 {
        vstd::arithmetic::mul::lemma_mul_basics(size);
    } else if size == 0 || b.len() < size {
    } else {
        let chunk = b.take(size);
        let tail = b.skip(size);
        T::lemma_dec(chunk);
        lemma_objs_dec_rest::<T>(tail, next_addr32(a));
        if objs_dec_rest::<T>(b, a) is Ok {
            let s = objs_dec_rest::<T>(b, a)->Ok_0;
            let rest = objs_dec_rest::<T>(tail, next_addr32(a))->Ok_0;
            let g = GenericObject { address: a, object: T::dec(chunk)->Ok_0 };
            assert(s == seq![g] + rest);
            assert(s.skip(1) =~= rest);
            assert(forall|i: int|
                0 <= i < s.len() ==> #[trigger] s[i] == if i == 0 {
                    g
                } else {
                    rest[i - 1]
                });
            assert(forall|i: int|
                0 <= i < s.len() ==> (#[trigger] s[i]).address == ((a + i) as u32));
            assert(size * (1 + rest.len()) == size + size * rest.len()) by {
                vstd::arithmetic::mul::lemma_mul_is_distributive_add(size, 1, rest.len() as int);
            }
            if objs_canon_rest::<T>(b) {
                assert(forall|i: int|
                    0 <= i < s.len() ==> (#[trigger] s[i]).object.wf());
                assert(objs_enc_payloads(s) =~= b);
            }
        }
    }
}

/// Encoding a well-formed payload tail with consecutive addresses is undone
/// by decoding.
pub proof fn lemma_objs_enc_rest_dec<T: FromBytes>(s: Seq<GenericObject<T>>, a: u32)
    requires
        a + s.len() <= 0xFFFF_FFFF,
        T::size_spec() > 0,
        forall|i: int|
            0 <= i < s.len() ==> (#[trigger] s[i]).object.wf() && s[i].address == ((a + i) as u32),
    ensures
        objs_dec_rest::<T>(objs_enc_payloads(s), a) == Ok::<Seq<GenericObject<T>>, ParseError>(s),
    decreases s.len(),
{
    reveal_with_fuel(objs_dec_multi, 2);
    reveal_with_fuel(objs_dec_rest, 2);
    reveal(objs_dec_seq);
    reveal_with_fuel(objs_canon_multi, 2);
    reveal_with_fuel(objs_canon_rest, 2);
    reveal(objs_canon_seq);
    let size = T::size_spec() as int;
    if s.len() == 0 {
        assert(objs_enc_payloads(s) =~= Seq::<u8>::empty());
        assert(s =~= Seq::<GenericObject<T>>::empty());
    } else {
        let g = s[0];
        g.object.lemma_enc_len();
        T::lemma_enc(g.object);
        assert(forall|i: int|
            0 <= i < s.skip(1).len() ==> (#[trigger] s.skip(1)[i]).object.wf()
                && s.skip(1)[i].address == (((a + 1) + i) as u32)) by {
            assert(forall|i: int|
                0 <= i < s.skip(1).len() ==> #[trigger] s.skip(1)[i] == s[i + 1]);
        }
        lemma_objs_enc_rest_dec::<T>(s.skip(1), next_addr32(a));
        let e = objs_enc_payloads(s);
        assert(e.take(size) =~= g.object.enc());
        assert(e.skip(size) =~= objs_enc_payloads(s.skip(1)));
        assert(T::dec(e.take(size)) == Ok::<T, ParseError>(g.object));
        assert(objs_dec_rest::<T>(e.skip(size), next_addr32(a)) == Ok::<
            Seq<GenericObject<T>>,
            ParseError,
        >(s.skip(1)));
        assert(e.len() >= size && e.len() != 0);
        assert(objs_dec_rest::<T>(e, a) == Ok::<Seq<GenericObject<T>>, ParseError>(
            seq![GenericObject { address: a as u32, object: g.object }] + s.skip(1),
        ));
        assert(seq![
            GenericObject { address: a as u32, object: g.object },
        ] + s.skip(1) =~= s);
    }
}

/// Appending one object to a list appends its address and payload to the
/// multi-address wire form.
pub proof fn lemma_objs_enc_multi_push<T: ToBytes>(s: Seq<GenericObject<T>>, g: GenericObject<T>)
    ensures
        objs_enc_multi(s.push(g)) == objs_enc_multi(s) + addr24_bytes(g.address) + g.object.enc(),
    decreases s.len(),
{
    if s.len() == 0 {
        assert(s.push(g).skip(1) =~= s);
        assert(objs_enc_multi(s.push(g)) =~= objs_enc_multi(s) + addr24_bytes(g.address)
            + g.object.enc());
    } else {
        assert(s.push(g).skip(1) =~= s.skip(1).push(g));
        lemma_objs_enc_multi_push(s.skip(1), g);
        assert(objs_enc_multi(s.push(g)) =~= objs_enc_multi(s) + addr24_bytes(g.address)
            + g.object.enc());
    }
}

/// Appending one object to a list appends its payload to the payload run.
pub proof fn lemma_objs_enc_payloads_push<T: ToBytes>(
    s: Seq<GenericObject<T>>,
    g: GenericObject<T>,
)
    ensures
        objs_enc_payloads(s.push(g)) == objs_enc_payloads(s) + g.object.enc(),
    decreases s.len(),
{
    if s.len() == 0 {
        assert(s.push(g).skip(1) =~= s);
        assert(objs_enc_payloads(s.push(g)) =~= objs_enc_payloads(s) + g.object.enc());
    } else {
        assert(s.push(g).skip(1) =~= s.skip(1).push(g));
        lemma_objs_enc_payloads_push(s.skip(1), g);
        assert(objs_enc_payloads(s.push(g)) =~= objs_enc_payloads(s) + g.object.enc());
    }
}


/// The little-endian bytes of a 16-bit word are recovered from its value.
pub proof fn lemma_word16_bytes_round(b0: u8, b1: u8)
    ensures
        word16_bytes(word16(b0, b1)) =~= seq![b0, b1],
{
    lemma_split_word(word16(b0, b1) as int, 256, b1 as int, b0 as int);
}

/// The little-endian bytes of a 32-bit word are recovered from its value.
pub proof fn lemma_word32_bytes_round(b0: u8, b1: u8, b2: u8, b3: u8)
    ensures
        word32_bytes(word32(b0, b1, b2, b3)) =~= seq![b0, b1, b2, b3],
{
    let v = word32(b0, b1, b2, b3) as int;
    lemma_split_word(v, 256, b1 + 256 * b2 + 65536 * b3, b0 as int);
    lemma_split_word(b1 + 256 * b2 + 65536 * b3, 256, b2 + 256 * b3, b1 as int);
    lemma_split_word(v, 65536, b2 + 256 * b3, b0 + 256 * b1);
    lemma_split_word(b2 + 256 * b3, 256, b3 as int, b2 as int);
    lemma_split_word(v, 16777216, b3 as int, b0 + 256 * b1 + 65536 * b2);
}


/// The multi-address wire form of a list has exactly `3 + size` bytes per
/// object.
pub proof fn lemma_objs_enc_multi_len<T: ToBytes>(s: Seq<GenericObject<T>>)
    ensures
        objs_enc_multi(s).len() == (3 + T::size_spec()) * s.len(),
    decreases s.len(),
{
    let size = T::size_spec() as int;
    if s.len() == 0 {
        vstd::arithmetic::mul::lemma_mul_basics(3 + size);
    } else {
        s[0].object.lemma_enc_len();
        lemma_objs_enc_multi_len::<T>(s.skip(1));
        assert((3 + size) * s.len() == (3 + size) + (3 + size) * (s.len() - 1)) by {
            vstd::arithmetic::mul::lemma_mul_is_distributive_add(3 + size, 1, s.len() - 1);
        }
    }
}

/// The payload run of a list has exactly `size` bytes per object.
pub proof fn lemma_objs_enc_payloads_len<T: ToBytes>(s: Seq<GenericObject<T>>)
    ensures
        objs_enc_payloads(s).len() == T::size_spec() * s.len(),
    decreases s.len(),
{
    let size = T::size_spec() as int;
    if s.len() == 0 {
        vstd::arithmetic::mul::lemma_mul_basics(size);
    } else {
        s[0].object.lemma_enc_len();
        lemma_objs_enc_payloads_len::<T>(s.skip(1));
        assert(size * s.len() == size + size * (s.len() - 1)) by {
            vstd::arithmetic::mul::lemma_mul_is_distributive_add(size, 1, s.len() - 1);
        }
    }
}

/// What a successful sequence-mode decode guarantees, mirroring the
/// multi-address law: exact byte counts, and a full round trip on canonical
/// bytes for a non-empty result. Implied addresses may run past 24 bits, so
/// only the first address is known to fit three bytes.
pub proof fn lemma_objs_dec_seq<T: FromBytes>(b: Seq<u8>, n: u8)
    requires
        b.len() <= 16777216,
    ensures
        objs_dec_seq::<T>(b, n) matches Ok(s) ==> if T::size_spec() == 0 {
            b.len() == 3 && s.len() == n
        } else {
            b.len() == 3 + T::size_spec() * s.len() && s.len() >= 1
        },
        objs_dec_seq::<T>(b, n) matches Ok(s) ==> objs_canon_seq::<T>(b) && s.len() >= 1 ==> (
        forall|i: int| 0 <= i < s.len() ==> (#[trigger] s[i]).object.wf()) && objs_consecutive(s)
            && s[0].address < 16777216 && objs_enc_seq(s) =~= b,
{
    reveal_with_fuel(objs_dec_multi, 2);
    reveal_with_fuel(objs_dec_rest, 2);
    reveal(objs_dec_seq);
    reveal_with_fuel(objs_canon_multi, 2);
    reveal_with_fuel(objs_canon_rest, 2);
    reveal(objs_canon_seq);
    let size = T::size_spec() as int;
    if objs_dec_seq::<T>(b, n) is Ok {
        let s = objs_dec_seq::<T>(b, n)->Ok_0;
        let first_addr = addr24(b[0], b[1], b[2]);
        let chunk = b.subrange(3, 3 + size);
        T::lemma_dec(chunk);
        let first = T::dec(chunk)->Ok_0;
        if size == 0 {
            assert(s.len() == n && b.len() == 3);
            if objs_canon_seq::<T>(b) && s.len() >= 1 {
                assert(forall|i: int|
                    0 <= i < s.len() ==> (#[trigger] s[i]).address == ((first_addr + i) as u32)
                        && s[i].object == first);
                assert(objs_consecutive(s)) by {
                    assert(s[0].address == first_addr);
                }
                assert(objs_enc_payloads(s) =~= Seq::<u8>::empty()) by {
                    lemma_objs_enc_payloads_len::<T>(s);
                    vstd::arithmetic::mul::lemma_mul_basics(s.len() as int);
                }
                lemma_addr24_parts(b[0], b[1], b[2]);
                assert(objs_enc_seq(s) =~= b);
            }
        } else {
            let tail = b.skip(3 + size);
            lemma_objs_dec_rest::<T>(tail, next_addr32(first_addr));
            let rest = objs_dec_rest::<T>(tail, next_addr32(first_addr))->Ok_0;
            let g = GenericObject { address: first_addr, object: first };
            assert(s == seq![g] + rest);
            assert(s.skip(1) =~= rest);
            assert(forall|i: int| 1 <= i < s.len() ==> #[trigger] s[i] == rest[i - 1]);
            assert(b.len() == 3 + size + size * rest.len());
            assert(size * s.len() == size + size * rest.len()) by {
                vstd::arithmetic::mul::lemma_mul_is_distributive_add(size, 1, rest.len() as int);
            }
            if objs_canon_seq::<T>(b) {
                assert(objs_consecutive(s)) by {
                    assert(forall|i: int|
                        1 <= i < s.len() ==> (#[trigger] rest[i - 1]).address == (((first_addr
                            + 1) + (i - 1)) as u32));
                    assert(forall|i: int|
                        1 <= i < s.len() ==> (#[trigger] s[i]).address == ((first_addr + i)
                            as u32));
                    assert(first_addr < 16777216);
                    assert(s.len() <= size * s.len()) by (nonlinear_arith)
                        requires
                            size >= 1,
                            s.len() >= 0,
                    ;
                    assert(s.len() <= b.len());
                    assert(forall|i: int|
                        0 <= i < s.len() ==> (#[trigger] s[i]).address == s[0].address + i);
                }
                lemma_addr24_parts(b[0], b[1], b[2]);
                assert(objs_enc_payloads(s) =~= chunk + objs_enc_payloads(rest));
                assert(objs_enc_seq(s) =~= b);
            }
        }
    }
}

/// Encoding a well-formed, consecutive, non-empty object list in sequence
/// mode is undone by decoding, for types that carry a payload.
pub proof fn lemma_objs_enc_seq_dec<T: FromBytes>(s: Seq<GenericObject<T>>, n: u8)
    requires
        T::size_spec() > 0,
        1 <= s.len() <= 16777216,
        objs_wf(s),
        objs_consecutive(s),
    ensures
        objs_dec_seq::<T>(objs_enc_seq(s), n) == Ok::<Seq<GenericObject<T>>, ParseError>(s),
{
    reveal_with_fuel(objs_dec_multi, 2);
    reveal_with_fuel(objs_dec_rest, 2);
    reveal(objs_dec_seq);
    reveal_with_fuel(objs_canon_multi, 2);
    reveal_with_fuel(objs_canon_rest, 2);
    reveal(objs_canon_seq);
    let size = T::size_spec() as int;
    let e = objs_enc_seq(s);
    let g = s[0];
    g.object.lemma_enc_len();
    T::lemma_enc(g.object);
    assert(e.subrange(3, 3 + size) =~= g.object.enc());
    lemma_addr24_round_trip(g.address);
    assert(addr24(e[0], e[1], e[2]) == g.address) by {
        assert(e[0] == addr24_bytes(g.address)[0]);
        assert(e[1] == addr24_bytes(g.address)[1]);
        assert(e[2] == addr24_bytes(g.address)[2]);
    }
    assert(e.skip(3 + size) =~= objs_enc_payloads(s.skip(1)));
    assert(forall|i: int|
        0 <= i < s.skip(1).len() ==> (#[trigger] s.skip(1)[i]).object.wf() && s.skip(1)[i].address
            == (((g.address + 1) + i) as u32)) by {
        assert(forall|i: int|
            0 <= i < s.skip(1).len() ==> #[trigger] s.skip(1)[i] == s[i + 1]);
    }
    lemma_objs_enc_rest_dec::<T>(s.skip(1), next_addr32(g.address));
    assert(T::dec(e.subrange(3, 3 + size)) == Ok::<T, ParseError>(g.object));
    assert(objs_dec_rest::<T>(e.skip(3 + size), next_addr32(g.address)) == Ok::<
        Seq<GenericObject<T>>,
        ParseError,
    >(s.skip(1)));
    assert(e.len() >= 3 + size);
    assert(seq![GenericObject { address: g.address, object: g.object }] + s.skip(1) =~= s);
}

} // verus!
