//! The ASDU codec: framing of type, cause, addresses and object count
//! around the value codec.

use vstd::prelude::*;

use crate::cot::Cot;
use crate::types::objects::{InformationObjects, ObjectsView};
use crate::types::{ParseError, word16};
use crate::types_id::TypeId;

verus! {

/// Why an ASDU failed to decode or encode.
#[derive(Debug, Copy, Clone, Eq, PartialEq, Structural)]
pub enum AsduError {
    /// The body length does not fit the object count in the header.
    NumberOfObjects,
    /// More than 127 objects cannot be counted in the seven-bit field.
    TooManyObjects,
    /// Fewer than the six header bytes.
    NotEnoughBytes,
    /// An object payload failed to decode.
    InvalidInformationObject(ParseError),
}

/// One application service data unit: the header fields and the decoded
/// object list.
#[derive(Debug, Clone, PartialEq)]
pub struct Asdu {
    /// The type identifier.
    pub type_id: TypeId,
    /// The cause of transmission.
    pub cot: Cot,
    /// The originator address.
    pub originator_address: u8,
    /// The common address of the station.
    pub address_field: u16,
    /// Whether the objects use the packed sequence addressing mode.
    pub sequence: bool,
    /// The test flag of the cause byte.
    pub test: bool,
    /// The negative-confirm bit of the cause byte: set means negative.
    pub positive: bool,
    /// The information objects.
    pub information_objects: InformationObjects,
}

impl Asdu {
    /// The six header bytes of this unit; the count comes from the list.
    pub open spec fn hdr_enc(self) -> Seq<u8> {
        seq![
            self.type_id.code(),
            ((if self.sequence { 128int } else { 0 })
                + (self.information_objects@.len() as int % 128)) as u8,
            ((if self.test { 128int } else { 0 }) + (if self.positive { 64int } else { 0 })
                + self.cot.code()) as u8,
            self.originator_address,
            (self.address_field % 256) as u8,
            (self.address_field / 256) as u8,
        ]
    }

    /// The whole wire form of this unit.
    pub open spec fn enc(self) -> Seq<u8> {
        self.hdr_enc() + self.information_objects@.enc(self.sequence)
    }

    /// Whether the body length fits the header count for the given type,
    /// count and addressing mode: the check that guards the value codec.
    pub open spec fn count_fits(type_id: TypeId, sequence: bool, n: u8, remaining: nat) -> bool {
        if sequence {
            remaining == 3 + type_id.size_spec() * n
        } else {
            remaining == (3 + type_id.size_spec()) * n
        }
    }

    /// Whether a byte run is an acceptable ASDU: enough header bytes, a
    /// body length that fits the advertised count, and a body the value
    /// codec accepts.
    pub open spec fn dec_ok(b: Seq<u8>) -> bool {
        &&& b.len() >= 6
        &&& Self::count_fits(
            TypeId::of_byte(b[0]),
            b[1] / 128 == 1,
            b[1] % 128,
            (b.len() - 6) as nat,
        )
        &&& ObjectsView::dec(
            TypeId::of_byte(b[0]),
            b[1] / 128 == 1,
            b[1] % 128,
            b.subrange(6, b.len() as int),
        ) is Ok
    }

    /// Parses an ASDU. The header is read field by field; the body length
    /// must fit the advertised object count exactly; the object list itself
    /// is decoded by the value codec. Acceptance is exactly `dec_ok`, and
    /// on success the object list is the body's decode.
    pub fn parse(bytes: &[u8]) -> (r: Result<Asdu, AsduError>)
        ensures
            bytes@.len() < 6 ==> r == Err::<Asdu, AsduError>(AsduError::NotEnoughBytes),
            r matches Ok(a) ==> {
                &&& bytes@.len() >= 6
                &&& a.type_id == TypeId::of_byte(bytes@[0])
                &&& a.sequence == (bytes@[1] / 128 == 1)
                &&& a.test == (bytes@[2] / 128 == 1)
                &&& a.positive == ((bytes@[2] % 128) / 64 == 1)
                &&& a.cot == Cot::of_byte(bytes@[2] % 64)
                &&& a.originator_address == bytes@[3]
                &&& a.address_field == word16(bytes@[4], bytes@[5])
                &&& Self::count_fits(
                    a.type_id,
                    a.sequence,
                    bytes@[1] % 128,
                    (bytes@.len() - 6) as nat,
                )
            },
            bytes@.len() >= 6 && !Self::count_fits(
                TypeId::of_byte(bytes@[0]),
                bytes@[1] / 128 == 1,
                bytes@[1] % 128,
                (bytes@.len() - 6) as nat,
            ) ==> r == Err::<Asdu, AsduError>(AsduError::NumberOfObjects),
            r is Ok <==> Self::dec_ok(bytes@),
            r matches Ok(a) ==> ObjectsView::dec(
                TypeId::of_byte(bytes@[0]),
                bytes@[1] / 128 == 1,
                bytes@[1] % 128,
                bytes@.subrange(6, bytes@.len() as int),
            ) == Ok::<ObjectsView, ParseError>(a.information_objects@),
            bytes@.len() >= 6 && Self::count_fits(
                TypeId::of_byte(bytes@[0]),
                bytes@[1] / 128 == 1,
                bytes@[1] % 128,
                (bytes@.len() - 6) as nat,
            ) ==> (match ObjectsView::dec(
                TypeId::of_byte(bytes@[0]),
                bytes@[1] / 128 == 1,
                bytes@[1] % 128,
                bytes@.subrange(6, bytes@.len() as int),
            ) {
                Ok(v) => r is Ok,
                Err(e) => r == Err::<Asdu, AsduError>(AsduError::InvalidInformationObject(e)),
            }),
    {
        if bytes.len() < 6 {
            return Err(AsduError::NotEnoughBytes);
        }
        let type_id = TypeId::from_byte(bytes[0]);
        let sequence = bytes[1] / 128 == 1;
        let num_objs = bytes[1] % 128;
        let test = bytes[2] / 128 == 1;
        let positive = (bytes[2] % 128) / 64 == 1;
        let cot = match Cot::from_byte(bytes[2] % 64) {
            Ok(c) => c,
            Err(_) => {
                proof {
                    assert(false);  // six bits always decode
                }
                Cot::Unused
            },
        };
        let originator_address = bytes[3];
        let address_field = crate::types::u16_from_le_pair(bytes[4], bytes[5]);
        let object_size = type_id.size();
        proof {
            assert(type_id.size_spec() <= 12);
            assert(object_size * (num_objs as usize) <= 1524 && (3 + object_size) * (
            num_objs as usize) <= 1905) by (nonlinear_arith)
                requires
                    object_size <= 12,
                    num_objs < 128,
            ;
        }
        let remaining = bytes.len() - 6;
        let expected: usize = if sequence {
            3 + object_size * (num_objs as usize)
        } else {
            (3 + object_size) * (num_objs as usize)
        };
        if remaining != expected {
            return Err(AsduError::NumberOfObjects);
        }
        let body = &bytes[6..bytes.len()];
        proof {
            assert(body@ =~= bytes@.subrange(6, bytes@.len() as int));
        }
        let information_objects =
            match InformationObjects::from_bytes(type_id, sequence, num_objs, body) {
            Ok(io) => io,
            Err(e) => {
                return Err(AsduError::InvalidInformationObject(e));
            },
        };
        Ok(Asdu {
            type_id,
            cot,
            originator_address,
            address_field,
            sequence,
            test,
            positive,
            information_objects,
        })
    }

    /// Appends the wire form of this unit. Fails exactly when more than 127
    /// objects are held; the buffer is untouched in that case.
    pub fn to_bytes(&self, buffer: &mut Vec<u8>) -> (r: Result<(), AsduError>)
        requires
            self.sequence ==> self.information_objects@.len() > 0,
        ensures
            self.information_objects@.len() > 127 ==> r == Err::<(), AsduError>(
                AsduError::TooManyObjects,
            ) && final(buffer)@ == old(buffer)@,
            self.information_objects@.len() <= 127 ==> r is Ok && final(buffer)@ == old(buffer)@
                + self.enc(),
    {
        let num_objs = self.information_objects.len();
        if num_objs > 127 {
            return Err(AsduError::TooManyObjects);
        }
        buffer.push(self.type_id.to_byte());
        let b1: u8 = if self.sequence {
            128 + (num_objs as u8) % 128
        } else {
            (num_objs as u8) % 128
        };
        buffer.push(b1);
        let mut b2: u8 = self.cot.to_byte();
        if self.test {
            b2 = b2 + 128;
        }
        if self.positive {
            b2 = b2 + 64;
        }
        buffer.push(b2);
        buffer.push(self.originator_address);
        crate::types::push_u16_le(buffer, self.address_field);
        let r = self.information_objects.to_bytes(self.sequence, buffer);
        proof {
            assert(buffer@ =~= old(buffer)@ + self.enc());
        }
        Ok(())
    }
}

} // verus!
