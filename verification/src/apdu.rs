//! The APDU codec: the fixed two-byte header and the three frame variants.

use vstd::prelude::*;

use crate::asdu::Asdu;
use crate::error::Error;

verus! {

/// The start byte of every telegram.
pub const TELEGRAM_HEADER: u8 = 0x68;

/// The largest value the length byte may carry.
pub const APDU_MAX_LENGTH: u8 = 253;

/// An information transfer frame: two fifteen-bit sequence numbers and an
/// ASDU. A sequence number is wire-representable only when the low byte of
/// its carrier word stays below 128, since the lowest control bit is
/// reserved for the frame discriminator.
#[derive(Debug, Clone, PartialEq)]
pub struct IFrame {
    /// The send sequence number.
    pub send_sequence_number: u16,
    /// The receive sequence number.
    pub receive_sequence_number: u16,
    /// The payload.
    pub asdu: Asdu,
}

/// A sequence number whose low carrier byte fits the seven bits the wire
/// grants it.
pub open spec fn seq_num_wf(n: u16) -> bool {
    n % 256 < 128
}

/// The two control bytes that carry a sequence number.
pub open spec fn seq_num_enc(n: u16) -> Seq<u8> {
    seq![((n % 128) * 2) as u8, (n / 256) as u8]
}

/// The sequence number carried by two control bytes.
pub open spec fn seq_num_dec(b0: u8, b1: u8) -> u16 {
    (b0 / 2 + 256 * b1) as u16
}

/// Sequence numbers survive both round trips through their control bytes,
/// given the reserved low bit is clear.
pub proof fn lemma_seq_num_round_trip(n: u16, b0: u8, b1: u8)
    ensures
        seq_num_wf(n) ==> seq_num_dec(seq_num_enc(n)[0], seq_num_enc(n)[1]) == n,
        b0 % 2 == 0 ==> seq_num_enc(seq_num_dec(b0, b1)) =~= seq![b0, b1],
        seq_num_wf(seq_num_dec(b0, b1)),
{
    crate::types::lemma_split_word(n as int, 256, n as int / 256, n as int % 256);
    if seq_num_wf(n) {
        crate::types::lemma_split_word(n as int, 128, 2 * (n as int / 256), n as int % 128);
        assert(n as int % 256 == n as int % 128);
        let e0 = (n % 128) * 2;
        crate::types::lemma_split_word(e0 as int, 2, n as int % 128, 0);
        assert(seq_num_dec(seq_num_enc(n)[0], seq_num_enc(n)[1]) as int == n as int % 128 + 256 * (
        n as int / 256));
    }
    let v = seq_num_dec(b0, b1) as int;
    assert(v == b0 / 2 + 256 * b1);
    crate::types::lemma_split_word(v, 256, b1 as int, b0 as int / 2);
    crate::types::lemma_split_word(v, 128, 2 * b1, b0 as int / 2);
    if b0 % 2 == 0 {
        vstd::arithmetic::div_mod::lemma_fundamental_div_mod(b0 as int, 2);
        assert((v % 128) * 2 == b0);
    }
}

impl IFrame {
    /// Both sequence numbers are wire-representable.
    pub open spec fn ctrl_wf(self) -> bool {
        seq_num_wf(self.send_sequence_number) && seq_num_wf(self.receive_sequence_number)
    }

    /// The four control bytes of this frame.
    pub open spec fn ctrl_enc(self) -> Seq<u8> {
        seq_num_enc(self.send_sequence_number) + seq_num_enc(self.receive_sequence_number)
    }

    /// Appends the control bytes and the ASDU.
    pub fn to_bytes(&self, buffer: &mut Vec<u8>) -> (r: Result<(), Error>)
        requires
            self.asdu.sequence ==> self.asdu.information_objects@.len() > 0,
            self.asdu.information_objects@.len() <= 127,
        ensures
            r is Ok,
            final(buffer)@ == old(buffer)@ + self.ctrl_enc() + self.asdu.enc(),
    {
        buffer.push(((self.send_sequence_number % 128) as u8) * 2);
        buffer.push((self.send_sequence_number / 256) as u8);
        buffer.push(((self.receive_sequence_number % 128) as u8) * 2);
        buffer.push((self.receive_sequence_number / 256) as u8);
        let r = self.asdu.to_bytes(buffer);
        proof {
            assert(buffer@ =~= old(buffer)@ + self.ctrl_enc() + self.asdu.enc());
        }
        Ok(())
    }
}

/// A supervisory frame: a bare acknowledgement.
#[derive(Debug, Clone, Eq, PartialEq, Structural, Default)]
pub struct SFrame {
    /// The receive sequence number: everything below it is acknowledged.
    pub receive_sequence_number: u16,
}

impl SFrame {
    /// The sequence number is wire-representable.
    pub open spec fn ctrl_wf(self) -> bool {
        seq_num_wf(self.receive_sequence_number)
    }

    /// The four control bytes of this frame.
    pub open spec fn ctrl_enc(self) -> Seq<u8> {
        seq![1u8, 0u8] + seq_num_enc(self.receive_sequence_number)
    }

    /// What four control bytes decode to: the fixed S pattern with the
    /// reserved low bit of the number clear, then the number.
    pub open spec fn ctrl_dec(b: Seq<u8>) -> Result<SFrame, Error> {
        if b[0] != 1 || b[1] != 0 || b[2] % 2 != 0 {
            Err(Error::InvalidSFrameControlFields)
        } else {
            Ok(SFrame { receive_sequence_number: seq_num_dec(b[2], b[3]) })
        }
    }

    /// Decodes an S-frame from its four control bytes.
    pub fn from_control_fields(b0: u8, b1: u8, b2: u8, b3: u8) -> (r: Result<SFrame, Error>)
        ensures
            r == Self::ctrl_dec(seq![b0, b1, b2, b3]),
    {
        if b0 != 1 || b1 != 0 || b2 % 2 != 0 {
            Err(Error::InvalidSFrameControlFields)
        } else {
            Ok(SFrame { receive_sequence_number: b2 as u16 / 2 + 256 * (b3 as u16) })
        }
    }

    /// Appends the four control bytes.
    pub fn to_bytes(&self, buffer: &mut Vec<u8>) -> (r: Result<(), Error>)
        ensures
            r is Ok,
            final(buffer)@ == old(buffer)@ + self.ctrl_enc(),
    {
        buffer.push(1);
        buffer.push(0);
        buffer.push(((self.receive_sequence_number % 128) as u8) * 2);
        buffer.push((self.receive_sequence_number / 256) as u8);
        proof {
            assert(buffer@ =~= old(buffer)@ + self.ctrl_enc());
        }
        Ok(())
    }
}

/// S-frames survive both round trips: every accepted control field is
/// rebuilt byte for byte, and every wire-representable frame survives
/// encode-then-decode.
pub proof fn lemma_s_frame_round_trip(x: SFrame, b: Seq<u8>)
    requires
        b.len() == 4,
    ensures
        x.ctrl_wf() ==> SFrame::ctrl_dec(x.ctrl_enc()) == Ok::<SFrame, Error>(x),
        SFrame::ctrl_dec(b) matches Ok(y) ==> y.ctrl_wf() && y.ctrl_enc() =~= b,
{
    lemma_seq_num_round_trip(x.receive_sequence_number, b[2], b[3]);
}

/// An unnumbered frame: six mutually exclusive command and confirmation
/// bits.
#[derive(Debug, Clone, Eq, PartialEq, Structural, Default)]
pub struct UFrame {
    /// Start data transfer, activation.
    pub start_dt_activation: bool,
    /// Start data transfer, confirmation.
    pub start_dt_confirmation: bool,
    /// Stop data transfer, activation.
    pub stop_dt_activation: bool,
    /// Stop data transfer, confirmation.
    pub stop_dt_confirmation: bool,
    /// Test frame, activation.
    pub test_fr_activation: bool,
    /// Test frame, confirmation.
    pub test_fr_confirmation: bool,
}

impl UFrame {
    /// The four control bytes of this frame.
    pub open spec fn ctrl_enc(self) -> Seq<u8> {
        seq![
            (3 + (if self.start_dt_activation { 4int } else { 0 }) + (if self
                .start_dt_confirmation {
                8int
            } else {
                0
            }) + (if self.stop_dt_activation { 16int } else { 0 }) + (if self
                .stop_dt_confirmation {
                32int
            } else {
                0
            }) + (if self.test_fr_activation { 64int } else { 0 }) + (if self
                .test_fr_confirmation {
                128int
            } else {
                0
            })) as u8,
            0u8,
            0u8,
            0u8,
        ]
    }

    /// What four control bytes decode to: the trailing bytes must be clear.
    pub open spec fn ctrl_dec(b: Seq<u8>) -> Result<UFrame, Error> {
        if b[1] != 0 || b[2] != 0 || b[3] != 0 {
            Err(Error::InvalidUFrameControlFields)
        } else {
            Ok(
                UFrame {
                    start_dt_activation: (b[0] % 8) / 4 == 1,
                    start_dt_confirmation: (b[0] % 16) / 8 == 1,
                    stop_dt_activation: (b[0] % 32) / 16 == 1,
                    stop_dt_confirmation: (b[0] % 64) / 32 == 1,
                    test_fr_activation: (b[0] % 128) / 64 == 1,
                    test_fr_confirmation: b[0] / 128 == 1,
                },
            )
        }
    }

    /// Decodes a U-frame from its four control bytes.
    pub fn from_control_fields(b0: u8, b1: u8, b2: u8, b3: u8) -> (r: Result<UFrame, Error>)
        ensures
            r == Self::ctrl_dec(seq![b0, b1, b2, b3]),
    {
        if b1 != 0 || b2 != 0 || b3 != 0 {
            Err(Error::InvalidUFrameControlFields)
        } else {
            Ok(
                UFrame {
                    start_dt_activation: (b0 % 8) / 4 == 1,
                    start_dt_confirmation: (b0 % 16) / 8 == 1,
                    stop_dt_activation: (b0 % 32) / 16 == 1,
                    stop_dt_confirmation: (b0 % 64) / 32 == 1,
                    test_fr_activation: (b0 % 128) / 64 == 1,
                    test_fr_confirmation: b0 / 128 == 1,
                },
            )
        }
    }

    /// Appends the four control bytes.
    pub fn to_bytes(&self, buffer: &mut Vec<u8>) -> (r: Result<(), Error>)
        ensures
            r is Ok,
            final(buffer)@ == old(buffer)@ + self.ctrl_enc(),
    {
        let mut byte: u8 = 3;
        if self.start_dt_activation {
            byte = byte + 4;
        }
        if self.start_dt_confirmation {
            byte = byte + 8;
        }
        if self.stop_dt_activation {
            byte = byte + 16;
        }
        if self.stop_dt_confirmation {
            byte = byte + 32;
        }
        if self.test_fr_activation {
            byte = byte + 64;
        }
        if self.test_fr_confirmation {
            byte = byte + 128;
        }
        buffer.push(byte);
        buffer.push(0);
        buffer.push(0);
        buffer.push(0);
        proof {
            assert(buffer@ =~= old(buffer)@ + self.ctrl_enc());
        }
        Ok(())
    }
}

/// U-frames survive both round trips: every frame value is representable,
/// and every control field whose discriminator bits read U comes back
/// unchanged.
pub proof fn lemma_u_frame_round_trip(x: UFrame, b: Seq<u8>)
    requires
        b.len() == 4,
    ensures
        UFrame::ctrl_dec(x.ctrl_enc()) == Ok::<UFrame, Error>(x),
        UFrame::ctrl_dec(b) matches Ok(y) ==> b[0] % 4 == 3 ==> y.ctrl_enc() =~= b,
{
    crate::types::lemma_byte_parts(
        x.ctrl_enc()[0] as int,
        if x.test_fr_confirmation { 1int } else { 0 },
        if x.test_fr_activation { 1int } else { 0 },
        if x.stop_dt_confirmation { 1int } else { 0 },
        if x.stop_dt_activation { 1int } else { 0 },
        if x.start_dt_confirmation { 1int } else { 0 },
        if x.start_dt_activation { 1int } else { 0 },
        1,
        1,
    );
    crate::types::lemma_byte_bits(b[0]);
}

/// One of the three frame variants.
#[derive(Debug, Clone, PartialEq)]
pub enum Frame {
    /// Information transfer.
    I(IFrame),
    /// Supervisory acknowledgement.
    S(SFrame),
    /// Unnumbered command.
    U(UFrame),
}

impl Frame {
    /// The wire form of the frame after the two header bytes.
    pub open spec fn enc(self) -> Seq<u8> {
        match self {
            Frame::I(f) => f.ctrl_enc() + f.asdu.enc(),
            Frame::S(f) => f.ctrl_enc(),
            Frame::U(f) => f.ctrl_enc(),
        }
    }

    /// The conditions under which this frame encodes losslessly.
    pub open spec fn enc_wf(self) -> bool {
        match self {
            Frame::I(f) => f.ctrl_wf() && (f.asdu.sequence
                ==> f.asdu.information_objects@.len() > 0)
                && f.asdu.information_objects@.len() <= 127,
            Frame::S(f) => f.ctrl_wf(),
            Frame::U(_) => true,
        }
    }

    /// Appends the wire form of this frame.
    pub fn to_bytes(&self, buffer: &mut Vec<u8>) -> (r: Result<(), Error>)
        requires
            self.enc_wf(),
        ensures
            r is Ok,
            final(buffer)@ == old(buffer)@ + self.enc(),
    {
        match self {
            Frame::I(f) => f.to_bytes(buffer),
            Frame::S(f) => f.to_bytes(buffer),
            Frame::U(f) => f.to_bytes(buffer),
        }
    }

    /// Builds a whole APDU around this frame: start byte, length byte, then
    /// the frame.
    pub fn to_apdu_bytes(&self) -> (r: Result<Vec<u8>, Error>)
        requires
            self.enc_wf(),
            self.enc().len() <= 253,
        ensures
            r matches Ok(v) ==> v@ =~= seq![TELEGRAM_HEADER, self.enc().len() as u8] + self.enc(),
            r is Ok,
    {
        let mut body: Vec<u8> = Vec::new();
        let r = self.to_bytes(&mut body);
        let mut buffer: Vec<u8> = Vec::new();
        buffer.push(TELEGRAM_HEADER);
        buffer.push(body.len() as u8);
        buffer.append(&mut body);
        Ok(buffer)
    }
}

/// A framed packet: the length byte and the frame it announces.
#[derive(Debug, Clone, PartialEq)]
pub struct Apdu {
    /// The length byte: the number of bytes after the two-byte header.
    pub length: u8,
    /// The frame.
    pub frame: Frame,
}

/// A byte run whose APDU header is sound: start byte, length byte in
/// range, and total length matching it.
pub open spec fn hdr_ok(data: Seq<u8>) -> bool {
    data.len() >= 6 && data[0] == 0x68 && data[1] <= 253 && data.len() == data[1] + 2
}

/// Whether a byte run is one acceptable APDU: a sound header, and a
/// control frame or I-frame that every layer below accepts.
pub open spec fn apdu_dec_ok(data: Seq<u8>) -> bool {
    &&& hdr_ok(data)
    &&& if data[1] == 4 {
        ||| (data[2] % 4 == 1 && SFrame::ctrl_dec(data.subrange(2, 6)) is Ok)
        ||| (data[2] % 4 == 3 && UFrame::ctrl_dec(data.subrange(2, 6)) is Ok)
    } else {
        &&& data[2] % 2 == 0
        &&& data[4] % 2 == 0
        &&& crate::asdu::Asdu::dec_ok(data.subrange(6, data.len() as int))
    }
}

impl Apdu {
    /// Decodes one APDU. The start byte, the length byte, the exact total
    /// length and the control-field discriminator are all checked; length
    /// four is a control frame, anything longer is an I-frame.
    pub fn from_bytes(data: &[u8]) -> (r: Result<Apdu, Error>)
        ensures
            data@.len() < 6 ==> r == Err::<Apdu, Error>(Error::ApduTooShort),
            data@.len() >= 6 && data@[0] != 0x68 ==> r == Err::<Apdu, Error>(
                Error::InvalidTelegramHeader,
            ),
            data@.len() >= 6 && data@[0] == 0x68 && data@[1] > 253 ==> r == Err::<Apdu, Error>(
                Error::InvalidLength,
            ),
            data@.len() >= 6 && data@[0] == 0x68 && data@[1] <= 253 && data@.len() != data@[1]
                + 2 ==> r == Err::<Apdu, Error>(Error::InvalidLength),
            hdr_ok(data@) && data@[1] == 4 && data@[2] % 4 != 1 && data@[2] % 4 != 3 ==> r
                == Err::<Apdu, Error>(Error::InvalidControlField),
            hdr_ok(data@) && data@[1] == 4 && data@[2] % 4 == 3 ==> r == (match UFrame::ctrl_dec(
                data@.subrange(2, 6),
            ) {
                Ok(u) => Ok::<Apdu, Error>((Apdu { length: 4, frame: Frame::U(u) })),
                Err(e) => Err::<Apdu, Error>(e),
            }),
            hdr_ok(data@) && data@[1] == 4 && data@[2] % 4 == 1 ==> r == (match SFrame::ctrl_dec(
                data@.subrange(2, 6),
            ) {
                Ok(sf) => Ok::<Apdu, Error>((Apdu { length: 4, frame: Frame::S(sf) })),
                Err(e) => Err::<Apdu, Error>(e),
            }),
            hdr_ok(data@) && data@[1] != 4 && (data@[2] % 2 != 0 || data@[4] % 2 != 0) ==> r
                == Err::<Apdu, Error>(Error::InvalidIFrameControlFields),
            hdr_ok(data@) && data@[1] != 4 && data@[2] % 2 == 0 && data@[4] % 2 == 0 ==> (r is Ok
                <==> crate::asdu::Asdu::dec_ok(data@.subrange(6, data@.len() as int))),
            r is Ok <==> apdu_dec_ok(data@),
            r matches Ok(a) ==> {
                &&& data@.len() >= 6
                &&& data@[0] == 0x68
                &&& a.length == data@[1]
                &&& data@.len() == a.length + 2
                &&& match a.frame {
                    Frame::S(s) => a.length == 4 && data@[2] % 4 == 1
                        && Ok::<SFrame, Error>(s) == SFrame::ctrl_dec(data@.subrange(2, 6)),
                    Frame::U(u) => a.length == 4 && data@[2] % 4 == 3
                        && Ok::<UFrame, Error>(u) == UFrame::ctrl_dec(data@.subrange(2, 6)),
                    Frame::I(f) => {
                        let body = data@.subrange(6, data@.len() as int);
                        &&& a.length != 4
                        &&& data@[2] % 2 == 0 && data@[4] % 2 == 0
                        &&& f.send_sequence_number == seq_num_dec(data@[2], data@[3])
                        &&& f.receive_sequence_number == seq_num_dec(data@[4], data@[5])
                        &&& f.asdu.type_id == crate::types_id::TypeId::of_byte(body[0])
                        &&& f.asdu.sequence == (body[1] / 128 == 1)
                        &&& f.asdu.test == (body[2] / 128 == 1)
                        &&& f.asdu.positive == ((body[2] % 128) / 64 == 1)
                        &&& f.asdu.cot == crate::cot::Cot::of_byte(body[2] % 64)
                        &&& f.asdu.originator_address == body[3]
                        &&& f.asdu.address_field == crate::types::word16(body[4], body[5])
                        &&& crate::types::ObjectsView::dec(
                            f.asdu.type_id,
                            f.asdu.sequence,
                            body[1] % 128,
                            body.subrange(6, body.len() as int),
                        ) == Ok::<crate::types::ObjectsView, crate::types::ParseError>(
                            f.asdu.information_objects@,
                        )
                    },
                }
            },
    {
        if data.len() < 6 {
            return Err(Error::ApduTooShort);
        }
        if data[0] != 0x68 {
            return Err(Error::InvalidTelegramHeader);
        }
        let length = data[1];
        if length > 253 {
            return Err(Error::InvalidLength);
        }
        if data.len() != length as usize + 2 {
            return Err(Error::InvalidLength);
        }
        if length == 4 {
            let frame = if data[2] % 4 == 3 {
                match UFrame::from_control_fields(data[2], data[3], data[4], data[5]) {
                    Ok(u) => Frame::U(u),
                    Err(e) => {
                        return Err(e);
                    },
                }
            } else if data[2] % 4 == 1 {
                match SFrame::from_control_fields(data[2], data[3], data[4], data[5]) {
                    Ok(s) => Frame::S(s),
                    Err(e) => {
                        return Err(e);
                    },
                }
            } else {
                return Err(Error::InvalidControlField);
            };
            proof {
                assert(data@.subrange(2, 6) =~= seq![data@[2], data@[3], data@[4], data@[5]]);
            }
            Ok(Apdu { length, frame })
        } else {
            if data[2] % 2 != 0 || data[4] % 2 != 0 {
                return Err(Error::InvalidIFrameControlFields);
            }
            let send_sequence_number = data[2] as u16 / 2 + 256 * (data[3] as u16);
            let receive_sequence_number = data[4] as u16 / 2 + 256 * (data[5] as u16);
            let body = &data[6..data.len()];
            proof {
                assert(body@ =~= data@.subrange(6, data@.len() as int));
            }
            let asdu = match crate::asdu::Asdu::parse(body) {
                Ok(a) => a,
                Err(e) => {
                    return Err(Error::InvalidAsdu(e));
                },
            };
            Ok(
                Apdu {
                    length,
                    frame: Frame::I(
                        IFrame { send_sequence_number, receive_sequence_number, asdu },
                    ),
                },
            )
        }
    }

    /// Rebuilds the wire form of this packet.
    pub fn to_bytes(&self) -> (r: Result<Vec<u8>, Error>)
        requires
            self.frame.enc_wf(),
        ensures
            r matches Ok(v) ==> v@ =~= seq![TELEGRAM_HEADER, self.length] + self.frame.enc(),
            r is Ok,
    {
        let mut buffer: Vec<u8> = Vec::new();
        buffer.push(TELEGRAM_HEADER);
        buffer.push(self.length);
        let r = self.frame.to_bytes(&mut buffer);
        Ok(buffer)
    }
}

/// The control-frame round trip: an APDU of length four that decodes is
/// rebuilt byte for byte, provided the one reserved S-frame bit is clear;
/// and every wire-representable control frame survives encode-then-decode.
pub proof fn lemma_ctrl_apdu_round_trip(b: Seq<u8>, f: Frame)
    requires
        b.len() == 6,
    ensures
        b[0] == 0x68 && b[1] == 4 && b[2] % 4 == 1 ==> (SFrame::ctrl_dec(
            b.subrange(2, 6),
        ) matches Ok(s) ==> seq![TELEGRAM_HEADER, 4u8] + Frame::S(s).enc() =~= b),
        b[0] == 0x68 && b[1] == 4 && b[2] % 4 == 3 ==> (UFrame::ctrl_dec(
            b.subrange(2, 6),
        ) matches Ok(u) ==> seq![TELEGRAM_HEADER, 4u8] + Frame::U(u).enc() =~= b),
        f matches Frame::S(s) ==> s.ctrl_wf() ==> SFrame::ctrl_dec(f.enc())
            == Ok::<SFrame, Error>(s) && f.enc()[0] % 4 == 1,
        f matches Frame::U(u) ==> UFrame::ctrl_dec(f.enc()) == Ok::<UFrame, Error>(u) && f.enc()[0]
            % 4 == 3,
{
    let c = b.subrange(2, 6);
    if b[0] == 0x68 && b[1] == 4 && b[2] % 4 == 1 && SFrame::ctrl_dec(c) is Ok {
        let s = SFrame::ctrl_dec(c)->Ok_0;
        lemma_seq_num_round_trip(s.receive_sequence_number, c[2], c[3]);
        assert(seq![TELEGRAM_HEADER, 4u8] + Frame::S(s).enc() =~= b);
    }
    if b[0] == 0x68 && b[1] == 4 && b[2] % 4 == 3 && UFrame::ctrl_dec(c) is Ok {
        let u = UFrame::ctrl_dec(c)->Ok_0;
        lemma_u_frame_round_trip(u, c);
        assert(seq![TELEGRAM_HEADER, 4u8] + Frame::U(u).enc() =~= b);
    }
    match f {
        Frame::S(s) => {
            if s.ctrl_wf() {
                lemma_s_frame_round_trip(s, f.enc());
                assert(f.enc()[0] == 1);
                crate::types::lemma_split_word(1, 4, 0, 1);
            }
        },
        Frame::U(u) => {
            lemma_u_frame_round_trip(u, f.enc());
            let q = (if u.start_dt_activation { 1int } else { 0 }) + 2 * (if u
                .start_dt_confirmation {
                1int
            } else {
                0
            }) + 4 * (if u.stop_dt_activation { 1int } else { 0 }) + 8 * (if u
                .stop_dt_confirmation {
                1int
            } else {
                0
            }) + 16 * (if u.test_fr_activation { 1int } else { 0 }) + 32 * (if u
                .test_fr_confirmation {
                1int
            } else {
                0
            });
            crate::types::lemma_split_word(f.enc()[0] as int, 4, q, 3);
        },
        Frame::I(_) => {},
    }
}

/// What an APDU decoded from a byte run satisfies: the header facts and the
/// per-variant frame facts of the decoder, gathered as one relation.
pub open spec fn apdu_dec_rel(a: Apdu, data: Seq<u8>) -> bool {
    &&& hdr_ok(data)
    &&& a.length == data[1]
    &&& match a.frame {
        Frame::S(sf) => a.length == 4 && data[2] % 4 == 1 && Ok::<SFrame, Error>(sf)
            == SFrame::ctrl_dec(data.subrange(2, 6)),
        Frame::U(u) => a.length == 4 && data[2] % 4 == 3 && Ok::<UFrame, Error>(u)
            == UFrame::ctrl_dec(data.subrange(2, 6)),
        Frame::I(f) => {
            let body = data.subrange(6, data.len() as int);
            &&& a.length != 4
            &&& data[2] % 2 == 0 && data[4] % 2 == 0
            &&& f.send_sequence_number == seq_num_dec(data[2], data[3])
            &&& f.receive_sequence_number == seq_num_dec(data[4], data[5])
            &&& f.asdu.type_id == crate::types_id::TypeId::of_byte(body[0])
            &&& f.asdu.sequence == (body[1] / 128 == 1)
            &&& f.asdu.test == (body[2] / 128 == 1)
            &&& f.asdu.positive == ((body[2] % 128) / 64 == 1)
            &&& f.asdu.cot == crate::cot::Cot::of_byte(body[2] % 64)
            &&& f.asdu.originator_address == body[3]
            &&& f.asdu.address_field == crate::types::word16(body[4], body[5])
            &&& crate::types::ObjectsView::dec(
                f.asdu.type_id,
                f.asdu.sequence,
                body[1] % 128,
                body.subrange(6, body.len() as int),
            ) == Ok::<crate::types::ObjectsView, crate::types::ParseError>(
                f.asdu.information_objects@,
            )
        },
    }
}

/// The complete telegrams at the front of a byte run: a telegram starts at
/// a start byte and spans its announced length plus the two header bytes;
/// bytes before a start byte are skipped.
pub open spec fn telegrams_of(b: Seq<u8>) -> Seq<Seq<u8>>
    decreases b.len(),
{
    if b.len() < 2 {
        Seq::empty()
    } else if b[0] != 0x68 {
        telegrams_of(b.skip(1))
    } else if b.len() < b[1] + 2 {
        Seq::empty()
    } else {
        seq![b.take(b[1] + 2)] + telegrams_of(b.skip(b[1] + 2))
    }
}

/// The incomplete telegram left at the end of a byte run: what a reassembly
/// buffer must keep for the next read.
pub open spec fn telegram_tail(b: Seq<u8>) -> Seq<u8>
    decreases b.len(),
{
    if b.len() == 0 {
        b
    } else if b.len() == 1 {
        if b[0] == 0x68 {
            b
        } else {
            Seq::empty()
        }
    } else if b[0] != 0x68 {
        telegram_tail(b.skip(1))
    } else if b.len() < b[1] + 2 {
        b
    } else {
        telegram_tail(b.skip(b[1] + 2))
    }
}

/// Scans a byte run for complete telegrams, decoding each in order and
/// keeping the incomplete tail.
fn scan_telegrams(bytes: &[u8]) -> (r: Result<(Vec<Apdu>, Vec<u8>), Error>)
    ensures
        r matches Ok(p) ==> {
            &&& p.0@.len() == telegrams_of(bytes@).len()
            &&& forall|i: int|
                0 <= i < p.0@.len() ==> apdu_dec_rel(
                    #[trigger] p.0@[i],
                    telegrams_of(bytes@)[i],
                )
            &&& p.1@ == telegram_tail(bytes@)
        },
        r is Err ==> exists|i: int|
            0 <= i < telegrams_of(bytes@).len() && !apdu_dec_ok(
                #[trigger] telegrams_of(bytes@)[i],
            ),
    decreases bytes@.len(),
{
    if bytes.len() == 0 {
        return Ok((Vec::new(), Vec::new()));
    }
    if bytes.len() == 1 {
        if bytes[0] == 0x68 {
            let mut t: Vec<u8> = Vec::new();
            t.push(0x68);
            proof {
                assert(t@ =~= bytes@);
            }
            return Ok((Vec::new(), t));
        }
        return Ok((Vec::new(), Vec::new()));
    }
    if bytes[0] != 0x68 {
        let rest = &bytes[1..bytes.len()];
        proof {
            assert(rest@ =~= bytes@.skip(1));
        }
        let r = scan_telegrams(rest);
        proof {
            if r is Err {
                let tgs = telegrams_of(rest@);
                let j = choose|j: int| 0 <= j < tgs.len() && !apdu_dec_ok(#[trigger] tgs[j]);
                assert(telegrams_of(bytes@)[j] == tgs[j]);
            }
        }
        return r;
    }
    let l = bytes[1] as usize;
    if bytes.len() < l + 2 {
        let t = vstd::slice::slice_to_vec(bytes);
        return Ok((Vec::new(), t));
    }
    let tg = &bytes[0..l + 2];
    proof {
        assert(tg@ =~= bytes@.take(bytes@[1] + 2));
    }
    let a = match Apdu::from_bytes(tg) {
        Ok(a) => a,
        Err(e) => {
            proof {
                assert(telegrams_of(bytes@)[0] == tg@);
            }
            return Err(e);
        },
    };
    let rest = &bytes[l + 2..bytes.len()];
    proof {
        assert(rest@ =~= bytes@.skip(bytes@[1] + 2));
    }
    match scan_telegrams(rest) {
        Ok((mut v, t)) => {
            v.insert(0, a);
            proof {
                assert(telegrams_of(bytes@) =~= seq![bytes@.take(bytes@[1] + 2)] + telegrams_of(
                    bytes@.skip(bytes@[1] + 2),
                ));
                assert(forall|i: int|
                    1 <= i < v@.len() ==> #[trigger] v@[i] == v@.subrange(1, v@.len() as int)[i
                        - 1]);
            }
            Ok((v, t))
        },
        Err(e) => {
            proof {
                let tgs = telegrams_of(bytes@.skip(bytes@[1] + 2));
                let j = choose|j: int| 0 <= j < tgs.len() && !apdu_dec_ok(#[trigger] tgs[j]);
                assert(telegrams_of(bytes@)[j + 1] == tgs[j]);
            }
            Err(e)
        },
    }
}

/// Reassembles telegrams from a byte stream: appends the newly read bytes
/// to the carry-over buffer, decodes every complete telegram in order, and
/// leaves the incomplete tail in the buffer. On a decode failure the buffer
/// holds everything, so the caller sees the bytes that failed.
pub fn split_telegrams(cache: &mut Vec<u8>, incoming: &[u8]) -> (r: Result<Vec<Apdu>, Error>)
    ensures
        r matches Ok(v) ==> {
            let all = old(cache)@ + incoming@;
            &&& v@.len() == telegrams_of(all).len()
            &&& forall|i: int|
                0 <= i < v@.len() ==> apdu_dec_rel(#[trigger] v@[i], telegrams_of(all)[i])
            &&& final(cache)@ == telegram_tail(all)
        },
        r is Err ==> final(cache)@ == old(cache)@ + incoming@ && exists|i: int|
            0 <= i < telegrams_of(old(cache)@ + incoming@).len() && !apdu_dec_ok(
                #[trigger] telegrams_of(old(cache)@ + incoming@)[i],
            ),
{
    let mut k: usize = 0;
    while k < incoming.len()
        invariant
            k <= incoming@.len(),
            cache@ == old(cache)@ + incoming@.take(k as int),
        decreases incoming@.len() - k,
    {
        cache.push(incoming[k]);
        proof {
            assert(cache@ =~= old(cache)@ + incoming@.take(k + 1));
        }
        k = k + 1;
    }
    proof {
        assert(cache@ =~= old(cache)@ + incoming@);
    }
    let r = scan_telegrams(cache.as_slice());
    match r {
        Ok((v, t)) => {
            *cache = t;
            Ok(v)
        },
        Err(e) => Err(e),
    }
}

} // verus!
