//! The three fixed-width time tags: CP16, CP24 and CP56.

use vstd::prelude::*;

use crate::types::{lemma_byte_bits, lemma_split_word, lemma_word16_round_trip, word16};

verus! {

/// Why a time tag failed to decode: the field that was out of range.
#[derive(Debug, Copy, Clone, Eq, PartialEq, Structural)]
pub enum ParseTimeError {
    /// Nanoseconds out of range.
    Nanoseconds,
    /// Milliseconds out of range.
    Milliseconds,
    /// Seconds out of range.
    Seconds,
    /// Minutes out of range.
    Minutes,
    /// Hours out of range.
    Hours,
    /// Days out of range.
    Days,
    /// Months out of range.
    Months,
    /// Years out of range.
    Years,
}

/// Two-byte time tag: a count of milliseconds up to 59999.
#[derive(Debug, Copy, Clone, Eq, PartialEq, Structural, Default)]
pub struct Cp16Time2a {
    /// Milliseconds (0 to 59999).
    pub ms: u16,
}

impl Cp16Time2a {
    /// The range under which encoding is lossless.
    pub open spec fn wf(self) -> bool {
        self.ms <= 59999
    }

    /// The two wire bytes of this tag.
    pub open spec fn enc(self) -> Seq<u8> {
        seq![(self.ms % 256) as u8, (self.ms / 256) as u8]
    }

    /// What two wire bytes decode to.
    pub open spec fn dec(b: Seq<u8>) -> Result<Cp16Time2a, ParseTimeError> {
        let ms = word16(b[0], b[1]);
        if ms > 59999 {
            Err(ParseTimeError::Milliseconds)
        } else {
            Ok(Cp16Time2a { ms })
        }
    }

    /// Decodes a CP16 tag; fails exactly when the count exceeds 59999.
    pub fn from_bytes(bytes: [u8; 2]) -> (r: Result<Cp16Time2a, ParseTimeError>)
        ensures
            r == Self::dec(bytes@),
    {
        let ms = crate::types::u16_from_le_pair(bytes[0], bytes[1]);
        if ms > 59999 {
            Err(ParseTimeError::Milliseconds)
        } else {
            Ok(Cp16Time2a { ms })
        }
    }

    /// Encodes this tag as its two wire bytes.
    pub fn to_bytes(self) -> (r: [u8; 2])
        ensures
            r@ == self.enc(),
    {
        let r = [(self.ms % 256) as u8, (self.ms / 256) as u8];
        proof {
            assert(r@ =~= self.enc());
        }
        r
    }

    /// Appends the two wire bytes of this tag.
    pub fn write_bytes(self, buffer: &mut Vec<u8>)
        ensures
            final(buffer)@ == old(buffer)@ + self.enc(),
    {
        buffer.push((self.ms % 256) as u8);
        buffer.push((self.ms / 256) as u8);
        proof {
            assert(buffer@ =~= old(buffer)@ + self.enc());
        }
    }
}

/// Three-byte time tag: milliseconds within the minute, minutes, and an
/// invalid flag.
#[derive(Debug, Copy, Clone, Eq, PartialEq, Structural, Default)]
pub struct Cp24Time2a {
    /// Milliseconds (0 to 59999).
    pub ms: u16,
    /// Minutes (0 to 59).
    pub min: u8,
    /// Invalid flag.
    pub iv: bool,
}

impl Cp24Time2a {
    /// Field ranges under which encoding is lossless.
    pub open spec fn wf(self) -> bool {
        self.ms <= 59999 && self.min <= 59
    }

    /// The three wire bytes of this tag.
    pub open spec fn enc(self) -> Seq<u8> {
        seq![
            (self.ms % 256) as u8,
            (self.ms / 256) as u8,
            ((if self.iv { 128int } else { 0 }) + (self.min % 64)) as u8,
        ]
    }

    /// What three wire bytes decode to, with the range checks of the decoder.
    pub open spec fn dec(b: Seq<u8>) -> Result<Cp24Time2a, ParseTimeError> {
        let ms = word16(b[0], b[1]);
        let min = b[2] % 64;
        let iv = b[2] / 128 == 1;
        if ms > 59999 {
            Err(ParseTimeError::Milliseconds)
        } else if min > 59 {
            Err(ParseTimeError::Minutes)
        } else {
            Ok(Cp24Time2a { ms, min, iv })
        }
    }

    /// Bytes with the one reserved bit clear: those a round trip preserves.
    pub open spec fn canon(b: Seq<u8>) -> bool {
        (b[2] % 128) / 64 == 0
    }

    /// Decodes a CP24 tag; fails exactly when milliseconds exceed 59999 or
    /// minutes exceed 59.
    pub fn from_bytes(bytes: &[u8; 3]) -> (r: Result<Cp24Time2a, ParseTimeError>)
        ensures
            r == Self::dec(bytes@),
    {
        let ms = crate::types::u16_from_le_pair(bytes[0], bytes[1]);
        let min = bytes[2] % 64;
        let iv = bytes[2] / 128 == 1;
        if ms > 59999 {
            Err(ParseTimeError::Milliseconds)
        } else if min > 59 {
            Err(ParseTimeError::Minutes)
        } else {
            Ok(Cp24Time2a { ms, min, iv })
        }
    }

    /// Encodes this tag as its three wire bytes.
    pub fn to_bytes(self) -> (r: [u8; 3])
        ensures
            r@ == self.enc(),
    {
        let b2: u8 = if self.iv {
            128 + self.min % 64
        } else {
            self.min % 64
        };
        let r = [(self.ms % 256) as u8, (self.ms / 256) as u8, b2];
        proof {
            assert(r@ =~= self.enc());
        }
        r
    }

    /// Appends the three wire bytes of this tag.
    pub fn write_bytes(self, buffer: &mut Vec<u8>)
        ensures
            final(buffer)@ == old(buffer)@ + self.enc(),
    {
        let b = self.to_bytes();
        buffer.push(b[0]);
        buffer.push(b[1]);
        buffer.push(b[2]);
        proof {
            assert(buffer@ =~= old(buffer)@ + self.enc());
        }
    }
}

/// CP24 round trip: a well-formed tag survives encode-then-decode, decoding
/// only yields well-formed tags, and canonical bytes survive decode-then-
/// encode.
pub proof fn lemma_cp24_round_trip(x: Cp24Time2a, b: Seq<u8>)
    requires
        b.len() == 3,
    ensures
        x.wf() ==> Cp24Time2a::dec(x.enc()) == Ok::<Cp24Time2a, ParseTimeError>(x),
        Cp24Time2a::dec(b) matches Ok(y) ==> y.wf(),
        Cp24Time2a::dec(b) matches Ok(y) ==> Cp24Time2a::canon(b) ==> y.enc() =~= b,
{
    if x.wf() {
        let e = x.enc();
        lemma_word16_round_trip(x.ms);
        let iv = if x.iv { 1int } else { 0 };
        lemma_split_word(e[2] as int, 128, iv, x.min as int);
        lemma_split_word(e[2] as int, 64, 2 * iv, x.min as int);
        assert(Cp24Time2a::dec(x.enc()) == Ok::<Cp24Time2a, ParseTimeError>(x));
    }
    if Cp24Time2a::dec(b) is Ok && Cp24Time2a::canon(b) {
        let y = Cp24Time2a::dec(b)->Ok_0;
        lemma_split_word(word16(b[0], b[1]) as int, 256, b[1] as int, b[0] as int);
        lemma_byte_bits(b[2]);
        assert(y.enc() =~= b);
    }
}

/// Seven-byte time tag: a full calendar time within a century.
#[derive(Debug, Copy, Clone, Eq, PartialEq, Structural, Default)]
pub struct Cp56Time2a {
    /// Milliseconds (0 to 59999).
    pub ms: u16,
    /// Invalid flag.
    pub iv: bool,
    /// Minutes (0 to 59).
    pub min: u8,
    /// Summer time flag.
    pub summer_time: bool,
    /// Hours (0 to 23).
    pub hour: u8,
    /// Weekday (0 to 7).
    pub weekday: u8,
    /// Day of month (0 to 31).
    pub day: u8,
    /// Month (0 to 12).
    pub month: u8,
    /// Year within the century (0 to 99).
    pub year: u8,
}

impl Cp56Time2a {
    /// Field ranges under which encoding is lossless.
    pub open spec fn wf(self) -> bool {
        self.ms <= 59999 && self.min <= 59 && self.hour <= 23 && self.weekday <= 7 && self.day
            <= 31 && self.month <= 12 && self.year <= 99
    }

    /// The seven wire bytes of this tag.
    pub open spec fn enc(self) -> Seq<u8> {
        seq![
            (self.ms % 256) as u8,
            (self.ms / 256) as u8,
            ((if self.iv { 128int } else { 0 }) + (self.min % 64)) as u8,
            ((if self.summer_time { 128int } else { 0 }) + (self.hour % 32)) as u8,
            ((self.weekday % 8) * 32 + (self.day % 32)) as u8,
            (self.month % 16) as u8,
            (self.year % 128) as u8,
        ]
    }

    /// What seven wire bytes decode to, with the range checks of the decoder.
    pub open spec fn dec(b: Seq<u8>) -> Result<Cp56Time2a, ParseTimeError> {
        let ms = word16(b[0], b[1]);
        let iv = b[2] / 128 == 1;
        let min = b[2] % 64;
        let summer_time = b[3] / 128 == 1;
        let hour = b[3] % 32;
        let weekday = b[4] / 32;
        let day = b[4] % 32;
        let month = b[5] % 16;
        let year = b[6] % 128;
        if ms > 59999 {
            Err(ParseTimeError::Milliseconds)
        } else if min > 59 {
            Err(ParseTimeError::Minutes)
        } else if hour > 23 {
            Err(ParseTimeError::Hours)
        } else if day > 31 {
            Err(ParseTimeError::Days)
        } else if month > 12 {
            Err(ParseTimeError::Months)
        } else if year > 99 {
            Err(ParseTimeError::Years)
        } else {
            Ok(Cp56Time2a { ms, iv, min, summer_time, hour, weekday, day, month, year })
        }
    }

    /// Bytes with all reserved bits clear: those a round trip preserves.
    pub open spec fn canon(b: Seq<u8>) -> bool {
        (b[2] % 128) / 64 == 0 && (b[3] % 128) / 64 == 0 && (b[3] % 64) / 32 == 0 && b[5] < 16
            && b[6] < 128
    }

    /// Decodes a CP56 tag; fails exactly when a field is out of range, naming
    /// the first offending field.
    pub fn from_bytes(bytes: &[u8; 7]) -> (r: Result<Cp56Time2a, ParseTimeError>)
        ensures
            r == Self::dec(bytes@),
    {
        let ms = crate::types::u16_from_le_pair(bytes[0], bytes[1]);
        let iv = bytes[2] / 128 == 1;
        let min = bytes[2] % 64;
        let summer_time = bytes[3] / 128 == 1;
        let hour = bytes[3] % 32;
        let weekday = bytes[4] / 32;
        let day = bytes[4] % 32;
        let month = bytes[5] % 16;
        let year = bytes[6] % 128;
        if ms > 59999 {
            Err(ParseTimeError::Milliseconds)
        } else if min > 59 {
            Err(ParseTimeError::Minutes)
        } else if hour > 23 {
            Err(ParseTimeError::Hours)
        } else if day > 31 {
            Err(ParseTimeError::Days)
        } else if month > 12 {
            Err(ParseTimeError::Months)
        } else if year > 99 {
            Err(ParseTimeError::Years)
        } else {
            Ok(Cp56Time2a { ms, iv, min, summer_time, hour, weekday, day, month, year })
        }
    }

    /// Encodes this tag as its seven wire bytes.
    pub fn to_bytes(&self) -> (r: [u8; 7])
        ensures
            r@ == self.enc(),
    {
        let b2: u8 = if self.iv {
            128 + self.min % 64
        } else {
            self.min % 64
        };
        let b3: u8 = if self.summer_time {
            128 + self.hour % 32
        } else {
            self.hour % 32
        };
        let b4: u8 = (self.weekday % 8) * 32 + self.day % 32;
        let r = [
            (self.ms % 256) as u8,
            (self.ms / 256) as u8,
            b2,
            b3,
            b4,
            self.month % 16,
            self.year % 128,
        ];
        proof {
            assert(r@ =~= self.enc());
        }
        r
    }

    /// Appends the seven wire bytes of this tag.
    pub fn write_bytes(&self, buffer: &mut Vec<u8>)
        ensures
            final(buffer)@ == old(buffer)@ + self.enc(),
    {
        let b = self.to_bytes();
        buffer.push(b[0]);
        buffer.push(b[1]);
        buffer.push(b[2]);
        buffer.push(b[3]);
        buffer.push(b[4]);
        buffer.push(b[5]);
        buffer.push(b[6]);
        proof {
            assert(buffer@ =~= old(buffer)@ + self.enc());
        }
    }
}

/// Encode-then-decode for a well-formed CP56 tag.
proof fn lemma_cp56_enc_dec(x: Cp56Time2a)
    requires
        x.wf(),
    ensures
        Cp56Time2a::dec(x.enc()) == Ok::<Cp56Time2a, ParseTimeError>(x),
{
    let e = x.enc();
    lemma_word16_round_trip(x.ms);
    let iv = if x.iv { 1int } else { 0 };
    let st = if x.summer_time { 1int } else { 0 };
    lemma_split_word(e[2] as int, 128, iv, x.min as int);
    lemma_split_word(e[2] as int, 64, 2 * iv, x.min as int);
    assert(e[2] / 128 == iv && e[2] % 64 == x.min);
    lemma_split_word(e[3] as int, 128, st, x.hour as int);
    lemma_split_word(e[3] as int, 32, 4 * st, x.hour as int);
    assert(e[3] / 128 == st && e[3] % 32 == x.hour);
    lemma_split_word(e[4] as int, 32, x.weekday as int, x.day as int);
    assert(e[4] / 32 == x.weekday && e[4] % 32 == x.day);
    lemma_split_word(e[5] as int, 16, 0, x.month as int);
    lemma_split_word(e[6] as int, 128, 0, x.year as int);
    assert(Cp56Time2a::dec(x.enc()) == Ok::<Cp56Time2a, ParseTimeError>(x));
}

/// Decode-then-encode for canonical CP56 bytes.
proof fn lemma_cp56_dec_enc(b: Seq<u8>)
    requires
        b.len() == 7,
        Cp56Time2a::dec(b) is Ok,
        Cp56Time2a::canon(b),
    ensures
        Cp56Time2a::dec(b)->Ok_0.enc() =~= b,
{
    let y = Cp56Time2a::dec(b)->Ok_0;
    let e = y.enc();
    lemma_split_word(word16(b[0], b[1]) as int, 256, b[1] as int, b[0] as int);
    assert(e[0] == b[0] && e[1] == b[1]);
    lemma_byte_bits(b[2]);
    assert(e[2] == b[2]);
    lemma_byte_bits(b[3]);
    assert(e[3] == b[3]);
    lemma_split_word(b[4] as int, 32, b[4] as int / 32, b[4] as int % 32);
    assert((b[4] as int / 32) % 8 == b[4] as int / 32) by {
        lemma_split_word(b[4] as int / 32, 8, 0, b[4] as int / 32);
    }
    assert(e[4] == b[4]);
    assert(e[5] == b[5] && e[6] == b[6]);
}

/// CP56 round trip, in the same three directions as the CP24 law.
pub proof fn lemma_cp56_round_trip(x: Cp56Time2a, b: Seq<u8>)
    requires
        b.len() == 7,
    ensures
        x.wf() ==> Cp56Time2a::dec(x.enc()) == Ok::<Cp56Time2a, ParseTimeError>(x),
        Cp56Time2a::dec(b) matches Ok(y) ==> y.wf(),
        Cp56Time2a::dec(b) matches Ok(y) ==> Cp56Time2a::canon(b) ==> y.enc() =~= b,
{
    if x.wf() {
        lemma_cp56_enc_dec(x);
    }
    if Cp56Time2a::dec(b) is Ok && Cp56Time2a::canon(b) {
        lemma_cp56_dec_enc(b);
    }
}


/// CP16 round trip: a well-formed tag survives encode-then-decode.
pub proof fn lemma_cp16_enc(x: Cp16Time2a)
    ensures
        x.wf() ==> Cp16Time2a::dec(x.enc()) == Ok::<Cp16Time2a, ParseTimeError>(x),
{
    if x.wf() {
        lemma_word16_round_trip(x.ms);
    }
}

/// CP16 decoding yields only well-formed tags and is always undone by
/// encoding: the two bytes carry the count exactly.
pub proof fn lemma_cp16_dec(b: Seq<u8>)
    requires
        b.len() == 2,
    ensures
        Cp16Time2a::dec(b) matches Ok(y) ==> y.wf() && y.enc() =~= b,
{
    if Cp16Time2a::dec(b) is Ok {
        lemma_split_word(word16(b[0], b[1]) as int, 256, b[1] as int, b[0] as int);
    }
}

} // verus!