//! Parameter information objects: thresholds and activation qualifiers.

use vstd::prelude::*;

use crate::types::information_elements::{
    Lpc, Nva, R32, Sva, lemma_nva_round_trip, lemma_r32_round_trip, lemma_sva_round_trip,
};
use crate::types::{FromBytes, ParseError, ToBytes, lemma_split_word};

verus! {

/// Kind of parameter of measured value.
#[derive(Debug, Copy, Clone, Eq, PartialEq, Structural, Default)]
pub enum Kpa {
    /// Unused.
    #[default]
    Unused,
    /// Threshold value.
    Thresh,
    /// Smoothing factor.
    Filter,
    /// Low limit.
    LoLimit,
    /// High limit.
    HiLimit,
    /// Any other kind, carried verbatim.
    Other(u8),
}

impl Kpa {
    /// The wire value of this kind.
    pub open spec fn code(self) -> u8 {
        match self {
            Kpa::Unused => 0,
            Kpa::Thresh => 1,
            Kpa::Filter => 2,
            Kpa::LoLimit => 3,
            Kpa::HiLimit => 4,
            Kpa::Other(byte) => byte,
        }
    }

    /// What a wire value decodes to.
    pub open spec fn of_byte(byte: u8) -> Kpa {
        if byte == 0 {
            Kpa::Unused
        } else if byte == 1 {
            Kpa::Thresh
        } else if byte == 2 {
            Kpa::Filter
        } else if byte == 3 {
            Kpa::LoLimit
        } else if byte == 4 {
            Kpa::HiLimit
        } else {
            Kpa::Other(byte)
        }
    }

    /// An `Other` value that does not shadow a named kind.
    pub open spec fn wf(self) -> bool {
        match self {
            Kpa::Other(byte) => byte >= 5,
            _ => true,
        }
    }

    /// Decodes a parameter kind.
    pub fn from_byte(byte: u8) -> (r: Kpa)
        ensures
            r == Kpa::of_byte(byte),
            r.wf(),
    {
        match byte {
            0 => Kpa::Unused,
            1 => Kpa::Thresh,
            2 => Kpa::Filter,
            3 => Kpa::LoLimit,
            4 => Kpa::HiLimit,
            _ => Kpa::Other(byte),
        }
    }

    /// Encodes this kind as its wire value.
    pub fn to_byte(&self) -> (r: u8)
        ensures
            r == self.code(),
    {
        match self {
            Kpa::Unused => 0,
            Kpa::Thresh => 1,
            Kpa::Filter => 2,
            Kpa::LoLimit => 3,
            Kpa::HiLimit => 4,
            Kpa::Other(byte) => *byte,
        }
    }
}

/// KPA round trip, both directions.
pub proof fn lemma_kpa_round_trip(x: Kpa, b: u8)
    ensures
        x.wf() ==> Kpa::of_byte(x.code()) == x,
        Kpa::of_byte(b).code() == b,
        Kpa::of_byte(b).wf(),
{
}

/// Qualifier of parameter of measured value. The kind shares its bits with
/// the change and operation flags on the wire, so only a kind of `Unused` or
/// `Thresh` with both flags clear survives a round trip.
#[derive(Debug, Copy, Clone, Eq, PartialEq, Structural, Default)]
pub struct Qpm {
    /// Kind of parameter.
    pub kpa: Kpa,
    /// Parameter in operation.
    pub pop: bool,
    /// Local parameter change.
    pub lpc: Lpc,
}

impl Qpm {
    /// What a wire byte decodes to.
    pub open spec fn of_byte(byte: u8) -> Qpm {
        Qpm {
            kpa: Kpa::of_byte(byte / 32),
            pop: (byte % 128) / 64 == 1,
            lpc: Lpc::of_bool(byte / 128 == 1),
        }
    }

    /// The wire byte of this qualifier.
    pub open spec fn enc(self) -> u8 {
        ((32 * (self.kpa.code() % 8) + (if self.pop { 64int } else { 0 }) + 128 * self.lpc.code())
            % 256) as u8
    }

    /// The narrow set of qualifiers whose encoding is lossless: the flag
    /// bits overlap the kind field, so only these survive.
    pub open spec fn wf(self) -> bool {
        (self.kpa == Kpa::Unused || self.kpa == Kpa::Thresh) && !self.pop && self.lpc
            == Lpc::NoChange
    }

    /// The two bytes that a decode-encode round trip preserves.
    pub open spec fn canon(byte: u8) -> bool {
        byte == 0 || byte == 32
    }

    /// Decodes a parameter qualifier from its wire byte.
    pub fn from_byte(byte: u8) -> (r: Qpm)
        ensures
            r == Qpm::of_byte(byte),
    {
        Qpm {
            kpa: Kpa::from_byte(byte / 32),
            pop: (byte % 128) / 64 == 1,
            lpc: Lpc::from_bool(byte / 128 == 1),
        }
    }

    /// Encodes this qualifier as its wire byte.
    pub fn to_byte(&self) -> (r: u8)
        ensures
            r == self.enc(),
    {
        let v: u16 = 32 * (self.kpa.to_byte() % 8) as u16 + (if self.pop {
            64
        } else {
            0
        }) + (if matches!(self.lpc, Lpc::Changed) {
            128
        } else {
            0
        });
        (v % 256) as u8
    }
}

/// QPM round trip, on the narrow domain its overlapping bit layout allows.
pub proof fn lemma_qpm_round_trip(x: Qpm, b: u8)
    ensures
        x.wf() ==> Qpm::of_byte(x.enc()) == x,
        Qpm::canon(b) ==> Qpm::of_byte(b).enc() == b && Qpm::of_byte(b).wf(),
{
    if x.wf() {
        let v = x.enc() as int;
        assert(x.kpa.code() <= 1);
        assert(v == 32 * x.kpa.code());
        lemma_split_word(v, 32, x.kpa.code() as int, 0);
        lemma_split_word(v, 128, 0, v);
        lemma_split_word(v % 128, 64, 0, v);
        assert(Qpm::of_byte(x.enc()) == x);
    }
}

/// Qualifier of parameter activation.
#[derive(Debug, Copy, Clone, Eq, PartialEq, Structural, Default)]
pub enum Qpa {
    /// Unused.
    #[default]
    Unused,
    /// Activates previously loaded parameters generally.
    General,
    /// Activates the parameters of the addressed object.
    Object,
    /// Activates cyclic transmission of the addressed object.
    Transmission,
    /// Any other qualifier, carried verbatim.
    Other(u8),
}

impl Qpa {
    /// The wire value of this qualifier.
    pub open spec fn code(self) -> u8 {
        match self {
            Qpa::Unused => 0,
            Qpa::General => 1,
            Qpa::Object => 2,
            Qpa::Transmission => 3,
            Qpa::Other(byte) => byte,
        }
    }

    /// What a wire value decodes to.
    pub open spec fn of_byte(byte: u8) -> Qpa {
        if byte == 0 {
            Qpa::Unused
        } else if byte == 1 {
            Qpa::General
        } else if byte == 2 {
            Qpa::Object
        } else if byte == 3 {
            Qpa::Transmission
        } else {
            Qpa::Other(byte)
        }
    }

    /// An `Other` value that does not shadow a named qualifier.
    pub open spec fn wf(self) -> bool {
        match self {
            Qpa::Other(byte) => byte >= 4,
            _ => true,
        }
    }

    /// Decodes an activation qualifier.
    pub fn from_byte(byte: u8) -> (r: Qpa)
        ensures
            r == Qpa::of_byte(byte),
            r.wf(),
    {
        match byte {
            0 => Qpa::Unused,
            1 => Qpa::General,
            2 => Qpa::Object,
            3 => Qpa::Transmission,
            _ => Qpa::Other(byte),
        }
    }

    /// Encodes this qualifier as its wire value.
    pub fn to_byte(self) -> (r: u8)
        ensures
            r == self.code(),
    {
        match self {
            Qpa::Unused => 0,
            Qpa::General => 1,
            Qpa::Object => 2,
            Qpa::Transmission => 3,
            Qpa::Other(byte) => byte,
        }
    }
}

/// QPA round trip, both directions.
pub proof fn lemma_qpa_round_trip(x: Qpa, b: u8)
    ensures
        x.wf() ==> Qpa::of_byte(x.code()) == x,
        Qpa::of_byte(b).code() == b,
        Qpa::of_byte(b).wf(),
{
}

/// Parameter of measured value, normalized.
#[derive(Debug, Copy, Clone, Eq, PartialEq, Structural, Default)]
pub struct PMeNa1 {
    /// Normalized value.
    pub nva: Nva,
    /// Qualifier of parameter.
    pub qpm: Qpm,
}

impl ToBytes for PMeNa1 {
    open spec fn size_spec() -> nat {
        3
    }

    open spec fn wf(self) -> bool {
        self.qpm.wf()
    }

    open spec fn enc(self) -> Seq<u8> {
        self.nva.enc() + seq![self.qpm.enc()]
    }

    fn size() -> (r: usize) {
        3
    }

    proof fn lemma_enc_len(self) {
    }

    fn to_bytes(&self, buffer: &mut Vec<u8>) -> (r: Result<(), ParseError>) {
        self.nva.write_bytes(buffer);
        buffer.push(self.qpm.to_byte());
        proof {
            assert(buffer@ =~= old(buffer)@ + self.enc());
        }
        Ok(())
    }
}

impl FromBytes for PMeNa1 {
    #[verifier::opaque]
    open spec fn dec(b: Seq<u8>) -> Result<PMeNa1, ParseError> {
        if b.len() < 3 {
            Err(ParseError::NotEnoughBytes)
        } else {
            Ok(PMeNa1 { nva: Nva::of_bytes(b.subrange(0, 2)), qpm: Qpm::of_byte(b[2]) })
        }
    }

    #[verifier::opaque]
    open spec fn canon(b: Seq<u8>) -> bool {
        Qpm::canon(b[2])
    }

    fn from_bytes(bytes: &[u8]) -> (r: Result<PMeNa1, ParseError>) {
        proof {
            reveal(<PMeNa1 as FromBytes>::dec);
        }
        if bytes.len() < 3 {
            return Err(ParseError::NotEnoughBytes);
        }
        let nva = Nva::from_bytes([bytes[0], bytes[1]]);
        proof { assert(bytes@.subrange(0, 2) =~= seq![bytes@[0], bytes@[1]]); }
        Ok(PMeNa1 { nva, qpm: Qpm::from_byte(bytes[2]) })
    }

    proof fn lemma_dec(b: Seq<u8>) {
        reveal(<PMeNa1 as FromBytes>::dec);
        reveal(<PMeNa1 as FromBytes>::canon);
        if Self::dec(b) is Ok {
            let x = Self::dec(b)->Ok_0;
            lemma_nva_round_trip(x.nva, b.subrange(0, 2));
            lemma_qpm_round_trip(x.qpm, b[2]);
            if Self::canon(b) && b.len() == 3 {
                assert(x.enc() =~= b);
            }
        }
    }

    proof fn lemma_enc(self) {
        reveal(<PMeNa1 as FromBytes>::dec);
        reveal(<PMeNa1 as FromBytes>::canon);
        if self.wf() {
            let e = self.enc();
            assert(e.subrange(0, 2) =~= self.nva.enc());
            lemma_nva_round_trip(self.nva, e.subrange(0, 2));
            lemma_qpm_round_trip(self.qpm, 0);
            assert(e[2] == self.qpm.enc());
            assert(Self::dec(e) == Ok::<PMeNa1, ParseError>(self));
        }
    }
}

/// Parameter of measured value, scaled.
#[derive(Debug, Copy, Clone, Eq, PartialEq, Structural, Default)]
pub struct PMeNb1 {
    /// Scaled value.
    pub sva: Sva,
    /// Qualifier of parameter.
    pub qpm: Qpm,
}

impl ToBytes for PMeNb1 {
    open spec fn size_spec() -> nat {
        3
    }

    open spec fn wf(self) -> bool {
        self.qpm.wf()
    }

    open spec fn enc(self) -> Seq<u8> {
        self.sva.enc() + seq![self.qpm.enc()]
    }

    fn size() -> (r: usize) {
        3
    }

    proof fn lemma_enc_len(self) {
    }

    fn to_bytes(&self, buffer: &mut Vec<u8>) -> (r: Result<(), ParseError>) {
        self.sva.write_bytes(buffer);
        buffer.push(self.qpm.to_byte());
        proof {
            assert(buffer@ =~= old(buffer)@ + self.enc());
        }
        Ok(())
    }
}

impl FromBytes for PMeNb1 {
    #[verifier::opaque]
    open spec fn dec(b: Seq<u8>) -> Result<PMeNb1, ParseError> {
        if b.len() < 3 {
            Err(ParseError::NotEnoughBytes)
        } else {
            Ok(PMeNb1 { sva: Sva::of_bytes(b.subrange(0, 2)), qpm: Qpm::of_byte(b[2]) })
        }
    }

    #[verifier::opaque]
    open spec fn canon(b: Seq<u8>) -> bool {
        Qpm::canon(b[2])
    }

    fn from_bytes(bytes: &[u8]) -> (r: Result<PMeNb1, ParseError>) {
        proof {
            reveal(<PMeNb1 as FromBytes>::dec);
        }
        if bytes.len() < 3 {
            return Err(ParseError::NotEnoughBytes);
        }
        let sva = Sva::from_bytes([bytes[0], bytes[1]]);
        proof { assert(bytes@.subrange(0, 2) =~= seq![bytes@[0], bytes@[1]]); }
        Ok(PMeNb1 { sva, qpm: Qpm::from_byte(bytes[2]) })
    }

    proof fn lemma_dec(b: Seq<u8>) {
        reveal(<PMeNb1 as FromBytes>::dec);
        reveal(<PMeNb1 as FromBytes>::canon);
        if Self::dec(b) is Ok {
            let x = Self::dec(b)->Ok_0;
            lemma_sva_round_trip(x.sva, b.subrange(0, 2));
            lemma_qpm_round_trip(x.qpm, b[2]);
            if Self::canon(b) && b.len() == 3 {
                assert(x.enc() =~= b);
            }
        }
    }

    proof fn lemma_enc(self) {
        reveal(<PMeNb1 as FromBytes>::dec);
        reveal(<PMeNb1 as FromBytes>::canon);
        if self.wf() {
            let e = self.enc();
            assert(e.subrange(0, 2) =~= self.sva.enc());
            lemma_sva_round_trip(self.sva, e.subrange(0, 2));
            lemma_qpm_round_trip(self.qpm, 0);
            assert(e[2] == self.qpm.enc());
            assert(Self::dec(e) == Ok::<PMeNb1, ParseError>(self));
        }
    }
}

/// Parameter of measured value, short floating point.
#[derive(Debug, Copy, Clone, Eq, PartialEq, Structural, Default)]
pub struct PMeNc1 {
    /// Short floating point value.
    pub r32: R32,
    /// Qualifier of parameter.
    pub qpm: Qpm,
}

impl ToBytes for PMeNc1 {
    open spec fn size_spec() -> nat {
        5
    }

    open spec fn wf(self) -> bool {
        self.qpm.wf()
    }

    open spec fn enc(self) -> Seq<u8> {
        self.r32.enc() + seq![self.qpm.enc()]
    }

    fn size() -> (r: usize) {
        5
    }

    proof fn lemma_enc_len(self) {
    }

    fn to_bytes(&self, buffer: &mut Vec<u8>) -> (r: Result<(), ParseError>) {
        self.r32.write_bytes(buffer);
        buffer.push(self.qpm.to_byte());
        proof {
            assert(buffer@ =~= old(buffer)@ + self.enc());
        }
        Ok(())
    }
}

impl FromBytes for PMeNc1 {
    #[verifier::opaque]
    open spec fn dec(b: Seq<u8>) -> Result<PMeNc1, ParseError> {
        if b.len() < 5 {
            Err(ParseError::NotEnoughBytes)
        } else {
            Ok(PMeNc1 { r32: R32::of_bytes(b.subrange(0, 4)), qpm: Qpm::of_byte(b[4]) })
        }
    }

    #[verifier::opaque]
    open spec fn canon(b: Seq<u8>) -> bool {
        Qpm::canon(b[4])
    }

    fn from_bytes(bytes: &[u8]) -> (r: Result<PMeNc1, ParseError>) {
        proof {
            reveal(<PMeNc1 as FromBytes>::dec);
        }
        if bytes.len() < 5 {
            return Err(ParseError::NotEnoughBytes);
        }
        let r32 = R32::from_bytes([bytes[0], bytes[1], bytes[2], bytes[3]]);
        proof { assert(bytes@.subrange(0, 4) =~= seq![bytes@[0], bytes@[1], bytes@[2], bytes@[3]]); }
        Ok(PMeNc1 { r32, qpm: Qpm::from_byte(bytes[4]) })
    }

    proof fn lemma_dec(b: Seq<u8>) {
        reveal(<PMeNc1 as FromBytes>::dec);
        reveal(<PMeNc1 as FromBytes>::canon);
        if Self::dec(b) is Ok {
            let x = Self::dec(b)->Ok_0;
            lemma_r32_round_trip(x.r32, b.subrange(0, 4));
            lemma_qpm_round_trip(x.qpm, b[4]);
            if Self::canon(b) && b.len() == 5 {
                assert(x.enc() =~= b);
            }
        }
    }

    proof fn lemma_enc(self) {
        reveal(<PMeNc1 as FromBytes>::dec);
        reveal(<PMeNc1 as FromBytes>::canon);
        if self.wf() {
            let e = self.enc();
            assert(e.subrange(0, 4) =~= self.r32.enc());
            lemma_r32_round_trip(self.r32, e.subrange(0, 4));
            lemma_qpm_round_trip(self.qpm, 0);
            assert(e[4] == self.qpm.enc());
            assert(Self::dec(e) == Ok::<PMeNc1, ParseError>(self));
        }
    }
}

/// Parameter activation.
#[derive(Debug, Copy, Clone, Eq, PartialEq, Structural, Default)]
pub struct PAcNa1 {
    /// Qualifier of parameter activation.
    pub qpa: Qpa,
}

impl ToBytes for PAcNa1 {
    open spec fn size_spec() -> nat {
        1
    }

    open spec fn wf(self) -> bool {
        self.qpa.wf()
    }

    open spec fn enc(self) -> Seq<u8> {
        seq![self.qpa.code()]
    }

    fn size() -> (r: usize) {
        1
    }

    proof fn lemma_enc_len(self) {
    }

    fn to_bytes(&self, buffer: &mut Vec<u8>) -> (r: Result<(), ParseError>) {
        buffer.push(self.qpa.to_byte());
        proof {
            assert(buffer@ =~= old(buffer)@ + self.enc());
        }
        Ok(())
    }
}

impl FromBytes for PAcNa1 {
    #[verifier::opaque]
    open spec fn dec(b: Seq<u8>) -> Result<PAcNa1, ParseError> {
        if b.len() < 1 {
            Err(ParseError::NotEnoughBytes)
        } else {
            Ok(PAcNa1 { qpa: Qpa::of_byte(b[0]) })
        }
    }

    #[verifier::opaque]
    open spec fn canon(b: Seq<u8>) -> bool {
        true
    }

    fn from_bytes(bytes: &[u8]) -> (r: Result<PAcNa1, ParseError>) {
        proof {
            reveal(<PAcNa1 as FromBytes>::dec);
        }
        if bytes.len() < 1 {
            return Err(ParseError::NotEnoughBytes);
        }
        Ok(PAcNa1 { qpa: Qpa::from_byte(bytes[0]) })
    }

    proof fn lemma_dec(b: Seq<u8>) {
        reveal(<PAcNa1 as FromBytes>::dec);
        reveal(<PAcNa1 as FromBytes>::canon);
        if Self::dec(b) is Ok {
            let x = Self::dec(b)->Ok_0;
            lemma_qpa_round_trip(x.qpa, b[0]);
            if Self::canon(b) && b.len() == 1 {
                assert(x.enc() =~= b);
            }
        }
    }

    proof fn lemma_enc(self) {
        reveal(<PAcNa1 as FromBytes>::dec);
        reveal(<PAcNa1 as FromBytes>::canon);
        if self.wf() {
            let e = self.enc();
            lemma_qpa_round_trip(self.qpa, 0);
            assert(e[0] == self.qpa.code());
            assert(Self::dec(e) == Ok::<PAcNa1, ParseError>(self));
        }
    }
}

} // verus!
