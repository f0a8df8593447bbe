//! Command information objects: the payloads of the control direction,
//! and the command qualifiers they carry.

use vstd::prelude::*;

use crate::types::information_elements::{Dpi, R32, SelectExecute, Spi, lemma_r32_round_trip};
use crate::types::quality_descriptors::{Qos, lemma_qos_round_trip};
use crate::types::time::{
    Cp16Time2a, Cp56Time2a, lemma_cp16_dec, lemma_cp16_enc, lemma_cp56_round_trip,
};
use crate::types::{
    FromBytes, ParseError, ToBytes, lemma_split_word, lemma_word16_bytes_round,
    lemma_word16_round_trip, lemma_word32_bytes_round, lemma_word32_round_trip, push_u16_le,
    push_u32_le, u16_from_le_pair, u32_from_le_quad, word16, word16_bytes, word32, word32_bytes,
};

verus! {

/// Qualifier of command: the pulse length, or any other five-bit value.
#[derive(Debug, Copy, Clone, Eq, PartialEq, Structural, Default)]
pub enum Qu {
    /// Unspecified.
    #[default]
    Unspecified,
    /// Short pulse.
    ShortPulse,
    /// Long pulse.
    LongPulse,
    /// Persistent output.
    Persistent,
    /// Any other qualifier, carried verbatim.
    Other(u8),
}

impl Qu {
    /// The wire value of this qualifier.
    pub open spec fn code(self) -> u8 {
        match self {
            Qu::Unspecified => 0,
            Qu::ShortPulse => 1,
            Qu::LongPulse => 2,
            Qu::Persistent => 3,
            Qu::Other(byte) => byte,
        }
    }

    /// What a wire value decodes to.
    pub open spec fn of_byte(byte: u8) -> Qu {
        if byte == 0 {
            Qu::Unspecified
        } else if byte == 1 {
            Qu::ShortPulse
        } else if byte == 2 {
            Qu::LongPulse
        } else if byte == 3 {
            Qu::Persistent
        } else {
            Qu::Other(byte)
        }
    }

    /// An `Other` value that does not shadow a named qualifier and fits the
    /// five bits the command byte reserves for it.
    pub open spec fn wf(self) -> bool {
        match self {
            Qu::Other(byte) => 4 <= byte < 32,
            _ => true,
        }
    }

    /// Decodes a command qualifier.
    pub fn from_byte(byte: u8) -> (r: Qu)
        ensures
            r == Qu::of_byte(byte),
    {
        match byte {
            0 => Qu::Unspecified,
            1 => Qu::ShortPulse,
            2 => Qu::LongPulse,
            3 => Qu::Persistent,
            _ => Qu::Other(byte),
        }
    }

    /// Encodes this qualifier as its wire value.
    pub fn to_byte(self) -> (r: u8)
        ensures
            r == self.code(),
    {
        match self {
            Qu::Unspecified => 0,
            Qu::ShortPulse => 1,
            Qu::LongPulse => 2,
            Qu::Persistent => 3,
            Qu::Other(byte) => byte,
        }
    }
}

/// QU round trip: decoding is exact, and encoding is undone by decoding for
/// well-formed qualifiers.
pub proof fn lemma_qu_round_trip(x: Qu, b: u8)
    ensures
        x.wf() ==> Qu::of_byte(x.code()) == x,
        Qu::of_byte(b).code() == b,
        b < 32 ==> Qu::of_byte(b).wf(),
{
}

/// Status of a regulating step command.
#[derive(Debug, Copy, Clone, Eq, PartialEq, Structural, Default)]
pub enum Rcs {
    /// Not allowed.
    #[default]
    NoStep,
    /// Step down.
    Decrement,
    /// Step up.
    Increment,
    /// Not allowed.
    Invalid,
}

impl Rcs {
    /// The two wire bits of this status.
    pub open spec fn code(self) -> int {
        match self {
            Rcs::NoStep => 0,
            Rcs::Decrement => 1,
            Rcs::Increment => 2,
            Rcs::Invalid => 3,
        }
    }

    /// What two bits decode to.
    pub open spec fn of_byte(byte: u8) -> Rcs {
        if byte == 0 {
            Rcs::NoStep
        } else if byte == 1 {
            Rcs::Decrement
        } else if byte == 2 {
            Rcs::Increment
        } else {
            Rcs::Invalid
        }
    }

    /// Decodes a regulating step status from its two bits.
    pub fn from_byte(byte: u8) -> (r: Rcs)
        ensures
            r == Rcs::of_byte(byte),
    {
        match byte {
            0 => Rcs::NoStep,
            1 => Rcs::Decrement,
            2 => Rcs::Increment,
            _ => Rcs::Invalid,
        }
    }

    /// Encodes this status as its two bits.
    pub fn to_byte(self) -> (r: u8)
        ensures
            r == self.code(),
    {
        match self {
            Rcs::NoStep => 0,
            Rcs::Decrement => 1,
            Rcs::Increment => 2,
            Rcs::Invalid => 3,
        }
    }
}

/// Freeze or reset qualifier of counter interrogation commands.
#[derive(Debug, Copy, Clone, Eq, PartialEq, Structural, Default)]
pub enum Frz {
    /// Read only.
    #[default]
    Read,
    /// Freeze without reset.
    Freeze,
    /// Freeze and reset.
    FreezeAndReset,
    /// Reset.
    Reset,
}

impl Frz {
    /// The two wire bits of this qualifier.
    pub open spec fn code(self) -> int {
        match self {
            Frz::Read => 0,
            Frz::Freeze => 1,
            Frz::FreezeAndReset => 2,
            Frz::Reset => 3,
        }
    }

    /// What two bits decode to.
    pub open spec fn of_byte(byte: u8) -> Frz {
        if byte == 0 {
            Frz::Read
        } else if byte == 1 {
            Frz::Freeze
        } else if byte == 2 {
            Frz::FreezeAndReset
        } else {
            Frz::Reset
        }
    }

    /// Decodes a freeze qualifier from its two bits.
    pub fn from_byte(byte: u8) -> (r: Frz)
        ensures
            r == Frz::of_byte(byte),
    {
        match byte {
            0 => Frz::Read,
            1 => Frz::Freeze,
            2 => Frz::FreezeAndReset,
            _ => Frz::Reset,
        }
    }

    /// Encodes this qualifier as its two bits.
    pub fn to_byte(self) -> (r: u8)
        ensures
            r == self.code(),
    {
        match self {
            Frz::Read => 0,
            Frz::Freeze => 1,
            Frz::FreezeAndReset => 2,
            Frz::Reset => 3,
        }
    }
}

/// Request qualifier of counter interrogation commands.
#[derive(Debug, Copy, Clone, Eq, PartialEq, Structural, Default)]
pub enum Rqt {
    /// No counter read.
    #[default]
    NoRequest,
    /// Group 1 counter interrogation.
    ReqCo1,
    /// Group 2 counter interrogation.
    ReqCo2,
    /// Group 3 counter interrogation.
    ReqCo3,
    /// Group 4 counter interrogation.
    ReqCo4,
    /// General counter interrogation.
    ReqCoGen,
    /// Any other request, carried verbatim.
    Other(u8),
}

impl Rqt {
    /// The wire value of this request.
    pub open spec fn code(self) -> u8 {
        match self {
            Rqt::NoRequest => 0,
            Rqt::ReqCo1 => 1,
            Rqt::ReqCo2 => 2,
            Rqt::ReqCo3 => 3,
            Rqt::ReqCo4 => 4,
            Rqt::ReqCoGen => 5,
            Rqt::Other(byte) => byte,
        }
    }

    /// What a wire value decodes to.
    pub open spec fn of_byte(byte: u8) -> Rqt {
        if byte == 0 {
            Rqt::NoRequest
        } else if byte == 1 {
            Rqt::ReqCo1
        } else if byte == 2 {
            Rqt::ReqCo2
        } else if byte == 3 {
            Rqt::ReqCo3
        } else if byte == 4 {
            Rqt::ReqCo4
        } else if byte == 5 {
            Rqt::ReqCoGen
        } else {
            Rqt::Other(byte)
        }
    }

    /// An `Other` value that does not shadow a named request and fits the
    /// six bits the counter-interrogation byte reserves for it.
    pub open spec fn wf(self) -> bool {
        match self {
            Rqt::Other(byte) => 6 <= byte < 64,
            _ => true,
        }
    }

    /// Decodes a request qualifier.
    pub fn from_byte(byte: u8) -> (r: Rqt)
        ensures
            r == Rqt::of_byte(byte),
    {
        match byte {
            0 => Rqt::NoRequest,
            1 => Rqt::ReqCo1,
            2 => Rqt::ReqCo2,
            3 => Rqt::ReqCo3,
            4 => Rqt::ReqCo4,
            5 => Rqt::ReqCoGen,
            _ => Rqt::Other(byte),
        }
    }

    /// Encodes this request as its wire value.
    pub fn to_byte(self) -> (r: u8)
        ensures
            r == self.code(),
    {
        match self {
            Rqt::NoRequest => 0,
            Rqt::ReqCo1 => 1,
            Rqt::ReqCo2 => 2,
            Rqt::ReqCo3 => 3,
            Rqt::ReqCo4 => 4,
            Rqt::ReqCoGen => 5,
            Rqt::Other(byte) => byte,
        }
    }
}

/// RQT round trip, in the same three directions as the QU law.
pub proof fn lemma_rqt_round_trip(x: Rqt, b: u8)
    ensures
        x.wf() ==> Rqt::of_byte(x.code()) == x,
        Rqt::of_byte(b).code() == b,
        b < 64 ==> Rqt::of_byte(b).wf(),
{
}

/// Qualifier of reset process command.
#[derive(Debug, Copy, Clone, Eq, PartialEq, Structural, Default)]
pub enum Qrp {
    /// Unused.
    #[default]
    Unused,
    /// General process reset.
    General,
    /// Reset of pending time-tagged events.
    TtEvents,
    /// Any other qualifier, carried verbatim.
    Other(u8),
}

impl Qrp {
    /// The wire value of this qualifier.
    pub open spec fn code(self) -> u8 {
        match self {
            Qrp::Unused => 0,
            Qrp::General => 1,
            Qrp::TtEvents => 2,
            Qrp::Other(byte) => byte,
        }
    }

    /// What a wire value decodes to.
    pub open spec fn of_byte(byte: u8) -> Qrp {
        if byte == 0 {
            Qrp::Unused
        } else if byte == 1 {
            Qrp::General
        } else if byte == 2 {
            Qrp::TtEvents
        } else {
            Qrp::Other(byte)
        }
    }

    /// An `Other` value that does not shadow a named qualifier.
    pub open spec fn wf(self) -> bool {
        match self {
            Qrp::Other(byte) => byte >= 3,
            _ => true,
        }
    }

    /// Decodes a reset-process qualifier.
    pub fn from_byte(byte: u8) -> (r: Qrp)
        ensures
            r == Qrp::of_byte(byte),
            r.wf(),
    {
        match byte {
            0 => Qrp::Unused,
            1 => Qrp::General,
            2 => Qrp::TtEvents,
            _ => Qrp::Other(byte),
        }
    }

    /// Encodes this qualifier as its wire value.
    pub fn to_byte(self) -> (r: u8)
        ensures
            r == self.code(),
    {
        match self {
            Qrp::Unused => 0,
            Qrp::General => 1,
            Qrp::TtEvents => 2,
            Qrp::Other(byte) => byte,
        }
    }
}

/// QRP round trip, both directions.
pub proof fn lemma_qrp_round_trip(x: Qrp, b: u8)
    ensures
        x.wf() ==> Qrp::of_byte(x.code()) == x,
        Qrp::of_byte(b).code() == b,
        Qrp::of_byte(b).wf(),
{
}

/// Qualifier of interrogation.
#[derive(Debug, Copy, Clone, Eq, PartialEq, Structural, Default)]
pub enum Qoi {
    /// Unused.
    #[default]
    Unused,
    /// Global interrogation.
    Global,
    /// Group 1 interrogation.
    Group1,
    /// Group 2 interrogation.
    Group2,
    /// Group 3 interrogation.
    Group3,
    /// Group 4 interrogation.
    Group4,
    /// Group 5 interrogation.
    Group5,
    /// Group 6 interrogation.
    Group6,
    /// Group 7 interrogation.
    Group7,
    /// Group 8 interrogation.
    Group8,
    /// Group 9 interrogation.
    Group9,
    /// Group 10 interrogation.
    Group10,
    /// Group 11 interrogation.
    Group11,
    /// Group 12 interrogation.
    Group12,
    /// Group 13 interrogation.
    Group13,
    /// Group 14 interrogation.
    Group14,
    /// Group 15 interrogation.
    Group15,
    /// Group 16 interrogation.
    Group16,
    /// Any other qualifier, carried verbatim.
    Other(u8),
}

impl Qoi {
    /// The wire value of this qualifier.
    pub open spec fn code(self) -> u8 {
        match self {
            Qoi::Unused => 0,
            Qoi::Global => 20,
            Qoi::Group1 => 21,
            Qoi::Group2 => 22,
            Qoi::Group3 => 23,
            Qoi::Group4 => 24,
            Qoi::Group5 => 25,
            Qoi::Group6 => 26,
            Qoi::Group7 => 27,
            Qoi::Group8 => 28,
            Qoi::Group9 => 29,
            Qoi::Group10 => 30,
            Qoi::Group11 => 31,
            Qoi::Group12 => 32,
            Qoi::Group13 => 33,
            Qoi::Group14 => 34,
            Qoi::Group15 => 35,
            Qoi::Group16 => 36,
            Qoi::Other(byte) => byte,
        }
    }

    /// What a wire value decodes to.
    pub open spec fn of_byte(byte: u8) -> Qoi {
        if byte == 0 {
            Qoi::Unused
        } else if byte == 20 {
            Qoi::Global
        } else if 21 <= byte <= 36 {
            Qoi::of_group(byte)
        } else {
            Qoi::Other(byte)
        }
    }

    /// The group variant for a value between 21 and 36.
    pub open spec fn of_group(byte: u8) -> Qoi {
        if byte == 21 {
            Qoi::Group1
        } else if byte == 22 {
            Qoi::Group2
        } else if byte == 23 {
            Qoi::Group3
        } else if byte == 24 {
            Qoi::Group4
        } else if byte == 25 {
            Qoi::Group5
        } else if byte == 26 {
            Qoi::Group6
        } else if byte == 27 {
            Qoi::Group7
        } else if byte == 28 {
            Qoi::Group8
        } else if byte == 29 {
            Qoi::Group9
        } else if byte == 30 {
            Qoi::Group10
        } else if byte == 31 {
            Qoi::Group11
        } else if byte == 32 {
            Qoi::Group12
        } else if byte == 33 {
            Qoi::Group13
        } else if byte == 34 {
            Qoi::Group14
        } else if byte == 35 {
            Qoi::Group15
        } else {
            Qoi::Group16
        }
    }

    /// An `Other` value that does not shadow a named qualifier.
    pub open spec fn wf(self) -> bool {
        match self {
            Qoi::Other(byte) => byte != 0 && !(20 <= byte <= 36),
            _ => true,
        }
    }

    /// Decodes an interrogation qualifier.
    pub fn from_byte(byte: u8) -> (r: Qoi)
        ensures
            r == Qoi::of_byte(byte),
            r.wf(),
    {
        match byte {
            0 => Qoi::Unused,
            20 => Qoi::Global,
            21 => Qoi::Group1,
            22 => Qoi::Group2,
            23 => Qoi::Group3,
            24 => Qoi::Group4,
            25 => Qoi::Group5,
            26 => Qoi::Group6,
            27 => Qoi::Group7,
            28 => Qoi::Group8,
            29 => Qoi::Group9,
            30 => Qoi::Group10,
            31 => Qoi::Group11,
            32 => Qoi::Group12,
            33 => Qoi::Group13,
            34 => Qoi::Group14,
            35 => Qoi::Group15,
            36 => Qoi::Group16,
            _ => Qoi::Other(byte),
        }
    }

    /// Encodes this qualifier as its wire value.
    pub fn to_byte(self) -> (r: u8)
        ensures
            r == self.code(),
    {
        match self {
            Qoi::Unused => 0,
            Qoi::Global => 20,
            Qoi::Group1 => 21,
            Qoi::Group2 => 22,
            Qoi::Group3 => 23,
            Qoi::Group4 => 24,
            Qoi::Group5 => 25,
            Qoi::Group6 => 26,
            Qoi::Group7 => 27,
            Qoi::Group8 => 28,
            Qoi::Group9 => 29,
            Qoi::Group10 => 30,
            Qoi::Group11 => 31,
            Qoi::Group12 => 32,
            Qoi::Group13 => 33,
            Qoi::Group14 => 34,
            Qoi::Group15 => 35,
            Qoi::Group16 => 36,
            Qoi::Other(byte) => byte,
        }
    }
}

/// QOI round trip, both directions.
pub proof fn lemma_qoi_round_trip(x: Qoi, b: u8)
    ensures
        x.wf() ==> Qoi::of_byte(x.code()) == x,
        Qoi::of_byte(b).code() == b,
        Qoi::of_byte(b).wf(),
{
}

/// Single command: select/execute, a qualifier, and the commanded state.
#[derive(Debug, Copy, Clone, Eq, PartialEq, Structural, Default)]
pub struct Sco {
    /// Select or execute.
    pub se: SelectExecute,
    /// Qualifier of command.
    pub qu: Qu,
    /// Single command state.
    pub scs: Spi,
}

impl Sco {
    /// What a wire byte decodes to.
    pub open spec fn of_byte(byte: u8) -> Sco {
        Sco {
            se: SelectExecute::of_bool(byte / 128 == 1),
            qu: Qu::of_byte((byte % 128) / 4),
            scs: Spi::of_byte(byte % 2),
        }
    }

    /// The wire byte of this command.
    pub open spec fn enc(self) -> u8 {
        (128 * self.se.code() + 4 * (self.qu.code() % 32) + self.scs.code()) as u8
    }

    /// A qualifier that fits its five bits.
    pub open spec fn wf(self) -> bool {
        self.qu.wf()
    }

    /// Bytes whose reserved bit (1) is clear.
    pub open spec fn canon(byte: u8) -> bool {
        (byte % 4) / 2 == 0
    }

    /// Decodes a single command from its wire byte.
    pub fn from_byte(byte: u8) -> (r: Sco)
        ensures
            r == Sco::of_byte(byte),
            r.wf(),
    {
        let r = Sco {
            se: SelectExecute::from_bool(byte / 128 == 1),
            qu: Qu::from_byte((byte % 128) / 4),
            scs: Spi::from_byte(byte % 2),
        };
        proof {
            lemma_qu_round_trip(r.qu, (byte % 128) / 4);
        }
        r
    }

    /// Encodes this command as its wire byte.
    pub fn to_byte(&self) -> (r: u8)
        ensures
            r == self.enc(),
    {
        let se: u8 = if matches!(self.se, SelectExecute::Select) {
            128
        } else {
            0
        };
        let scs: u8 = match self.scs {
            Spi::Off => 0,
            Spi::On => 1,
        };
        se + (self.qu.to_byte() % 32) * 4 + scs
    }
}

/// SCO round trip, both directions.
pub proof fn lemma_sco_round_trip(x: Sco, b: u8)
    ensures
        x.wf() ==> Sco::of_byte(x.enc()) == x,
        Sco::canon(b) ==> Sco::of_byte(b).enc() == b,
{
    if x.wf() {
        let se = x.se.code();
        let qc = x.qu.code() as int % 32;
        let scs = x.scs.code();
        let v = x.enc() as int;
        assert(x.qu.code() % 32 == x.qu.code());
        lemma_split_word(v, 128, se, 4 * qc + scs);
        lemma_split_word(v % 128, 4, qc, scs);
        lemma_split_word(v, 2, 64 * se + 2 * qc, scs);
        lemma_qu_round_trip(x.qu, 0);
    }
    if Sco::canon(b) {
        let w = b as int;
        let k = w / 128;
        let m = w % 128;
        vstd::arithmetic::div_mod::lemma_fundamental_div_mod(w, 128);
        vstd::arithmetic::div_mod::lemma_fundamental_div_mod(m, 4);
        lemma_split_word(w, 4, 32 * k + m / 4, m % 4);
        assert((w % 4) / 2 == 0 ==> w % 4 < 2);
        lemma_split_word(w, 2, 64 * k + 2 * (m / 4), w % 4);
        lemma_qu_round_trip(Qu::of_byte(b % 128 / 4), (b % 128) / 4);
        assert(Sco::of_byte(b).enc() == b);
    }
}

/// Double command: select/execute, a qualifier, and the commanded state.
#[derive(Debug, Copy, Clone, Eq, PartialEq, Structural, Default)]
pub struct Dco {
    /// Select or execute.
    pub se: SelectExecute,
    /// Qualifier of command.
    pub qu: Qu,
    /// Double command state.
    pub dcs: Dpi,
}

impl Dco {
    /// What a wire byte decodes to.
    pub open spec fn of_byte(byte: u8) -> Dco {
        Dco {
            se: SelectExecute::of_bool(byte / 128 == 1),
            qu: Qu::of_byte((byte % 128) / 4),
            dcs: Dpi::of_byte(byte % 4),
        }
    }

    /// The wire byte of this command.
    pub open spec fn enc(self) -> u8 {
        (128 * self.se.code() + 4 * (self.qu.code() % 32) + self.dcs.code()) as u8
    }

    /// A qualifier that fits its five bits.
    pub open spec fn wf(self) -> bool {
        self.qu.wf()
    }

    /// Decodes a double command from its wire byte.
    pub fn from_byte(byte: u8) -> (r: Dco)
        ensures
            r == Dco::of_byte(byte),
            r.wf(),
    {
        let r = Dco {
            se: SelectExecute::from_bool(byte / 128 == 1),
            qu: Qu::from_byte((byte % 128) / 4),
            dcs: Dpi::from_byte(byte % 4),
        };
        proof {
            lemma_qu_round_trip(r.qu, (byte % 128) / 4);
        }
        r
    }

    /// Encodes this command as its wire byte.
    pub fn to_byte(&self) -> (r: u8)
        ensures
            r == self.enc(),
    {
        let se: u8 = if matches!(self.se, SelectExecute::Select) {
            128
        } else {
            0
        };
        let dcs: u8 = match self.dcs {
            Dpi::Indeterminate => 0,
            Dpi::Off => 1,
            Dpi::On => 2,
            Dpi::Invalid => 3,
        };
        se + (self.qu.to_byte() % 32) * 4 + dcs
    }
}

/// DCO round trip: every byte survives decode-then-encode, and well-formed
/// commands survive encode-then-decode.
pub proof fn lemma_dco_round_trip(x: Dco, b: u8)
    ensures
        x.wf() ==> Dco::of_byte(x.enc()) == x,
        Dco::of_byte(b).enc() == b,
{
    if x.wf() {
        let se = x.se.code();
        let qc = x.qu.code() as int % 32;
        let dcs = x.dcs.code();
        let v = x.enc() as int;
        assert(x.qu.code() % 32 == x.qu.code());
        lemma_split_word(v, 128, se, 4 * qc + dcs);
        lemma_split_word(v % 128, 4, qc, dcs);
        lemma_split_word(v, 4, 32 * se + qc, dcs);
        lemma_qu_round_trip(x.qu, 0);
    }
    let w = b as int;
    let k = w / 128;
    let m = w % 128;
    vstd::arithmetic::div_mod::lemma_fundamental_div_mod(w, 128);
    vstd::arithmetic::div_mod::lemma_fundamental_div_mod(m, 4);
    lemma_split_word(w, 4, 32 * k + m / 4, m % 4);
    lemma_qu_round_trip(Qu::of_byte(b % 128 / 4), (b % 128) / 4);
    assert(Dco::of_byte(b).enc() == b);
}

/// Regulating step command: select/execute, a qualifier, and the step.
#[derive(Debug, Copy, Clone, Eq, PartialEq, Structural, Default)]
pub struct Rco {
    /// Select or execute.
    pub se: SelectExecute,
    /// Qualifier of command.
    pub qu: Qu,
    /// Regulating step status.
    pub rcs: Rcs,
}

impl Rco {
    /// What a wire byte decodes to.
    pub open spec fn of_byte(byte: u8) -> Rco {
        Rco {
            se: SelectExecute::of_bool(byte / 128 == 1),
            qu: Qu::of_byte((byte % 128) / 4),
            rcs: Rcs::of_byte(byte % 4),
        }
    }

    /// The wire byte of this command.
    pub open spec fn enc(self) -> u8 {
        (128 * self.se.code() + 4 * (self.qu.code() % 32) + self.rcs.code()) as u8
    }

    /// A qualifier that fits its five bits.
    pub open spec fn wf(self) -> bool {
        self.qu.wf()
    }

    /// Decodes a regulating step command from its wire byte.
    pub fn from_byte(byte: u8) -> (r: Rco)
        ensures
            r == Rco::of_byte(byte),
            r.wf(),
    {
        let r = Rco {
            se: SelectExecute::from_bool(byte / 128 == 1),
            qu: Qu::from_byte((byte % 128) / 4),
            rcs: Rcs::from_byte(byte % 4),
        };
        proof {
            lemma_qu_round_trip(r.qu, (byte % 128) / 4);
        }
        r
    }

    /// Encodes this command as its wire byte.
    pub fn to_byte(&self) -> (r: u8)
        ensures
            r == self.enc(),
    {
        let se: u8 = if matches!(self.se, SelectExecute::Select) {
            128
        } else {
            0
        };
        let rcs: u8 = self.rcs.to_byte();
        se + (self.qu.to_byte() % 32) * 4 + rcs
    }
}

/// RCO round trip, in the same two directions as the DCO law.
pub proof fn lemma_rco_round_trip(x: Rco, b: u8)
    ensures
        x.wf() ==> Rco::of_byte(x.enc()) == x,
        Rco::of_byte(b).enc() == b,
{
    if x.wf() {
        let se = x.se.code();
        let qc = x.qu.code() as int % 32;
        let rcs = x.rcs.code();
        let v = x.enc() as int;
        assert(x.qu.code() % 32 == x.qu.code());
        lemma_split_word(v, 128, se, 4 * qc + rcs);
        lemma_split_word(v % 128, 4, qc, rcs);
        lemma_split_word(v, 4, 32 * se + qc, rcs);
        lemma_qu_round_trip(x.qu, 0);
    }
    let w = b as int;
    let k = w / 128;
    let m = w % 128;
    vstd::arithmetic::div_mod::lemma_fundamental_div_mod(w, 128);
    vstd::arithmetic::div_mod::lemma_fundamental_div_mod(m, 4);
    lemma_split_word(w, 4, 32 * k + m / 4, m % 4);
    lemma_qu_round_trip(Qu::of_byte(b % 128 / 4), (b % 128) / 4);
    assert(Rco::of_byte(b).enc() == b);
}

/// Single command.
#[derive(Debug, Copy, Clone, Eq, PartialEq, Structural, Default)]
pub struct CScNa1 {
    /// Single command.
    pub sco: Sco,
}

impl ToBytes for CScNa1 {
    open spec fn size_spec() -> nat {
        1
    }

    open spec fn wf(self) -> bool {
        self.sco.wf()
    }

    open spec fn enc(self) -> Seq<u8> {
        seq![self.sco.enc()]
    }

    fn size() -> (r: usize) {
        1
    }

    proof fn lemma_enc_len(self) {
    }

    fn to_bytes(&self, buffer: &mut Vec<u8>) -> (r: Result<(), ParseError>) {
        buffer.push(self.sco.to_byte());
        proof {
            assert(buffer@ =~= old(buffer)@ + self.enc());
        }
        Ok(())
    }
}

impl FromBytes for CScNa1 {
    #[verifier::opaque]
    open spec fn dec(b: Seq<u8>) -> Result<CScNa1, ParseError> {
        if b.len() < 1 {
            Err(ParseError::NotEnoughBytes)
        } else {
            Ok(CScNa1 { sco: Sco::of_byte(b[0]) })
        }
    }

    #[verifier::opaque]
    open spec fn canon(b: Seq<u8>) -> bool {
        Sco::canon(b[0])
    }

    fn from_bytes(bytes: &[u8]) -> (r: Result<CScNa1, ParseError>) {
        proof {
            reveal(<CScNa1 as FromBytes>::dec);
        }
        if bytes.len() < 1 {
            return Err(ParseError::NotEnoughBytes);
        }
        Ok(CScNa1 { sco: Sco::from_byte(bytes[0]) })
    }

    proof fn lemma_dec(b: Seq<u8>) {
        reveal(<CScNa1 as FromBytes>::dec);
        reveal(<CScNa1 as FromBytes>::canon);
        if Self::dec(b) is Ok {
            let x = Self::dec(b)->Ok_0;
            lemma_sco_round_trip(x.sco, b[0]);
            if Self::canon(b) && b.len() == 1 {
                assert(x.enc() =~= b);
            }
        }
    }

    proof fn lemma_enc(self) {
        reveal(<CScNa1 as FromBytes>::dec);
        reveal(<CScNa1 as FromBytes>::canon);
        if self.wf() {
            let e = self.enc();
            lemma_sco_round_trip(self.sco, 0);
            assert(e[0] == self.sco.enc());
            assert(Self::dec(e) == Ok::<CScNa1, ParseError>(self));
        }
    }
}

/// Double command.
#[derive(Debug, Copy, Clone, Eq, PartialEq, Structural, Default)]
pub struct CdcNa1 {
    /// Double command.
    pub dco: Dco,
}

impl ToBytes for CdcNa1 {
    open spec fn size_spec() -> nat {
        1
    }

    open spec fn wf(self) -> bool {
        self.dco.wf()
    }

    open spec fn enc(self) -> Seq<u8> {
        seq![self.dco.enc()]
    }

    fn size() -> (r: usize) {
        1
    }

    proof fn lemma_enc_len(self) {
    }

    fn to_bytes(&self, buffer: &mut Vec<u8>) -> (r: Result<(), ParseError>) {
        buffer.push(self.dco.to_byte());
        proof {
            assert(buffer@ =~= old(buffer)@ + self.enc());
        }
        Ok(())
    }
}

impl FromBytes for CdcNa1 {
    #[verifier::opaque]
    open spec fn dec(b: Seq<u8>) -> Result<CdcNa1, ParseError> {
        if b.len() < 1 {
            Err(ParseError::NotEnoughBytes)
        } else {
            Ok(CdcNa1 { dco: Dco::of_byte(b[0]) })
        }
    }

    #[verifier::opaque]
    open spec fn canon(b: Seq<u8>) -> bool {
        true
    }

    fn from_bytes(bytes: &[u8]) -> (r: Result<CdcNa1, ParseError>) {
        proof {
            reveal(<CdcNa1 as FromBytes>::dec);
        }
        if bytes.len() < 1 {
            return Err(ParseError::NotEnoughBytes);
        }
        Ok(CdcNa1 { dco: Dco::from_byte(bytes[0]) })
    }

    proof fn lemma_dec(b: Seq<u8>) {
        reveal(<CdcNa1 as FromBytes>::dec);
        reveal(<CdcNa1 as FromBytes>::canon);
        if Self::dec(b) is Ok {
            let x = Self::dec(b)->Ok_0;
            lemma_dco_round_trip(x.dco, b[0]);
            if Self::canon(b) && b.len() == 1 {
                assert(x.enc() =~= b);
            }
        }
    }

    proof fn lemma_enc(self) {
        reveal(<CdcNa1 as FromBytes>::dec);
        reveal(<CdcNa1 as FromBytes>::canon);
        if self.wf() {
            let e = self.enc();
            lemma_dco_round_trip(self.dco, 0);
            assert(e[0] == self.dco.enc());
            assert(Self::dec(e) == Ok::<CdcNa1, ParseError>(self));
        }
    }
}

/// Regulating step command.
#[derive(Debug, Copy, Clone, Eq, PartialEq, Structural, Default)]
pub struct CrcNa1 {
    /// Regulating step command.
    pub rco: Rco,
}

impl ToBytes for CrcNa1 {
    open spec fn size_spec() -> nat {
        1
    }

    open spec fn wf(self) -> bool {
        self.rco.wf()
    }

    open spec fn enc(self) -> Seq<u8> {
        seq![self.rco.enc()]
    }

    fn size() -> (r: usize) {
        1
    }

    proof fn lemma_enc_len(self) {
    }

    fn to_bytes(&self, buffer: &mut Vec<u8>) -> (r: Result<(), ParseError>) {
        buffer.push(self.rco.to_byte());
        proof {
            assert(buffer@ =~= old(buffer)@ + self.enc());
        }
        Ok(())
    }
}

impl FromBytes for CrcNa1 {
    #[verifier::opaque]
    open spec fn dec(b: Seq<u8>) -> Result<CrcNa1, ParseError> {
        if b.len() < 1 {
            Err(ParseError::NotEnoughBytes)
        } else {
            Ok(CrcNa1 { rco: Rco::of_byte(b[0]) })
        }
    }

    #[verifier::opaque]
    open spec fn canon(b: Seq<u8>) -> bool {
        true
    }

    fn from_bytes(bytes: &[u8]) -> (r: Result<CrcNa1, ParseError>) {
        proof {
            reveal(<CrcNa1 as FromBytes>::dec);
        }
        if bytes.len() < 1 {
            return Err(ParseError::NotEnoughBytes);
        }
        Ok(CrcNa1 { rco: Rco::from_byte(bytes[0]) })
    }

    proof fn lemma_dec(b: Seq<u8>) {
        reveal(<CrcNa1 as FromBytes>::dec);
        reveal(<CrcNa1 as FromBytes>::canon);
        if Self::dec(b) is Ok {
            let x = Self::dec(b)->Ok_0;
            lemma_rco_round_trip(x.rco, b[0]);
            if Self::canon(b) && b.len() == 1 {
                assert(x.enc() =~= b);
            }
        }
    }

    proof fn lemma_enc(self) {
        reveal(<CrcNa1 as FromBytes>::dec);
        reveal(<CrcNa1 as FromBytes>::canon);
        if self.wf() {
            let e = self.enc();
            lemma_rco_round_trip(self.rco, 0);
            assert(e[0] == self.rco.enc());
            assert(Self::dec(e) == Ok::<CrcNa1, ParseError>(self));
        }
    }
}

/// Set-point command, normalized value.
#[derive(Debug, Copy, Clone, Eq, PartialEq, Structural, Default)]
pub struct CSeNa1 {
    /// Normalized value, raw wire word.
    pub nva: u16,
    /// Qualifier of set-point command.
    pub qos: Qos,
}

impl ToBytes for CSeNa1 {
    open spec fn size_spec() -> nat {
        3
    }

    open spec fn wf(self) -> bool {
        true
    }

    open spec fn enc(self) -> Seq<u8> {
        word16_bytes(self.nva) + seq![self.qos.enc()]
    }

    fn size() -> (r: usize) {
        3
    }

    proof fn lemma_enc_len(self) {
    }

    fn to_bytes(&self, buffer: &mut Vec<u8>) -> (r: Result<(), ParseError>) {
        push_u16_le(buffer, self.nva);
        buffer.push(self.qos.to_byte());
        proof {
            assert(buffer@ =~= old(buffer)@ + self.enc());
        }
        Ok(())
    }
}

impl FromBytes for CSeNa1 {
    #[verifier::opaque]
    open spec fn dec(b: Seq<u8>) -> Result<CSeNa1, ParseError> {
        if b.len() < 3 {
            Err(ParseError::NotEnoughBytes)
        } else {
            Ok(CSeNa1 { nva: word16(b[0], b[1]), qos: Qos::of_byte(b[2]) })
        }
    }

    #[verifier::opaque]
    open spec fn canon(b: Seq<u8>) -> bool {
        Qos::canon(b[2])
    }

    fn from_bytes(bytes: &[u8]) -> (r: Result<CSeNa1, ParseError>) {
        proof {
            reveal(<CSeNa1 as FromBytes>::dec);
        }
        if bytes.len() < 3 {
            return Err(ParseError::NotEnoughBytes);
        }
        Ok(CSeNa1 { nva: u16_from_le_pair(bytes[0], bytes[1]), qos: Qos::from_byte(bytes[2]) })
    }

    proof fn lemma_dec(b: Seq<u8>) {
        reveal(<CSeNa1 as FromBytes>::dec);
        reveal(<CSeNa1 as FromBytes>::canon);
        if Self::dec(b) is Ok {
            let x = Self::dec(b)->Ok_0;
            lemma_word16_bytes_round(b[0], b[1]);
            lemma_qos_round_trip(x.qos, b[2]);
            if Self::canon(b) && b.len() == 3 {
                assert(x.enc() =~= b);
            }
        }
    }

    proof fn lemma_enc(self) {
        reveal(<CSeNa1 as FromBytes>::dec);
        reveal(<CSeNa1 as FromBytes>::canon);
        if self.wf() {
            let e = self.enc();
            assert(e[0] == (self.nva % 256) as u8 && e[1] == (self.nva / 256) as u8);
            lemma_word16_round_trip(self.nva);
            lemma_qos_round_trip(self.qos, 0);
            assert(e[2] == self.qos.enc());
            assert(Self::dec(e) == Ok::<CSeNa1, ParseError>(self));
        }
    }
}

/// Set-point command, scaled value.
#[derive(Debug, Copy, Clone, Eq, PartialEq, Structural, Default)]
pub struct CSeNb1 {
    /// Scaled value, raw wire word.
    pub sva: u16,
    /// Qualifier of set-point command.
    pub qos: Qos,
}

impl ToBytes for CSeNb1 {
    open spec fn size_spec() -> nat {
        3
    }

    open spec fn wf(self) -> bool {
        true
    }

    open spec fn enc(self) -> Seq<u8> {
        word16_bytes(self.sva) + seq![self.qos.enc()]
    }

    fn size() -> (r: usize) {
        3
    }

    proof fn lemma_enc_len(self) {
    }

    fn to_bytes(&self, buffer: &mut Vec<u8>) -> (r: Result<(), ParseError>) {
        push_u16_le(buffer, self.sva);
        buffer.push(self.qos.to_byte());
        proof {
            assert(buffer@ =~= old(buffer)@ + self.enc());
        }
        Ok(())
    }
}

impl FromBytes for CSeNb1 {
    #[verifier::opaque]
    open spec fn dec(b: Seq<u8>) -> Result<CSeNb1, ParseError> {
        if b.len() < 3 {
            Err(ParseError::NotEnoughBytes)
        } else {
            Ok(CSeNb1 { sva: word16(b[0], b[1]), qos: Qos::of_byte(b[2]) })
        }
    }

    #[verifier::opaque]
    open spec fn canon(b: Seq<u8>) -> bool {
        Qos::canon(b[2])
    }

    fn from_bytes(bytes: &[u8]) -> (r: Result<CSeNb1, ParseError>) {
        proof {
            reveal(<CSeNb1 as FromBytes>::dec);
        }
        if bytes.len() < 3 {
            return Err(ParseError::NotEnoughBytes);
        }
        Ok(CSeNb1 { sva: u16_from_le_pair(bytes[0], bytes[1]), qos: Qos::from_byte(bytes[2]) })
    }

    proof fn lemma_dec(b: Seq<u8>) {
        reveal(<CSeNb1 as FromBytes>::dec);
        reveal(<CSeNb1 as FromBytes>::canon);
        if Self::dec(b) is Ok {
            let x = Self::dec(b)->Ok_0;
            lemma_word16_bytes_round(b[0], b[1]);
            lemma_qos_round_trip(x.qos, b[2]);
            if Self::canon(b) && b.len() == 3 {
                assert(x.enc() =~= b);
            }
        }
    }

    proof fn lemma_enc(self) {
        reveal(<CSeNb1 as FromBytes>::dec);
        reveal(<CSeNb1 as FromBytes>::canon);
        if self.wf() {
            let e = self.enc();
            assert(e[0] == (self.sva % 256) as u8 && e[1] == (self.sva / 256) as u8);
            lemma_word16_round_trip(self.sva);
            lemma_qos_round_trip(self.qos, 0);
            assert(e[2] == self.qos.enc());
            assert(Self::dec(e) == Ok::<CSeNb1, ParseError>(self));
        }
    }
}

/// Set-point command, short floating point.
#[derive(Debug, Copy, Clone, Eq, PartialEq, Structural, Default)]
pub struct CSeNc1 {
    /// Short floating point value.
    pub value: R32,
    /// Qualifier of set-point command.
    pub qos: Qos,
}

impl ToBytes for CSeNc1 {
    open spec fn size_spec() -> nat {
        5
    }

    open spec fn wf(self) -> bool {
        true
    }

    open spec fn enc(self) -> Seq<u8> {
        self.value.enc() + seq![self.qos.enc()]
    }

    fn size() -> (r: usize) {
        5
    }

    proof fn lemma_enc_len(self) {
    }

    fn to_bytes(&self, buffer: &mut Vec<u8>) -> (r: Result<(), ParseError>) {
        self.value.write_bytes(buffer);
        buffer.push(self.qos.to_byte());
        proof {
            assert(buffer@ =~= old(buffer)@ + self.enc());
        }
        Ok(())
    }
}

impl FromBytes for CSeNc1 {
    #[verifier::opaque]
    open spec fn dec(b: Seq<u8>) -> Result<CSeNc1, ParseError> {
        if b.len() < 5 {
            Err(ParseError::NotEnoughBytes)
        } else {
            Ok(CSeNc1 { value: R32::of_bytes(b.subrange(0, 4)), qos: Qos::of_byte(b[4]) })
        }
    }

    #[verifier::opaque]
    open spec fn canon(b: Seq<u8>) -> bool {
        Qos::canon(b[4])
    }

    fn from_bytes(bytes: &[u8]) -> (r: Result<CSeNc1, ParseError>) {
        proof {
            reveal(<CSeNc1 as FromBytes>::dec);
        }
        if bytes.len() < 5 {
            return Err(ParseError::NotEnoughBytes);
        }
        let value = R32::from_bytes([bytes[0], bytes[1], bytes[2], bytes[3]]);
        proof { assert(bytes@.subrange(0, 4) =~= seq![bytes@[0], bytes@[1], bytes@[2], bytes@[3]]); }
        Ok(CSeNc1 { value, qos: Qos::from_byte(bytes[4]) })
    }

    proof fn lemma_dec(b: Seq<u8>) {
        reveal(<CSeNc1 as FromBytes>::dec);
        reveal(<CSeNc1 as FromBytes>::canon);
        if Self::dec(b) is Ok {
            let x = Self::dec(b)->Ok_0;
            lemma_r32_round_trip(x.value, b.subrange(0, 4));
            lemma_qos_round_trip(x.qos, b[4]);
            if Self::canon(b) && b.len() == 5 {
                assert(x.enc() =~= b);
            }
        }
    }

    proof fn lemma_enc(self) {
        reveal(<CSeNc1 as FromBytes>::dec);
        reveal(<CSeNc1 as FromBytes>::canon);
        if self.wf() {
            let e = self.enc();
            assert(e.subrange(0, 4) =~= self.value.enc());
            lemma_r32_round_trip(self.value, e.subrange(0, 4));
            lemma_qos_round_trip(self.qos, 0);
            assert(e[4] == self.qos.enc());
            assert(Self::dec(e) == Ok::<CSeNc1, ParseError>(self));
        }
    }
}

/// Bitstring command of 32 bits.
#[derive(Debug, Copy, Clone, Eq, PartialEq, Structural, Default)]
pub struct CBoNa1 {
    /// Bit string of 32 bits.
    pub bsi: u32,
}

impl ToBytes for CBoNa1 {
    open spec fn size_spec() -> nat {
        4
    }

    open spec fn wf(self) -> bool {
        true
    }

    open spec fn enc(self) -> Seq<u8> {
        word32_bytes(self.bsi)
    }

    fn size() -> (r: usize) {
        4
    }

    proof fn lemma_enc_len(self) {
    }

    fn to_bytes(&self, buffer: &mut Vec<u8>) -> (r: Result<(), ParseError>) {
        push_u32_le(buffer, self.bsi);
        proof {
            assert(buffer@ =~= old(buffer)@ + self.enc());
        }
        Ok(())
    }
}

impl FromBytes for CBoNa1 {
    #[verifier::opaque]
    open spec fn dec(b: Seq<u8>) -> Result<CBoNa1, ParseError> {
        if b.len() < 4 {
            Err(ParseError::NotEnoughBytes)
        } else {
            Ok(CBoNa1 { bsi: word32(b[0], b[1], b[2], b[3]) })
        }
    }

    #[verifier::opaque]
    open spec fn canon(b: Seq<u8>) -> bool {
        true
    }

    fn from_bytes(bytes: &[u8]) -> (r: Result<CBoNa1, ParseError>) {
        proof {
            reveal(<CBoNa1 as FromBytes>::dec);
        }
        if bytes.len() < 4 {
            return Err(ParseError::NotEnoughBytes);
        }
        Ok(CBoNa1 { bsi: u32_from_le_quad(bytes[0], bytes[1], bytes[2], bytes[3]) })
    }

    proof fn lemma_dec(b: Seq<u8>) {
        reveal(<CBoNa1 as FromBytes>::dec);
        reveal(<CBoNa1 as FromBytes>::canon);
        if Self::dec(b) is Ok {
            let x = Self::dec(b)->Ok_0;
            lemma_word32_bytes_round(b[0], b[1], b[2], b[3]);
            if Self::canon(b) && b.len() == 4 {
                assert(x.enc() =~= b);
            }
        }
    }

    proof fn lemma_enc(self) {
        reveal(<CBoNa1 as FromBytes>::dec);
        reveal(<CBoNa1 as FromBytes>::canon);
        if self.wf() {
            let e = self.enc();
            assert(e[0] == (self.bsi % 256) as u8 && e[1] == ((self.bsi / 256) % 256) as u8 && e[2] == ((self.bsi / 65536) % 256) as u8 && e[3] == (self.bsi / 16777216) as u8);
            lemma_word32_round_trip(self.bsi);
            assert(Self::dec(e) == Ok::<CBoNa1, ParseError>(self));
        }
    }
}

/// Single command with CP56 time tag.
#[derive(Debug, Copy, Clone, Eq, PartialEq, Structural, Default)]
pub struct CScTa1 {
    /// Single command.
    pub sco: Sco,
    /// Time tag.
    pub time: Cp56Time2a,
}

impl ToBytes for CScTa1 {
    open spec fn size_spec() -> nat {
        8
    }

    open spec fn wf(self) -> bool {
        self.sco.wf() && self.time.wf()
    }

    open spec fn enc(self) -> Seq<u8> {
        seq![self.sco.enc()] + self.time.enc()
    }

    fn size() -> (r: usize) {
        8
    }

    proof fn lemma_enc_len(self) {
    }

    fn to_bytes(&self, buffer: &mut Vec<u8>) -> (r: Result<(), ParseError>) {
        buffer.push(self.sco.to_byte());
        self.time.write_bytes(buffer);
        proof {
            assert(buffer@ =~= old(buffer)@ + self.enc());
        }
        Ok(())
    }
}

impl FromBytes for CScTa1 {
    #[verifier::opaque]
    open spec fn dec(b: Seq<u8>) -> Result<CScTa1, ParseError> {
        if b.len() < 8 {
            Err(ParseError::NotEnoughBytes)
        } else {
            match Cp56Time2a::dec(b.subrange(1, 8)) {
                Err(e) => Err(ParseError::ParseTimeTag(e)),
                Ok(time) => 
                Ok(CScTa1 { sco: Sco::of_byte(b[0]), time }),
            }
        }
    }

    #[verifier::opaque]
    open spec fn canon(b: Seq<u8>) -> bool {
        Sco::canon(b[0]) && Cp56Time2a::canon(b.subrange(1, 8))
    }

    fn from_bytes(bytes: &[u8]) -> (r: Result<CScTa1, ParseError>) {
        proof {
            reveal(<CScTa1 as FromBytes>::dec);
        }
        if bytes.len() < 8 {
            return Err(ParseError::NotEnoughBytes);
        }
        let ab: [u8; 7] = [bytes[1], bytes[2], bytes[3], bytes[4], bytes[5], bytes[6], bytes[7]];
        proof { assert(ab@ =~= bytes@.subrange(1, 8)); }
        let time = match Cp56Time2a::from_bytes(&ab) {
            Err(e) => { return Err(ParseError::ParseTimeTag(e)); },
            Ok(t) => t,
        };
        Ok(CScTa1 { sco: Sco::from_byte(bytes[0]), time })
    }

    proof fn lemma_dec(b: Seq<u8>) {
        reveal(<CScTa1 as FromBytes>::dec);
        reveal(<CScTa1 as FromBytes>::canon);
        if Self::dec(b) is Ok {
            let x = Self::dec(b)->Ok_0;
            lemma_sco_round_trip(x.sco, b[0]);
            lemma_cp56_round_trip(x.time, b.subrange(1, 8));
            if Self::canon(b) && b.len() == 8 {
                assert(x.enc() =~= b);
            }
        }
    }

    proof fn lemma_enc(self) {
        reveal(<CScTa1 as FromBytes>::dec);
        reveal(<CScTa1 as FromBytes>::canon);
        if self.wf() {
            let e = self.enc();
            lemma_sco_round_trip(self.sco, 0);
            assert(e[0] == self.sco.enc());
            assert(e.subrange(1, 8) =~= self.time.enc());
            lemma_cp56_round_trip(self.time, e.subrange(1, 8));
            assert(Self::dec(e) == Ok::<CScTa1, ParseError>(self));
        }
    }
}

/// Double command with CP56 time tag.
#[derive(Debug, Copy, Clone, Eq, PartialEq, Structural, Default)]
pub struct CdcTa1 {
    /// Double command.
    pub dco: Dco,
    /// Time tag.
    pub time: Cp56Time2a,
}

impl ToBytes for CdcTa1 {
    open spec fn size_spec() -> nat {
        8
    }

    open spec fn wf(self) -> bool {
        self.dco.wf() && self.time.wf()
    }

    open spec fn enc(self) -> Seq<u8> {
        seq![self.dco.enc()] + self.time.enc()
    }

    fn size() -> (r: usize) {
        8
    }

    proof fn lemma_enc_len(self) {
    }

    fn to_bytes(&self, buffer: &mut Vec<u8>) -> (r: Result<(), ParseError>) {
        buffer.push(self.dco.to_byte());
        self.time.write_bytes(buffer);
        proof {
            assert(buffer@ =~= old(buffer)@ + self.enc());
        }
        Ok(())
    }
}

impl FromBytes for CdcTa1 {
    #[verifier::opaque]
    open spec fn dec(b: Seq<u8>) -> Result<CdcTa1, ParseError> {
        if b.len() < 8 {
            Err(ParseError::NotEnoughBytes)
        } else {
            match Cp56Time2a::dec(b.subrange(1, 8)) {
                Err(e) => Err(ParseError::ParseTimeTag(e)),
                Ok(time) => 
                Ok(CdcTa1 { dco: Dco::of_byte(b[0]), time }),
            }
        }
    }

    #[verifier::opaque]
    open spec fn canon(b: Seq<u8>) -> bool {
        Cp56Time2a::canon(b.subrange(1, 8))
    }

    fn from_bytes(bytes: &[u8]) -> (r: Result<CdcTa1, ParseError>) {
        proof {
            reveal(<CdcTa1 as FromBytes>::dec);
        }
        if bytes.len() < 8 {
            return Err(ParseError::NotEnoughBytes);
        }
        let ab: [u8; 7] = [bytes[1], bytes[2], bytes[3], bytes[4], bytes[5], bytes[6], bytes[7]];
        proof { assert(ab@ =~= bytes@.subrange(1, 8)); }
        let time = match Cp56Time2a::from_bytes(&ab) {
            Err(e) => { return Err(ParseError::ParseTimeTag(e)); },
            Ok(t) => t,
        };
        Ok(CdcTa1 { dco: Dco::from_byte(bytes[0]), time })
    }

    proof fn lemma_dec(b: Seq<u8>) {
        reveal(<CdcTa1 as FromBytes>::dec);
        reveal(<CdcTa1 as FromBytes>::canon);
        if Self::dec(b) is Ok {
            let x = Self::dec(b)->Ok_0;
            lemma_dco_round_trip(x.dco, b[0]);
            lemma_cp56_round_trip(x.time, b.subrange(1, 8));
            if Self::canon(b) && b.len() == 8 {
                assert(x.enc() =~= b);
            }
        }
    }

    proof fn lemma_enc(self) {
        reveal(<CdcTa1 as FromBytes>::dec);
        reveal(<CdcTa1 as FromBytes>::canon);
        if self.wf() {
            let e = self.enc();
            lemma_dco_round_trip(self.dco, 0);
            assert(e[0] == self.dco.enc());
            assert(e.subrange(1, 8) =~= self.time.enc());
            lemma_cp56_round_trip(self.time, e.subrange(1, 8));
            assert(Self::dec(e) == Ok::<CdcTa1, ParseError>(self));
        }
    }
}

/// Regulating step command with CP56 time tag.
#[derive(Debug, Copy, Clone, Eq, PartialEq, Structural, Default)]
pub struct CrcTa1 {
    /// Regulating step command.
    pub rco: Rco,
    /// Time tag.
    pub time: Cp56Time2a,
}

impl ToBytes for CrcTa1 {
    open spec fn size_spec() -> nat {
        8
    }

    open spec fn wf(self) -> bool {
        self.rco.wf() && self.time.wf()
    }

    open spec fn enc(self) -> Seq<u8> {
        seq![self.rco.enc()] + self.time.enc()
    }

    fn size() -> (r: usize) {
        8
    }

    proof fn lemma_enc_len(self) {
    }

    fn to_bytes(&self, buffer: &mut Vec<u8>) -> (r: Result<(), ParseError>) {
        buffer.push(self.rco.to_byte());
        self.time.write_bytes(buffer);
        proof {
            assert(buffer@ =~= old(buffer)@ + self.enc());
        }
        Ok(())
    }
}

impl FromBytes for CrcTa1 {
    #[verifier::opaque]
    open spec fn dec(b: Seq<u8>) -> Result<CrcTa1, ParseError> {
        if b.len() < 8 {
            Err(ParseError::NotEnoughBytes)
        } else {
            match Cp56Time2a::dec(b.subrange(1, 8)) {
                Err(e) => Err(ParseError::ParseTimeTag(e)),
                Ok(time) => 
                Ok(CrcTa1 { rco: Rco::of_byte(b[0]), time }),
            }
        }
    }

    #[verifier::opaque]
    open spec fn canon(b: Seq<u8>) -> bool {
        Cp56Time2a::canon(b.subrange(1, 8))
    }

    fn from_bytes(bytes: &[u8]) -> (r: Result<CrcTa1, ParseError>) {
        proof {
            reveal(<CrcTa1 as FromBytes>::dec);
        }
        if bytes.len() < 8 {
            return Err(ParseError::NotEnoughBytes);
        }
        let ab: [u8; 7] = [bytes[1], bytes[2], bytes[3], bytes[4], bytes[5], bytes[6], bytes[7]];
        proof { assert(ab@ =~= bytes@.subrange(1, 8)); }
        let time = match Cp56Time2a::from_bytes(&ab) {
            Err(e) => { return Err(ParseError::ParseTimeTag(e)); },
            Ok(t) => t,
        };
        Ok(CrcTa1 { rco: Rco::from_byte(bytes[0]), time })
    }

    proof fn lemma_dec(b: Seq<u8>) {
        reveal(<CrcTa1 as FromBytes>::dec);
        reveal(<CrcTa1 as FromBytes>::canon);
        if Self::dec(b) is Ok {
            let x = Self::dec(b)->Ok_0;
            lemma_rco_round_trip(x.rco, b[0]);
            lemma_cp56_round_trip(x.time, b.subrange(1, 8));
            if Self::canon(b) && b.len() == 8 {
                assert(x.enc() =~= b);
            }
        }
    }

    proof fn lemma_enc(self) {
        reveal(<CrcTa1 as FromBytes>::dec);
        reveal(<CrcTa1 as FromBytes>::canon);
        if self.wf() {
            let e = self.enc();
            lemma_rco_round_trip(self.rco, 0);
            assert(e[0] == self.rco.enc());
            assert(e.subrange(1, 8) =~= self.time.enc());
            lemma_cp56_round_trip(self.time, e.subrange(1, 8));
            assert(Self::dec(e) == Ok::<CrcTa1, ParseError>(self));
        }
    }
}

/// Set-point command, normalized value, with CP56 time tag.
#[derive(Debug, Copy, Clone, Eq, PartialEq, Structural, Default)]
pub struct CSeTa1 {
    /// Normalized value, raw wire word.
    pub nva: u16,
    /// Qualifier of set-point command.
    pub qos: Qos,
    /// Time tag.
    pub time: Cp56Time2a,
}

impl ToBytes for CSeTa1 {
    open spec fn size_spec() -> nat {
        10
    }

    open spec fn wf(self) -> bool {
        self.time.wf()
    }

    open spec fn enc(self) -> Seq<u8> {
        word16_bytes(self.nva) + seq![self.qos.enc()] + self.time.enc()
    }

    fn size() -> (r: usize) {
        10
    }

    proof fn lemma_enc_len(self) {
    }

    fn to_bytes(&self, buffer: &mut Vec<u8>) -> (r: Result<(), ParseError>) {
        push_u16_le(buffer, self.nva);
        buffer.push(self.qos.to_byte());
        self.time.write_bytes(buffer);
        proof {
            assert(buffer@ =~= old(buffer)@ + self.enc());
        }
        Ok(())
    }
}

impl FromBytes for CSeTa1 {
    #[verifier::opaque]
    open spec fn dec(b: Seq<u8>) -> Result<CSeTa1, ParseError> {
        if b.len() < 10 {
            Err(ParseError::NotEnoughBytes)
        } else {
            match Cp56Time2a::dec(b.subrange(3, 10)) {
                Err(e) => Err(ParseError::ParseTimeTag(e)),
                Ok(time) => 
                Ok(CSeTa1 { nva: word16(b[0], b[1]), qos: Qos::of_byte(b[2]), time }),
            }
        }
    }

    #[verifier::opaque]
    open spec fn canon(b: Seq<u8>) -> bool {
        Qos::canon(b[2]) && Cp56Time2a::canon(b.subrange(3, 10))
    }

    fn from_bytes(bytes: &[u8]) -> (r: Result<CSeTa1, ParseError>) {
        proof {
            reveal(<CSeTa1 as FromBytes>::dec);
        }
        if bytes.len() < 10 {
            return Err(ParseError::NotEnoughBytes);
        }
        let ab: [u8; 7] = [bytes[3], bytes[4], bytes[5], bytes[6], bytes[7], bytes[8], bytes[9]];
        proof { assert(ab@ =~= bytes@.subrange(3, 10)); }
        let time = match Cp56Time2a::from_bytes(&ab) {
            Err(e) => { return Err(ParseError::ParseTimeTag(e)); },
            Ok(t) => t,
        };
        Ok(CSeTa1 { nva: u16_from_le_pair(bytes[0], bytes[1]), qos: Qos::from_byte(bytes[2]), time })
    }

    proof fn lemma_dec(b: Seq<u8>) {
        reveal(<CSeTa1 as FromBytes>::dec);
        reveal(<CSeTa1 as FromBytes>::canon);
        if Self::dec(b) is Ok {
            let x = Self::dec(b)->Ok_0;
            lemma_word16_bytes_round(b[0], b[1]);
            lemma_qos_round_trip(x.qos, b[2]);
            lemma_cp56_round_trip(x.time, b.subrange(3, 10));
            if Self::canon(b) && b.len() == 10 {
                assert(x.enc() =~= b);
            }
        }
    }

    proof fn lemma_enc(self) {
        reveal(<CSeTa1 as FromBytes>::dec);
        reveal(<CSeTa1 as FromBytes>::canon);
        if self.wf() {
            let e = self.enc();
            assert(e[0] == (self.nva % 256) as u8 && e[1] == (self.nva / 256) as u8);
            lemma_word16_round_trip(self.nva);
            lemma_qos_round_trip(self.qos, 0);
            assert(e[2] == self.qos.enc());
            assert(e.subrange(3, 10) =~= self.time.enc());
            lemma_cp56_round_trip(self.time, e.subrange(3, 10));
            assert(Self::dec(e) == Ok::<CSeTa1, ParseError>(self));
        }
    }
}

/// Set-point command, scaled value, with CP56 time tag.
#[derive(Debug, Copy, Clone, Eq, PartialEq, Structural, Default)]
pub struct CSeTb1 {
    /// Scaled value, raw wire word.
    pub sva: u16,
    /// Qualifier of set-point command.
    pub qos: Qos,
    /// Time tag.
    pub time: Cp56Time2a,
}

impl ToBytes for CSeTb1 {
    open spec fn size_spec() -> nat {
        10
    }

    open spec fn wf(self) -> bool {
        self.time.wf()
    }

    open spec fn enc(self) -> Seq<u8> {
        word16_bytes(self.sva) + seq![self.qos.enc()] + self.time.enc()
    }

    fn size() -> (r: usize) {
        10
    }

    proof fn lemma_enc_len(self) {
    }

    fn to_bytes(&self, buffer: &mut Vec<u8>) -> (r: Result<(), ParseError>) {
        push_u16_le(buffer, self.sva);
        buffer.push(self.qos.to_byte());
        self.time.write_bytes(buffer);
        proof {
            assert(buffer@ =~= old(buffer)@ + self.enc());
        }
        Ok(())
    }
}

impl FromBytes for CSeTb1 {
    #[verifier::opaque]
    open spec fn dec(b: Seq<u8>) -> Result<CSeTb1, ParseError> {
        if b.len() < 10 {
            Err(ParseError::NotEnoughBytes)
        } else {
            match Cp56Time2a::dec(b.subrange(3, 10)) {
                Err(e) => Err(ParseError::ParseTimeTag(e)),
                Ok(time) => 
                Ok(CSeTb1 { sva: word16(b[0], b[1]), qos: Qos::of_byte(b[2]), time }),
            }
        }
    }

    #[verifier::opaque]
    open spec fn canon(b: Seq<u8>) -> bool {
        Qos::canon(b[2]) && Cp56Time2a::canon(b.subrange(3, 10))
    }

    fn from_bytes(bytes: &[u8]) -> (r: Result<CSeTb1, ParseError>) {
        proof {
            reveal(<CSeTb1 as FromBytes>::dec);
        }
        if bytes.len() < 10 {
            return Err(ParseError::NotEnoughBytes);
        }
        let ab: [u8; 7] = [bytes[3], bytes[4], bytes[5], bytes[6], bytes[7], bytes[8], bytes[9]];
        proof { assert(ab@ =~= bytes@.subrange(3, 10)); }
        let time = match Cp56Time2a::from_bytes(&ab) {
            Err(e) => { return Err(ParseError::ParseTimeTag(e)); },
            Ok(t) => t,
        };
        Ok(CSeTb1 { sva: u16_from_le_pair(bytes[0], bytes[1]), qos: Qos::from_byte(bytes[2]), time })
    }

    proof fn lemma_dec(b: Seq<u8>) {
        reveal(<CSeTb1 as FromBytes>::dec);
        reveal(<CSeTb1 as FromBytes>::canon);
        if Self::dec(b) is Ok {
            let x = Self::dec(b)->Ok_0;
            lemma_word16_bytes_round(b[0], b[1]);
            lemma_qos_round_trip(x.qos, b[2]);
            lemma_cp56_round_trip(x.time, b.subrange(3, 10));
            if Self::canon(b) && b.len() == 10 {
                assert(x.enc() =~= b);
            }
        }
    }

    proof fn lemma_enc(self) {
        reveal(<CSeTb1 as FromBytes>::dec);
        reveal(<CSeTb1 as FromBytes>::canon);
        if self.wf() {
            let e = self.enc();
            assert(e[0] == (self.sva % 256) as u8 && e[1] == (self.sva / 256) as u8);
            lemma_word16_round_trip(self.sva);
            lemma_qos_round_trip(self.qos, 0);
            assert(e[2] == self.qos.enc());
            assert(e.subrange(3, 10) =~= self.time.enc());
            lemma_cp56_round_trip(self.time, e.subrange(3, 10));
            assert(Self::dec(e) == Ok::<CSeTb1, ParseError>(self));
        }
    }
}

/// Set-point command, short floating point, with CP56 time tag.
#[derive(Debug, Copy, Clone, Eq, PartialEq, Structural, Default)]
pub struct CSeTc1 {
    /// Short floating point value.
    pub value: R32,
    /// Qualifier of set-point command.
    pub qos: Qos,
    /// Time tag.
    pub time: Cp56Time2a,
}

impl ToBytes for CSeTc1 {
    open spec fn size_spec() -> nat {
        12
    }

    open spec fn wf(self) -> bool {
        self.time.wf()
    }

    open spec fn enc(self) -> Seq<u8> {
        self.value.enc() + seq![self.qos.enc()] + self.time.enc()
    }

    fn size() -> (r: usize) {
        12
    }

    proof fn lemma_enc_len(self) {
    }

    fn to_bytes(&self, buffer: &mut Vec<u8>) -> (r: Result<(), ParseError>) {
        self.value.write_bytes(buffer);
        buffer.push(self.qos.to_byte());
        self.time.write_bytes(buffer);
        proof {
            assert(buffer@ =~= old(buffer)@ + self.enc());
        }
        Ok(())
    }
}

impl FromBytes for CSeTc1 {
    #[verifier::opaque]
    open spec fn dec(b: Seq<u8>) -> Result<CSeTc1, ParseError> {
        if b.len() < 12 {
            Err(ParseError::NotEnoughBytes)
        } else {
            match Cp56Time2a::dec(b.subrange(5, 12)) {
                Err(e) => Err(ParseError::ParseTimeTag(e)),
                Ok(time) => 
                Ok(CSeTc1 { value: R32::of_bytes(b.subrange(0, 4)), qos: Qos::of_byte(b[4]), time }),
            }
        }
    }

    #[verifier::opaque]
    open spec fn canon(b: Seq<u8>) -> bool {
        Qos::canon(b[4]) && Cp56Time2a::canon(b.subrange(5, 12))
    }

    fn from_bytes(bytes: &[u8]) -> (r: Result<CSeTc1, ParseError>) {
        proof {
            reveal(<CSeTc1 as FromBytes>::dec);
        }
        if bytes.len() < 12 {
            return Err(ParseError::NotEnoughBytes);
        }
        let value = R32::from_bytes([bytes[0], bytes[1], bytes[2], bytes[3]]);
        proof { assert(bytes@.subrange(0, 4) =~= seq![bytes@[0], bytes@[1], bytes@[2], bytes@[3]]); }
        let ab: [u8; 7] = [bytes[5], bytes[6], bytes[7], bytes[8], bytes[9], bytes[10], bytes[11]];
        proof { assert(ab@ =~= bytes@.subrange(5, 12)); }
        let time = match Cp56Time2a::from_bytes(&ab) {
            Err(e) => { return Err(ParseError::ParseTimeTag(e)); },
            Ok(t) => t,
        };
        Ok(CSeTc1 { value, qos: Qos::from_byte(bytes[4]), time })
    }

    proof fn lemma_dec(b: Seq<u8>) {
        reveal(<CSeTc1 as FromBytes>::dec);
        reveal(<CSeTc1 as FromBytes>::canon);
        if Self::dec(b) is Ok {
            let x = Self::dec(b)->Ok_0;
            lemma_r32_round_trip(x.value, b.subrange(0, 4));
            lemma_qos_round_trip(x.qos, b[4]);
            lemma_cp56_round_trip(x.time, b.subrange(5, 12));
            if Self::canon(b) && b.len() == 12 {
                assert(x.enc() =~= b);
            }
        }
    }

    proof fn lemma_enc(self) {
        reveal(<CSeTc1 as FromBytes>::dec);
        reveal(<CSeTc1 as FromBytes>::canon);
        if self.wf() {
            let e = self.enc();
            assert(e.subrange(0, 4) =~= self.value.enc());
            lemma_r32_round_trip(self.value, e.subrange(0, 4));
            lemma_qos_round_trip(self.qos, 0);
            assert(e[4] == self.qos.enc());
            assert(e.subrange(5, 12) =~= self.time.enc());
            lemma_cp56_round_trip(self.time, e.subrange(5, 12));
            assert(Self::dec(e) == Ok::<CSeTc1, ParseError>(self));
        }
    }
}

/// Bitstring command of 32 bits with CP56 time tag.
#[derive(Debug, Copy, Clone, Eq, PartialEq, Structural, Default)]
pub struct CBoTa1 {
    /// Bit string of 32 bits.
    pub bsi: u32,
    /// Time tag.
    pub time: Cp56Time2a,
}

impl ToBytes for CBoTa1 {
    open spec fn size_spec() -> nat {
        11
    }

    open spec fn wf(self) -> bool {
        self.time.wf()
    }

    open spec fn enc(self) -> Seq<u8> {
        word32_bytes(self.bsi) + self.time.enc()
    }

    fn size() -> (r: usize) {
        11
    }

    proof fn lemma_enc_len(self) {
    }

    fn to_bytes(&self, buffer: &mut Vec<u8>) -> (r: Result<(), ParseError>) {
        push_u32_le(buffer, self.bsi);
        self.time.write_bytes(buffer);
        proof {
            assert(buffer@ =~= old(buffer)@ + self.enc());
        }
        Ok(())
    }
}

impl FromBytes for CBoTa1 {
    #[verifier::opaque]
    open spec fn dec(b: Seq<u8>) -> Result<CBoTa1, ParseError> {
        if b.len() < 11 {
            Err(ParseError::NotEnoughBytes)
        } else {
            match Cp56Time2a::dec(b.subrange(4, 11)) {
                Err(e) => Err(ParseError::ParseTimeTag(e)),
                Ok(time) => 
                Ok(CBoTa1 { bsi: word32(b[0], b[1], b[2], b[3]), time }),
            }
        }
    }

    #[verifier::opaque]
    open spec fn canon(b: Seq<u8>) -> bool {
        Cp56Time2a::canon(b.subrange(4, 11))
    }

    fn from_bytes(bytes: &[u8]) -> (r: Result<CBoTa1, ParseError>) {
        proof {
            reveal(<CBoTa1 as FromBytes>::dec);
        }
        if bytes.len() < 11 {
            return Err(ParseError::NotEnoughBytes);
        }
        let ab: [u8; 7] = [bytes[4], bytes[5], bytes[6], bytes[7], bytes[8], bytes[9], bytes[10]];
        proof { assert(ab@ =~= bytes@.subrange(4, 11)); }
        let time = match Cp56Time2a::from_bytes(&ab) {
            Err(e) => { return Err(ParseError::ParseTimeTag(e)); },
            Ok(t) => t,
        };
        Ok(CBoTa1 { bsi: u32_from_le_quad(bytes[0], bytes[1], bytes[2], bytes[3]), time })
    }

    proof fn lemma_dec(b: Seq<u8>) {
        reveal(<CBoTa1 as FromBytes>::dec);
        reveal(<CBoTa1 as FromBytes>::canon);
        if Self::dec(b) is Ok {
            let x = Self::dec(b)->Ok_0;
            lemma_word32_bytes_round(b[0], b[1], b[2], b[3]);
            lemma_cp56_round_trip(x.time, b.subrange(4, 11));
            if Self::canon(b) && b.len() == 11 {
                assert(x.enc() =~= b);
            }
        }
    }

    proof fn lemma_enc(self) {
        reveal(<CBoTa1 as FromBytes>::dec);
        reveal(<CBoTa1 as FromBytes>::canon);
        if self.wf() {
            let e = self.enc();
            assert(e[0] == (self.bsi % 256) as u8 && e[1] == ((self.bsi / 256) % 256) as u8 && e[2] == ((self.bsi / 65536) % 256) as u8 && e[3] == (self.bsi / 16777216) as u8);
            lemma_word32_round_trip(self.bsi);
            assert(e.subrange(4, 11) =~= self.time.enc());
            lemma_cp56_round_trip(self.time, e.subrange(4, 11));
            assert(Self::dec(e) == Ok::<CBoTa1, ParseError>(self));
        }
    }
}

/// Interrogation command.
#[derive(Debug, Copy, Clone, Eq, PartialEq, Structural, Default)]
pub struct CIcNa1 {
    /// Qualifier of interrogation.
    pub qoi: Qoi,
}

impl ToBytes for CIcNa1 {
    open spec fn size_spec() -> nat {
        1
    }

    open spec fn wf(self) -> bool {
        self.qoi.wf()
    }

    open spec fn enc(self) -> Seq<u8> {
        seq![self.qoi.code()]
    }

    fn size() -> (r: usize) {
        1
    }

    proof fn lemma_enc_len(self) {
    }

    fn to_bytes(&self, buffer: &mut Vec<u8>) -> (r: Result<(), ParseError>) {
        buffer.push(self.qoi.to_byte());
        proof {
            assert(buffer@ =~= old(buffer)@ + self.enc());
        }
        Ok(())
    }
}

impl FromBytes for CIcNa1 {
    #[verifier::opaque]
    open spec fn dec(b: Seq<u8>) -> Result<CIcNa1, ParseError> {
        if b.len() < 1 {
            Err(ParseError::NotEnoughBytes)
        } else {
            Ok(CIcNa1 { qoi: Qoi::of_byte(b[0]) })
        }
    }

    #[verifier::opaque]
    open spec fn canon(b: Seq<u8>) -> bool {
        true
    }

    fn from_bytes(bytes: &[u8]) -> (r: Result<CIcNa1, ParseError>) {
        proof {
            reveal(<CIcNa1 as FromBytes>::dec);
        }
        if bytes.len() < 1 {
            return Err(ParseError::NotEnoughBytes);
        }
        Ok(CIcNa1 { qoi: Qoi::from_byte(bytes[0]) })
    }

    proof fn lemma_dec(b: Seq<u8>) {
        reveal(<CIcNa1 as FromBytes>::dec);
        reveal(<CIcNa1 as FromBytes>::canon);
        if Self::dec(b) is Ok {
            let x = Self::dec(b)->Ok_0;
            lemma_qoi_round_trip(x.qoi, b[0]);
            if Self::canon(b) && b.len() == 1 {
                assert(x.enc() =~= b);
            }
        }
    }

    proof fn lemma_enc(self) {
        reveal(<CIcNa1 as FromBytes>::dec);
        reveal(<CIcNa1 as FromBytes>::canon);
        if self.wf() {
            let e = self.enc();
            lemma_qoi_round_trip(self.qoi, 0);
            assert(e[0] == self.qoi.code());
            assert(Self::dec(e) == Ok::<CIcNa1, ParseError>(self));
        }
    }
}

/// Read command; it carries no payload.
#[derive(Debug, Copy, Clone, Eq, PartialEq, Structural, Default)]
pub struct CRdNa1 {
}

impl ToBytes for CRdNa1 {
    open spec fn size_spec() -> nat {
        0
    }

    open spec fn wf(self) -> bool {
        true
    }

    open spec fn enc(self) -> Seq<u8> {
        Seq::<u8>::empty()
    }

    fn size() -> (r: usize) {
        0
    }

    proof fn lemma_enc_len(self) {
    }

    fn to_bytes(&self, buffer: &mut Vec<u8>) -> (r: Result<(), ParseError>) {
        proof {
            assert(buffer@ =~= old(buffer)@ + self.enc());
        }
        Ok(())
    }
}

impl FromBytes for CRdNa1 {
    #[verifier::opaque]
    open spec fn dec(b: Seq<u8>) -> Result<CRdNa1, ParseError> {
        if b.len() < 0 {
            Err(ParseError::NotEnoughBytes)
        } else {
            Ok(CRdNa1 { })
        }
    }

    #[verifier::opaque]
    open spec fn canon(b: Seq<u8>) -> bool {
        true
    }

    fn from_bytes(bytes: &[u8]) -> (r: Result<CRdNa1, ParseError>) {
        proof {
            reveal(<CRdNa1 as FromBytes>::dec);
        }
        if bytes.len() < 0 {
            return Err(ParseError::NotEnoughBytes);
        }
        Ok(CRdNa1 {  })
    }

    proof fn lemma_dec(b: Seq<u8>) {
        reveal(<CRdNa1 as FromBytes>::dec);
        reveal(<CRdNa1 as FromBytes>::canon);
        if Self::dec(b) is Ok {
            let x = Self::dec(b)->Ok_0;
            if Self::canon(b) && b.len() == 0 {
                assert(x.enc() =~= b);
            }
        }
    }

    proof fn lemma_enc(self) {
        reveal(<CRdNa1 as FromBytes>::dec);
        reveal(<CRdNa1 as FromBytes>::canon);
        if self.wf() {
            let e = self.enc();
            assert(Self::dec(e) == Ok::<CRdNa1, ParseError>(self));
        }
    }
}

/// Clock synchronization command.
#[derive(Debug, Copy, Clone, Eq, PartialEq, Structural, Default)]
pub struct CCsNa1 {
    /// Time tag.
    pub time: Cp56Time2a,
}

impl ToBytes for CCsNa1 {
    open spec fn size_spec() -> nat {
        7
    }

    open spec fn wf(self) -> bool {
        self.time.wf()
    }

    open spec fn enc(self) -> Seq<u8> {
        self.time.enc()
    }

    fn size() -> (r: usize) {
        7
    }

    proof fn lemma_enc_len(self) {
    }

    fn to_bytes(&self, buffer: &mut Vec<u8>) -> (r: Result<(), ParseError>) {
        self.time.write_bytes(buffer);
        proof {
            assert(buffer@ =~= old(buffer)@ + self.enc());
        }
        Ok(())
    }
}

impl FromBytes for CCsNa1 {
    #[verifier::opaque]
    open spec fn dec(b: Seq<u8>) -> Result<CCsNa1, ParseError> {
        if b.len() < 7 {
            Err(ParseError::NotEnoughBytes)
        } else {
            match Cp56Time2a::dec(b.subrange(0, 7)) {
                Err(e) => Err(ParseError::ParseTimeTag(e)),
                Ok(time) => 
                Ok(CCsNa1 { time }),
            }
        }
    }

    #[verifier::opaque]
    open spec fn canon(b: Seq<u8>) -> bool {
        Cp56Time2a::canon(b.subrange(0, 7))
    }

    fn from_bytes(bytes: &[u8]) -> (r: Result<CCsNa1, ParseError>) {
        proof {
            reveal(<CCsNa1 as FromBytes>::dec);
        }
        if bytes.len() < 7 {
            return Err(ParseError::NotEnoughBytes);
        }
        let ab: [u8; 7] = [bytes[0], bytes[1], bytes[2], bytes[3], bytes[4], bytes[5], bytes[6]];
        proof { assert(ab@ =~= bytes@.subrange(0, 7)); }
        let time = match Cp56Time2a::from_bytes(&ab) {
            Err(e) => { return Err(ParseError::ParseTimeTag(e)); },
            Ok(t) => t,
        };
        Ok(CCsNa1 { time })
    }

    proof fn lemma_dec(b: Seq<u8>) {
        reveal(<CCsNa1 as FromBytes>::dec);
        reveal(<CCsNa1 as FromBytes>::canon);
        if Self::dec(b) is Ok {
            let x = Self::dec(b)->Ok_0;
            lemma_cp56_round_trip(x.time, b.subrange(0, 7));
            if Self::canon(b) && b.len() == 7 {
                assert(x.enc() =~= b);
            }
        }
    }

    proof fn lemma_enc(self) {
        reveal(<CCsNa1 as FromBytes>::dec);
        reveal(<CCsNa1 as FromBytes>::canon);
        if self.wf() {
            let e = self.enc();
            assert(e.subrange(0, 7) =~= self.time.enc());
            lemma_cp56_round_trip(self.time, e.subrange(0, 7));
            assert(Self::dec(e) == Ok::<CCsNa1, ParseError>(self));
        }
    }
}

/// Test command; the fixed pattern is 0xAA55.
#[derive(Debug, Copy, Clone, Eq, PartialEq, Structural, Default)]
pub struct CTsNa1 {
    /// Test pattern.
    pub tsc: u16,
}

impl ToBytes for CTsNa1 {
    open spec fn size_spec() -> nat {
        2
    }

    open spec fn wf(self) -> bool {
        true
    }

    open spec fn enc(self) -> Seq<u8> {
        word16_bytes(self.tsc)
    }

    fn size() -> (r: usize) {
        2
    }

    proof fn lemma_enc_len(self) {
    }

    fn to_bytes(&self, buffer: &mut Vec<u8>) -> (r: Result<(), ParseError>) {
        push_u16_le(buffer, self.tsc);
        proof {
            assert(buffer@ =~= old(buffer)@ + self.enc());
        }
        Ok(())
    }
}

impl FromBytes for CTsNa1 {
    #[verifier::opaque]
    open spec fn dec(b: Seq<u8>) -> Result<CTsNa1, ParseError> {
        if b.len() < 2 {
            Err(ParseError::NotEnoughBytes)
        } else {
            Ok(CTsNa1 { tsc: word16(b[0], b[1]) })
        }
    }

    #[verifier::opaque]
    open spec fn canon(b: Seq<u8>) -> bool {
        true
    }

    fn from_bytes(bytes: &[u8]) -> (r: Result<CTsNa1, ParseError>) {
        proof {
            reveal(<CTsNa1 as FromBytes>::dec);
        }
        if bytes.len() < 2 {
            return Err(ParseError::NotEnoughBytes);
        }
        Ok(CTsNa1 { tsc: u16_from_le_pair(bytes[0], bytes[1]) })
    }

    proof fn lemma_dec(b: Seq<u8>) {
        reveal(<CTsNa1 as FromBytes>::dec);
        reveal(<CTsNa1 as FromBytes>::canon);
        if Self::dec(b) is Ok {
            let x = Self::dec(b)->Ok_0;
            lemma_word16_bytes_round(b[0], b[1]);
            if Self::canon(b) && b.len() == 2 {
                assert(x.enc() =~= b);
            }
        }
    }

    proof fn lemma_enc(self) {
        reveal(<CTsNa1 as FromBytes>::dec);
        reveal(<CTsNa1 as FromBytes>::canon);
        if self.wf() {
            let e = self.enc();
            assert(e[0] == (self.tsc % 256) as u8 && e[1] == (self.tsc / 256) as u8);
            lemma_word16_round_trip(self.tsc);
            assert(Self::dec(e) == Ok::<CTsNa1, ParseError>(self));
        }
    }
}

/// Reset process command.
#[derive(Debug, Copy, Clone, Eq, PartialEq, Structural, Default)]
pub struct CRpNa1 {
    /// Qualifier of reset process.
    pub qrp: Qrp,
}

impl ToBytes for CRpNa1 {
    open spec fn size_spec() -> nat {
        1
    }

    open spec fn wf(self) -> bool {
        self.qrp.wf()
    }

    open spec fn enc(self) -> Seq<u8> {
        seq![self.qrp.code()]
    }

    fn size() -> (r: usize) {
        1
    }

    proof fn lemma_enc_len(self) {
    }

    fn to_bytes(&self, buffer: &mut Vec<u8>) -> (r: Result<(), ParseError>) {
        buffer.push(self.qrp.to_byte());
        proof {
            assert(buffer@ =~= old(buffer)@ + self.enc());
        }
        Ok(())
    }
}

impl FromBytes for CRpNa1 {
    #[verifier::opaque]
    open spec fn dec(b: Seq<u8>) -> Result<CRpNa1, ParseError> {
        if b.len() < 1 {
            Err(ParseError::NotEnoughBytes)
        } else {
            Ok(CRpNa1 { qrp: Qrp::of_byte(b[0]) })
        }
    }

    #[verifier::opaque]
    open spec fn canon(b: Seq<u8>) -> bool {
        true
    }

    fn from_bytes(bytes: &[u8]) -> (r: Result<CRpNa1, ParseError>) {
        proof {
            reveal(<CRpNa1 as FromBytes>::dec);
        }
        if bytes.len() < 1 {
            return Err(ParseError::NotEnoughBytes);
        }
        Ok(CRpNa1 { qrp: Qrp::from_byte(bytes[0]) })
    }

    proof fn lemma_dec(b: Seq<u8>) {
        reveal(<CRpNa1 as FromBytes>::dec);
        reveal(<CRpNa1 as FromBytes>::canon);
        if Self::dec(b) is Ok {
            let x = Self::dec(b)->Ok_0;
            lemma_qrp_round_trip(x.qrp, b[0]);
            if Self::canon(b) && b.len() == 1 {
                assert(x.enc() =~= b);
            }
        }
    }

    proof fn lemma_enc(self) {
        reveal(<CRpNa1 as FromBytes>::dec);
        reveal(<CRpNa1 as FromBytes>::canon);
        if self.wf() {
            let e = self.enc();
            lemma_qrp_round_trip(self.qrp, 0);
            assert(e[0] == self.qrp.code());
            assert(Self::dec(e) == Ok::<CRpNa1, ParseError>(self));
        }
    }
}

/// Delay acquisition command.
#[derive(Debug, Copy, Clone, Eq, PartialEq, Structural, Default)]
pub struct CCdNa1 {
    /// Transmission delay.
    pub delay: Cp16Time2a,
}

impl ToBytes for CCdNa1 {
    open spec fn size_spec() -> nat {
        2
    }

    open spec fn wf(self) -> bool {
        self.delay.wf()
    }

    open spec fn enc(self) -> Seq<u8> {
        self.delay.enc()
    }

    fn size() -> (r: usize) {
        2
    }

    proof fn lemma_enc_len(self) {
    }

    fn to_bytes(&self, buffer: &mut Vec<u8>) -> (r: Result<(), ParseError>) {
        self.delay.write_bytes(buffer);
        proof {
            assert(buffer@ =~= old(buffer)@ + self.enc());
        }
        Ok(())
    }
}

impl FromBytes for CCdNa1 {
    #[verifier::opaque]
    open spec fn dec(b: Seq<u8>) -> Result<CCdNa1, ParseError> {
        if b.len() < 2 {
            Err(ParseError::NotEnoughBytes)
        } else {
            match Cp16Time2a::dec(b.subrange(0, 2)) {
                Err(e) => Err(ParseError::ParseTimeTag(e)),
                Ok(delay) => 
                Ok(CCdNa1 { delay }),
            }
        }
    }

    #[verifier::opaque]
    open spec fn canon(b: Seq<u8>) -> bool {
        true
    }

    fn from_bytes(bytes: &[u8]) -> (r: Result<CCdNa1, ParseError>) {
        proof {
            reveal(<CCdNa1 as FromBytes>::dec);
        }
        if bytes.len() < 2 {
            return Err(ParseError::NotEnoughBytes);
        }
        let ab: [u8; 2] = [bytes[0], bytes[1]];
        proof { assert(ab@ =~= bytes@.subrange(0, 2)); }
        let delay = match Cp16Time2a::from_bytes(ab) {
            Err(e) => { return Err(ParseError::ParseTimeTag(e)); },
            Ok(t) => t,
        };
        Ok(CCdNa1 { delay })
    }

    proof fn lemma_dec(b: Seq<u8>) {
        reveal(<CCdNa1 as FromBytes>::dec);
        reveal(<CCdNa1 as FromBytes>::canon);
        if Self::dec(b) is Ok {
            let x = Self::dec(b)->Ok_0;
            lemma_cp16_dec(b.subrange(0, 2));
            if Self::canon(b) && b.len() == 2 {
                assert(x.enc() =~= b);
            }
        }
    }

    proof fn lemma_enc(self) {
        reveal(<CCdNa1 as FromBytes>::dec);
        reveal(<CCdNa1 as FromBytes>::canon);
        if self.wf() {
            let e = self.enc();
            assert(e.subrange(0, 2) =~= self.delay.enc());
            lemma_cp16_enc(self.delay);
            assert(Self::dec(e) == Ok::<CCdNa1, ParseError>(self));
        }
    }
}

/// Test command with CP56 time tag.
#[derive(Debug, Copy, Clone, Eq, PartialEq, Structural, Default)]
pub struct CTsTa1 {
    /// Test pattern.
    pub tsc: u16,
    /// Time tag.
    pub time: Cp56Time2a,
}

impl ToBytes for CTsTa1 {
    open spec fn size_spec() -> nat {
        9
    }

    open spec fn wf(self) -> bool {
        self.time.wf()
    }

    open spec fn enc(self) -> Seq<u8> {
        word16_bytes(self.tsc) + self.time.enc()
    }

    fn size() -> (r: usize) {
        9
    }

    proof fn lemma_enc_len(self) {
    }

    fn to_bytes(&self, buffer: &mut Vec<u8>) -> (r: Result<(), ParseError>) {
        push_u16_le(buffer, self.tsc);
        self.time.write_bytes(buffer);
        proof {
            assert(buffer@ =~= old(buffer)@ + self.enc());
        }
        Ok(())
    }
}

impl FromBytes for CTsTa1 {
    #[verifier::opaque]
    open spec fn dec(b: Seq<u8>) -> Result<CTsTa1, ParseError> {
        if b.len() < 9 {
            Err(ParseError::NotEnoughBytes)
        } else {
            match Cp56Time2a::dec(b.subrange(2, 9)) {
                Err(e) => Err(ParseError::ParseTimeTag(e)),
                Ok(time) => 
                Ok(CTsTa1 { tsc: word16(b[0], b[1]), time }),
            }
        }
    }

    #[verifier::opaque]
    open spec fn canon(b: Seq<u8>) -> bool {
        Cp56Time2a::canon(b.subrange(2, 9))
    }

    fn from_bytes(bytes: &[u8]) -> (r: Result<CTsTa1, ParseError>) {
        proof {
            reveal(<CTsTa1 as FromBytes>::dec);
        }
        if bytes.len() < 9 {
            return Err(ParseError::NotEnoughBytes);
        }
        let ab: [u8; 7] = [bytes[2], bytes[3], bytes[4], bytes[5], bytes[6], bytes[7], bytes[8]];
        proof { assert(ab@ =~= bytes@.subrange(2, 9)); }
        let time = match Cp56Time2a::from_bytes(&ab) {
            Err(e) => { return Err(ParseError::ParseTimeTag(e)); },
            Ok(t) => t,
        };
        Ok(CTsTa1 { tsc: u16_from_le_pair(bytes[0], bytes[1]), time })
    }

    proof fn lemma_dec(b: Seq<u8>) {
        reveal(<CTsTa1 as FromBytes>::dec);
        reveal(<CTsTa1 as FromBytes>::canon);
        if Self::dec(b) is Ok {
            let x = Self::dec(b)->Ok_0;
            lemma_word16_bytes_round(b[0], b[1]);
            lemma_cp56_round_trip(x.time, b.subrange(2, 9));
            if Self::canon(b) && b.len() == 9 {
                assert(x.enc() =~= b);
            }
        }
    }

    proof fn lemma_enc(self) {
        reveal(<CTsTa1 as FromBytes>::dec);
        reveal(<CTsTa1 as FromBytes>::canon);
        if self.wf() {
            let e = self.enc();
            assert(e[0] == (self.tsc % 256) as u8 && e[1] == (self.tsc / 256) as u8);
            lemma_word16_round_trip(self.tsc);
            assert(e.subrange(2, 9) =~= self.time.enc());
            lemma_cp56_round_trip(self.time, e.subrange(2, 9));
            assert(Self::dec(e) == Ok::<CTsTa1, ParseError>(self));
        }
    }
}

/// Counter interrogation command: a request and a freeze qualifier packed
/// on one byte.
#[derive(Debug, Copy, Clone, Eq, PartialEq, Structural, Default)]
pub struct CCiNa1 {
    /// Request qualifier of counter interrogation.
    pub rqt: Rqt,
    /// Freeze or reset qualifier.
    pub frz: Frz,
}

impl ToBytes for CCiNa1 {
    open spec fn size_spec() -> nat {
        1
    }

    open spec fn wf(self) -> bool {
        self.rqt.wf()
    }

    open spec fn enc(self) -> Seq<u8> {
        seq![(64 * self.frz.code() + self.rqt.code() % 64) as u8]
    }

    fn size() -> (r: usize) {
        1
    }

    proof fn lemma_enc_len(self) {
    }

    fn to_bytes(&self, buffer: &mut Vec<u8>) -> (r: Result<(), ParseError>) {
        buffer.push(self.frz.to_byte() * 64 + self.rqt.to_byte() % 64);
        proof {
            assert(buffer@ =~= old(buffer)@ + self.enc());
        }
        Ok(())
    }
}

impl FromBytes for CCiNa1 {
    #[verifier::opaque]
    open spec fn dec(b: Seq<u8>) -> Result<CCiNa1, ParseError> {
        if b.len() < 1 {
            Err(ParseError::NotEnoughBytes)
        } else {
            Ok(CCiNa1 { rqt: Rqt::of_byte(b[0] % 64), frz: Frz::of_byte(b[0] / 64) })
        }
    }

    #[verifier::opaque]
    open spec fn canon(b: Seq<u8>) -> bool {
        true
    }

    fn from_bytes(bytes: &[u8]) -> (r: Result<CCiNa1, ParseError>) {
        proof {
            reveal(<CCiNa1 as FromBytes>::dec);
        }
        if bytes.len() < 1 {
            return Err(ParseError::NotEnoughBytes);
        }
        Ok(CCiNa1 { rqt: Rqt::from_byte(bytes[0] % 64), frz: Frz::from_byte(bytes[0] / 64) })
    }

    proof fn lemma_dec(b: Seq<u8>) {
        reveal(<CCiNa1 as FromBytes>::dec);
        reveal(<CCiNa1 as FromBytes>::canon);
        if Self::dec(b) is Ok {
            let x = Self::dec(b)->Ok_0;
            lemma_rqt_round_trip(x.rqt, b[0] % 64);
            if b.len() == 1 {
                let w = b[0] as int;
                vstd::arithmetic::div_mod::lemma_fundamental_div_mod(w, 64);
                assert(x.enc() =~= b);
            }
        }
    }

    proof fn lemma_enc(self) {
        reveal(<CCiNa1 as FromBytes>::dec);
        reveal(<CCiNa1 as FromBytes>::canon);
        if self.wf() {
            let e = self.enc();
            lemma_rqt_round_trip(self.rqt, 0);
            assert(self.rqt.code() % 64 == self.rqt.code());
            lemma_split_word(e[0] as int, 64, self.frz.code(), self.rqt.code() as int);
            assert(Self::dec(e) == Ok::<CCiNa1, ParseError>(self));
        }
    }
}

} // verus!
