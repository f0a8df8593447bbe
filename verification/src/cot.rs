//! Cause of transmission: the 6-bit field of the ASDU header that says why
//! an ASDU is sent.

use vstd::prelude::*;

verus! {

/// Cause of transmission, one variant per value of the 6-bit field.
#[derive(Debug, Copy, Clone, Eq, PartialEq, Structural, Ord, PartialOrd)]
pub enum Cot {
    Unused,
    Cyclic,
    Background,
    SpontaneousData,
    Initiated,
    Request,
    Activation,
    ActivationConfirmation,
    Deactivation,
    DeactivationConfirmation,
    ActivationTermination,
    ReturnRemote,
    ReturnLocal,
    File,
    Reserved14,
    Reserved15,
    Reserved16,
    Reserved17,
    Reserved18,
    Reserved19,
    InterrogationGeneral,
    InterrogationGroup1,
    InterrogationGroup2,
    InterrogationGroup3,
    InterrogationGroup4,
    InterrogationGroup5,
    InterrogationGroup6,
    InterrogationGroup7,
    InterrogationGroup8,
    InterrogationGroup9,
    InterrogationGroup10,
    InterrogationGroup11,
    InterrogationGroup12,
    InterrogationGroup13,
    InterrogationGroup14,
    InterrogationGroup15,
    InterrogationGroup16,
    CounterInterrogationGeneral,
    CounterInterrogationGroup1,
    CounterInterrogationGroup2,
    CounterInterrogationGroup3,
    CounterInterrogationGroup4,
    Reserved42,
    Reserved43,
    UnknownType,
    UnknownCause,
    UnknownAsduAddress,
    UnknownObjectAddress,
    Reserved48,
    Reserved49,
    Reserved50,
    Reserved51,
    Reserved52,
    Reserved53,
    Reserved54,
    Reserved55,
    Reserved56,
    Reserved57,
    Reserved58,
    Reserved59,
    Reserved60,
    Reserved61,
    Reserved62,
    Reserved63,
}

/// Error returned when a byte does not fit in the 6-bit cause field.
#[derive(Debug, Copy, Clone, Eq, PartialEq, Structural)]
pub enum CotError {
    /// The byte is above 63 and cannot be a cause of transmission.
    InvalidCot(u8),
}

impl Cot {
    /// The wire value of this cause, always below 64.
    pub open spec fn code(self) -> u8 {
        match self {
            Cot::Unused => 0,
            Cot::Cyclic => 1,
            Cot::Background => 2,
            Cot::SpontaneousData => 3,
            Cot::Initiated => 4,
            Cot::Request => 5,
            Cot::Activation => 6,
            Cot::ActivationConfirmation => 7,
            Cot::Deactivation => 8,
            Cot::DeactivationConfirmation => 9,
            Cot::ActivationTermination => 10,
            Cot::ReturnRemote => 11,
            Cot::ReturnLocal => 12,
            Cot::File => 13,
            Cot::Reserved14 => 14,
            Cot::Reserved15 => 15,
            Cot::Reserved16 => 16,
            Cot::Reserved17 => 17,
            Cot::Reserved18 => 18,
            Cot::Reserved19 => 19,
            Cot::InterrogationGeneral => 20,
            Cot::InterrogationGroup1 => 21,
            Cot::InterrogationGroup2 => 22,
            Cot::InterrogationGroup3 => 23,
            Cot::InterrogationGroup4 => 24,
            Cot::InterrogationGroup5 => 25,
            Cot::InterrogationGroup6 => 26,
            Cot::InterrogationGroup7 => 27,
            Cot::InterrogationGroup8 => 28,
            Cot::InterrogationGroup9 => 29,
            Cot::InterrogationGroup10 => 30,
            Cot::InterrogationGroup11 => 31,
            Cot::InterrogationGroup12 => 32,
            Cot::InterrogationGroup13 => 33,
            Cot::InterrogationGroup14 => 34,
            Cot::InterrogationGroup15 => 35,
            Cot::InterrogationGroup16 => 36,
            Cot::CounterInterrogationGeneral => 37,
            Cot::CounterInterrogationGroup1 => 38,
            Cot::CounterInterrogationGroup2 => 39,
            Cot::CounterInterrogationGroup3 => 40,
            Cot::CounterInterrogationGroup4 => 41,
            Cot::Reserved42 => 42,
            Cot::Reserved43 => 43,
            Cot::UnknownType => 44,
            Cot::UnknownCause => 45,
            Cot::UnknownAsduAddress => 46,
            Cot::UnknownObjectAddress => 47,
            Cot::Reserved48 => 48,
            Cot::Reserved49 => 49,
            Cot::Reserved50 => 50,
            Cot::Reserved51 => 51,
            Cot::Reserved52 => 52,
            Cot::Reserved53 => 53,
            Cot::Reserved54 => 54,
            Cot::Reserved55 => 55,
            Cot::Reserved56 => 56,
            Cot::Reserved57 => 57,
            Cot::Reserved58 => 58,
            Cot::Reserved59 => 59,
            Cot::Reserved60 => 60,
            Cot::Reserved61 => 61,
            Cot::Reserved62 => 62,
            Cot::Reserved63 => 63,
        }
    }

    /// The cause that a 6-bit value decodes to; values above 63 are never
    /// produced by `from_byte` and map arbitrarily here.
    pub open spec fn of_byte(b: u8) -> Cot {
        match b {
            0 => Cot::Unused,
            1 => Cot::Cyclic,
            2 => Cot::Background,
            3 => Cot::SpontaneousData,
            4 => Cot::Initiated,
            5 => Cot::Request,
            6 => Cot::Activation,
            7 => Cot::ActivationConfirmation,
            8 => Cot::Deactivation,
            9 => Cot::DeactivationConfirmation,
            10 => Cot::ActivationTermination,
            11 => Cot::ReturnRemote,
            12 => Cot::ReturnLocal,
            13 => Cot::File,
            14 => Cot::Reserved14,
            15 => Cot::Reserved15,
            16 => Cot::Reserved16,
            17 => Cot::Reserved17,
            18 => Cot::Reserved18,
            19 => Cot::Reserved19,
            20 => Cot::InterrogationGeneral,
            21 => Cot::InterrogationGroup1,
            22 => Cot::InterrogationGroup2,
            23 => Cot::InterrogationGroup3,
            24 => Cot::InterrogationGroup4,
            25 => Cot::InterrogationGroup5,
            26 => Cot::InterrogationGroup6,
            27 => Cot::InterrogationGroup7,
            28 => Cot::InterrogationGroup8,
            29 => Cot::InterrogationGroup9,
            30 => Cot::InterrogationGroup10,
            31 => Cot::InterrogationGroup11,
            32 => Cot::InterrogationGroup12,
            33 => Cot::InterrogationGroup13,
            34 => Cot::InterrogationGroup14,
            35 => Cot::InterrogationGroup15,
            36 => Cot::InterrogationGroup16,
            37 => Cot::CounterInterrogationGeneral,
            38 => Cot::CounterInterrogationGroup1,
            39 => Cot::CounterInterrogationGroup2,
            40 => Cot::CounterInterrogationGroup3,
            41 => Cot::CounterInterrogationGroup4,
            42 => Cot::Reserved42,
            43 => Cot::Reserved43,
            44 => Cot::UnknownType,
            45 => Cot::UnknownCause,
            46 => Cot::UnknownAsduAddress,
            47 => Cot::UnknownObjectAddress,
            48 => Cot::Reserved48,
            49 => Cot::Reserved49,
            50 => Cot::Reserved50,
            51 => Cot::Reserved51,
            52 => Cot::Reserved52,
            53 => Cot::Reserved53,
            54 => Cot::Reserved54,
            55 => Cot::Reserved55,
            56 => Cot::Reserved56,
            57 => Cot::Reserved57,
            58 => Cot::Reserved58,
            59 => Cot::Reserved59,
            60 => Cot::Reserved60,
            61 => Cot::Reserved61,
            62 => Cot::Reserved62,
            63 => Cot::Reserved63,
            _ => Cot::Unused,
        }
    }

    /// Decodes a cause of transmission; fails exactly on bytes above 63.
    pub fn from_byte(value: u8) -> (r: Result<Cot, CotError>)
        ensures
            value <= 63 ==> r == Ok::<Cot, CotError>(Cot::of_byte(value)),
            value > 63 ==> r == Err::<Cot, CotError>(CotError::InvalidCot(value)),
    {
        match value {
            0 => Ok(Cot::Unused),
            1 => Ok(Cot::Cyclic),
            2 => Ok(Cot::Background),
            3 => Ok(Cot::SpontaneousData),
            4 => Ok(Cot::Initiated),
            5 => Ok(Cot::Request),
            6 => Ok(Cot::Activation),
            7 => Ok(Cot::ActivationConfirmation),
            8 => Ok(Cot::Deactivation),
            9 => Ok(Cot::DeactivationConfirmation),
            10 => Ok(Cot::ActivationTermination),
            11 => Ok(Cot::ReturnRemote),
            12 => Ok(Cot::ReturnLocal),
            13 => Ok(Cot::File),
            14 => Ok(Cot::Reserved14),
            15 => Ok(Cot::Reserved15),
            16 => Ok(Cot::Reserved16),
            17 => Ok(Cot::Reserved17),
            18 => Ok(Cot::Reserved18),
            19 => Ok(Cot::Reserved19),
            20 => Ok(Cot::InterrogationGeneral),
            21 => Ok(Cot::InterrogationGroup1),
            22 => Ok(Cot::InterrogationGroup2),
            23 => Ok(Cot::InterrogationGroup3),
            24 => Ok(Cot::InterrogationGroup4),
            25 => Ok(Cot::InterrogationGroup5),
            26 => Ok(Cot::InterrogationGroup6),
            27 => Ok(Cot::InterrogationGroup7),
            28 => Ok(Cot::InterrogationGroup8),
            29 => Ok(Cot::InterrogationGroup9),
            30 => Ok(Cot::InterrogationGroup10),
            31 => Ok(Cot::InterrogationGroup11),
            32 => Ok(Cot::InterrogationGroup12),
            33 => Ok(Cot::InterrogationGroup13),
            34 => Ok(Cot::InterrogationGroup14),
            35 => Ok(Cot::InterrogationGroup15),
            36 => Ok(Cot::InterrogationGroup16),
            37 => Ok(Cot::CounterInterrogationGeneral),
            38 => Ok(Cot::CounterInterrogationGroup1),
            39 => Ok(Cot::CounterInterrogationGroup2),
            40 => Ok(Cot::CounterInterrogationGroup3),
            41 => Ok(Cot::CounterInterrogationGroup4),
            42 => Ok(Cot::Reserved42),
            43 => Ok(Cot::Reserved43),
            44 => Ok(Cot::UnknownType),
            45 => Ok(Cot::UnknownCause),
            46 => Ok(Cot::UnknownAsduAddress),
            47 => Ok(Cot::UnknownObjectAddress),
            48 => Ok(Cot::Reserved48),
            49 => Ok(Cot::Reserved49),
            50 => Ok(Cot::Reserved50),
            51 => Ok(Cot::Reserved51),
            52 => Ok(Cot::Reserved52),
            53 => Ok(Cot::Reserved53),
            54 => Ok(Cot::Reserved54),
            55 => Ok(Cot::Reserved55),
            56 => Ok(Cot::Reserved56),
            57 => Ok(Cot::Reserved57),
            58 => Ok(Cot::Reserved58),
            59 => Ok(Cot::Reserved59),
            60 => Ok(Cot::Reserved60),
            61 => Ok(Cot::Reserved61),
            62 => Ok(Cot::Reserved62),
            63 => Ok(Cot::Reserved63),
            _ => Err(CotError::InvalidCot(value)),
        }
    }

    /// Encodes this cause as its 6-bit wire value.
    pub fn to_byte(self) -> (r: u8)
        ensures
            r == self.code(),
            r <= 63,
    {
        match self {
            Cot::Unused => 0,
            Cot::Cyclic => 1,
            Cot::Background => 2,
            Cot::SpontaneousData => 3,
            Cot::Initiated => 4,
            Cot::Request => 5,
            Cot::Activation => 6,
            Cot::ActivationConfirmation => 7,
            Cot::Deactivation => 8,
            Cot::DeactivationConfirmation => 9,
            Cot::ActivationTermination => 10,
            Cot::ReturnRemote => 11,
            Cot::ReturnLocal => 12,
            Cot::File => 13,
            Cot::Reserved14 => 14,
            Cot::Reserved15 => 15,
            Cot::Reserved16 => 16,
            Cot::Reserved17 => 17,
            Cot::Reserved18 => 18,
            Cot::Reserved19 => 19,
            Cot::InterrogationGeneral => 20,
            Cot::InterrogationGroup1 => 21,
            Cot::InterrogationGroup2 => 22,
            Cot::InterrogationGroup3 => 23,
            Cot::InterrogationGroup4 => 24,
            Cot::InterrogationGroup5 => 25,
            Cot::InterrogationGroup6 => 26,
            Cot::InterrogationGroup7 => 27,
            Cot::InterrogationGroup8 => 28,
            Cot::InterrogationGroup9 => 29,
            Cot::InterrogationGroup10 => 30,
            Cot::InterrogationGroup11 => 31,
            Cot::InterrogationGroup12 => 32,
            Cot::InterrogationGroup13 => 33,
            Cot::InterrogationGroup14 => 34,
            Cot::InterrogationGroup15 => 35,
            Cot::InterrogationGroup16 => 36,
            Cot::CounterInterrogationGeneral => 37,
            Cot::CounterInterrogationGroup1 => 38,
            Cot::CounterInterrogationGroup2 => 39,
            Cot::CounterInterrogationGroup3 => 40,
            Cot::CounterInterrogationGroup4 => 41,
            Cot::Reserved42 => 42,
            Cot::Reserved43 => 43,
            Cot::UnknownType => 44,
            Cot::UnknownCause => 45,
            Cot::UnknownAsduAddress => 46,
            Cot::UnknownObjectAddress => 47,
            Cot::Reserved48 => 48,
            Cot::Reserved49 => 49,
            Cot::Reserved50 => 50,
            Cot::Reserved51 => 51,
            Cot::Reserved52 => 52,
            Cot::Reserved53 => 53,
            Cot::Reserved54 => 54,
            Cot::Reserved55 => 55,
            Cot::Reserved56 => 56,
            Cot::Reserved57 => 57,
            Cot::Reserved58 => 58,
            Cot::Reserved59 => 59,
            Cot::Reserved60 => 60,
            Cot::Reserved61 => 61,
            Cot::Reserved62 => 62,
            Cot::Reserved63 => 63,
        }
    }
}

/// Decoding is a left inverse of encoding: every cause survives the round
/// trip through its wire value.
pub proof fn lemma_cot_round_trip(c: Cot)
    ensures
        Cot::of_byte(c.code()) == c,
        c.code() <= 63,
{
}

/// Encoding is a left inverse of decoding on the 6-bit range: every byte
/// below 64 survives the round trip through the enum.
pub proof fn lemma_cot_byte_round_trip(b: u8)
    requires
        b <= 63,
    ensures
        Cot::of_byte(b).code() == b,
{
}

} // verus!
