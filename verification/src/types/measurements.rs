//! Measurement information objects: the payloads of the monitored
//! direction, from single points to packed protection events.

use vstd::prelude::*;

use crate::types::information_elements::{
    Bcr, Bsi, Coi, Diq, Lpc, Nva, Oci, R32, Sep, Siq, StartEp, Sva, Vti, lemma_bcr_round_trip,
    lemma_bsi_round_trip, lemma_coi_round_trip, lemma_diq_round_trip, lemma_nva_round_trip,
    lemma_oci_round_trip, lemma_r32_round_trip, lemma_sep_round_trip, lemma_siq_round_trip,
    lemma_start_ep_round_trip, lemma_sva_round_trip, lemma_vti_round_trip,
};
use crate::types::quality_descriptors::{Qdp, Qds, lemma_qdp_round_trip, lemma_qds_round_trip};
use crate::types::time::{
    Cp16Time2a, Cp24Time2a, Cp56Time2a, lemma_cp16_dec, lemma_cp16_enc, lemma_cp24_round_trip,
    lemma_cp56_round_trip,
};
use crate::types::{FromBytes, ParseError, ToBytes, lemma_split_word};

verus! {

/// Single-point information.
#[derive(Debug, Copy, Clone, Eq, PartialEq, Structural, Default)]
pub struct MSpNa1 {
    /// Single point with quality descriptor.
    pub siq: Siq,
}

impl ToBytes for MSpNa1 {
    open spec fn size_spec() -> nat {
        1
    }

    open spec fn wf(self) -> bool {
        true
    }

    open spec fn enc(self) -> Seq<u8> {
        seq![self.siq.enc()]
    }

    fn size() -> (r: usize) {
        1
    }

    proof fn lemma_enc_len(self) {
    }

    fn to_bytes(&self, buffer: &mut Vec<u8>) -> (r: Result<(), ParseError>) {
        buffer.push(self.siq.to_byte());
        proof {
            assert(buffer@ =~= old(buffer)@ + self.enc());
        }
        Ok(())
    }
}

impl FromBytes for MSpNa1 {
    #[verifier::opaque]
    open spec fn dec(b: Seq<u8>) -> Result<MSpNa1, ParseError> {
        if b.len() < 1 {
            Err(ParseError::NotEnoughBytes)
        } else {
            Ok(MSpNa1 { siq: Siq::of_byte(b[0]) })
        }
    }

    #[verifier::opaque]
    open spec fn canon(b: Seq<u8>) -> bool {
        Siq::canon(b[0])
    }

    fn from_bytes(bytes: &[u8]) -> (r: Result<MSpNa1, ParseError>) {
        proof {
            reveal(<MSpNa1 as FromBytes>::dec);
        }
        if bytes.len() < 1 {
            return Err(ParseError::NotEnoughBytes);
        }
        Ok(MSpNa1 { siq: Siq::from_byte(bytes[0]) })
    }

    proof fn lemma_dec(b: Seq<u8>) {
        reveal(<MSpNa1 as FromBytes>::dec);
        reveal(<MSpNa1 as FromBytes>::canon);
        if Self::dec(b) is Ok {
            let x = Self::dec(b)->Ok_0;
            lemma_siq_round_trip(x.siq, b[0]);
            if Self::canon(b) && b.len() == 1 {
                assert(x.enc() =~= b);
            }
        }
    }

    proof fn lemma_enc(self) {
        reveal(<MSpNa1 as FromBytes>::dec);
        reveal(<MSpNa1 as FromBytes>::canon);
        if self.wf() {
            let e = self.enc();
            lemma_siq_round_trip(self.siq, 0);
            assert(e[0] == self.siq.enc());
            assert(Self::dec(e) == Ok::<MSpNa1, ParseError>(self));
        }
    }
}

/// Single-point information with CP24 time tag.
#[derive(Debug, Copy, Clone, Eq, PartialEq, Structural)]
pub struct MSpTa1 {
    /// Single point with quality descriptor.
    pub siq: Siq,
    /// Time tag.
    pub time: Cp24Time2a,
}

impl ToBytes for MSpTa1 {
    open spec fn size_spec() -> nat {
        4
    }

    open spec fn wf(self) -> bool {
        self.time.wf()
    }

    open spec fn enc(self) -> Seq<u8> {
        seq![self.siq.enc()] + self.time.enc()
    }

    fn size() -> (r: usize) {
        4
    }

    proof fn lemma_enc_len(self) {
    }

    fn to_bytes(&self, buffer: &mut Vec<u8>) -> (r: Result<(), ParseError>) {
        buffer.push(self.siq.to_byte());
        self.time.write_bytes(buffer);
        proof {
            assert(buffer@ =~= old(buffer)@ + self.enc());
        }
        Ok(())
    }
}

impl FromBytes for MSpTa1 {
    #[verifier::opaque]
    open spec fn dec(b: Seq<u8>) -> Result<MSpTa1, ParseError> {
        if b.len() < 4 {
            Err(ParseError::NotEnoughBytes)
        } else {
            match Cp24Time2a::dec(b.subrange(1, 4)) {
                Err(e) => Err(ParseError::ParseTimeTag(e)),
                Ok(time) => 
                Ok(MSpTa1 { siq: Siq::of_byte(b[0]), time }),
            }
        }
    }

    #[verifier::opaque]
    open spec fn canon(b: Seq<u8>) -> bool {
        Siq::canon(b[0]) && Cp24Time2a::canon(b.subrange(1, 4))
    }

    fn from_bytes(bytes: &[u8]) -> (r: Result<MSpTa1, ParseError>) {
        proof {
            reveal(<MSpTa1 as FromBytes>::dec);
        }
        if bytes.len() < 4 {
            return Err(ParseError::NotEnoughBytes);
        }
        let ab: [u8; 3] = [bytes[1], bytes[2], bytes[3]];
        proof { assert(ab@ =~= bytes@.subrange(1, 4)); }
        let time = match Cp24Time2a::from_bytes(&ab) {
            Err(e) => { return Err(ParseError::ParseTimeTag(e)); },
            Ok(t) => t,
        };
        Ok(MSpTa1 { siq: Siq::from_byte(bytes[0]), time })
    }

    proof fn lemma_dec(b: Seq<u8>) {
        reveal(<MSpTa1 as FromBytes>::dec);
        reveal(<MSpTa1 as FromBytes>::canon);
        if Self::dec(b) is Ok {
            let x = Self::dec(b)->Ok_0;
            lemma_siq_round_trip(x.siq, b[0]);
            lemma_cp24_round_trip(x.time, b.subrange(1, 4));
            if Self::canon(b) && b.len() == 4 {
                assert(x.enc() =~= b);
            }
        }
    }

    proof fn lemma_enc(self) {
        reveal(<MSpTa1 as FromBytes>::dec);
        reveal(<MSpTa1 as FromBytes>::canon);
        if self.wf() {
            let e = self.enc();
            lemma_siq_round_trip(self.siq, 0);
            assert(e[0] == self.siq.enc());
            assert(e.subrange(1, 4) =~= self.time.enc());
            lemma_cp24_round_trip(self.time, e.subrange(1, 4));
            assert(Self::dec(e) == Ok::<MSpTa1, ParseError>(self));
        }
    }
}

/// Double-point information.
#[derive(Debug, Copy, Clone, Eq, PartialEq, Structural, Default)]
pub struct MDpNa1 {
    /// Double point with quality descriptor.
    pub diq: Diq,
}

impl ToBytes for MDpNa1 {
    open spec fn size_spec() -> nat {
        1
    }

    open spec fn wf(self) -> bool {
        true
    }

    open spec fn enc(self) -> Seq<u8> {
        seq![self.diq.enc()]
    }

    fn size() -> (r: usize) {
        1
    }

    proof fn lemma_enc_len(self) {
    }

    fn to_bytes(&self, buffer: &mut Vec<u8>) -> (r: Result<(), ParseError>) {
        buffer.push(self.diq.to_byte());
        proof {
            assert(buffer@ =~= old(buffer)@ + self.enc());
        }
        Ok(())
    }
}

impl FromBytes for MDpNa1 {
    #[verifier::opaque]
    open spec fn dec(b: Seq<u8>) -> Result<MDpNa1, ParseError> {
        if b.len() < 1 {
            Err(ParseError::NotEnoughBytes)
        } else {
            Ok(MDpNa1 { diq: Diq::of_byte(b[0]) })
        }
    }

    #[verifier::opaque]
    open spec fn canon(b: Seq<u8>) -> bool {
        Diq::canon(b[0])
    }

    fn from_bytes(bytes: &[u8]) -> (r: Result<MDpNa1, ParseError>) {
        proof {
            reveal(<MDpNa1 as FromBytes>::dec);
        }
        if bytes.len() < 1 {
            return Err(ParseError::NotEnoughBytes);
        }
        Ok(MDpNa1 { diq: Diq::from_byte(bytes[0]) })
    }

    proof fn lemma_dec(b: Seq<u8>) {
        reveal(<MDpNa1 as FromBytes>::dec);
        reveal(<MDpNa1 as FromBytes>::canon);
        if Self::dec(b) is Ok {
            let x = Self::dec(b)->Ok_0;
            lemma_diq_round_trip(x.diq, b[0]);
            if Self::canon(b) && b.len() == 1 {
                assert(x.enc() =~= b);
            }
        }
    }

    proof fn lemma_enc(self) {
        reveal(<MDpNa1 as FromBytes>::dec);
        reveal(<MDpNa1 as FromBytes>::canon);
        if self.wf() {
            let e = self.enc();
            lemma_diq_round_trip(self.diq, 0);
            assert(e[0] == self.diq.enc());
            assert(Self::dec(e) == Ok::<MDpNa1, ParseError>(self));
        }
    }
}

/// Double-point information with CP24 time tag.
#[derive(Debug, Copy, Clone, Eq, PartialEq, Structural)]
pub struct MDpTa1 {
    /// Double point with quality descriptor.
    pub diq: Diq,
    /// Time tag.
    pub time: Cp24Time2a,
}

impl ToBytes for MDpTa1 {
    open spec fn size_spec() -> nat {
        4
    }

    open spec fn wf(self) -> bool {
        self.time.wf()
    }

    open spec fn enc(self) -> Seq<u8> {
        seq![self.diq.enc()] + self.time.enc()
    }

    fn size() -> (r: usize) {
        4
    }

    proof fn lemma_enc_len(self) {
    }

    fn to_bytes(&self, buffer: &mut Vec<u8>) -> (r: Result<(), ParseError>) {
        buffer.push(self.diq.to_byte());
        self.time.write_bytes(buffer);
        proof {
            assert(buffer@ =~= old(buffer)@ + self.enc());
        }
        Ok(())
    }
}

impl FromBytes for MDpTa1 {
    #[verifier::opaque]
    open spec fn dec(b: Seq<u8>) -> Result<MDpTa1, ParseError> {
        if b.len() < 4 {
            Err(ParseError::NotEnoughBytes)
        } else {
            match Cp24Time2a::dec(b.subrange(1, 4)) {
                Err(e) => Err(ParseError::ParseTimeTag(e)),
                Ok(time) => 
                Ok(MDpTa1 { diq: Diq::of_byte(b[0]), time }),
            }
        }
    }

    #[verifier::opaque]
    open spec fn canon(b: Seq<u8>) -> bool {
        Diq::canon(b[0]) && Cp24Time2a::canon(b.subrange(1, 4))
    }

    fn from_bytes(bytes: &[u8]) -> (r: Result<MDpTa1, ParseError>) {
        proof {
            reveal(<MDpTa1 as FromBytes>::dec);
        }
        if bytes.len() < 4 {
            return Err(ParseError::NotEnoughBytes);
        }
        let ab: [u8; 3] = [bytes[1], bytes[2], bytes[3]];
        proof { assert(ab@ =~= bytes@.subrange(1, 4)); }
        let time = match Cp24Time2a::from_bytes(&ab) {
            Err(e) => { return Err(ParseError::ParseTimeTag(e)); },
            Ok(t) => t,
        };
        Ok(MDpTa1 { diq: Diq::from_byte(bytes[0]), time })
    }

    proof fn lemma_dec(b: Seq<u8>) {
        reveal(<MDpTa1 as FromBytes>::dec);
        reveal(<MDpTa1 as FromBytes>::canon);
        if Self::dec(b) is Ok {
            let x = Self::dec(b)->Ok_0;
            lemma_diq_round_trip(x.diq, b[0]);
            lemma_cp24_round_trip(x.time, b.subrange(1, 4));
            if Self::canon(b) && b.len() == 4 {
                assert(x.enc() =~= b);
            }
        }
    }

    proof fn lemma_enc(self) {
        reveal(<MDpTa1 as FromBytes>::dec);
        reveal(<MDpTa1 as FromBytes>::canon);
        if self.wf() {
            let e = self.enc();
            lemma_diq_round_trip(self.diq, 0);
            assert(e[0] == self.diq.enc());
            assert(e.subrange(1, 4) =~= self.time.enc());
            lemma_cp24_round_trip(self.time, e.subrange(1, 4));
            assert(Self::dec(e) == Ok::<MDpTa1, ParseError>(self));
        }
    }
}

/// Step position information.
#[derive(Debug, Copy, Clone, Eq, PartialEq, Structural, Default)]
pub struct MStNa1 {
    /// Value with transient state indication.
    pub vti: Vti,
}

impl ToBytes for MStNa1 {
    open spec fn size_spec() -> nat {
        2
    }

    open spec fn wf(self) -> bool {
        self.vti.wf()
    }

    open spec fn enc(self) -> Seq<u8> {
        self.vti.enc()
    }

    fn size() -> (r: usize) {
        2
    }

    proof fn lemma_enc_len(self) {
    }

    fn to_bytes(&self, buffer: &mut Vec<u8>) -> (r: Result<(), ParseError>) {
        let fb = self.vti.to_bytes();
        buffer.push(fb[0]);
        buffer.push(fb[1]);
        proof {
            assert(buffer@ =~= old(buffer)@ + self.enc());
        }
        Ok(())
    }
}

impl FromBytes for MStNa1 {
    #[verifier::opaque]
    open spec fn dec(b: Seq<u8>) -> Result<MStNa1, ParseError> {
        if b.len() < 2 {
            Err(ParseError::NotEnoughBytes)
        } else {
            Ok(MStNa1 { vti: Vti::of_bytes(b.subrange(0, 2)) })
        }
    }

    #[verifier::opaque]
    open spec fn canon(b: Seq<u8>) -> bool {
        Vti::canon(b.subrange(0, 2))
    }

    fn from_bytes(bytes: &[u8]) -> (r: Result<MStNa1, ParseError>) {
        proof {
            reveal(<MStNa1 as FromBytes>::dec);
        }
        if bytes.len() < 2 {
            return Err(ParseError::NotEnoughBytes);
        }
        let vti = Vti::from_byte([bytes[0], bytes[1]]);
        proof { assert(bytes@.subrange(0, 2) =~= seq![bytes@[0], bytes@[1]]); }
        Ok(MStNa1 { vti })
    }

    proof fn lemma_dec(b: Seq<u8>) {
        reveal(<MStNa1 as FromBytes>::dec);
        reveal(<MStNa1 as FromBytes>::canon);
        if Self::dec(b) is Ok {
            let x = Self::dec(b)->Ok_0;
            lemma_vti_round_trip(x.vti, b.subrange(0, 2));
            if Self::canon(b) && b.len() == 2 {
                assert(x.enc() =~= b);
            }
        }
    }

    proof fn lemma_enc(self) {
        reveal(<MStNa1 as FromBytes>::dec);
        reveal(<MStNa1 as FromBytes>::canon);
        if self.wf() {
            let e = self.enc();
            assert(e.subrange(0, 2) =~= self.vti.enc());
            lemma_vti_round_trip(self.vti, e.subrange(0, 2));
            assert(Self::dec(e) == Ok::<MStNa1, ParseError>(self));
        }
    }
}

/// Step position information with CP24 time tag.
#[derive(Debug, Copy, Clone, Eq, PartialEq, Structural)]
pub struct MStTa1 {
    /// Value with transient state indication.
    pub vti: Vti,
    /// Time tag.
    pub time: Cp24Time2a,
}

impl ToBytes for MStTa1 {
    open spec fn size_spec() -> nat {
        5
    }

    open spec fn wf(self) -> bool {
        self.vti.wf() && self.time.wf()
    }

    open spec fn enc(self) -> Seq<u8> {
        self.vti.enc() + self.time.enc()
    }

    fn size() -> (r: usize) {
        5
    }

    proof fn lemma_enc_len(self) {
    }

    fn to_bytes(&self, buffer: &mut Vec<u8>) -> (r: Result<(), ParseError>) {
        let fb = self.vti.to_bytes();
        buffer.push(fb[0]);
        buffer.push(fb[1]);
        self.time.write_bytes(buffer);
        proof {
            assert(buffer@ =~= old(buffer)@ + self.enc());
        }
        Ok(())
    }
}

impl FromBytes for MStTa1 {
    #[verifier::opaque]
    open spec fn dec(b: Seq<u8>) -> Result<MStTa1, ParseError> {
        if b.len() < 5 {
            Err(ParseError::NotEnoughBytes)
        } else {
            match Cp24Time2a::dec(b.subrange(2, 5)) {
                Err(e) => Err(ParseError::ParseTimeTag(e)),
                Ok(time) => 
                Ok(MStTa1 { vti: Vti::of_bytes(b.subrange(0, 2)), time }),
            }
        }
    }

    #[verifier::opaque]
    open spec fn canon(b: Seq<u8>) -> bool {
        Vti::canon(b.subrange(0, 2)) && Cp24Time2a::canon(b.subrange(2, 5))
    }

    fn from_bytes(bytes: &[u8]) -> (r: Result<MStTa1, ParseError>) {
        proof {
            reveal(<MStTa1 as FromBytes>::dec);
        }
        if bytes.len() < 5 {
            return Err(ParseError::NotEnoughBytes);
        }
        let vti = Vti::from_byte([bytes[0], bytes[1]]);
        proof { assert(bytes@.subrange(0, 2) =~= seq![bytes@[0], bytes@[1]]); }
        let ab: [u8; 3] = [bytes[2], bytes[3], bytes[4]];
        proof { assert(ab@ =~= bytes@.subrange(2, 5)); }
        let time = match Cp24Time2a::from_bytes(&ab) {
            Err(e) => { return Err(ParseError::ParseTimeTag(e)); },
            Ok(t) => t,
        };
        Ok(MStTa1 { vti, time })
    }

    proof fn lemma_dec(b: Seq<u8>) {
        reveal(<MStTa1 as FromBytes>::dec);
        reveal(<MStTa1 as FromBytes>::canon);
        if Self::dec(b) is Ok {
            let x = Self::dec(b)->Ok_0;
            lemma_vti_round_trip(x.vti, b.subrange(0, 2));
            lemma_cp24_round_trip(x.time, b.subrange(2, 5));
            if Self::canon(b) && b.len() == 5 {
                assert(x.enc() =~= b);
            }
        }
    }

    proof fn lemma_enc(self) {
        reveal(<MStTa1 as FromBytes>::dec);
        reveal(<MStTa1 as FromBytes>::canon);
        if self.wf() {
            let e = self.enc();
            assert(e.subrange(0, 2) =~= self.vti.enc());
            lemma_vti_round_trip(self.vti, e.subrange(0, 2));
            assert(e.subrange(2, 5) =~= self.time.enc());
            lemma_cp24_round_trip(self.time, e.subrange(2, 5));
            assert(Self::dec(e) == Ok::<MStTa1, ParseError>(self));
        }
    }
}

/// Bitstring of 32 bits.
#[derive(Debug, Copy, Clone, Eq, PartialEq, Structural, Default)]
pub struct MBoNa1 {
    /// Bit string of 32 bits.
    pub bsi: Bsi,
    /// Quality descriptor.
    pub qds: Qds,
}

impl ToBytes for MBoNa1 {
    open spec fn size_spec() -> nat {
        5
    }

    open spec fn wf(self) -> bool {
        true
    }

    open spec fn enc(self) -> Seq<u8> {
        self.bsi.enc() + seq![self.qds.enc()]
    }

    fn size() -> (r: usize) {
        5
    }

    proof fn lemma_enc_len(self) {
    }

    fn to_bytes(&self, buffer: &mut Vec<u8>) -> (r: Result<(), ParseError>) {
        self.bsi.write_bytes(buffer);
        buffer.push(self.qds.to_byte());
        proof {
            assert(buffer@ =~= old(buffer)@ + self.enc());
        }
        Ok(())
    }
}

impl FromBytes for MBoNa1 {
    #[verifier::opaque]
    open spec fn dec(b: Seq<u8>) -> Result<MBoNa1, ParseError> {
        if b.len() < 5 {
            Err(ParseError::NotEnoughBytes)
        } else {
            Ok(MBoNa1 { bsi: Bsi::of_bytes(b.subrange(0, 4)), qds: Qds::of_byte(b[4]) })
        }
    }

    #[verifier::opaque]
    open spec fn canon(b: Seq<u8>) -> bool {
        Qds::canon(b[4])
    }

    fn from_bytes(bytes: &[u8]) -> (r: Result<MBoNa1, ParseError>) {
        proof {
            reveal(<MBoNa1 as FromBytes>::dec);
        }
        if bytes.len() < 5 {
            return Err(ParseError::NotEnoughBytes);
        }
        let bsi = Bsi::from_byte([bytes[0], bytes[1], bytes[2], bytes[3]]);
        proof { assert(bytes@.subrange(0, 4) =~= seq![bytes@[0], bytes@[1], bytes@[2], bytes@[3]]); }
        Ok(MBoNa1 { bsi, qds: Qds::from_byte(bytes[4]) })
    }

    proof fn lemma_dec(b: Seq<u8>) {
        reveal(<MBoNa1 as FromBytes>::dec);
        reveal(<MBoNa1 as FromBytes>::canon);
        if Self::dec(b) is Ok {
            let x = Self::dec(b)->Ok_0;
            lemma_bsi_round_trip(x.bsi, b.subrange(0, 4));
            lemma_qds_round_trip(x.qds, b[4]);
            if Self::canon(b) && b.len() == 5 {
                assert(x.enc() =~= b);
            }
        }
    }

    proof fn lemma_enc(self) {
        reveal(<MBoNa1 as FromBytes>::dec);
        reveal(<MBoNa1 as FromBytes>::canon);
        if self.wf() {
            let e = self.enc();
            assert(e.subrange(0, 4) =~= self.bsi.enc());
            lemma_bsi_round_trip(self.bsi, e.subrange(0, 4));
            lemma_qds_round_trip(self.qds, 0);
            assert(e[4] == self.qds.enc());
            assert(Self::dec(e) == Ok::<MBoNa1, ParseError>(self));
        }
    }
}

/// Measured value, normalized.
#[derive(Debug, Copy, Clone, Eq, PartialEq, Structural, Default)]
pub struct MMeNa1 {
    /// Normalized value.
    pub nva: Nva,
    /// Quality descriptor.
    pub qds: Qds,
}

impl ToBytes for MMeNa1 {
    open spec fn size_spec() -> nat {
        3
    }

    open spec fn wf(self) -> bool {
        true
    }

    open spec fn enc(self) -> Seq<u8> {
        self.nva.enc() + seq![self.qds.enc()]
    }

    fn size() -> (r: usize) {
        3
    }

    proof fn lemma_enc_len(self) {
    }

    fn to_bytes(&self, buffer: &mut Vec<u8>) -> (r: Result<(), ParseError>) {
        self.nva.write_bytes(buffer);
        buffer.push(self.qds.to_byte());
        proof {
            assert(buffer@ =~= old(buffer)@ + self.enc());
        }
        Ok(())
    }
}

impl FromBytes for MMeNa1 {
    #[verifier::opaque]
    open spec fn dec(b: Seq<u8>) -> Result<MMeNa1, ParseError> {
        if b.len() < 3 {
            Err(ParseError::NotEnoughBytes)
        } else {
            Ok(MMeNa1 { nva: Nva::of_bytes(b.subrange(0, 2)), qds: Qds::of_byte(b[2]) })
        }
    }

    #[verifier::opaque]
    open spec fn canon(b: Seq<u8>) -> bool {
        Qds::canon(b[2])
    }

    fn from_bytes(bytes: &[u8]) -> (r: Result<MMeNa1, ParseError>) {
        proof {
            reveal(<MMeNa1 as FromBytes>::dec);
        }
        if bytes.len() < 3 {
            return Err(ParseError::NotEnoughBytes);
        }
        let nva = Nva::from_bytes([bytes[0], bytes[1]]);
        proof { assert(bytes@.subrange(0, 2) =~= seq![bytes@[0], bytes@[1]]); }
        Ok(MMeNa1 { nva, qds: Qds::from_byte(bytes[2]) })
    }

    proof fn lemma_dec(b: Seq<u8>) {
        reveal(<MMeNa1 as FromBytes>::dec);
        reveal(<MMeNa1 as FromBytes>::canon);
        if Self::dec(b) is Ok {
            let x = Self::dec(b)->Ok_0;
            lemma_nva_round_trip(x.nva, b.subrange(0, 2));
            lemma_qds_round_trip(x.qds, b[2]);
            if Self::canon(b) && b.len() == 3 {
                assert(x.enc() =~= b);
            }
        }
    }

    proof fn lemma_enc(self) {
        reveal(<MMeNa1 as FromBytes>::dec);
        reveal(<MMeNa1 as FromBytes>::canon);
        if self.wf() {
            let e = self.enc();
            assert(e.subrange(0, 2) =~= self.nva.enc());
            lemma_nva_round_trip(self.nva, e.subrange(0, 2));
            lemma_qds_round_trip(self.qds, 0);
            assert(e[2] == self.qds.enc());
            assert(Self::dec(e) == Ok::<MMeNa1, ParseError>(self));
        }
    }
}

/// Measured value, normalized, with CP24 time tag.
#[derive(Debug, Copy, Clone, Eq, PartialEq, Structural)]
pub struct MMeTa1 {
    /// Normalized value.
    pub nva: Nva,
    /// Quality descriptor.
    pub qds: Qds,
    /// Time tag.
    pub time: Cp24Time2a,
}

impl ToBytes for MMeTa1 {
    open spec fn size_spec() -> nat {
        6
    }

    open spec fn wf(self) -> bool {
        self.time.wf()
    }

    open spec fn enc(self) -> Seq<u8> {
        self.nva.enc() + seq![self.qds.enc()] + self.time.enc()
    }

    fn size() -> (r: usize) {
        6
    }

    proof fn lemma_enc_len(self) {
    }

    fn to_bytes(&self, buffer: &mut Vec<u8>) -> (r: Result<(), ParseError>) {
        self.nva.write_bytes(buffer);
        buffer.push(self.qds.to_byte());
        self.time.write_bytes(buffer);
        proof {
            assert(buffer@ =~= old(buffer)@ + self.enc());
        }
        Ok(())
    }
}

impl FromBytes for MMeTa1 {
    #[verifier::opaque]
    open spec fn dec(b: Seq<u8>) -> Result<MMeTa1, ParseError> {
        if b.len() < 6 {
            Err(ParseError::NotEnoughBytes)
        } else {
            match Cp24Time2a::dec(b.subrange(3, 6)) {
                Err(e) => Err(ParseError::ParseTimeTag(e)),
                Ok(time) => 
                Ok(MMeTa1 { nva: Nva::of_bytes(b.subrange(0, 2)), qds: Qds::of_byte(b[2]), time }),
            }
        }
    }

    #[verifier::opaque]
    open spec fn canon(b: Seq<u8>) -> bool {
        Qds::canon(b[2]) && Cp24Time2a::canon(b.subrange(3, 6))
    }

    fn from_bytes(bytes: &[u8]) -> (r: Result<MMeTa1, ParseError>) {
        proof {
            reveal(<MMeTa1 as FromBytes>::dec);
        }
        if bytes.len() < 6 {
            return Err(ParseError::NotEnoughBytes);
        }
        let nva = Nva::from_bytes([bytes[0], bytes[1]]);
        proof { assert(bytes@.subrange(0, 2) =~= seq![bytes@[0], bytes@[1]]); }
        let ab: [u8; 3] = [bytes[3], bytes[4], bytes[5]];
        proof { assert(ab@ =~= bytes@.subrange(3, 6)); }
        let time = match Cp24Time2a::from_bytes(&ab) {
            Err(e) => { return Err(ParseError::ParseTimeTag(e)); },
            Ok(t) => t,
        };
        Ok(MMeTa1 { nva, qds: Qds::from_byte(bytes[2]), time })
    }

    proof fn lemma_dec(b: Seq<u8>) {
        reveal(<MMeTa1 as FromBytes>::dec);
        reveal(<MMeTa1 as FromBytes>::canon);
        if Self::dec(b) is Ok {
            let x = Self::dec(b)->Ok_0;
            lemma_nva_round_trip(x.nva, b.subrange(0, 2));
            lemma_qds_round_trip(x.qds, b[2]);
            lemma_cp24_round_trip(x.time, b.subrange(3, 6));
            if Self::canon(b) && b.len() == 6 {
                assert(x.enc() =~= b);
            }
        }
    }

    proof fn lemma_enc(self) {
        reveal(<MMeTa1 as FromBytes>::dec);
        reveal(<MMeTa1 as FromBytes>::canon);
        if self.wf() {
            let e = self.enc();
            assert(e.subrange(0, 2) =~= self.nva.enc());
            lemma_nva_round_trip(self.nva, e.subrange(0, 2));
            lemma_qds_round_trip(self.qds, 0);
            assert(e[2] == self.qds.enc());
            assert(e.subrange(3, 6) =~= self.time.enc());
            lemma_cp24_round_trip(self.time, e.subrange(3, 6));
            assert(Self::dec(e) == Ok::<MMeTa1, ParseError>(self));
        }
    }
}

/// Measured value, scaled.
#[derive(Debug, Copy, Clone, Eq, PartialEq, Structural, Default)]
pub struct MMeNb1 {
    /// Scaled value.
    pub sva: Sva,
    /// Quality descriptor.
    pub qds: Qds,
}

impl ToBytes for MMeNb1 {
    open spec fn size_spec() -> nat {
        3
    }

    open spec fn wf(self) -> bool {
        true
    }

    open spec fn enc(self) -> Seq<u8> {
        self.sva.enc() + seq![self.qds.enc()]
    }

    fn size() -> (r: usize) {
        3
    }

    proof fn lemma_enc_len(self) {
    }

    fn to_bytes(&self, buffer: &mut Vec<u8>) -> (r: Result<(), ParseError>) {
        self.sva.write_bytes(buffer);
        buffer.push(self.qds.to_byte());
        proof {
            assert(buffer@ =~= old(buffer)@ + self.enc());
        }
        Ok(())
    }
}

impl FromBytes for MMeNb1 {
    #[verifier::opaque]
    open spec fn dec(b: Seq<u8>) -> Result<MMeNb1, ParseError> {
        if b.len() < 3 {
            Err(ParseError::NotEnoughBytes)
        } else {
            Ok(MMeNb1 { sva: Sva::of_bytes(b.subrange(0, 2)), qds: Qds::of_byte(b[2]) })
        }
    }

    #[verifier::opaque]
    open spec fn canon(b: Seq<u8>) -> bool {
        Qds::canon(b[2])
    }

    fn from_bytes(bytes: &[u8]) -> (r: Result<MMeNb1, ParseError>) {
        proof {
            reveal(<MMeNb1 as FromBytes>::dec);
        }
        if bytes.len() < 3 {
            return Err(ParseError::NotEnoughBytes);
        }
        let sva = Sva::from_bytes([bytes[0], bytes[1]]);
        proof { assert(bytes@.subrange(0, 2) =~= seq![bytes@[0], bytes@[1]]); }
        Ok(MMeNb1 { sva, qds: Qds::from_byte(bytes[2]) })
    }

    proof fn lemma_dec(b: Seq<u8>) {
        reveal(<MMeNb1 as FromBytes>::dec);
        reveal(<MMeNb1 as FromBytes>::canon);
        if Self::dec(b) is Ok {
            let x = Self::dec(b)->Ok_0;
            lemma_sva_round_trip(x.sva, b.subrange(0, 2));
            lemma_qds_round_trip(x.qds, b[2]);
            if Self::canon(b) && b.len() == 3 {
                assert(x.enc() =~= b);
            }
        }
    }

    proof fn lemma_enc(self) {
        reveal(<MMeNb1 as FromBytes>::dec);
        reveal(<MMeNb1 as FromBytes>::canon);
        if self.wf() {
            let e = self.enc();
            assert(e.subrange(0, 2) =~= self.sva.enc());
            lemma_sva_round_trip(self.sva, e.subrange(0, 2));
            lemma_qds_round_trip(self.qds, 0);
            assert(e[2] == self.qds.enc());
            assert(Self::dec(e) == Ok::<MMeNb1, ParseError>(self));
        }
    }
}

/// Measured value, scaled, with CP24 time tag.
#[derive(Debug, Copy, Clone, Eq, PartialEq, Structural)]
pub struct MMeTb1 {
    /// Scaled value.
    pub sva: Sva,
    /// Quality descriptor.
    pub qds: Qds,
    /// Time tag.
    pub time: Cp24Time2a,
}

impl ToBytes for MMeTb1 {
    open spec fn size_spec() -> nat {
        6
    }

    open spec fn wf(self) -> bool {
        self.time.wf()
    }

    open spec fn enc(self) -> Seq<u8> {
        self.sva.enc() + seq![self.qds.enc()] + self.time.enc()
    }

    fn size() -> (r: usize) {
        6
    }

    proof fn lemma_enc_len(self) {
    }

    fn to_bytes(&self, buffer: &mut Vec<u8>) -> (r: Result<(), ParseError>) {
        self.sva.write_bytes(buffer);
        buffer.push(self.qds.to_byte());
        self.time.write_bytes(buffer);
        proof {
            assert(buffer@ =~= old(buffer)@ + self.enc());
        }
        Ok(())
    }
}

impl FromBytes for MMeTb1 {
    #[verifier::opaque]
    open spec fn dec(b: Seq<u8>) -> Result<MMeTb1, ParseError> {
        if b.len() < 6 {
            Err(ParseError::NotEnoughBytes)
        } else {
            match Cp24Time2a::dec(b.subrange(3, 6)) {
                Err(e) => Err(ParseError::ParseTimeTag(e)),
                Ok(time) => 
                Ok(MMeTb1 { sva: Sva::of_bytes(b.subrange(0, 2)), qds: Qds::of_byte(b[2]), time }),
            }
        }
    }

    #[verifier::opaque]
    open spec fn canon(b: Seq<u8>) -> bool {
        Qds::canon(b[2]) && Cp24Time2a::canon(b.subrange(3, 6))
    }

    fn from_bytes(bytes: &[u8]) -> (r: Result<MMeTb1, ParseError>) {
        proof {
            reveal(<MMeTb1 as FromBytes>::dec);
        }
        if bytes.len() < 6 {
            return Err(ParseError::NotEnoughBytes);
        }
        let sva = Sva::from_bytes([bytes[0], bytes[1]]);
        proof { assert(bytes@.subrange(0, 2) =~= seq![bytes@[0], bytes@[1]]); }
        let ab: [u8; 3] = [bytes[3], bytes[4], bytes[5]];
        proof { assert(ab@ =~= bytes@.subrange(3, 6)); }
        let time = match Cp24Time2a::from_bytes(&ab) {
            Err(e) => { return Err(ParseError::ParseTimeTag(e)); },
            Ok(t) => t,
        };
        Ok(MMeTb1 { sva, qds: Qds::from_byte(bytes[2]), time })
    }

    proof fn lemma_dec(b: Seq<u8>) {
        reveal(<MMeTb1 as FromBytes>::dec);
        reveal(<MMeTb1 as FromBytes>::canon);
        if Self::dec(b) is Ok {
            let x = Self::dec(b)->Ok_0;
            lemma_sva_round_trip(x.sva, b.subrange(0, 2));
            lemma_qds_round_trip(x.qds, b[2]);
            lemma_cp24_round_trip(x.time, b.subrange(3, 6));
            if Self::canon(b) && b.len() == 6 {
                assert(x.enc() =~= b);
            }
        }
    }

    proof fn lemma_enc(self) {
        reveal(<MMeTb1 as FromBytes>::dec);
        reveal(<MMeTb1 as FromBytes>::canon);
        if self.wf() {
            let e = self.enc();
            assert(e.subrange(0, 2) =~= self.sva.enc());
            lemma_sva_round_trip(self.sva, e.subrange(0, 2));
            lemma_qds_round_trip(self.qds, 0);
            assert(e[2] == self.qds.enc());
            assert(e.subrange(3, 6) =~= self.time.enc());
            lemma_cp24_round_trip(self.time, e.subrange(3, 6));
            assert(Self::dec(e) == Ok::<MMeTb1, ParseError>(self));
        }
    }
}

/// Measured value, short floating point.
#[derive(Debug, Copy, Clone, Eq, PartialEq, Structural, Default)]
pub struct MMeNc1 {
    /// Short floating point value.
    pub r32: R32,
    /// Quality descriptor.
    pub qds: Qds,
}

impl ToBytes for MMeNc1 {
    open spec fn size_spec() -> nat {
        5
    }

    open spec fn wf(self) -> bool {
        true
    }

    open spec fn enc(self) -> Seq<u8> {
        self.r32.enc() + seq![self.qds.enc()]
    }

    fn size() -> (r: usize) {
        5
    }

    proof fn lemma_enc_len(self) {
    }

    fn to_bytes(&self, buffer: &mut Vec<u8>) -> (r: Result<(), ParseError>) {
        self.r32.write_bytes(buffer);
        buffer.push(self.qds.to_byte());
        proof {
            assert(buffer@ =~= old(buffer)@ + self.enc());
        }
        Ok(())
    }
}

impl FromBytes for MMeNc1 {
    #[verifier::opaque]
    open spec fn dec(b: Seq<u8>) -> Result<MMeNc1, ParseError> {
        if b.len() < 5 {
            Err(ParseError::NotEnoughBytes)
        } else {
            Ok(MMeNc1 { r32: R32::of_bytes(b.subrange(0, 4)), qds: Qds::of_byte(b[4]) })
        }
    }

    #[verifier::opaque]
    open spec fn canon(b: Seq<u8>) -> bool {
        Qds::canon(b[4])
    }

    fn from_bytes(bytes: &[u8]) -> (r: Result<MMeNc1, ParseError>) {
        proof {
            reveal(<MMeNc1 as FromBytes>::dec);
        }
        if bytes.len() < 5 {
            return Err(ParseError::NotEnoughBytes);
        }
        let r32 = R32::from_bytes([bytes[0], bytes[1], bytes[2], bytes[3]]);
        proof { assert(bytes@.subrange(0, 4) =~= seq![bytes@[0], bytes@[1], bytes@[2], bytes@[3]]); }
        Ok(MMeNc1 { r32, qds: Qds::from_byte(bytes[4]) })
    }

    proof fn lemma_dec(b: Seq<u8>) {
        reveal(<MMeNc1 as FromBytes>::dec);
        reveal(<MMeNc1 as FromBytes>::canon);
        if Self::dec(b) is Ok {
            let x = Self::dec(b)->Ok_0;
            lemma_r32_round_trip(x.r32, b.subrange(0, 4));
            lemma_qds_round_trip(x.qds, b[4]);
            if Self::canon(b) && b.len() == 5 {
                assert(x.enc() =~= b);
            }
        }
    }

    proof fn lemma_enc(self) {
        reveal(<MMeNc1 as FromBytes>::dec);
        reveal(<MMeNc1 as FromBytes>::canon);
        if self.wf() {
            let e = self.enc();
            assert(e.subrange(0, 4) =~= self.r32.enc());
            lemma_r32_round_trip(self.r32, e.subrange(0, 4));
            lemma_qds_round_trip(self.qds, 0);
            assert(e[4] == self.qds.enc());
            assert(Self::dec(e) == Ok::<MMeNc1, ParseError>(self));
        }
    }
}

/// Measured value, short floating point, with CP24 time tag.
#[derive(Debug, Copy, Clone, Eq, PartialEq, Structural)]
pub struct MMeTc1 {
    /// Short floating point value.
    pub r32: R32,
    /// Quality descriptor.
    pub qds: Qds,
    /// Time tag.
    pub time: Cp24Time2a,
}

impl ToBytes for MMeTc1 {
    open spec fn size_spec() -> nat {
        8
    }

    open spec fn wf(self) -> bool {
        self.time.wf()
    }

    open spec fn enc(self) -> Seq<u8> {
        self.r32.enc() + seq![self.qds.enc()] + self.time.enc()
    }

    fn size() -> (r: usize) {
        8
    }

    proof fn lemma_enc_len(self) {
    }

    fn to_bytes(&self, buffer: &mut Vec<u8>) -> (r: Result<(), ParseError>) {
        self.r32.write_bytes(buffer);
        buffer.push(self.qds.to_byte());
        self.time.write_bytes(buffer);
        proof {
            assert(buffer@ =~= old(buffer)@ + self.enc());
        }
        Ok(())
    }
}

impl FromBytes for MMeTc1 {
    #[verifier::opaque]
    open spec fn dec(b: Seq<u8>) -> Result<MMeTc1, ParseError> {
        if b.len() < 8 {
            Err(ParseError::NotEnoughBytes)
        } else {
            match Cp24Time2a::dec(b.subrange(5, 8)) {
                Err(e) => Err(ParseError::ParseTimeTag(e)),
                Ok(time) => 
                Ok(MMeTc1 { r32: R32::of_bytes(b.subrange(0, 4)), qds: Qds::of_byte(b[4]), time }),
            }
        }
    }

    #[verifier::opaque]
    open spec fn canon(b: Seq<u8>) -> bool {
        Qds::canon(b[4]) && Cp24Time2a::canon(b.subrange(5, 8))
    }

    fn from_bytes(bytes: &[u8]) -> (r: Result<MMeTc1, ParseError>) {
        proof {
            reveal(<MMeTc1 as FromBytes>::dec);
        }
        if bytes.len() < 8 {
            return Err(ParseError::NotEnoughBytes);
        }
        let r32 = R32::from_bytes([bytes[0], bytes[1], bytes[2], bytes[3]]);
        proof { assert(bytes@.subrange(0, 4) =~= seq![bytes@[0], bytes@[1], bytes@[2], bytes@[3]]); }
        let ab: [u8; 3] = [bytes[5], bytes[6], bytes[7]];
        proof { assert(ab@ =~= bytes@.subrange(5, 8)); }
        let time = match Cp24Time2a::from_bytes(&ab) {
            Err(e) => { return Err(ParseError::ParseTimeTag(e)); },
            Ok(t) => t,
        };
        Ok(MMeTc1 { r32, qds: Qds::from_byte(bytes[4]), time })
    }

    proof fn lemma_dec(b: Seq<u8>) {
        reveal(<MMeTc1 as FromBytes>::dec);
        reveal(<MMeTc1 as FromBytes>::canon);
        if Self::dec(b) is Ok {
            let x = Self::dec(b)->Ok_0;
            lemma_r32_round_trip(x.r32, b.subrange(0, 4));
            lemma_qds_round_trip(x.qds, b[4]);
            lemma_cp24_round_trip(x.time, b.subrange(5, 8));
            if Self::canon(b) && b.len() == 8 {
                assert(x.enc() =~= b);
            }
        }
    }

    proof fn lemma_enc(self) {
        reveal(<MMeTc1 as FromBytes>::dec);
        reveal(<MMeTc1 as FromBytes>::canon);
        if self.wf() {
            let e = self.enc();
            assert(e.subrange(0, 4) =~= self.r32.enc());
            lemma_r32_round_trip(self.r32, e.subrange(0, 4));
            lemma_qds_round_trip(self.qds, 0);
            assert(e[4] == self.qds.enc());
            assert(e.subrange(5, 8) =~= self.time.enc());
            lemma_cp24_round_trip(self.time, e.subrange(5, 8));
            assert(Self::dec(e) == Ok::<MMeTc1, ParseError>(self));
        }
    }
}

/// Integrated totals.
#[derive(Debug, Copy, Clone, Eq, PartialEq, Structural, Default)]
pub struct MItNa1 {
    /// Binary counter reading.
    pub bcr: Bcr,
    /// Quality descriptor.
    pub qds: Qds,
}

impl ToBytes for MItNa1 {
    open spec fn size_spec() -> nat {
        5
    }

    open spec fn wf(self) -> bool {
        true
    }

    open spec fn enc(self) -> Seq<u8> {
        self.bcr.enc() + seq![self.qds.enc()]
    }

    fn size() -> (r: usize) {
        5
    }

    proof fn lemma_enc_len(self) {
    }

    fn to_bytes(&self, buffer: &mut Vec<u8>) -> (r: Result<(), ParseError>) {
        self.bcr.write_bytes(buffer);
        buffer.push(self.qds.to_byte());
        proof {
            assert(buffer@ =~= old(buffer)@ + self.enc());
        }
        Ok(())
    }
}

impl FromBytes for MItNa1 {
    #[verifier::opaque]
    open spec fn dec(b: Seq<u8>) -> Result<MItNa1, ParseError> {
        if b.len() < 5 {
            Err(ParseError::NotEnoughBytes)
        } else {
            Ok(MItNa1 { bcr: Bcr::of_bytes(b.subrange(0, 4)), qds: Qds::of_byte(b[4]) })
        }
    }

    #[verifier::opaque]
    open spec fn canon(b: Seq<u8>) -> bool {
        Qds::canon(b[4])
    }

    fn from_bytes(bytes: &[u8]) -> (r: Result<MItNa1, ParseError>) {
        proof {
            reveal(<MItNa1 as FromBytes>::dec);
        }
        if bytes.len() < 5 {
            return Err(ParseError::NotEnoughBytes);
        }
        let bcr = Bcr::from_byte([bytes[0], bytes[1], bytes[2], bytes[3]]);
        proof { assert(bytes@.subrange(0, 4) =~= seq![bytes@[0], bytes@[1], bytes@[2], bytes@[3]]); }
        Ok(MItNa1 { bcr, qds: Qds::from_byte(bytes[4]) })
    }

    proof fn lemma_dec(b: Seq<u8>) {
        reveal(<MItNa1 as FromBytes>::dec);
        reveal(<MItNa1 as FromBytes>::canon);
        if Self::dec(b) is Ok {
            let x = Self::dec(b)->Ok_0;
            lemma_bcr_round_trip(x.bcr, b.subrange(0, 4));
            lemma_qds_round_trip(x.qds, b[4]);
            if Self::canon(b) && b.len() == 5 {
                assert(x.enc() =~= b);
            }
        }
    }

    proof fn lemma_enc(self) {
        reveal(<MItNa1 as FromBytes>::dec);
        reveal(<MItNa1 as FromBytes>::canon);
        if self.wf() {
            let e = self.enc();
            assert(e.subrange(0, 4) =~= self.bcr.enc());
            lemma_bcr_round_trip(self.bcr, e.subrange(0, 4));
            lemma_qds_round_trip(self.qds, 0);
            assert(e[4] == self.qds.enc());
            assert(Self::dec(e) == Ok::<MItNa1, ParseError>(self));
        }
    }
}

/// Event of protection equipment with CP24 time tag.
#[derive(Debug, Copy, Clone, Eq, PartialEq, Structural)]
pub struct MEpTa1 {
    /// Single event of protection equipment.
    pub sep: Sep,
    /// Elapsed time.
    pub elapsed: Cp16Time2a,
    /// Time tag.
    pub time: Cp24Time2a,
}

impl ToBytes for MEpTa1 {
    open spec fn size_spec() -> nat {
        6
    }

    open spec fn wf(self) -> bool {
        self.elapsed.wf() && self.time.wf()
    }

    open spec fn enc(self) -> Seq<u8> {
        seq![self.sep.enc()] + self.elapsed.enc() + self.time.enc()
    }

    fn size() -> (r: usize) {
        6
    }

    proof fn lemma_enc_len(self) {
    }

    fn to_bytes(&self, buffer: &mut Vec<u8>) -> (r: Result<(), ParseError>) {
        buffer.push(self.sep.to_byte());
        self.elapsed.write_bytes(buffer);
        self.time.write_bytes(buffer);
        proof {
            assert(buffer@ =~= old(buffer)@ + self.enc());
        }
        Ok(())
    }
}

impl FromBytes for MEpTa1 {
    #[verifier::opaque]
    open spec fn dec(b: Seq<u8>) -> Result<MEpTa1, ParseError> {
        if b.len() < 6 {
            Err(ParseError::NotEnoughBytes)
        } else {
            match Cp16Time2a::dec(b.subrange(1, 3)) {
                Err(e) => Err(ParseError::ParseTimeTag(e)),
                Ok(elapsed) => 
                match Cp24Time2a::dec(b.subrange(3, 6)) {
                    Err(e) => Err(ParseError::ParseTimeTag(e)),
                    Ok(time) => 
                    Ok(MEpTa1 { sep: Sep::of_byte(b[0]), elapsed, time }),
                },
            }
        }
    }

    #[verifier::opaque]
    open spec fn canon(b: Seq<u8>) -> bool {
        Sep::canon(b[0]) && Cp24Time2a::canon(b.subrange(3, 6))
    }

    fn from_bytes(bytes: &[u8]) -> (r: Result<MEpTa1, ParseError>) {
        proof {
            reveal(<MEpTa1 as FromBytes>::dec);
        }
        if bytes.len() < 6 {
            return Err(ParseError::NotEnoughBytes);
        }
        let ab: [u8; 2] = [bytes[1], bytes[2]];
        proof { assert(ab@ =~= bytes@.subrange(1, 3)); }
        let elapsed = match Cp16Time2a::from_bytes(ab) {
            Err(e) => { return Err(ParseError::ParseTimeTag(e)); },
            Ok(t) => t,
        };
        let ab: [u8; 3] = [bytes[3], bytes[4], bytes[5]];
        proof { assert(ab@ =~= bytes@.subrange(3, 6)); }
        let time = match Cp24Time2a::from_bytes(&ab) {
            Err(e) => { return Err(ParseError::ParseTimeTag(e)); },
            Ok(t) => t,
        };
        Ok(MEpTa1 { sep: Sep::from_byte(bytes[0]), elapsed, time })
    }

    proof fn lemma_dec(b: Seq<u8>) {
        reveal(<MEpTa1 as FromBytes>::dec);
        reveal(<MEpTa1 as FromBytes>::canon);
        if Self::dec(b) is Ok {
            let x = Self::dec(b)->Ok_0;
            lemma_sep_round_trip(x.sep, b[0]);
            lemma_cp16_dec(b.subrange(1, 3));
            lemma_cp24_round_trip(x.time, b.subrange(3, 6));
            if Self::canon(b) && b.len() == 6 {
                assert(x.enc() =~= b);
            }
        }
    }

    proof fn lemma_enc(self) {
        reveal(<MEpTa1 as FromBytes>::dec);
        reveal(<MEpTa1 as FromBytes>::canon);
        if self.wf() {
            let e = self.enc();
            lemma_sep_round_trip(self.sep, 0);
            assert(e[0] == self.sep.enc());
            assert(e.subrange(1, 3) =~= self.elapsed.enc());
            lemma_cp16_enc(self.elapsed);
            assert(e.subrange(3, 6) =~= self.time.enc());
            lemma_cp24_round_trip(self.time, e.subrange(3, 6));
            assert(Self::dec(e) == Ok::<MEpTa1, ParseError>(self));
        }
    }
}

/// Packed start events of protection equipment with CP24 time tag.
#[derive(Debug, Copy, Clone, Eq, PartialEq, Structural)]
pub struct MEpTb1 {
    /// Start events of protection equipment.
    pub start_ep: StartEp,
    /// Quality descriptor of protection equipment.
    pub qdp: Qdp,
    /// Relay duration time.
    pub relay_duration: Cp16Time2a,
    /// Time tag.
    pub time: Cp24Time2a,
}

impl ToBytes for MEpTb1 {
    open spec fn size_spec() -> nat {
        7
    }

    open spec fn wf(self) -> bool {
        self.relay_duration.wf() && self.time.wf()
    }

    open spec fn enc(self) -> Seq<u8> {
        seq![self.start_ep.enc()] + seq![self.qdp.enc()] + self.relay_duration.enc() + self.time.enc()
    }

    fn size() -> (r: usize) {
        7
    }

    proof fn lemma_enc_len(self) {
    }

    fn to_bytes(&self, buffer: &mut Vec<u8>) -> (r: Result<(), ParseError>) {
        buffer.push(self.start_ep.to_byte());
        buffer.push(self.qdp.to_byte());
        self.relay_duration.write_bytes(buffer);
        self.time.write_bytes(buffer);
        proof {
            assert(buffer@ =~= old(buffer)@ + self.enc());
        }
        Ok(())
    }
}

impl FromBytes for MEpTb1 {
    #[verifier::opaque]
    open spec fn dec(b: Seq<u8>) -> Result<MEpTb1, ParseError> {
        if b.len() < 7 {
            Err(ParseError::NotEnoughBytes)
        } else {
            match Cp16Time2a::dec(b.subrange(2, 4)) {
                Err(e) => Err(ParseError::ParseTimeTag(e)),
                Ok(relay_duration) => 
                match Cp24Time2a::dec(b.subrange(4, 7)) {
                    Err(e) => Err(ParseError::ParseTimeTag(e)),
                    Ok(time) => 
                    Ok(MEpTb1 { start_ep: StartEp::of_byte(b[0]), qdp: Qdp::of_byte(b[1]), relay_duration, time }),
                },
            }
        }
    }

    #[verifier::opaque]
    open spec fn canon(b: Seq<u8>) -> bool {
        StartEp::canon(b[0]) && Qdp::canon(b[1]) && Cp24Time2a::canon(b.subrange(4, 7))
    }

    fn from_bytes(bytes: &[u8]) -> (r: Result<MEpTb1, ParseError>) {
        proof {
            reveal(<MEpTb1 as FromBytes>::dec);
        }
        if bytes.len() < 7 {
            return Err(ParseError::NotEnoughBytes);
        }
        let ab: [u8; 2] = [bytes[2], bytes[3]];
        proof { assert(ab@ =~= bytes@.subrange(2, 4)); }
        let relay_duration = match Cp16Time2a::from_bytes(ab) {
            Err(e) => { return Err(ParseError::ParseTimeTag(e)); },
            Ok(t) => t,
        };
        let ab: [u8; 3] = [bytes[4], bytes[5], bytes[6]];
        proof { assert(ab@ =~= bytes@.subrange(4, 7)); }
        let time = match Cp24Time2a::from_bytes(&ab) {
            Err(e) => { return Err(ParseError::ParseTimeTag(e)); },
            Ok(t) => t,
        };
        Ok(MEpTb1 { start_ep: StartEp::from_byte(bytes[0]), qdp: Qdp::from_byte(bytes[1]), relay_duration, time })
    }

    proof fn lemma_dec(b: Seq<u8>) {
        reveal(<MEpTb1 as FromBytes>::dec);
        reveal(<MEpTb1 as FromBytes>::canon);
        if Self::dec(b) is Ok {
            let x = Self::dec(b)->Ok_0;
            lemma_start_ep_round_trip(x.start_ep, b[0]);
            lemma_qdp_round_trip(x.qdp, b[1]);
            lemma_cp16_dec(b.subrange(2, 4));
            lemma_cp24_round_trip(x.time, b.subrange(4, 7));
            if Self::canon(b) && b.len() == 7 {
                assert(x.enc() =~= b);
            }
        }
    }

    proof fn lemma_enc(self) {
        reveal(<MEpTb1 as FromBytes>::dec);
        reveal(<MEpTb1 as FromBytes>::canon);
        if self.wf() {
            let e = self.enc();
            lemma_start_ep_round_trip(self.start_ep, 0);
            assert(e[0] == self.start_ep.enc());
            lemma_qdp_round_trip(self.qdp, 0);
            assert(e[1] == self.qdp.enc());
            assert(e.subrange(2, 4) =~= self.relay_duration.enc());
            lemma_cp16_enc(self.relay_duration);
            assert(e.subrange(4, 7) =~= self.time.enc());
            lemma_cp24_round_trip(self.time, e.subrange(4, 7));
            assert(Self::dec(e) == Ok::<MEpTb1, ParseError>(self));
        }
    }
}

/// Packed output circuit information of protection equipment with CP24 time tag.
#[derive(Debug, Copy, Clone, Eq, PartialEq, Structural)]
pub struct MEpTc1 {
    /// Output circuit information.
    pub oci: Oci,
    /// Quality descriptor of protection equipment.
    pub qdp: Qdp,
    /// Relay operation time.
    pub relay_op_time: Cp16Time2a,
    /// Time tag.
    pub time: Cp24Time2a,
}

impl ToBytes for MEpTc1 {
    open spec fn size_spec() -> nat {
        7
    }

    open spec fn wf(self) -> bool {
        self.relay_op_time.wf() && self.time.wf()
    }

    open spec fn enc(self) -> Seq<u8> {
        seq![self.oci.enc()] + seq![self.qdp.enc()] + self.relay_op_time.enc() + self.time.enc()
    }

    fn size() -> (r: usize) {
        7
    }

    proof fn lemma_enc_len(self) {
    }

    fn to_bytes(&self, buffer: &mut Vec<u8>) -> (r: Result<(), ParseError>) {
        buffer.push(self.oci.to_byte());
        buffer.push(self.qdp.to_byte());
        self.relay_op_time.write_bytes(buffer);
        self.time.write_bytes(buffer);
        proof {
            assert(buffer@ =~= old(buffer)@ + self.enc());
        }
        Ok(())
    }
}

impl FromBytes for MEpTc1 {
    #[verifier::opaque]
    open spec fn dec(b: Seq<u8>) -> Result<MEpTc1, ParseError> {
        if b.len() < 7 {
            Err(ParseError::NotEnoughBytes)
        } else {
            match Cp16Time2a::dec(b.subrange(2, 4)) {
                Err(e) => Err(ParseError::ParseTimeTag(e)),
                Ok(relay_op_time) => 
                match Cp24Time2a::dec(b.subrange(4, 7)) {
                    Err(e) => Err(ParseError::ParseTimeTag(e)),
                    Ok(time) => 
                    Ok(MEpTc1 { oci: Oci::of_byte(b[0]), qdp: Qdp::of_byte(b[1]), relay_op_time, time }),
                },
            }
        }
    }

    #[verifier::opaque]
    open spec fn canon(b: Seq<u8>) -> bool {
        Oci::canon(b[0]) && Qdp::canon(b[1]) && Cp24Time2a::canon(b.subrange(4, 7))
    }

    fn from_bytes(bytes: &[u8]) -> (r: Result<MEpTc1, ParseError>) {
        proof {
            reveal(<MEpTc1 as FromBytes>::dec);
        }
        if bytes.len() < 7 {
            return Err(ParseError::NotEnoughBytes);
        }
        let ab: [u8; 2] = [bytes[2], bytes[3]];
        proof { assert(ab@ =~= bytes@.subrange(2, 4)); }
        let relay_op_time = match Cp16Time2a::from_bytes(ab) {
            Err(e) => { return Err(ParseError::ParseTimeTag(e)); },
            Ok(t) => t,
        };
        let ab: [u8; 3] = [bytes[4], bytes[5], bytes[6]];
        proof { assert(ab@ =~= bytes@.subrange(4, 7)); }
        let time = match Cp24Time2a::from_bytes(&ab) {
            Err(e) => { return Err(ParseError::ParseTimeTag(e)); },
            Ok(t) => t,
        };
        Ok(MEpTc1 { oci: Oci::from_byte(bytes[0]), qdp: Qdp::from_byte(bytes[1]), relay_op_time, time })
    }

    proof fn lemma_dec(b: Seq<u8>) {
        reveal(<MEpTc1 as FromBytes>::dec);
        reveal(<MEpTc1 as FromBytes>::canon);
        if Self::dec(b) is Ok {
            let x = Self::dec(b)->Ok_0;
            lemma_oci_round_trip(x.oci, b[0]);
            lemma_qdp_round_trip(x.qdp, b[1]);
            lemma_cp16_dec(b.subrange(2, 4));
            lemma_cp24_round_trip(x.time, b.subrange(4, 7));
            if Self::canon(b) && b.len() == 7 {
                assert(x.enc() =~= b);
            }
        }
    }

    proof fn lemma_enc(self) {
        reveal(<MEpTc1 as FromBytes>::dec);
        reveal(<MEpTc1 as FromBytes>::canon);
        if self.wf() {
            let e = self.enc();
            lemma_oci_round_trip(self.oci, 0);
            assert(e[0] == self.oci.enc());
            lemma_qdp_round_trip(self.qdp, 0);
            assert(e[1] == self.qdp.enc());
            assert(e.subrange(2, 4) =~= self.relay_op_time.enc());
            lemma_cp16_enc(self.relay_op_time);
            assert(e.subrange(4, 7) =~= self.time.enc());
            lemma_cp24_round_trip(self.time, e.subrange(4, 7));
            assert(Self::dec(e) == Ok::<MEpTc1, ParseError>(self));
        }
    }
}

/// Packed single-point information with status change detection.
#[derive(Debug, Copy, Clone, Eq, PartialEq, Structural, Default)]
pub struct MPsNa1 {
    /// Bit string of 32 bits.
    pub bsi: Bsi,
    /// Quality descriptor.
    pub qds: Qds,
}

impl ToBytes for MPsNa1 {
    open spec fn size_spec() -> nat {
        5
    }

    open spec fn wf(self) -> bool {
        true
    }

    open spec fn enc(self) -> Seq<u8> {
        self.bsi.enc() + seq![self.qds.enc()]
    }

    fn size() -> (r: usize) {
        5
    }

    proof fn lemma_enc_len(self) {
    }

    fn to_bytes(&self, buffer: &mut Vec<u8>) -> (r: Result<(), ParseError>) {
        self.bsi.write_bytes(buffer);
        buffer.push(self.qds.to_byte());
        proof {
            assert(buffer@ =~= old(buffer)@ + self.enc());
        }
        Ok(())
    }
}

impl FromBytes for MPsNa1 {
    #[verifier::opaque]
    open spec fn dec(b: Seq<u8>) -> Result<MPsNa1, ParseError> {
        if b.len() < 5 {
            Err(ParseError::NotEnoughBytes)
        } else {
            Ok(MPsNa1 { bsi: Bsi::of_bytes(b.subrange(0, 4)), qds: Qds::of_byte(b[4]) })
        }
    }

    #[verifier::opaque]
    open spec fn canon(b: Seq<u8>) -> bool {
        Qds::canon(b[4])
    }

    fn from_bytes(bytes: &[u8]) -> (r: Result<MPsNa1, ParseError>) {
        proof {
            reveal(<MPsNa1 as FromBytes>::dec);
        }
        if bytes.len() < 5 {
            return Err(ParseError::NotEnoughBytes);
        }
        let bsi = Bsi::from_byte([bytes[0], bytes[1], bytes[2], bytes[3]]);
        proof { assert(bytes@.subrange(0, 4) =~= seq![bytes@[0], bytes@[1], bytes@[2], bytes@[3]]); }
        Ok(MPsNa1 { bsi, qds: Qds::from_byte(bytes[4]) })
    }

    proof fn lemma_dec(b: Seq<u8>) {
        reveal(<MPsNa1 as FromBytes>::dec);
        reveal(<MPsNa1 as FromBytes>::canon);
        if Self::dec(b) is Ok {
            let x = Self::dec(b)->Ok_0;
            lemma_bsi_round_trip(x.bsi, b.subrange(0, 4));
            lemma_qds_round_trip(x.qds, b[4]);
            if Self::canon(b) && b.len() == 5 {
                assert(x.enc() =~= b);
            }
        }
    }

    proof fn lemma_enc(self) {
        reveal(<MPsNa1 as FromBytes>::dec);
        reveal(<MPsNa1 as FromBytes>::canon);
        if self.wf() {
            let e = self.enc();
            assert(e.subrange(0, 4) =~= self.bsi.enc());
            lemma_bsi_round_trip(self.bsi, e.subrange(0, 4));
            lemma_qds_round_trip(self.qds, 0);
            assert(e[4] == self.qds.enc());
            assert(Self::dec(e) == Ok::<MPsNa1, ParseError>(self));
        }
    }
}

/// Measured value, normalized, without quality descriptor.
#[derive(Debug, Copy, Clone, Eq, PartialEq, Structural, Default)]
pub struct MMeNd1 {
    /// Normalized value.
    pub nva: Nva,
}

impl ToBytes for MMeNd1 {
    open spec fn size_spec() -> nat {
        2
    }

    open spec fn wf(self) -> bool {
        true
    }

    open spec fn enc(self) -> Seq<u8> {
        self.nva.enc()
    }

    fn size() -> (r: usize) {
        2
    }

    proof fn lemma_enc_len(self) {
    }

    fn to_bytes(&self, buffer: &mut Vec<u8>) -> (r: Result<(), ParseError>) {
        self.nva.write_bytes(buffer);
        proof {
            assert(buffer@ =~= old(buffer)@ + self.enc());
        }
        Ok(())
    }
}

impl FromBytes for MMeNd1 {
    #[verifier::opaque]
    open spec fn dec(b: Seq<u8>) -> Result<MMeNd1, ParseError> {
        if b.len() < 2 {
            Err(ParseError::NotEnoughBytes)
        } else {
            Ok(MMeNd1 { nva: Nva::of_bytes(b.subrange(0, 2)) })
        }
    }

    #[verifier::opaque]
    open spec fn canon(b: Seq<u8>) -> bool {
        true
    }

    fn from_bytes(bytes: &[u8]) -> (r: Result<MMeNd1, ParseError>) {
        proof {
            reveal(<MMeNd1 as FromBytes>::dec);
        }
        if bytes.len() < 2 {
            return Err(ParseError::NotEnoughBytes);
        }
        let nva = Nva::from_bytes([bytes[0], bytes[1]]);
        proof { assert(bytes@.subrange(0, 2) =~= seq![bytes@[0], bytes@[1]]); }
        Ok(MMeNd1 { nva })
    }

    proof fn lemma_dec(b: Seq<u8>) {
        reveal(<MMeNd1 as FromBytes>::dec);
        reveal(<MMeNd1 as FromBytes>::canon);
        if Self::dec(b) is Ok {
            let x = Self::dec(b)->Ok_0;
            lemma_nva_round_trip(x.nva, b.subrange(0, 2));
            if Self::canon(b) && b.len() == 2 {
                assert(x.enc() =~= b);
            }
        }
    }

    proof fn lemma_enc(self) {
        reveal(<MMeNd1 as FromBytes>::dec);
        reveal(<MMeNd1 as FromBytes>::canon);
        if self.wf() {
            let e = self.enc();
            assert(e.subrange(0, 2) =~= self.nva.enc());
            lemma_nva_round_trip(self.nva, e.subrange(0, 2));
            assert(Self::dec(e) == Ok::<MMeNd1, ParseError>(self));
        }
    }
}

/// Single-point information with CP56 time tag.
#[derive(Debug, Copy, Clone, Eq, PartialEq, Structural)]
pub struct MSpTb1 {
    /// Single point with quality descriptor.
    pub siq: Siq,
    /// Time tag.
    pub time: Cp56Time2a,
}

impl ToBytes for MSpTb1 {
    open spec fn size_spec() -> nat {
        8
    }

    open spec fn wf(self) -> bool {
        self.time.wf()
    }

    open spec fn enc(self) -> Seq<u8> {
        seq![self.siq.enc()] + self.time.enc()
    }

    fn size() -> (r: usize) {
        8
    }

    proof fn lemma_enc_len(self) {
    }

    fn to_bytes(&self, buffer: &mut Vec<u8>) -> (r: Result<(), ParseError>) {
        buffer.push(self.siq.to_byte());
        self.time.write_bytes(buffer);
        proof {
            assert(buffer@ =~= old(buffer)@ + self.enc());
        }
        Ok(())
    }
}

impl FromBytes for MSpTb1 {
    #[verifier::opaque]
    open spec fn dec(b: Seq<u8>) -> Result<MSpTb1, ParseError> {
        if b.len() < 8 {
            Err(ParseError::NotEnoughBytes)
        } else {
            match Cp56Time2a::dec(b.subrange(1, 8)) {
                Err(e) => Err(ParseError::ParseTimeTag(e)),
                Ok(time) => 
                Ok(MSpTb1 { siq: Siq::of_byte(b[0]), time }),
            }
        }
    }

    #[verifier::opaque]
    open spec fn canon(b: Seq<u8>) -> bool {
        Siq::canon(b[0]) && Cp56Time2a::canon(b.subrange(1, 8))
    }

    fn from_bytes(bytes: &[u8]) -> (r: Result<MSpTb1, ParseError>) {
        proof {
            reveal(<MSpTb1 as FromBytes>::dec);
        }
        if bytes.len() < 8 {
            return Err(ParseError::NotEnoughBytes);
        }
        let ab: [u8; 7] = [bytes[1], bytes[2], bytes[3], bytes[4], bytes[5], bytes[6], bytes[7]];
        proof { assert(ab@ =~= bytes@.subrange(1, 8)); }
        let time = match Cp56Time2a::from_bytes(&ab) {
            Err(e) => { return Err(ParseError::ParseTimeTag(e)); },
            Ok(t) => t,
        };
        Ok(MSpTb1 { siq: Siq::from_byte(bytes[0]), time })
    }

    proof fn lemma_dec(b: Seq<u8>) {
        reveal(<MSpTb1 as FromBytes>::dec);
        reveal(<MSpTb1 as FromBytes>::canon);
        if Self::dec(b) is Ok {
            let x = Self::dec(b)->Ok_0;
            lemma_siq_round_trip(x.siq, b[0]);
            lemma_cp56_round_trip(x.time, b.subrange(1, 8));
            if Self::canon(b) && b.len() == 8 {
                assert(x.enc() =~= b);
            }
        }
    }

    proof fn lemma_enc(self) {
        reveal(<MSpTb1 as FromBytes>::dec);
        reveal(<MSpTb1 as FromBytes>::canon);
        if self.wf() {
            let e = self.enc();
            lemma_siq_round_trip(self.siq, 0);
            assert(e[0] == self.siq.enc());
            assert(e.subrange(1, 8) =~= self.time.enc());
            lemma_cp56_round_trip(self.time, e.subrange(1, 8));
            assert(Self::dec(e) == Ok::<MSpTb1, ParseError>(self));
        }
    }
}

/// Double-point information with CP56 time tag.
#[derive(Debug, Copy, Clone, Eq, PartialEq, Structural)]
pub struct MDpTb1 {
    /// Double point with quality descriptor.
    pub diq: Diq,
    /// Time tag.
    pub time: Cp56Time2a,
}

impl ToBytes for MDpTb1 {
    open spec fn size_spec() -> nat {
        8
    }

    open spec fn wf(self) -> bool {
        self.time.wf()
    }

    open spec fn enc(self) -> Seq<u8> {
        seq![self.diq.enc()] + self.time.enc()
    }

    fn size() -> (r: usize) {
        8
    }

    proof fn lemma_enc_len(self) {
    }

    fn to_bytes(&self, buffer: &mut Vec<u8>) -> (r: Result<(), ParseError>) {
        buffer.push(self.diq.to_byte());
        self.time.write_bytes(buffer);
        proof {
            assert(buffer@ =~= old(buffer)@ + self.enc());
        }
        Ok(())
    }
}

impl FromBytes for MDpTb1 {
    #[verifier::opaque]
    open spec fn dec(b: Seq<u8>) -> Result<MDpTb1, ParseError> {
        if b.len() < 8 {
            Err(ParseError::NotEnoughBytes)
        } else {
            match Cp56Time2a::dec(b.subrange(1, 8)) {
                Err(e) => Err(ParseError::ParseTimeTag(e)),
                Ok(time) => 
                Ok(MDpTb1 { diq: Diq::of_byte(b[0]), time }),
            }
        }
    }

    #[verifier::opaque]
    open spec fn canon(b: Seq<u8>) -> bool {
        Diq::canon(b[0]) && Cp56Time2a::canon(b.subrange(1, 8))
    }

    fn from_bytes(bytes: &[u8]) -> (r: Result<MDpTb1, ParseError>) {
        proof {
            reveal(<MDpTb1 as FromBytes>::dec);
        }
        if bytes.len() < 8 {
            return Err(ParseError::NotEnoughBytes);
        }
        let ab: [u8; 7] = [bytes[1], bytes[2], bytes[3], bytes[4], bytes[5], bytes[6], bytes[7]];
        proof { assert(ab@ =~= bytes@.subrange(1, 8)); }
        let time = match Cp56Time2a::from_bytes(&ab) {
            Err(e) => { return Err(ParseError::ParseTimeTag(e)); },
            Ok(t) => t,
        };
        Ok(MDpTb1 { diq: Diq::from_byte(bytes[0]), time })
    }

    proof fn lemma_dec(b: Seq<u8>) {
        reveal(<MDpTb1 as FromBytes>::dec);
        reveal(<MDpTb1 as FromBytes>::canon);
        if Self::dec(b) is Ok {
            let x = Self::dec(b)->Ok_0;
            lemma_diq_round_trip(x.diq, b[0]);
            lemma_cp56_round_trip(x.time, b.subrange(1, 8));
            if Self::canon(b) && b.len() == 8 {
                assert(x.enc() =~= b);
            }
        }
    }

    proof fn lemma_enc(self) {
        reveal(<MDpTb1 as FromBytes>::dec);
        reveal(<MDpTb1 as FromBytes>::canon);
        if self.wf() {
            let e = self.enc();
            lemma_diq_round_trip(self.diq, 0);
            assert(e[0] == self.diq.enc());
            assert(e.subrange(1, 8) =~= self.time.enc());
            lemma_cp56_round_trip(self.time, e.subrange(1, 8));
            assert(Self::dec(e) == Ok::<MDpTb1, ParseError>(self));
        }
    }
}

/// Step position information with CP56 time tag.
#[derive(Debug, Copy, Clone, Eq, PartialEq, Structural)]
pub struct MStTb1 {
    /// Value with transient state indication.
    pub vti: Vti,
    /// Time tag.
    pub time: Cp56Time2a,
}

impl ToBytes for MStTb1 {
    open spec fn size_spec() -> nat {
        9
    }

    open spec fn wf(self) -> bool {
        self.vti.wf() && self.time.wf()
    }

    open spec fn enc(self) -> Seq<u8> {
        self.vti.enc() + self.time.enc()
    }

    fn size() -> (r: usize) {
        9
    }

    proof fn lemma_enc_len(self) {
    }

    fn to_bytes(&self, buffer: &mut Vec<u8>) -> (r: Result<(), ParseError>) {
        let fb = self.vti.to_bytes();
        buffer.push(fb[0]);
        buffer.push(fb[1]);
        self.time.write_bytes(buffer);
        proof {
            assert(buffer@ =~= old(buffer)@ + self.enc());
        }
        Ok(())
    }
}

impl FromBytes for MStTb1 {
    #[verifier::opaque]
    open spec fn dec(b: Seq<u8>) -> Result<MStTb1, ParseError> {
        if b.len() < 9 {
            Err(ParseError::NotEnoughBytes)
        } else {
            match Cp56Time2a::dec(b.subrange(2, 9)) {
                Err(e) => Err(ParseError::ParseTimeTag(e)),
                Ok(time) => 
                Ok(MStTb1 { vti: Vti::of_bytes(b.subrange(0, 2)), time }),
            }
        }
    }

    #[verifier::opaque]
    open spec fn canon(b: Seq<u8>) -> bool {
        Vti::canon(b.subrange(0, 2)) && Cp56Time2a::canon(b.subrange(2, 9))
    }

    fn from_bytes(bytes: &[u8]) -> (r: Result<MStTb1, ParseError>) {
        proof {
            reveal(<MStTb1 as FromBytes>::dec);
        }
        if bytes.len() < 9 {
            return Err(ParseError::NotEnoughBytes);
        }
        let vti = Vti::from_byte([bytes[0], bytes[1]]);
        proof { assert(bytes@.subrange(0, 2) =~= seq![bytes@[0], bytes@[1]]); }
        let ab: [u8; 7] = [bytes[2], bytes[3], bytes[4], bytes[5], bytes[6], bytes[7], bytes[8]];
        proof { assert(ab@ =~= bytes@.subrange(2, 9)); }
        let time = match Cp56Time2a::from_bytes(&ab) {
            Err(e) => { return Err(ParseError::ParseTimeTag(e)); },
            Ok(t) => t,
        };
        Ok(MStTb1 { vti, time })
    }

    proof fn lemma_dec(b: Seq<u8>) {
        reveal(<MStTb1 as FromBytes>::dec);
        reveal(<MStTb1 as FromBytes>::canon);
        if Self::dec(b) is Ok {
            let x = Self::dec(b)->Ok_0;
            lemma_vti_round_trip(x.vti, b.subrange(0, 2));
            lemma_cp56_round_trip(x.time, b.subrange(2, 9));
            if Self::canon(b) && b.len() == 9 {
                assert(x.enc() =~= b);
            }
        }
    }

    proof fn lemma_enc(self) {
        reveal(<MStTb1 as FromBytes>::dec);
        reveal(<MStTb1 as FromBytes>::canon);
        if self.wf() {
            let e = self.enc();
            assert(e.subrange(0, 2) =~= self.vti.enc());
            lemma_vti_round_trip(self.vti, e.subrange(0, 2));
            assert(e.subrange(2, 9) =~= self.time.enc());
            lemma_cp56_round_trip(self.time, e.subrange(2, 9));
            assert(Self::dec(e) == Ok::<MStTb1, ParseError>(self));
        }
    }
}

/// Bitstring of 32 bits with CP56 time tag.
#[derive(Debug, Copy, Clone, Eq, PartialEq, Structural)]
pub struct MBoTb1 {
    /// Bit string of 32 bits.
    pub bsi: Bsi,
    /// Quality descriptor.
    pub qds: Qds,
    /// Time tag.
    pub time: Cp56Time2a,
}

impl ToBytes for MBoTb1 {
    open spec fn size_spec() -> nat {
        12
    }

    open spec fn wf(self) -> bool {
        self.time.wf()
    }

    open spec fn enc(self) -> Seq<u8> {
        self.bsi.enc() + seq![self.qds.enc()] + self.time.enc()
    }

    fn size() -> (r: usize) {
        12
    }

    proof fn lemma_enc_len(self) {
    }

    fn to_bytes(&self, buffer: &mut Vec<u8>) -> (r: Result<(), ParseError>) {
        self.bsi.write_bytes(buffer);
        buffer.push(self.qds.to_byte());
        self.time.write_bytes(buffer);
        proof {
            assert(buffer@ =~= old(buffer)@ + self.enc());
        }
        Ok(())
    }
}

impl FromBytes for MBoTb1 {
    #[verifier::opaque]
    open spec fn dec(b: Seq<u8>) -> Result<MBoTb1, ParseError> {
        if b.len() < 12 {
            Err(ParseError::NotEnoughBytes)
        } else {
            match Cp56Time2a::dec(b.subrange(5, 12)) {
                Err(e) => Err(ParseError::ParseTimeTag(e)),
                Ok(time) => 
                Ok(MBoTb1 { bsi: Bsi::of_bytes(b.subrange(0, 4)), qds: Qds::of_byte(b[4]), time }),
            }
        }
    }

    #[verifier::opaque]
    open spec fn canon(b: Seq<u8>) -> bool {
        Qds::canon(b[4]) && Cp56Time2a::canon(b.subrange(5, 12))
    }

    fn from_bytes(bytes: &[u8]) -> (r: Result<MBoTb1, ParseError>) {
        proof {
            reveal(<MBoTb1 as FromBytes>::dec);
        }
        if bytes.len() < 12 {
            return Err(ParseError::NotEnoughBytes);
        }
        let bsi = Bsi::from_byte([bytes[0], bytes[1], bytes[2], bytes[3]]);
        proof { assert(bytes@.subrange(0, 4) =~= seq![bytes@[0], bytes@[1], bytes@[2], bytes@[3]]); }
        let ab: [u8; 7] = [bytes[5], bytes[6], bytes[7], bytes[8], bytes[9], bytes[10], bytes[11]];
        proof { assert(ab@ =~= bytes@.subrange(5, 12)); }
        let time = match Cp56Time2a::from_bytes(&ab) {
            Err(e) => { return Err(ParseError::ParseTimeTag(e)); },
            Ok(t) => t,
        };
        Ok(MBoTb1 { bsi, qds: Qds::from_byte(bytes[4]), time })
    }

    proof fn lemma_dec(b: Seq<u8>) {
        reveal(<MBoTb1 as FromBytes>::dec);
        reveal(<MBoTb1 as FromBytes>::canon);
        if Self::dec(b) is Ok {
            let x = Self::dec(b)->Ok_0;
            lemma_bsi_round_trip(x.bsi, b.subrange(0, 4));
            lemma_qds_round_trip(x.qds, b[4]);
            lemma_cp56_round_trip(x.time, b.subrange(5, 12));
            if Self::canon(b) && b.len() == 12 {
                assert(x.enc() =~= b);
            }
        }
    }

    proof fn lemma_enc(self) {
        reveal(<MBoTb1 as FromBytes>::dec);
        reveal(<MBoTb1 as FromBytes>::canon);
        if self.wf() {
            let e = self.enc();
            assert(e.subrange(0, 4) =~= self.bsi.enc());
            lemma_bsi_round_trip(self.bsi, e.subrange(0, 4));
            lemma_qds_round_trip(self.qds, 0);
            assert(e[4] == self.qds.enc());
            assert(e.subrange(5, 12) =~= self.time.enc());
            lemma_cp56_round_trip(self.time, e.subrange(5, 12));
            assert(Self::dec(e) == Ok::<MBoTb1, ParseError>(self));
        }
    }
}

/// Measured value, normalized, with CP56 time tag.
#[derive(Debug, Copy, Clone, Eq, PartialEq, Structural)]
pub struct MMeTd1 {
    /// Normalized value.
    pub nva: Nva,
    /// Quality descriptor.
    pub qds: Qds,
    /// Time tag.
    pub time: Cp56Time2a,
}

impl ToBytes for MMeTd1 {
    open spec fn size_spec() -> nat {
        10
    }

    open spec fn wf(self) -> bool {
        self.time.wf()
    }

    open spec fn enc(self) -> Seq<u8> {
        self.nva.enc() + seq![self.qds.enc()] + self.time.enc()
    }

    fn size() -> (r: usize) {
        10
    }

    proof fn lemma_enc_len(self) {
    }

    fn to_bytes(&self, buffer: &mut Vec<u8>) -> (r: Result<(), ParseError>) {
        self.nva.write_bytes(buffer);
        buffer.push(self.qds.to_byte());
        self.time.write_bytes(buffer);
        proof {
            assert(buffer@ =~= old(buffer)@ + self.enc());
        }
        Ok(())
    }
}

impl FromBytes for MMeTd1 {
    #[verifier::opaque]
    open spec fn dec(b: Seq<u8>) -> Result<MMeTd1, ParseError> {
        if b.len() < 10 {
            Err(ParseError::NotEnoughBytes)
        } else {
            match Cp56Time2a::dec(b.subrange(3, 10)) {
                Err(e) => Err(ParseError::ParseTimeTag(e)),
                Ok(time) => 
                Ok(MMeTd1 { nva: Nva::of_bytes(b.subrange(0, 2)), qds: Qds::of_byte(b[2]), time }),
            }
        }
    }

    #[verifier::opaque]
    open spec fn canon(b: Seq<u8>) -> bool {
        Qds::canon(b[2]) && Cp56Time2a::canon(b.subrange(3, 10))
    }

    fn from_bytes(bytes: &[u8]) -> (r: Result<MMeTd1, ParseError>) {
        proof {
            reveal(<MMeTd1 as FromBytes>::dec);
        }
        if bytes.len() < 10 {
            return Err(ParseError::NotEnoughBytes);
        }
        let nva = Nva::from_bytes([bytes[0], bytes[1]]);
        proof { assert(bytes@.subrange(0, 2) =~= seq![bytes@[0], bytes@[1]]); }
        let ab: [u8; 7] = [bytes[3], bytes[4], bytes[5], bytes[6], bytes[7], bytes[8], bytes[9]];
        proof { assert(ab@ =~= bytes@.subrange(3, 10)); }
        let time = match Cp56Time2a::from_bytes(&ab) {
            Err(e) => { return Err(ParseError::ParseTimeTag(e)); },
            Ok(t) => t,
        };
        Ok(MMeTd1 { nva, qds: Qds::from_byte(bytes[2]), time })
    }

    proof fn lemma_dec(b: Seq<u8>) {
        reveal(<MMeTd1 as FromBytes>::dec);
        reveal(<MMeTd1 as FromBytes>::canon);
        if Self::dec(b) is Ok {
            let x = Self::dec(b)->Ok_0;
            lemma_nva_round_trip(x.nva, b.subrange(0, 2));
            lemma_qds_round_trip(x.qds, b[2]);
            lemma_cp56_round_trip(x.time, b.subrange(3, 10));
            if Self::canon(b) && b.len() == 10 {
                assert(x.enc() =~= b);
            }
        }
    }

    proof fn lemma_enc(self) {
        reveal(<MMeTd1 as FromBytes>::dec);
        reveal(<MMeTd1 as FromBytes>::canon);
        if self.wf() {
            let e = self.enc();
            assert(e.subrange(0, 2) =~= self.nva.enc());
            lemma_nva_round_trip(self.nva, e.subrange(0, 2));
            lemma_qds_round_trip(self.qds, 0);
            assert(e[2] == self.qds.enc());
            assert(e.subrange(3, 10) =~= self.time.enc());
            lemma_cp56_round_trip(self.time, e.subrange(3, 10));
            assert(Self::dec(e) == Ok::<MMeTd1, ParseError>(self));
        }
    }
}

/// Measured value, scaled, with CP56 time tag.
#[derive(Debug, Copy, Clone, Eq, PartialEq, Structural)]
pub struct MMeTe1 {
    /// Scaled value.
    pub sva: Sva,
    /// Quality descriptor.
    pub qds: Qds,
    /// Time tag.
    pub time: Cp56Time2a,
}

impl ToBytes for MMeTe1 {
    open spec fn size_spec() -> nat {
        10
    }

    open spec fn wf(self) -> bool {
        self.time.wf()
    }

    open spec fn enc(self) -> Seq<u8> {
        self.sva.enc() + seq![self.qds.enc()] + self.time.enc()
    }

    fn size() -> (r: usize) {
        10
    }

    proof fn lemma_enc_len(self) {
    }

    fn to_bytes(&self, buffer: &mut Vec<u8>) -> (r: Result<(), ParseError>) {
        self.sva.write_bytes(buffer);
        buffer.push(self.qds.to_byte());
        self.time.write_bytes(buffer);
        proof {
            assert(buffer@ =~= old(buffer)@ + self.enc());
        }
        Ok(())
    }
}

impl FromBytes for MMeTe1 {
    #[verifier::opaque]
    open spec fn dec(b: Seq<u8>) -> Result<MMeTe1, ParseError> {
        if b.len() < 10 {
            Err(ParseError::NotEnoughBytes)
        } else {
            match Cp56Time2a::dec(b.subrange(3, 10)) {
                Err(e) => Err(ParseError::ParseTimeTag(e)),
                Ok(time) => 
                Ok(MMeTe1 { sva: Sva::of_bytes(b.subrange(0, 2)), qds: Qds::of_byte(b[2]), time }),
            }
        }
    }

    #[verifier::opaque]
    open spec fn canon(b: Seq<u8>) -> bool {
        Qds::canon(b[2]) && Cp56Time2a::canon(b.subrange(3, 10))
    }

    fn from_bytes(bytes: &[u8]) -> (r: Result<MMeTe1, ParseError>) {
        proof {
            reveal(<MMeTe1 as FromBytes>::dec);
        }
        if bytes.len() < 10 {
            return Err(ParseError::NotEnoughBytes);
        }
        let sva = Sva::from_bytes([bytes[0], bytes[1]]);
        proof { assert(bytes@.subrange(0, 2) =~= seq![bytes@[0], bytes@[1]]); }
        let ab: [u8; 7] = [bytes[3], bytes[4], bytes[5], bytes[6], bytes[7], bytes[8], bytes[9]];
        proof { assert(ab@ =~= bytes@.subrange(3, 10)); }
        let time = match Cp56Time2a::from_bytes(&ab) {
            Err(e) => { return Err(ParseError::ParseTimeTag(e)); },
            Ok(t) => t,
        };
        Ok(MMeTe1 { sva, qds: Qds::from_byte(bytes[2]), time })
    }

    proof fn lemma_dec(b: Seq<u8>) {
        reveal(<MMeTe1 as FromBytes>::dec);
        reveal(<MMeTe1 as FromBytes>::canon);
        if Self::dec(b) is Ok {
            let x = Self::dec(b)->Ok_0;
            lemma_sva_round_trip(x.sva, b.subrange(0, 2));
            lemma_qds_round_trip(x.qds, b[2]);
            lemma_cp56_round_trip(x.time, b.subrange(3, 10));
            if Self::canon(b) && b.len() == 10 {
                assert(x.enc() =~= b);
            }
        }
    }

    proof fn lemma_enc(self) {
        reveal(<MMeTe1 as FromBytes>::dec);
        reveal(<MMeTe1 as FromBytes>::canon);
        if self.wf() {
            let e = self.enc();
            assert(e.subrange(0, 2) =~= self.sva.enc());
            lemma_sva_round_trip(self.sva, e.subrange(0, 2));
            lemma_qds_round_trip(self.qds, 0);
            assert(e[2] == self.qds.enc());
            assert(e.subrange(3, 10) =~= self.time.enc());
            lemma_cp56_round_trip(self.time, e.subrange(3, 10));
            assert(Self::dec(e) == Ok::<MMeTe1, ParseError>(self));
        }
    }
}

/// Measured value, short floating point, with CP56 time tag.
#[derive(Debug, Copy, Clone, Eq, PartialEq, Structural)]
pub struct MMeTf1 {
    /// Short floating point value.
    pub r32: R32,
    /// Quality descriptor.
    pub qds: Qds,
    /// Time tag.
    pub time: Cp56Time2a,
}

impl ToBytes for MMeTf1 {
    open spec fn size_spec() -> nat {
        12
    }

    open spec fn wf(self) -> bool {
        self.time.wf()
    }

    open spec fn enc(self) -> Seq<u8> {
        self.r32.enc() + seq![self.qds.enc()] + self.time.enc()
    }

    fn size() -> (r: usize) {
        12
    }

    proof fn lemma_enc_len(self) {
    }

    fn to_bytes(&self, buffer: &mut Vec<u8>) -> (r: Result<(), ParseError>) {
        self.r32.write_bytes(buffer);
        buffer.push(self.qds.to_byte());
        self.time.write_bytes(buffer);
        proof {
            assert(buffer@ =~= old(buffer)@ + self.enc());
        }
        Ok(())
    }
}

impl FromBytes for MMeTf1 {
    #[verifier::opaque]
    open spec fn dec(b: Seq<u8>) -> Result<MMeTf1, ParseError> {
        if b.len() < 12 {
            Err(ParseError::NotEnoughBytes)
        } else {
            match Cp56Time2a::dec(b.subrange(5, 12)) {
                Err(e) => Err(ParseError::ParseTimeTag(e)),
                Ok(time) => 
                Ok(MMeTf1 { r32: R32::of_bytes(b.subrange(0, 4)), qds: Qds::of_byte(b[4]), time }),
            }
        }
    }

    #[verifier::opaque]
    open spec fn canon(b: Seq<u8>) -> bool {
        Qds::canon(b[4]) && Cp56Time2a::canon(b.subrange(5, 12))
    }

    fn from_bytes(bytes: &[u8]) -> (r: Result<MMeTf1, ParseError>) {
        proof {
            reveal(<MMeTf1 as FromBytes>::dec);
        }
        if bytes.len() < 12 {
            return Err(ParseError::NotEnoughBytes);
        }
        let r32 = R32::from_bytes([bytes[0], bytes[1], bytes[2], bytes[3]]);
        proof { assert(bytes@.subrange(0, 4) =~= seq![bytes@[0], bytes@[1], bytes@[2], bytes@[3]]); }
        let ab: [u8; 7] = [bytes[5], bytes[6], bytes[7], bytes[8], bytes[9], bytes[10], bytes[11]];
        proof { assert(ab@ =~= bytes@.subrange(5, 12)); }
        let time = match Cp56Time2a::from_bytes(&ab) {
            Err(e) => { return Err(ParseError::ParseTimeTag(e)); },
            Ok(t) => t,
        };
        Ok(MMeTf1 { r32, qds: Qds::from_byte(bytes[4]), time })
    }

    proof fn lemma_dec(b: Seq<u8>) {
        reveal(<MMeTf1 as FromBytes>::dec);
        reveal(<MMeTf1 as FromBytes>::canon);
        if Self::dec(b) is Ok {
            let x = Self::dec(b)->Ok_0;
            lemma_r32_round_trip(x.r32, b.subrange(0, 4));
            lemma_qds_round_trip(x.qds, b[4]);
            lemma_cp56_round_trip(x.time, b.subrange(5, 12));
            if Self::canon(b) && b.len() == 12 {
                assert(x.enc() =~= b);
            }
        }
    }

    proof fn lemma_enc(self) {
        reveal(<MMeTf1 as FromBytes>::dec);
        reveal(<MMeTf1 as FromBytes>::canon);
        if self.wf() {
            let e = self.enc();
            assert(e.subrange(0, 4) =~= self.r32.enc());
            lemma_r32_round_trip(self.r32, e.subrange(0, 4));
            lemma_qds_round_trip(self.qds, 0);
            assert(e[4] == self.qds.enc());
            assert(e.subrange(5, 12) =~= self.time.enc());
            lemma_cp56_round_trip(self.time, e.subrange(5, 12));
            assert(Self::dec(e) == Ok::<MMeTf1, ParseError>(self));
        }
    }
}

/// Integrated totals with CP56 time tag.
#[derive(Debug, Copy, Clone, Eq, PartialEq, Structural)]
pub struct MItTb1 {
    /// Binary counter reading.
    pub bcr: Bcr,
    /// Quality descriptor.
    pub qds: Qds,
    /// Time tag.
    pub time: Cp56Time2a,
}

impl ToBytes for MItTb1 {
    open spec fn size_spec() -> nat {
        12
    }

    open spec fn wf(self) -> bool {
        self.time.wf()
    }

    open spec fn enc(self) -> Seq<u8> {
        self.bcr.enc() + seq![self.qds.enc()] + self.time.enc()
    }

    fn size() -> (r: usize) {
        12
    }

    proof fn lemma_enc_len(self) {
    }

    fn to_bytes(&self, buffer: &mut Vec<u8>) -> (r: Result<(), ParseError>) {
        self.bcr.write_bytes(buffer);
        buffer.push(self.qds.to_byte());
        self.time.write_bytes(buffer);
        proof {
            assert(buffer@ =~= old(buffer)@ + self.enc());
        }
        Ok(())
    }
}

impl FromBytes for MItTb1 {
    #[verifier::opaque]
    open spec fn dec(b: Seq<u8>) -> Result<MItTb1, ParseError> {
        if b.len() < 12 {
            Err(ParseError::NotEnoughBytes)
        } else {
            match Cp56Time2a::dec(b.subrange(5, 12)) {
                Err(e) => Err(ParseError::ParseTimeTag(e)),
                Ok(time) => 
                Ok(MItTb1 { bcr: Bcr::of_bytes(b.subrange(0, 4)), qds: Qds::of_byte(b[4]), time }),
            }
        }
    }

    #[verifier::opaque]
    open spec fn canon(b: Seq<u8>) -> bool {
        Qds::canon(b[4]) && Cp56Time2a::canon(b.subrange(5, 12))
    }

    fn from_bytes(bytes: &[u8]) -> (r: Result<MItTb1, ParseError>) {
        proof {
            reveal(<MItTb1 as FromBytes>::dec);
        }
        if bytes.len() < 12 {
            return Err(ParseError::NotEnoughBytes);
        }
        let bcr = Bcr::from_byte([bytes[0], bytes[1], bytes[2], bytes[3]]);
        proof { assert(bytes@.subrange(0, 4) =~= seq![bytes@[0], bytes@[1], bytes@[2], bytes@[3]]); }
        let ab: [u8; 7] = [bytes[5], bytes[6], bytes[7], bytes[8], bytes[9], bytes[10], bytes[11]];
        proof { assert(ab@ =~= bytes@.subrange(5, 12)); }
        let time = match Cp56Time2a::from_bytes(&ab) {
            Err(e) => { return Err(ParseError::ParseTimeTag(e)); },
            Ok(t) => t,
        };
        Ok(MItTb1 { bcr, qds: Qds::from_byte(bytes[4]), time })
    }

    proof fn lemma_dec(b: Seq<u8>) {
        reveal(<MItTb1 as FromBytes>::dec);
        reveal(<MItTb1 as FromBytes>::canon);
        if Self::dec(b) is Ok {
            let x = Self::dec(b)->Ok_0;
            lemma_bcr_round_trip(x.bcr, b.subrange(0, 4));
            lemma_qds_round_trip(x.qds, b[4]);
            lemma_cp56_round_trip(x.time, b.subrange(5, 12));
            if Self::canon(b) && b.len() == 12 {
                assert(x.enc() =~= b);
            }
        }
    }

    proof fn lemma_enc(self) {
        reveal(<MItTb1 as FromBytes>::dec);
        reveal(<MItTb1 as FromBytes>::canon);
        if self.wf() {
            let e = self.enc();
            assert(e.subrange(0, 4) =~= self.bcr.enc());
            lemma_bcr_round_trip(self.bcr, e.subrange(0, 4));
            lemma_qds_round_trip(self.qds, 0);
            assert(e[4] == self.qds.enc());
            assert(e.subrange(5, 12) =~= self.time.enc());
            lemma_cp56_round_trip(self.time, e.subrange(5, 12));
            assert(Self::dec(e) == Ok::<MItTb1, ParseError>(self));
        }
    }
}

/// Event of protection equipment with CP56 time tag.
#[derive(Debug, Copy, Clone, Eq, PartialEq, Structural)]
pub struct MEpTd1 {
    /// Single event of protection equipment.
    pub sep: Sep,
    /// Elapsed time.
    pub elapsed: Cp16Time2a,
    /// Time tag.
    pub time: Cp56Time2a,
}

impl ToBytes for MEpTd1 {
    open spec fn size_spec() -> nat {
        10
    }

    open spec fn wf(self) -> bool {
        self.elapsed.wf() && self.time.wf()
    }

    open spec fn enc(self) -> Seq<u8> {
        seq![self.sep.enc()] + self.elapsed.enc() + self.time.enc()
    }

    fn size() -> (r: usize) {
        10
    }

    proof fn lemma_enc_len(self) {
    }

    fn to_bytes(&self, buffer: &mut Vec<u8>) -> (r: Result<(), ParseError>) {
        buffer.push(self.sep.to_byte());
        self.elapsed.write_bytes(buffer);
        self.time.write_bytes(buffer);
        proof {
            assert(buffer@ =~= old(buffer)@ + self.enc());
        }
        Ok(())
    }
}

impl FromBytes for MEpTd1 {
    #[verifier::opaque]
    open spec fn dec(b: Seq<u8>) -> Result<MEpTd1, ParseError> {
        if b.len() < 10 {
            Err(ParseError::NotEnoughBytes)
        } else {
            match Cp16Time2a::dec(b.subrange(1, 3)) {
                Err(e) => Err(ParseError::ParseTimeTag(e)),
                Ok(elapsed) => 
                match Cp56Time2a::dec(b.subrange(3, 10)) {
                    Err(e) => Err(ParseError::ParseTimeTag(e)),
                    Ok(time) => 
                    Ok(MEpTd1 { sep: Sep::of_byte(b[0]), elapsed, time }),
                },
            }
        }
    }

    #[verifier::opaque]
    open spec fn canon(b: Seq<u8>) -> bool {
        Sep::canon(b[0]) && Cp56Time2a::canon(b.subrange(3, 10))
    }

    fn from_bytes(bytes: &[u8]) -> (r: Result<MEpTd1, ParseError>) {
        proof {
            reveal(<MEpTd1 as FromBytes>::dec);
        }
        if bytes.len() < 10 {
            return Err(ParseError::NotEnoughBytes);
        }
        let ab: [u8; 2] = [bytes[1], bytes[2]];
        proof { assert(ab@ =~= bytes@.subrange(1, 3)); }
        let elapsed = match Cp16Time2a::from_bytes(ab) {
            Err(e) => { return Err(ParseError::ParseTimeTag(e)); },
            Ok(t) => t,
        };
        let ab: [u8; 7] = [bytes[3], bytes[4], bytes[5], bytes[6], bytes[7], bytes[8], bytes[9]];
        proof { assert(ab@ =~= bytes@.subrange(3, 10)); }
        let time = match Cp56Time2a::from_bytes(&ab) {
            Err(e) => { return Err(ParseError::ParseTimeTag(e)); },
            Ok(t) => t,
        };
        Ok(MEpTd1 { sep: Sep::from_byte(bytes[0]), elapsed, time })
    }

    proof fn lemma_dec(b: Seq<u8>) {
        reveal(<MEpTd1 as FromBytes>::dec);
        reveal(<MEpTd1 as FromBytes>::canon);
        if Self::dec(b) is Ok {
            let x = Self::dec(b)->Ok_0;
            lemma_sep_round_trip(x.sep, b[0]);
            lemma_cp16_dec(b.subrange(1, 3));
            lemma_cp56_round_trip(x.time, b.subrange(3, 10));
            if Self::canon(b) && b.len() == 10 {
                assert(x.enc() =~= b);
            }
        }
    }

    proof fn lemma_enc(self) {
        reveal(<MEpTd1 as FromBytes>::dec);
        reveal(<MEpTd1 as FromBytes>::canon);
        if self.wf() {
            let e = self.enc();
            lemma_sep_round_trip(self.sep, 0);
            assert(e[0] == self.sep.enc());
            assert(e.subrange(1, 3) =~= self.elapsed.enc());
            lemma_cp16_enc(self.elapsed);
            assert(e.subrange(3, 10) =~= self.time.enc());
            lemma_cp56_round_trip(self.time, e.subrange(3, 10));
            assert(Self::dec(e) == Ok::<MEpTd1, ParseError>(self));
        }
    }
}

/// Packed start events of protection equipment with CP56 time tag.
#[derive(Debug, Copy, Clone, Eq, PartialEq, Structural)]
pub struct MEpTe1 {
    /// Start events of protection equipment.
    pub start_ep: StartEp,
    /// Quality descriptor of protection equipment.
    pub qdp: Qdp,
    /// Relay duration time.
    pub relay_duration: Cp16Time2a,
    /// Time tag.
    pub time: Cp56Time2a,
}

impl ToBytes for MEpTe1 {
    open spec fn size_spec() -> nat {
        11
    }

    open spec fn wf(self) -> bool {
        self.relay_duration.wf() && self.time.wf()
    }

    open spec fn enc(self) -> Seq<u8> {
        seq![self.start_ep.enc()] + seq![self.qdp.enc()] + self.relay_duration.enc() + self.time.enc()
    }

    fn size() -> (r: usize) {
        11
    }

    proof fn lemma_enc_len(self) {
    }

    fn to_bytes(&self, buffer: &mut Vec<u8>) -> (r: Result<(), ParseError>) {
        buffer.push(self.start_ep.to_byte());
        buffer.push(self.qdp.to_byte());
        self.relay_duration.write_bytes(buffer);
        self.time.write_bytes(buffer);
        proof {
            assert(buffer@ =~= old(buffer)@ + self.enc());
        }
        Ok(())
    }
}

impl FromBytes for MEpTe1 {
    #[verifier::opaque]
    open spec fn dec(b: Seq<u8>) -> Result<MEpTe1, ParseError> {
        if b.len() < 11 {
            Err(ParseError::NotEnoughBytes)
        } else {
            match Cp16Time2a::dec(b.subrange(2, 4)) {
                Err(e) => Err(ParseError::ParseTimeTag(e)),
                Ok(relay_duration) => 
                match Cp56Time2a::dec(b.subrange(4, 11)) {
                    Err(e) => Err(ParseError::ParseTimeTag(e)),
                    Ok(time) => 
                    Ok(MEpTe1 { start_ep: StartEp::of_byte(b[0]), qdp: Qdp::of_byte(b[1]), relay_duration, time }),
                },
            }
        }
    }

    #[verifier::opaque]
    open spec fn canon(b: Seq<u8>) -> bool {
        StartEp::canon(b[0]) && Qdp::canon(b[1]) && Cp56Time2a::canon(b.subrange(4, 11))
    }

    fn from_bytes(bytes: &[u8]) -> (r: Result<MEpTe1, ParseError>) {
        proof {
            reveal(<MEpTe1 as FromBytes>::dec);
        }
        if bytes.len() < 11 {
            return Err(ParseError::NotEnoughBytes);
        }
        let ab: [u8; 2] = [bytes[2], bytes[3]];
        proof { assert(ab@ =~= bytes@.subrange(2, 4)); }
        let relay_duration = match Cp16Time2a::from_bytes(ab) {
            Err(e) => { return Err(ParseError::ParseTimeTag(e)); },
            Ok(t) => t,
        };
        let ab: [u8; 7] = [bytes[4], bytes[5], bytes[6], bytes[7], bytes[8], bytes[9], bytes[10]];
        proof { assert(ab@ =~= bytes@.subrange(4, 11)); }
        let time = match Cp56Time2a::from_bytes(&ab) {
            Err(e) => { return Err(ParseError::ParseTimeTag(e)); },
            Ok(t) => t,
        };
        Ok(MEpTe1 { start_ep: StartEp::from_byte(bytes[0]), qdp: Qdp::from_byte(bytes[1]), relay_duration, time })
    }

    proof fn lemma_dec(b: Seq<u8>) {
        reveal(<MEpTe1 as FromBytes>::dec);
        reveal(<MEpTe1 as FromBytes>::canon);
        if Self::dec(b) is Ok {
            let x = Self::dec(b)->Ok_0;
            lemma_start_ep_round_trip(x.start_ep, b[0]);
            lemma_qdp_round_trip(x.qdp, b[1]);
            lemma_cp16_dec(b.subrange(2, 4));
            lemma_cp56_round_trip(x.time, b.subrange(4, 11));
            if Self::canon(b) && b.len() == 11 {
                assert(x.enc() =~= b);
            }
        }
    }

    proof fn lemma_enc(self) {
        reveal(<MEpTe1 as FromBytes>::dec);
        reveal(<MEpTe1 as FromBytes>::canon);
        if self.wf() {
            let e = self.enc();
            lemma_start_ep_round_trip(self.start_ep, 0);
            assert(e[0] == self.start_ep.enc());
            lemma_qdp_round_trip(self.qdp, 0);
            assert(e[1] == self.qdp.enc());
            assert(e.subrange(2, 4) =~= self.relay_duration.enc());
            lemma_cp16_enc(self.relay_duration);
            assert(e.subrange(4, 11) =~= self.time.enc());
            lemma_cp56_round_trip(self.time, e.subrange(4, 11));
            assert(Self::dec(e) == Ok::<MEpTe1, ParseError>(self));
        }
    }
}

/// Packed output circuit information of protection equipment with CP56 time tag.
#[derive(Debug, Copy, Clone, Eq, PartialEq, Structural)]
pub struct MEpTf1 {
    /// Output circuit information.
    pub oci: Oci,
    /// Quality descriptor of protection equipment.
    pub qdp: Qdp,
    /// Relay operation time.
    pub relay_op_time: Cp16Time2a,
    /// Time tag.
    pub time: Cp56Time2a,
}

impl ToBytes for MEpTf1 {
    open spec fn size_spec() -> nat {
        11
    }

    open spec fn wf(self) -> bool {
        self.relay_op_time.wf() && self.time.wf()
    }

    open spec fn enc(self) -> Seq<u8> {
        seq![self.oci.enc()] + seq![self.qdp.enc()] + self.relay_op_time.enc() + self.time.enc()
    }

    fn size() -> (r: usize) {
        11
    }

    proof fn lemma_enc_len(self) {
    }

    fn to_bytes(&self, buffer: &mut Vec<u8>) -> (r: Result<(), ParseError>) {
        buffer.push(self.oci.to_byte());
        buffer.push(self.qdp.to_byte());
        self.relay_op_time.write_bytes(buffer);
        self.time.write_bytes(buffer);
        proof {
            assert(buffer@ =~= old(buffer)@ + self.enc());
        }
        Ok(())
    }
}

impl FromBytes for MEpTf1 {
    #[verifier::opaque]
    open spec fn dec(b: Seq<u8>) -> Result<MEpTf1, ParseError> {
        if b.len() < 11 {
            Err(ParseError::NotEnoughBytes)
        } else {
            match Cp16Time2a::dec(b.subrange(2, 4)) {
                Err(e) => Err(ParseError::ParseTimeTag(e)),
                Ok(relay_op_time) => 
                match Cp56Time2a::dec(b.subrange(4, 11)) {
                    Err(e) => Err(ParseError::ParseTimeTag(e)),
                    Ok(time) => 
                    Ok(MEpTf1 { oci: Oci::of_byte(b[0]), qdp: Qdp::of_byte(b[1]), relay_op_time, time }),
                },
            }
        }
    }

    #[verifier::opaque]
    open spec fn canon(b: Seq<u8>) -> bool {
        Oci::canon(b[0]) && Qdp::canon(b[1]) && Cp56Time2a::canon(b.subrange(4, 11))
    }

    fn from_bytes(bytes: &[u8]) -> (r: Result<MEpTf1, ParseError>) {
        proof {
            reveal(<MEpTf1 as FromBytes>::dec);
        }
        if bytes.len() < 11 {
            return Err(ParseError::NotEnoughBytes);
        }
        let ab: [u8; 2] = [bytes[2], bytes[3]];
        proof { assert(ab@ =~= bytes@.subrange(2, 4)); }
        let relay_op_time = match Cp16Time2a::from_bytes(ab) {
            Err(e) => { return Err(ParseError::ParseTimeTag(e)); },
            Ok(t) => t,
        };
        let ab: [u8; 7] = [bytes[4], bytes[5], bytes[6], bytes[7], bytes[8], bytes[9], bytes[10]];
        proof { assert(ab@ =~= bytes@.subrange(4, 11)); }
        let time = match Cp56Time2a::from_bytes(&ab) {
            Err(e) => { return Err(ParseError::ParseTimeTag(e)); },
            Ok(t) => t,
        };
        Ok(MEpTf1 { oci: Oci::from_byte(bytes[0]), qdp: Qdp::from_byte(bytes[1]), relay_op_time, time })
    }

    proof fn lemma_dec(b: Seq<u8>) {
        reveal(<MEpTf1 as FromBytes>::dec);
        reveal(<MEpTf1 as FromBytes>::canon);
        if Self::dec(b) is Ok {
            let x = Self::dec(b)->Ok_0;
            lemma_oci_round_trip(x.oci, b[0]);
            lemma_qdp_round_trip(x.qdp, b[1]);
            lemma_cp16_dec(b.subrange(2, 4));
            lemma_cp56_round_trip(x.time, b.subrange(4, 11));
            if Self::canon(b) && b.len() == 11 {
                assert(x.enc() =~= b);
            }
        }
    }

    proof fn lemma_enc(self) {
        reveal(<MEpTf1 as FromBytes>::dec);
        reveal(<MEpTf1 as FromBytes>::canon);
        if self.wf() {
            let e = self.enc();
            lemma_oci_round_trip(self.oci, 0);
            assert(e[0] == self.oci.enc());
            lemma_qdp_round_trip(self.qdp, 0);
            assert(e[1] == self.qdp.enc());
            assert(e.subrange(2, 4) =~= self.relay_op_time.enc());
            lemma_cp16_enc(self.relay_op_time);
            assert(e.subrange(4, 11) =~= self.time.enc());
            lemma_cp56_round_trip(self.time, e.subrange(4, 11));
            assert(Self::dec(e) == Ok::<MEpTf1, ParseError>(self));
        }
    }
}

/// End of initialization: a local-parameter-change flag and the cause of
/// initialization, packed on one byte.
#[derive(Debug, Copy, Clone, Eq, PartialEq, Structural, Default)]
pub struct MEiNa1 {
    /// Local parameter change.
    pub lpc: Lpc,
    /// Cause of initialization.
    pub coi: Coi,
}

impl ToBytes for MEiNa1 {
    open spec fn size_spec() -> nat {
        1
    }

    open spec fn wf(self) -> bool {
        self.coi.wf() && self.coi.code() < 128
    }

    open spec fn enc(self) -> Seq<u8> {
        seq![(128 * self.lpc.code() + self.coi.code() % 128) as u8]
    }

    fn size() -> (r: usize) {
        1
    }

    proof fn lemma_enc_len(self) {
    }

    fn to_bytes(&self, buffer: &mut Vec<u8>) -> (r: Result<(), ParseError>) {
        let lc: u8 = match self.lpc {
            Lpc::NoChange => 0,
            Lpc::Changed => 128,
        };
        buffer.push(lc + self.coi.to_byte() % 128);
        proof {
            assert(buffer@ =~= old(buffer)@ + self.enc());
        }
        Ok(())
    }
}

impl FromBytes for MEiNa1 {
    #[verifier::opaque]
    open spec fn dec(b: Seq<u8>) -> Result<MEiNa1, ParseError> {
        if b.len() < 1 {
            Err(ParseError::NotEnoughBytes)
        } else {
            Ok(MEiNa1 { lpc: Lpc::of_bool(b[0] / 128 == 1), coi: Coi::of_byte(b[0] % 128) })
        }
    }

    #[verifier::opaque]
    open spec fn canon(b: Seq<u8>) -> bool {
        true
    }

    fn from_bytes(bytes: &[u8]) -> (r: Result<MEiNa1, ParseError>) {
        proof {
            reveal(<MEiNa1 as FromBytes>::dec);
        }
        if bytes.len() < 1 {
            return Err(ParseError::NotEnoughBytes);
        }
        Ok(MEiNa1 {
            lpc: Lpc::from_bool(bytes[0] / 128 == 1),
            coi: Coi::from_byte(bytes[0] % 128),
        })
    }

    proof fn lemma_dec(b: Seq<u8>) {
        reveal(<MEiNa1 as FromBytes>::dec);
        reveal(<MEiNa1 as FromBytes>::canon);
        if Self::dec(b) is Ok {
            let x = Self::dec(b)->Ok_0;
            lemma_coi_round_trip(x.coi, b[0] % 128);
            if b.len() == 1 {
                let w = b[0] as int;
                vstd::arithmetic::div_mod::lemma_fundamental_div_mod(w, 128);
                lemma_split_word(w, 128, w / 128, w % 128);
                assert(x.enc() =~= b);
            }
        }
    }

    proof fn lemma_enc(self) {
        reveal(<MEiNa1 as FromBytes>::dec);
        reveal(<MEiNa1 as FromBytes>::canon);
        if self.wf() {
            let e = self.enc();
            lemma_coi_round_trip(self.coi, 0);
            lemma_split_word(e[0] as int, 128, self.lpc.code(), self.coi.code() as int);
            assert(Self::dec(e) == Ok::<MEiNa1, ParseError>(self));
        }
    }
}

} // verus!
