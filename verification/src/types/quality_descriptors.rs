//! Quality descriptors: the flag bytes that accompany measured values.

use vstd::prelude::*;

use crate::types::information_elements::SelectExecute;
use crate::types::{lemma_byte_bits, lemma_byte_parts, lemma_split_word};

verus! {

/// Quality descriptor: five independent flags on one byte.
#[derive(Debug, Copy, Clone, Eq, PartialEq, Structural, Default)]
pub struct Qds {
    /// Invalid.
    pub iv: bool,
    /// Not topical.
    pub nt: bool,
    /// Substituted.
    pub sb: bool,
    /// Blocked.
    pub bl: bool,
    /// Overflow.
    pub ov: bool,
}

impl Qds {
    /// What a wire byte decodes to.
    pub open spec fn of_byte(byte: u8) -> Qds {
        Qds {
            iv: byte / 128 == 1,
            nt: (byte % 128) / 64 == 1,
            sb: (byte % 64) / 32 == 1,
            bl: (byte % 32) / 16 == 1,
            ov: byte % 2 == 1,
        }
    }

    /// The wire byte of this descriptor.
    pub open spec fn enc(self) -> u8 {
        ((if self.iv { 128int } else { 0 }) + (if self.nt { 64int } else { 0 }) + (if self.sb {
            32int
        } else {
            0
        }) + (if self.bl { 16int } else { 0 }) + (if self.ov { 1int } else { 0 })) as u8
    }

    /// Bytes whose reserved bits (1 to 3) are clear: those a round trip
    /// preserves.
    pub open spec fn canon(byte: u8) -> bool {
        (byte % 16) / 8 == 0 && (byte % 8) / 4 == 0 && (byte % 4) / 2 == 0
    }

    /// Decodes a quality descriptor from its wire byte.
    pub fn from_byte(byte: u8) -> (r: Qds)
        ensures
            r == Qds::of_byte(byte),
    {
        Qds {
            iv: byte / 128 == 1,
            nt: (byte % 128) / 64 == 1,
            sb: (byte % 64) / 32 == 1,
            bl: (byte % 32) / 16 == 1,
            ov: byte % 2 == 1,
        }
    }

    /// Encodes this descriptor as its wire byte.
    pub fn to_byte(&self) -> (r: u8)
        ensures
            r == self.enc(),
    {
        let mut byte: u8 = 0;
        if self.iv {
            byte = byte + 128;
        }
        if self.nt {
            byte = byte + 64;
        }
        if self.sb {
            byte = byte + 32;
        }
        if self.bl {
            byte = byte + 16;
        }
        if self.ov {
            byte = byte + 1;
        }
        byte
    }
}

/// QDS round trip: every descriptor survives encode-then-decode, and
/// canonical bytes survive decode-then-encode.
pub proof fn lemma_qds_round_trip(x: Qds, b: u8)
    ensures
        Qds::of_byte(x.enc()) == x,
        Qds::canon(b) ==> Qds::of_byte(b).enc() == b,
{
    lemma_byte_parts(
        x.enc() as int,
        if x.iv { 1int } else { 0 },
        if x.nt { 1int } else { 0 },
        if x.sb { 1int } else { 0 },
        if x.bl { 1int } else { 0 },
        0,
        0,
        0,
        if x.ov { 1int } else { 0 },
    );
    lemma_byte_bits(b);
}

/// Sequence quality descriptor: three flags and a five-bit sequence number.
#[derive(Debug, Copy, Clone, Eq, PartialEq, Structural, Default)]
pub struct SeqQd {
    /// Invalid.
    pub iv: bool,
    /// Adjusted flag.
    pub ca: bool,
    /// Carry flag.
    pub cy: bool,
    /// Sequence (0 to 31).
    pub seq: u8,
}

impl SeqQd {
    /// What a wire byte decodes to.
    pub open spec fn of_byte(byte: u8) -> SeqQd {
        SeqQd {
            iv: byte / 128 == 1,
            ca: (byte % 128) / 64 == 1,
            cy: (byte % 64) / 32 == 1,
            seq: byte % 32,
        }
    }

    /// The wire byte of this descriptor.
    pub open spec fn enc(self) -> u8 {
        ((if self.iv { 128int } else { 0 }) + (if self.ca { 64int } else { 0 }) + (if self.cy {
            32int
        } else {
            0
        }) + (self.seq % 32)) as u8
    }

    /// A sequence number that fits its five bits: the condition for a
    /// lossless encode.
    pub open spec fn wf(self) -> bool {
        self.seq < 32
    }

    /// Decodes a sequence quality descriptor from its wire byte.
    pub fn from_byte(byte: u8) -> (r: SeqQd)
        ensures
            r == SeqQd::of_byte(byte),
            r.wf(),
    {
        SeqQd {
            iv: byte / 128 == 1,
            ca: (byte % 128) / 64 == 1,
            cy: (byte % 64) / 32 == 1,
            seq: byte % 32,
        }
    }

    /// Encodes this descriptor as its wire byte.
    pub fn to_byte(&self) -> (r: u8)
        ensures
            r == self.enc(),
    {
        let mut byte: u8 = self.seq % 32;
        if self.iv {
            byte = byte + 128;
        }
        if self.ca {
            byte = byte + 64;
        }
        if self.cy {
            byte = byte + 32;
        }
        byte
    }
}

/// Sequence-QDS round trip: every byte survives decode-then-encode, and
/// well-formed descriptors survive encode-then-decode.
pub proof fn lemma_seq_qd_round_trip(x: SeqQd, b: u8)
    ensures
        x.wf() ==> SeqQd::of_byte(x.enc()) == x,
        SeqQd::of_byte(b).enc() == b,
{
    if x.wf() {
        let iv = if x.iv { 1int } else { 0 };
        let ca = if x.ca { 1int } else { 0 };
        let cy = if x.cy { 1int } else { 0 };
        let v = x.enc() as int;
        assert(v == 128 * iv + 64 * ca + 32 * cy + x.seq);
        lemma_split_word(v, 128, iv, 64 * ca + 32 * cy + x.seq as int);
        lemma_split_word(v % 128, 64, ca, 32 * cy + x.seq as int);
        lemma_split_word(v, 64, 2 * iv + ca, 32 * cy + x.seq as int);
        lemma_split_word(v % 64, 32, cy, x.seq as int);
        lemma_split_word(v, 32, 4 * iv + 2 * ca + cy, x.seq as int);
    }
    lemma_byte_bits(b);
    let y = SeqQd::of_byte(b);
    assert(y.enc() as int == 128 * (b as int / 128) + 64 * ((b as int % 128) / 64) + 32 * ((b
        as int % 64) / 32) + (b as int % 32) % 32);
    assert((b as int % 32) % 32 == b as int % 32);
}

/// Quality descriptor of protection equipment: five flags on one byte.
#[derive(Debug, Copy, Clone, Eq, PartialEq, Structural, Default)]
pub struct Qdp {
    /// Invalid.
    pub iv: bool,
    /// Not topical.
    pub nt: bool,
    /// Substituted.
    pub sb: bool,
    /// Blocked.
    pub bl: bool,
    /// Elapsed-time-invalid flag.
    pub ei: bool,
}

impl Qdp {
    /// What a wire byte decodes to.
    pub open spec fn of_byte(byte: u8) -> Qdp {
        Qdp {
            iv: byte / 128 == 1,
            nt: (byte % 128) / 64 == 1,
            sb: (byte % 64) / 32 == 1,
            bl: (byte % 32) / 16 == 1,
            ei: (byte % 16) / 8 == 1,
        }
    }

    /// The wire byte of this descriptor.
    pub open spec fn enc(self) -> u8 {
        ((if self.iv { 128int } else { 0 }) + (if self.nt { 64int } else { 0 }) + (if self.sb {
            32int
        } else {
            0
        }) + (if self.bl { 16int } else { 0 }) + (if self.ei { 8int } else { 0 })) as u8
    }

    /// Bytes whose reserved bits (0 to 2) are clear.
    pub open spec fn canon(byte: u8) -> bool {
        (byte % 8) / 4 == 0 && (byte % 4) / 2 == 0 && byte % 2 == 0
    }

    /// Decodes a protection-equipment quality descriptor.
    pub fn from_byte(byte: u8) -> (r: Qdp)
        ensures
            r == Qdp::of_byte(byte),
    {
        Qdp {
            iv: byte / 128 == 1,
            nt: (byte % 128) / 64 == 1,
            sb: (byte % 64) / 32 == 1,
            bl: (byte % 32) / 16 == 1,
            ei: (byte % 16) / 8 == 1,
        }
    }

    /// Encodes this descriptor as its wire byte.
    pub fn to_byte(&self) -> (r: u8)
        ensures
            r == self.enc(),
    {
        let mut byte: u8 = 0;
        if self.iv {
            byte = byte + 128;
        }
        if self.nt {
            byte = byte + 64;
        }
        if self.sb {
            byte = byte + 32;
        }
        if self.bl {
            byte = byte + 16;
        }
        if self.ei {
            byte = byte + 8;
        }
        byte
    }
}

/// QDP round trip, in the same two directions as the QDS law.
pub proof fn lemma_qdp_round_trip(x: Qdp, b: u8)
    ensures
        Qdp::of_byte(x.enc()) == x,
        Qdp::canon(b) ==> Qdp::of_byte(b).enc() == b,
{
    lemma_byte_parts(
        x.enc() as int,
        if x.iv { 1int } else { 0 },
        if x.nt { 1int } else { 0 },
        if x.sb { 1int } else { 0 },
        if x.bl { 1int } else { 0 },
        if x.ei { 1int } else { 0 },
        0,
        0,
        0,
    );
    lemma_byte_bits(b);
}

/// Qualifier of set-point command: a select/execute bit and a qualifier bit.
#[derive(Debug, Copy, Clone, Eq, PartialEq, Structural, Default)]
pub struct Qos {
    /// Select or execute.
    pub se: SelectExecute,
    /// Qualifier.
    pub ql: bool,
}

impl Qos {
    /// What a wire byte decodes to.
    pub open spec fn of_byte(byte: u8) -> Qos {
        Qos { se: SelectExecute::of_bool(byte / 128 == 1), ql: byte % 2 == 1 }
    }

    /// The wire byte of this qualifier.
    pub open spec fn enc(self) -> u8 {
        (128 * self.se.code() + (if self.ql { 1int } else { 0 })) as u8
    }

    /// Bytes whose reserved bits (1 to 6) are clear.
    pub open spec fn canon(byte: u8) -> bool {
        (byte % 128) / 64 == 0 && (byte % 64) / 32 == 0 && (byte % 32) / 16 == 0 && (byte % 16) / 8
            == 0 && (byte % 8) / 4 == 0 && (byte % 4) / 2 == 0
    }

    /// Decodes a set-point qualifier from its wire byte.
    pub fn from_byte(byte: u8) -> (r: Qos)
        ensures
            r == Qos::of_byte(byte),
    {
        Qos { se: SelectExecute::from_bool(byte / 128 == 1), ql: byte % 2 == 1 }
    }

    /// Encodes this qualifier as its wire byte.
    pub fn to_byte(&self) -> (r: u8)
        ensures
            r == self.enc(),
    {
        let mut byte: u8 = if matches!(self.se, SelectExecute::Select) {
            128
        } else {
            0
        };
        if self.ql {
            byte = byte + 1;
        }
        byte
    }
}

/// QOS round trip, in the same two directions as the QDS law.
pub proof fn lemma_qos_round_trip(x: Qos, b: u8)
    ensures
        Qos::of_byte(x.enc()) == x,
        Qos::canon(b) ==> Qos::of_byte(b).enc() == b,
{
    lemma_byte_parts(
        x.enc() as int,
        x.se.code(),
        0,
        0,
        0,
        0,
        0,
        0,
        if x.ql { 1int } else { 0 },
    );
    lemma_byte_bits(b);
}

} // verus!
