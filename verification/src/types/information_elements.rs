//! Single information elements: points, steps, events and the plain
//! numeric carriers that information objects are built from.

use vstd::prelude::*;

use crate::types::quality_descriptors::Qds;
use crate::types::{
    lemma_byte_bits, lemma_byte_parts, lemma_signed16_round_trip, lemma_signed32_round_trip,
    lemma_split_word, lemma_word16_round_trip, lemma_word32_round_trip, signed16, signed32,
    unsigned16, unsigned32, word16, word32,
};

verus! {

/// Single point information.
#[derive(Debug, Copy, Clone, Eq, PartialEq, Structural, Default)]
pub enum Spi {
    /// Off.
    #[default]
    Off,
    /// On.
    On,
}

impl Spi {
    /// The wire bit of this point.
    pub open spec fn code(self) -> int {
        match self {
            Spi::Off => 0,
            Spi::On => 1,
        }
    }

    /// What a bit decodes to: zero is off, anything else on.
    pub open spec fn of_byte(byte: u8) -> Spi {
        if byte == 0 {
            Spi::Off
        } else {
            Spi::On
        }
    }

    /// Decodes a single point from its bit.
    pub fn from_byte(byte: u8) -> (r: Spi)
        ensures
            r == Spi::of_byte(byte),
    {
        if byte == 0 {
            Spi::Off
        } else {
            Spi::On
        }
    }
}

/// Double point information.
#[derive(Debug, Copy, Clone, Eq, PartialEq, Structural, Default)]
pub enum Dpi {
    /// Indeterminate or intermediate.
    #[default]
    Indeterminate,
    /// Off.
    Off,
    /// On.
    On,
    /// Invalid.
    Invalid,
}

impl Dpi {
    /// The two wire bits of this point.
    pub open spec fn code(self) -> int {
        match self {
            Dpi::Indeterminate => 0,
            Dpi::Off => 1,
            Dpi::On => 2,
            Dpi::Invalid => 3,
        }
    }

    /// What two bits decode to.
    pub open spec fn of_byte(byte: u8) -> Dpi {
        if byte == 0 {
            Dpi::Indeterminate
        } else if byte == 1 {
            Dpi::Off
        } else if byte == 2 {
            Dpi::On
        } else {
            Dpi::Invalid
        }
    }

    /// Decodes a double point from its two bits.
    pub fn from_byte(byte: u8) -> (r: Dpi)
        ensures
            r == Dpi::of_byte(byte),
    {
        match byte {
            0 => Dpi::Indeterminate,
            1 => Dpi::Off,
            2 => Dpi::On,
            _ => Dpi::Invalid,
        }
    }
}

/// Event state of protection equipment.
#[derive(Debug, Copy, Clone, Eq, PartialEq, Structural, Default)]
pub enum EventState {
    /// Indeterminate.
    #[default]
    Indeterminate,
    /// Off.
    Off,
    /// On.
    On,
    /// Invalid.
    Invalid,
}

impl EventState {
    /// The two wire bits of this state.
    pub open spec fn code(self) -> int {
        match self {
            EventState::Indeterminate => 0,
            EventState::Off => 1,
            EventState::On => 2,
            EventState::Invalid => 3,
        }
    }

    /// What two bits decode to.
    pub open spec fn of_byte(byte: u8) -> EventState {
        if byte == 0 {
            EventState::Indeterminate
        } else if byte == 1 {
            EventState::Off
        } else if byte == 2 {
            EventState::On
        } else {
            EventState::Invalid
        }
    }

    /// Decodes an event state from its two bits.
    pub fn from_byte(byte: u8) -> (r: EventState)
        ensures
            r == EventState::of_byte(byte),
    {
        match byte {
            0 => EventState::Indeterminate,
            1 => EventState::Off,
            2 => EventState::On,
            _ => EventState::Invalid,
        }
    }
}

/// Select or execute, the high bit of command qualifiers.
#[derive(Debug, Copy, Clone, Eq, PartialEq, Structural, Default)]
pub enum SelectExecute {
    /// Execute the command.
    Execute,
    /// Select without executing.
    #[default]
    Select,
}

impl SelectExecute {
    /// The wire bit of this choice.
    pub open spec fn code(self) -> int {
        match self {
            SelectExecute::Execute => 0,
            SelectExecute::Select => 1,
        }
    }

    /// What the bit decodes to.
    pub open spec fn of_bool(select: bool) -> SelectExecute {
        if select {
            SelectExecute::Select
        } else {
            SelectExecute::Execute
        }
    }

    /// Reads the choice from the select bit.
    pub fn from_bool(select: bool) -> (r: SelectExecute)
        ensures
            r == SelectExecute::of_bool(select),
    {
        if select {
            SelectExecute::Select
        } else {
            SelectExecute::Execute
        }
    }
}

/// Local parameter change flag.
#[derive(Debug, Copy, Clone, Eq, PartialEq, Structural, Default)]
pub enum Lpc {
    /// No change.
    #[default]
    NoChange,
    /// Changed.
    Changed,
}

impl Lpc {
    /// The wire bit of this flag.
    pub open spec fn code(self) -> int {
        match self {
            Lpc::NoChange => 0,
            Lpc::Changed => 1,
        }
    }

    /// What the bit decodes to.
    pub open spec fn of_bool(state: bool) -> Lpc {
        if state {
            Lpc::Changed
        } else {
            Lpc::NoChange
        }
    }

    /// Reads the flag from its bit.
    pub fn from_bool(state: bool) -> (r: Lpc)
        ensures
            r == Lpc::of_bool(state),
    {
        if state {
            Lpc::Changed
        } else {
            Lpc::NoChange
        }
    }
}

/// Cause of initialization.
#[derive(Debug, Copy, Clone, Eq, PartialEq, Structural, Default)]
pub enum Coi {
    /// Local power on.
    #[default]
    LocalPowerOn,
    /// Local manual reset.
    LocalManualReset,
    /// Remote reset.
    RemoteReset,
    /// Any other cause, carried verbatim.
    Other(u8),
}

impl Coi {
    /// The wire value of this cause.
    pub open spec fn code(self) -> u8 {
        match self {
            Coi::LocalPowerOn => 0,
            Coi::LocalManualReset => 1,
            Coi::RemoteReset => 2,
            Coi::Other(byte) => byte,
        }
    }

    /// What a wire value decodes to.
    pub open spec fn of_byte(byte: u8) -> Coi {
        if byte == 0 {
            Coi::LocalPowerOn
        } else if byte == 1 {
            Coi::LocalManualReset
        } else if byte == 2 {
            Coi::RemoteReset
        } else {
            Coi::Other(byte)
        }
    }

    /// An `Other` value that does not collide with a named cause.
    pub open spec fn wf(self) -> bool {
        match self {
            Coi::Other(byte) => byte >= 3,
            _ => true,
        }
    }

    /// Decodes a cause of initialization.
    pub fn from_byte(byte: u8) -> (r: Coi)
        ensures
            r == Coi::of_byte(byte),
            r.wf(),
    {
        match byte {
            0 => Coi::LocalPowerOn,
            1 => Coi::LocalManualReset,
            2 => Coi::RemoteReset,
            _ => Coi::Other(byte),
        }
    }

    /// Encodes this cause as its wire value.
    pub fn to_byte(&self) -> (r: u8)
        ensures
            r == self.code(),
    {
        match self {
            Coi::LocalPowerOn => 0,
            Coi::LocalManualReset => 1,
            Coi::RemoteReset => 2,
            Coi::Other(byte) => *byte,
        }
    }
}

/// COI round trip: decoding is exact, and encoding is undone by decoding for
/// causes whose `Other` value does not shadow a named one.
pub proof fn lemma_coi_round_trip(x: Coi, b: u8)
    ensures
        x.wf() ==> Coi::of_byte(x.code()) == x,
        Coi::of_byte(b).code() == b,
        Coi::of_byte(b).wf(),
{
}

/// Value with transient state indication: a seven-bit step position, a
/// transient flag, and a quality descriptor, on two bytes.
#[derive(Debug, Copy, Clone, Eq, PartialEq, Structural, Default)]
pub struct Vti {
    /// Step position (0 to 127).
    pub value: u8,
    /// Transient state indication.
    pub transient: bool,
    /// Quality descriptor.
    pub qds: Qds,
}

impl Vti {
    /// What two wire bytes decode to.
    pub open spec fn of_bytes(b: Seq<u8>) -> Vti {
        Vti { value: b[0] % 128, transient: b[0] / 128 == 1, qds: Qds::of_byte(b[1]) }
    }

    /// The two wire bytes of this value.
    pub open spec fn enc(self) -> Seq<u8> {
        seq![
            ((if self.transient { 128int } else { 0 }) + (self.value % 128)) as u8,
            self.qds.enc(),
        ]
    }

    /// A step position that fits its seven bits.
    pub open spec fn wf(self) -> bool {
        self.value < 128
    }

    /// Bytes whose reserved quality bits are clear.
    pub open spec fn canon(b: Seq<u8>) -> bool {
        Qds::canon(b[1])
    }

    /// Decodes a transient-tagged value from its two wire bytes.
    pub fn from_byte(bytes: [u8; 2]) -> (r: Vti)
        ensures
            r == Vti::of_bytes(bytes@),
            r.wf(),
    {
        Vti {
            value: bytes[0] % 128,
            transient: bytes[0] / 128 == 1,
            qds: Qds::from_byte(bytes[1]),
        }
    }

    /// Encodes this value as its two wire bytes.
    pub fn to_bytes(&self) -> (r: [u8; 2])
        ensures
            r@ == self.enc(),
    {
        let b0: u8 = if self.transient {
            128 + self.value % 128
        } else {
            self.value % 128
        };
        let r = [b0, self.qds.to_byte()];
        proof {
            assert(r@ =~= self.enc());
        }
        r
    }
}

/// VTI round trip, both directions, under the usual side conditions.
pub proof fn lemma_vti_round_trip(x: Vti, b: Seq<u8>)
    requires
        b.len() == 2,
    ensures
        x.wf() ==> Vti::of_bytes(x.enc()) == x,
        Vti::canon(b) ==> Vti::of_bytes(b).enc() =~= b,
{
    let t = if x.transient { 1int } else { 0 };
    if x.wf() {
        lemma_split_word(x.enc()[0] as int, 128, t, x.value as int);
        crate::types::quality_descriptors::lemma_qds_round_trip(x.qds, b[1]);
    }
    lemma_byte_bits(b[0]);
    lemma_split_word(b[0] as int, 128, b[0] as int / 128, b[0] as int % 128);
    crate::types::quality_descriptors::lemma_qds_round_trip(Qds::of_byte(b[1]), b[1]);
    if Vti::canon(b) {
        assert((b[0] as int % 128) % 128 == b[0] as int % 128);
        assert(Vti::of_bytes(b).enc() =~= b);
    }
}

/// Single event of protection equipment: four quality flags, an elapsed
/// flag, and a two-bit event state.
#[derive(Debug, Copy, Clone, Eq, PartialEq, Structural, Default)]
pub struct Sep {
    /// Invalid.
    pub iv: bool,
    /// Not topical.
    pub nt: bool,
    /// Substituted.
    pub sb: bool,
    /// Blocked.
    pub bl: bool,
    /// Elapsed-time-invalid flag.
    pub ei: bool,
    /// Event state.
    pub es: EventState,
}

impl Sep {
    /// What a wire byte decodes to.
    pub open spec fn of_byte(byte: u8) -> Sep {
        Sep {
            iv: byte / 128 == 1,
            nt: (byte % 128) / 64 == 1,
            sb: (byte % 64) / 32 == 1,
            bl: (byte % 32) / 16 == 1,
            ei: (byte % 16) / 8 == 1,
            es: EventState::of_byte(byte % 4),
        }
    }

    /// The wire byte of this event.
    pub open spec fn enc(self) -> u8 {
        ((if self.iv { 128int } else { 0 }) + (if self.nt { 64int } else { 0 }) + (if self.sb {
            32int
        } else {
            0
        }) + (if self.bl { 16int } else { 0 }) + (if self.ei { 8int } else { 0 })
            + self.es.code()) as u8
    }

    /// Bytes whose reserved bit (2) is clear.
    pub open spec fn canon(byte: u8) -> bool {
        (byte % 8) / 4 == 0
    }

    /// Decodes a protection event from its wire byte.
    pub fn from_byte(byte: u8) -> (r: Sep)
        ensures
            r == Sep::of_byte(byte),
    {
        Sep {
            iv: byte / 128 == 1,
            nt: (byte % 128) / 64 == 1,
            sb: (byte % 64) / 32 == 1,
            bl: (byte % 32) / 16 == 1,
            ei: (byte % 16) / 8 == 1,
            es: EventState::from_byte(byte % 4),
        }
    }

    /// Encodes this event as its wire byte.
    pub fn to_byte(&self) -> (r: u8)
        ensures
            r == self.enc(),
    {
        let mut byte: u8 = match self.es {
            EventState::Indeterminate => 0,
            EventState::Off => 1,
            EventState::On => 2,
            EventState::Invalid => 3,
        };
        if self.iv {
            byte = byte + 128;
        }
        if self.nt {
            byte = byte + 64;
        }
        if self.sb {
            byte = byte + 32;
        }
        if self.bl {
            byte = byte + 16;
        }
        if self.ei {
            byte = byte + 8;
        }
        byte
    }
}

/// SEP round trip, both directions.
#[verifier::rlimit(50)]
pub proof fn lemma_sep_round_trip(x: Sep, b: u8)
    ensures
        Sep::of_byte(x.enc()) == x,
        Sep::canon(b) ==> Sep::of_byte(b).enc() == b,
{
    let es = x.es.code();
    let v = x.enc() as int;
    let iv = if x.iv { 1int } else { 0 };
    let nt = if x.nt { 1int } else { 0 };
    let sb = if x.sb { 1int } else { 0 };
    let bl = if x.bl { 1int } else { 0 };
    let ei = if x.ei { 1int } else { 0 };
    lemma_split_word(v, 128, iv, 64 * nt + 32 * sb + 16 * bl + 8 * ei + es);
    lemma_split_word(v % 128, 64, nt, 32 * sb + 16 * bl + 8 * ei + es);
    lemma_split_word(v, 64, 2 * iv + nt, 32 * sb + 16 * bl + 8 * ei + es);
    lemma_split_word(v % 64, 32, sb, 16 * bl + 8 * ei + es);
    lemma_split_word(v, 32, 4 * iv + 2 * nt + sb, 16 * bl + 8 * ei + es);
    lemma_split_word(v % 32, 16, bl, 8 * ei + es);
    lemma_split_word(v, 16, 8 * iv + 4 * nt + 2 * sb + bl, 8 * ei + es);
    lemma_split_word(v % 16, 8, ei, es);
    lemma_split_word(v, 4, 32 * iv + 16 * nt + 8 * sb + 4 * bl + 2 * ei, es);
    lemma_byte_bits(b);
    if Sep::canon(b) {
        let w = b as int;
        lemma_split_word(w, 4, w / 4, w % 4);
        assert(Sep::of_byte(b).enc() == b);
    }
}

/// Start events of protection equipment: six flags on one byte.
#[derive(Debug, Copy, Clone, Eq, PartialEq, Structural, Default)]
pub struct StartEp {
    /// Start in reverse direction.
    pub srd: bool,
    /// Start from earth current.
    pub sie: bool,
    /// Start of operation phase 3.
    pub sl3: bool,
    /// Start of operation phase 2.
    pub sl2: bool,
    /// Start of operation phase 1.
    pub sl1: bool,
    /// General start.
    pub gs: bool,
}

impl StartEp {
    /// What a wire byte decodes to.
    pub open spec fn of_byte(byte: u8) -> StartEp {
        StartEp {
            srd: (byte % 64) / 32 == 1,
            sie: (byte % 32) / 16 == 1,
            sl3: (byte % 16) / 8 == 1,
            sl2: (byte % 8) / 4 == 1,
            sl1: (byte % 4) / 2 == 1,
            gs: byte % 2 == 1,
        }
    }

    /// The wire byte of these events.
    pub open spec fn enc(self) -> u8 {
        ((if self.srd { 32int } else { 0 }) + (if self.sie { 16int } else { 0 }) + (if self.sl3 {
            8int
        } else {
            0
        }) + (if self.sl2 { 4int } else { 0 }) + (if self.sl1 { 2int } else { 0 }) + (if self.gs {
            1int
        } else {
            0
        })) as u8
    }

    /// Bytes whose reserved bits (6 and 7) are clear.
    pub open spec fn canon(byte: u8) -> bool {
        byte / 128 == 0 && (byte % 128) / 64 == 0
    }

    /// Decodes packed start events from their wire byte.
    pub fn from_byte(byte: u8) -> (r: StartEp)
        ensures
            r == StartEp::of_byte(byte),
    {
        StartEp {
            srd: (byte % 64) / 32 == 1,
            sie: (byte % 32) / 16 == 1,
            sl3: (byte % 16) / 8 == 1,
            sl2: (byte % 8) / 4 == 1,
            sl1: (byte % 4) / 2 == 1,
            gs: byte % 2 == 1,
        }
    }

    /// Encodes these events as their wire byte.
    pub fn to_byte(&self) -> (r: u8)
        ensures
            r == self.enc(),
    {
        let mut byte: u8 = 0;
        if self.srd {
            byte = byte + 32;
        }
        if self.sie {
            byte = byte + 16;
        }
        if self.sl3 {
            byte = byte + 8;
        }
        if self.sl2 {
            byte = byte + 4;
        }
        if self.sl1 {
            byte = byte + 2;
        }
        if self.gs {
            byte = byte + 1;
        }
        byte
    }
}

/// Start-events round trip, both directions.
pub proof fn lemma_start_ep_round_trip(x: StartEp, b: u8)
    ensures
        StartEp::of_byte(x.enc()) == x,
        StartEp::canon(b) ==> StartEp::of_byte(b).enc() == b,
{
    lemma_byte_parts(
        x.enc() as int,
        0,
        0,
        if x.srd { 1int } else { 0 },
        if x.sie { 1int } else { 0 },
        if x.sl3 { 1int } else { 0 },
        if x.sl2 { 1int } else { 0 },
        if x.sl1 { 1int } else { 0 },
        if x.gs { 1int } else { 0 },
    );
    lemma_byte_bits(b);
}

/// Output circuit information of protection equipment: four flags.
#[derive(Debug, Copy, Clone, Eq, PartialEq, Structural, Default)]
pub struct Oci {
    /// Command to operation phase 3.
    pub cl3: bool,
    /// Command to operation phase 2.
    pub cl2: bool,
    /// Command to operation phase 1.
    pub cl1: bool,
    /// General command to output circuit.
    pub gc: bool,
}

impl Oci {
    /// What a wire byte decodes to.
    pub open spec fn of_byte(byte: u8) -> Oci {
        Oci {
            cl3: (byte % 16) / 8 == 1,
            cl2: (byte % 8) / 4 == 1,
            cl1: (byte % 4) / 2 == 1,
            gc: byte % 2 == 1,
        }
    }

    /// The wire byte of this information.
    pub open spec fn enc(self) -> u8 {
        ((if self.cl3 { 8int } else { 0 }) + (if self.cl2 { 4int } else { 0 }) + (if self.cl1 {
            2int
        } else {
            0
        }) + (if self.gc { 1int } else { 0 })) as u8
    }

    /// Bytes whose reserved bits (4 to 7) are clear.
    pub open spec fn canon(byte: u8) -> bool {
        byte / 16 == 0
    }

    /// Decodes output circuit information from its wire byte.
    pub fn from_byte(byte: u8) -> (r: Oci)
        ensures
            r == Oci::of_byte(byte),
    {
        Oci {
            cl3: (byte % 16) / 8 == 1,
            cl2: (byte % 8) / 4 == 1,
            cl1: (byte % 4) / 2 == 1,
            gc: byte % 2 == 1,
        }
    }

    /// Encodes this information as its wire byte.
    pub fn to_byte(&self) -> (r: u8)
        ensures
            r == self.enc(),
    {
        let mut byte: u8 = 0;
        if self.cl3 {
            byte = byte + 8;
        }
        if self.cl2 {
            byte = byte + 4;
        }
        if self.cl1 {
            byte = byte + 2;
        }
        if self.gc {
            byte = byte + 1;
        }
        byte
    }
}

/// Output-circuit round trip, both directions.
pub proof fn lemma_oci_round_trip(x: Oci, b: u8)
    ensures
        Oci::of_byte(x.enc()) == x,
        Oci::canon(b) ==> Oci::of_byte(b).enc() == b,
{
    lemma_byte_parts(
        x.enc() as int,
        0,
        0,
        0,
        0,
        if x.cl3 { 1int } else { 0 },
        if x.cl2 { 1int } else { 0 },
        if x.cl1 { 1int } else { 0 },
        if x.gc { 1int } else { 0 },
    );
    lemma_byte_bits(b);
    if Oci::canon(b) {
        lemma_split_word(b as int, 16, 0, b as int);
    }
}

/// Normalized value: a signed 16-bit fraction of full scale.
#[derive(Debug, Copy, Clone, Eq, PartialEq, Structural, Default)]
pub struct Nva {
    /// The raw signed value.
    pub value: i16,
}

impl Nva {
    /// What two little-endian wire bytes decode to.
    pub open spec fn of_bytes(b: Seq<u8>) -> Nva {
        Nva { value: signed16(word16(b[0], b[1])) }
    }

    /// The two little-endian wire bytes of this value.
    pub open spec fn enc(self) -> Seq<u8> {
        crate::types::word16_bytes(unsigned16(self.value))
    }

    /// Decodes a normalized value.
    pub fn from_bytes(bytes: [u8; 2]) -> (r: Nva)
        ensures
            r == Nva::of_bytes(bytes@),
    {
        Nva { value: crate::types::i16_from_le_pair(bytes[0], bytes[1]) }
    }

    /// Appends the two wire bytes of this value.
    pub fn write_bytes(self, buffer: &mut Vec<u8>)
        ensures
            final(buffer)@ == old(buffer)@ + self.enc(),
    {
        let u = crate::types::u16_of_i16(self.value);
        crate::types::push_u16_le(buffer, u);
    }

    /// Encodes this value as its two wire bytes.
    pub fn to_bytes(&self) -> (r: [u8; 2])
        ensures
            r@ == self.enc(),
    {
        let u = crate::types::u16_of_i16(self.value);
        let r = [(u % 256) as u8, (u / 256) as u8];
        proof {
            assert(r@ =~= self.enc());
        }
        r
    }
}

/// Normalized-value round trip, both directions.
pub proof fn lemma_nva_round_trip(x: Nva, b: Seq<u8>)
    requires
        b.len() == 2,
    ensures
        Nva::of_bytes(x.enc()) == x,
        Nva::of_bytes(b).enc() =~= b,
{
    lemma_signed16_round_trip(x.value, word16(b[0], b[1]));
    lemma_word16_round_trip(unsigned16(x.value));
    lemma_split_word(word16(b[0], b[1]) as int, 256, b[1] as int, b[0] as int);
}

/// Scaled value: a signed 16-bit integer.
#[derive(Debug, Copy, Clone, Eq, PartialEq, Structural, Default)]
pub struct Sva {
    /// The raw signed value.
    pub value: i16,
}

impl Sva {
    /// What two little-endian wire bytes decode to.
    pub open spec fn of_bytes(b: Seq<u8>) -> Sva {
        Sva { value: signed16(word16(b[0], b[1])) }
    }

    /// The two little-endian wire bytes of this value.
    pub open spec fn enc(self) -> Seq<u8> {
        crate::types::word16_bytes(unsigned16(self.value))
    }

    /// Decodes a scaled value.
    pub fn from_bytes(bytes: [u8; 2]) -> (r: Sva)
        ensures
            r == Sva::of_bytes(bytes@),
    {
        Sva { value: crate::types::i16_from_le_pair(bytes[0], bytes[1]) }
    }

    /// Appends the two wire bytes of this value.
    pub fn write_bytes(self, buffer: &mut Vec<u8>)
        ensures
            final(buffer)@ == old(buffer)@ + self.enc(),
    {
        let u = crate::types::u16_of_i16(self.value);
        crate::types::push_u16_le(buffer, u);
    }

    /// Encodes this value as its two wire bytes.
    pub fn to_bytes(&self) -> (r: [u8; 2])
        ensures
            r@ == self.enc(),
    {
        let u = crate::types::u16_of_i16(self.value);
        let r = [(u % 256) as u8, (u / 256) as u8];
        proof {
            assert(r@ =~= self.enc());
        }
        r
    }
}

/// Scaled-value round trip, both directions.
pub proof fn lemma_sva_round_trip(x: Sva, b: Seq<u8>)
    requires
        b.len() == 2,
    ensures
        Sva::of_bytes(x.enc()) == x,
        Sva::of_bytes(b).enc() =~= b,
{
    lemma_signed16_round_trip(x.value, word16(b[0], b[1]));
    lemma_word16_round_trip(unsigned16(x.value));
    lemma_split_word(word16(b[0], b[1]) as int, 256, b[1] as int, b[0] as int);
}

/// Short floating point number, carried as its 32-bit pattern: the codec
/// moves the four bytes untouched and never interprets them numerically.
#[derive(Debug, Copy, Clone, Eq, PartialEq, Structural, Default)]
pub struct R32 {
    /// The IEEE-754 bit pattern, little-endian on the wire.
    pub bits: u32,
}

impl R32 {
    /// What four little-endian wire bytes decode to.
    pub open spec fn of_bytes(b: Seq<u8>) -> R32 {
        R32 { bits: word32(b[0], b[1], b[2], b[3]) }
    }

    /// The four little-endian wire bytes of this pattern.
    pub open spec fn enc(self) -> Seq<u8> {
        crate::types::word32_bytes(self.bits)
    }

    /// Decodes a short float pattern.
    pub fn from_bytes(bytes: [u8; 4]) -> (r: R32)
        ensures
            r == R32::of_bytes(bytes@),
    {
        R32 { bits: crate::types::u32_from_le_quad(bytes[0], bytes[1], bytes[2], bytes[3]) }
    }

    /// Appends the four wire bytes of this pattern.
    pub fn write_bytes(self, buffer: &mut Vec<u8>)
        ensures
            final(buffer)@ == old(buffer)@ + self.enc(),
    {
        crate::types::push_u32_le(buffer, self.bits);
    }

    /// Encodes this pattern as its four wire bytes.
    pub fn to_bytes(&self) -> (r: [u8; 4])
        ensures
            r@ == self.enc(),
    {
        let v = self.bits;
        let r = [(v % 256) as u8, ((v / 256) % 256) as u8, ((v / 65536) % 256) as u8, (v
            / 16777216) as u8];
        proof {
            assert(r@ =~= self.enc());
        }
        r
    }
}

/// Short-float round trip, both directions.
pub proof fn lemma_r32_round_trip(x: R32, b: Seq<u8>)
    requires
        b.len() == 4,
    ensures
        R32::of_bytes(x.enc()) == x,
        R32::of_bytes(b).enc() =~= b,
{
    lemma_word32_round_trip(x.bits);
    lemma_word32_parts(b[0], b[1], b[2], b[3]);
}

/// Bit string of 32 bits.
#[derive(Debug, Copy, Clone, Eq, PartialEq, Structural, Default)]
pub struct Bsi {
    /// The raw 32 bits, little-endian on the wire.
    pub value: u32,
}

impl Bsi {
    /// What four little-endian wire bytes decode to.
    pub open spec fn of_bytes(b: Seq<u8>) -> Bsi {
        Bsi { value: word32(b[0], b[1], b[2], b[3]) }
    }

    /// The four little-endian wire bytes of this string.
    pub open spec fn enc(self) -> Seq<u8> {
        crate::types::word32_bytes(self.value)
    }

    /// Decodes a 32-bit string.
    pub fn from_byte(bytes: [u8; 4]) -> (r: Bsi)
        ensures
            r == Bsi::of_bytes(bytes@),
    {
        Bsi { value: crate::types::u32_from_le_quad(bytes[0], bytes[1], bytes[2], bytes[3]) }
    }

    /// Appends the four wire bytes of this string.
    pub fn write_bytes(self, buffer: &mut Vec<u8>)
        ensures
            final(buffer)@ == old(buffer)@ + self.enc(),
    {
        crate::types::push_u32_le(buffer, self.value);
    }

    /// Encodes this string as its four wire bytes.
    pub fn to_bytes(&self) -> (r: [u8; 4])
        ensures
            r@ == self.enc(),
    {
        let v = self.value;
        let r = [(v % 256) as u8, ((v / 256) % 256) as u8, ((v / 65536) % 256) as u8, (v
            / 16777216) as u8];
        proof {
            assert(r@ =~= self.enc());
        }
        r
    }
}

/// Bit-string round trip, both directions.
pub proof fn lemma_bsi_round_trip(x: Bsi, b: Seq<u8>)
    requires
        b.len() == 4,
    ensures
        Bsi::of_bytes(x.enc()) == x,
        Bsi::of_bytes(b).enc() =~= b,
{
    lemma_word32_round_trip(x.value);
    lemma_word32_parts(b[0], b[1], b[2], b[3]);
}

/// Binary counter reading: a signed 32-bit count.
#[derive(Debug, Copy, Clone, Eq, PartialEq, Structural, Default)]
pub struct Bcr {
    /// The raw signed count.
    pub value: i32,
}

impl Bcr {
    /// What four little-endian wire bytes decode to.
    pub open spec fn of_bytes(b: Seq<u8>) -> Bcr {
        Bcr { value: signed32(word32(b[0], b[1], b[2], b[3])) }
    }

    /// The four little-endian wire bytes of this count.
    pub open spec fn enc(self) -> Seq<u8> {
        crate::types::word32_bytes(unsigned32(self.value))
    }

    /// Decodes a binary counter reading.
    pub fn from_byte(bytes: [u8; 4]) -> (r: Bcr)
        ensures
            r == Bcr::of_bytes(bytes@),
    {
        Bcr { value: crate::types::i32_from_le_quad(bytes[0], bytes[1], bytes[2], bytes[3]) }
    }

    /// Appends the four wire bytes of this count.
    pub fn write_bytes(self, buffer: &mut Vec<u8>)
        ensures
            final(buffer)@ == old(buffer)@ + self.enc(),
    {
        let u = crate::types::u32_of_i32(self.value);
        crate::types::push_u32_le(buffer, u);
    }

    /// Encodes this count as its four wire bytes.
    pub fn to_bytes(&self) -> (r: [u8; 4])
        ensures
            r@ == self.enc(),
    {
        let v = crate::types::u32_of_i32(self.value);
        let r = [(v % 256) as u8, ((v / 256) % 256) as u8, ((v / 65536) % 256) as u8, (v
            / 16777216) as u8];
        proof {
            assert(r@ =~= self.enc());
        }
        r
    }
}

/// Counter-reading round trip, both directions.
pub proof fn lemma_bcr_round_trip(x: Bcr, b: Seq<u8>)
    requires
        b.len() == 4,
    ensures
        Bcr::of_bytes(x.enc()) == x,
        Bcr::of_bytes(b).enc() =~= b,
{
    lemma_signed32_round_trip(x.value, word32(b[0], b[1], b[2], b[3]));
    lemma_word32_round_trip(unsigned32(x.value));
    lemma_word32_parts(b[0], b[1], b[2], b[3]);
}

/// The four little-endian bytes of a 32-bit word are recovered by the
/// remainder chain that `word32_bytes` uses.
pub proof fn lemma_word32_parts(b0: u8, b1: u8, b2: u8, b3: u8)
    ensures
        word32(b0, b1, b2, b3) as int % 256 == b0,
        (word32(b0, b1, b2, b3) as int / 256) % 256 == b1,
        (word32(b0, b1, b2, b3) as int / 65536) % 256 == b2,
        word32(b0, b1, b2, b3) as int / 16777216 == b3,
{
    let v = word32(b0, b1, b2, b3) as int;
    lemma_split_word(v, 256, b1 + 256 * b2 + 65536 * b3, b0 as int);
    lemma_split_word(b1 + 256 * b2 + 65536 * b3, 256, b2 + 256 * b3, b1 as int);
    lemma_split_word(v, 65536, b2 + 256 * b3, b0 + 256 * b1);
    lemma_split_word(b2 + 256 * b3, 256, b3 as int, b2 as int);
    lemma_split_word(v, 16777216, b3 as int, b0 + 256 * b1 + 65536 * b2);
}


/// Single point information with quality descriptor: four flags and the
/// point itself on one byte.
#[derive(Debug, Copy, Clone, Eq, PartialEq, Structural, Default)]
pub struct Siq {
    /// Invalid.
    pub iv: bool,
    /// Not topical.
    pub nt: bool,
    /// Substituted.
    pub sb: bool,
    /// Blocked.
    pub bl: bool,
    /// Single point information.
    pub spi: Spi,
}

impl Siq {
    /// What a wire byte decodes to.
    pub open spec fn of_byte(byte: u8) -> Siq {
        Siq {
            iv: byte / 128 == 1,
            nt: (byte % 128) / 64 == 1,
            sb: (byte % 64) / 32 == 1,
            bl: (byte % 32) / 16 == 1,
            spi: Spi::of_byte(byte % 2),
        }
    }

    /// The wire byte of this point.
    pub open spec fn enc(self) -> u8 {
        ((if self.iv { 128int } else { 0 }) + (if self.nt { 64int } else { 0 }) + (if self.sb {
            32int
        } else {
            0
        }) + (if self.bl { 16int } else { 0 }) + self.spi.code()) as u8
    }

    /// Bytes whose reserved bits (1 to 3) are clear.
    pub open spec fn canon(byte: u8) -> bool {
        (byte % 16) / 8 == 0 && (byte % 8) / 4 == 0 && (byte % 4) / 2 == 0
    }

    /// Decodes a single point with quality from its wire byte.
    pub fn from_byte(byte: u8) -> (r: Siq)
        ensures
            r == Siq::of_byte(byte),
    {
        Siq {
            iv: byte / 128 == 1,
            nt: (byte % 128) / 64 == 1,
            sb: (byte % 64) / 32 == 1,
            bl: (byte % 32) / 16 == 1,
            spi: Spi::from_byte(byte % 2),
        }
    }

    /// Encodes this point as its wire byte.
    pub fn to_byte(&self) -> (r: u8)
        ensures
            r == self.enc(),
    {
        let mut byte: u8 = match self.spi {
            Spi::Off => 0,
            Spi::On => 1,
        };
        if self.iv {
            byte = byte + 128;
        }
        if self.nt {
            byte = byte + 64;
        }
        if self.sb {
            byte = byte + 32;
        }
        if self.bl {
            byte = byte + 16;
        }
        byte
    }
}

/// SIQ round trip, both directions.
pub proof fn lemma_siq_round_trip(x: Siq, b: u8)
    ensures
        Siq::of_byte(x.enc()) == x,
        Siq::canon(b) ==> Siq::of_byte(b).enc() == b,
{
    lemma_byte_parts(
        x.enc() as int,
        if x.iv { 1int } else { 0 },
        if x.nt { 1int } else { 0 },
        if x.sb { 1int } else { 0 },
        if x.bl { 1int } else { 0 },
        0,
        0,
        0,
        x.spi.code(),
    );
    lemma_byte_bits(b);
}

/// Double point information with quality descriptor: four flags and the
/// two-bit point on one byte.
#[derive(Debug, Copy, Clone, Eq, PartialEq, Structural, Default)]
pub struct Diq {
    /// Invalid.
    pub iv: bool,
    /// Not topical.
    pub nt: bool,
    /// Substituted.
    pub sb: bool,
    /// Blocked.
    pub bl: bool,
    /// Double point information.
    pub dpi: Dpi,
}

impl Diq {
    /// What a wire byte decodes to.
    pub open spec fn of_byte(byte: u8) -> Diq {
        Diq {
            iv: byte / 128 == 1,
            nt: (byte % 128) / 64 == 1,
            sb: (byte % 64) / 32 == 1,
            bl: (byte % 32) / 16 == 1,
            dpi: Dpi::of_byte(byte % 4),
        }
    }

    /// The wire byte of this point.
    pub open spec fn enc(self) -> u8 {
        ((if self.iv { 128int } else { 0 }) + (if self.nt { 64int } else { 0 }) + (if self.sb {
            32int
        } else {
            0
        }) + (if self.bl { 16int } else { 0 }) + self.dpi.code()) as u8
    }

    /// Bytes whose reserved bits (2 and 3) are clear.
    pub open spec fn canon(byte: u8) -> bool {
        (byte % 16) / 8 == 0 && (byte % 8) / 4 == 0
    }

    /// Decodes a double point with quality from its wire byte.
    pub fn from_byte(byte: u8) -> (r: Diq)
        ensures
            r == Diq::of_byte(byte),
    {
        Diq {
            iv: byte / 128 == 1,
            nt: (byte % 128) / 64 == 1,
            sb: (byte % 64) / 32 == 1,
            bl: (byte % 32) / 16 == 1,
            dpi: Dpi::from_byte(byte % 4),
        }
    }

    /// Encodes this point as its wire byte.
    pub fn to_byte(&self) -> (r: u8)
        ensures
            r == self.enc(),
    {
        let mut byte: u8 = match self.dpi {
            Dpi::Indeterminate => 0,
            Dpi::Off => 1,
            Dpi::On => 2,
            Dpi::Invalid => 3,
        };
        if self.iv {
            byte = byte + 128;
        }
        if self.nt {
            byte = byte + 64;
        }
        if self.sb {
            byte = byte + 32;
        }
        if self.bl {
            byte = byte + 16;
        }
        byte
    }
}

/// DIQ round trip, both directions.
pub proof fn lemma_diq_round_trip(x: Diq, b: u8)
    ensures
        Diq::of_byte(x.enc()) == x,
        Diq::canon(b) ==> Diq::of_byte(b).enc() == b,
{
    let v = x.enc() as int;
    let iv = if x.iv { 1int } else { 0 };
    let nt = if x.nt { 1int } else { 0 };
    let sb = if x.sb { 1int } else { 0 };
    let bl = if x.bl { 1int } else { 0 };
    let dp = x.dpi.code();
    lemma_split_word(v, 128, iv, 64 * nt + 32 * sb + 16 * bl + dp);
    lemma_split_word(v % 128, 64, nt, 32 * sb + 16 * bl + dp);
    lemma_split_word(v, 64, 2 * iv + nt, 32 * sb + 16 * bl + dp);
    lemma_split_word(v % 64, 32, sb, 16 * bl + dp);
    lemma_split_word(v, 32, 4 * iv + 2 * nt + sb, 16 * bl + dp);
    lemma_split_word(v % 32, 16, bl, dp);
    lemma_split_word(v, 4, 32 * iv + 16 * nt + 8 * sb + 4 * bl, dp);
    lemma_byte_bits(b);
    if Diq::canon(b) {
        let w = b as int;
        lemma_split_word(w, 4, w / 4, w % 4);
        assert(Diq::of_byte(b).enc() == b);
    }
}

} // verus!
