use vstd::prelude::*;

use crate::except::SkyarchException;
use crate::regs::{
    RegMap, SkyarchFlags, SkyarchRegisters, SkyarchRegno, copro_check, flag_c, flag_n, flag_v, flag_z,
};

verus! {

// ---------------------------------------------------------------------------
// Bit fields of an instruction word.
// ---------------------------------------------------------------------------

/// The field of `w` that starts at bit `lo`, masked by `mask`.
pub open spec fn field(w: u32, lo: u32, mask: u32) -> u32 {
    (w >> lo) & mask
}

/// Bit `b` of `w`.
pub open spec fn bit(w: u32, b: u32) -> bool {
    (w >> b) & 1u32 == 1u32
}

fn get_field(w: u32, lo: u32, mask: u32) -> (r: u32)
    requires
        lo < 32,
    ensures
        r == field(w, lo, mask),
        r <= mask,
{
    let r = (w >> lo) & mask;
    proof {
        let x = w >> lo;
        assert(x & mask <= mask) by (bit_vector);
    }
    r
}

fn small_at(w: u32, lo: u32, mask: u32) -> (r: u8)
    requires
        lo < 32,
        mask < 256,
    ensures
        r == field(w, lo, mask) as u8,
        r as u32 == field(w, lo, mask),
        r as u32 <= mask,
{
    let x = get_field(w, lo, mask);
    x as u8
}

fn get_bit(w: u32, b: u32) -> (r: bool)
    requires
        b < 32,
    ensures
        r == bit(w, b),
{
    (w >> b) & 1u32 == 1u32
}

// ---------------------------------------------------------------------------
// Field types.
// ---------------------------------------------------------------------------

/// The sixteen branch and move conditions.
#[derive(Copy, Clone, Debug, Hash, PartialEq, Eq, Structural)]
pub enum ConditionCode {
    Never,
    Carry,
    Zero,
    Overflow,
    CarryOrEqual,
    SignedLess,
    SignedLessOrEq,
    Negative,
    Positive,
    SignedGreater,
    SignedGreaterOrEq,
    Above,
    NotOverflow,
    NotZero,
    NotCarry,
    Always,
}

impl ConditionCode {
    pub open spec fn spec_bits(self) -> u8 {
        match self {
            ConditionCode::Never => 0,
            ConditionCode::Carry => 1,
            ConditionCode::Zero => 2,
            ConditionCode::Overflow => 3,
            ConditionCode::CarryOrEqual => 4,
            ConditionCode::SignedLess => 5,
            ConditionCode::SignedLessOrEq => 6,
            ConditionCode::Negative => 7,
            ConditionCode::Positive => 8,
            ConditionCode::SignedGreater => 9,
            ConditionCode::SignedGreaterOrEq => 10,
            ConditionCode::Above => 11,
            ConditionCode::NotOverflow => 12,
            ConditionCode::NotZero => 13,
            ConditionCode::NotCarry => 14,
            ConditionCode::Always => 15,
        }
    }

    pub open spec fn spec_from_bits(v: u8) -> ConditionCode {
        if v == 0 {
            ConditionCode::Never
        } else if v == 1 {
            ConditionCode::Carry
        } else if v == 2 {
            ConditionCode::Zero
        } else if v == 3 {
            ConditionCode::Overflow
        } else if v == 4 {
            ConditionCode::CarryOrEqual
        } else if v == 5 {
            ConditionCode::SignedLess
        } else if v == 6 {
            ConditionCode::SignedLessOrEq
        } else if v == 7 {
            ConditionCode::Negative
        } else if v == 8 {
            ConditionCode::Positive
        } else if v == 9 {
            ConditionCode::SignedGreater
        } else if v == 10 {
            ConditionCode::SignedGreaterOrEq
        } else if v == 11 {
            ConditionCode::Above
        } else if v == 12 {
            ConditionCode::NotOverflow
        } else if v == 13 {
            ConditionCode::NotZero
        } else if v == 14 {
            ConditionCode::NotCarry
        } else {
            ConditionCode::Always
        }
    }

    /// Whether the condition holds for the given flags.
    pub open spec fn holds(self, f: u32) -> bool {
        match self {
            ConditionCode::Never => false,
            ConditionCode::Carry => flag_c(f),
            ConditionCode::Zero => flag_z(f),
            ConditionCode::Overflow => flag_v(f),
            ConditionCode::CarryOrEqual => flag_c(f) || flag_z(f),
            ConditionCode::SignedLess => (flag_c(f) == flag_n(f)) && !flag_z(f),
            ConditionCode::SignedLessOrEq => flag_c(f) == flag_n(f),
            ConditionCode::Negative => flag_n(f),
            ConditionCode::Positive => !flag_n(f),
            ConditionCode::SignedGreater => flag_c(f) != flag_n(f),
            ConditionCode::SignedGreaterOrEq => (flag_c(f) != flag_n(f)) || flag_z(f),
            ConditionCode::Above => !flag_c(f) && !flag_z(f),
            ConditionCode::NotOverflow => !flag_v(f),
            ConditionCode::NotZero => !flag_z(f),
            ConditionCode::NotCarry => !flag_c(f),
            ConditionCode::Always => true,
        }
    }

    /// Decodes a 4-bit field value.
    pub fn from_bits(v: u8) -> (r: ConditionCode)
        requires
            v < 16,
        ensures
            r == ConditionCode::spec_from_bits(v),
    {
        match v {
            0 => ConditionCode::Never,
            1 => ConditionCode::Carry,
            2 => ConditionCode::Zero,
            3 => ConditionCode::Overflow,
            4 => ConditionCode::CarryOrEqual,
            5 => ConditionCode::SignedLess,
            6 => ConditionCode::SignedLessOrEq,
            7 => ConditionCode::Negative,
            8 => ConditionCode::Positive,
            9 => ConditionCode::SignedGreater,
            10 => ConditionCode::SignedGreaterOrEq,
            11 => ConditionCode::Above,
            12 => ConditionCode::NotOverflow,
            13 => ConditionCode::NotZero,
            14 => ConditionCode::NotCarry,
            _ => ConditionCode::Always,
        }
    }

    /// Encodes the condition as its 4-bit field value.
    pub fn bits(&self) -> (r: u8)
        ensures
            r == self.spec_bits(),
            r < 16,
    {
        match self {
            ConditionCode::Never => 0,
            ConditionCode::Carry => 1,
            ConditionCode::Zero => 2,
            ConditionCode::Overflow => 3,
            ConditionCode::CarryOrEqual => 4,
            ConditionCode::SignedLess => 5,
            ConditionCode::SignedLessOrEq => 6,
            ConditionCode::Negative => 7,
            ConditionCode::Positive => 8,
            ConditionCode::SignedGreater => 9,
            ConditionCode::SignedGreaterOrEq => 10,
            ConditionCode::Above => 11,
            ConditionCode::NotOverflow => 12,
            ConditionCode::NotZero => 13,
            ConditionCode::NotCarry => 14,
            ConditionCode::Always => 15,
        }
    }

    /// Whether the condition holds for the given flags.
    pub fn check_condition(&self, flags: SkyarchFlags) -> (r: bool)
        ensures
            r == self.holds(flags@),
    {
        match self {
            ConditionCode::Never => false,
            ConditionCode::Carry => flags.c(),
            ConditionCode::Zero => flags.z(),
            ConditionCode::Overflow => flags.v(),
            ConditionCode::CarryOrEqual => flags.c() || flags.z(),
            ConditionCode::SignedLess => (flags.c() == flags.n()) && !flags.z(),
            ConditionCode::SignedLessOrEq => flags.c() == flags.n(),
            ConditionCode::Negative => flags.n(),
            ConditionCode::Positive => !flags.n(),
            ConditionCode::SignedGreater => flags.c() != flags.n(),
            ConditionCode::SignedGreaterOrEq => (flags.c() != flags.n()) || flags.z(),
            ConditionCode::Above => !flags.c() && !flags.z(),
            ConditionCode::NotOverflow => !flags.v(),
            ConditionCode::NotZero => !flags.z(),
            ConditionCode::NotCarry => !flags.c(),
            ConditionCode::Always => true,
        }
    }
}

/// Condition codes come in complementary pairs: the code whose encoding is
/// `15 - c` holds exactly when `c` does not. The encoding round-trips.
pub proof fn lemma_condition_complement(c: ConditionCode, f: u32)
    ensures
        ConditionCode::spec_from_bits((15 - c.spec_bits()) as u8).holds(f) == !c.holds(f),
        ConditionCode::spec_from_bits(c.spec_bits()) == c,
{
}

/// What each condition tests, in terms of the flag bits carry (bit 0),
/// overflow (bit 1), negative (bit 2) and zero (bit 3): in particular
/// `Overflow` holds exactly when bit 1 is set and `NotOverflow` exactly when
/// it is clear, whatever the other bits.
pub proof fn lemma_condition_table(f: u32)
    ensures
        !ConditionCode::Never.holds(f),
        ConditionCode::Carry.holds(f) == (f & 1u32 != 0),
        ConditionCode::Zero.holds(f) == (f & 8u32 != 0),
        ConditionCode::Overflow.holds(f) == (f & 2u32 != 0),
        ConditionCode::CarryOrEqual.holds(f) == (f & 1u32 != 0 || f & 8u32 != 0),
        ConditionCode::SignedLess.holds(f) == ((f & 1u32 != 0) == (f & 4u32 != 0) && f & 8u32 == 0),
        ConditionCode::SignedLessOrEq.holds(f) == ((f & 1u32 != 0) == (f & 4u32 != 0)),
        ConditionCode::Negative.holds(f) == (f & 4u32 != 0),
        ConditionCode::Positive.holds(f) == (f & 4u32 == 0),
        ConditionCode::SignedGreater.holds(f) == ((f & 1u32 != 0) != (f & 4u32 != 0)),
        ConditionCode::SignedGreaterOrEq.holds(f) == ((f & 1u32 != 0) != (f & 4u32 != 0) || f & 8u32 != 0),
        ConditionCode::Above.holds(f) == (f & 1u32 == 0 && f & 8u32 == 0),
        ConditionCode::NotOverflow.holds(f) == (f & 2u32 == 0),
        ConditionCode::NotZero.holds(f) == (f & 8u32 == 0),
        ConditionCode::NotCarry.holds(f) == (f & 1u32 == 0),
        ConditionCode::Always.holds(f),
{
}

/// How a memory access updates its address register.
#[derive(Copy, Clone, Debug, Hash, PartialEq, Eq, Structural)]
pub enum UpdateMode {
    NoUpdate,
    PostInc,
    _Reserved,
    PreDec,
}

impl UpdateMode {
    pub open spec fn spec_from_bits(v: u8) -> UpdateMode {
        if v == 0 {
            UpdateMode::NoUpdate
        } else if v == 1 {
            UpdateMode::PostInc
        } else if v == 2 {
            UpdateMode::_Reserved
        } else {
            UpdateMode::PreDec
        }
    }

    /// Decodes a 2-bit field value.
    pub fn from_bits(v: u8) -> (r: UpdateMode)
        requires
            v < 4,
        ensures
            r == UpdateMode::spec_from_bits(v),
    {
        match v {
            0 => UpdateMode::NoUpdate,
            1 => UpdateMode::PostInc,
            2 => UpdateMode::_Reserved,
            _ => UpdateMode::PreDec,
        }
    }
}

/// The memory ordering of an access or fence.
#[derive(Copy, Clone, Debug, Hash, PartialEq, Eq, Structural)]
pub enum MemOrdering {
    Relaxed,
    Acquire,
    Release,
    SeqCst,
}

impl MemOrdering {
    pub open spec fn spec_from_bits(v: u8) -> MemOrdering {
        if v == 0 {
            MemOrdering::Relaxed
        } else if v == 1 {
            MemOrdering::Acquire
        } else if v == 2 {
            MemOrdering::Release
        } else {
            MemOrdering::SeqCst
        }
    }

    /// Decodes a 2-bit field value.
    pub fn from_bits(v: u8) -> (r: MemOrdering)
        requires
            v < 4,
        ensures
            r == MemOrdering::spec_from_bits(v),
    {
        match v {
            0 => MemOrdering::Relaxed,
            1 => MemOrdering::Acquire,
            2 => MemOrdering::Release,
            _ => MemOrdering::SeqCst,
        }
    }
}

/// The width of a memory access.
#[derive(Copy, Clone, Debug, Hash, PartialEq, Eq, Structural)]
pub enum MemWidth {
    Byte,
    Half,
    Word,
    Double,
}

impl MemWidth {
    pub open spec fn spec_from_bits(v: u8) -> MemWidth {
        if v == 0 {
            MemWidth::Byte
        } else if v == 1 {
            MemWidth::Half
        } else if v == 2 {
            MemWidth::Word
        } else {
            MemWidth::Double
        }
    }

    /// The address bits that must be clear for an access of this width.
    pub open spec fn spec_amask(self) -> u32 {
        match self {
            MemWidth::Byte => 0,
            MemWidth::Half => 1,
            MemWidth::Word => 3,
            MemWidth::Double => 7,
        }
    }

    /// Decodes a 2-bit field value.
    pub fn from_bits(v: u8) -> (r: MemWidth)
        requires
            v < 4,
        ensures
            r == MemWidth::spec_from_bits(v),
    {
        match v {
            0 => MemWidth::Byte,
            1 => MemWidth::Half,
            2 => MemWidth::Word,
            _ => MemWidth::Double,
        }
    }

    /// The address bits that must be clear for an access of this width.
    pub fn amask(&self) -> (r: u32)
        ensures
            r == self.spec_amask(),
    {
        match self {
            MemWidth::Byte => 0,
            MemWidth::Half => 1,
            MemWidth::Word => 3,
            MemWidth::Double => 7,
        }
    }
}

// ---------------------------------------------------------------------------
// Instructions.
// ---------------------------------------------------------------------------

/// The fields of a coprocessor instruction: its opcode byte, function and parameter.
#[derive(Copy, Clone, Debug, Hash, PartialEq, Eq)]
pub struct CpiPayload {
    pub opcode: u8,
    pub f: u8,
    pub p: u32,
}

impl CpiPayload {
    /// The coprocessor addressed: bits 0..2 of the opcode byte.
    pub fn coprocessor(&self) -> (r: u8)
        ensures
            r == self.opcode & 3u8,
            r < 4,
    {
        let o = self.opcode;
        proof {
            assert(o & 3u8 < 4) by (bit_vector);
        }
        o & 3u8
    }

    /// Whether the instruction does not wait for the coprocessor: bit 2 of the opcode byte.
    pub fn nonblocking(&self) -> (r: bool)
        ensures
            r == (self.opcode & 4u8 != 0),
    {
        self.opcode & 4u8 != 0
    }
}

/// The fields of a coprocessor instruction: its opcode byte, function and parameter.
#[derive(Copy, Clone, Debug, Hash, PartialEq, Eq)]
pub struct CpiEfPayload {
    pub opcode: u8,
    pub f: u8,
    pub p: u32,
}

impl CpiEfPayload {
    /// The coprocessor addressed: bits 0..2 of the opcode byte.
    pub fn coprocessor(&self) -> (r: u8)
        ensures
            r == self.opcode & 3u8,
            r < 4,
    {
        let o = self.opcode;
        proof {
            assert(o & 3u8 < 4) by (bit_vector);
        }
        o & 3u8
    }

    /// Whether the instruction does not wait for the coprocessor: bit 2 of the opcode byte.
    pub fn nonblocking(&self) -> (r: bool)
        ensures
            r == (self.opcode & 4u8 != 0),
    {
        self.opcode & 4u8 != 0
    }
}

/// A decoded Skyarch instruction, one variant per opcode, holding its fields.
#[derive(Copy, Clone, Debug, Hash, PartialEq, Eq)]
pub enum SkyarchInstr {
    /// An undefined all-zero opcode.
    Und00 { ing: u32 },
    /// An undefined all-ones opcode.
    UndFF { ing: u32 },
    /// Pause hint.
    Pause { k: u8 },
    /// Conditional move between a general purpose register and a register map.
    Mov { dest: SkyarchRegno, cc: ConditionCode, l: bool, src: SkyarchRegno, dir: bool, map: RegMap },
    /// Store to the address in `dest`.
    St { dest: SkyarchRegno, src: SkyarchRegno, width: MemWidth, mode: UpdateMode, order: MemOrdering },
    /// Load from the address in `src`.
    Ld { dest: SkyarchRegno, src: SkyarchRegno, width: MemWidth, mode: UpdateMode, order: MemOrdering },
    /// Load a 16-bit immediate.
    Ldi { dest: SkyarchRegno, x: bool, i: u16 },
    /// Load an address relative to the instruction.
    Lra { dest: SkyarchRegno, x: bool, o: u16 },
    /// Add an immediate.
    Addi { dest: SkyarchRegno, x: bool, f: bool, h: bool, i: u16 },
    /// Add two shifted registers.
    Add { dest: SkyarchRegno, a: SkyarchRegno, b: SkyarchRegno, f: bool, s: u8, p: bool, c: bool },
    /// Subtract two shifted registers.
    Sub { dest: SkyarchRegno, a: SkyarchRegno, b: SkyarchRegno, f: bool, s: u8, p: bool, c: bool },
    /// Bitwise and.
    And { dest: SkyarchRegno, a: SkyarchRegno, b: SkyarchRegno, f: bool, s: u8, p: bool, i: bool, j: bool },
    /// Bitwise or.
    Or { dest: SkyarchRegno, a: SkyarchRegno, b: SkyarchRegno, f: bool, s: u8, p: bool, i: bool, j: bool },
    /// The exclusive-or opcode; it combines its two operands with bitwise and.
    Xor { dest: SkyarchRegno, a: SkyarchRegno, b: SkyarchRegno, f: bool, s: u8, p: bool, i: bool, j: bool },
    /// Funnel shift left.
    Fsl { dest: SkyarchRegno, v: SkyarchRegno, q: SkyarchRegno, f: bool, x: bool, w: bool, r: SkyarchRegno },
    /// Funnel shift right.
    Fsr { dest: SkyarchRegno, v: SkyarchRegno, q: SkyarchRegno, f: bool, x: bool, w: bool, r: SkyarchRegno },
    /// Conditional relative jump and link.
    Jmp { l: SkyarchRegno, cc: ConditionCode, off: u16, offx: bool },
    /// Conditional jump and link to the address in a register.
    Jmpr { l: SkyarchRegno, cc: ConditionCode, r: SkyarchRegno },
    /// Return from an interrupt through return register `p - 1`.
    Iret { p: u8 },
    /// Shift bits from a port into an I/O shift register.
    In { d: SkyarchRegno, p: u8, w: u32 },
    /// Shift bits out of an I/O shift register to a port.
    Out { s: SkyarchRegno, p: u8, w: u32 },
    /// Writes the flag mask `fmask` itself into a register.
    Ldflags { d: SkyarchRegno, fmask: u8 },
    /// Store a register into the flags.
    Stflags { s: SkyarchRegno, fmask: u8 },
    /// Exchange the overflow and parity flags.
    Xvp,
    /// Exchange two registers.
    Xchg { a: SkyarchRegno, cc: ConditionCode, l: bool, b: SkyarchRegno },
    /// Extend the low `width` bits of a register.
    Ext { dest: SkyarchRegno, src: SkyarchRegno, x: bool, width: u32 },
    /// Reverse the bytes of a register.
    Bswap { dest: SkyarchRegno, src: SkyarchRegno },
    /// Generate random bits.
    Rbgen { dest: SkyarchRegno, err: SkyarchRegno, f: bool, width: u32 },
    /// Coprocessor instruction.
    Cpi(CpiPayload),
    /// Coprocessor instruction with extended function.
    CpiEf(CpiEfPayload),
    /// Halt, or pause until an interrupt in mask `m`.
    Halt { m: u8 },
    /// Breakpoint.
    Breakpoint,
    /// Memory fence.
    Fence { rr: MemOrdering },
    /// Store conditional.
    Stic { dest: SkyarchRegno, src: SkyarchRegno, width: MemWidth, f: bool, order: MemOrdering },
    /// Load linked.
    Ldil { dest: SkyarchRegno, src: SkyarchRegno, width: MemWidth, order: MemOrdering },
    /// Store conditional of a register pair.
    Sticw { dest: SkyarchRegno, src: SkyarchRegno, src2: SkyarchRegno, f: bool, order: MemOrdering },
    /// Load linked of a register pair.
    Ldilw { dest: SkyarchRegno, src: SkyarchRegno, dest2: SkyarchRegno, order: MemOrdering },
}

impl SkyarchInstr {
    /// Every numeric field fits the width of its bit field.
    pub open spec fn well_formed(self) -> bool {
        match self {
            SkyarchInstr::Und00 { ing, .. } => ing <= 0xFF_FFFF,
            SkyarchInstr::UndFF { ing, .. } => ing <= 0xFF_FFFF,
            SkyarchInstr::Pause { k, .. } => k <= 0x3F,
            SkyarchInstr::Ldi { i, .. } => i <= 0xFFFF,
            SkyarchInstr::Lra { o, .. } => o <= 0xFFFF,
            SkyarchInstr::Addi { i, .. } => i <= 0xFFFF,
            SkyarchInstr::Add { s, .. } => s <= 0x1F,
            SkyarchInstr::Sub { s, .. } => s <= 0x1F,
            SkyarchInstr::And { s, .. } => s <= 0x1F,
            SkyarchInstr::Or { s, .. } => s <= 0x1F,
            SkyarchInstr::Xor { s, .. } => s <= 0x1F,
            SkyarchInstr::Jmp { off, .. } => off <= 0x3FFF,
            SkyarchInstr::Iret { p, .. } => p <= 0x3,
            SkyarchInstr::In { p, w, .. } => p <= 0xFF && w <= 0x1F,
            SkyarchInstr::Out { p, w, .. } => p <= 0xFF && w <= 0x1F,
            SkyarchInstr::Ldflags { fmask, .. } => fmask <= 0x1F,
            SkyarchInstr::Stflags { fmask, .. } => fmask <= 0x1F,
            SkyarchInstr::Ext { width, .. } => width <= 0x1F,
            SkyarchInstr::Rbgen { width, .. } => width <= 0x1F,
            SkyarchInstr::Cpi(pl) => pl.f <= 0xF && pl.p <= 0xF_FFFF,
            SkyarchInstr::CpiEf(pl) => pl.f <= 0x3F && pl.p <= 0x3_FFFF,
            SkyarchInstr::Halt { m, .. } => m <= 0x3,
            _ => true,
        }
    }

    /// The instruction that a word encodes, if its opcode is defined. The opcode
    /// is the low byte; a coprocessor opcode matches when it equals 0x20 once
    /// bit 4 is cleared.
    pub open spec fn decoded(w: u32) -> Option<SkyarchInstr> {
        let op = (w & 0xFFu32) as u8;
        if op == 0x00u8 {
            Some(SkyarchInstr::Und00 { ing: field(w, 8, 0xFF_FFFF) })
        } else if op == 0xFFu8 {
            Some(SkyarchInstr::UndFF { ing: field(w, 8, 0xFF_FFFF) })
        } else if op == 0x01u8 {
            Some(SkyarchInstr::Pause { k: field(w, 8, 0x3F) as u8 })
        } else if op == 0x02u8 {
            Some(SkyarchInstr::Mov { dest: SkyarchRegno::spec_from_bits(field(w, 8, 31) as u8), cc: ConditionCode::spec_from_bits(field(w, 13, 15) as u8), l: bit(w, 17), src: SkyarchRegno::spec_from_bits(field(w, 18, 31) as u8), dir: bit(w, 25), map: RegMap::spec_from_bits(field(w, 26, 15) as u8) })
        } else if op == 0x03u8 {
            Some(SkyarchInstr::St { dest: SkyarchRegno::spec_from_bits(field(w, 8, 31) as u8), src: SkyarchRegno::spec_from_bits(field(w, 13, 31) as u8), width: MemWidth::spec_from_bits(field(w, 18, 3) as u8), mode: UpdateMode::spec_from_bits(field(w, 28, 3) as u8), order: MemOrdering::spec_from_bits(field(w, 30, 3) as u8) })
        } else if op == 0x04u8 {
            Some(SkyarchInstr::Ld { dest: SkyarchRegno::spec_from_bits(field(w, 8, 31) as u8), src: SkyarchRegno::spec_from_bits(field(w, 13, 31) as u8), width: MemWidth::spec_from_bits(field(w, 18, 3) as u8), mode: UpdateMode::spec_from_bits(field(w, 28, 3) as u8), order: MemOrdering::spec_from_bits(field(w, 30, 3) as u8) })
        } else if op == 0x05u8 {
            Some(SkyarchInstr::Ldi { dest: SkyarchRegno::spec_from_bits(field(w, 8, 31) as u8), x: bit(w, 13), i: field(w, 16, 0xFFFF) as u16 })
        } else if op == 0x06u8 {
            Some(SkyarchInstr::Lra { dest: SkyarchRegno::spec_from_bits(field(w, 8, 31) as u8), x: bit(w, 13), o: field(w, 16, 0xFFFF) as u16 })
        } else if op == 0x08u8 {
            Some(SkyarchInstr::Addi { dest: SkyarchRegno::spec_from_bits(field(w, 8, 31) as u8), x: bit(w, 13), f: bit(w, 14), h: bit(w, 15), i: field(w, 16, 0xFFFF) as u16 })
        } else if op == 0x09u8 {
            Some(SkyarchInstr::Add { dest: SkyarchRegno::spec_from_bits(field(w, 8, 31) as u8), a: SkyarchRegno::spec_from_bits(field(w, 13, 31) as u8), b: SkyarchRegno::spec_from_bits(field(w, 18, 31) as u8), f: bit(w, 23), s: field(w, 24, 0x1F) as u8, p: bit(w, 29), c: bit(w, 31) })
        } else if op == 0x0Au8 {
            Some(SkyarchInstr::Sub { dest: SkyarchRegno::spec_from_bits(field(w, 8, 31) as u8), a: SkyarchRegno::spec_from_bits(field(w, 13, 31) as u8), b: SkyarchRegno::spec_from_bits(field(w, 18, 31) as u8), f: bit(w, 23), s: field(w, 24, 0x1F) as u8, p: bit(w, 29), c: bit(w, 31) })
        } else if op == 0x0Bu8 {
            Some(SkyarchInstr::And { dest: SkyarchRegno::spec_from_bits(field(w, 8, 31) as u8), a: SkyarchRegno::spec_from_bits(field(w, 13, 31) as u8), b: SkyarchRegno::spec_from_bits(field(w, 18, 31) as u8), f: bit(w, 23), s: field(w, 24, 0x1F) as u8, p: bit(w, 29), i: bit(w, 30), j: bit(w, 31) })
        } else if op == 0x0Cu8 {
            Some(SkyarchInstr::Or { dest: SkyarchRegno::spec_from_bits(field(w, 8, 31) as u8), a: SkyarchRegno::spec_from_bits(field(w, 13, 31) as u8), b: SkyarchRegno::spec_from_bits(field(w, 18, 31) as u8), f: bit(w, 23), s: field(w, 24, 0x1F) as u8, p: bit(w, 29), i: bit(w, 30), j: bit(w, 31) })
        } else if op == 0x0Du8 {
            Some(SkyarchInstr::Xor { dest: SkyarchRegno::spec_from_bits(field(w, 8, 31) as u8), a: SkyarchRegno::spec_from_bits(field(w, 13, 31) as u8), b: SkyarchRegno::spec_from_bits(field(w, 18, 31) as u8), f: bit(w, 23), s: field(w, 24, 0x1F) as u8, p: bit(w, 29), i: bit(w, 30), j: bit(w, 31) })
        } else if op == 0x0Eu8 {
            Some(SkyarchInstr::Fsl { dest: SkyarchRegno::spec_from_bits(field(w, 8, 31) as u8), v: SkyarchRegno::spec_from_bits(field(w, 13, 31) as u8), q: SkyarchRegno::spec_from_bits(field(w, 18, 31) as u8), f: bit(w, 23), x: bit(w, 24), w: bit(w, 26), r: SkyarchRegno::spec_from_bits(field(w, 27, 31) as u8) })
        } else if op == 0x0Fu8 {
            Some(SkyarchInstr::Fsr { dest: SkyarchRegno::spec_from_bits(field(w, 8, 31) as u8), v: SkyarchRegno::spec_from_bits(field(w, 13, 31) as u8), q: SkyarchRegno::spec_from_bits(field(w, 18, 31) as u8), f: bit(w, 23), x: bit(w, 24), w: bit(w, 26), r: SkyarchRegno::spec_from_bits(field(w, 27, 31) as u8) })
        } else if op == 0x10u8 {
            Some(SkyarchInstr::Jmp { l: SkyarchRegno::spec_from_bits(field(w, 8, 31) as u8), cc: ConditionCode::spec_from_bits(field(w, 13, 15) as u8), off: field(w, 17, 0x3FFF) as u16, offx: bit(w, 31) })
        } else if op == 0x11u8 {
            Some(SkyarchInstr::Jmpr { l: SkyarchRegno::spec_from_bits(field(w, 8, 31) as u8), cc: ConditionCode::spec_from_bits(field(w, 13, 15) as u8), r: SkyarchRegno::spec_from_bits(field(w, 18, 31) as u8) })
        } else if op == 0x12u8 {
            Some(SkyarchInstr::Iret { p: field(w, 18, 0x3) as u8 })
        } else if op == 0x14u8 {
            Some(SkyarchInstr::In { d: SkyarchRegno::spec_from_bits(field(w, 8, 31) as u8), p: field(w, 13, 0xFF) as u8, w: field(w, 27, 0x1F) })
        } else if op == 0x15u8 {
            Some(SkyarchInstr::Out { s: SkyarchRegno::spec_from_bits(field(w, 8, 31) as u8), p: field(w, 13, 0xFF) as u8, w: field(w, 27, 0x1F) })
        } else if op == 0x18u8 {
            Some(SkyarchInstr::Ldflags { d: SkyarchRegno::spec_from_bits(field(w, 8, 31) as u8), fmask: field(w, 13, 0x1F) as u8 })
        } else if op == 0x19u8 {
            Some(SkyarchInstr::Stflags { s: SkyarchRegno::spec_from_bits(field(w, 8, 31) as u8), fmask: field(w, 13, 0x1F) as u8 })
        } else if op == 0x1Au8 {
            Some(SkyarchInstr::Xvp)
        } else if op == 0x1Cu8 {
            Some(SkyarchInstr::Xchg { a: SkyarchRegno::spec_from_bits(field(w, 8, 31) as u8), cc: ConditionCode::spec_from_bits(field(w, 13, 15) as u8), l: bit(w, 17), b: SkyarchRegno::spec_from_bits(field(w, 18, 31) as u8) })
        } else if op == 0x1Du8 {
            Some(SkyarchInstr::Ext { dest: SkyarchRegno::spec_from_bits(field(w, 8, 31) as u8), src: SkyarchRegno::spec_from_bits(field(w, 13, 31) as u8), x: bit(w, 18), width: field(w, 27, 0x1F) })
        } else if op == 0x1Eu8 {
            Some(SkyarchInstr::Bswap { dest: SkyarchRegno::spec_from_bits(field(w, 8, 31) as u8), src: SkyarchRegno::spec_from_bits(field(w, 13, 31) as u8) })
        } else if op == 0x1Fu8 {
            Some(SkyarchInstr::Rbgen { dest: SkyarchRegno::spec_from_bits(field(w, 8, 31) as u8), err: SkyarchRegno::spec_from_bits(field(w, 18, 31) as u8), f: bit(w, 23), width: field(w, 27, 0x1F) })
        } else if op & 0xEFu8 == 0x20u8 {
            Some(SkyarchInstr::Cpi(CpiPayload { opcode: op, f: field(w, 8, 0xF) as u8, p: field(w, 12, 0xF_FFFF) }))
        } else if op & 0xEFu8 == 0x30u8 {
            Some(SkyarchInstr::CpiEf(CpiEfPayload { opcode: op, f: field(w, 8, 0x3F) as u8, p: field(w, 14, 0x3_FFFF) }))
        } else if op == 0x40u8 {
            Some(SkyarchInstr::Halt { m: field(w, 8, 0x3) as u8 })
        } else if op == 0x41u8 {
            Some(SkyarchInstr::Breakpoint)
        } else if op == 0x48u8 {
            Some(SkyarchInstr::Fence { rr: MemOrdering::spec_from_bits(field(w, 30, 3) as u8) })
        } else if op == 0x4Bu8 {
            Some(SkyarchInstr::Stic { dest: SkyarchRegno::spec_from_bits(field(w, 8, 31) as u8), src: SkyarchRegno::spec_from_bits(field(w, 13, 31) as u8), width: MemWidth::spec_from_bits(field(w, 18, 3) as u8), f: bit(w, 23), order: MemOrdering::spec_from_bits(field(w, 30, 3) as u8) })
        } else if op == 0x4Cu8 {
            Some(SkyarchInstr::Ldil { dest: SkyarchRegno::spec_from_bits(field(w, 8, 31) as u8), src: SkyarchRegno::spec_from_bits(field(w, 13, 31) as u8), width: MemWidth::spec_from_bits(field(w, 18, 3) as u8), order: MemOrdering::spec_from_bits(field(w, 30, 3) as u8) })
        } else if op == 0x4Du8 {
            Some(SkyarchInstr::Sticw { dest: SkyarchRegno::spec_from_bits(field(w, 8, 31) as u8), src: SkyarchRegno::spec_from_bits(field(w, 13, 31) as u8), src2: SkyarchRegno::spec_from_bits(field(w, 18, 31) as u8), f: bit(w, 23), order: MemOrdering::spec_from_bits(field(w, 30, 3) as u8) })
        } else if op == 0x4Eu8 {
            Some(SkyarchInstr::Ldilw { dest: SkyarchRegno::spec_from_bits(field(w, 8, 31) as u8), src: SkyarchRegno::spec_from_bits(field(w, 13, 31) as u8), dest2: SkyarchRegno::spec_from_bits(field(w, 18, 31) as u8), order: MemOrdering::spec_from_bits(field(w, 30, 3) as u8) })
        } else {
            None
        }
    }

    /// Decodes an instruction word; an undefined opcode raises `Undefined`.
    pub fn decode(w: u32) -> (r: Result<SkyarchInstr, SkyarchException>)
        ensures
            r == (match SkyarchInstr::decoded(w) {
                Some(i) => Ok(i),
                None => Err(SkyarchException::Undefined),
            }),
            r matches Ok(i) ==> i.well_formed(),
    {
        let op = (w & 0xFFu32) as u8;
        if op == 0x00u8 {
            Ok(SkyarchInstr::Und00 { ing: get_field(w, 8, 0xFF_FFFF) })
        } else if op == 0xFFu8 {
            Ok(SkyarchInstr::UndFF { ing: get_field(w, 8, 0xFF_FFFF) })
        } else if op == 0x01u8 {
            Ok(SkyarchInstr::Pause { k: small_at(w, 8, 0x3F) })
        } else if op == 0x02u8 {
            Ok(SkyarchInstr::Mov { dest: SkyarchRegno::from_bits(small_at(w, 8, 31)), cc: ConditionCode::from_bits(small_at(w, 13, 15)), l: get_bit(w, 17), src: SkyarchRegno::from_bits(small_at(w, 18, 31)), dir: get_bit(w, 25), map: RegMap::from_bits(small_at(w, 26, 15)) })
        } else if op == 0x03u8 {
            Ok(SkyarchInstr::St { dest: SkyarchRegno::from_bits(small_at(w, 8, 31)), src: SkyarchRegno::from_bits(small_at(w, 13, 31)), width: MemWidth::from_bits(small_at(w, 18, 3)), mode: UpdateMode::from_bits(small_at(w, 28, 3)), order: MemOrdering::from_bits(small_at(w, 30, 3)) })
        } else if op == 0x04u8 {
            Ok(SkyarchInstr::Ld { dest: SkyarchRegno::from_bits(small_at(w, 8, 31)), src: SkyarchRegno::from_bits(small_at(w, 13, 31)), width: MemWidth::from_bits(small_at(w, 18, 3)), mode: UpdateMode::from_bits(small_at(w, 28, 3)), order: MemOrdering::from_bits(small_at(w, 30, 3)) })
        } else if op == 0x05u8 {
            Ok(SkyarchInstr::Ldi { dest: SkyarchRegno::from_bits(small_at(w, 8, 31)), x: get_bit(w, 13), i: get_field(w, 16, 0xFFFF) as u16 })
        } else if op == 0x06u8 {
            Ok(SkyarchInstr::Lra { dest: SkyarchRegno::from_bits(small_at(w, 8, 31)), x: get_bit(w, 13), o: get_field(w, 16, 0xFFFF) as u16 })
        } else if op == 0x08u8 {
            Ok(SkyarchInstr::Addi { dest: SkyarchRegno::from_bits(small_at(w, 8, 31)), x: get_bit(w, 13), f: get_bit(w, 14), h: get_bit(w, 15), i: get_field(w, 16, 0xFFFF) as u16 })
        } else if op == 0x09u8 {
            Ok(SkyarchInstr::Add { dest: SkyarchRegno::from_bits(small_at(w, 8, 31)), a: SkyarchRegno::from_bits(small_at(w, 13, 31)), b: SkyarchRegno::from_bits(small_at(w, 18, 31)), f: get_bit(w, 23), s: small_at(w, 24, 0x1F), p: get_bit(w, 29), c: get_bit(w, 31) })
        } else if op == 0x0Au8 {
            Ok(SkyarchInstr::Sub { dest: SkyarchRegno::from_bits(small_at(w, 8, 31)), a: SkyarchRegno::from_bits(small_at(w, 13, 31)), b: SkyarchRegno::from_bits(small_at(w, 18, 31)), f: get_bit(w, 23), s: small_at(w, 24, 0x1F), p: get_bit(w, 29), c: get_bit(w, 31) })
        } else if op == 0x0Bu8 {
            Ok(SkyarchInstr::And { dest: SkyarchRegno::from_bits(small_at(w, 8, 31)), a: SkyarchRegno::from_bits(small_at(w, 13, 31)), b: SkyarchRegno::from_bits(small_at(w, 18, 31)), f: get_bit(w, 23), s: small_at(w, 24, 0x1F), p: get_bit(w, 29), i: get_bit(w, 30), j: get_bit(w, 31) })
        } else if op == 0x0Cu8 {
            Ok(SkyarchInstr::Or { dest: SkyarchRegno::from_bits(small_at(w, 8, 31)), a: SkyarchRegno::from_bits(small_at(w, 13, 31)), b: SkyarchRegno::from_bits(small_at(w, 18, 31)), f: get_bit(w, 23), s: small_at(w, 24, 0x1F), p: get_bit(w, 29), i: get_bit(w, 30), j: get_bit(w, 31) })
        } else if op == 0x0Du8 {
            Ok(SkyarchInstr::Xor { dest: SkyarchRegno::from_bits(small_at(w, 8, 31)), a: SkyarchRegno::from_bits(small_at(w, 13, 31)), b: SkyarchRegno::from_bits(small_at(w, 18, 31)), f: get_bit(w, 23), s: small_at(w, 24, 0x1F), p: get_bit(w, 29), i: get_bit(w, 30), j: get_bit(w, 31) })
        } else if op == 0x0Eu8 {
            Ok(SkyarchInstr::Fsl { dest: SkyarchRegno::from_bits(small_at(w, 8, 31)), v: SkyarchRegno::from_bits(small_at(w, 13, 31)), q: SkyarchRegno::from_bits(small_at(w, 18, 31)), f: get_bit(w, 23), x: get_bit(w, 24), w: get_bit(w, 26), r: SkyarchRegno::from_bits(small_at(w, 27, 31)) })
        } else if op == 0x0Fu8 {
            Ok(SkyarchInstr::Fsr { dest: SkyarchRegno::from_bits(small_at(w, 8, 31)), v: SkyarchRegno::from_bits(small_at(w, 13, 31)), q: SkyarchRegno::from_bits(small_at(w, 18, 31)), f: get_bit(w, 23), x: get_bit(w, 24), w: get_bit(w, 26), r: SkyarchRegno::from_bits(small_at(w, 27, 31)) })
        } else if op == 0x10u8 {
            Ok(SkyarchInstr::Jmp { l: SkyarchRegno::from_bits(small_at(w, 8, 31)), cc: ConditionCode::from_bits(small_at(w, 13, 15)), off: get_field(w, 17, 0x3FFF) as u16, offx: get_bit(w, 31) })
        } else if op == 0x11u8 {
            Ok(SkyarchInstr::Jmpr { l: SkyarchRegno::from_bits(small_at(w, 8, 31)), cc: ConditionCode::from_bits(small_at(w, 13, 15)), r: SkyarchRegno::from_bits(small_at(w, 18, 31)) })
        } else if op == 0x12u8 {
            Ok(SkyarchInstr::Iret { p: small_at(w, 18, 0x3) })
        } else if op == 0x14u8 {
            Ok(SkyarchInstr::In { d: SkyarchRegno::from_bits(small_at(w, 8, 31)), p: small_at(w, 13, 0xFF), w: get_field(w, 27, 0x1F) })
        } else if op == 0x15u8 {
            Ok(SkyarchInstr::Out { s: SkyarchRegno::from_bits(small_at(w, 8, 31)), p: small_at(w, 13, 0xFF), w: get_field(w, 27, 0x1F) })
        } else if op == 0x18u8 {
            Ok(SkyarchInstr::Ldflags { d: SkyarchRegno::from_bits(small_at(w, 8, 31)), fmask: small_at(w, 13, 0x1F) })
        } else if op == 0x19u8 {
            Ok(SkyarchInstr::Stflags { s: SkyarchRegno::from_bits(small_at(w, 8, 31)), fmask: small_at(w, 13, 0x1F) })
        } else if op == 0x1Au8 {
            Ok(SkyarchInstr::Xvp)
        } else if op == 0x1Cu8 {
            Ok(SkyarchInstr::Xchg { a: SkyarchRegno::from_bits(small_at(w, 8, 31)), cc: ConditionCode::from_bits(small_at(w, 13, 15)), l: get_bit(w, 17), b: SkyarchRegno::from_bits(small_at(w, 18, 31)) })
        } else if op == 0x1Du8 {
            Ok(SkyarchInstr::Ext { dest: SkyarchRegno::from_bits(small_at(w, 8, 31)), src: SkyarchRegno::from_bits(small_at(w, 13, 31)), x: get_bit(w, 18), width: get_field(w, 27, 0x1F) })
        } else if op == 0x1Eu8 {
            Ok(SkyarchInstr::Bswap { dest: SkyarchRegno::from_bits(small_at(w, 8, 31)), src: SkyarchRegno::from_bits(small_at(w, 13, 31)) })
        } else if op == 0x1Fu8 {
            Ok(SkyarchInstr::Rbgen { dest: SkyarchRegno::from_bits(small_at(w, 8, 31)), err: SkyarchRegno::from_bits(small_at(w, 18, 31)), f: get_bit(w, 23), width: get_field(w, 27, 0x1F) })
        } else if op & 0xEFu8 == 0x20u8 {
            Ok(SkyarchInstr::Cpi(CpiPayload { opcode: op, f: small_at(w, 8, 0xF), p: get_field(w, 12, 0xF_FFFF) }))
        } else if op & 0xEFu8 == 0x30u8 {
            Ok(SkyarchInstr::CpiEf(CpiEfPayload { opcode: op, f: small_at(w, 8, 0x3F), p: get_field(w, 14, 0x3_FFFF) }))
        } else if op == 0x40u8 {
            Ok(SkyarchInstr::Halt { m: small_at(w, 8, 0x3) })
        } else if op == 0x41u8 {
            Ok(SkyarchInstr::Breakpoint)
        } else if op == 0x48u8 {
            Ok(SkyarchInstr::Fence { rr: MemOrdering::from_bits(small_at(w, 30, 3)) })
        } else if op == 0x4Bu8 {
            Ok(SkyarchInstr::Stic { dest: SkyarchRegno::from_bits(small_at(w, 8, 31)), src: SkyarchRegno::from_bits(small_at(w, 13, 31)), width: MemWidth::from_bits(small_at(w, 18, 3)), f: get_bit(w, 23), order: MemOrdering::from_bits(small_at(w, 30, 3)) })
        } else if op == 0x4Cu8 {
            Ok(SkyarchInstr::Ldil { dest: SkyarchRegno::from_bits(small_at(w, 8, 31)), src: SkyarchRegno::from_bits(small_at(w, 13, 31)), width: MemWidth::from_bits(small_at(w, 18, 3)), order: MemOrdering::from_bits(small_at(w, 30, 3)) })
        } else if op == 0x4Du8 {
            Ok(SkyarchInstr::Sticw { dest: SkyarchRegno::from_bits(small_at(w, 8, 31)), src: SkyarchRegno::from_bits(small_at(w, 13, 31)), src2: SkyarchRegno::from_bits(small_at(w, 18, 31)), f: get_bit(w, 23), order: MemOrdering::from_bits(small_at(w, 30, 3)) })
        } else if op == 0x4Eu8 {
            Ok(SkyarchInstr::Ldilw { dest: SkyarchRegno::from_bits(small_at(w, 8, 31)), src: SkyarchRegno::from_bits(small_at(w, 13, 31)), dest2: SkyarchRegno::from_bits(small_at(w, 18, 31)), order: MemOrdering::from_bits(small_at(w, 30, 3)) })
        } else {
            Err(SkyarchException::Undefined)
        }
    }
}


pub open spec fn refuse(bad: bool) -> Result<(), SkyarchException> {
    if bad {
        Err(SkyarchException::Undefined)
    } else {
        Ok(())
    }
}

impl SkyarchInstr {
    /// Whether a decoded instruction may be executed in the given register
    /// state: encodings that are reserved, or that name a disabled
    /// coprocessor, raise `Undefined`.
    pub open spec fn validation(self, v: Seq<Seq<u32>>) -> Result<(), SkyarchException> {
        match self {
            SkyarchInstr::Und00 { .. } | SkyarchInstr::UndFF { .. } => Err(SkyarchException::Undefined),
            SkyarchInstr::St { dest, width, mode, order, .. } => refuse(
                dest@ == 0 || order == MemOrdering::Acquire || mode == UpdateMode::_Reserved
                    || width == MemWidth::Double,
            ),
            SkyarchInstr::Ld { src, width, mode, order, .. } => refuse(
                src@ == 0 || order == MemOrdering::Release || mode == UpdateMode::_Reserved
                    || width == MemWidth::Double,
            ),
            SkyarchInstr::Addi { h, x, .. } => refuse(h && x),
            SkyarchInstr::Jmpr { r, .. } => refuse(r@ == 0),
            SkyarchInstr::Iret { p } => refuse(p == 0),
            SkyarchInstr::Ext { width, .. } => refuse(width == 0),
            SkyarchInstr::Rbgen { f, .. } => refuse(!f),
            SkyarchInstr::Cpi(pl) => copro_check(v, pl.opcode & 3u8),
            SkyarchInstr::CpiEf(pl) => copro_check(v, pl.opcode & 3u8),
            SkyarchInstr::Fence { rr } => refuse(rr == MemOrdering::Relaxed),
            SkyarchInstr::Stic { dest, width, f, order, .. } => refuse(
                dest@ == 0 || order == MemOrdering::Acquire || width == MemWidth::Double || !f,
            ),
            SkyarchInstr::Sticw { dest, f, order, .. } => refuse(
                dest@ == 0 || order == MemOrdering::Acquire || !f,
            ),
            SkyarchInstr::Ldil { src, width, order, .. } => refuse(
                src@ == 0 || order == MemOrdering::Release || width == MemWidth::Double,
            ),
            SkyarchInstr::Ldilw { src, order, .. } => refuse(
                src@ == 0 || order == MemOrdering::Release,
            ),
            _ => Ok(()),
        }
    }

    /// Checks that a decoded instruction may be executed in the given register state.
    pub fn validate(&self, regs: &SkyarchRegisters) -> (r: Result<(), SkyarchException>)
        ensures
            r == self.validation(regs@),
    {
        match self {
            SkyarchInstr::Und00 { .. } | SkyarchInstr::UndFF { .. } => Err(SkyarchException::Undefined),
            SkyarchInstr::St { dest, width, mode, order, .. } => {
                if dest.get() == 0 {
                    Err(SkyarchException::Undefined)
                } else if *order == MemOrdering::Acquire {
                    Err(SkyarchException::Undefined)
                } else if *mode == UpdateMode::_Reserved {
                    Err(SkyarchException::Undefined)
                } else if *width == MemWidth::Double {
                    Err(SkyarchException::Undefined)
                } else {
                    Ok(())
                }
            },
            SkyarchInstr::Ld { src, width, mode, order, .. } => {
                if src.get() == 0 {
                    Err(SkyarchException::Undefined)
                } else if *order == MemOrdering::Release {
                    Err(SkyarchException::Undefined)
                } else if *mode == UpdateMode::_Reserved {
                    Err(SkyarchException::Undefined)
                } else if *width == MemWidth::Double {
                    Err(SkyarchException::Undefined)
                } else {
                    Ok(())
                }
            },
            SkyarchInstr::Addi { h, x, .. } => {
                if *h && *x {
                    Err(SkyarchException::Undefined)
                } else {
                    Ok(())
                }
            },
            SkyarchInstr::Jmpr { r, .. } => {
                if r.get() == 0 {
                    Err(SkyarchException::Undefined)
                } else {
                    Ok(())
                }
            },
            SkyarchInstr::Iret { p } => {
                if *p == 0 {
                    Err(SkyarchException::Undefined)
                } else {
                    Ok(())
                }
            },
            SkyarchInstr::Ext { width, .. } => {
                if *width == 0 {
                    Err(SkyarchException::Undefined)
                } else {
                    Ok(())
                }
            },
            SkyarchInstr::Rbgen { f, .. } => {
                if !*f {
                    Err(SkyarchException::Undefined)
                } else {
                    Ok(())
                }
            },
            SkyarchInstr::Cpi(pl) => regs.coprocessor_enabled(pl.coprocessor()),
            SkyarchInstr::CpiEf(pl) => regs.coprocessor_enabled(pl.coprocessor()),
            SkyarchInstr::Fence { rr } => {
                if *rr == MemOrdering::Relaxed {
                    Err(SkyarchException::Undefined)
                } else {
                    Ok(())
                }
            },
            SkyarchInstr::Stic { dest, width, f, order, .. } => {
                if dest.get() == 0 {
                    Err(SkyarchException::Undefined)
                } else if *order == MemOrdering::Acquire {
                    Err(SkyarchException::Undefined)
                } else if *width == MemWidth::Double {
                    Err(SkyarchException::Undefined)
                } else if !*f {
                    Err(SkyarchException::Undefined)
                } else {
                    Ok(())
                }
            },
            SkyarchInstr::Sticw { dest, f, order, .. } => {
                if dest.get() == 0 {
                    Err(SkyarchException::Undefined)
                } else if *order == MemOrdering::Acquire {
                    Err(SkyarchException::Undefined)
                } else if !*f {
                    Err(SkyarchException::Undefined)
                } else {
                    Ok(())
                }
            },
            SkyarchInstr::Ldil { src, width, order, .. } => {
                if src.get() == 0 {
                    Err(SkyarchException::Undefined)
                } else if *order == MemOrdering::Release {
                    Err(SkyarchException::Undefined)
                } else if *width == MemWidth::Double {
                    Err(SkyarchException::Undefined)
                } else {
                    Ok(())
                }
            },
            SkyarchInstr::Ldilw { src, order, .. } => {
                if src.get() == 0 {
                    Err(SkyarchException::Undefined)
                } else if *order == MemOrdering::Release {
                    Err(SkyarchException::Undefined)
                } else {
                    Ok(())
                }
            },
            _ => Ok(()),
        }
    }
}

} // verus!
