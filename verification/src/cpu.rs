use vstd::prelude::*;

use crate::except::SkyarchException;
use crate::instr::{MemWidth, SkyarchInstr};
use crate::intr::{Intctl, IntSlot, Intret};
use crate::regs::{
    RegMap, SkyarchFlags, SkyarchRegisters, SkyarchRegno, check_write_spec, flag_c, funnel_shl,
    funnel_shl_spec, funnel_shr, funnel_shr_spec, gpr_write, read_spec, reg_write, regs_wf,
    shift_spec, with_bit, write_spec, xvp_spec,
};

verus! {

// ---------------------------------------------------------------------------
// Value helpers.
// ---------------------------------------------------------------------------

/// A 16-bit immediate widened to 32 bits, with the high half all ones when `x`.
pub open spec fn ext16(val: u16, x: bool) -> u32 {
    (val as u32) | (if x { 0xFFFF_0000u32 } else { 0u32 })
}

/// 32-bit addition that wraps around.
pub open spec fn wadd(a: u32, b: u32) -> u32 {
    vstd::wrapping::u32_specs::wrapping_add(a, b)
}

/// 32-bit subtraction that wraps around.
pub open spec fn wsub(a: u32, b: u32) -> u32 {
    vstd::wrapping::u32_specs::wrapping_sub(a, b)
}

/// The low `width` bits of `val`, with the bits above filled from the mask
/// that the extension instruction computes from bit `width - 1`.
pub open spec fn dyn_ext(val: u32, width: u32, sign_ext: bool) -> u32 {
    let sbit: u32 = if sign_ext { 1 } else { 0 };
    let mask = wsub((val & (sbit << ((width - 1) as u32))) << ((31 - width) as u32), 1);
    (val & (((1u32 << width) - 1) as u32)) | (mask << width)
}

/// The bytes of `x` in reverse order.
pub open spec fn bswap(x: u32) -> u32 {
    ((x & 0xFFu32) << 24u32) | ((x & 0xFF00u32) << 8u32) | ((x >> 8u32) & 0xFF00u32) | (x >> 24u32)
}

fn extend(val: u16, x: bool) -> (r: u32)
    ensures
        r == ext16(val, x),
{
    (val as u32) | (if x { 0xFFFF_0000u32 } else { 0u32 })
}

fn dyn_extend(val: u32, width: u32, sign_ext: bool) -> (r: u32)
    requires
        1 <= width <= 31,
    ensures
        r == dyn_ext(val, width, sign_ext),
{
    let sbit: u32 = if sign_ext { 1 } else { 0 };
    let mask = ((val & (sbit << (width - 1))) << (31 - width)).wrapping_sub(1);
    proof {
        assert(1 <= width <= 31 ==> (1u32 << width) >= 1u32) by (bit_vector);
    }
    (val & ((1u32 << width) - 1)) | (mask << width)
}

fn byte_swap(x: u32) -> (r: u32)
    ensures
        r == bswap(x),
{
    ((x & 0xFFu32) << 24u32) | ((x & 0xFF00u32) << 8u32) | ((x >> 8u32) & 0xFF00u32) | (x >> 24u32)
}

/// Reversing the bytes twice gives the word back.
pub proof fn lemma_bswap_involution(x: u32)
    ensures
        bswap(bswap(x)) == x,
{
    assert(bswap(bswap(x)) == x) by (bit_vector);
}

/// The extension keeps the low `width` bits of the value and, for widths of
/// at least two bits, sets every bit above them, whether or not sign
/// extension is requested and whatever the sign bit.
pub proof fn lemma_dyn_ext(val: u32, width: u32, sign_ext: bool)
    requires
        2 <= width <= 31,
    ensures
        dyn_ext(val, width, sign_ext) == (val & (((1u32 << width) - 1) as u32)) | (0xFFFF_FFFFu32 << width),
{
    let sbit: u32 = if sign_ext { 1 } else { 0 };
    let inner = (val & (sbit << ((width - 1) as u32))) << ((31 - width) as u32);
    assert(2 <= width <= 31 && (sbit == 0 || sbit == 1) && inner == (val & (sbit << ((width - 1) as u32))) << ((31 - width) as u32)
        ==> vstd::wrapping::u32_specs::wrapping_sub(inner, 1) << width == 0xFFFF_FFFFu32 << width) by (bit_vector);
}

/// A widened immediate keeps the immediate in its low half and fills its
/// high half with ones exactly when `x`.
pub proof fn lemma_ext16(val: u16, x: bool)
    ensures
        ext16(val, x) & 0xFFFFu32 == val as u32,
        ext16(val, x) >> 16u32 == (if x { 0xFFFFu32 } else { 0u32 }),
{
    let v = val as u32;
    assert(v <= 0xFFFFu32);
    if x {
        assert(v <= 0xFFFFu32 ==> (v | 0xFFFF_0000u32) & 0xFFFFu32 == v && (v | 0xFFFF_0000u32) >> 16u32 == 0xFFFFu32) by (bit_vector);
    } else {
        assert(v <= 0xFFFFu32 ==> (v | 0u32) & 0xFFFFu32 == v && (v | 0u32) >> 16u32 == 0u32) by (bit_vector);
    }
}

// ---------------------------------------------------------------------------
// What one instruction asks of the emulator around the core.
// ---------------------------------------------------------------------------

/// Data moved by a memory access, sized by the access width.
#[derive(Copy, Clone, Debug, Hash, PartialEq, Eq)]
pub enum MemData {
    Byte(u8),
    Half(u16),
    Word(u32),
    Double(u32, u32),
}

/// The data a store of width `width` writes from register value `val`:
/// the low byte, the low half word or the whole word.
pub open spec fn store_data(width: MemWidth, val: u32) -> MemData {
    match width {
        MemWidth::Byte => MemData::Byte(val as u8),
        MemWidth::Half => MemData::Half(val as u16),
        _ => MemData::Word(val),
    }
}

/// The two ALU operations whose result and flags the emulator computes.
#[derive(Copy, Clone, Debug, Hash, PartialEq, Eq)]
pub enum ArithKind {
    Add,
    Sub,
}

/// An addition or subtraction `a (+|-) b` with carry input `carry`, whose
/// result goes to `dest` and whose flags replace the flags when `update_flags`.
#[derive(Copy, Clone, Debug, Hash, PartialEq, Eq)]
pub struct ArithRequest {
    pub kind: ArithKind,
    pub a: u32,
    pub b: u32,
    pub carry: u32,
    pub dest: SkyarchRegno,
    pub update_flags: bool,
}

/// A load from `addr` of width `width` into `dest` (and, for a register pair,
/// the high word into `dest2`); a linked load also arms the store-conditional
/// monitor.
#[derive(Copy, Clone, Debug, Hash, PartialEq, Eq)]
pub struct LoadRequest {
    pub addr: u32,
    pub width: MemWidth,
    pub dest: SkyarchRegno,
    pub dest2: Option<SkyarchRegno>,
    pub linked: bool,
}

/// The outcome of executing one instruction: either it is finished, or the
/// emulator has work to do (memory, ports, the ALU flag logic, randomness,
/// halting) and, where stated, must hand the result back.
#[derive(Copy, Clone, Debug, Hash, PartialEq, Eq)]
pub enum Step {
    /// Finished; continue with the next instruction.
    Next,
    /// Finished; continue at the given address.
    Jump(u32),
    /// The instruction raised an exception.
    Fault(SkyarchException),
    /// Halt the core.
    Halt,
    /// Pause the core until an interrupt in the active mask arrives.
    Pause,
    /// Write `data` to memory at `addr`.
    Store { addr: u32, data: MemData },
    /// Mark the flags undefined, hand `success` to
    /// [`Skyarch::complete_store_conditional`], and when `success` write
    /// `data` to memory at `addr`.
    StoreConditional { addr: u32, data: MemData, success: bool },
    /// Read memory and hand the data to [`Skyarch::complete_load`].
    Load(LoadRequest),
    /// Compute the operation and its flags and hand them to [`Skyarch::complete_arith`].
    Arith(ArithRequest),
    /// Set the zero, sign and parity flags from `value`, then, when
    /// `shift_flags` is `Some((carry, overflow))`, the carry and overflow flags.
    LogicFlags { value: u32, shift_flags: Option<(bool, bool)> },
    /// Read `width` bits from `port` and hand them to [`Skyarch::complete_port_in`].
    PortIn { port: u8, width: u32, reg: SkyarchRegno },
    /// Write the `width` bits `bits` to `port`.
    PortOut { port: u8, bits: u32, width: u32 },
    /// Mark the flags undefined, poll the random source and hand the sample to
    /// [`Skyarch::complete_random`].
    Random { dest: SkyarchRegno, err: SkyarchRegno },
}

// ---------------------------------------------------------------------------
// The core's own state.
// ---------------------------------------------------------------------------

/// The state a Skyarch core keeps besides its registers and flags: the
/// interrupt mask it waits on while paused, and the address and width of
/// the last linked load.
pub struct Skyarch {
    active_mask: u8,
    il_addr: u32,
    il_width: Option<MemWidth>,
}

/// The state of a [`Skyarch`] core.
#[derive(Copy, Clone, Debug, Hash, PartialEq, Eq)]
pub struct SkyarchView {
    pub active_mask: u8,
    pub il_addr: u32,
    pub il_width: Option<MemWidth>,
}

impl View for Skyarch {
    type V = SkyarchView;

    closed spec fn view(&self) -> SkyarchView {
        SkyarchView { active_mask: self.active_mask, il_addr: self.il_addr, il_width: self.il_width }
    }
}

// ---------------------------------------------------------------------------
// The semantics of one instruction.
// ---------------------------------------------------------------------------

/// General purpose register `r` of a register file.
pub open spec fn gpr(regs: Seq<Seq<u32>>, r: SkyarchRegno) -> u32 {
    regs[0][r@ as int]
}

/// The shift applied to the first and to the second operand of an ALU
/// instruction: `s` for the operand that `p` selects, one for the other.
pub open spec fn shift_amounts(s: u8, p: bool) -> (u32, u32) {
    (if p { s as u32 } else { 1u32 }, if !p { s as u32 } else { 1u32 })
}

/// The two shifted operands of an ALU instruction.
pub open spec fn alu_operands(regs: Seq<Seq<u32>>, a: SkyarchRegno, b: SkyarchRegno, s: u8, p: bool) -> (u32, u32) {
    (gpr(regs, a) << shift_amounts(s, p).0, gpr(regs, b) << shift_amounts(s, p).1)
}

/// The operands of a logic instruction: the shifted operands, both inverted when `i`.
pub open spec fn logic_operands(regs: Seq<Seq<u32>>, a: SkyarchRegno, b: SkyarchRegno, s: u8, p: bool, i: bool) -> (u32, u32) {
    let inv: u32 = if i { 0xFFFF_FFFFu32 } else { 0u32 };
    (alu_operands(regs, a, b, s, p).0 ^ inv, alu_operands(regs, a, b, s, p).1 ^ inv)
}

/// The word a funnel shift fills in from: `rem`, inverted when `x` and `val` is negative.
pub open spec fn fill_word(val: u32, rem: u32, x: bool) -> u32 {
    if x && val & 0x8000_0000u32 != 0 {
        rem ^ 0xFFFF_FFFFu32
    } else {
        rem
    }
}

/// The width of a port transfer: a zero field means all 32 bits.
pub open spec fn port_width(w: u32) -> u32 {
    if w == 0 {
        32
    } else {
        w
    }
}

/// The inputs on which executing an instruction cannot complete: undefined
/// and coprocessor instructions, 64-bit accesses through the single-register
/// forms, moves into an enabled coprocessor map, an interrupt return through
/// register 0, a zero-width extension, and funnel shifts by 32 or more.
pub open spec fn execute_panics(core: SkyarchView, regs: Seq<Seq<u32>>, fl: u32, instr: SkyarchInstr) -> bool {
    match instr {
        SkyarchInstr::Und00 { .. } | SkyarchInstr::UndFF { .. } | SkyarchInstr::Cpi(_) | SkyarchInstr::CpiEf(_) => true,
        SkyarchInstr::Mov { dest, cc, dir, map, .. } => dir && map.is_coprocessor() && check_write_spec(regs, map, dest@) is Ok && cc.holds(fl),
        SkyarchInstr::St { dest, width, .. } => width == MemWidth::Double && gpr(regs, dest) & 7u32 == 0,
        SkyarchInstr::Ld { src, width, .. } => width == MemWidth::Double && gpr(regs, src) & 7u32 == 0,
        SkyarchInstr::Ldil { src, width, .. } => width == MemWidth::Double && gpr(regs, src) & 7u32 == 0,
        SkyarchInstr::Stic { dest, width, .. } => width == MemWidth::Double && gpr(regs, dest) & 7u32 == 0
            && core.il_width == Some(MemWidth::Double) && gpr(regs, dest) == core.il_addr,
        SkyarchInstr::Iret { p } => p == 0,
        SkyarchInstr::Ext { width, .. } => width == 0,
        SkyarchInstr::Fsl { q, .. } | SkyarchInstr::Fsr { q, .. } => gpr(regs, q) >= 32,
        _ => false,
    }
}

/// The state of the core, the registers and the flags after executing
/// `instr` at address `ip`, and what is left for the emulator to do.
pub open spec fn step_spec(core: SkyarchView, regs: Seq<Seq<u32>>, fl: u32, instr: SkyarchInstr, ip: u32) -> (SkyarchView, Seq<Seq<u32>>, u32, Step) {
    match instr {
        SkyarchInstr::Pause { .. } | SkyarchInstr::Fence { .. } => (core, regs, fl, Step::Next),
        SkyarchInstr::Breakpoint => (core, regs, fl, Step::Fault(SkyarchException::Breakpoint)),
        SkyarchInstr::Mov { dest, cc, src, dir, map, .. } => {
            let dest_map = if dir { map } else { RegMap::Gprs };
            let src_map = if dir { RegMap::Gprs } else { map };
            match read_spec(regs, src_map, src@) {
                Err(e) => (core, regs, fl, Step::Fault(e)),
                Ok(val) => match check_write_spec(regs, dest_map, dest@) {
                    Err(e) => (core, regs, fl, Step::Fault(e)),
                    Ok(_) => if cc.holds(fl) {
                        let w = write_spec(regs, dest_map, dest@, val);
                        (core, w.0, fl, match w.1 {
                            Ok(_) => Step::Next,
                            Err(e) => Step::Fault(e),
                        })
                    } else {
                        (core, regs, fl, Step::Next)
                    },
                },
            }
        },
        SkyarchInstr::St { dest, src, width, .. } => {
            let addr = gpr(regs, dest);
            if addr & width.spec_amask() != 0 {
                (core, regs, fl, Step::Fault(SkyarchException::BusError))
            } else {
                (core, regs, fl, Step::Store { addr, data: store_data(width, gpr(regs, src)) })
            }
        },
        SkyarchInstr::Ld { dest, src, width, .. } => {
            let addr = gpr(regs, src);
            if addr & width.spec_amask() != 0 {
                (core, regs, fl, Step::Fault(SkyarchException::BusError))
            } else {
                (core, regs, fl, Step::Load(LoadRequest { addr, width, dest, dest2: None, linked: false }))
            }
        },
        SkyarchInstr::Ldi { dest, x, i } => (core, gpr_write(regs, dest@, ext16(i, x)), fl, Step::Next),
        SkyarchInstr::Lra { dest, x, o } => (core, gpr_write(regs, dest@, wadd(ext16(o, x), ip)), fl, Step::Next),
        SkyarchInstr::Addi { dest, x, f, h, i } => (core, regs, fl, Step::Arith(ArithRequest {
            kind: ArithKind::Add,
            a: ext16(i, x) << (if h { 16u32 } else { 0u32 }),
            b: gpr(regs, dest),
            carry: 0,
            dest,
            update_flags: f,
        })),
        SkyarchInstr::Add { dest, a, b, f, s, p, c } => (core, regs, fl, Step::Arith(ArithRequest {
            kind: ArithKind::Add,
            a: alu_operands(regs, a, b, s, p).0,
            b: alu_operands(regs, a, b, s, p).1,
            carry: if c && flag_c(fl) { 1u32 } else { 0u32 },
            dest,
            update_flags: f,
        })),
        SkyarchInstr::Sub { dest, a, b, f, s, p, c } => (core, regs, fl, Step::Arith(ArithRequest {
            kind: ArithKind::Sub,
            a: alu_operands(regs, a, b, s, p).0,
            b: alu_operands(regs, a, b, s, p).1,
            carry: if !(c && flag_c(fl)) { 1u32 } else { 0u32 },
            dest,
            update_flags: f,
        })),
        SkyarchInstr::And { dest, a, b, f, s, p, i, .. } => {
            let res = logic_operands(regs, a, b, s, p, i).0 & logic_operands(regs, a, b, s, p, i).1;
            (core, gpr_write(regs, dest@, res), fl, if f { Step::LogicFlags { value: res, shift_flags: None } } else { Step::Next })
        },
        SkyarchInstr::Or { dest, a, b, f, s, p, i, .. } => {
            let res = logic_operands(regs, a, b, s, p, i).0 | logic_operands(regs, a, b, s, p, i).1;
            (core, gpr_write(regs, dest@, res), fl, if f { Step::LogicFlags { value: res, shift_flags: None } } else { Step::Next })
        },
        SkyarchInstr::Xor { dest, a, b, f, s, p, i, .. } => {
            let res = logic_operands(regs, a, b, s, p, i).0 & logic_operands(regs, a, b, s, p, i).1;
            (core, gpr_write(regs, dest@, res), fl, if f { Step::LogicFlags { value: res, shift_flags: None } } else { Step::Next })
        },
        SkyarchInstr::Fsl { dest, v, q, f, x, r, .. } => {
            let val = gpr(regs, v);
            let quan = gpr(regs, q);
            let res = funnel_shl_spec(val, fill_word(val, gpr(regs, r), x), quan);
            let carry = quan != 0 && (val >> ((32 - quan) as u32)) != 0;
            (core, gpr_write(regs, dest@, res), fl, if f { Step::LogicFlags { value: res, shift_flags: Some((carry, false)) } } else { Step::Next })
        },
        SkyarchInstr::Fsr { dest, v, q, f, x, r, .. } => {
            let val = gpr(regs, v);
            let quan = gpr(regs, q);
            let res = funnel_shr_spec(val, fill_word(val, gpr(regs, r), x), quan);
            let carry = quan != 0 && (val << ((32 - quan) as u32)) != 0;
            (core, gpr_write(regs, dest@, res), fl, if f { Step::LogicFlags { value: res, shift_flags: Some((carry, false)) } } else { Step::Next })
        },
        SkyarchInstr::Jmp { l, cc, off, offx } => {
            let addr = wadd(ext16(off << 2u32, offx), ip);
            if cc.holds(fl) {
                (core, gpr_write(regs, l@, ip), fl, Step::Jump(addr))
            } else {
                (core, regs, fl, Step::Next)
            }
        },
        SkyarchInstr::Jmpr { l, cc, r } => {
            let addr = gpr(regs, r);
            if addr & 3u32 != 0 {
                (core, regs, fl, Step::Fault(SkyarchException::UnalignedBranch))
            } else if cc.holds(fl) {
                (core, gpr_write(regs, l@, ip), fl, Step::Jump(addr))
            } else {
                (core, regs, fl, Step::Next)
            }
        },
        SkyarchInstr::Iret { p } => {
            let ret = regs[1][p as int];
            let ctl = (regs[1][0] & !3u32) | (ret & 3u32);
            (core, reg_write(regs, 1, 0, ctl), fl, Step::Jump(ret & !3u32))
        },
        SkyarchInstr::In { d, p, w } => (core, regs, fl, Step::PortIn { port: p, width: port_width(w), reg: d }),
        SkyarchInstr::Out { s, p, w } => {
            let sh = shift_spec(regs[2][s@ as int], 0, port_width(w));
            (core, reg_write(regs, 2, s@ as int, sh.0), fl, Step::PortOut { port: p, bits: sh.1, width: port_width(w) })
        },
        SkyarchInstr::Stflags { s, fmask } => (core, regs, ((gpr(regs, s) as u8) & fmask) as u32, Step::Next),
        SkyarchInstr::Ldflags { d, fmask } => (core, gpr_write(regs, d@, fmask as u32), fl, Step::Next),
        SkyarchInstr::Xvp => (core, regs, xvp_spec(fl), Step::Next),
        SkyarchInstr::Xchg { a, b, .. } => (
            core,
            gpr_write(gpr_write(regs, a@, gpr(regs, b)), b@, gpr(regs, a)),
            fl,
            Step::Next,
        ),
        SkyarchInstr::Ext { dest, src, x, width } => (core, gpr_write(regs, dest@, dyn_ext(gpr(regs, src), width, x)), fl, Step::Next),
        SkyarchInstr::Bswap { dest, src } => (core, gpr_write(regs, dest@, bswap(gpr(regs, src))), fl, Step::Next),
        SkyarchInstr::Rbgen { dest, err, .. } => (core, regs, fl, Step::Random { dest, err }),
        SkyarchInstr::Halt { m } => if m == 0 {
            (core, regs, fl, Step::Halt)
        } else {
            (SkyarchView { active_mask: m, ..core }, regs, fl, Step::Pause)
        },
        SkyarchInstr::Stic { dest, src, width, .. } => {
            let addr = gpr(regs, dest);
            if addr & width.spec_amask() != 0 {
                (core, regs, fl, Step::Fault(SkyarchException::BusError))
            } else {
                let success = core.il_width == Some(width) && addr == core.il_addr;
                (SkyarchView { il_width: None, ..core }, regs, fl, Step::StoreConditional {
                    addr,
                    data: store_data(width, gpr(regs, src)),
                    success,
                })
            }
        },
        SkyarchInstr::Sticw { dest, src, src2, .. } => {
            let addr = gpr(regs, dest);
            if addr & 7u32 != 0 {
                (core, regs, fl, Step::Fault(SkyarchException::BusError))
            } else {
                let success = core.il_width == Some(MemWidth::Double) && addr == core.il_addr;
                (SkyarchView { il_width: None, ..core }, regs, fl, Step::StoreConditional {
                    addr,
                    data: MemData::Double(gpr(regs, src), gpr(regs, src2)),
                    success,
                })
            }
        },
        SkyarchInstr::Ldil { dest, src, width, .. } => {
            let addr = gpr(regs, src);
            if addr & width.spec_amask() != 0 {
                (core, regs, fl, Step::Fault(SkyarchException::BusError))
            } else {
                (core, regs, fl, Step::Load(LoadRequest { addr, width, dest, dest2: None, linked: true }))
            }
        },
        SkyarchInstr::Ldilw { dest, src, dest2, .. } => {
            let addr = gpr(regs, src);
            if addr & 7u32 != 0 {
                (core, regs, fl, Step::Fault(SkyarchException::BusError))
            } else {
                (core, regs, fl, Step::Load(LoadRequest { addr, width: MemWidth::Double, dest, dest2: Some(dest2), linked: true }))
            }
        },
        _ => (core, regs, fl, Step::Fault(SkyarchException::Undefined)),
    }
}

fn store_data_of(width: MemWidth, val: u32) -> (r: MemData)
    ensures
        r == store_data(width, val),
{
    match width {
        MemWidth::Byte => MemData::Byte(val as u8),
        MemWidth::Half => MemData::Half(val as u16),
        _ => MemData::Word(val),
    }
}

/// The state of the core and the registers after a load completes with `data`.
pub open spec fn load_spec(core: SkyarchView, regs: Seq<Seq<u32>>, req: LoadRequest, data: MemData) -> (SkyarchView, Seq<Seq<u32>>) {
    let core2 = if req.linked {
        SkyarchView { il_addr: req.addr, il_width: Some(req.width), ..core }
    } else {
        core
    };
    let regs2 = match data {
        MemData::Byte(b) => gpr_write(regs, req.dest@, b as u32),
        MemData::Half(h) => gpr_write(regs, req.dest@, h as u32),
        MemData::Word(w) => gpr_write(regs, req.dest@, w),
        MemData::Double(lo, hi) => match req.dest2 {
            Some(d2) => gpr_write(gpr_write(regs, req.dest@, lo), d2@, hi),
            None => gpr_write(regs, req.dest@, lo),
        },
    };
    (core2, regs2)
}

/// The register file after a random-number request completes with `sample`
/// (`None` when the random source had nothing): the destination gets the
/// sample or zero, and the status register gets 0xFFFF or 0x3_0000.
pub open spec fn random_regs(regs: Seq<Seq<u32>>, dest: SkyarchRegno, err: SkyarchRegno, sample: Option<u32>) -> Seq<Seq<u32>> {
    match sample {
        Some(b) => gpr_write(gpr_write(regs, dest@, b), err@, 0xFFFFu32),
        None => gpr_write(gpr_write(regs, dest@, 0), err@, 0x3_0000u32),
    }
}

/// The register file after an exception is taken at `ip`, and the address of
/// the interrupt table slot to fetch the handler from; `None` when the abort
/// flag was already set, which stops the core. With a zero interrupt mask the
/// exception is turned into `Abort`; otherwise the return address and mask are
/// saved in the first interrupt return register. Either way the interrupt
/// control register is left with only the abort flag set.
pub open spec fn except_spec(regs: Seq<Seq<u32>>, e: SkyarchException, ip: u32) -> (Seq<Seq<u32>>, Option<u32>) {
    let ctl = regs[1][0];
    if ctl & 0x8000_0000u32 != 0 {
        (regs, None)
    } else {
        let mask = ctl & 3u32;
        let taken = if mask < 1 { SkyarchException::Abort } else { e };
        let regs1 = reg_write(regs, 1, 0, 0x8000_0000u32);
        let regs2 = if mask < 1 { regs1 } else { reg_write(regs1, 1, 1, (ip & !3u32) | mask) };
        (regs2, Some(wadd(regs[1][31] & !7u32, (taken.spec_code() as u32) << 3u32)))
    }
}

impl Skyarch {
    /// A core that is not waiting on any interrupt and holds no linked load.
    pub fn new() -> (r: Skyarch)
        ensures
            r@ == (SkyarchView { active_mask: 0, il_addr: 0, il_width: None }),
    {
        Skyarch { active_mask: 0, il_addr: 0, il_width: None }
    }

    /// The interrupt mask the core waits on while paused.
    pub fn active_mask(&self) -> (r: u8)
        ensures
            r == self@.active_mask,
    {
        self.active_mask
    }

    /// The address of the last linked load, which a store conditional must match.
    pub fn linked_addr(&self) -> (r: u32)
        ensures
            r == self@.il_addr,
    {
        self.il_addr
    }

    /// The width of the last linked load, if a store conditional may still succeed.
    pub fn linked_width(&self) -> (r: Option<MemWidth>)
        ensures
            r == self@.il_width,
    {
        self.il_width
    }

    /// Resets the registers, with no coprocessor available, and returns the
    /// address execution starts from.
    pub fn reset(regs: &mut SkyarchRegisters) -> (entry: u32)
        ensures
            final(regs)@ == crate::regs::reset_view(0),
            final(regs).wf(),
            entry == 0xFF00,
    {
        regs.reset(0);
        0xFF00
    }

    /// Decodes an instruction word and checks that it may be executed.
    pub fn decode(regs: &SkyarchRegisters, w: u32) -> (r: Result<SkyarchInstr, SkyarchException>)
        ensures
            r == (match SkyarchInstr::decoded(w) {
                None => Err(SkyarchException::Undefined),
                Some(i) => match i.validation(regs@) {
                    Ok(_) => Ok(i),
                    Err(e) => Err(e),
                },
            }),
            r matches Ok(i) ==> i.well_formed(),
    {
        let op = match SkyarchInstr::decode(w) {
            Ok(op) => op,
            Err(e) => return Err(e),
        };
        match op.validate(regs) {
            Ok(()) => Ok(op),
            Err(e) => Err(e),
        }
    }

    /// Completes a load with the data read from memory.
    pub fn complete_load(&mut self, regs: &mut SkyarchRegisters, req: LoadRequest, data: MemData)
        requires
            old(regs).wf(),
        ensures
            (final(self)@, final(regs)@) == load_spec(old(self)@, old(regs)@, req, data),
            final(regs).wf(),
    {
        if req.linked {
            self.il_addr = req.addr;
            self.il_width = Some(req.width);
        }
        match data {
            MemData::Byte(b) => regs.write_gpr(req.dest, b as u32),
            MemData::Half(h) => regs.write_gpr(req.dest, h as u32),
            MemData::Word(w) => regs.write_gpr(req.dest, w),
            MemData::Double(lo, hi) => {
                regs.write_gpr(req.dest, lo);
                match req.dest2 {
                    Some(d2) => regs.write_gpr(d2, hi),
                    None => {},
                }
            },
        }
    }

    /// Completes an addition or subtraction with the result and flags the
    /// emulator computed for it.
    pub fn complete_arith(regs: &mut SkyarchRegisters, flags: &mut SkyarchFlags, req: ArithRequest, result: u32, new_flags: SkyarchFlags)
        requires
            old(regs).wf(),
        ensures
            final(regs)@ == gpr_write(old(regs)@, req.dest@, result),
            final(flags)@ == (if req.update_flags { new_flags@ } else { old(flags)@ }),
            final(regs).wf(),
    {
        if req.update_flags {
            *flags = new_flags;
        }
        regs.write_gpr(req.dest, result);
    }

    /// Completes a port read by shifting the bits read into I/O register `reg`.
    pub fn complete_port_in(regs: &mut SkyarchRegisters, reg: SkyarchRegno, bits: u32, width: u32)
        requires
            old(regs).wf(),
            width <= 32,
        ensures
            final(regs)@ == reg_write(old(regs)@, 2, reg@ as int, shift_spec(old(regs)@[2][reg@ as int], bits, width).0),
            final(regs).wf(),
    {
        let _ = regs.io_shift(reg, bits, width);
    }

    /// Completes a store conditional once the emulator has marked the flags
    /// undefined: the zero flag is cleared when the store succeeded and set
    /// when it failed.
    pub fn complete_store_conditional(flags: &mut SkyarchFlags, success: bool)
        ensures
            final(flags)@ == with_bit(old(flags)@, 8u32, !success),
    {
        flags.set_z(!success);
    }

    /// Completes a random-number request with the sample the random source
    /// gave, if any; a sample also clears the zero flag.
    pub fn complete_random(regs: &mut SkyarchRegisters, flags: &mut SkyarchFlags, dest: SkyarchRegno, err: SkyarchRegno, sample: Option<u32>)
        requires
            old(regs).wf(),
        ensures
            final(regs)@ == random_regs(old(regs)@, dest, err, sample),
            final(flags)@ == (if sample is Some { with_bit(old(flags)@, 8u32, false) } else { old(flags)@ }),
            final(regs).wf(),
    {
        let status: u32 = match sample {
            Some(b) => {
                regs.write_gpr(dest, b);
                flags.set_z(false);
                0xFFFF
            },
            None => {
                regs.write_gpr(dest, 0);
                0x3_0000
            },
        };
        regs.write_gpr(err, status);
    }

    /// Takes an exception raised at `ip`: saves what is needed to return and
    /// returns the address of the interrupt table slot that holds the handler,
    /// or `None` when an exception was already being handled.
    pub fn handle_except(regs: &mut SkyarchRegisters, except: SkyarchException, ip: u32) -> (r: Option<u32>)
        requires
            old(regs).wf(),
        ensures
            (final(regs)@, r) == except_spec(old(regs)@, except, ip),
            final(regs).wf(),
    {
        let ictl = regs.intr().intctl;
        if ictl.abort() {
            return None;
        }
        let mask = ictl.mask();
        proof {
            let c = ictl@;
            assert(c & 3u32 < 4u32) by (bit_vector);
            assert(mask as u32 == c & 3u32);
        }
        let mut taken = except;
        let aborting = Intctl::new().with_abort(true);
        proof {
            assert((0u32 | 0x8000_0000u32) == 0x8000_0000u32) by (bit_vector);
            assert(0x8000_0000u32 & 0x7FFF_FFFCu32 == 0u32) by (bit_vector);
        }
        if mask < 1 {
            taken = SkyarchException::Abort;
            regs.set_intctl(aborting);
        } else {
            let iret = Intret::new().with_addr(ip).with_retmask(mask);
            proof {
                let m = mask as u32;
                assert(m < 4 ==> ((((0u32 & 3u32) | (ip & !3u32)) & !3u32) | m) == (ip & !3u32) | m) by (bit_vector);
            }
            regs.set_intctl(aborting);
            regs.set_intret(0, iret);
        }
        let slot = (taken.code() as u32) << 3u32;
        let base = regs.intr().inttab.addr();
        Some(base.wrapping_add(slot))
    }

    /// Decides where an exception continues once the interrupt table slot has
    /// been read: a failed read passes its exception on, an invalid or absent
    /// slot raises `Consistency`, and otherwise execution goes to the handler.
    pub fn vector_target(slot: Result<IntSlot, SkyarchException>) -> (r: Result<u32, Option<SkyarchException>>)
        ensures
            r == (match slot {
                Err(e) => Err(Some(e)),
                Ok(s) => if !s.valid || !s.present {
                    Err(Some(SkyarchException::Consistency))
                } else {
                    Ok(s.addr)
                },
            }),
    {
        match slot {
            Err(e) => Err(Some(e)),
            Ok(s) => {
                if !s.valid || !s.present {
                    Err(Some(SkyarchException::Consistency))
                } else {
                    Ok(s.addr)
                }
            },
        }
    }
}

impl Skyarch {
    /// Whether [`Skyarch::execute`] can run the instruction to completion in
    /// the given state (see [`execute_panics`]).
    pub fn executable(&self, regs: &SkyarchRegisters, flags: &SkyarchFlags, instr: &SkyarchInstr) -> (r: bool)
        ensures
            r == !execute_panics(self@, regs@, flags@, *instr),
    {
        match instr {
            SkyarchInstr::Und00 { .. } | SkyarchInstr::UndFF { .. } | SkyarchInstr::Cpi(_) | SkyarchInstr::CpiEf(_) => false,
            SkyarchInstr::Mov { dest, cc, dir, map, .. } => {
                !(*dir && map.bits() >= 8 && regs.check_write(*map, *dest).is_ok() && cc.check_condition(*flags))
            },
            SkyarchInstr::St { dest, width, .. } => !(*width == MemWidth::Double && regs.read_gpr(*dest) & 7u32 == 0),
            SkyarchInstr::Ld { src, width, .. } => !(*width == MemWidth::Double && regs.read_gpr(*src) & 7u32 == 0),
            SkyarchInstr::Ldil { src, width, .. } => !(*width == MemWidth::Double && regs.read_gpr(*src) & 7u32 == 0),
            SkyarchInstr::Stic { dest, width, .. } => {
                let addr = regs.read_gpr(*dest);
                let linked_double = match self.il_width {
                    Some(w) => w == MemWidth::Double,
                    None => false,
                };
                !(*width == MemWidth::Double && addr & 7u32 == 0 && linked_double && addr == self.il_addr)
            },
            SkyarchInstr::Iret { p } => *p != 0,
            SkyarchInstr::Ext { width, .. } => *width != 0,
            SkyarchInstr::Fsl { q, .. } | SkyarchInstr::Fsr { q, .. } => regs.read_gpr(*q) < 32,
            _ => true,
        }
    }

    /// Executes a decoded instruction at address `cur_ip`: updates the core,
    /// the registers and the flags as far as they depend on nothing outside
    /// the core, and returns what is left for the emulator to do.
    pub fn execute(&mut self, regs: &mut SkyarchRegisters, flags: &mut SkyarchFlags, instr: SkyarchInstr, cur_ip: u32) -> (r: Step)
        requires
            old(regs).wf(),
            instr.well_formed(),
            !execute_panics(old(self)@, old(regs)@, old(flags)@, instr),
        ensures
            (final(self)@, final(regs)@, final(flags)@, r) == step_spec(old(self)@, old(regs)@, old(flags)@, instr, cur_ip),
            final(regs).wf(),
    {
        match instr {
            SkyarchInstr::Mov { .. } => self.execute_mov(regs, flags, instr),
            SkyarchInstr::St { .. } | SkyarchInstr::Ld { .. } | SkyarchInstr::Stic { .. }
            | SkyarchInstr::Sticw { .. } | SkyarchInstr::Ldil { .. } | SkyarchInstr::Ldilw { .. } => self.execute_memory(regs, flags, instr),
            SkyarchInstr::Addi { .. } | SkyarchInstr::Add { .. } | SkyarchInstr::Sub { .. }
            | SkyarchInstr::And { .. } | SkyarchInstr::Or { .. } | SkyarchInstr::Xor { .. }
            | SkyarchInstr::Fsl { .. } | SkyarchInstr::Fsr { .. } => self.execute_alu(regs, flags, instr),
            _ => self.execute_other(regs, flags, instr, cur_ip),
        }
    }

    fn execute_mov(&self, regs: &mut SkyarchRegisters, flags: &mut SkyarchFlags, instr: SkyarchInstr) -> (r: Step)
        requires
            old(regs).wf(),
            instr is Mov,
            !execute_panics(self@, old(regs)@, old(flags)@, instr),
        ensures
            forall|ip: u32|
                (#[trigger] step_spec(self@, old(regs)@, old(flags)@, instr, ip)) == (self@, final(regs)@, final(flags)@, r),
            final(regs).wf(),
    {
        match instr {
            SkyarchInstr::Mov { dest, cc, src, dir, map, .. } => {
                let dest_map = if dir { map } else { RegMap::Gprs };
                let src_map = if dir { RegMap::Gprs } else { map };
                let val = match regs.read(src_map, src) {
                    Ok(v) => v,
                    Err(e) => return Step::Fault(e),
                };
                match regs.check_write(dest_map, dest) {
                    Err(e) => return Step::Fault(e),
                    Ok(()) => {},
                }
                if cc.check_condition(*flags) {
                    match regs.write(dest_map, dest, val) {
                        Ok(()) => Step::Next,
                        Err(e) => Step::Fault(e),
                    }
                } else {
                    Step::Next
                }
            },
            _ => Step::Next,
        }
    }

    fn execute_memory(&mut self, regs: &mut SkyarchRegisters, flags: &mut SkyarchFlags, instr: SkyarchInstr) -> (r: Step)
        requires
            old(regs).wf(),
            instr is St || instr is Ld || instr is Stic || instr is Sticw || instr is Ldil || instr is Ldilw,
            !execute_panics(old(self)@, old(regs)@, old(flags)@, instr),
        ensures
            forall|ip: u32|
                (#[trigger] step_spec(old(self)@, old(regs)@, old(flags)@, instr, ip)) == (final(self)@, final(regs)@, final(flags)@, r),
            final(regs).wf(),
    {
        match instr {
            SkyarchInstr::St { dest, src, width, .. } => {
                let addr = regs.read_gpr(dest);
                let val = regs.read_gpr(src);
                if addr & width.amask() != 0 {
                    return Step::Fault(SkyarchException::BusError);
                }
                Step::Store { addr, data: store_data_of(width, val) }
            },
            SkyarchInstr::Ld { dest, src, width, .. } => {
                let addr = regs.read_gpr(src);
                if addr & width.amask() != 0 {
                    return Step::Fault(SkyarchException::BusError);
                }
                Step::Load(LoadRequest { addr, width, dest, dest2: None, linked: false })
            },
            SkyarchInstr::Stic { dest, src, width, .. } => {
                let addr = regs.read_gpr(dest);
                let val = regs.read_gpr(src);
                if addr & width.amask() != 0 {
                    return Step::Fault(SkyarchException::BusError);
                }
                let prev = self.il_width;
                self.il_width = None;
                let success = match prev {
                    Some(w) => w == width && addr == self.il_addr,
                    None => false,
                };
                Step::StoreConditional { addr, data: store_data_of(width, val), success }
            },
            SkyarchInstr::Sticw { dest, src, src2, .. } => {
                let addr = regs.read_gpr(dest);
                let val = regs.read_gpr(src);
                let valhi = regs.read_gpr(src2);
                if addr & MemWidth::Double.amask() != 0 {
                    return Step::Fault(SkyarchException::BusError);
                }
                let prev = self.il_width;
                self.il_width = None;
                let success = match prev {
                    Some(w) => w == MemWidth::Double && addr == self.il_addr,
                    None => false,
                };
                Step::StoreConditional { addr, data: MemData::Double(val, valhi), success }
            },
            SkyarchInstr::Ldil { dest, src, width, .. } => {
                let addr = regs.read_gpr(src);
                if addr & width.amask() != 0 {
                    return Step::Fault(SkyarchException::BusError);
                }
                Step::Load(LoadRequest { addr, width, dest, dest2: None, linked: true })
            },
            SkyarchInstr::Ldilw { dest, src, dest2, .. } => {
                let addr = regs.read_gpr(src);
                if addr & MemWidth::Double.amask() != 0 {
                    return Step::Fault(SkyarchException::BusError);
                }
                Step::Load(LoadRequest { addr, width: MemWidth::Double, dest, dest2: Some(dest2), linked: true })
            },
            _ => Step::Next,
        }
    }

    fn execute_alu(&self, regs: &mut SkyarchRegisters, flags: &mut SkyarchFlags, instr: SkyarchInstr) -> (r: Step)
        requires
            old(regs).wf(),
            instr.well_formed(),
            instr is Addi || instr is Add || instr is Sub || instr is And || instr is Or || instr is Xor || instr is Fsl || instr is Fsr,
            !execute_panics(self@, old(regs)@, old(flags)@, instr),
        ensures
            forall|ip: u32|
                (#[trigger] step_spec(self@, old(regs)@, old(flags)@, instr, ip)) == (self@, final(regs)@, final(flags)@, r),
            final(regs).wf(),
    {
        match instr {
            SkyarchInstr::Addi { dest, x, f, h, i } => {
                let val = extend(i, x) << (if h { 16u32 } else { 0u32 });
                let in1 = regs.read_gpr(dest);
                Step::Arith(ArithRequest { kind: ArithKind::Add, a: val, b: in1, carry: 0, dest, update_flags: f })
            },
            SkyarchInstr::Add { dest, a, b, f, s, p, c } => {
                let shift1: u32 = if p { s as u32 } else { 1 };
                let shift2: u32 = if !p { s as u32 } else { 1 };
                let val1 = regs.read_gpr(a) << shift1;
                let val2 = regs.read_gpr(b) << shift2;
                let carry: u32 = if c && flags.c() { 1 } else { 0 };
                Step::Arith(ArithRequest { kind: ArithKind::Add, a: val1, b: val2, carry, dest, update_flags: f })
            },
            SkyarchInstr::Sub { dest, a, b, f, s, p, c } => {
                let shift1: u32 = if p { s as u32 } else { 1 };
                let shift2: u32 = if !p { s as u32 } else { 1 };
                let val1 = regs.read_gpr(a) << shift1;
                let val2 = regs.read_gpr(b) << shift2;
                let carry: u32 = if !(c && flags.c()) { 1 } else { 0 };
                Step::Arith(ArithRequest { kind: ArithKind::Sub, a: val1, b: val2, carry, dest, update_flags: f })
            },
            SkyarchInstr::And { dest, a, b, f, s, p, i, .. } => {
                let (val1, val2) = Self::logic_inputs(regs, a, b, s, p, i);
                let res = val1 & val2;
                regs.write_gpr(dest, res);
                if f { Step::LogicFlags { value: res, shift_flags: None } } else { Step::Next }
            },
            SkyarchInstr::Or { dest, a, b, f, s, p, i, .. } => {
                let (val1, val2) = Self::logic_inputs(regs, a, b, s, p, i);
                let res = val1 | val2;
                regs.write_gpr(dest, res);
                if f { Step::LogicFlags { value: res, shift_flags: None } } else { Step::Next }
            },
            SkyarchInstr::Xor { dest, a, b, f, s, p, i, .. } => {
                let (val1, val2) = Self::logic_inputs(regs, a, b, s, p, i);
                let res = val1 & val2;
                regs.write_gpr(dest, res);
                if f { Step::LogicFlags { value: res, shift_flags: None } } else { Step::Next }
            },
            SkyarchInstr::Fsl { dest, v, q, f, x, r, .. } => {
                let val = regs.read_gpr(v);
                let quan = regs.read_gpr(q);
                let mut rem = regs.read_gpr(r);
                if x && (val & 0x8000_0000u32) != 0 {
                    rem = rem ^ 0xFFFF_FFFFu32;
                }
                let res = funnel_shl(val, rem, quan);
                let carry = quan != 0 && (val >> (32 - quan)) != 0;
                regs.write_gpr(dest, res);
                if f { Step::LogicFlags { value: res, shift_flags: Some((carry, false)) } } else { Step::Next }
            },
            SkyarchInstr::Fsr { dest, v, q, f, x, r, .. } => {
                let val = regs.read_gpr(v);
                let quan = regs.read_gpr(q);
                let mut rem = regs.read_gpr(r);
                if x && (val & 0x8000_0000u32) != 0 {
                    rem = rem ^ 0xFFFF_FFFFu32;
                }
                let res = funnel_shr(val, rem, quan);
                let carry = quan != 0 && (val << (32 - quan)) != 0;
                regs.write_gpr(dest, res);
                if f { Step::LogicFlags { value: res, shift_flags: Some((carry, false)) } } else { Step::Next }
            },
            _ => Step::Next,
        }
    }

    fn logic_inputs(regs: &SkyarchRegisters, a: SkyarchRegno, b: SkyarchRegno, s: u8, p: bool, i: bool) -> (r: (u32, u32))
        requires
            s < 32,
        ensures
            r == logic_operands(regs@, a, b, s, p, i),
    {
        let shift1: u32 = if p { s as u32 } else { 1 };
        let shift2: u32 = if !p { s as u32 } else { 1 };
        let inv: u32 = if i { 0xFFFF_FFFFu32 } else { 0u32 };
        let val1 = (regs.read_gpr(a) << shift1) ^ inv;
        let val2 = (regs.read_gpr(b) << shift2) ^ inv;
        (val1, val2)
    }

    fn execute_other(&mut self, regs: &mut SkyarchRegisters, flags: &mut SkyarchFlags, instr: SkyarchInstr, cur_ip: u32) -> (r: Step)
        requires
            old(regs).wf(),
            instr.well_formed(),
            !(instr is Mov || instr is St || instr is Ld || instr is Stic || instr is Sticw || instr is Ldil || instr is Ldilw),
            !(instr is Addi || instr is Add || instr is Sub || instr is And || instr is Or || instr is Xor || instr is Fsl || instr is Fsr),
            !execute_panics(old(self)@, old(regs)@, old(flags)@, instr),
        ensures
            (final(self)@, final(regs)@, final(flags)@, r) == step_spec(old(self)@, old(regs)@, old(flags)@, instr, cur_ip),
            final(regs).wf(),
    {
        match instr {
            SkyarchInstr::Pause { .. } | SkyarchInstr::Fence { .. } => Step::Next,
            SkyarchInstr::Breakpoint => Step::Fault(SkyarchException::Breakpoint),
            SkyarchInstr::Ldi { dest, x, i } => {
                regs.write_gpr(dest, extend(i, x));
                Step::Next
            },
            SkyarchInstr::Lra { dest, x, o } => {
                let val = extend(o, x).wrapping_add(cur_ip);
                regs.write_gpr(dest, val);
                Step::Next
            },
            SkyarchInstr::Jmp { l, cc, off, offx } => {
                let addr = extend(off << 2u32, offx).wrapping_add(cur_ip);
                if cc.check_condition(*flags) {
                    regs.write_gpr(l, cur_ip);
                    Step::Jump(addr)
                } else {
                    Step::Next
                }
            },
            SkyarchInstr::Jmpr { l, cc, r } => {
                let addr = regs.read_gpr(r);
                if addr & 3u32 != 0 {
                    return Step::Fault(SkyarchException::UnalignedBranch);
                }
                if cc.check_condition(*flags) {
                    regs.write_gpr(l, cur_ip);
                    Step::Jump(addr)
                } else {
                    Step::Next
                }
            },
            SkyarchInstr::Iret { p } => {
                let imap = regs.intr();
                let ret = imap.intret[(p - 1) as usize];
                let mut ctl = imap.intctl;
                let mask = ret.retmask();
                ctl.set_mask(mask);
                proof {
                    let c = imap.intctl@;
                    let rb = ret@;
                    assert(rb & 3u32 < 4u32) by (bit_vector);
                    assert(mask as u32 == rb & 3u32);
                    assert(c & 0x7FFF_FFFCu32 == 0u32 ==> ((c & !3u32) | (rb & 3u32)) & 0x7FFF_FFFCu32 == 0u32) by (bit_vector);
                }
                regs.set_intctl(ctl);
                Step::Jump(ret.addr())
            },
            SkyarchInstr::In { d, p, w } => {
                let width = if w == 0 { 32 } else { w };
                Step::PortIn { port: p, width, reg: d }
            },
            SkyarchInstr::Out { s, p, w } => {
                let width = if w == 0 { 32 } else { w };
                let bits = regs.io_shift(s, 0, width);
                Step::PortOut { port: p, bits, width }
            },
            SkyarchInstr::Stflags { s, fmask } => {
                let val = #[verifier::truncate] (regs.read_gpr(s) as u8);
                *flags = SkyarchFlags::from_bits((val & fmask) as u32);
                Step::Next
            },
            SkyarchInstr::Ldflags { d, fmask } => {
                regs.write_gpr(d, fmask as u32);
                Step::Next
            },
            SkyarchInstr::Xvp => {
                flags.xvp();
                Step::Next
            },
            SkyarchInstr::Xchg { a, b, .. } => {
                let rval1 = regs.read_gpr(a);
                let rval2 = regs.read_gpr(b);
                regs.write_gpr(a, rval2);
                regs.write_gpr(b, rval1);
                Step::Next
            },
            SkyarchInstr::Ext { dest, src, x, width } => {
                let val = regs.read_gpr(src);
                regs.write_gpr(dest, dyn_extend(val, width, x));
                Step::Next
            },
            SkyarchInstr::Bswap { dest, src } => {
                let val = regs.read_gpr(src);
                regs.write_gpr(dest, byte_swap(val));
                Step::Next
            },
            SkyarchInstr::Rbgen { dest, err, .. } => Step::Random { dest, err },
            SkyarchInstr::Halt { m } => {
                if m == 0 {
                    Step::Halt
                } else {
                    self.active_mask = m;
                    Step::Pause
                }
            },
            _ => Step::Fault(SkyarchException::Undefined),
        }
    }
}

// ---------------------------------------------------------------------------
// Laws of exception handling and execution.
// ---------------------------------------------------------------------------

/// An exception raised while one is being handled stops the core: once an
/// exception has been taken, taking another returns `None` and changes nothing.
pub proof fn lemma_nested_exception_stops(regs: Seq<Seq<u32>>, e1: SkyarchException, ip1: u32, e2: SkyarchException, ip2: u32)
    requires
        regs_wf(regs),
        except_spec(regs, e1, ip1).1 is Some,
    ensures
        except_spec(except_spec(regs, e1, ip1).0, e2, ip2) == (except_spec(regs, e1, ip1).0, None::<u32>),
{
    assert(0x8000_0000u32 & 0x8000_0000u32 != 0u32) by (bit_vector);
}

/// Taking an exception at `ip` with a nonzero interrupt mask and then
/// returning through the first interrupt return register jumps back to the
/// aligned `ip` and restores the interrupt mask.
pub proof fn lemma_exception_return(core: SkyarchView, regs: Seq<Seq<u32>>, fl: u32, e: SkyarchException, ip: u32, ip2: u32)
    requires
        regs_wf(regs),
        regs[1][0] & 0x8000_0000u32 == 0,
        regs[1][0] & 3u32 != 0,
    ensures
        ({
            let taken = except_spec(regs, e, ip).0;
            let after = step_spec(core, taken, fl, SkyarchInstr::Iret { p: 1 }, ip2);
            &&& after.3 == Step::Jump(ip & !3u32)
            &&& after.1[1][0] & 3u32 == regs[1][0] & 3u32
            &&& after.1[1][0] & 0x8000_0000u32 != 0
        }),
{
    let c = regs[1][0];
    let m = c & 3u32;
    let ret = (ip & !3u32) | m;
    assert(m < 4u32 ==> ((ip & !3u32) | m) & !3u32 == ip & !3u32) by (bit_vector);
    assert(m < 4u32 ==> ((ip & !3u32) | m) & 3u32 == m) by (bit_vector);
    assert(c & 3u32 < 4u32) by (bit_vector);
    assert(m < 4u32 ==> ((0x8000_0000u32 & !3u32) | m) & 3u32 == m) by (bit_vector);
    assert(((0x8000_0000u32 & !3u32) | m) & 0x8000_0000u32 != 0u32) by (bit_vector);
}

/// A linked load followed by a store conditional of the same width to the
/// same address succeeds, and the store conditional disarms the monitor, so
/// a second one fails.
pub proof fn lemma_linked_store(
    core: SkyarchView,
    regs: Seq<Seq<u32>>,
    fl: u32,
    load: SkyarchInstr,
    data: MemData,
    store: SkyarchInstr,
    ip1: u32,
    ip2: u32,
    ip3: u32,
)
    requires
        regs_wf(regs),
        load matches SkyarchInstr::Ldil { src, width, .. } && gpr(regs, src) & width.spec_amask() == 0,
        step_spec(core, regs, fl, load, ip1).3 matches Step::Load(req) && ({
            let loaded = load_spec(core, regs, req, data);
            store matches SkyarchInstr::Stic { dest, width: sw, .. } && sw == req.width && gpr(loaded.1, dest) == req.addr
        }),
    ensures
        step_spec(core, regs, fl, load, ip1).3 matches Step::Load(req) && ({
            let loaded = load_spec(core, regs, req, data);
            let first = step_spec(loaded.0, loaded.1, fl, store, ip2);
            let second = step_spec(first.0, first.1, first.2, store, ip3);
            &&& first.3 matches Step::StoreConditional { success, .. } && success
            &&& second.3 matches Step::StoreConditional { success, .. } && !success
        }),
{
}

/// Execution never jumps to a misaligned address from an aligned one: the
/// target of every jump is a multiple of four.
pub proof fn lemma_jumps_aligned(core: SkyarchView, regs: Seq<Seq<u32>>, fl: u32, instr: SkyarchInstr, ip: u32)
    requires
        regs_wf(regs),
        instr.well_formed(),
        ip & 3u32 == 0,
    ensures
        step_spec(core, regs, fl, instr, ip).3 matches Step::Jump(a) ==> a & 3u32 == 0,
{
    match instr {
        SkyarchInstr::Jmp { off, offx, .. } => {
            let o = off << 2u32;
            assert(o & 3u16 == 0u16) by (bit_vector)
                requires o == off << 2u32;
            let x = ext16(o, offx);
            assert(o & 3u16 == 0u16 ==> ((o as u32) | 0xFFFF_0000u32) & 3u32 == 0u32) by (bit_vector);
            assert(o & 3u16 == 0u16 ==> ((o as u32) | 0u32) & 3u32 == 0u32) by (bit_vector);
            assert(x & 3u32 == 0u32);
            lemma_wadd_aligned(x, ip);
        },
        SkyarchInstr::Iret { p } => {
            let ret = regs[1][p as int];
            assert((ret & !3u32) & 3u32 == 0u32) by (bit_vector);
        },
        _ => {},
    }
}

proof fn lemma_wadd_aligned(a: u32, b: u32)
    requires
        a & 3u32 == 0,
        b & 3u32 == 0,
    ensures
        wadd(a, b) & 3u32 == 0,
{
    assert(a & 3u32 == 0u32 && b & 3u32 == 0u32 ==> vstd::wrapping::u32_specs::wrapping_add(a, b) & 3u32 == 0u32) by (bit_vector);
}

/// Decoding and validation refuse an instruction only with `Undefined`.
pub proof fn lemma_decode_refuses_undefined(regs: Seq<Seq<u32>>, w: u32)
    ensures
        SkyarchInstr::decoded(w) matches Some(i) ==> (i.validation(regs) matches Err(e) ==> e == SkyarchException::Undefined),
{
}

/// What executing an instruction changes by itself: only `Stflags` and `Xvp`
/// change the flags (every other flag update is requested through the
/// returned step), and only `Halt`, `Stic` and `Sticw` change the core's own
/// state.
pub proof fn lemma_execute_frame(core: SkyarchView, regs: Seq<Seq<u32>>, fl: u32, instr: SkyarchInstr, ip: u32)
    ensures
        step_spec(core, regs, fl, instr, ip).2 != fl ==> (instr is Stflags || instr is Xvp),
        step_spec(core, regs, fl, instr, ip).0 != core ==> (instr is Halt || instr is Stic || instr is Sticw),
{
}

/// The fill word of a funnel shift is the `r` register, inverted only when
/// `x` is set and the shifted value is negative. So for a non-negative value
/// `x` makes no difference, and the shift left writes the high word of the
/// 64-bit value `v:r` shifted left by `q`, the shift right its low word
/// shifted right by `q`; for a negative value with `x`, `r` is inverted first.
pub proof fn lemma_funnel_fill(
    core: SkyarchView,
    regs: Seq<Seq<u32>>,
    fl: u32,
    dest: SkyarchRegno,
    v: SkyarchRegno,
    q: SkyarchRegno,
    r: SkyarchRegno,
    f: bool,
    w: bool,
    ip: u32,
)
    requires
        regs_wf(regs),
        dest@ < 32,
        v@ < 32,
        q@ < 32,
        r@ < 32,
        regs[0][q@ as int] < 32,
    ensures
        ({
            let val = regs[0][v@ as int];
            let quan = regs[0][q@ as int];
            let fill = if val & 0x8000_0000u32 != 0 { regs[0][r@ as int] ^ 0xFFFF_FFFFu32 } else { regs[0][r@ as int] };
            let wide = ((val as u64) << 32u64) | (fill as u64);
            let shl = step_spec(core, regs, fl, SkyarchInstr::Fsl { dest, v, q, f, x: true, w, r }, ip);
            let shr = step_spec(core, regs, fl, SkyarchInstr::Fsr { dest, v, q, f, x: true, w, r }, ip);
            &&& val & 0x8000_0000u32 == 0 ==> shl == step_spec(core, regs, fl, SkyarchInstr::Fsl { dest, v, q, f, x: false, w, r }, ip)
            &&& val & 0x8000_0000u32 == 0 ==> shr == step_spec(core, regs, fl, SkyarchInstr::Fsr { dest, v, q, f, x: false, w, r }, ip)
            &&& dest@ != 0 ==> shl.1[0][dest@ as int] == ((wide << (quan as u64)) >> 32u64) as u32
            &&& dest@ != 0 ==> shr.1[0][dest@ as int] == ((wide >> (quan as u64)) as u32)
        }),
{
    let val = regs[0][v@ as int];
    let quan = regs[0][q@ as int];
    let fill = if val & 0x8000_0000u32 != 0 { regs[0][r@ as int] ^ 0xFFFF_FFFFu32 } else { regs[0][r@ as int] };
    assert(fill_word(val, regs[0][r@ as int], true) == fill);
    crate::regs::lemma_funnel_shifts(val, fill, quan);
}

/// The requests of the add and subtract instructions: the operand selected
/// by `p` is shifted by `s` and the other by one; an add carries in 1 exactly
/// when the instruction's `c` bit and the carry flag (bit 0) are both set,
/// and a subtract carries in 1 exactly when they are not both set.
pub proof fn lemma_arith_requests(
    core: SkyarchView,
    regs: Seq<Seq<u32>>,
    fl: u32,
    dest: SkyarchRegno,
    a: SkyarchRegno,
    b: SkyarchRegno,
    f: bool,
    s: u8,
    p: bool,
    c: bool,
    ip: u32,
)
    ensures
        step_spec(core, regs, fl, SkyarchInstr::Add { dest, a, b, f, s, p, c }, ip) == (core, regs, fl, Step::Arith(ArithRequest {
            kind: ArithKind::Add,
            a: regs[0][a@ as int] << (if p { s as u32 } else { 1u32 }),
            b: regs[0][b@ as int] << (if p { 1u32 } else { s as u32 }),
            carry: if c && fl & 1u32 != 0 { 1u32 } else { 0u32 },
            dest,
            update_flags: f,
        })),
        step_spec(core, regs, fl, SkyarchInstr::Sub { dest, a, b, f, s, p, c }, ip) == (core, regs, fl, Step::Arith(ArithRequest {
            kind: ArithKind::Sub,
            a: regs[0][a@ as int] << (if p { s as u32 } else { 1u32 }),
            b: regs[0][b@ as int] << (if p { 1u32 } else { s as u32 }),
            carry: if c && fl & 1u32 != 0 { 0u32 } else { 1u32 },
            dest,
            update_flags: f,
        })),
        !c ==> (step_spec(core, regs, fl, SkyarchInstr::Add { dest, a, b, f, s, p, c }, ip).3 matches Step::Arith(req) && req.carry == 0),
{
}

/// Loads and stores fault for alignment exactly when the address has a bit
/// of its width's mask set: never for bytes, when bit 0 is set for half
/// words, when bit 0 or 1 is set for words. Otherwise a load requests the
/// register's address at its width and a store writes there.
pub proof fn lemma_access_alignment(
    core: SkyarchView,
    regs: Seq<Seq<u32>>,
    fl: u32,
    dest: SkyarchRegno,
    src: SkyarchRegno,
    width: MemWidth,
    mode: crate::instr::UpdateMode,
    order: crate::instr::MemOrdering,
    ip: u32,
)
    requires
        width != MemWidth::Double,
    ensures
        ({
            let mask: u32 = if width == MemWidth::Byte { 0 } else if width == MemWidth::Half { 1 } else { 3 };
            let la = regs[0][src@ as int];
            let sa = regs[0][dest@ as int];
            let ld = step_spec(core, regs, fl, SkyarchInstr::Ld { dest, src, width, mode, order }, ip);
            let ldl = step_spec(core, regs, fl, SkyarchInstr::Ldil { dest, src, width, order }, ip);
            let st = step_spec(core, regs, fl, SkyarchInstr::St { dest, src, width, mode, order }, ip);
            &&& ld.3 == (if la & mask != 0 {
                Step::Fault(SkyarchException::BusError)
            } else {
                Step::Load(LoadRequest { addr: la, width, dest, dest2: None, linked: false })
            })
            &&& ldl.3 == (if la & mask != 0 {
                Step::Fault(SkyarchException::BusError)
            } else {
                Step::Load(LoadRequest { addr: la, width, dest, dest2: None, linked: true })
            })
            &&& (st.3 is Fault <==> sa & mask != 0)
            &&& (st.3 matches Step::Store { addr, .. } ==> addr == sa)
            &&& (width == MemWidth::Byte ==> !(ld.3 is Fault) && !(st.3 is Fault) && !(ldl.3 is Fault))
        }),
{
    if width == MemWidth::Byte {
        let la = regs[0][src@ as int];
        let sa = regs[0][dest@ as int];
        assert(la & 0u32 == 0u32 && sa & 0u32 == 0u32) by (bit_vector);
    }
}

/// Taking an exception with interrupts enabled (a nonzero mask, abort clear)
/// vectors through the slot of the exception's own number: the table base
/// plus eight times its vector number.
pub proof fn lemma_exception_slot(regs: Seq<Seq<u32>>, e: SkyarchException, ip: u32)
    requires
        regs_wf(regs),
        regs[1][0] & 0x8000_0000u32 == 0,
        regs[1][0] & 3u32 != 0,
    ensures
        except_spec(regs, e, ip).1 == Some(wadd(regs[1][31] & !7u32, (8 * e.spec_code()) as u32)),
        e == SkyarchException::BusError ==> except_spec(regs, e, ip).1 == Some(wadd(regs[1][31] & !7u32, 8)),
        e == SkyarchException::UnalignedBranch ==> except_spec(regs, e, ip).1 == Some(wadd(regs[1][31] & !7u32, 24)),
{
    let c = regs[1][0];
    assert(c & 3u32 != 0u32 ==> c & 3u32 >= 1u32) by (bit_vector);
    let k = e.spec_code() as u32;
    assert(k < 16u32 ==> k << 3u32 == 8u32 * k) by (bit_vector);
    crate::except::lemma_vector_numbers();
}

/// The carry a funnel shift with flags reports: for a shift left, whether
/// any bit of the value is shifted out of the top of the pair; for a shift
/// right, whether any of the value's low `q` bits is nonzero. Neither
/// reports overflow.
pub proof fn lemma_funnel_carry(
    core: SkyarchView,
    regs: Seq<Seq<u32>>,
    fl: u32,
    dest: SkyarchRegno,
    v: SkyarchRegno,
    q: SkyarchRegno,
    r: SkyarchRegno,
    x: bool,
    w: bool,
    ip: u32,
)
    requires
        regs_wf(regs),
        regs[0][q@ as int] < 32,
    ensures
        ({
            let val = regs[0][v@ as int];
            let quan = regs[0][q@ as int];
            let shl = step_spec(core, regs, fl, SkyarchInstr::Fsl { dest, v, q, f: true, x, w, r }, ip);
            let shr = step_spec(core, regs, fl, SkyarchInstr::Fsr { dest, v, q, f: true, x, w, r }, ip);
            &&& shl.3 matches Step::LogicFlags { shift_flags: Some((carry, overflow)), .. }
                && carry == ((((val as u64) << (quan as u64)) >> 32u64) != 0) && !overflow
            &&& shr.3 matches Step::LogicFlags { shift_flags: Some((carry, overflow)), .. }
                && carry == (val & (((1u64 << (quan as u64)) - 1) as u32) != 0) && !overflow
        }),
{
    let val = regs[0][v@ as int];
    let quan = regs[0][q@ as int];
    if quan == 0 {
        assert((((val as u64) << 0u64) >> 32u64) == 0u64 && val & (((1u64 << 0u64) - 1) as u32) == 0u32) by (bit_vector);
    } else {
        let m = (32 - quan) as u32;
        assert(0 < quan < 32 && m == 32 - quan ==> ((val >> m) != 0u32) == ((((val as u64) << (quan as u64)) >> 32u64) != 0u64)) by (bit_vector);
        assert(0 < quan < 32 && m == 32 - quan ==> ((val << m) != 0u32) == (val & (((1u64 << (quan as u64)) - 1) as u32) != 0u32)) by (bit_vector);
    }
}

/// The alignment the other address-taking instructions demand: a store
/// conditional faults when its address has a bit of its width's mask set,
/// the pair forms when any of the low three bits is set, and a register jump
/// when either of the low two bits is set.
pub proof fn lemma_other_alignment(core: SkyarchView, regs: Seq<Seq<u32>>, fl: u32, instr: SkyarchInstr, ip: u32)
    ensures
        instr matches SkyarchInstr::Stic { dest, width, .. } ==> ((step_spec(core, regs, fl, instr, ip).3 is Fault) <==> regs[0][dest@ as int] & (if width == MemWidth::Byte { 0u32 } else if width == MemWidth::Half { 1u32 } else if width == MemWidth::Word { 3u32 } else { 7u32 }) != 0),
        instr matches SkyarchInstr::Sticw { dest, .. } ==> ((step_spec(core, regs, fl, instr, ip).3 is Fault) <==> regs[0][dest@ as int] & 7u32 != 0),
        instr matches SkyarchInstr::Ldilw { src, .. } ==> ((step_spec(core, regs, fl, instr, ip).3 is Fault) <==> regs[0][src@ as int] & 7u32 != 0),
        instr matches SkyarchInstr::Jmpr { r, .. } ==> (step_spec(core, regs, fl, instr, ip).3 == Step::Fault(SkyarchException::UnalignedBranch) <==> regs[0][r@ as int] & 3u32 != 0),
{
}

} // verus!
