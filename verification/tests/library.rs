//! Unit tests of the register maps, flags, decoder and step function.

use skyarch::cpu::{ArithKind, LoadRequest, MemData, Skyarch, Step};
use skyarch::except::SkyarchException;
use skyarch::instr::{ConditionCode, MemOrdering, MemWidth, SkyarchInstr, UpdateMode};
use skyarch::intr::{IntSlot, Intctl, Intret};
use skyarch::regs::{RegMap, SkyarchFlags, SkyarchRegisters, SkyarchRegno};

fn rn(n: u8) -> SkyarchRegno {
    SkyarchRegno::from_bits(n)
}

fn word(op: u32, fields: &[(u32, u32)]) -> u32 {
    let mut w = op;
    for (lo, v) in fields {
        w |= v << lo;
    }
    w
}

struct Core {
    core: Skyarch,
    regs: SkyarchRegisters,
    flags: SkyarchFlags,
}

impl Core {
    fn new() -> Core {
        let mut regs = SkyarchRegisters::new();
        Skyarch::reset(&mut regs);
        Core { core: Skyarch::new(), regs, flags: SkyarchFlags::new() }
    }

    fn set(&mut self, r: u8, v: u32) {
        self.regs.write_gpr(rn(r), v);
    }

    fn get(&self, r: u8) -> u32 {
        self.regs.read_gpr(rn(r))
    }

    fn step(&mut self, w: u32, ip: u32) -> Step {
        let instr = Skyarch::decode(&self.regs, w).expect("decodes");
        self.core.execute(&mut self.regs, &mut self.flags, instr, ip)
    }
}

// ---------------------------------------------------------------- registers

#[test]
fn new_register_file_is_zero() {
    let regs = SkyarchRegisters::new();
    for m in 0..16u8 {
        let row = regs.map(RegMap::from_bits(m));
        assert!(row.iter().all(|&v| v == 0));
    }
}

#[test]
fn register_zero_reads_zero() {
    let mut regs = SkyarchRegisters::new();
    regs.write_gpr(rn(0), 0x1234);
    assert_eq!(regs.read_gpr(rn(0)), 0);
    assert_eq!(regs.write(RegMap::Gprs, rn(0), 7), Ok(()));
    assert_eq!(regs.read(RegMap::Gprs, rn(0)), Ok(0));
    regs.write_gpr(rn(5), 0x1234);
    assert_eq!(regs.read_gpr(rn(5)), 0x1234);
}

#[test]
fn write_then_read_gives_value_back() {
    let mut regs = SkyarchRegisters::new();
    regs.reset(0xFF);
    assert_eq!(regs.write(RegMap::Io, rn(3), 0xAABB), Ok(()));
    assert_eq!(regs.read(RegMap::Io, rn(3)), Ok(0xAABB));
    assert_eq!(regs.write(RegMap::Intr, rn(5), 0x55), Ok(()));
    assert_eq!(regs.read(RegMap::Intr, rn(5)), Ok(0x55));
    assert_eq!(regs.write(RegMap::Gprs, rn(9), 99), Ok(()));
    assert_eq!(regs.read(RegMap::Gprs, rn(9)), Ok(99));
    assert_eq!(regs.write(RegMap::CoprocessorControl, rn(30), 0x3), Ok(()));
    assert_eq!(regs.read(RegMap::CoprocessorControl, rn(30)), Ok(0x3));
    assert_eq!(regs.write(RegMap::CoprocessorControl, rn(1), 0x77), Ok(()));
    assert_eq!(regs.read(RegMap::CoprocessorControl, rn(1)), Ok(0x77));
}

#[test]
fn refused_writes_change_nothing() {
    let mut regs = SkyarchRegisters::new();
    regs.reset(0x1);
    assert_eq!(regs.write(RegMap::Intr, rn(0), 0x4), Err(SkyarchException::Consistency));
    assert_eq!(regs.read(RegMap::Intr, rn(0)), Ok(0));
    assert_eq!(regs.write(RegMap::Intr, rn(0), 0x8000_0002), Ok(()));
    assert_eq!(regs.intr().intctl.mask(), 2);
    assert!(regs.intr().intctl.abort());
    assert_eq!(regs.write(RegMap::Intr, rn(31), 0x104), Err(SkyarchException::Consistency));
    assert_eq!(regs.write(RegMap::Intr, rn(31), 0x108), Ok(()));
    assert_eq!(regs.intr().inttab.addr(), 0x108);
    assert_eq!(regs.write(RegMap::Intr, rn(12), 1), Err(SkyarchException::Undefined));
    assert_eq!(regs.write(RegMap::Info, rn(1), 1), Err(SkyarchException::Undefined));
    assert_eq!(regs.write(RegMap::_Reserved6, rn(1), 1), Err(SkyarchException::Undefined));
    assert_eq!(regs.write(RegMap::CoprocessorControl, rn(30), 0x2), Err(SkyarchException::Consistency));
    assert_eq!(regs.write(RegMap::CoprocessorControl, rn(3), 0x2), Err(SkyarchException::Undefined));
    assert_eq!(regs.write(RegMap::CoprocessorControl, rn(31), 0xFF), Err(SkyarchException::Undefined));
    assert_eq!(regs.coctl().coprocessors_available, 0x1);
    assert_eq!(regs.coctl().coprocessors_enabled, 0);
}

#[test]
fn check_write_predicts_write() {
    let mut regs = SkyarchRegisters::new();
    regs.reset(0x1);
    let maps = [RegMap::Gprs, RegMap::Intr, RegMap::Io, RegMap::Info, RegMap::CoprocessorControl, RegMap::_Reserved5];
    for m in maps {
        for r in 0..32u8 {
            let check = regs.check_write(m, rn(r));
            let mut copy = SkyarchRegisters::new();
            copy.reset(0x1);
            let res = copy.write(m, rn(r), 0);
            match check {
                Err(e) => assert_eq!(res, Err(e)),
                Ok(()) => assert!(res == Ok(()) || res == Err(SkyarchException::Consistency)),
            }
        }
    }
}

#[test]
fn reads_of_special_maps() {
    let mut regs = SkyarchRegisters::new();
    regs.reset(0x4);
    assert_eq!(regs.read(RegMap::Info, rn(7)), Ok(0));
    assert_eq!(regs.read(RegMap::_Reserved7, rn(7)), Err(SkyarchException::Undefined));
    assert_eq!(regs.read(RegMap::Intr, rn(20)), Err(SkyarchException::Undefined));
    assert_eq!(regs.read(RegMap::CoprocessorControl, rn(31)), Ok(0x4));
    assert_eq!(regs.read(RegMap::CoprocessorControl, rn(2)), Err(SkyarchException::Undefined));
    assert_eq!(regs.read(RegMap::Coprocessor2, rn(0)), Err(SkyarchException::Undefined));
    assert_eq!(regs.check_write(RegMap::Coprocessor2, rn(0)), Err(SkyarchException::Undefined));
    assert_eq!(regs.write(RegMap::CoprocessorControl, rn(30), 0x4), Ok(()));
    assert_eq!(regs.coprocessor_enabled(2), Ok(()));
    assert_eq!(regs.coprocessor_enabled(1), Err(SkyarchException::Undefined));
    assert_eq!(regs.read(RegMap::Coprocessor2, rn(0)), Ok(0));
    assert_eq!(regs.check_write(RegMap::Coprocessor2, rn(0)), Ok(()));
    assert_eq!(regs.read(RegMap::CoprocessorControl, rn(2)), Ok(0));
}

#[test]
fn reset_disables_every_coprocessor() {
    let mut regs = SkyarchRegisters::new();
    regs.reset(0xFF);
    for n in 0..8 {
        assert_eq!(regs.coprocessor_enabled(n), Err(SkyarchException::Undefined));
    }
    assert_eq!(regs.coctl().coprocessors_available, 0xFF);
    assert_eq!(Skyarch::reset(&mut regs), 0xFF00);
    assert_eq!(regs.coctl().coprocessors_available, 0);
}

#[test]
fn shift_register_behaviour() {
    let mut regs = SkyarchRegisters::new();
    assert_eq!(regs.io_shift(rn(4), 0xCAFE_BABE, 32), 0);
    let mut copy = regs.io().io[4];
    assert_eq!(copy.shift(0, 32), 0xCAFE_BABE);
    assert_eq!(regs.io_shift(rn(4), 0x1, 8), 0xCA);
    assert_eq!(regs.io_shift(rn(4), 0x1, 0), 0);
    assert_eq!(regs.io_shift(rn(4), 0x1234, 32), 0xCAFE_BABE);
    assert_eq!(regs.read(RegMap::Io, rn(4)), Ok(0x1234));
}

// ---------------------------------------------------------------- flags

#[test]
fn xvp_swaps_overflow_and_parity() {
    for bits in 0..32u32 {
        let mut f = SkyarchFlags::from_bits(bits);
        f.xvp();
        assert_eq!(f.p(), bits & 2 != 0);
        assert_eq!(f.v(), bits & 16 != 0);
        assert_eq!(f.bits() & !18, bits & !18);
        f.xvp();
        assert_eq!(f.bits(), bits);
    }
}

#[test]
fn flag_setters() {
    let mut f = SkyarchFlags::new();
    f.set_carry(true);
    f.set_overflow(true);
    f.set_logic(true, false, true);
    assert_eq!(f.bits(), 0b11011);
    assert!(f.c() && f.v() && f.z() && f.p() && !f.n());
    f.set_logic(false, true, false);
    assert_eq!(f.bits(), 0b00111);
}

#[test]
fn condition_codes_come_in_complementary_pairs() {
    for code in 0..16u8 {
        let cc = ConditionCode::from_bits(code);
        assert_eq!(cc.bits(), code);
        let other = ConditionCode::from_bits(15 - code);
        for bits in 0..32u32 {
            let f = SkyarchFlags::from_bits(bits);
            assert_eq!(other.check_condition(f), !cc.check_condition(f));
        }
    }
}

#[test]
fn condition_code_values() {
    let f = SkyarchFlags::from_bits(0b01001); // carry and zero
    assert!(ConditionCode::Carry.check_condition(f));
    assert!(ConditionCode::CarryOrEqual.check_condition(f));
    assert!(!ConditionCode::Above.check_condition(f));
    assert!(!ConditionCode::SignedLess.check_condition(f));
    assert!(ConditionCode::SignedGreaterOrEq.check_condition(f));
    assert!(!ConditionCode::Never.check_condition(f));
    assert!(ConditionCode::Always.check_condition(f));
}

// ---------------------------------------------------------------- encodings

#[test]
fn field_encodings_round_trip() {
    for v in 0..16u8 {
        assert_eq!(RegMap::from_bits(v).bits(), v);
    }
    for v in 0..32u8 {
        assert_eq!(rn(v).get(), v);
    }
    assert_eq!(SkyarchRegno::zero().get(), 0);
    assert_eq!(MemWidth::from_bits(3), MemWidth::Double);
    assert_eq!(MemWidth::Word.amask(), 3);
    assert_eq!(MemWidth::Double.amask(), 7);
    assert_eq!(UpdateMode::from_bits(2), UpdateMode::_Reserved);
    assert_eq!(MemOrdering::from_bits(1), MemOrdering::Acquire);
}

#[test]
fn exception_codes() {
    assert_eq!(SkyarchException::Abort.code(), 0);
    assert_eq!(SkyarchException::Consistency.code(), 4);
    assert_eq!(SkyarchException::PriorityIrq.code(), 7);
    assert_eq!(SkyarchException::Coprocessor7.code(), 15);
}

#[test]
fn interrupt_register_fields() {
    let mut c = Intctl::from_bits(0x8000_0001);
    assert_eq!(c.mask(), 1);
    assert!(c.abort());
    c.set_mask(3);
    assert_eq!(c.bits(), 0x8000_0003);
    assert_eq!(Intctl::new().with_abort(true).bits(), 0x8000_0000);
    let r = Intret::new().with_addr(0x1237).with_retmask(2);
    assert_eq!(r.bits(), 0x1236);
    assert_eq!(r.addr(), 0x1234);
    assert_eq!(r.retmask(), 2);
}

// ---------------------------------------------------------------- decoding

#[test]
fn decode_mov_fields() {
    let i = SkyarchInstr::decode(0x0A05E002).unwrap();
    assert_eq!(i, SkyarchInstr::Mov { dest: rn(0), cc: ConditionCode::Always, l: false, src: rn(1), dir: true, map: RegMap::Io });
}

#[test]
fn decode_ldi_and_addi_fields() {
    assert_eq!(SkyarchInstr::decode(0xDEAF0105), Ok(SkyarchInstr::Ldi { dest: rn(1), x: false, i: 0xDEAF }));
    assert_eq!(
        SkyarchInstr::decode(0xDEAD8108),
        Ok(SkyarchInstr::Addi { dest: rn(1), x: false, f: false, h: true, i: 0xDEAD })
    );
}

#[test]
fn decode_unknown_opcodes() {
    for op in [0x07u32, 0x13, 0x16, 0x1B, 0x21, 0x31, 0x42, 0x80] {
        assert_eq!(SkyarchInstr::decode(op), Err(SkyarchException::Undefined));
    }
    assert!(matches!(SkyarchInstr::decode(0x20), Ok(SkyarchInstr::Cpi(_))));
    assert!(matches!(SkyarchInstr::decode(0x30), Ok(SkyarchInstr::Cpi(_))));
    assert!(matches!(SkyarchInstr::decode(0x00), Ok(SkyarchInstr::Und00 { ing: 0 })));
    assert!(matches!(SkyarchInstr::decode(0xFF), Ok(SkyarchInstr::UndFF { ing: 0 })));
}

#[test]
fn validation_refuses_reserved_encodings() {
    let regs = SkyarchRegisters::new();
    assert_eq!(Skyarch::decode(&regs, 0x0000_0000), Err(SkyarchException::Undefined));
    // store through register 0
    assert_eq!(Skyarch::decode(&regs, word(0x03, &[(13, 1), (18, 2)])), Err(SkyarchException::Undefined));
    // store with acquire ordering
    assert_eq!(Skyarch::decode(&regs, word(0x03, &[(8, 1), (18, 2), (30, 1)])), Err(SkyarchException::Undefined));
    // 64-bit load
    assert_eq!(Skyarch::decode(&regs, word(0x04, &[(13, 1), (18, 3)])), Err(SkyarchException::Undefined));
    assert!(Skyarch::decode(&regs, word(0x04, &[(13, 1), (18, 2)])).is_ok());
    // coprocessor 0 disabled
    assert_eq!(Skyarch::decode(&regs, 0x20), Err(SkyarchException::Undefined));
    // relaxed fence
    assert_eq!(Skyarch::decode(&regs, 0x48), Err(SkyarchException::Undefined));
    assert!(Skyarch::decode(&regs, word(0x48, &[(30, 3)])).is_ok());
    // iret through register 0, zero-width extension, random bits without f
    assert_eq!(Skyarch::decode(&regs, 0x12), Err(SkyarchException::Undefined));
    assert_eq!(Skyarch::decode(&regs, 0x1D), Err(SkyarchException::Undefined));
    assert_eq!(Skyarch::decode(&regs, 0x1F), Err(SkyarchException::Undefined));
    // addi with both h and x
    assert_eq!(Skyarch::decode(&regs, word(0x08, &[(13, 1), (15, 1)])), Err(SkyarchException::Undefined));
}

#[test]
fn cpi_payload_fields() {
    match SkyarchInstr::decode(word(0x20, &[(8, 5), (12, 0xABCDE)])) {
        Ok(SkyarchInstr::Cpi(p)) => {
            assert_eq!(p.f, 5);
            assert_eq!(p.p, 0xABCDE);
            assert_eq!(p.coprocessor(), 0);
            assert!(!p.nonblocking());
        },
        other => panic!("unexpected {:?}", other),
    }
}

// ---------------------------------------------------------------- execution

#[test]
fn ldi_sign_fills_high_half() {
    let mut c = Core::new();
    assert_eq!(c.step(word(0x05, &[(8, 3), (13, 1), (16, 0x1234)]), 0), Step::Next);
    assert_eq!(c.get(3), 0xFFFF_1234);
    c.step(word(0x05, &[(8, 3), (16, 0x1234)]), 0);
    assert_eq!(c.get(3), 0x0000_1234);
}

#[test]
fn lra_adds_instruction_address() {
    let mut c = Core::new();
    c.step(word(0x06, &[(8, 2), (16, 0x10)]), 0x100);
    assert_eq!(c.get(2), 0x110);
    c.step(word(0x06, &[(8, 2), (13, 1), (16, 0xFFFC)]), 0x100);
    assert_eq!(c.get(2), 0xFC);
}

#[test]
fn add_and_sub_requests() {
    let mut c = Core::new();
    c.set(1, 3);
    c.set(2, 5);
    // add r3 = (r1 << 1) + (r2 << 2), with flags
    let s = c.step(word(0x09, &[(8, 3), (13, 1), (18, 2), (23, 1), (24, 2)]), 0);
    match s {
        Step::Arith(req) => {
            assert_eq!(req.kind, ArithKind::Add);
            assert_eq!((req.a, req.b, req.carry), (6, 20, 0));
            assert_eq!(req.dest.get(), 3);
            assert!(req.update_flags);
            let nf = SkyarchFlags::from_bits(0b1000);
            Skyarch::complete_arith(&mut c.regs, &mut c.flags, req, 26, nf);
            assert_eq!(c.get(3), 26);
            assert_eq!(c.flags.bits(), 0b1000);
        },
        other => panic!("unexpected {:?}", other),
    }
    // sub with p: the first operand takes the shift
    match c.step(word(0x0A, &[(8, 3), (13, 1), (18, 2), (24, 4), (29, 1)]), 0) {
        Step::Arith(req) => {
            assert_eq!(req.kind, ArithKind::Sub);
            assert_eq!((req.a, req.b, req.carry), (48, 10, 1));
            assert!(!req.update_flags);
        },
        other => panic!("unexpected {:?}", other),
    }
}

#[test]
fn logic_operations() {
    let mut c = Core::new();
    c.set(1, 0b1100);
    c.set(2, 0b0110);
    // and r3 = (r1 << 1) & (r2 << 0)
    assert_eq!(c.step(word(0x0B, &[(8, 3), (13, 1), (18, 2)]), 0), Step::Next);
    assert_eq!(c.get(3), 0b0000);
    // or with flags requested
    let s = c.step(word(0x0C, &[(8, 3), (13, 1), (18, 2), (23, 1)]), 0);
    assert_eq!(s, Step::LogicFlags { value: 0b11110, shift_flags: None });
    assert_eq!(c.get(3), 0b11110);
    // the exclusive-or opcode combines its operands with "and"
    c.step(word(0x0D, &[(8, 3), (13, 1), (18, 2), (24, 1), (29, 1)]), 0);
    assert_eq!(c.get(3), (0b11000 & 0b1100));
    // inverted operands
    c.step(word(0x0B, &[(8, 3), (13, 1), (18, 2), (29, 1), (30, 1)]), 0);
    assert_eq!(c.get(3), !(0b1100u32) & !(0b1100u32));
}

#[test]
fn funnel_shifts() {
    let mut c = Core::new();
    c.set(1, 0x8000_0001);
    c.set(2, 1);
    c.set(3, 0x8000_0000);
    let s = c.step(word(0x0E, &[(8, 4), (13, 1), (18, 2), (23, 1), (27, 3)]), 0);
    assert_eq!(c.get(4), 3);
    assert_eq!(s, Step::LogicFlags { value: 3, shift_flags: Some((true, false)) });
    c.set(1, 1);
    c.set(2, 4);
    c.set(3, 0xF0);
    let s = c.step(word(0x0F, &[(8, 4), (13, 1), (18, 2), (27, 3)]), 0);
    assert_eq!(s, Step::Next);
    assert_eq!(c.get(4), 0x1000_000F);
    // shift by zero: left keeps the value, right keeps the fill word
    c.set(2, 0);
    c.step(word(0x0E, &[(8, 4), (13, 1), (18, 2), (27, 3)]), 0);
    assert_eq!(c.get(4), 1);
    c.step(word(0x0F, &[(8, 4), (13, 1), (18, 2), (27, 3)]), 0);
    assert_eq!(c.get(4), 0xF0);
}

#[test]
fn jumps() {
    let mut c = Core::new();
    let s = c.step(word(0x10, &[(8, 31), (13, 15), (17, 4)]), 0x100);
    assert_eq!(s, Step::Jump(0x110));
    assert_eq!(c.get(31), 0x100);
    let s = c.step(word(0x10, &[(8, 31), (13, 15), (17, 0x3FFF), (31, 1)]), 0x100);
    assert_eq!(s, Step::Jump(0xFC));
    // never taken
    assert_eq!(c.step(word(0x10, &[(8, 30), (17, 4)]), 0x200), Step::Next);
    assert_eq!(c.get(30), 0);
    c.set(5, 0x402);
    assert_eq!(c.step(word(0x11, &[(8, 6), (13, 15), (18, 5)]), 0x100), Step::Fault(SkyarchException::UnalignedBranch));
    c.set(5, 0x400);
    assert_eq!(c.step(word(0x11, &[(8, 6), (13, 15), (18, 5)]), 0x100), Step::Jump(0x400));
    assert_eq!(c.get(6), 0x100);
}

#[test]
fn stores_and_loads() {
    let mut c = Core::new();
    c.set(1, 0x1001);
    c.set(2, 0xAABB_CCDD);
    // half-word store to an odd address
    assert_eq!(c.step(word(0x03, &[(8, 1), (13, 2), (18, 1)]), 0), Step::Fault(SkyarchException::BusError));
    assert_eq!(c.step(word(0x03, &[(8, 1), (13, 2), (18, 0)]), 0), Step::Store { addr: 0x1001, data: MemData::Byte(0xDD) });
    c.set(1, 0x1000);
    assert_eq!(c.step(word(0x03, &[(8, 1), (13, 2), (18, 2)]), 0), Step::Store { addr: 0x1000, data: MemData::Word(0xAABB_CCDD) });
    assert_eq!(c.step(word(0x03, &[(8, 1), (13, 2), (18, 1)]), 0), Step::Store { addr: 0x1000, data: MemData::Half(0xCCDD) });
    let s = c.step(word(0x04, &[(8, 7), (13, 1), (18, 1)]), 0);
    let req = LoadRequest { addr: 0x1000, width: MemWidth::Half, dest: rn(7), dest2: None, linked: false };
    assert_eq!(s, Step::Load(req));
    c.core.complete_load(&mut c.regs, req, MemData::Half(0xBEEF));
    assert_eq!(c.get(7), 0xBEEF);
}

#[test]
fn linked_load_then_store_conditional() {
    let mut c = Core::new();
    c.set(1, 0x2000);
    c.set(2, 77);
    let s = c.step(word(0x4C, &[(8, 3), (13, 1), (18, 2)]), 0);
    let req = LoadRequest { addr: 0x2000, width: MemWidth::Word, dest: rn(3), dest2: None, linked: true };
    assert_eq!(s, Step::Load(req));
    c.core.complete_load(&mut c.regs, req, MemData::Word(5));
    assert_eq!(c.get(3), 5);
    let stic = word(0x4B, &[(8, 1), (13, 2), (18, 2), (23, 1)]);
    assert_eq!(c.step(stic, 0), Step::StoreConditional { addr: 0x2000, data: MemData::Word(77), success: true });
    assert_eq!(c.step(stic, 0), Step::StoreConditional { addr: 0x2000, data: MemData::Word(77), success: false });
    // a pair load arms the monitor for a pair store
    c.set(4, 0x3000);
    let s = c.step(word(0x4E, &[(8, 5), (13, 4), (18, 6)]), 0);
    let req = LoadRequest { addr: 0x3000, width: MemWidth::Double, dest: rn(5), dest2: Some(rn(6)), linked: true };
    assert_eq!(s, Step::Load(req));
    c.core.complete_load(&mut c.regs, req, MemData::Double(1, 2));
    assert_eq!((c.get(5), c.get(6)), (1, 2));
    let sticw = word(0x4D, &[(8, 4), (13, 5), (18, 6), (23, 1)]);
    assert_eq!(c.step(sticw, 0), Step::StoreConditional { addr: 0x3000, data: MemData::Double(1, 2), success: true });
    // a different address fails
    c.core.complete_load(&mut c.regs, req, MemData::Double(1, 2));
    c.set(4, 0x3008);
    assert_eq!(c.step(sticw, 0), Step::StoreConditional { addr: 0x3008, data: MemData::Double(1, 2), success: false });
}

#[test]
fn register_moves_and_flags() {
    let mut c = Core::new();
    c.set(1, 11);
    c.set(2, 22);
    c.step(word(0x1C, &[(8, 1), (18, 2)]), 0);
    assert_eq!((c.get(1), c.get(2)), (22, 11));
    c.set(3, 0x1234_56F5);
    c.step(word(0x19, &[(8, 3), (13, 0x1B)]), 0);
    assert_eq!(c.flags.bits(), 0x11);
    c.step(word(0x1A, &[]), 0);
    assert_eq!(c.flags.bits(), 0x03);
    c.step(word(0x18, &[(8, 4), (13, 0x15)]), 0);
    assert_eq!(c.get(4), 0x15);
    c.step(word(0x1E, &[(8, 5), (13, 3)]), 0);
    assert_eq!(c.get(5), 0xF556_3412);
}

#[test]
fn extension() {
    let mut c = Core::new();
    c.set(1, 0x1234_5678);
    c.step(word(0x1D, &[(8, 2), (13, 1), (27, 8)]), 0);
    assert_eq!(c.get(2), 0xFFFF_FF78);
    c.set(1, 0x80);
    c.step(word(0x1D, &[(8, 2), (13, 1), (18, 1), (27, 8)]), 0);
    assert_eq!(c.get(2), 0xFFFF_FF80);
}

#[test]
fn moves_between_maps() {
    let mut c = Core::new();
    c.set(1, 0x55);
    // r1 -> io[7]
    assert_eq!(c.step(word(0x02, &[(8, 7), (13, 15), (18, 1), (25, 1), (26, 2)]), 0), Step::Next);
    assert_eq!(c.regs.read(RegMap::Io, rn(7)), Ok(0x55));
    // io[7] -> r9
    c.step(word(0x02, &[(8, 9), (13, 15), (18, 7), (26, 2)]), 0);
    assert_eq!(c.get(9), 0x55);
    // a refused read, a refused write and an untaken move
    assert_eq!(c.step(word(0x02, &[(8, 9), (13, 15), (18, 7), (26, 5)]), 0), Step::Fault(SkyarchException::Undefined));
    assert_eq!(c.step(word(0x02, &[(8, 12), (13, 15), (18, 1), (25, 1), (26, 1)]), 0), Step::Fault(SkyarchException::Undefined));
    assert_eq!(c.step(word(0x02, &[(8, 0), (13, 15), (18, 1), (25, 1), (26, 1)]), 0), Step::Fault(SkyarchException::Consistency));
    assert_eq!(c.step(word(0x02, &[(8, 8), (18, 1), (25, 1), (26, 2)]), 0), Step::Next);
    assert_eq!(c.regs.read(RegMap::Io, rn(8)), Ok(0));
}

#[test]
fn ports() {
    let mut c = Core::new();
    let s = c.step(word(0x14, &[(8, 2), (13, 0x40)]), 0);
    assert_eq!(s, Step::PortIn { port: 0x40, width: 32, reg: rn(2) });
    Skyarch::complete_port_in(&mut c.regs, rn(2), 0xABCD_0000, 32);
    let s = c.step(word(0x15, &[(8, 2), (13, 0x41), (27, 16)]), 0);
    assert_eq!(s, Step::PortOut { port: 0x41, bits: 0xABCD, width: 16 });
    let s = c.step(word(0x15, &[(8, 2), (13, 0x41)]), 0);
    assert_eq!(s, Step::PortOut { port: 0x41, bits: 0xABCD_0000, width: 32 });
    assert_eq!(c.regs.read(RegMap::Io, rn(2)), Ok(0));
}

#[test]
fn halt_pause_breakpoint_and_random() {
    let mut c = Core::new();
    assert_eq!(c.step(0x40, 0), Step::Halt);
    assert_eq!(c.step(word(0x40, &[(8, 3)]), 0), Step::Pause);
    assert_eq!(c.core.active_mask(), 3);
    assert_eq!(c.step(0x41, 0), Step::Fault(SkyarchException::Breakpoint));
    assert_eq!(c.step(0x01, 0), Step::Next);
    let s = c.step(word(0x1F, &[(8, 1), (18, 2), (23, 1)]), 0);
    assert_eq!(s, Step::Random { dest: rn(1), err: rn(2) });
    c.flags.set_z(true);
    Skyarch::complete_random(&mut c.regs, &mut c.flags, rn(1), rn(2), Some(0x99));
    assert_eq!((c.get(1), c.get(2)), (0x99, 0xFFFF));
    assert!(!c.flags.z());
    Skyarch::complete_random(&mut c.regs, &mut c.flags, rn(1), rn(2), None);
    assert_eq!((c.get(1), c.get(2)), (0, 0x3_0000));
}

// ---------------------------------------------------------------- exceptions

#[test]
fn exceptions_with_masked_interrupts_abort() {
    let mut regs = SkyarchRegisters::new();
    assert_eq!(regs.write(RegMap::Intr, rn(31), 0x800), Ok(()));
    // mask 0: the exception becomes Abort, vector 0
    assert_eq!(Skyarch::handle_except(&mut regs, SkyarchException::BusError, 0x44), Some(0x800));
    assert_eq!(regs.intr().intctl.bits(), 0x8000_0000);
    assert_eq!(regs.intr().intret[0].bits(), 0);
    // a second exception stops the core
    assert_eq!(Skyarch::handle_except(&mut regs, SkyarchException::BusError, 0x48), None);
}

#[test]
fn exception_then_return() {
    let mut c = Core::new();
    assert_eq!(c.regs.write(RegMap::Intr, rn(0), 2), Ok(()));
    assert_eq!(c.regs.write(RegMap::Intr, rn(31), 0x800), Ok(()));
    assert_eq!(Skyarch::handle_except(&mut c.regs, SkyarchException::Consistency, 0x1234), Some(0x820));
    assert_eq!(c.regs.intr().intret[0].bits(), 0x1236);
    let s = c.step(word(0x12, &[(18, 1)]), 0x900);
    assert_eq!(s, Step::Jump(0x1234));
    assert_eq!(c.regs.intr().intctl.mask(), 2);
    assert!(c.regs.intr().intctl.abort());
}

#[test]
fn vector_targets() {
    assert_eq!(Skyarch::vector_target(Err(SkyarchException::BusError)), Err(Some(SkyarchException::BusError)));
    let slot = IntSlot { valid: true, present: false, addr: 0x40 };
    assert_eq!(Skyarch::vector_target(Ok(slot)), Err(Some(SkyarchException::Consistency)));
    let slot = IntSlot { valid: false, present: true, addr: 0x40 };
    assert_eq!(Skyarch::vector_target(Ok(slot)), Err(Some(SkyarchException::Consistency)));
    let slot = IntSlot { valid: true, present: true, addr: 0x40 };
    assert_eq!(Skyarch::vector_target(Ok(slot)), Ok(0x40));
}

#[test]
fn linked_state_getters() {
    let mut c = Core::new();
    assert_eq!(c.core.linked_width(), None);
    c.set(1, 0x40);
    let s = c.step(word(0x4C, &[(8, 3), (13, 1), (18, 1)]), 0);
    if let Step::Load(req) = s {
        c.core.complete_load(&mut c.regs, req, MemData::Half(7));
    }
    assert_eq!(c.core.linked_width(), Some(MemWidth::Half));
    assert_eq!(c.core.linked_addr(), 0x40);
}

#[test]
fn executable_refuses_what_cannot_complete() {
    let mut c = Core::new();
    let und = SkyarchInstr::decode(0).unwrap();
    assert!(!c.core.executable(&c.regs, &c.flags, &und));
    c.set(2, 40);
    let fsl = SkyarchInstr::decode(word(0x0E, &[(8, 4), (13, 1), (18, 2)])).unwrap();
    assert!(!c.core.executable(&c.regs, &c.flags, &fsl));
    c.set(2, 31);
    assert!(c.core.executable(&c.regs, &c.flags, &fsl));
    c.set(1, 0x100);
    let st64 = SkyarchInstr::St { dest: rn(1), src: rn(2), width: MemWidth::Double, mode: UpdateMode::NoUpdate, order: MemOrdering::Relaxed };
    assert!(!c.core.executable(&c.regs, &c.flags, &st64));
    c.set(1, 0x104);
    assert!(c.core.executable(&c.regs, &c.flags, &st64));
    assert_eq!(c.core.execute(&mut c.regs, &mut c.flags, st64, 0), Step::Fault(SkyarchException::BusError));
}

#[test]
fn register_names() {
    assert_eq!(rn(0).name(), "r0");
    assert_eq!(rn(5).name(), "r5");
    assert_eq!(rn(10).name(), "r10");
    assert_eq!(rn(31).name(), "r31");
}

#[test]
fn store_conditional_sets_zero_flag() {
    let mut f = SkyarchFlags::from_bits(0b10001);
    Skyarch::complete_store_conditional(&mut f, false);
    assert_eq!(f.bits(), 0b11001);
    Skyarch::complete_store_conditional(&mut f, true);
    assert_eq!(f.bits(), 0b10001);
}
