//! Whole-program runs: a small harness drives the core through a ROM image,
//! performing the memory, port and ALU work that the core hands back.

use skyarch::cpu::{ArithKind, MemData, Skyarch, Step};
use skyarch::instr::MemWidth;
use skyarch::intr::IntSlot;
use skyarch::regs::{SkyarchFlags, SkyarchRegisters};

const ROM_WORDS: usize = 65536 / 4;
const EXEC_ADDR: usize = 0xFF00 / 4;

#[derive(Debug, PartialEq, Eq)]
enum StopReason {
    Halted,
    Paused,
    Reset,
}

struct Machine {
    core: Skyarch,
    regs: SkyarchRegisters,
    flags: SkyarchFlags,
    mem: Vec<u32>,
    ip: u32,
    expected_out: Option<u32>,
    outputs: Vec<(u8, u32)>,
}

fn exec_rom(exec: &[u32]) -> Vec<u32> {
    let mut rom = vec![0u32; ROM_WORDS];
    for (i, w) in exec.iter().enumerate() {
        rom[EXEC_ADDR + i] = *w;
    }
    rom
}

impl Machine {
    fn new(rom: Vec<u32>, expected_out: Option<u32>) -> Machine {
        Machine {
            core: Skyarch::new(),
            regs: SkyarchRegisters::new(),
            flags: SkyarchFlags::new(),
            mem: rom,
            ip: 0,
            expected_out,
            outputs: Vec::new(),
        }
    }

    fn read_word(&self, addr: u32) -> u32 {
        self.mem[(addr as usize / 4) % ROM_WORDS]
    }

    fn write_bytes(&mut self, addr: u32, val: u32, len: u32) {
        for k in 0..len {
            let a = addr + k;
            let idx = (a as usize / 4) % ROM_WORDS;
            let shift = (a % 4) * 8;
            let byte = (val >> (8 * k)) & 0xFF;
            self.mem[idx] = (self.mem[idx] & !(0xFF << shift)) | (byte << shift);
        }
    }

    fn read_bytes(&self, addr: u32, len: u32) -> u32 {
        let mut v = 0u32;
        for k in 0..len {
            let a = addr + k;
            let shift = (a % 4) * 8;
            v |= ((self.read_word(a) >> shift) & 0xFF) << (8 * k);
        }
        v
    }

    fn take_exception(&mut self, e: skyarch::except::SkyarchException) -> Option<StopReason> {
        match Skyarch::handle_except(&mut self.regs, e, self.ip) {
            None => Some(StopReason::Reset),
            Some(slot_addr) => {
                let word = self.read_word(slot_addr);
                let slot = IntSlot { valid: word & 1 != 0, present: word & 2 != 0, addr: self.read_word(slot_addr + 4) };
                match Skyarch::vector_target(Ok(slot)) {
                    Ok(addr) => {
                        self.ip = addr;
                        None
                    },
                    Err(_) => Some(StopReason::Reset),
                }
            },
        }
    }

    fn run(&mut self) -> StopReason {
        self.ip = Skyarch::reset(&mut self.regs);
        for _ in 0..10_000 {
            let word = self.read_word(self.ip);
            let instr = match Skyarch::decode(&self.regs, word) {
                Ok(i) => i,
                Err(e) => {
                    if let Some(stop) = self.take_exception(e) {
                        return stop;
                    }
                    continue;
                },
            };
            let step = self.core.execute(&mut self.regs, &mut self.flags, instr, self.ip);
            let mut next = self.ip.wrapping_add(4);
            match step {
                Step::Next => {},
                Step::Jump(a) => next = a,
                Step::Fault(e) => {
                    if let Some(stop) = self.take_exception(e) {
                        return stop;
                    }
                    continue;
                },
                Step::Halt => return StopReason::Halted,
                Step::Pause => return StopReason::Paused,
                Step::Store { addr, data } => self.store(addr, data),
                Step::StoreConditional { addr, data, success } => {
                    Skyarch::complete_store_conditional(&mut self.flags, success);
                    if success {
                        self.store(addr, data);
                    }
                },
                Step::Load(req) => {
                    let data = match req.width {
                        MemWidth::Byte => MemData::Byte(self.read_bytes(req.addr, 1) as u8),
                        MemWidth::Half => MemData::Half(self.read_bytes(req.addr, 2) as u16),
                        MemWidth::Word => MemData::Word(self.read_word(req.addr)),
                        MemWidth::Double => MemData::Double(self.read_word(req.addr), self.read_word(req.addr + 4)),
                    };
                    self.core.complete_load(&mut self.regs, req, data);
                },
                Step::Arith(req) => {
                    let (res, carry) = match req.kind {
                        ArithKind::Add => {
                            let (r1, c1) = req.a.overflowing_add(req.b);
                            let (r2, c2) = r1.overflowing_add(req.carry);
                            (r2, c1 || c2)
                        },
                        ArithKind::Sub => {
                            let (r1, c1) = req.a.overflowing_sub(req.b);
                            let (r2, c2) = r1.overflowing_sub(1 - req.carry.min(1));
                            (r2, c1 || c2)
                        },
                    };
                    let mut f = self.flags;
                    f.set_carry(carry);
                    f.set_logic(res == 0, res >> 31 == 1, res.count_ones() % 2 == 0);
                    Skyarch::complete_arith(&mut self.regs, &mut self.flags, req, res, f);
                },
                Step::LogicFlags { value, shift_flags } => {
                    self.flags.set_logic(value == 0, value >> 31 == 1, value.count_ones() % 2 == 0);
                    if let Some((c, v)) = shift_flags {
                        self.flags.set_carry(c);
                        self.flags.set_overflow(v);
                    }
                },
                Step::PortIn { reg, width, .. } => Skyarch::complete_port_in(&mut self.regs, reg, 0, width),
                Step::PortOut { port, bits, .. } => {
                    if port == 0xFF {
                        if let Some(expected) = self.expected_out {
                            assert_eq!(bits, expected);
                        }
                    }
                    self.outputs.push((port, bits));
                },
                Step::Random { dest, err } => Skyarch::complete_random(&mut self.regs, &mut self.flags, dest, err, None),
            }
            self.ip = next;
        }
        panic!("the program did not stop");
    }

    fn store(&mut self, addr: u32, data: MemData) {
        match data {
            MemData::Byte(b) => self.write_bytes(addr, b as u32, 1),
            MemData::Half(h) => self.write_bytes(addr, h as u32, 2),
            MemData::Word(w) => self.write_bytes(addr, w, 4),
            MemData::Double(lo, hi) => {
                self.write_bytes(addr, lo, 4);
                self.write_bytes(addr + 4, hi, 4);
            },
        }
    }
}

fn run_test(rom: Vec<u32>, expected: u32) {
    let mut m = Machine::new(rom, Some(expected));
    let reason = m.run();
    assert_eq!(reason, StopReason::Halted);
}

fn run_halt_test(rom: Vec<u32>) {
    let mut m = Machine::new(rom, None);
    assert_eq!(m.run(), StopReason::Halted);
}

fn run_reset_test(rom: Vec<u32>) {
    let mut m = Machine::new(rom, None);
    assert_eq!(m.run(), StopReason::Reset);
}

#[test]
fn test_halt_works() {
    run_halt_test(exec_rom(&[0x00000040]));
}

#[test]
fn test_reset_works() {
    // should immediately reset
    run_reset_test(exec_rom(&[0x00000000]));
}

#[test]
#[should_panic]
fn test_output_works() {
    run_test(exec_rom(&[0x0A01E002, 0x001FE015, 0x00000040]), 0xFFFF_FFFF)
}

#[test]
fn test_mov() {
    run_test(exec_rom(&[0x0A01E002, 0x001FE015, 0x00000040]), 0)
}

#[test]
fn test_ldi() {
    run_test(exec_rom(&[0xDEAF0105, 0x0A05E002, 0x001FE015, 0x00000040]), 0xDEAF);
}

#[test]
fn test_ldi2() {
    run_test(exec_rom(&[0x13370105, 0x0A05E002, 0x001FE015, 0x00000040]), 0x1337);
}

#[test]
fn test_addi() {
    run_test(exec_rom(&[0xBEEF0105, 0xDEAD8108, 0x0A05E002, 0x001FE015, 0x00000040]), 0xDEADBEEF);
}

#[test]
fn rom_pause_records_active_mask() {
    let mut m = Machine::new(exec_rom(&[0x00000240]), None);
    assert_eq!(m.run(), StopReason::Paused);
    assert_eq!(m.core.active_mask(), 2);
}

#[test]
fn rom_exception_vectors_to_handler() {
    // The interrupt table sits at 0x100; the Undefined slot (vector 2) is at 0x110.
    let mut rom = exec_rom(&[
        0x00000000, // undefined: raises Undefined
    ]);
    rom[0x110 / 4] = 3; // valid and present
    rom[0x114 / 4] = 0x200; // handler address
    rom[0x200 / 4] = 0x00000040; // halt
    let mut m = Machine::new(rom, None);
    m.ip = Skyarch::reset(&mut m.regs);
    // enable interrupts (mask 1) and point the table at 0x100 before running
    let zero = skyarch::regs::SkyarchRegno::zero();
    let r31 = skyarch::regs::SkyarchRegno::from_bits(31);
    assert_eq!(m.regs.write(skyarch::regs::RegMap::Intr, zero, 1), Ok(()));
    assert_eq!(m.regs.write(skyarch::regs::RegMap::Intr, r31, 0x100), Ok(()));
    let e = skyarch::except::SkyarchException::Undefined;
    assert_eq!(m.take_exception(e), None);
    assert_eq!(m.ip, 0x200);
    // the return register holds the faulting address and the old mask
    assert_eq!(m.regs.intr().intret[0].bits(), 0xFF00 | 1);
    assert!(m.regs.intr().intctl.abort());
}
