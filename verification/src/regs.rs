use vstd::prelude::*;

use crate::except::SkyarchException;
use crate::intr::{Intctl, Intret, Inttab};

verus! {

/// The sixteen register maps of a Skyarch core. Each map holds 32 registers of
/// 32 bits; map `Gprs` is the general purpose register file.
#[derive(Copy, Clone, Debug, Hash, PartialEq, Eq, Structural)]
pub enum RegMap {
    Gprs,
    Intr,
    Io,
    Info,
    CoprocessorControl,
    _Reserved5,
    _Reserved6,
    _Reserved7,
    Coprocessor0,
    Coprocessor1,
    Coprocessor2,
    Coprocessor3,
    Coprocessor4,
    Coprocessor5,
    Coprocessor6,
    Coprocessor7,
}

impl RegMap {
    /// The 4-bit encoding of the map, which is also its row in the register file.
    pub open spec fn spec_bits(self) -> u8 {
        match self {
            RegMap::Gprs => 0,
            RegMap::Intr => 1,
            RegMap::Io => 2,
            RegMap::Info => 3,
            RegMap::CoprocessorControl => 4,
            RegMap::_Reserved5 => 5,
            RegMap::_Reserved6 => 6,
            RegMap::_Reserved7 => 7,
            RegMap::Coprocessor0 => 8,
            RegMap::Coprocessor1 => 9,
            RegMap::Coprocessor2 => 10,
            RegMap::Coprocessor3 => 11,
            RegMap::Coprocessor4 => 12,
            RegMap::Coprocessor5 => 13,
            RegMap::Coprocessor6 => 14,
            RegMap::Coprocessor7 => 15,
        }
    }

    /// The map that a 4-bit field value names.
    pub open spec fn spec_from_bits(v: u8) -> RegMap {
        if v == 0 {
            RegMap::Gprs
        } else if v == 1 {
            RegMap::Intr
        } else if v == 2 {
            RegMap::Io
        } else if v == 3 {
            RegMap::Info
        } else if v == 4 {
            RegMap::CoprocessorControl
        } else if v == 5 {
            RegMap::_Reserved5
        } else if v == 6 {
            RegMap::_Reserved6
        } else if v == 7 {
            RegMap::_Reserved7
        } else if v == 8 {
            RegMap::Coprocessor0
        } else if v == 9 {
            RegMap::Coprocessor1
        } else if v == 10 {
            RegMap::Coprocessor2
        } else if v == 11 {
            RegMap::Coprocessor3
        } else if v == 12 {
            RegMap::Coprocessor4
        } else if v == 13 {
            RegMap::Coprocessor5
        } else if v == 14 {
            RegMap::Coprocessor6
        } else {
            RegMap::Coprocessor7
        }
    }

    /// Whether the map belongs to one of the eight coprocessors.
    pub open spec fn is_coprocessor(self) -> bool {
        self.spec_bits() >= 8
    }

    /// Decodes a 4-bit field value into the map it names.
    pub fn from_bits(v: u8) -> (m: RegMap)
        requires
            v < 16,
        ensures
            m == RegMap::spec_from_bits(v),
            m.spec_bits() == v,
    {
        match v {
            0 => RegMap::Gprs,
            1 => RegMap::Intr,
            2 => RegMap::Io,
            3 => RegMap::Info,
            4 => RegMap::CoprocessorControl,
            5 => RegMap::_Reserved5,
            6 => RegMap::_Reserved6,
            7 => RegMap::_Reserved7,
            8 => RegMap::Coprocessor0,
            9 => RegMap::Coprocessor1,
            10 => RegMap::Coprocessor2,
            11 => RegMap::Coprocessor3,
            12 => RegMap::Coprocessor4,
            13 => RegMap::Coprocessor5,
            14 => RegMap::Coprocessor6,
            _ => RegMap::Coprocessor7,
        }
    }

    /// Encodes the map as its 4-bit field value.
    pub fn bits(&self) -> (r: u8)
        ensures
            r == self.spec_bits(),
            r < 16,
    {
        match self {
            RegMap::Gprs => 0,
            RegMap::Intr => 1,
            RegMap::Io => 2,
            RegMap::Info => 3,
            RegMap::CoprocessorControl => 4,
            RegMap::_Reserved5 => 5,
            RegMap::_Reserved6 => 6,
            RegMap::_Reserved7 => 7,
            RegMap::Coprocessor0 => 8,
            RegMap::Coprocessor1 => 9,
            RegMap::Coprocessor2 => 10,
            RegMap::Coprocessor3 => 11,
            RegMap::Coprocessor4 => 12,
            RegMap::Coprocessor5 => 13,
            RegMap::Coprocessor6 => 14,
            RegMap::Coprocessor7 => 15,
        }
    }
}

/// Encoding a map and decoding the result gives the map back, and every 4-bit
/// value is the encoding of the map it decodes to.
pub proof fn lemma_map_bits_roundtrip(m: RegMap, v: u8)
    ensures
        RegMap::spec_from_bits(m.spec_bits()) == m,
        v < 16 ==> RegMap::spec_from_bits(v).spec_bits() == v,
{
}

/// A general purpose register number, always below 32.
#[derive(Copy, Clone, Debug, Hash, PartialEq, Eq)]
pub struct SkyarchRegno {
    n: u8,
}

impl View for SkyarchRegno {
    type V = u8;

    closed spec fn view(&self) -> u8 {
        self.n
    }
}

impl SkyarchRegno {
    #[verifier::type_invariant]
    spec fn in_range(self) -> bool {
        self.n < 32
    }

    /// The register number that a 5-bit field value names.
    pub closed spec fn spec_from_bits(v: u8) -> SkyarchRegno {
        SkyarchRegno { n: v }
    }

    /// Decodes a 5-bit field value into a register number.
    pub fn from_bits(v: u8) -> (r: SkyarchRegno)
        requires
            v < 32,
        ensures
            r == SkyarchRegno::spec_from_bits(v),
            r@ == v,
    {
        SkyarchRegno { n: v }
    }

    /// Register number zero, the register that always reads as zero.
    pub fn zero() -> (r: SkyarchRegno)
        ensures
            r@ == 0,
    {
        SkyarchRegno { n: 0 }
    }

    /// The register number as an integer below 32.
    pub fn get(self) -> (r: u8)
        ensures
            r == self@,
            r < 32,
    {
        proof {
            use_type_invariant(&self);
        }
        self.n
    }
}

/// The decimal digit `d` as a character.
pub open spec fn digit_char(d: u8) -> char {
    if d == 0 {
        '0'
    } else if d == 1 {
        '1'
    } else if d == 2 {
        '2'
    } else if d == 3 {
        '3'
    } else if d == 4 {
        '4'
    } else if d == 5 {
        '5'
    } else if d == 6 {
        '6'
    } else if d == 7 {
        '7'
    } else if d == 8 {
        '8'
    } else {
        '9'
    }
}

/// The name of register `n`: `r` followed by the number in decimal.
pub open spec fn regno_name(n: u8) -> Seq<char> {
    if n < 10 {
        seq!['r', digit_char(n)]
    } else {
        seq!['r', digit_char(n / 10), digit_char(n % 10)]
    }
}

fn digit_str(d: u8) -> (r: &'static str)
    requires
        d < 10,
    ensures
        r@ == seq![digit_char(d)],
{
    match d {
        0 => {
            proof {
                reveal_strlit("0");
            }
            "0"
        },
        1 => {
            proof {
                reveal_strlit("1");
            }
            "1"
        },
        2 => {
            proof {
                reveal_strlit("2");
            }
            "2"
        },
        3 => {
            proof {
                reveal_strlit("3");
            }
            "3"
        },
        4 => {
            proof {
                reveal_strlit("4");
            }
            "4"
        },
        5 => {
            proof {
                reveal_strlit("5");
            }
            "5"
        },
        6 => {
            proof {
                reveal_strlit("6");
            }
            "6"
        },
        7 => {
            proof {
                reveal_strlit("7");
            }
            "7"
        },
        8 => {
            proof {
                reveal_strlit("8");
            }
            "8"
        },
        _ => {
            proof {
                reveal_strlit("9");
            }
            "9"
        },
    }
}

impl SkyarchRegno {
    /// The register's name, as debug output shows it: `r` and the number, e.g. `r5`.
    pub fn name(&self) -> (r: String)
        ensures
            r@ == regno_name(self@),
    {
        let n = self.get();
        proof {
            reveal_strlit("r");
        }
        let mut s = String::from_str("r");
        if n < 10 {
            s.append(digit_str(n));
        } else {
            s.append(digit_str(n / 10));
            s.append(digit_str(n % 10));
        }
        proof {
            assert(s@ =~= regno_name(n));
        }
        s
    }
}

/// Decoding a field value gives the register number with that value.
pub proof fn lemma_regno_from_bits(v: u8)
    ensures
        SkyarchRegno::spec_from_bits(v)@ == v,
{
}

/// A register number is determined by its value.
pub proof fn lemma_regno_eq(a: SkyarchRegno, b: SkyarchRegno)
    ensures
        a@ == b@ <==> a == b,
{
}


// ---------------------------------------------------------------------------
// The register file, viewed as 16 maps of 32 registers.
// ---------------------------------------------------------------------------

/// The register file as a whole: 16 rows (one per [`RegMap`]) of 32 registers.
pub open spec fn shaped(v: Seq<Seq<u32>>) -> bool {
    &&& v.len() == 16
    &&& forall|m: int| 0 <= m < 16 ==> (#[trigger] v[m]).len() == 32
}

/// What holds of the register file in every state that the operations of this
/// library can reach: general purpose register 0 is zero, the reserved bits of
/// the interrupt control register are clear, the interrupt table base is
/// 8-byte aligned, and only available coprocessors are enabled.
pub open spec fn regs_wf(v: Seq<Seq<u32>>) -> bool {
    &&& shaped(v)
    &&& v[0][0] == 0
    &&& v[1][0] & 0x7FFF_FFFCu32 == 0
    &&& v[1][31] & 7u32 == 0
    &&& v[4][30] & v[4][31] == v[4][30]
}

/// The register file with register `r` of map `m` replaced by `val`.
pub open spec fn reg_write(v: Seq<Seq<u32>>, m: int, r: int, val: u32) -> Seq<Seq<u32>> {
    v.update(m, v[m].update(r, val))
}

/// Writing a general purpose register; writes to register 0 are discarded.
pub open spec fn gpr_write(v: Seq<Seq<u32>>, r: u8, val: u32) -> Seq<Seq<u32>> {
    if r == 0 {
        v
    } else {
        reg_write(v, 0, r as int, val)
    }
}

/// Whether coprocessor `n` is enabled: bit `n` of the coprocessor enable
/// register (register 30 of the coprocessor control map).
pub open spec fn copro_enabled(v: Seq<Seq<u32>>, n: u8) -> bool {
    v[4][30] & (1u32 << (n as u32)) != 0
}

pub open spec fn copro_check(v: Seq<Seq<u32>>, n: u8) -> Result<(), SkyarchException> {
    if copro_enabled(v, n) {
        Ok(())
    } else {
        Err(SkyarchException::Undefined)
    }
}

/// Whether a register may be written at all, before its value is looked at.
pub open spec fn check_write_spec(v: Seq<Seq<u32>>, map: RegMap, reg: u8) -> Result<(), SkyarchException> {
    match map {
        RegMap::Gprs | RegMap::Io => Ok(()),
        RegMap::Intr => if reg < 12 || reg == 31 {
            Ok(())
        } else {
            Err(SkyarchException::Undefined)
        },
        RegMap::CoprocessorControl => if reg < 8 {
            copro_check(v, reg)
        } else if reg == 30 {
            Ok(())
        } else {
            Err(SkyarchException::Undefined)
        },
        RegMap::Info | RegMap::_Reserved5 | RegMap::_Reserved6 | RegMap::_Reserved7 => Err(
            SkyarchException::Undefined,
        ),
        _ => copro_check(v, (map.spec_bits() - 8) as u8),
    }
}

/// The register file after a checked write, and the outcome of the write.
/// Writes to the coprocessor maps are not defined.
pub open spec fn write_spec(v: Seq<Seq<u32>>, map: RegMap, reg: u8, val: u32) -> (Seq<Seq<u32>>, Result<(), SkyarchException>) {
    match map {
        RegMap::Gprs => (gpr_write(v, reg, val), Ok(())),
        RegMap::Intr => if 1 <= reg < 12 {
            (reg_write(v, 1, reg as int, val), Ok(()))
        } else if reg == 0 {
            if val & 0x8000_0003u32 != val {
                (v, Err(SkyarchException::Consistency))
            } else {
                (reg_write(v, 1, 0, val), Ok(()))
            }
        } else if reg == 31 {
            if val & !7u32 != val {
                (v, Err(SkyarchException::Consistency))
            } else {
                (reg_write(v, 1, 31, val), Ok(()))
            }
        } else {
            (v, Err(SkyarchException::Undefined))
        },
        RegMap::Io => (reg_write(v, 2, reg as int, val), Ok(())),
        RegMap::CoprocessorControl => if reg < 8 {
            if copro_enabled(v, reg) {
                (reg_write(v, 4, reg as int, val), Ok(()))
            } else {
                (v, Err(SkyarchException::Undefined))
            }
        } else if reg == 30 {
            if val & v[4][31] != val {
                (v, Err(SkyarchException::Consistency))
            } else {
                (reg_write(v, 4, 30, val), Ok(()))
            }
        } else {
            (v, Err(SkyarchException::Undefined))
        },
        _ => (v, Err(SkyarchException::Undefined)),
    }
}

/// The outcome of a checked read.
pub open spec fn read_spec(v: Seq<Seq<u32>>, map: RegMap, reg: u8) -> Result<u32, SkyarchException> {
    match map {
        RegMap::Io => Ok(v[2][reg as int]),
        RegMap::Intr => if reg < 12 || reg == 31 {
            Ok(v[1][reg as int])
        } else {
            Err(SkyarchException::Undefined)
        },
        RegMap::Gprs => Ok(v[0][reg as int]),
        RegMap::Info => Ok(0),
        RegMap::CoprocessorControl => if reg < 8 {
            if copro_enabled(v, reg) {
                Ok(v[4][reg as int])
            } else {
                Err(SkyarchException::Undefined)
            }
        } else if reg == 30 || reg == 31 {
            Ok(v[4][reg as int])
        } else {
            Err(SkyarchException::Undefined)
        },
        RegMap::_Reserved5 | RegMap::_Reserved6 | RegMap::_Reserved7 => Err(
            SkyarchException::Undefined,
        ),
        _ => if copro_enabled(v, (map.spec_bits() - 8) as u8) {
            Ok(v[map.spec_bits() as int][reg as int])
        } else {
            Err(SkyarchException::Undefined)
        },
    }
}

/// The register file right after a reset with the given set of available
/// coprocessors: every register is zero but the availability register.
pub open spec fn reset_view(coprocessors: u8) -> Seq<Seq<u32>> {
    Seq::new(
        16,
        |m: int| Seq::new(32, |r: int| if m == 4 && r == 31 { coprocessors as u32 } else { 0u32 }),
    )
}

/// Calls `bytemuck::Zeroable::zeroed` for the register array. Its contract
/// claims what bytemuck documents: the value is the all-zero bit pattern, so
/// every register is zero.
#[verifier::external_body]
fn zeroed_register_file() -> (r: [[u32; 32]; 16])
    ensures
        forall|m: int, i: int| 0 <= m < 16 && 0 <= i < 32 ==> r[m][i] == 0,
{
    bytemuck::Zeroable::zeroed()
}

/// The register maps of a Skyarch core.
pub struct SkyarchRegisters {
    flat_regs: [[u32; 32]; 16],
}

impl View for SkyarchRegisters {
    type V = Seq<Seq<u32>>;

    closed spec fn view(&self) -> Seq<Seq<u32>> {
        Seq::new(16, |m: int| Seq::new(32, |r: int| self.flat_regs[m][r]))
    }
}

impl SkyarchRegisters {
    pub open spec fn wf(&self) -> bool {
        regs_wf(self@)
    }

    /// A register file with every register zero.
    pub fn new() -> (r: SkyarchRegisters)
        ensures
            r@ == Seq::new(16, |m: int| Seq::new(32, |i: int| 0u32)),
            r.wf(),
    {
        let r = SkyarchRegisters { flat_regs: zeroed_register_file() };
        proof {
            assert(r@ =~~= Seq::new(16, |m: int| Seq::new(32, |i: int| 0u32)));
            assert(0u32 & 0u32 == 0u32 && 0u32 & 0x7FFF_FFFCu32 == 0u32 && 0u32 & 7u32 == 0u32) by (bit_vector);
        }
        r
    }

    /// Clears every register, then records which coprocessors are available.
    pub fn reset(&mut self, coprocessors: u8)
        ensures
            final(self)@ == reset_view(coprocessors),
            final(self).wf(),
    {
        self.flat_regs = zeroed_register_file();
        self.flat_regs[4][31] = coprocessors as u32;
        proof {
            assert(self@ =~~= reset_view(coprocessors));
            let c = coprocessors as u32;
            assert(0u32 & c == 0u32 && 0u32 & 0x7FFF_FFFCu32 == 0u32 && 0u32 & 7u32 == 0u32) by (bit_vector);
        }
    }

    /// One whole register map.
    pub fn map(&self, m: RegMap) -> (r: [u32; 32])
        ensures
            r@ == self@[m.spec_bits() as int],
    {
        let r = self.flat_regs[m.bits() as usize];
        proof {
            assert(r@ =~= self@[m.spec_bits() as int]);
        }
        r
    }

    fn raw_read(&self, map: RegMap, reg: SkyarchRegno) -> (r: u32)
        ensures
            r == self@[map.spec_bits() as int][reg@ as int],
    {
        self.flat_regs[map.bits() as usize][reg.get() as usize]
    }

    fn raw_write(&mut self, map: RegMap, reg: SkyarchRegno, val: u32)
        ensures
            final(self)@ == reg_write(old(self)@, map.spec_bits() as int, reg@ as int, val),
    {
        let m = map.bits() as usize;
        let r = reg.get() as usize;
        self.flat_regs[m][r] = val;
        proof {
            assert(self@ =~~= reg_write(old(self)@, map.spec_bits() as int, reg@ as int, val));
        }
    }

    /// Writes a general purpose register; writes to register 0 are discarded.
    pub fn write_gpr(&mut self, reg: SkyarchRegno, val: u32)
        requires
            old(self).wf(),
        ensures
            final(self)@ == gpr_write(old(self)@, reg@, val),
            final(self).wf(),
    {
        let r = reg.get();
        if r != 0 {
            self.raw_write(RegMap::Gprs, reg, val);
        }
    }

    /// Reads a general purpose register.
    pub fn read_gpr(&self, reg: SkyarchRegno) -> (r: u32)
        ensures
            r == self@[0][reg@ as int],
    {
        self.raw_read(RegMap::Gprs, reg)
    }

    /// Succeeds when coprocessor `n` is enabled, and raises `Undefined` when not.
    pub fn coprocessor_enabled(&self, n: u8) -> (r: Result<(), SkyarchException>)
        requires
            n < 8,
        ensures
            r == copro_check(self@, n),
    {
        if (self.flat_regs[4][30] & (1u32 << (n as u32))) == 0 {
            Err(SkyarchException::Undefined)
        } else {
            Ok(())
        }
    }

    /// Whether `reg` of `map` may be written, before its value is looked at.
    pub fn check_write(&self, map: RegMap, reg: SkyarchRegno) -> (r: Result<(), SkyarchException>)
        ensures
            r == check_write_spec(self@, map, reg@),
    {
        let n = reg.get();
        match map {
            RegMap::Gprs | RegMap::Io => Ok(()),
            RegMap::Intr => {
                if n < 12 || n == 31 {
                    Ok(())
                } else {
                    Err(SkyarchException::Undefined)
                }
            },
            RegMap::CoprocessorControl => {
                if n < 8 {
                    self.coprocessor_enabled(n)
                } else if n == 30 {
                    Ok(())
                } else {
                    Err(SkyarchException::Undefined)
                }
            },
            RegMap::Info | RegMap::_Reserved5 | RegMap::_Reserved6 | RegMap::_Reserved7 => Err(
                SkyarchException::Undefined,
            ),
            _ => {
                let x = map.bits() - 8;
                self.coprocessor_enabled(x)
            },
        }
    }

    /// Writes `val` to `reg` of `map`, enforcing which registers may be written
    /// and which values they accept. A refused write changes nothing.
    pub fn write(&mut self, map: RegMap, reg: SkyarchRegno, val: u32) -> (r: Result<(), SkyarchException>)
        requires
            old(self).wf(),
            !map.is_coprocessor(),
        ensures
            (final(self)@, r) == write_spec(old(self)@, map, reg@, val),
            final(self).wf(),
    {
        let n = reg.get();
        match map {
            RegMap::Gprs => {
                self.write_gpr(reg, val);
                Ok(())
            },
            RegMap::Intr => {
                if 1 <= n && n < 12 {
                    self.raw_write(map, reg, val);
                    Ok(())
                } else if n == 0 {
                    if (val & 0x8000_0003u32) != val {
                        Err(SkyarchException::Consistency)
                    } else {
                        self.raw_write(map, reg, val);
                        proof {
                            assert(val & 0x8000_0003u32 == val ==> val & 0x7FFF_FFFCu32 == 0u32)
                                by (bit_vector);
                        }
                        Ok(())
                    }
                } else if n == 31 {
                    if (val & !7u32) != val {
                        Err(SkyarchException::Consistency)
                    } else {
                        self.raw_write(map, reg, val);
                        proof {
                            assert(val & !7u32 == val ==> val & 7u32 == 0u32) by (bit_vector);
                        }
                        Ok(())
                    }
                } else {
                    Err(SkyarchException::Undefined)
                }
            },
            RegMap::Io => {
                self.raw_write(map, reg, val);
                Ok(())
            },
            RegMap::CoprocessorControl => {
                if n < 8 {
                    match self.coprocessor_enabled(n) {
                        Err(e) => Err(e),
                        Ok(()) => {
                            self.raw_write(map, reg, val);
                            Ok(())
                        },
                    }
                } else if n == 30 {
                    let avail = self.flat_regs[4][31];
                    if (val & avail) != val {
                        Err(SkyarchException::Consistency)
                    } else {
                        self.raw_write(map, reg, val);
                        Ok(())
                    }
                } else {
                    Err(SkyarchException::Undefined)
                }
            },
            _ => Err(SkyarchException::Undefined),
        }
    }

    /// Reads `reg` of `map`, enforcing which registers may be read.
    pub fn read(&self, map: RegMap, reg: SkyarchRegno) -> (r: Result<u32, SkyarchException>)
        ensures
            r == read_spec(self@, map, reg@),
    {
        let n = reg.get();
        match map {
            RegMap::Io => Ok(self.raw_read(map, reg)),
            RegMap::Intr => {
                if n < 12 || n == 31 {
                    Ok(self.raw_read(map, reg))
                } else {
                    Err(SkyarchException::Undefined)
                }
            },
            RegMap::Gprs => Ok(self.raw_read(map, reg)),
            RegMap::Info => Ok(0),
            RegMap::CoprocessorControl => {
                if n < 8 {
                    match self.coprocessor_enabled(n) {
                        Err(e) => Err(e),
                        Ok(()) => Ok(self.raw_read(map, reg)),
                    }
                } else if n == 30 || n == 31 {
                    Ok(self.raw_read(map, reg))
                } else {
                    Err(SkyarchException::Undefined)
                }
            },
            RegMap::_Reserved5 | RegMap::_Reserved6 | RegMap::_Reserved7 => Err(
                SkyarchException::Undefined,
            ),
            _ => {
                let x = map.bits() - 8;
                match self.coprocessor_enabled(x) {
                    Err(e) => Err(e),
                    Ok(()) => Ok(self.raw_read(map, reg)),
                }
            },
        }
    }
}

impl SkyarchRegisters {
    /// The interrupt map, register by register.
    pub fn intr(&self) -> (r: SkyarchIntrMap)
        ensures
            r.intctl@ == self@[1][0],
            forall|i: int| 0 <= i < 3 ==> (#[trigger] r.intret[i])@ == self@[1][1 + i],
            forall|i: int| 0 <= i < 4 ==> #[trigger] r.ints[i] == self@[1][4 + i],
            forall|i: int| 0 <= i < 4 ==> #[trigger] r.intd[i] == self@[1][8 + i],
            r.inttab@ == self@[1][31],
    {
        let row = &self.flat_regs[1];
        SkyarchIntrMap {
            intctl: Intctl::from_bits(row[0]),
            intret: [Intret::from_bits(row[1]), Intret::from_bits(row[2]), Intret::from_bits(row[3])],
            ints: [row[4], row[5], row[6], row[7]],
            intd: [row[8], row[9], row[10], row[11]],
            inttab: Inttab::from_bits(row[31]),
        }
    }

    /// The coprocessor control map, register by register.
    pub fn coctl(&self) -> (r: CoprocessorCtl)
        ensures
            forall|i: int| 0 <= i < 8 ==> #[trigger] r.ctlregs[i] == self@[4][i],
            r.coprocessors_enabled == self@[4][30],
            r.coprocessors_available == self@[4][31],
    {
        let row = &self.flat_regs[4];
        CoprocessorCtl {
            ctlregs: [row[0], row[1], row[2], row[3], row[4], row[5], row[6], row[7]],
            coprocessors_enabled: row[30],
            coprocessors_available: row[31],
        }
    }

    /// The I/O map as 32 shift registers.
    pub fn io(&self) -> (r: IoRegs)
        ensures
            forall|i: int| 0 <= i < 32 ==> (#[trigger] r.io[i])@ == self@[2][i],
    {
        let mut io = [ShiftRegister { bits: 0 }; 32];
        let mut i: usize = 0;
        while i < 32
            invariant
                i <= 32,
                forall|j: int| 0 <= j < i ==> (#[trigger] io[j])@ == self@[2][j],
            decreases 32 - i,
        {
            io[i] = ShiftRegister { bits: self.flat_regs[2][i] };
            i = i + 1;
        }
        IoRegs { io }
    }

    /// Replaces the interrupt control register.
    pub fn set_intctl(&mut self, ctl: Intctl)
        requires
            old(self).wf(),
            ctl@ & 0x7FFF_FFFCu32 == 0,
        ensures
            final(self)@ == reg_write(old(self)@, 1, 0, ctl@),
            final(self).wf(),
    {
        self.raw_write(RegMap::Intr, SkyarchRegno::zero(), ctl.bits());
    }

    /// Replaces interrupt return register `i` (register `i + 1` of the interrupt map).
    pub fn set_intret(&mut self, i: u8, ret: Intret)
        requires
            old(self).wf(),
            i < 3,
        ensures
            final(self)@ == reg_write(old(self)@, 1, i + 1, ret@),
            final(self).wf(),
    {
        self.raw_write(RegMap::Intr, SkyarchRegno::from_bits(i + 1), ret.bits());
    }

    /// Shifts I/O shift register `reg` by `bits` bits (see
    /// [`ShiftRegister::shift`]): a full-width shift stores `val` and returns
    /// the old contents; a narrower one returns the top `bits` bits of the
    /// contents, keeps the contents and ignores `val`.
    pub fn io_shift(&mut self, reg: SkyarchRegno, val: u32, bits: u32) -> (r: u32)
        requires
            old(self).wf(),
            bits <= 32,
        ensures
            final(self)@ == reg_write(old(self)@, 2, reg@ as int, shift_spec(old(self)@[2][reg@ as int], val, bits).0),
            r == shift_spec(old(self)@[2][reg@ as int], val, bits).1,
            final(self).wf(),
    {
        let mut sr = ShiftRegister { bits: self.raw_read(RegMap::Io, reg) };
        let r = sr.shift(val, bits);
        self.raw_write(RegMap::Io, reg, sr.bits);
        r
    }
}

/// The interrupt map seen as its named registers.
pub struct SkyarchIntrMap {
    pub intctl: Intctl,
    pub intret: [Intret; 3],
    pub ints: [u32; 4],
    pub intd: [u32; 4],
    pub inttab: Inttab,
}

/// The coprocessor control map seen as its named registers.
pub struct CoprocessorCtl {
    pub ctlregs: [u32; 8],
    pub coprocessors_enabled: u32,
    pub coprocessors_available: u32,
}

// ---------------------------------------------------------------------------
// Funnel shifts and the I/O shift registers.
// ---------------------------------------------------------------------------

/// The high word of `hi:lo` shifted left by `n < 32` bits.
pub open spec fn funnel_shl_spec(hi: u32, lo: u32, n: u32) -> u32 {
    if n == 0 {
        hi
    } else {
        (hi << n) | (lo >> ((32 - n) as u32))
    }
}

/// The low word of `hi:lo` shifted right by `n < 32` bits.
pub open spec fn funnel_shr_spec(hi: u32, lo: u32, n: u32) -> u32 {
    if n == 0 {
        lo
    } else {
        (lo >> n) | (hi << ((32 - n) as u32))
    }
}

/// Shifts the 64-bit value `hi:lo` left by `n` bits and returns its high word.
pub fn funnel_shl(hi: u32, lo: u32, n: u32) -> (r: u32)
    requires
        n < 32,
    ensures
        r == funnel_shl_spec(hi, lo, n),
{
    if n == 0 {
        hi
    } else {
        (hi << n) | (lo >> (32 - n))
    }
}

/// Shifts the 64-bit value `hi:lo` right by `n` bits and returns its low word.
pub fn funnel_shr(hi: u32, lo: u32, n: u32) -> (r: u32)
    requires
        n < 32,
    ensures
        r == funnel_shr_spec(hi, lo, n),
{
    if n == 0 {
        lo
    } else {
        (lo >> n) | (hi << (32 - n))
    }
}

/// The funnel shifts are the halves of a 64-bit shift of `hi:lo`: shifting
/// left gives the high word of `(hi:lo) << n`, shifting right the low word of
/// `(hi:lo) >> n`.
pub proof fn lemma_funnel_shifts(hi: u32, lo: u32, n: u32)
    requires
        n < 32,
    ensures
        funnel_shl_spec(hi, lo, n) == (((((hi as u64) << 32u64) | (lo as u64)) << (n as u64)) >> 32u64) as u32,
        funnel_shr_spec(hi, lo, n) == (((((hi as u64) << 32u64) | (lo as u64)) >> (n as u64)) as u32),
{
    if n == 0 {
        assert(((((hi as u64) << 32u64) | (lo as u64)) << 0u64) >> 32u64 == hi as u64
            && (((hi as u64) << 32u64) | (lo as u64)) >> 0u64 == (((hi as u64) << 32u64) | (lo as u64))
            && ((((hi as u64) << 32u64) | (lo as u64)) as u32) == lo) by (bit_vector);
    } else {
        let m = (32 - n) as u32;
        assert(0 < n < 32 && m == 32 - n ==> (hi << n) | (lo >> m) == (((((hi as u64) << 32u64) | (lo as u64)) << (n as u64)) >> 32u64) as u32) by (bit_vector);
        assert(0 < n < 32 && m == 32 - n ==> (lo >> n) | (hi << m) == (((((hi as u64) << 32u64) | (lo as u64)) >> (n as u64)) as u32)) by (bit_vector);
    }
}

/// The new contents of a shift register and the word it hands out, for a
/// shift by `bits <= 32` bits. A full-width shift replaces the contents and
/// hands out the old contents; a narrower one hands out the top `bits` bits
/// of the contents and keeps the contents as they were.
pub open spec fn shift_spec(contents: u32, val: u32, bits: u32) -> (u32, u32) {
    if bits == 32 {
        (val, contents)
    } else {
        (contents, funnel_shl_spec(0, contents, bits))
    }
}

/// A 32-bit I/O shift register.
#[derive(Copy, Clone, Hash, PartialEq, Eq)]
pub struct ShiftRegister {
    bits: u32,
}

impl View for ShiftRegister {
    type V = u32;

    closed spec fn view(&self) -> u32 {
        self.bits
    }
}

impl ShiftRegister {
    /// A full-width shift (`bits == 32`) stores `val` and returns the old
    /// contents; a narrower shift returns the top `bits` bits of the contents
    /// (nothing for zero bits), keeps the contents and ignores `val`.
    pub fn shift(&mut self, val: u32, bits: u32) -> (r: u32)
        requires
            bits <= 32,
        ensures
            (final(self)@, r) == shift_spec(old(self)@, val, bits),
    {
        if bits == 32 {
            let res = self.bits;
            self.bits = val;
            return res;
        }
        funnel_shl(0, self.bits, bits)
    }
}

/// The I/O map seen as 32 shift registers.
pub struct IoRegs {
    pub io: [ShiftRegister; 32],
}

/// What a narrow shift hands out: nothing for a shift by zero bits, else the
/// top `bits` bits of the contents.
pub proof fn lemma_narrow_shift_output(contents: u32, val: u32, bits: u32)
    requires
        bits < 32,
    ensures
        shift_spec(contents, val, bits).1 == (if bits == 0 { 0 } else { contents >> ((32 - bits) as u32) }),
        shift_spec(contents, val, bits).0 == contents,
{
    if bits != 0 {
        let s = (32 - bits) as u32;
        assert((0u32 << bits) | (contents >> s) == contents >> s) by (bit_vector);
    }
}

/// A full-width shift hands out what the previous full-width shift put in.
pub proof fn lemma_full_shift_roundtrip(contents: u32, a: u32, b: u32)
    ensures
        shift_spec(shift_spec(contents, a, 32).0, b, 32).1 == a,
{
}

// ---------------------------------------------------------------------------
// Condition flags.
// ---------------------------------------------------------------------------

/// A flag word with the bit selected by `mask` set or cleared.
pub open spec fn with_bit(f: u32, mask: u32, b: bool) -> u32 {
    if b {
        f | mask
    } else {
        f & !mask
    }
}

/// The flag word after exchanging the overflow and parity flags.
pub open spec fn xvp_spec(f: u32) -> u32 {
    with_bit(with_bit(f, 16u32, f & 2u32 != 0), 2u32, f & 16u32 != 0)
}

/// Flag bits of a flag word: carry (bit 0), overflow (bit 1), negative (bit 2),
/// zero (bit 3), parity (bit 4).
pub open spec fn flag_c(f: u32) -> bool {
    f & 1u32 != 0
}

pub open spec fn flag_v(f: u32) -> bool {
    f & 2u32 != 0
}

pub open spec fn flag_n(f: u32) -> bool {
    f & 4u32 != 0
}

pub open spec fn flag_z(f: u32) -> bool {
    f & 8u32 != 0
}

pub open spec fn flag_p(f: u32) -> bool {
    f & 16u32 != 0
}

/// The condition flags: carry (bit 0), overflow (bit 1), negative (bit 2),
/// zero (bit 3) and parity (bit 4).
#[derive(Copy, Clone, Debug, Hash, PartialEq, Eq)]
pub struct SkyarchFlags {
    bits: u32,
}

impl View for SkyarchFlags {
    type V = u32;

    closed spec fn view(&self) -> u32 {
        self.bits
    }
}

impl SkyarchFlags {
    pub open spec fn spec_c(self) -> bool {
        flag_c(self@)
    }

    pub open spec fn spec_v(self) -> bool {
        flag_v(self@)
    }

    pub open spec fn spec_n(self) -> bool {
        flag_n(self@)
    }

    pub open spec fn spec_z(self) -> bool {
        flag_z(self@)
    }

    pub open spec fn spec_p(self) -> bool {
        flag_p(self@)
    }

    /// Flags with every bit clear.
    pub fn new() -> (r: SkyarchFlags)
        ensures
            r@ == 0,
    {
        SkyarchFlags { bits: 0 }
    }

    /// Flags holding the given raw word.
    pub fn from_bits(bits: u32) -> (r: SkyarchFlags)
        ensures
            r@ == bits,
    {
        SkyarchFlags { bits }
    }

    /// The raw word of the flags.
    pub fn bits(&self) -> (r: u32)
        ensures
            r == self@,
    {
        self.bits
    }

    pub fn c(&self) -> (r: bool)
        ensures
            r == self.spec_c(),
    {
        self.bits & 1u32 != 0
    }

    pub fn v(&self) -> (r: bool)
        ensures
            r == self.spec_v(),
    {
        self.bits & 2u32 != 0
    }

    pub fn n(&self) -> (r: bool)
        ensures
            r == self.spec_n(),
    {
        self.bits & 4u32 != 0
    }

    pub fn z(&self) -> (r: bool)
        ensures
            r == self.spec_z(),
    {
        self.bits & 8u32 != 0
    }

    pub fn p(&self) -> (r: bool)
        ensures
            r == self.spec_p(),
    {
        self.bits & 16u32 != 0
    }

    fn set_bit(&mut self, mask: u32, b: bool)
        ensures
            final(self)@ == with_bit(old(self)@, mask, b),
    {
        if b {
            self.bits = self.bits | mask;
        } else {
            self.bits = self.bits & !mask;
        }
    }

    pub fn set_c(&mut self, b: bool)
        ensures
            final(self)@ == with_bit(old(self)@, 1u32, b),
    {
        self.set_bit(1u32, b);
    }

    pub fn set_v(&mut self, b: bool)
        ensures
            final(self)@ == with_bit(old(self)@, 2u32, b),
    {
        self.set_bit(2u32, b);
    }

    pub fn set_n(&mut self, b: bool)
        ensures
            final(self)@ == with_bit(old(self)@, 4u32, b),
    {
        self.set_bit(4u32, b);
    }

    pub fn set_z(&mut self, b: bool)
        ensures
            final(self)@ == with_bit(old(self)@, 8u32, b),
    {
        self.set_bit(8u32, b);
    }

    pub fn set_p(&mut self, b: bool)
        ensures
            final(self)@ == with_bit(old(self)@, 16u32, b),
    {
        self.set_bit(16u32, b);
    }

    /// Exchanges the overflow and parity flags.
    pub fn xvp(&mut self)
        ensures
            final(self)@ == xvp_spec(old(self)@),
    {
        let parity = self.p();
        let overflow = self.v();
        self.set_p(overflow);
        self.set_v(parity);
    }

    /// Records the carry out of an operation.
    pub fn set_carry(&mut self, carry: bool)
        ensures
            final(self)@ == with_bit(old(self)@, 1u32, carry),
    {
        self.set_c(carry);
    }

    /// Records the signed overflow of an operation.
    pub fn set_overflow(&mut self, overflow: bool)
        ensures
            final(self)@ == with_bit(old(self)@, 2u32, overflow),
    {
        self.set_v(overflow);
    }

    /// Records the zero, sign and parity of a result.
    pub fn set_logic(&mut self, zero: bool, sign: bool, parity: bool)
        ensures
            final(self)@ == with_bit(with_bit(with_bit(old(self)@, 8u32, zero), 4u32, sign), 16u32, parity),
    {
        self.set_z(zero);
        self.set_n(sign);
        self.set_p(parity);
    }
}

/// Exchanging the overflow and parity flags swaps exactly those two flags, and
/// doing it twice restores the flags.
pub proof fn lemma_xvp(f: u32)
    ensures
        (xvp_spec(f) & 16u32 != 0) == (f & 2u32 != 0),
        (xvp_spec(f) & 2u32 != 0) == (f & 16u32 != 0),
        xvp_spec(f) & !18u32 == f & !18u32,
        xvp_spec(xvp_spec(f)) == f,
{
    assert((xvp_spec(f) & 16u32 != 0) == (f & 2u32 != 0) && (xvp_spec(f) & 2u32 != 0) == (f & 16u32 != 0)
        && xvp_spec(f) & !18u32 == f & !18u32 && xvp_spec(xvp_spec(f)) == f) by (bit_vector);
}


// ---------------------------------------------------------------------------
// Laws of the register maps.
// ---------------------------------------------------------------------------

/// General purpose register 0 always reads as zero, and writing it changes nothing.
pub proof fn lemma_zero_register(v: Seq<Seq<u32>>, val: u32)
    requires
        regs_wf(v),
    ensures
        read_spec(v, RegMap::Gprs, 0) == Ok::<u32, SkyarchException>(0),
        gpr_write(v, 0, val) == v,
{
}

/// A checked read of a register just written by a successful checked write
/// gives back the value written (zero for general purpose register 0).
pub proof fn lemma_write_then_read(v: Seq<Seq<u32>>, map: RegMap, reg: u8, val: u32)
    requires
        regs_wf(v),
        reg < 32,
        !map.is_coprocessor(),
        write_spec(v, map, reg, val).1 is Ok,
    ensures
        read_spec(write_spec(v, map, reg, val).0, map, reg) == Ok::<u32, SkyarchException>(
            if map == RegMap::Gprs && reg == 0 { 0 } else { val },
        ),
{
}

/// A refused write leaves every register as it was.
pub proof fn lemma_refused_write_unchanged(v: Seq<Seq<u32>>, map: RegMap, reg: u8, val: u32)
    requires
        !map.is_coprocessor(),
        write_spec(v, map, reg, val).1 is Err,
    ensures
        write_spec(v, map, reg, val).0 == v,
{
}

/// A write touches no register but the one it names.
pub proof fn lemma_write_frame(v: Seq<Seq<u32>>, map: RegMap, reg: u8, val: u32, m: int, r: int)
    requires
        shaped(v),
        reg < 32,
        !map.is_coprocessor(),
        0 <= m < 16,
        0 <= r < 32,
        m != map.spec_bits() || r != reg,
    ensures
        write_spec(v, map, reg, val).0[m][r] == v[m][r],
{
}

/// `check_write` predicts `write`: when it refuses a register, the write is
/// refused with the same exception, and when it accepts one, the write can
/// only be refused for the value (`Consistency`).
pub proof fn lemma_check_write_predicts_write(v: Seq<Seq<u32>>, map: RegMap, reg: u8, val: u32)
    requires
        !map.is_coprocessor(),
    ensures
        check_write_spec(v, map, reg) matches Err(e) ==> write_spec(v, map, reg, val).1 == Err::<(), SkyarchException>(e),
        check_write_spec(v, map, reg) is Ok ==> (write_spec(v, map, reg, val).1 is Ok
            || write_spec(v, map, reg, val).1 == Err::<(), SkyarchException>(SkyarchException::Consistency)),
{
}

/// After a reset, no coprocessor is enabled, and the availability register
/// reads back the set of coprocessors the reset was given.
pub proof fn lemma_reset_disables_coprocessors(coprocessors: u8, n: u8)
    requires
        n < 8,
    ensures
        copro_check(reset_view(coprocessors), n) == Err::<(), SkyarchException>(SkyarchException::Undefined),
        read_spec(reset_view(coprocessors), RegMap::CoprocessorControl, 31) == Ok::<u32, SkyarchException>(coprocessors as u32),
        regs_wf(reset_view(coprocessors)),
{
    let m = 1u32 << (n as u32);
    let c = coprocessors as u32;
    assert(0u32 & m == 0u32 && 0u32 & c == 0u32 && 0u32 & 0x7FFF_FFFCu32 == 0u32 && 0u32 & 7u32 == 0u32) by (bit_vector);
}

} // verus!
