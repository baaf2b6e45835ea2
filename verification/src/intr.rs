use vstd::prelude::*;

verus! {

/// The interrupt control register: the interrupt mask in bits 0..2 and the
/// abort flag in bit 31. The abort flag is set while an exception is being
/// handled; an exception raised while it is set stops the core.
#[derive(Copy, Clone, Debug, Hash, PartialEq, Eq)]
pub struct Intctl {
    bits: u32,
}

impl View for Intctl {
    type V = u32;

    closed spec fn view(&self) -> u32 {
        self.bits
    }
}

impl Intctl {
    pub open spec fn spec_mask(self) -> u8 {
        (self@ & 3u32) as u8
    }

    pub open spec fn spec_abort(self) -> bool {
        self@ & 0x8000_0000u32 != 0
    }

    /// The register with every bit clear.
    pub fn new() -> (r: Intctl)
        ensures
            r@ == 0,
    {
        Intctl { bits: 0 }
    }

    /// The register holding the given raw word.
    pub fn from_bits(bits: u32) -> (r: Intctl)
        ensures
            r@ == bits,
    {
        Intctl { bits }
    }

    /// The raw word of the register.
    pub fn bits(&self) -> (r: u32)
        ensures
            r == self@,
    {
        self.bits
    }

    /// The interrupt mask, bits 0..2.
    pub fn mask(&self) -> (r: u8)
        ensures
            r == self.spec_mask(),
            r < 4,
    {
        let b = self.bits;
        let r = (b & 3u32) as u8;
        proof {
            assert(b & 3u32 < 4) by (bit_vector);
        }
        r
    }

    /// The abort flag, bit 31.
    pub fn abort(&self) -> (r: bool)
        ensures
            r == self.spec_abort(),
    {
        self.bits & 0x8000_0000u32 != 0
    }

    /// Replaces the interrupt mask, leaving the other bits as they were.
    pub fn set_mask(&mut self, mask: u8)
        requires
            mask < 4,
        ensures
            final(self)@ == (old(self)@ & !3u32) | (mask as u32),
    {
        self.bits = (self.bits & !3u32) | (mask as u32);
    }

    /// The register with the abort flag replaced.
    pub fn with_abort(self, abort: bool) -> (r: Intctl)
        ensures
            r@ == (if abort {
                self@ | 0x8000_0000u32
            } else {
                self@ & !0x8000_0000u32
            }),
    {
        if abort {
            Intctl { bits: self.bits | 0x8000_0000u32 }
        } else {
            Intctl { bits: self.bits & !0x8000_0000u32 }
        }
    }
}

/// An interrupt return register: the mask to restore in bits 0..2 and the
/// 4-byte aligned return address in bits 2..32.
#[derive(Copy, Clone, Debug, Hash, PartialEq, Eq)]
pub struct Intret {
    bits: u32,
}

impl View for Intret {
    type V = u32;

    closed spec fn view(&self) -> u32 {
        self.bits
    }
}

impl Intret {
    pub open spec fn spec_retmask(self) -> u8 {
        (self@ & 3u32) as u8
    }

    pub open spec fn spec_addr(self) -> u32 {
        self@ & !3u32
    }

    /// The register with every bit clear.
    pub fn new() -> (r: Intret)
        ensures
            r@ == 0,
    {
        Intret { bits: 0 }
    }

    /// The register holding the given raw word.
    pub fn from_bits(bits: u32) -> (r: Intret)
        ensures
            r@ == bits,
    {
        Intret { bits }
    }

    /// The raw word of the register.
    pub fn bits(&self) -> (r: u32)
        ensures
            r == self@,
    {
        self.bits
    }

    /// The mask to restore on return, bits 0..2.
    pub fn retmask(&self) -> (r: u8)
        ensures
            r == self.spec_retmask(),
            r < 4,
    {
        let b = self.bits;
        let r = (b & 3u32) as u8;
        proof {
            assert(b & 3u32 < 4) by (bit_vector);
        }
        r
    }

    /// The return address: bits 2..32 with the two low bits clear.
    pub fn addr(&self) -> (r: u32)
        ensures
            r == self.spec_addr(),
    {
        self.bits & !3u32
    }

    /// The register with the return address replaced by the aligned part of `addr`.
    pub fn with_addr(self, addr: u32) -> (r: Intret)
        ensures
            r@ == (self@ & 3u32) | (addr & !3u32),
    {
        Intret { bits: (self.bits & 3u32) | (addr & !3u32) }
    }

    /// The register with the mask to restore replaced.
    pub fn with_retmask(self, mask: u8) -> (r: Intret)
        requires
            mask < 4,
        ensures
            r@ == (self@ & !3u32) | (mask as u32),
    {
        Intret { bits: (self.bits & !3u32) | (mask as u32) }
    }
}

/// The interrupt table base register: the 8-byte aligned table address in
/// bits 3..32.
#[derive(Copy, Clone, Debug, Hash, PartialEq, Eq)]
pub struct Inttab {
    bits: u32,
}

impl View for Inttab {
    type V = u32;

    closed spec fn view(&self) -> u32 {
        self.bits
    }
}

impl Inttab {
    pub open spec fn spec_addr(self) -> u32 {
        self@ & !7u32
    }

    /// The register holding the given raw word.
    pub fn from_bits(bits: u32) -> (r: Inttab)
        ensures
            r@ == bits,
    {
        Inttab { bits }
    }

    /// The raw word of the register.
    pub fn bits(&self) -> (r: u32)
        ensures
            r == self@,
    {
        self.bits
    }

    /// The table address: bits 3..32 with the three low bits clear.
    pub fn addr(&self) -> (r: u32)
        ensures
            r == self.spec_addr(),
    {
        self.bits & !7u32
    }
}

/// What an interrupt table entry says: whether it is well formed, whether it
/// is present, and the handler address.
#[derive(Copy, Clone, Debug, Hash, PartialEq, Eq)]
pub struct IntSlot {
    pub valid: bool,
    pub present: bool,
    pub addr: u32,
}

} // verus!
