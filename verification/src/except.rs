use vstd::prelude::*;

verus! {

/// The exceptions a Skyarch core can raise. Each kind has a vector number
/// (see [`SkyarchException::code`]) that selects its slot in the interrupt table.
#[derive(Copy, Clone, Debug, Hash, PartialEq, Eq, Structural)]
pub enum SkyarchException {
    Abort,
    BusError,
    Undefined,
    UnalignedBranch,
    Consistency,
    Breakpoint,
    PriorityIrq,
    Coprocessor0,
    Coprocessor1,
    Coprocessor2,
    Coprocessor3,
    Coprocessor4,
    Coprocessor5,
    Coprocessor6,
    Coprocessor7,
}

impl SkyarchException {
    /// The vector number of each exception kind.
    pub open spec fn spec_code(self) -> u8 {
        match self {
            SkyarchException::Abort => 0,
            SkyarchException::BusError => 1,
            SkyarchException::Undefined => 2,
            SkyarchException::UnalignedBranch => 3,
            SkyarchException::Consistency => 4,
            SkyarchException::Breakpoint => 5,
            SkyarchException::PriorityIrq => 7,
            SkyarchException::Coprocessor0 => 8,
            SkyarchException::Coprocessor1 => 9,
            SkyarchException::Coprocessor2 => 10,
            SkyarchException::Coprocessor3 => 11,
            SkyarchException::Coprocessor4 => 12,
            SkyarchException::Coprocessor5 => 13,
            SkyarchException::Coprocessor6 => 14,
            SkyarchException::Coprocessor7 => 15,
        }
    }

    /// Returns the vector number of this exception.
    pub fn code(&self) -> (r: u8)
        ensures
            r == self.spec_code(),
            r < 16,
    {
        match self {
            SkyarchException::Abort => 0,
            SkyarchException::BusError => 1,
            SkyarchException::Undefined => 2,
            SkyarchException::UnalignedBranch => 3,
            SkyarchException::Consistency => 4,
            SkyarchException::Breakpoint => 5,
            SkyarchException::PriorityIrq => 7,
            SkyarchException::Coprocessor0 => 8,
            SkyarchException::Coprocessor1 => 9,
            SkyarchException::Coprocessor2 => 10,
            SkyarchException::Coprocessor3 => 11,
            SkyarchException::Coprocessor4 => 12,
            SkyarchException::Coprocessor5 => 13,
            SkyarchException::Coprocessor6 => 14,
            SkyarchException::Coprocessor7 => 15,
        }
    }
}

/// Distinct exception kinds have distinct vector numbers, so each owns its own
/// interrupt-table slot.
pub proof fn lemma_codes_distinct(a: SkyarchException, b: SkyarchException)
    ensures
        a.spec_code() == b.spec_code() <==> a == b,
{
}

/// The vector number of every exception kind: Abort 0, BusError 1,
/// Undefined 2, UnalignedBranch 3, Consistency 4, Breakpoint 5,
/// PriorityIrq 7, and 8 + N for coprocessor N.
pub proof fn lemma_vector_numbers()
    ensures
        SkyarchException::Abort.spec_code() == 0,
        SkyarchException::BusError.spec_code() == 1,
        SkyarchException::Undefined.spec_code() == 2,
        SkyarchException::UnalignedBranch.spec_code() == 3,
        SkyarchException::Consistency.spec_code() == 4,
        SkyarchException::Breakpoint.spec_code() == 5,
        SkyarchException::PriorityIrq.spec_code() == 7,
        SkyarchException::Coprocessor0.spec_code() == 8,
        SkyarchException::Coprocessor1.spec_code() == 9,
        SkyarchException::Coprocessor2.spec_code() == 10,
        SkyarchException::Coprocessor3.spec_code() == 11,
        SkyarchException::Coprocessor4.spec_code() == 12,
        SkyarchException::Coprocessor5.spec_code() == 13,
        SkyarchException::Coprocessor6.spec_code() == 14,
        SkyarchException::Coprocessor7.spec_code() == 15,
{
}

} // verus!
