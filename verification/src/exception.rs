use vstd::prelude::*;
use crate::bits::{bit32, field32, field64, get_field64};
use crate::peripherals::interrupts::{GpuIrqs1, GpuIrqs2, IrqPendingBase};

verus! {

/// The exception classes of the syndrome register, in the order of their codes (code
/// 16 names none).
#[derive(Clone, Copy, PartialEq, Eq, Structural)]
pub enum ExceptionClass {
    Unknown,
    TrappedWFxInstructionExecution,
    Reserved0x02,
    TrappedMCROrMRCAccessCoproc0xF,
    TrappedMCRROrMRRCAccess,
    TrappedMCROrMRCAccessCoproc0xE,
    TrappedLDCOrSTCAccess,
    TrappedFpSMEAdvancedSIMDOrSVE,
    Reserved0x08,
    Reserved0x09,
    TrappedLD64bOrST64bInstruction,
    Reserved0x0c,
    TrappedMRRCAcessCoproc0xE,
    BranchTargetException,
    IllegalExecutionState,
    Reserved0x11,
    TrappedSVCInstructionAArch32,
    Reserved0x12,
    Reserved0x13,
    Reserved0x14,
    TrappedSVCInstructionAArch64,
    Reserved0x16,
    Reserved0x17,
    TrappedMSROrMRSOrSystemInstruction,
    TrappedSVEAccess,
    Reserved0x1a,
    ExceptionFromTSTARTInstruction,
    PointerAuthenticationFailure,
    TrappedSMEAccess,
    Reserved0x1e,
    Reserved0x1f,
    InstructionAbortFromLowerEL,
    InstructionAbortFromSameEL,
    ProgramCounterAlignmentFault,
    Reserved0x23,
    DataAbortFromLowerEL,
    DataAbortFromSameEL,
    StackPointerAlignmentFault,
    MemoryOperationException,
    TrappedFloatingPointAArch32,
    Reserved0x29,
    Reserved0x2a,
    Reserved0x2b,
    TrappedFloatingPointAArch64,
    Reserved0x2d,
    Reserved0x2e,
    SError,
    BreakpointFromLowerEL,
    BreakpointFromSameEL,
    SoftwareStepFromLowerEL,
    SoftwareStepFromSameEL,
    WatchpointFromLowerEL,
    WatchpointFromSameEL,
    Reserved0x36,
    Reserved0x37,
    BKPTInstructionAArch32,
    Reserved0x39,
    Reserved0x3a,
    Reserved0x3b,
    BRKInstructionAArch64,
    Reserved0x3d,
    Reserved0x3e,
    Reserved0x3f,
}

impl ExceptionClass {
    pub open spec fn spec_code(self) -> u64 {
        match self {
            ExceptionClass::Unknown => 0,
            ExceptionClass::TrappedWFxInstructionExecution => 1,
            ExceptionClass::Reserved0x02 => 2,
            ExceptionClass::TrappedMCROrMRCAccessCoproc0xF => 3,
            ExceptionClass::TrappedMCRROrMRRCAccess => 4,
            ExceptionClass::TrappedMCROrMRCAccessCoproc0xE => 5,
            ExceptionClass::TrappedLDCOrSTCAccess => 6,
            ExceptionClass::TrappedFpSMEAdvancedSIMDOrSVE => 7,
            ExceptionClass::Reserved0x08 => 8,
            ExceptionClass::Reserved0x09 => 9,
            ExceptionClass::TrappedLD64bOrST64bInstruction => 10,
            ExceptionClass::Reserved0x0c => 11,
            ExceptionClass::TrappedMRRCAcessCoproc0xE => 12,
            ExceptionClass::BranchTargetException => 13,
            ExceptionClass::IllegalExecutionState => 14,
            ExceptionClass::Reserved0x11 => 15,
            ExceptionClass::TrappedSVCInstructionAArch32 => 17,
            ExceptionClass::Reserved0x12 => 18,
            ExceptionClass::Reserved0x13 => 19,
            ExceptionClass::Reserved0x14 => 20,
            ExceptionClass::TrappedSVCInstructionAArch64 => 21,
            ExceptionClass::Reserved0x16 => 22,
            ExceptionClass::Reserved0x17 => 23,
            ExceptionClass::TrappedMSROrMRSOrSystemInstruction => 24,
            ExceptionClass::TrappedSVEAccess => 25,
            ExceptionClass::Reserved0x1a => 26,
            ExceptionClass::ExceptionFromTSTARTInstruction => 27,
            ExceptionClass::PointerAuthenticationFailure => 28,
            ExceptionClass::TrappedSMEAccess => 29,
            ExceptionClass::Reserved0x1e => 30,
            ExceptionClass::Reserved0x1f => 31,
            ExceptionClass::InstructionAbortFromLowerEL => 32,
            ExceptionClass::InstructionAbortFromSameEL => 33,
            ExceptionClass::ProgramCounterAlignmentFault => 34,
            ExceptionClass::Reserved0x23 => 35,
            ExceptionClass::DataAbortFromLowerEL => 36,
            ExceptionClass::DataAbortFromSameEL => 37,
            ExceptionClass::StackPointerAlignmentFault => 38,
            ExceptionClass::MemoryOperationException => 39,
            ExceptionClass::TrappedFloatingPointAArch32 => 40,
            ExceptionClass::Reserved0x29 => 41,
            ExceptionClass::Reserved0x2a => 42,
            ExceptionClass::Reserved0x2b => 43,
            ExceptionClass::TrappedFloatingPointAArch64 => 44,
            ExceptionClass::Reserved0x2d => 45,
            ExceptionClass::Reserved0x2e => 46,
            ExceptionClass::SError => 47,
            ExceptionClass::BreakpointFromLowerEL => 48,
            ExceptionClass::BreakpointFromSameEL => 49,
            ExceptionClass::SoftwareStepFromLowerEL => 50,
            ExceptionClass::SoftwareStepFromSameEL => 51,
            ExceptionClass::WatchpointFromLowerEL => 52,
            ExceptionClass::WatchpointFromSameEL => 53,
            ExceptionClass::Reserved0x36 => 54,
            ExceptionClass::Reserved0x37 => 55,
            ExceptionClass::BKPTInstructionAArch32 => 56,
            ExceptionClass::Reserved0x39 => 57,
            ExceptionClass::Reserved0x3a => 58,
            ExceptionClass::Reserved0x3b => 59,
            ExceptionClass::BRKInstructionAArch64 => 60,
            ExceptionClass::Reserved0x3d => 61,
            ExceptionClass::Reserved0x3e => 62,
            ExceptionClass::Reserved0x3f => 63,
        }
    }

    /// The class's code.
    pub fn code(&self) -> (r: u64)
        ensures
            r == self.spec_code(),
    {
        match self {
            ExceptionClass::Unknown => 0,
            ExceptionClass::TrappedWFxInstructionExecution => 1,
            ExceptionClass::Reserved0x02 => 2,
            ExceptionClass::TrappedMCROrMRCAccessCoproc0xF => 3,
            ExceptionClass::TrappedMCRROrMRRCAccess => 4,
            ExceptionClass::TrappedMCROrMRCAccessCoproc0xE => 5,
            ExceptionClass::TrappedLDCOrSTCAccess => 6,
            ExceptionClass::TrappedFpSMEAdvancedSIMDOrSVE => 7,
            ExceptionClass::Reserved0x08 => 8,
            ExceptionClass::Reserved0x09 => 9,
            ExceptionClass::TrappedLD64bOrST64bInstruction => 10,
            ExceptionClass::Reserved0x0c => 11,
            ExceptionClass::TrappedMRRCAcessCoproc0xE => 12,
            ExceptionClass::BranchTargetException => 13,
            ExceptionClass::IllegalExecutionState => 14,
            ExceptionClass::Reserved0x11 => 15,
            ExceptionClass::TrappedSVCInstructionAArch32 => 17,
            ExceptionClass::Reserved0x12 => 18,
            ExceptionClass::Reserved0x13 => 19,
            ExceptionClass::Reserved0x14 => 20,
            ExceptionClass::TrappedSVCInstructionAArch64 => 21,
            ExceptionClass::Reserved0x16 => 22,
            ExceptionClass::Reserved0x17 => 23,
            ExceptionClass::TrappedMSROrMRSOrSystemInstruction => 24,
            ExceptionClass::TrappedSVEAccess => 25,
            ExceptionClass::Reserved0x1a => 26,
            ExceptionClass::ExceptionFromTSTARTInstruction => 27,
            ExceptionClass::PointerAuthenticationFailure => 28,
            ExceptionClass::TrappedSMEAccess => 29,
            ExceptionClass::Reserved0x1e => 30,
            ExceptionClass::Reserved0x1f => 31,
            ExceptionClass::InstructionAbortFromLowerEL => 32,
            ExceptionClass::InstructionAbortFromSameEL => 33,
            ExceptionClass::ProgramCounterAlignmentFault => 34,
            ExceptionClass::Reserved0x23 => 35,
            ExceptionClass::DataAbortFromLowerEL => 36,
            ExceptionClass::DataAbortFromSameEL => 37,
            ExceptionClass::StackPointerAlignmentFault => 38,
            ExceptionClass::MemoryOperationException => 39,
            ExceptionClass::TrappedFloatingPointAArch32 => 40,
            ExceptionClass::Reserved0x29 => 41,
            ExceptionClass::Reserved0x2a => 42,
            ExceptionClass::Reserved0x2b => 43,
            ExceptionClass::TrappedFloatingPointAArch64 => 44,
            ExceptionClass::Reserved0x2d => 45,
            ExceptionClass::Reserved0x2e => 46,
            ExceptionClass::SError => 47,
            ExceptionClass::BreakpointFromLowerEL => 48,
            ExceptionClass::BreakpointFromSameEL => 49,
            ExceptionClass::SoftwareStepFromLowerEL => 50,
            ExceptionClass::SoftwareStepFromSameEL => 51,
            ExceptionClass::WatchpointFromLowerEL => 52,
            ExceptionClass::WatchpointFromSameEL => 53,
            ExceptionClass::Reserved0x36 => 54,
            ExceptionClass::Reserved0x37 => 55,
            ExceptionClass::BKPTInstructionAArch32 => 56,
            ExceptionClass::Reserved0x39 => 57,
            ExceptionClass::Reserved0x3a => 58,
            ExceptionClass::Reserved0x3b => 59,
            ExceptionClass::BRKInstructionAArch64 => 60,
            ExceptionClass::Reserved0x3d => 61,
            ExceptionClass::Reserved0x3e => 62,
            ExceptionClass::Reserved0x3f => 63,
        }
    }

    /// The class with code `code`, if one has it.
    pub fn from_code(code: u64) -> (r: Option<ExceptionClass>)
        ensures
            match r {
                Some(c) => c.spec_code() == code,
                None => forall|c: ExceptionClass| c.spec_code() != code,
            },
    {
        if code == 0 { Some(ExceptionClass::Unknown) }
        else if code == 1 { Some(ExceptionClass::TrappedWFxInstructionExecution) }
        else if code == 2 { Some(ExceptionClass::Reserved0x02) }
        else if code == 3 { Some(ExceptionClass::TrappedMCROrMRCAccessCoproc0xF) }
        else if code == 4 { Some(ExceptionClass::TrappedMCRROrMRRCAccess) }
        else if code == 5 { Some(ExceptionClass::TrappedMCROrMRCAccessCoproc0xE) }
        else if code == 6 { Some(ExceptionClass::TrappedLDCOrSTCAccess) }
        else if code == 7 { Some(ExceptionClass::TrappedFpSMEAdvancedSIMDOrSVE) }
        else if code == 8 { Some(ExceptionClass::Reserved0x08) }
        else if code == 9 { Some(ExceptionClass::Reserved0x09) }
        else if code == 10 { Some(ExceptionClass::TrappedLD64bOrST64bInstruction) }
        else if code == 11 { Some(ExceptionClass::Reserved0x0c) }
        else if code == 12 { Some(ExceptionClass::TrappedMRRCAcessCoproc0xE) }
        else if code == 13 { Some(ExceptionClass::BranchTargetException) }
        else if code == 14 { Some(ExceptionClass::IllegalExecutionState) }
        else if code == 15 { Some(ExceptionClass::Reserved0x11) }
        else if code == 17 { Some(ExceptionClass::TrappedSVCInstructionAArch32) }
        else if code == 18 { Some(ExceptionClass::Reserved0x12) }
        else if code == 19 { Some(ExceptionClass::Reserved0x13) }
        else if code == 20 { Some(ExceptionClass::Reserved0x14) }
        else if code == 21 { Some(ExceptionClass::TrappedSVCInstructionAArch64) }
        else if code == 22 { Some(ExceptionClass::Reserved0x16) }
        else if code == 23 { Some(ExceptionClass::Reserved0x17) }
        else if code == 24 { Some(ExceptionClass::TrappedMSROrMRSOrSystemInstruction) }
        else if code == 25 { Some(ExceptionClass::TrappedSVEAccess) }
        else if code == 26 { Some(ExceptionClass::Reserved0x1a) }
        else if code == 27 { Some(ExceptionClass::ExceptionFromTSTARTInstruction) }
        else if code == 28 { Some(ExceptionClass::PointerAuthenticationFailure) }
        else if code == 29 { Some(ExceptionClass::TrappedSMEAccess) }
        else if code == 30 { Some(ExceptionClass::Reserved0x1e) }
        else if code == 31 { Some(ExceptionClass::Reserved0x1f) }
        else if code == 32 { Some(ExceptionClass::InstructionAbortFromLowerEL) }
        else if code == 33 { Some(ExceptionClass::InstructionAbortFromSameEL) }
        else if code == 34 { Some(ExceptionClass::ProgramCounterAlignmentFault) }
        else if code == 35 { Some(ExceptionClass::Reserved0x23) }
        else if code == 36 { Some(ExceptionClass::DataAbortFromLowerEL) }
        else if code == 37 { Some(ExceptionClass::DataAbortFromSameEL) }
        else if code == 38 { Some(ExceptionClass::StackPointerAlignmentFault) }
        else if code == 39 { Some(ExceptionClass::MemoryOperationException) }
        else if code == 40 { Some(ExceptionClass::TrappedFloatingPointAArch32) }
        else if code == 41 { Some(ExceptionClass::Reserved0x29) }
        else if code == 42 { Some(ExceptionClass::Reserved0x2a) }
        else if code == 43 { Some(ExceptionClass::Reserved0x2b) }
        else if code == 44 { Some(ExceptionClass::TrappedFloatingPointAArch64) }
        else if code == 45 { Some(ExceptionClass::Reserved0x2d) }
        else if code == 46 { Some(ExceptionClass::Reserved0x2e) }
        else if code == 47 { Some(ExceptionClass::SError) }
        else if code == 48 { Some(ExceptionClass::BreakpointFromLowerEL) }
        else if code == 49 { Some(ExceptionClass::BreakpointFromSameEL) }
        else if code == 50 { Some(ExceptionClass::SoftwareStepFromLowerEL) }
        else if code == 51 { Some(ExceptionClass::SoftwareStepFromSameEL) }
        else if code == 52 { Some(ExceptionClass::WatchpointFromLowerEL) }
        else if code == 53 { Some(ExceptionClass::WatchpointFromSameEL) }
        else if code == 54 { Some(ExceptionClass::Reserved0x36) }
        else if code == 55 { Some(ExceptionClass::Reserved0x37) }
        else if code == 56 { Some(ExceptionClass::BKPTInstructionAArch32) }
        else if code == 57 { Some(ExceptionClass::Reserved0x39) }
        else if code == 58 { Some(ExceptionClass::Reserved0x3a) }
        else if code == 59 { Some(ExceptionClass::Reserved0x3b) }
        else if code == 60 { Some(ExceptionClass::BRKInstructionAArch64) }
        else if code == 61 { Some(ExceptionClass::Reserved0x3d) }
        else if code == 62 { Some(ExceptionClass::Reserved0x3e) }
        else if code == 63 { Some(ExceptionClass::Reserved0x3f) }
        else { None }
    }
}

/// Each class has the code of the exception class field (ESR_ELx.EC, bits 31:26) that
/// the architecture gives it, in the order the classes are declared: the named classes
/// carry their architectural EC value (instruction abort from a lower level 0b100000,
/// from the same level 0b100001, SVC from AArch64 0b010101, and so on), and each
/// reserved class the value after the class before it.
pub proof fn lemma_architectural_class_codes()
    ensures
        ExceptionClass::Unknown.spec_code() == 0b000000,
        ExceptionClass::TrappedWFxInstructionExecution.spec_code() == 0b000001,
        ExceptionClass::Reserved0x02.spec_code() == 0b000010,
        ExceptionClass::TrappedMCROrMRCAccessCoproc0xF.spec_code() == 0b000011,
        ExceptionClass::TrappedMCRROrMRRCAccess.spec_code() == 0b000100,
        ExceptionClass::TrappedMCROrMRCAccessCoproc0xE.spec_code() == 0b000101,
        ExceptionClass::TrappedLDCOrSTCAccess.spec_code() == 0b000110,
        ExceptionClass::TrappedFpSMEAdvancedSIMDOrSVE.spec_code() == 0b000111,
        ExceptionClass::Reserved0x08.spec_code() == 0b001000,
        ExceptionClass::Reserved0x09.spec_code() == 0b001001,
        ExceptionClass::TrappedLD64bOrST64bInstruction.spec_code() == 0b001010,
        ExceptionClass::Reserved0x0c.spec_code() == 0b001011,
        ExceptionClass::TrappedMRRCAcessCoproc0xE.spec_code() == 0b001100,
        ExceptionClass::BranchTargetException.spec_code() == 0b001101,
        ExceptionClass::IllegalExecutionState.spec_code() == 0b001110,
        ExceptionClass::Reserved0x11.spec_code() == 0b001111,
        ExceptionClass::TrappedSVCInstructionAArch32.spec_code() == 0b010001,
        ExceptionClass::Reserved0x12.spec_code() == 0b010010,
        ExceptionClass::Reserved0x13.spec_code() == 0b010011,
        ExceptionClass::Reserved0x14.spec_code() == 0b010100,
        ExceptionClass::TrappedSVCInstructionAArch64.spec_code() == 0b010101,
        ExceptionClass::Reserved0x16.spec_code() == 0b010110,
        ExceptionClass::Reserved0x17.spec_code() == 0b010111,
        ExceptionClass::TrappedMSROrMRSOrSystemInstruction.spec_code() == 0b011000,
        ExceptionClass::TrappedSVEAccess.spec_code() == 0b011001,
        ExceptionClass::Reserved0x1a.spec_code() == 0b011010,
        ExceptionClass::ExceptionFromTSTARTInstruction.spec_code() == 0b011011,
        ExceptionClass::PointerAuthenticationFailure.spec_code() == 0b011100,
        ExceptionClass::TrappedSMEAccess.spec_code() == 0b011101,
        ExceptionClass::Reserved0x1e.spec_code() == 0b011110,
        ExceptionClass::Reserved0x1f.spec_code() == 0b011111,
        ExceptionClass::InstructionAbortFromLowerEL.spec_code() == 0b100000,
        ExceptionClass::InstructionAbortFromSameEL.spec_code() == 0b100001,
        ExceptionClass::ProgramCounterAlignmentFault.spec_code() == 0b100010,
        ExceptionClass::Reserved0x23.spec_code() == 0b100011,
        ExceptionClass::DataAbortFromLowerEL.spec_code() == 0b100100,
        ExceptionClass::DataAbortFromSameEL.spec_code() == 0b100101,
        ExceptionClass::StackPointerAlignmentFault.spec_code() == 0b100110,
        ExceptionClass::MemoryOperationException.spec_code() == 0b100111,
        ExceptionClass::TrappedFloatingPointAArch32.spec_code() == 0b101000,
        ExceptionClass::Reserved0x29.spec_code() == 0b101001,
        ExceptionClass::Reserved0x2a.spec_code() == 0b101010,
        ExceptionClass::Reserved0x2b.spec_code() == 0b101011,
        ExceptionClass::TrappedFloatingPointAArch64.spec_code() == 0b101100,
        ExceptionClass::Reserved0x2d.spec_code() == 0b101101,
        ExceptionClass::Reserved0x2e.spec_code() == 0b101110,
        ExceptionClass::SError.spec_code() == 0b101111,
        ExceptionClass::BreakpointFromLowerEL.spec_code() == 0b110000,
        ExceptionClass::BreakpointFromSameEL.spec_code() == 0b110001,
        ExceptionClass::SoftwareStepFromLowerEL.spec_code() == 0b110010,
        ExceptionClass::SoftwareStepFromSameEL.spec_code() == 0b110011,
        ExceptionClass::WatchpointFromLowerEL.spec_code() == 0b110100,
        ExceptionClass::WatchpointFromSameEL.spec_code() == 0b110101,
        ExceptionClass::Reserved0x36.spec_code() == 0b110110,
        ExceptionClass::Reserved0x37.spec_code() == 0b110111,
        ExceptionClass::BKPTInstructionAArch32.spec_code() == 0b111000,
        ExceptionClass::Reserved0x39.spec_code() == 0b111001,
        ExceptionClass::Reserved0x3a.spec_code() == 0b111010,
        ExceptionClass::Reserved0x3b.spec_code() == 0b111011,
        ExceptionClass::BRKInstructionAArch64.spec_code() == 0b111100,
        ExceptionClass::Reserved0x3d.spec_code() == 0b111101,
        ExceptionClass::Reserved0x3e.spec_code() == 0b111110,
        ExceptionClass::Reserved0x3f.spec_code() == 0b111111,
{
}

/// No two classes share a code: the class that `from_code` finds for a code is the
/// only one with it, and `from_code` of a class's code gives that class back.
pub proof fn lemma_class_codes_distinct(a: ExceptionClass, b: ExceptionClass)
    requires
        a.spec_code() == b.spec_code(),
    ensures
        a == b,
{
}

/// The length of the trapped instruction.
#[derive(Clone, Copy, PartialEq, Eq, Structural)]
pub enum InstructionLength {
    Trapped16bitInstruction,
    Trapped32bitInstruction,
}

/// A value of the exception syndrome register.
#[derive(Clone, Copy, PartialEq, Eq, Structural)]
pub struct ExceptionSyndrome(pub u64);

impl ExceptionSyndrome {
    /// The class in bits 26 to 31, if a class has that code.
    pub fn exception_class(&self) -> (r: Option<ExceptionClass>)
        ensures
            match r {
                Some(c) => c.spec_code() == field64(self.0, 26, 6),
                None => forall|c: ExceptionClass| c.spec_code() != field64(self.0, 26, 6),
            },
    {
        ExceptionClass::from_code(get_field64(self.0, 26, 6))
    }

    /// Bit 25: a 32-bit instruction when set.
    pub fn instruction_length(&self) -> (r: InstructionLength)
        ensures
            r == if field64(self.0, 25, 1) == 1 { InstructionLength::Trapped32bitInstruction } else { InstructionLength::Trapped16bitInstruction },
    {
        if get_field64(self.0, 25, 1) == 1 { InstructionLength::Trapped32bitInstruction } else { InstructionLength::Trapped16bitInstruction }
    }

    /// Bits 0 to 12 of the instruction specific syndrome.
    pub fn instruction_specific_syndrome(&self) -> (r: u64)
        ensures
            r == field64(self.0, 0, 13),
    {
        get_field64(self.0, 0, 13)
    }
}


/// The work an IRQ calls for.
#[derive(Clone, Copy, PartialEq, Eq, Structural)]
pub struct IrqWork {
    /// A system timer matched: read and clear the match flags, and signal the waiter.
    pub system_timer: bool,
    /// The UART raised an interrupt.
    pub uart: bool,
}

/// What to do for a pending IRQ, given the basic pending register and the two GPU
/// pending registers; a GPU register is only looked at when the basic register shows
/// that it holds pending interrupts.
pub fn irq_handler(pending_base: IrqPendingBase, gpu1: GpuIrqs1, gpu2: GpuIrqs2) -> (r: IrqWork)
    ensures
        r.system_timer == (bit32(pending_base.0, 8) && field32(gpu1.0, 0, 4) != 0),
        r.uart == (bit32(pending_base.0, 9) && bit32(gpu2.0, 25)),
{
    let system_timer = pending_base.pend_reg_1() && gpu1.system_timers() != 0;
    let uart = pending_base.pend_reg_2() && gpu2.uart_int();
    IrqWork { system_timer, uart }
}

} // verus!
