//! Processor modes, execution states, register names, condition codes and
//! opcode tables shared by the whole core.

use crate::memory::MemoryAccess;
use vstd::prelude::*;

verus! {

/// Clock frequency of the processor in cycles per second.
pub const CPU_CLOCK_SPEED: u32 = 16777216;

/// What the pipeline does once an instruction has run.
#[derive(Debug, Copy, Clone, PartialEq, Eq, Structural)]
pub enum CpuAction {
    /// Move on to the next instruction; the next fetch has this timing class.
    Advance(MemoryAccess),
    /// The program counter was rewritten: both prefetch slots are stale.
    PipelineFlush,
}

/// The mode field of a status word held a pattern that names no mode.
#[derive(Debug, Copy, Clone, PartialEq, Eq, Structural)]
pub struct InvalidMode;

/// Why the core refused to carry out an instruction.
#[derive(Debug, Copy, Clone, PartialEq, Eq, Structural)]
pub enum ExecutionError {
    /// A status word whose mode field names no mode was to be written to a
    /// status register.
    InvalidMode,
    /// User mode tried to write the control bits of the current status
    /// register.
    PrivilegedWrite,
    /// The saved status register was named in User or System mode, which
    /// have none.
    NoSavedStatus,
    /// A block transfer in a privileged mode was to load the program
    /// counter with the S bit set. What this does to the banks is not
    /// settled, so it is not carried out.
    UnsupportedBlockTransfer,
}

/// The seven processor modes.
#[derive(Debug, Copy, Clone, PartialEq, Eq, Structural)]
pub enum CpuMode {
    User,
    Fiq,
    Irq,
    Supervisor,
    Abort,
    Undefined,
    System,
}

/// The mode that a 5-bit pattern names, if it names one.
pub open spec fn mode_of_bits(bits: u8) -> Option<CpuMode> {
    if bits == 0b10000 {
        Some(CpuMode::User)
    } else if bits == 0b10001 {
        Some(CpuMode::Fiq)
    } else if bits == 0b10010 {
        Some(CpuMode::Irq)
    } else if bits == 0b10011 {
        Some(CpuMode::Supervisor)
    } else if bits == 0b10111 {
        Some(CpuMode::Abort)
    } else if bits == 0b11011 {
        Some(CpuMode::Undefined)
    } else if bits == 0b11111 {
        Some(CpuMode::System)
    } else {
        None
    }
}

impl CpuMode {
    /// The 5-bit pattern of this mode.
    pub open spec fn bits(self) -> u8 {
        match self {
            CpuMode::User => 0b10000,
            CpuMode::Fiq => 0b10001,
            CpuMode::Irq => 0b10010,
            CpuMode::Supervisor => 0b10011,
            CpuMode::Abort => 0b10111,
            CpuMode::Undefined => 0b11011,
            CpuMode::System => 0b11111,
        }
    }

    /// Whether the mode has a saved status register of its own.
    pub open spec fn has_saved_status(self) -> bool {
        self != CpuMode::User && self != CpuMode::System
    }

    /// Decodes a mode pattern; every pattern but the seven legal ones is
    /// refused.
    pub fn from_bits(bits: u8) -> (r: Result<CpuMode, InvalidMode>)
        ensures
            r == match mode_of_bits(bits) {
                Some(mode) => Ok::<CpuMode, InvalidMode>(mode),
                None => Err::<CpuMode, InvalidMode>(InvalidMode),
            },
    {
        match bits {
            0b10000 => Ok(CpuMode::User),
            0b10001 => Ok(CpuMode::Fiq),
            0b10010 => Ok(CpuMode::Irq),
            0b10011 => Ok(CpuMode::Supervisor),
            0b10111 => Ok(CpuMode::Abort),
            0b11011 => Ok(CpuMode::Undefined),
            0b11111 => Ok(CpuMode::System),
            _ => Err(InvalidMode),
        }
    }

    /// The 5-bit pattern of this mode.
    pub fn into_bits(self) -> (r: u8)
        ensures
            r == self.bits(),
            mode_of_bits(r) == Some(self),
    {
        match self {
            CpuMode::User => 0b10000,
            CpuMode::Fiq => 0b10001,
            CpuMode::Irq => 0b10010,
            CpuMode::Supervisor => 0b10011,
            CpuMode::Abort => 0b10111,
            CpuMode::Undefined => 0b11011,
            CpuMode::System => 0b11111,
        }
    }

    /// Whether the mode has a saved status register of its own.
    pub fn is_banked(self) -> (r: bool)
        ensures
            r == self.has_saved_status(),
    {
        match self {
            CpuMode::User => false,
            CpuMode::System => false,
            _ => true,
        }
    }
}

/// The instruction set in force.
#[derive(Debug, Copy, Clone, PartialEq, Eq, Structural)]
pub enum CpuState {
    Arm,
    Thumb,
}

impl CpuState {
    /// The state bit: 0 for ARM, 1 for Thumb.
    pub open spec fn bits(self) -> u8 {
        match self {
            CpuState::Arm => 0,
            CpuState::Thumb => 1,
        }
    }

    /// Decodes the state bit.
    pub fn from_bits(bits: u8) -> (r: CpuState)
        requires
            bits <= 1,
        ensures
            r.bits() == bits,
    {
        if bits == 0 {
            CpuState::Arm
        } else {
            CpuState::Thumb
        }
    }

    /// The state bit: 0 for ARM, 1 for Thumb.
    pub fn into_bits(self) -> (r: u8)
        ensures
            r == self.bits(),
    {
        match self {
            CpuState::Arm => 0,
            CpuState::Thumb => 1,
        }
    }
}

/// The sixteen logical registers.
#[derive(Debug, Copy, Clone, PartialEq, Eq, Structural)]
pub enum Register {
    R0,
    R1,
    R2,
    R3,
    R4,
    R5,
    R6,
    R7,
    R8,
    R9,
    R10,
    R11,
    R12,
    R13,
    R14,
    R15,
}

impl Register {
    /// The register's number, 0 to 15.
    pub open spec fn number(self) -> nat {
        match self {
            Register::R0 => 0,
            Register::R1 => 1,
            Register::R2 => 2,
            Register::R3 => 3,
            Register::R4 => 4,
            Register::R5 => 5,
            Register::R6 => 6,
            Register::R7 => 7,
            Register::R8 => 8,
            Register::R9 => 9,
            Register::R10 => 10,
            Register::R11 => 11,
            Register::R12 => 12,
            Register::R13 => 13,
            Register::R14 => 14,
            Register::R15 => 15,
        }
    }

    /// The register's number, 0 to 15.
    pub fn index(self) -> (r: usize)
        ensures
            r == self.number(),
            r < 16,
    {
        match self {
            Register::R0 => 0,
            Register::R1 => 1,
            Register::R2 => 2,
            Register::R3 => 3,
            Register::R4 => 4,
            Register::R5 => 5,
            Register::R6 => 6,
            Register::R7 => 7,
            Register::R8 => 8,
            Register::R9 => 9,
            Register::R10 => 10,
            Register::R11 => 11,
            Register::R12 => 12,
            Register::R13 => 13,
            Register::R14 => 14,
            Register::R15 => 15,
        }
    }
}

/// The register with the given number, 0 to 15.
pub open spec fn register_numbered(value: u32) -> Register {
    if value == 0 {
        Register::R0
    } else if value == 1 {
        Register::R1
    } else if value == 2 {
        Register::R2
    } else if value == 3 {
        Register::R3
    } else if value == 4 {
        Register::R4
    } else if value == 5 {
        Register::R5
    } else if value == 6 {
        Register::R6
    } else if value == 7 {
        Register::R7
    } else if value == 8 {
        Register::R8
    } else if value == 9 {
        Register::R9
    } else if value == 10 {
        Register::R10
    } else if value == 11 {
        Register::R11
    } else if value == 12 {
        Register::R12
    } else if value == 13 {
        Register::R13
    } else if value == 14 {
        Register::R14
    } else {
        Register::R15
    }
}

impl Register {
    /// The register with the given number. A register number has four
    /// bits: a larger number names no register.
    pub fn from_bits(value: u32) -> (r: Self)
        requires
            value < 16,
        ensures
            r == register_numbered(value),
            r.number() == value,
    {
        match value {
            0 => Register::R0,
            1 => Register::R1,
            2 => Register::R2,
            3 => Register::R3,
            4 => Register::R4,
            5 => Register::R5,
            6 => Register::R6,
            7 => Register::R7,
            8 => Register::R8,
            9 => Register::R9,
            10 => Register::R10,
            11 => Register::R11,
            12 => Register::R12,
            13 => Register::R13,
            14 => Register::R14,
            _ => Register::R15,
        }
    }
}

/// The registers that Thumb's short encodings can name, `R0` to `R7`.
#[derive(Debug, Copy, Clone, PartialEq, Eq, Structural)]
pub enum LoRegister {
    R0,
    R1,
    R2,
    R3,
    R4,
    R5,
    R6,
    R7,
}

impl LoRegister {
    /// The register's number, 0 to 7.
    pub open spec fn number(self) -> nat {
        match self {
            LoRegister::R0 => 0,
            LoRegister::R1 => 1,
            LoRegister::R2 => 2,
            LoRegister::R3 => 3,
            LoRegister::R4 => 4,
            LoRegister::R5 => 5,
            LoRegister::R6 => 6,
            LoRegister::R7 => 7,
        }
    }

    /// The low register with the given number. The field has three bits:
    /// a larger number names no register.
    pub fn from_bits(value: u16) -> (r: Self)
        requires
            value < 8,
        ensures
            r.number() == value,
    {
        match value {
            0 => LoRegister::R0,
            1 => LoRegister::R1,
            2 => LoRegister::R2,
            3 => LoRegister::R3,
            4 => LoRegister::R4,
            5 => LoRegister::R5,
            6 => LoRegister::R6,
            _ => LoRegister::R7,
        }
    }
}

/// The registers `R8` to `R15`, which Thumb names by a 3-bit field and a
/// high-register flag.
#[derive(Debug, Copy, Clone, PartialEq, Eq, Structural)]
pub enum HiRegister {
    R8,
    R9,
    R10,
    R11,
    R12,
    R13,
    R14,
    R15,
}

impl HiRegister {
    /// The register's number, 8 to 15.
    pub open spec fn number(self) -> nat {
        match self {
            HiRegister::R8 => 8,
            HiRegister::R9 => 9,
            HiRegister::R10 => 10,
            HiRegister::R11 => 11,
            HiRegister::R12 => 12,
            HiRegister::R13 => 13,
            HiRegister::R14 => 14,
            HiRegister::R15 => 15,
        }
    }

    /// The high register that the given 3-bit field names: field 0 is
    /// `R8`. A larger number names no register.
    pub fn from_bits(value: u16) -> (r: Self)
        requires
            value < 8,
        ensures
            r.number() == value + 8,
    {
        match value {
            0 => HiRegister::R8,
            1 => HiRegister::R9,
            2 => HiRegister::R10,
            3 => HiRegister::R11,
            4 => HiRegister::R12,
            5 => HiRegister::R13,
            6 => HiRegister::R14,
            _ => HiRegister::R15,
        }
    }
}

/// The fifteen condition codes under which an instruction may run.
#[derive(Debug, Copy, Clone, PartialEq, Eq, Structural)]
pub enum Condition {
    EQ,
    NE,
    CS,
    CC,
    MI,
    PL,
    VS,
    VC,
    HI,
    LS,
    GE,
    LT,
    GT,
    LE,
    AL,
}

/// A condition field held the sixteenth, reserved encoding.
#[derive(Debug, Copy, Clone, PartialEq, Eq, Structural)]
pub struct ReservedCondition;

/// The condition that a 4-bit field names; `0b1111` and anything wider
/// names none.
pub open spec fn condition_of_bits(value: u32) -> Option<Condition> {
    if value == 0 {
        Some(Condition::EQ)
    } else if value == 1 {
        Some(Condition::NE)
    } else if value == 2 {
        Some(Condition::CS)
    } else if value == 3 {
        Some(Condition::CC)
    } else if value == 4 {
        Some(Condition::MI)
    } else if value == 5 {
        Some(Condition::PL)
    } else if value == 6 {
        Some(Condition::VS)
    } else if value == 7 {
        Some(Condition::VC)
    } else if value == 8 {
        Some(Condition::HI)
    } else if value == 9 {
        Some(Condition::LS)
    } else if value == 10 {
        Some(Condition::GE)
    } else if value == 11 {
        Some(Condition::LT)
    } else if value == 12 {
        Some(Condition::GT)
    } else if value == 13 {
        Some(Condition::LE)
    } else if value == 14 {
        Some(Condition::AL)
    } else {
        None
    }
}

/// What decoding a condition field gives: the condition, or the refusal of
/// the reserved encoding.
pub open spec fn decoded_condition(value: u32) -> Result<Condition, ReservedCondition> {
    match condition_of_bits(value) {
        Some(condition) => Ok(condition),
        None => Err(ReservedCondition),
    }
}

impl Condition {
    /// Decodes a condition field; the reserved encoding is refused.
    pub fn from_bits(value: u32) -> (r: Result<Condition, ReservedCondition>)
        ensures
            r == decoded_condition(value),
    {
        match value {
            0b0000 => Ok(Condition::EQ),
            0b0001 => Ok(Condition::NE),
            0b0010 => Ok(Condition::CS),
            0b0011 => Ok(Condition::CC),
            0b0100 => Ok(Condition::MI),
            0b0101 => Ok(Condition::PL),
            0b0110 => Ok(Condition::VS),
            0b0111 => Ok(Condition::VC),
            0b1000 => Ok(Condition::HI),
            0b1001 => Ok(Condition::LS),
            0b1010 => Ok(Condition::GE),
            0b1011 => Ok(Condition::LT),
            0b1100 => Ok(Condition::GT),
            0b1101 => Ok(Condition::LE),
            0b1110 => Ok(Condition::AL),
            _ => Err(ReservedCondition),
        }
    }
}

} // verus!
