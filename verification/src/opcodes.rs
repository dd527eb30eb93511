//! Opcode tables of the data-processing instructions and of the Thumb
//! formats, and the exception kinds with their fixed entry rules.

use crate::types::CpuMode;
use vstd::prelude::*;

verus! {

/// The sixteen data-processing operations, in the order of their codes.
#[derive(Debug, Copy, Clone, PartialEq, Eq, Structural)]
pub enum DataProcessingOpcode {
    AND,
    EOR,
    SUB,
    RSB,
    ADD,
    ADC,
    SBC,
    RSC,
    TST,
    TEQ,
    CMP,
    CMN,
    ORR,
    MOV,
    BIC,
    MVN,
}

impl DataProcessingOpcode {
    /// The member with the given code; codes beyond the last name the last.
    pub open spec fn with_code(value: u32) -> Self {
        if value == 0 {
            DataProcessingOpcode::AND
        } else if value == 1 {
            DataProcessingOpcode::EOR
        } else if value == 2 {
            DataProcessingOpcode::SUB
        } else if value == 3 {
            DataProcessingOpcode::RSB
        } else if value == 4 {
            DataProcessingOpcode::ADD
        } else if value == 5 {
            DataProcessingOpcode::ADC
        } else if value == 6 {
            DataProcessingOpcode::SBC
        } else if value == 7 {
            DataProcessingOpcode::RSC
        } else if value == 8 {
            DataProcessingOpcode::TST
        } else if value == 9 {
            DataProcessingOpcode::TEQ
        } else if value == 10 {
            DataProcessingOpcode::CMP
        } else if value == 11 {
            DataProcessingOpcode::CMN
        } else if value == 12 {
            DataProcessingOpcode::ORR
        } else if value == 13 {
            DataProcessingOpcode::MOV
        } else if value == 14 {
            DataProcessingOpcode::BIC
        } else {
            DataProcessingOpcode::MVN
        }
    }

    /// The operation's code, 0 to 15.
    pub open spec fn code(self) -> u32 {
        match self {
            DataProcessingOpcode::AND => 0,
            DataProcessingOpcode::EOR => 1,
            DataProcessingOpcode::SUB => 2,
            DataProcessingOpcode::RSB => 3,
            DataProcessingOpcode::ADD => 4,
            DataProcessingOpcode::ADC => 5,
            DataProcessingOpcode::SBC => 6,
            DataProcessingOpcode::RSC => 7,
            DataProcessingOpcode::TST => 8,
            DataProcessingOpcode::TEQ => 9,
            DataProcessingOpcode::CMP => 10,
            DataProcessingOpcode::CMN => 11,
            DataProcessingOpcode::ORR => 12,
            DataProcessingOpcode::MOV => 13,
            DataProcessingOpcode::BIC => 14,
            DataProcessingOpcode::MVN => 15,
        }
    }

    /// Decodes the 4-bit opcode field of a data-processing instruction.
    pub fn from_bits(value: u32) -> (r: Self)
        requires
            value < 16,
        ensures
            r == Self::with_code(value),
            r.code() == value,
    {
        match value {
            0 => DataProcessingOpcode::AND,
            1 => DataProcessingOpcode::EOR,
            2 => DataProcessingOpcode::SUB,
            3 => DataProcessingOpcode::RSB,
            4 => DataProcessingOpcode::ADD,
            5 => DataProcessingOpcode::ADC,
            6 => DataProcessingOpcode::SBC,
            7 => DataProcessingOpcode::RSC,
            8 => DataProcessingOpcode::TST,
            9 => DataProcessingOpcode::TEQ,
            10 => DataProcessingOpcode::CMP,
            11 => DataProcessingOpcode::CMN,
            12 => DataProcessingOpcode::ORR,
            13 => DataProcessingOpcode::MOV,
            14 => DataProcessingOpcode::BIC,
            _ => DataProcessingOpcode::MVN,
        }
    }
}

impl DataProcessingOpcode {
    /// Whether the operation only sets flags and writes no register.
    pub open spec fn is_comparison(self) -> bool {
        self == DataProcessingOpcode::TST || self == DataProcessingOpcode::TEQ
            || self == DataProcessingOpcode::CMP || self == DataProcessingOpcode::CMN
    }

    /// Whether the operation only sets flags and writes no register.
    pub fn is_test(self) -> (r: bool)
        ensures
            r == self.is_comparison(),
    {
        match self {
            DataProcessingOpcode::TST => true,
            DataProcessingOpcode::TEQ => true,
            DataProcessingOpcode::CMP => true,
            DataProcessingOpcode::CMN => true,
            _ => false,
        }
    }
}

/// Thumb: the operations of the move/compare/add/subtract-immediate format.
#[derive(Debug, Copy, Clone, PartialEq, Eq, Structural)]
pub enum MovCmpAddSubImmediateOpcode {
    MOV,
    CMP,
    ADD,
    SUB,
}

impl MovCmpAddSubImmediateOpcode {
    /// The member with the given code; codes beyond the last name the last.
    pub open spec fn with_code(value: u16) -> Self {
        if value == 0 {
            MovCmpAddSubImmediateOpcode::MOV
        } else if value == 1 {
            MovCmpAddSubImmediateOpcode::CMP
        } else if value == 2 {
            MovCmpAddSubImmediateOpcode::ADD
        } else {
            MovCmpAddSubImmediateOpcode::SUB
        }
    }

    /// The operation's code, 0 to 3.
    pub open spec fn code(self) -> u16 {
        match self {
            MovCmpAddSubImmediateOpcode::MOV => 0,
            MovCmpAddSubImmediateOpcode::CMP => 1,
            MovCmpAddSubImmediateOpcode::ADD => 2,
            MovCmpAddSubImmediateOpcode::SUB => 3,
        }
    }

    /// Decodes the 2-bit opcode field of the format.
    pub fn from_bits(value: u16) -> (r: Self)
        requires
            value < 4,
        ensures
            r == Self::with_code(value),
            r.code() == value,
    {
        match value {
            0 => MovCmpAddSubImmediateOpcode::MOV,
            1 => MovCmpAddSubImmediateOpcode::CMP,
            2 => MovCmpAddSubImmediateOpcode::ADD,
            _ => MovCmpAddSubImmediateOpcode::SUB,
        }
    }
}

/// Thumb: the operations of the ALU format.
#[derive(Debug, Copy, Clone, PartialEq, Eq, Structural)]
pub enum AluOperationsOpcode {
    AND,
    EOR,
    LSL,
    LSR,
    ASR,
    ADC,
    SBC,
    ROR,
    TST,
    NEG,
    CMP,
    CMN,
    ORR,
    MUL,
    BIC,
    MVN,
}

impl AluOperationsOpcode {
    /// The member with the given code; codes beyond the last name the last.
    pub open spec fn with_code(value: u16) -> Self {
        if value == 0 {
            AluOperationsOpcode::AND
        } else if value == 1 {
            AluOperationsOpcode::EOR
        } else if value == 2 {
            AluOperationsOpcode::LSL
        } else if value == 3 {
            AluOperationsOpcode::LSR
        } else if value == 4 {
            AluOperationsOpcode::ASR
        } else if value == 5 {
            AluOperationsOpcode::ADC
        } else if value == 6 {
            AluOperationsOpcode::SBC
        } else if value == 7 {
            AluOperationsOpcode::ROR
        } else if value == 8 {
            AluOperationsOpcode::TST
        } else if value == 9 {
            AluOperationsOpcode::NEG
        } else if value == 10 {
            AluOperationsOpcode::CMP
        } else if value == 11 {
            AluOperationsOpcode::CMN
        } else if value == 12 {
            AluOperationsOpcode::ORR
        } else if value == 13 {
            AluOperationsOpcode::MUL
        } else if value == 14 {
            AluOperationsOpcode::BIC
        } else {
            AluOperationsOpcode::MVN
        }
    }

    /// The operation's code, 0 to 15.
    pub open spec fn code(self) -> u16 {
        match self {
            AluOperationsOpcode::AND => 0,
            AluOperationsOpcode::EOR => 1,
            AluOperationsOpcode::LSL => 2,
            AluOperationsOpcode::LSR => 3,
            AluOperationsOpcode::ASR => 4,
            AluOperationsOpcode::ADC => 5,
            AluOperationsOpcode::SBC => 6,
            AluOperationsOpcode::ROR => 7,
            AluOperationsOpcode::TST => 8,
            AluOperationsOpcode::NEG => 9,
            AluOperationsOpcode::CMP => 10,
            AluOperationsOpcode::CMN => 11,
            AluOperationsOpcode::ORR => 12,
            AluOperationsOpcode::MUL => 13,
            AluOperationsOpcode::BIC => 14,
            AluOperationsOpcode::MVN => 15,
        }
    }

    /// Decodes the 4-bit opcode field of the format.
    pub fn from_bits(value: u16) -> (r: Self)
        requires
            value < 16,
        ensures
            r == Self::with_code(value),
            r.code() == value,
    {
        match value {
            0 => AluOperationsOpcode::AND,
            1 => AluOperationsOpcode::EOR,
            2 => AluOperationsOpcode::LSL,
            3 => AluOperationsOpcode::LSR,
            4 => AluOperationsOpcode::ASR,
            5 => AluOperationsOpcode::ADC,
            6 => AluOperationsOpcode::SBC,
            7 => AluOperationsOpcode::ROR,
            8 => AluOperationsOpcode::TST,
            9 => AluOperationsOpcode::NEG,
            10 => AluOperationsOpcode::CMP,
            11 => AluOperationsOpcode::CMN,
            12 => AluOperationsOpcode::ORR,
            13 => AluOperationsOpcode::MUL,
            14 => AluOperationsOpcode::BIC,
            _ => AluOperationsOpcode::MVN,
        }
    }
}

/// Thumb: the operations of the high-register/branch-exchange format.
#[derive(Debug, Copy, Clone, PartialEq, Eq, Structural)]
pub enum HiRegOpsBxOpcode {
    ADD,
    CMP,
    MOV,
    BX,
}

impl HiRegOpsBxOpcode {
    /// The member with the given code; codes beyond the last name the last.
    pub open spec fn with_code(value: u16) -> Self {
        if value == 0 {
            HiRegOpsBxOpcode::ADD
        } else if value == 1 {
            HiRegOpsBxOpcode::CMP
        } else if value == 2 {
            HiRegOpsBxOpcode::MOV
        } else {
            HiRegOpsBxOpcode::BX
        }
    }

    /// The operation's code, 0 to 3.
    pub open spec fn code(self) -> u16 {
        match self {
            HiRegOpsBxOpcode::ADD => 0,
            HiRegOpsBxOpcode::CMP => 1,
            HiRegOpsBxOpcode::MOV => 2,
            HiRegOpsBxOpcode::BX => 3,
        }
    }

    /// Decodes the 2-bit opcode field of the format.
    pub fn from_bits(value: u16) -> (r: Self)
        requires
            value < 4,
        ensures
            r == Self::with_code(value),
            r.code() == value,
    {
        match value {
            0 => HiRegOpsBxOpcode::ADD,
            1 => HiRegOpsBxOpcode::CMP,
            2 => HiRegOpsBxOpcode::MOV,
            _ => HiRegOpsBxOpcode::BX,
        }
    }
}

/// The exceptions that the core can take.
#[derive(Debug, Copy, Clone, PartialEq, Eq, Structural)]
pub enum Exception {
    Reset,
    Undefined,
    SoftwareInterrupt,
    Irq,
    Fiq,
}

impl Exception {
    /// The fixed address at which execution resumes.
    pub open spec fn vector_address(self) -> u32 {
        match self {
            Exception::Reset => 0x00,
            Exception::Undefined => 0x04,
            Exception::SoftwareInterrupt => 0x08,
            Exception::Irq => 0x18,
            Exception::Fiq => 0x1C,
        }
    }

    /// The mode that the exception is handled in.
    pub open spec fn entry_mode(self) -> CpuMode {
        match self {
            Exception::Reset => CpuMode::Supervisor,
            Exception::Undefined => CpuMode::Undefined,
            Exception::SoftwareInterrupt => CpuMode::Supervisor,
            Exception::Irq => CpuMode::Irq,
            Exception::Fiq => CpuMode::Fiq,
        }
    }

    /// Whether entry masks fast interrupts as well as ordinary ones.
    pub open spec fn masks_fiq(self) -> bool {
        self == Exception::Reset || self == Exception::Fiq
    }

    /// The fixed address at which execution resumes.
    pub fn vector(self) -> (r: u32)
        ensures
            r == self.vector_address(),
    {
        match self {
            Exception::Reset => 0x00,
            Exception::Undefined => 0x04,
            Exception::SoftwareInterrupt => 0x08,
            Exception::Irq => 0x18,
            Exception::Fiq => 0x1C,
        }
    }

    /// The mode that the exception is handled in.
    pub fn mode(self) -> (r: CpuMode)
        ensures
            r == self.entry_mode(),
    {
        match self {
            Exception::Reset => CpuMode::Supervisor,
            Exception::Undefined => CpuMode::Undefined,
            Exception::SoftwareInterrupt => CpuMode::Supervisor,
            Exception::Irq => CpuMode::Irq,
            Exception::Fiq => CpuMode::Fiq,
        }
    }

    /// Whether entry masks fast interrupts as well as ordinary ones.
    pub fn disables_fiq(self) -> (r: bool)
        ensures
            r == self.masks_fiq(),
    {
        match self {
            Exception::Reset => true,
            Exception::Fiq => true,
            _ => false,
        }
    }
}

} // verus!
