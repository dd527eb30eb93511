//! The instruction-processing core of an ARM7TDMI-class processor:
//! status register, banked register file, condition evaluation, barrel
//! shifter and ALU, instruction decoding and execution, and the two-slot
//! fetch pipeline.

pub mod alu;
pub mod arm;
pub mod barrel_shifter;
pub mod bitfield;
pub mod bits;
pub mod cpu;
pub mod memory;
pub mod opcodes;
pub mod psr;
pub mod register_file;
pub mod system_control;

pub mod types;

pub use opcodes::{
    AluOperationsOpcode, DataProcessingOpcode, Exception, HiRegOpsBxOpcode,
    MovCmpAddSubImmediateOpcode,
};
pub use types::{
    Condition, CpuAction, CpuMode, CpuState, ExecutionError, HiRegister, InvalidMode, LoRegister,
    Register, ReservedCondition, CPU_CLOCK_SPEED,
};
