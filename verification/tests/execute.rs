use arm7tdmi::arm::execute::{
    execute, execute_branch_and_branch_with_link, execute_branch_and_exchange,
    execute_data_processing, execute_multiply, execute_multiply_long, execute_psr_transfer,
    execute_software_interrupt, execute_undefined,
};
use arm7tdmi::arm::transfer::{
    execute_block_data_transfer, execute_halfword_and_signed_data_transfer,
    execute_single_data_swap, execute_single_data_transfer, plan_block_data_transfer,
    plan_halfword_and_signed_data_transfer, plan_single_data_swap, plan_single_data_transfer,
};
use arm7tdmi::arm::{ArmInstruction, ArmInstructionKind, Instruction};
use arm7tdmi::cpu::{condition_met, Arm7tdmiCpu, Cpu};
use arm7tdmi::memory::{MemoryAccess, MemoryInterface};
use arm7tdmi::psr::ProgramStatusRegister;
use arm7tdmi::{Condition, CpuAction, CpuMode, CpuState, Exception, ExecutionError};
use std::cell::RefCell;
use std::rc::Rc;

#[derive(Debug, Clone, PartialEq)]
struct Access {
    store: bool,
    size: u8,
    address: u32,
    value: u32,
    access: MemoryAccess,
}

struct Shared {
    bytes: Vec<u8>,
    log: Vec<Access>,
}

#[derive(Clone)]
struct Ram(Rc<RefCell<Shared>>);

impl Ram {
    fn new() -> Ram {
        Ram(Rc::new(RefCell::new(Shared { bytes: vec![0; 0x10000], log: Vec::new() })))
    }

    fn read(&self, address: u32, size: u32) -> u32 {
        let shared = self.0.borrow();
        let mut value = 0u32;
        for k in 0..size {
            value |= (shared.bytes[(address.wrapping_add(k) & 0xFFFF) as usize] as u32) << (8 * k);
        }
        value
    }

    fn write(&self, address: u32, size: u32, value: u32) {
        let mut shared = self.0.borrow_mut();
        for k in 0..size {
            shared.bytes[(address.wrapping_add(k) & 0xFFFF) as usize] = (value >> (8 * k)) as u8;
        }
    }

    fn word(&self, address: u32) -> u32 {
        self.read(address, 4)
    }

    fn set_word(&self, address: u32, value: u32) {
        self.write(address, 4, value)
    }

    fn log(&self) -> Vec<Access> {
        self.0.borrow().log.clone()
    }

    fn clear_log(&self) {
        self.0.borrow_mut().log.clear()
    }

    fn note(&self, store: bool, size: u8, address: u32, value: u32, access: MemoryAccess) {
        self.0.borrow_mut().log.push(Access { store, size, address, value, access });
    }
}

impl MemoryInterface for Ram {
    fn load_8(&mut self, address: u32, access: MemoryAccess) -> u8 {
        let value = self.read(address, 1);
        self.note(false, 1, address, value, access);
        value as u8
    }

    fn load_16(&mut self, address: u32, access: MemoryAccess) -> u16 {
        let value = self.read(address, 2);
        self.note(false, 2, address, value, access);
        value as u16
    }

    fn load_32(&mut self, address: u32, access: MemoryAccess) -> u32 {
        let value = self.read(address, 4);
        self.note(false, 4, address, value, access);
        value
    }

    fn store_8(&mut self, address: u32, value: u8, access: MemoryAccess) {
        self.write(address, 1, value as u32);
        self.note(true, 1, address, value as u32, access);
    }

    fn store_16(&mut self, address: u32, value: u16, access: MemoryAccess) {
        self.write(address, 2, value as u32);
        self.note(true, 2, address, value as u32, access);
    }

    fn store_32(&mut self, address: u32, value: u32, access: MemoryAccess) {
        self.write(address, 4, value);
        self.note(true, 4, address, value, access);
    }
}

const N: MemoryAccess = MemoryAccess::NonSequential;
const S: MemoryAccess = MemoryAccess::Sequential;
const ADVANCE: CpuAction = CpuAction::Advance(MemoryAccess::Sequential);
const ADVANCE_N: CpuAction = CpuAction::Advance(MemoryAccess::NonSequential);

fn load(size: u8, address: u32, value: u32, access: MemoryAccess) -> Access {
    Access { store: false, size, address, value, access }
}

fn store(size: u8, address: u32, value: u32, access: MemoryAccess) -> Access {
    Access { store: true, size, address, value, access }
}

/// A core at reset on a memory that holds `program` from address 0, with an empty log.
fn machine(program: &[u32]) -> (Arm7tdmiCpu<Ram>, Ram) {
    let ram = Ram::new();
    for (k, word) in program.iter().enumerate() {
        ram.set_word(4 * k as u32, *word);
    }
    let cpu = Arm7tdmiCpu::new(ram.clone(), false);
    ram.clear_log();
    (cpu, ram)
}

fn registers(cpu: &Arm7tdmiCpu<Ram>) -> Vec<u32> {
    (0..16).map(|index| cpu.register(index)).collect()
}

fn decode(cpu: &Arm7tdmiCpu<Ram>, word: u32) -> ArmInstruction {
    ArmInstruction::decode(word, cpu.pc())
}

/// Runs one instruction word through the handler of its kind.
fn run(cpu: &mut Arm7tdmiCpu<Ram>, word: u32) -> Result<CpuAction, ExecutionError> {
    let instruction = decode(cpu, word);
    execute(cpu, &instruction)
}

/// A data-processing instruction with a register operand (no shift).
fn dp(opcode: u32, s: bool, rn: u32, rd: u32, rm: u32) -> u32 {
    0xE000_0000 | (opcode << 21) | ((s as u32) << 20) | (rn << 16) | (rd << 12) | rm
}

fn flags(cpu: &Arm7tdmiCpu<Ram>) -> u8 {
    cpu.cpsr().flags()
}

#[test]
fn reset_state() {
    let ram = Ram::new();
    ram.set_word(0, 0xE3A00001);
    ram.set_word(4, 0xE2800002);
    let cpu = Arm7tdmiCpu::new(ram.clone(), false);
    assert_eq!(cpu.status_register(), 0x93);
    assert_eq!(cpu.mode(), CpuMode::Supervisor);
    assert_eq!(cpu.cpu_state(), CpuState::Arm);
    assert!(cpu.cpsr().irq_disable());
    assert_eq!(cpu.pc(), 8);
    for index in 0..15 {
        assert_eq!(cpu.get_general_register(index), 0);
    }
    assert_eq!(cpu.spsr().value(), 0x13);
    assert_eq!(ram.log(), vec![load(4, 0, 0xE3A00001, N), load(4, 4, 0xE2800002, S)]);
}

#[test]
fn state_behind_the_boot_firmware() {
    let ram = Ram::new();
    let mut cpu: Cpu<Ram> = Cpu::new(ram.clone(), true);
    assert_eq!(cpu.status_register(), 0x1F);
    assert_eq!(cpu.mode(), CpuMode::System);
    assert!(!cpu.cpsr().irq_disable());
    assert_eq!(cpu.register(13), 0x0300_7F00);
    assert_eq!(cpu.register(14), 0x0800_0000);
    assert_eq!(cpu.pc(), 0x0800_0008);
    assert_eq!(cpu.register_in_mode(13, CpuMode::Supervisor), 0x0300_7FE0);
    assert_eq!(cpu.register_in_mode(13, CpuMode::Irq), 0x0300_7FA0);
    assert_eq!(cpu.register_in_mode(13, CpuMode::User), 0x0300_7F00);
    assert_eq!(cpu.register_in_mode(13, CpuMode::Fiq), 0);
    assert_eq!(cpu.register_in_mode(14, CpuMode::Supervisor), 0);
    assert_eq!(ram.log(), vec![load(4, 0x0800_0000, 0, N), load(4, 0x0800_0004, 0, S)]);
    cpu.change_mode(CpuMode::Supervisor);
    assert_eq!(cpu.register(13), 0x0300_7FE0);
    assert_eq!(cpu.spsr().value(), 0x13);
}

#[test]
fn condition_truth_table() {
    let (mut cpu, _) = machine(&[]);
    for nibble in 0u8..16 {
        cpu.set_flags(nibble);
        assert_eq!(flags(&cpu), nibble);
        let n = nibble & 8 != 0;
        let z = nibble & 4 != 0;
        let c = nibble & 2 != 0;
        let v = nibble & 1 != 0;
        let table = [
            (Condition::EQ, z),
            (Condition::NE, !z),
            (Condition::CS, c),
            (Condition::CC, !c),
            (Condition::MI, n),
            (Condition::PL, !n),
            (Condition::VS, v),
            (Condition::VC, !v),
            (Condition::HI, c && !z),
            (Condition::LS, !c || z),
            (Condition::GE, n == v),
            (Condition::LT, n != v),
            (Condition::GT, !z && n == v),
            (Condition::LE, z || n != v),
            (Condition::AL, true),
        ];
        for (condition, expected) in table {
            assert_eq!(cpu.is_condition_met(condition), expected, "{:?} {:04b}", condition, nibble);
            let status = ProgramStatusRegister::new(((nibble as u32) << 28) | 0x0FFF_FFFF);
            assert_eq!(condition_met(status, condition), expected);
        }
    }
    cpu.set_flags(0b1000);
    assert!(!cpu.is_condition_met(Condition::GE));
    assert!(cpu.is_condition_met(Condition::LT));
}

#[test]
fn program_counter_and_state_setters() {
    let (mut cpu, ram) = machine(&[]);
    cpu.set_pc(0x100);
    assert_eq!(cpu.pc(), 0x100);
    cpu.advance_pc_arm();
    assert_eq!(cpu.pc(), 0x104);
    cpu.advance_pc_thumb();
    assert_eq!(cpu.pc(), 0x106);
    cpu.set_pc(0xFFFF_FFFE);
    cpu.advance_pc_arm();
    assert_eq!(cpu.pc(), 2);
    cpu.set_pc(0xFFFF_FFFF);
    cpu.advance_pc_thumb();
    assert_eq!(cpu.pc(), 1);
    cpu.set_cpu_state(CpuState::Thumb);
    assert_eq!(cpu.cpu_state(), CpuState::Thumb);
    assert_eq!(cpu.status_register(), 0xB3);
    cpu.set_cpu_state(CpuState::Arm);
    assert_eq!(cpu.status_register(), 0x93);
    cpu.set_irq_disable(false);
    assert_eq!(cpu.status_register(), 0x13);
    cpu.set_register(3, 0xDEAD_BEEF);
    assert_eq!(cpu.register(3), 0xDEAD_BEEF);
    assert_eq!(cpu.get_general_register(3), 0xDEAD_BEEF);
    assert!(ram.log().is_empty());
}

#[test]
fn refill_fetches_twice_and_moves_the_program_counter() {
    let (mut cpu, ram) = machine(&[]);
    ram.set_word(0x200, 0x1111_2222);
    ram.set_word(0x204, 0x3333_4444);
    cpu.set_pc(0x200);
    cpu.refill_pipeline();
    assert_eq!(cpu.pc(), 0x208);
    assert_eq!(ram.log(), vec![load(4, 0x200, 0x1111_2222, N), load(4, 0x204, 0x3333_4444, S)]);
    assert_eq!(cpu.fetch(), 0x1111_2222);
    assert_eq!(cpu.fetch(), 0x3333_4444);
    ram.clear_log();
    cpu.set_cpu_state(CpuState::Thumb);
    cpu.set_pc(0x200);
    cpu.pipeline_flush();
    assert_eq!(cpu.pc(), 0x204);
    assert_eq!(ram.log(), vec![load(2, 0x200, 0x2222, N), load(2, 0x202, 0x1111, S)]);
    assert_eq!(cpu.fetch(), 0x2222);
    assert_eq!(cpu.fetch(), 0x1111);
}

#[test]
fn mode_switch_banks_registers() {
    let (mut cpu, _) = machine(&[]);
    cpu.change_mode(CpuMode::User);
    for index in 0..15 {
        cpu.set_register(index, 0x100 + index as u32);
    }
    let user = registers(&cpu);
    cpu.change_mode(CpuMode::Fiq);
    assert_eq!(cpu.mode(), CpuMode::Fiq);
    assert_eq!(cpu.status_register() & 0x1F, 0x11);
    for index in 0..8 {
        assert_eq!(cpu.register(index), user[index]);
    }
    for index in 8..15 {
        assert_eq!(cpu.register(index), 0);
        cpu.set_register(index, 0xF00 + index as u32);
        cpu.set_register(index, 0xF10 + index as u32);
        assert_eq!(cpu.register(index), 0xF10 + index as u32);
    }
    cpu.change_mode(CpuMode::User);
    assert_eq!(registers(&cpu), user);
    cpu.change_mode(CpuMode::Fiq);
    for index in 8..15 {
        assert_eq!(cpu.register(index), 0xF10 + index as u32);
    }
    cpu.change_mode(CpuMode::Irq);
    for index in 8..13 {
        assert_eq!(cpu.register(index), user[index]);
    }
    assert_eq!(cpu.register(13), 0);
    assert_eq!(cpu.register(14), 0);
}

#[test]
fn a_short_program() {
    let (mut cpu, ram) = machine(&[
        0xE3A00001, // MOV r0, #1
        0xE2800002, // ADD r0, r0, #2
        0xE2501003, // SUBS r1, r0, #3
        0x03A02007, // MOVEQ r2, #7
        0x13A03009, // MOVNE r3, #9
        0xF3A0400B, // reserved condition
        0xEAFFFFF8, // B 0
    ]);
    assert_eq!(cpu.cycle(), Ok(ADVANCE));
    assert_eq!(cpu.register(0), 1);
    assert_eq!(cpu.pc(), 12);
    assert_eq!(cpu.cycle(), Ok(ADVANCE));
    assert_eq!(cpu.register(0), 3);
    assert_eq!(cpu.cycle(), Ok(ADVANCE));
    assert_eq!(cpu.register(1), 0);
    assert_eq!(flags(&cpu), 0b0110);
    assert_eq!(cpu.cycle(), Ok(ADVANCE));
    assert_eq!(cpu.register(2), 7);
    assert_eq!(cpu.cycle(), Ok(ADVANCE_N));
    assert_eq!(cpu.register(3), 0);
    assert_eq!(cpu.pc(), 28);
    assert_eq!(cpu.cycle(), Ok(ADVANCE_N));
    assert_eq!(cpu.register(4), 0);
    assert_eq!(cpu.pc(), 32);
    assert_eq!(cpu.cycle(), Ok(CpuAction::PipelineFlush));
    assert_eq!(cpu.pc(), 8);
    assert_eq!(cpu.cycle(), Ok(ADVANCE));
    assert_eq!(cpu.register(0), 1);
    let fetches: Vec<(u32, MemoryAccess)> =
        ram.log().iter().map(|access| (access.address, access.access)).collect();
    assert_eq!(
        fetches,
        vec![
            (8, S),
            (12, S),
            (16, S),
            (20, S),
            (24, S),
            (28, N),
            (32, N),
            (0, N),
            (4, S),
            (8, S)
        ]
    );
}

#[test]
fn a_step_in_thumb_state_moves_the_program_counter_by_two() {
    let (mut cpu, ram) = machine(&[0xE3A00001]);
    cpu.set_cpu_state(CpuState::Thumb);
    let before = registers(&cpu);
    assert_eq!(cpu.cycle(), Ok(ADVANCE));
    assert_eq!(cpu.pc(), 10);
    assert_eq!(registers(&cpu)[..15], before[..15]);
    assert!(ram.log().is_empty());
}

#[test]
fn fetch_decode_execute() {
    let (mut cpu, ram) = machine(&[0xE3A00001, 0x03A01005, 0xE3A02003]);
    let word = cpu.fetch();
    assert_eq!(word, 0xE3A00001);
    assert_eq!(ram.log(), vec![load(4, 8, 0xE3A02003, S)]);
    let instruction = cpu.decode(word);
    assert_eq!(instruction.kind(), ArmInstructionKind::DataProcessing);
    assert_eq!(instruction.executed_pc(), 8);
    assert_eq!(instruction.value(), word);
    assert_eq!(cpu.execute(&instruction), Ok(ADVANCE));
    assert_eq!(cpu.register(0), 1);
    assert_eq!(cpu.pc(), 12);
    let word = cpu.fetch();
    let instruction = cpu.decode(word);
    assert_eq!(instruction.cond(), Ok(Condition::EQ));
    assert_eq!(cpu.execute(&instruction), Ok(ADVANCE_N));
    assert_eq!(cpu.register(1), 0);
    assert_eq!(cpu.pc(), 16);
    assert_eq!(cpu.fetch(), 0xE3A02003);
    assert_eq!(ram.log().last(), Some(&load(4, 16, 0, N)));
}

#[test]
fn a_step_hands_back_the_instruction_it_ran() {
    let (mut cpu, ram) = machine(&[0xE3A00001, 0xE12FFF10]);
    let (instruction, action) = cpu.step();
    let instruction = instruction.unwrap();
    assert_eq!(instruction.value(), 0xE3A00001);
    assert_eq!(instruction.kind(), ArmInstructionKind::DataProcessing);
    assert_eq!(instruction.executed_pc(), 8);
    assert_eq!(action, Ok(ADVANCE));
    assert_eq!(cpu.register(0), 1);
    assert_eq!(ram.log(), vec![load(4, 8, 0, S)]);
    // BX r0 with r0 == 1: to Thumb at address 0.
    let (instruction, action) = cpu.step();
    assert_eq!(instruction.unwrap().kind(), ArmInstructionKind::BranchAndExchange);
    assert_eq!(action, Ok(CpuAction::PipelineFlush));
    assert_eq!(cpu.cpu_state(), CpuState::Thumb);
    assert_eq!(
        ram.log(),
        vec![load(4, 8, 0, S), load(4, 12, 0, S), load(2, 0, 0x0001, N), load(2, 2, 0xE3A0, S)]
    );
    let (instruction, action) = cpu.step();
    assert!(instruction.is_none());
    assert_eq!(action, Ok(ADVANCE));
    assert_eq!(cpu.pc(), 6);
    assert_eq!(ram.log().len(), 4);
}

#[test]
fn sized_reads_and_writes_go_to_the_bus_as_they_are() {
    let (mut cpu, ram) = machine(&[]);
    cpu.write(4, 0x100, 0x8877_6655, N);
    cpu.write(2, 0x104, 0xBBAA, S);
    cpu.write(1, 0x106, 0xCC, S);
    assert_eq!(cpu.read(4, 0x100, S), 0x8877_6655);
    assert_eq!(cpu.read(2, 0x102, N), 0x8877);
    assert_eq!(cpu.read(1, 0x101, N), 0x66);
    assert_eq!(cpu.read(4, 0x104, N), 0x00CC_BBAA);
    assert_eq!(
        ram.log(),
        vec![
            store(4, 0x100, 0x8877_6655, N),
            store(2, 0x104, 0xBBAA, S),
            store(1, 0x106, 0xCC, S),
            load(4, 0x100, 0x8877_6655, S),
            load(2, 0x102, 0x8877, N),
            load(1, 0x101, 0x66, N),
            load(4, 0x104, 0x00CC_BBAA, N),
        ]
    );
    assert_eq!(cpu.pc(), 8);
}

#[test]
fn a_refused_instruction_is_passed_over() {
    // MRS r0, SPSR in System mode, then MOV r1, #5
    let (mut cpu, _) = machine(&[0xE14F0000, 0xE3A01005]);
    cpu.change_mode(CpuMode::System);
    let before = registers(&cpu);
    let status = cpu.status_register();
    assert_eq!(cpu.cycle(), Err(ExecutionError::NoSavedStatus));
    assert_eq!(cpu.pc(), 12);
    assert_eq!(registers(&cpu)[..15], before[..15]);
    assert_eq!(cpu.status_register(), status);
    assert_eq!(cpu.cycle(), Ok(ADVANCE));
    assert_eq!(cpu.register(1), 5);
}

#[test]
fn branch_and_exchange_to_thumb() {
    let (mut cpu, ram) = machine(&[]);
    ram.set_word(0x100, 0xBBBB_AAAA);
    cpu.set_register(14, 0x0000_0101);
    let instruction = decode(&cpu, 0xE12FFF1E);
    assert_eq!(execute_branch_and_exchange(&mut cpu, &instruction), CpuAction::PipelineFlush);
    assert_eq!(cpu.cpu_state(), CpuState::Thumb);
    assert_eq!(cpu.status_register(), 0xB3);
    assert_eq!(cpu.pc(), 0x104);
    assert_eq!(cpu.register(14), 0x0000_0101);
    assert_eq!(ram.log(), vec![load(2, 0x100, 0xAAAA, N), load(2, 0x102, 0xBBBB, S)]);
}

#[test]
fn branch_and_exchange_to_arm() {
    let (mut cpu, ram) = machine(&[]);
    cpu.set_cpu_state(CpuState::Thumb);
    cpu.set_register(3, 0x0000_0200);
    assert_eq!(run(&mut cpu, 0xE12FFF13), Ok(CpuAction::PipelineFlush));
    assert_eq!(cpu.cpu_state(), CpuState::Arm);
    assert_eq!(cpu.pc(), 0x208);
    assert_eq!(ram.log(), vec![load(4, 0x200, 0, N), load(4, 0x204, 0, S)]);
}

#[test]
fn branch_forward_and_back() {
    let (mut cpu, ram) = machine(&[]);
    cpu.set_pc(0x1008);
    cpu.set_register(14, 0x77);
    let instruction = decode(&cpu, 0xEA000010);
    assert_eq!(
        execute_branch_and_branch_with_link(&mut cpu, &instruction),
        CpuAction::PipelineFlush
    );
    assert_eq!(cpu.pc(), 0x1008 + 0x40 + 8);
    assert_eq!(cpu.register(14), 0x77);
    assert_eq!(ram.log(), vec![load(4, 0x1048, 0, N), load(4, 0x104C, 0, S)]);
    cpu.set_pc(0x1008);
    assert_eq!(run(&mut cpu, 0xEAFFFFFE), Ok(CpuAction::PipelineFlush));
    assert_eq!(cpu.pc(), 0x1008 - 8 + 8);
    cpu.set_pc(0x1008);
    assert_eq!(run(&mut cpu, 0xEA800000), Ok(CpuAction::PipelineFlush));
    assert_eq!(cpu.pc(), 0x1008u32.wrapping_sub(0x0200_0000).wrapping_add(8));
    cpu.set_pc(0x1008);
    assert_eq!(run(&mut cpu, 0xEA7FFFFF), Ok(CpuAction::PipelineFlush));
    assert_eq!(cpu.pc(), 0x1008 + 0x01FF_FFFC + 8);
}

#[test]
fn branch_with_link_saves_the_return_address() {
    let (mut cpu, _) = machine(&[]);
    cpu.set_pc(0x1008);
    assert_eq!(run(&mut cpu, 0xEB000001), Ok(CpuAction::PipelineFlush));
    assert_eq!(cpu.register(14), 0x1004);
    assert_eq!(cpu.pc(), 0x1008 + 4 + 8);
    cpu.set_pc(0);
    assert_eq!(run(&mut cpu, 0xEBFFFFFF), Ok(CpuAction::PipelineFlush));
    assert_eq!(cpu.register(14), 0xFFFF_FFFC);
    assert_eq!(cpu.pc(), 4);
}

#[test]
fn arithmetic_results_and_flags() {
    let (mut cpu, _) = machine(&[]);
    let cases: [(u32, u32, u32, u8, u32, u8); 16] = [
        // opcode, operand1, operand2, flags before, result, flags after
        (4, 0x7FFF_FFFF, 1, 0, 0x8000_0000, 0b1001),
        (4, 0xFFFF_FFFF, 1, 0, 0, 0b0110),
        (4, 0x8000_0000, 0x8000_0000, 0, 0, 0b0111),
        (4, 2, 3, 0b1111, 5, 0),
        (2, 5, 5, 0, 0, 0b0110),
        (2, 0, 1, 0, 0xFFFF_FFFF, 0b1000),
        (2, 0x8000_0000, 1, 0, 0x7FFF_FFFF, 0b0011),
        (2, 0x7FFF_FFFF, 0xFFFF_FFFF, 0, 0x8000_0000, 0b1001),
        (3, 1, 5, 0, 4, 0b0010),
        (5, 1, 1, 0b0010, 3, 0),
        (5, 0xFFFF_FFFF, 0, 0b0010, 0, 0b0110),
        (5, 0x7FFF_FFFF, 0, 0b0010, 0x8000_0000, 0b1001),
        (6, 5, 3, 0, 1, 0b0010),
        (6, 5, 3, 0b0010, 2, 0b0010),
        (6, 0, 0, 0, 0xFFFF_FFFF, 0b1000),
        (7, 3, 5, 0, 1, 0b0010),
    ];
    for (opcode, operand1, operand2, before, result, after) in cases {
        cpu.set_register(1, operand1);
        cpu.set_register(2, operand2);
        cpu.set_flags(before);
        let instruction = decode(&cpu, dp(opcode, true, 1, 0, 2));
        assert_eq!(execute_data_processing(&mut cpu, &instruction), ADVANCE);
        assert_eq!(cpu.register(0), result, "opcode {} {:X} {:X}", opcode, operand1, operand2);
        assert_eq!(flags(&cpu), after, "opcode {} {:X} {:X}", opcode, operand1, operand2);
        // Without the S bit the flags stay.
        cpu.set_flags(before);
        cpu.set_register(0, 0x5555);
        assert_eq!(run(&mut cpu, dp(opcode, false, 1, 0, 2)), Ok(ADVANCE));
        assert_eq!(cpu.register(0), result);
        assert_eq!(flags(&cpu), before);
    }
}

#[test]
fn logical_results_and_flags() {
    let (mut cpu, _) = machine(&[]);
    let a = 0xF0F0_1234u32;
    let b = 0x0FF0_FF0Fu32;
    let cases: [(u32, u32); 6] =
        [(0, a & b), (1, a ^ b), (12, a | b), (13, b), (14, a & !b), (15, !b)];
    for (opcode, result) in cases {
        for before in [0u8, 0b0011, 0b1100, 0b1111] {
            cpu.set_register(1, a);
            cpu.set_register(2, b);
            cpu.set_flags(before);
            assert_eq!(run(&mut cpu, dp(opcode, true, 1, 0, 2)), Ok(ADVANCE));
            assert_eq!(cpu.register(0), result);
            let n = if result >> 31 == 1 { 8 } else { 0 };
            let z = if result == 0 { 4 } else { 0 };
            // A register operand without shift passes the carry flag through.
            assert_eq!(flags(&cpu), n | z | (before & 0b0011));
        }
    }
    cpu.set_register(1, 0xFF00);
    cpu.set_register(2, 0x00FF);
    cpu.set_flags(0b1011);
    assert_eq!(run(&mut cpu, dp(0, true, 1, 0, 2)), Ok(ADVANCE));
    assert_eq!(cpu.register(0), 0);
    assert_eq!(flags(&cpu), 0b0111);
}

#[test]
fn comparisons_write_flags_and_no_register() {
    let (mut cpu, _) = machine(&[]);
    cpu.set_register(0, 0x5555);
    cpu.set_register(1, 7);
    cpu.set_register(2, 7);
    // CMP r1, r2
    assert_eq!(run(&mut cpu, dp(10, true, 1, 0, 2)), Ok(ADVANCE));
    assert_eq!(flags(&cpu), 0b0110);
    // CMN r1, r2
    assert_eq!(run(&mut cpu, dp(11, true, 1, 0, 2)), Ok(ADVANCE));
    assert_eq!(flags(&cpu), 0);
    // TEQ r1, r2
    assert_eq!(run(&mut cpu, dp(9, true, 1, 0, 2)), Ok(ADVANCE));
    assert_eq!(flags(&cpu), 0b0100);
    // TST r1, r2
    assert_eq!(run(&mut cpu, dp(8, true, 1, 0, 2)), Ok(ADVANCE));
    assert_eq!(flags(&cpu), 0);
    assert_eq!(cpu.register(0), 0x5555);
    // CMP with the program counter as destination does not flush.
    let pc = cpu.pc();
    let instruction = ArmInstruction::new(ArmInstructionKind::DataProcessing, 0xE151F002, pc);
    assert_eq!(execute_data_processing(&mut cpu, &instruction), ADVANCE);
    assert_eq!(cpu.pc(), pc);
}

#[test]
fn second_operand_forms() {
    let (mut cpu, _) = machine(&[]);
    // MOVS r0, #0xFF, 8: rotated immediate, carry is bit 31 of the result.
    cpu.set_flags(0);
    assert_eq!(run(&mut cpu, 0xE3B004FF), Ok(ADVANCE));
    assert_eq!(cpu.register(0), 0xFF00_0000);
    assert_eq!(flags(&cpu), 0b1010);
    // MOVS r0, #0xFF: no rotation, the carry stays.
    cpu.set_flags(0b0010);
    assert_eq!(run(&mut cpu, 0xE3B000FF), Ok(ADVANCE));
    assert_eq!(cpu.register(0), 0xFF);
    assert_eq!(flags(&cpu), 0b0010);
    // MOVS r0, r1, LSL #4
    cpu.set_register(1, 0x1800_0001);
    cpu.set_flags(0);
    assert_eq!(run(&mut cpu, 0xE1B00201), Ok(ADVANCE));
    assert_eq!(cpu.register(0), 0x8000_0010);
    assert_eq!(flags(&cpu), 0b1010);
    // MOVS r0, r1, LSR #0 encodes LSR #32.
    cpu.set_register(1, 0x8000_0001);
    cpu.set_flags(0);
    assert_eq!(run(&mut cpu, 0xE1B00021), Ok(ADVANCE));
    assert_eq!(cpu.register(0), 0);
    assert_eq!(flags(&cpu), 0b0110);
    // MOVS r0, r1, ROR #0 encodes the extended rotate.
    cpu.set_register(1, 0x0000_0003);
    cpu.set_flags(0);
    assert_eq!(run(&mut cpu, 0xE1B00061), Ok(ADVANCE));
    assert_eq!(cpu.register(0), 0x0000_0001);
    assert_eq!(flags(&cpu), 0b0010);
    assert_eq!(run(&mut cpu, 0xE1B00061), Ok(ADVANCE));
    assert_eq!(cpu.register(0), 0x8000_0001);
    assert_eq!(flags(&cpu), 0b1010);
    // MOVS r0, r1, LSL r2: the amount is the low byte of r2.
    cpu.set_register(1, 1);
    cpu.set_register(2, 0xFFFF_FF04);
    cpu.set_flags(0b0010);
    assert_eq!(run(&mut cpu, 0xE1B00211), Ok(ADVANCE));
    assert_eq!(cpu.register(0), 0x10);
    assert_eq!(flags(&cpu), 0);
    // MOVS r0, r1, LSR r2 with r2 = 0 changes nothing.
    cpu.set_register(1, 0x8000_0000);
    cpu.set_register(2, 0x100);
    cpu.set_flags(0b0010);
    assert_eq!(run(&mut cpu, 0xE1B00231), Ok(ADVANCE));
    assert_eq!(cpu.register(0), 0x8000_0000);
    assert_eq!(flags(&cpu), 0b1010);
    // MOVS r0, r1, ASR r2 with r2 = 40
    cpu.set_register(2, 40);
    cpu.set_flags(0);
    assert_eq!(run(&mut cpu, 0xE1B00251), Ok(ADVANCE));
    assert_eq!(cpu.register(0), 0xFFFF_FFFF);
    assert_eq!(flags(&cpu), 0b1010);
}

#[test]
fn writing_the_program_counter_flushes() {
    let (mut cpu, ram) = machine(&[]);
    cpu.set_register(1, 0x300);
    // MOV pc, r1
    assert_eq!(run(&mut cpu, 0xE1A0F001), Ok(CpuAction::PipelineFlush));
    assert_eq!(cpu.pc(), 0x308);
    assert_eq!(cpu.status_register(), 0x93);
    assert_eq!(ram.log(), vec![load(4, 0x300, 0, N), load(4, 0x304, 0, S)]);
    // ADD r0, pc, #4 reads the program counter two instructions ahead.
    assert_eq!(run(&mut cpu, 0xE28F0004), Ok(ADVANCE));
    assert_eq!(cpu.register(0), 0x30C);
}

#[test]
fn flag_setting_write_of_the_program_counter_returns_from_the_mode() {
    let (mut cpu, _) = machine(&[]);
    cpu.change_mode(CpuMode::User);
    cpu.set_register(13, 0x1111);
    cpu.change_mode(CpuMode::Supervisor);
    cpu.set_spsr(ProgramStatusRegister::new(0x6000_0010));
    cpu.set_register(14, 0x400);
    cpu.set_register(13, 0x2222);
    // MOVS pc, r14
    assert_eq!(run(&mut cpu, 0xE1B0F00E), Ok(CpuAction::PipelineFlush));
    assert_eq!(cpu.status_register(), 0x6000_0010);
    assert_eq!(cpu.mode(), CpuMode::User);
    assert_eq!(cpu.pc(), 0x408);
    assert_eq!(cpu.register(13), 0x1111);
    // In User and in System mode there is nothing to restore.
    for mode in [CpuMode::User, CpuMode::System] {
        cpu.change_mode(mode);
        cpu.set_flags(0);
        cpu.set_register(14, 0x8000_0500);
        assert_eq!(run(&mut cpu, 0xE1B0F00E), Ok(CpuAction::PipelineFlush));
        assert_eq!(cpu.mode(), mode);
        assert_eq!(flags(&cpu), 0b1000);
        assert_eq!(cpu.pc(), 0x8000_0508);
    }
}

#[test]
fn multiply_and_accumulate() {
    let (mut cpu, _) = machine(&[]);
    cpu.set_register(1, 0xFFFF_FFFF);
    cpu.set_register(2, 2);
    cpu.set_register(7, 5);
    cpu.set_flags(0b0011);
    // MUL r0, r1, r2
    let instruction = decode(&cpu, 0xE0000291);
    assert_eq!(execute_multiply(&mut cpu, &instruction), ADVANCE);
    assert_eq!(cpu.register(0), 0xFFFF_FFFE);
    assert_eq!(flags(&cpu), 0b0011);
    // MULS r0, r1, r2: N and Z follow, C and V stay.
    assert_eq!(run(&mut cpu, 0xE0100291), Ok(ADVANCE));
    assert_eq!(flags(&cpu), 0b1011);
    // MLA r3, r1, r2, r7
    assert_eq!(run(&mut cpu, 0xE0237291), Ok(ADVANCE));
    assert_eq!(cpu.register(3), 3);
    // MLAS r3, r1, r2, r7 with a zero result
    cpu.set_register(7, 2);
    cpu.set_flags(0b1001);
    assert_eq!(run(&mut cpu, 0xE0337291), Ok(ADVANCE));
    assert_eq!(cpu.register(3), 0);
    assert_eq!(flags(&cpu), 0b0101);
    cpu.set_register(1, 0x1234_5678);
    cpu.set_register(2, 0x9ABC_DEF0);
    assert_eq!(run(&mut cpu, 0xE0000291), Ok(ADVANCE));
    assert_eq!(cpu.register(0), 0x1234_5678u32.wrapping_mul(0x9ABC_DEF0));
}

#[test]
fn long_multiplies() {
    let (mut cpu, _) = machine(&[]);
    let set = |cpu: &mut Arm7tdmiCpu<Ram>, rm: u32, rs: u32, low: u32, high: u32| {
        cpu.set_register(2, rm);
        cpu.set_register(3, rs);
        cpu.set_register(0, low);
        cpu.set_register(1, high);
    };
    // UMULL r0, r1, r2, r3
    set(&mut cpu, 0xFFFF_FFFF, 0xFFFF_FFFF, 7, 7);
    let instruction = decode(&cpu, 0xE0810392);
    assert_eq!(execute_multiply_long(&mut cpu, &instruction), ADVANCE);
    assert_eq!((cpu.register(1), cpu.register(0)), (0xFFFF_FFFE, 0x0000_0001));
    // SMULL r0, r1, r2, r3
    set(&mut cpu, 0xFFFF_FFFF, 0xFFFF_FFFF, 7, 7);
    assert_eq!(run(&mut cpu, 0xE0C10392), Ok(ADVANCE));
    assert_eq!((cpu.register(1), cpu.register(0)), (0, 1));
    set(&mut cpu, 0xFFFF_FFFF, 2, 7, 7);
    assert_eq!(run(&mut cpu, 0xE0C10392), Ok(ADVANCE));
    assert_eq!((cpu.register(1), cpu.register(0)), (0xFFFF_FFFF, 0xFFFF_FFFE));
    set(&mut cpu, 0x8000_0000, 0x8000_0000, 7, 7);
    assert_eq!(run(&mut cpu, 0xE0C10392), Ok(ADVANCE));
    assert_eq!((cpu.register(1), cpu.register(0)), (0x4000_0000, 0));
    // UMLAL r0, r1, r2, r3
    set(&mut cpu, 0x1_0000, 0x1_0000, 0xFFFF_FFFF, 0x0000_0001);
    assert_eq!(run(&mut cpu, 0xE0A10392), Ok(ADVANCE));
    assert_eq!((cpu.register(1), cpu.register(0)), (0x0000_0002, 0xFFFF_FFFF));
    set(&mut cpu, 0xFFFF_FFFF, 0xFFFF_FFFF, 0xFFFF_FFFF, 0xFFFF_FFFF);
    assert_eq!(run(&mut cpu, 0xE0A10392), Ok(ADVANCE));
    assert_eq!((cpu.register(1), cpu.register(0)), (0xFFFF_FFFE, 0x0000_0000));
    // SMLAL r0, r1, r2, r3
    set(&mut cpu, 0xFFFF_FFFF, 1, 1, 0);
    assert_eq!(run(&mut cpu, 0xE0E10392), Ok(ADVANCE));
    assert_eq!((cpu.register(1), cpu.register(0)), (0, 0));
    // UMULLS: N is bit 63, Z needs all 64 bits zero, C and V stay.
    set(&mut cpu, 0xFFFF_FFFF, 0xFFFF_FFFF, 0, 0);
    cpu.set_flags(0b0111);
    assert_eq!(run(&mut cpu, 0xE0910392), Ok(ADVANCE));
    assert_eq!(flags(&cpu), 0b1011);
    set(&mut cpu, 0x1_0000, 0x1_0000, 0, 0);
    assert_eq!(run(&mut cpu, 0xE0910392), Ok(ADVANCE));
    assert_eq!((cpu.register(1), cpu.register(0)), (1, 0));
    assert_eq!(flags(&cpu), 0b0011);
    set(&mut cpu, 0, 0x1_0000, 0, 0);
    assert_eq!(run(&mut cpu, 0xE0910392), Ok(ADVANCE));
    assert_eq!(flags(&cpu), 0b0111);
}

#[test]
fn status_register_reads() {
    let (mut cpu, _) = machine(&[]);
    cpu.set_flags(0b1010);
    // MRS r0, CPSR
    let instruction = decode(&cpu, 0xE10F0000);
    assert_eq!(execute_psr_transfer(&mut cpu, &instruction), Ok(ADVANCE));
    assert_eq!(cpu.register(0), 0xA000_0093);
    // MRS r1, SPSR
    cpu.set_spsr(ProgramStatusRegister::new(0x5000_001F));
    assert_eq!(run(&mut cpu, 0xE14F1000), Ok(ADVANCE));
    assert_eq!(cpu.register(1), 0x5000_001F);
    for mode in [CpuMode::User, CpuMode::System] {
        cpu.change_mode(mode);
        cpu.set_register(1, 0x77);
        let status = cpu.status_register();
        assert_eq!(run(&mut cpu, 0xE14F1000), Err(ExecutionError::NoSavedStatus));
        assert_eq!(cpu.register(1), 0x77);
        assert_eq!(cpu.status_register(), status);
        assert_eq!(run(&mut cpu, 0xE10F1000), Ok(ADVANCE));
        assert_eq!(cpu.register(1), status);
    }
}

#[test]
fn status_register_writes() {
    let (mut cpu, _) = machine(&[]);
    // MSR CPSR_f, r0
    cpu.set_register(0, 0xAFFF_FF1F);
    assert_eq!(run(&mut cpu, 0xE128F000), Ok(ADVANCE));
    assert_eq!(cpu.status_register(), 0xA000_0093);
    // MSR CPSR_c, r0
    cpu.set_register(0, 0x5FFF_FF5F);
    assert_eq!(run(&mut cpu, 0xE121F000), Ok(ADVANCE));
    assert_eq!(cpu.status_register(), 0xA000_005F);
    assert_eq!(cpu.mode(), CpuMode::System);
    // MSR CPSR_fc, r0
    cpu.set_register(0, 0x3000_0013);
    assert_eq!(run(&mut cpu, 0xE129F000), Ok(ADVANCE));
    assert_eq!(cpu.status_register(), 0x3000_0013);
    // MSR CPSR_f, #0xF0000000
    assert_eq!(run(&mut cpu, 0xE328F20F), Ok(ADVANCE));
    assert_eq!(cpu.status_register(), 0xF000_0013);
    // MSR with an empty field mask writes nothing.
    cpu.set_register(0, 0);
    assert_eq!(run(&mut cpu, 0xE120F000), Ok(ADVANCE));
    assert_eq!(cpu.status_register(), 0xF000_0013);
    // MSR SPSR_fc, r0
    cpu.set_register(0, 0x9FFF_FFD1);
    assert_eq!(run(&mut cpu, 0xE169F000), Ok(ADVANCE));
    assert_eq!(cpu.spsr().value(), 0x9000_00D1);
    assert_eq!(cpu.status_register(), 0xF000_0013);
    // MSR SPSR_f, r0
    cpu.set_register(0, 0x6000_0000);
    assert_eq!(run(&mut cpu, 0xE168F000), Ok(ADVANCE));
    assert_eq!(cpu.spsr().value(), 0x6000_00D1);
}

#[test]
fn status_register_writes_that_are_refused() {
    let (mut cpu, _) = machine(&[]);
    // A mode field that names no mode: MSR CPSR_fc, r0 / MSR SPSR_c, r0
    cpu.set_register(0, 0xF000_0000);
    assert_eq!(run(&mut cpu, 0xE129F000), Err(ExecutionError::InvalidMode));
    assert_eq!(cpu.status_register(), 0x93);
    cpu.set_register(0, 0x0000_0015);
    assert_eq!(run(&mut cpu, 0xE161F000), Err(ExecutionError::InvalidMode));
    assert_eq!(cpu.spsr().value(), 0x13);
    // User mode may write the flags, not the control bits.
    cpu.change_mode(CpuMode::User);
    cpu.set_register(0, 0xC000_001F);
    assert_eq!(run(&mut cpu, 0xE128F000), Ok(ADVANCE));
    assert_eq!(cpu.status_register(), 0xC000_0090);
    assert_eq!(run(&mut cpu, 0xE121F000), Err(ExecutionError::PrivilegedWrite));
    assert_eq!(run(&mut cpu, 0xE129F000), Err(ExecutionError::PrivilegedWrite));
    assert_eq!(cpu.status_register(), 0xC000_0090);
    assert_eq!(cpu.mode(), CpuMode::User);
    // User and System mode have no saved status register.
    assert_eq!(run(&mut cpu, 0xE168F000), Err(ExecutionError::NoSavedStatus));
    cpu.change_mode(CpuMode::System);
    assert_eq!(run(&mut cpu, 0xE169F000), Err(ExecutionError::NoSavedStatus));
    assert_eq!(cpu.status_register(), 0xC000_009F);
}

#[test]
fn software_interrupt_enters_supervisor_mode() {
    let (mut cpu, ram) = machine(&[]);
    cpu.change_mode(CpuMode::User);
    cpu.set_irq_disable(false);
    cpu.set_flags(0b0110);
    cpu.set_register(14, 0x1234);
    cpu.set_pc(0x2008);
    let instruction = decode(&cpu, 0xEF000042);
    assert_eq!(execute_software_interrupt(&mut cpu, &instruction), CpuAction::PipelineFlush);
    assert_eq!(cpu.mode(), CpuMode::Supervisor);
    assert_eq!(cpu.status_register(), 0x6000_0093);
    assert_eq!(cpu.spsr().value(), 0x6000_0010);
    assert_eq!(cpu.register(14), 0x2004);
    assert_eq!(cpu.pc(), 0x08 + 8);
    assert_eq!(cpu.register_in_mode(14, CpuMode::User), 0x1234);
    assert_eq!(ram.log(), vec![load(4, 8, 0, N), load(4, 12, 0, S)]);
}

#[test]
fn undefined_instruction_enters_undefined_mode() {
    let (mut cpu, ram) = machine(&[]);
    cpu.change_mode(CpuMode::System);
    cpu.set_cpu_state(CpuState::Arm);
    cpu.set_pc(0x3008);
    let before = cpu.status_register();
    let instruction = decode(&cpu, 0xE6000010);
    assert_eq!(execute_undefined(&mut cpu, &instruction), CpuAction::PipelineFlush);
    assert_eq!(cpu.mode(), CpuMode::Undefined);
    assert_eq!(cpu.status_register(), 0x9B);
    assert_eq!(cpu.spsr().value(), before);
    assert_eq!(cpu.register(14), 0x3004);
    assert_eq!(cpu.pc(), 0x04 + 8);
    assert_eq!(ram.log(), vec![load(4, 4, 0, N), load(4, 8, 0, S)]);
}

#[test]
fn exception_entry() {
    let (mut cpu, _) = machine(&[]);
    cpu.change_mode(CpuMode::User);
    cpu.set_irq_disable(false);
    cpu.set_cpu_state(CpuState::Thumb);
    cpu.enter_exception(Exception::Fiq, 0x5000);
    assert_eq!(cpu.status_register(), 0xD1);
    assert_eq!(cpu.spsr().value(), 0x30);
    assert_eq!(cpu.register(14), 0x5000);
    assert_eq!(cpu.pc(), 0x1C);
    cpu.enter_exception(Exception::Irq, 0x6000);
    assert_eq!(cpu.status_register(), 0xD2);
    assert_eq!(cpu.spsr().value(), 0xD1);
    assert_eq!(cpu.pc(), 0x18);
    cpu.change_mode(CpuMode::User);
    cpu.set_cpsr(ProgramStatusRegister::new(0x10));
    cpu.enter_exception(Exception::Irq, 0x6000);
    assert_eq!(cpu.status_register(), 0x92);
    cpu.enter_exception(Exception::Reset, 0);
    assert_eq!(cpu.status_register(), 0xD3);
    assert_eq!(cpu.pc(), 0);
}

#[test]
fn word_and_byte_loads() {
    let (mut cpu, ram) = machine(&[]);
    ram.set_word(0x100, 0x4433_2211);
    ram.set_word(0x104, 0x8877_6655);
    cpu.set_register(1, 0x100);
    // LDR r0, [r1]
    let instruction = decode(&cpu, 0xE5910000);
    assert_eq!(execute_single_data_transfer(&mut cpu, &instruction), ADVANCE_N);
    assert_eq!(cpu.register(0), 0x4433_2211);
    assert_eq!(cpu.register(1), 0x100);
    // LDR r0, [r1, #4]!
    assert_eq!(run(&mut cpu, 0xE5B10004), Ok(ADVANCE_N));
    assert_eq!(cpu.register(0), 0x8877_6655);
    assert_eq!(cpu.register(1), 0x104);
    // LDR r0, [r1], #-4
    assert_eq!(run(&mut cpu, 0xE4110004), Ok(ADVANCE_N));
    assert_eq!(cpu.register(0), 0x8877_6655);
    assert_eq!(cpu.register(1), 0x100);
    // LDRB r0, [r1, #2]
    assert_eq!(run(&mut cpu, 0xE5D10002), Ok(ADVANCE_N));
    assert_eq!(cpu.register(0), 0x33);
    // LDR r0, [r1, r2, LSL #2]
    cpu.set_register(2, 1);
    assert_eq!(run(&mut cpu, 0xE7910102), Ok(ADVANCE_N));
    assert_eq!(cpu.register(0), 0x8877_6655);
    // LDR r0, [r1, -r2]
    cpu.set_register(1, 0x105);
    assert_eq!(run(&mut cpu, 0xE7110002), Ok(ADVANCE_N));
    assert_eq!(cpu.register(0), 0x8877_6655);
    assert_eq!(
        ram.log(),
        vec![
            load(4, 0x100, 0x4433_2211, N),
            load(4, 0x104, 0x8877_6655, N),
            load(4, 0x104, 0x8877_6655, N),
            load(1, 0x102, 0x33, N),
            load(4, 0x104, 0x8877_6655, N),
            load(4, 0x104, 0x8877_6655, N),
        ]
    );
}

#[test]
fn a_misaligned_word_load_is_rotated() {
    let (mut cpu, ram) = machine(&[]);
    ram.set_word(0x100, 0x4433_2211);
    for (offset, expected) in [(0u32, 0x4433_2211u32), (1, 0x1144_3322), (2, 0x2211_4433), (3, 0x3322_1144)]
    {
        cpu.set_register(1, 0x100 + offset);
        ram.clear_log();
        assert_eq!(run(&mut cpu, 0xE5910000), Ok(ADVANCE_N));
        assert_eq!(cpu.register(0), expected);
        assert_eq!(ram.log(), vec![load(4, 0x100, 0x4433_2211, N)]);
    }
}

#[test]
fn loading_the_program_counter_flushes() {
    let (mut cpu, ram) = machine(&[]);
    ram.set_word(0x100, 0x0000_0400);
    cpu.set_register(1, 0x100);
    // LDR pc, [r1], #4
    assert_eq!(run(&mut cpu, 0xE491F004), Ok(CpuAction::PipelineFlush));
    assert_eq!(cpu.pc(), 0x408);
    assert_eq!(cpu.register(1), 0x104);
    assert_eq!(
        ram.log(),
        vec![load(4, 0x100, 0x400, N), load(4, 0x400, 0, N), load(4, 0x404, 0, S)]
    );
}

#[test]
fn word_and_byte_stores() {
    let (mut cpu, ram) = machine(&[]);
    cpu.set_register(0, 0xCAFE_BABE);
    cpu.set_register(1, 0x200);
    // STR r0, [r1]
    assert_eq!(run(&mut cpu, 0xE5810000), Ok(ADVANCE_N));
    assert_eq!(ram.word(0x200), 0xCAFE_BABE);
    // STRB r0, [r1, #5]
    assert_eq!(run(&mut cpu, 0xE5C10005), Ok(ADVANCE_N));
    assert_eq!(ram.word(0x204), 0x0000_BE00);
    // STR r0, [r1, #-8]!
    assert_eq!(run(&mut cpu, 0xE5210008), Ok(ADVANCE_N));
    assert_eq!(cpu.register(1), 0x1F8);
    assert_eq!(ram.word(0x1F8), 0xCAFE_BABE);
    // STR r0, [r1], #0x10 at a misaligned base stores at the aligned address.
    cpu.set_register(1, 0x303);
    assert_eq!(run(&mut cpu, 0xE4810010), Ok(ADVANCE_N));
    assert_eq!(ram.word(0x300), 0xCAFE_BABE);
    assert_eq!(cpu.register(1), 0x313);
    // STR pc, [r1]: the value stored is one instruction beyond the program counter.
    cpu.set_register(1, 0x400);
    let pc = cpu.pc();
    assert_eq!(run(&mut cpu, 0xE581F000), Ok(ADVANCE_N));
    assert_eq!(ram.word(0x400), pc + 4);
    assert_eq!(
        ram.log(),
        vec![
            store(4, 0x200, 0xCAFE_BABE, N),
            store(1, 0x205, 0xBE, N),
            store(4, 0x1F8, 0xCAFE_BABE, N),
            store(4, 0x300, 0xCAFE_BABE, N),
            store(4, 0x400, pc + 4, N),
        ]
    );
}

#[test]
fn single_transfer_plan() {
    let (mut cpu, ram) = machine(&[]);
    cpu.set_register(0, 0x55);
    cpu.set_register(1, 0x1000);
    cpu.set_register(2, 0x40);
    let cases = [
        (0xE5810ABCu32, 0x1ABCu32, 0x1ABCu32), // STR r0, [r1, #0xABC]
        (0xE5010ABC, 0x0544, 0x0544),          // STR r0, [r1, #-0xABC]
        (0xE4810ABC, 0x1000, 0x1ABC),          // STR r0, [r1], #0xABC
        (0xE7810002, 0x1040, 0x1040),          // STR r0, [r1, r2]
        (0xE7810182, 0x1200, 0x1200),          // STR r0, [r1, r2, LSL #3]
        (0xE7010222, 0x0FFC, 0x0FFC),          // STR r0, [r1, -r2, LSR #4]
    ];
    for (word, address, final_base) in cases {
        let plan = plan_single_data_transfer(&cpu, &decode(&cpu, word));
        assert_eq!(plan.address, address, "{:08X}", word);
        assert_eq!(plan.final_base, final_base, "{:08X}", word);
        assert_eq!(plan.value, 0x55);
    }
    assert!(ram.log().is_empty());
}

#[test]
fn plans_say_what_goes_to_the_bus() {
    let (mut cpu, ram) = machine(&[]);
    cpu.set_register(0, 0x1234_ABCD);
    cpu.set_register(1, 0x1003);
    cpu.set_register(2, 0x2003);
    // STR r0, [r1]
    let plan = plan_single_data_transfer(&cpu, &decode(&cpu, 0xE5810000));
    assert_eq!((plan.address, plan.bus_address), (0x1003, 0x1000));
    assert_eq!((plan.value, plan.bus_value), (0x1234_ABCD, 0x1234_ABCD));
    assert_eq!(plan.access, N);
    assert_eq!(plan.size, 4);
    // STRB r0, [r1]
    let plan = plan_single_data_transfer(&cpu, &decode(&cpu, 0xE5C10000));
    assert_eq!((plan.address, plan.bus_address), (0x1003, 0x1003));
    assert_eq!((plan.value, plan.bus_value), (0x1234_ABCD, 0xCD));
    // STRH r0, [r1]
    let plan = plan_halfword_and_signed_data_transfer(&cpu, &decode(&cpu, 0xE1C100B0));
    assert_eq!((plan.address, plan.bus_address), (0x1003, 0x1002));
    assert_eq!((plan.value, plan.bus_value), (0x1234_ABCD, 0xABCD));
    assert_eq!(plan.access, N);
    assert_eq!(plan.size, 2);
    // LDRSB r0, [r1]
    let plan = plan_halfword_and_signed_data_transfer(&cpu, &decode(&cpu, 0xE1D100D0));
    assert_eq!((plan.address, plan.bus_address), (0x1003, 0x1003));
    // SWP r3, r0, [r2] / SWPB r3, r0, [r2]
    let plan = plan_single_data_swap(&cpu, &decode(&cpu, 0xE1023090));
    assert_eq!((plan.address, plan.bus_address, plan.final_base), (0x2003, 0x2000, 0x2003));
    assert_eq!((plan.value, plan.bus_value), (0x1234_ABCD, 0x1234_ABCD));
    let plan = plan_single_data_swap(&cpu, &decode(&cpu, 0xE1423090));
    assert_eq!((plan.address, plan.bus_address), (0x2003, 0x2003));
    assert_eq!((plan.value, plan.bus_value), (0x1234_ABCD, 0xCD));
    assert_eq!(plan.access, N);
    // STMIA r1, {r0, r2}
    let plan = plan_block_data_transfer(&cpu, &decode(&cpu, 0xE8810005));
    assert_eq!(plan.len(), 2);
    assert_eq!((plan[0].register, plan[0].address, plan[0].bus_address), (0, 0x1003, 0x1000));
    assert_eq!((plan[1].register, plan[1].address, plan[1].bus_address), (2, 0x1007, 0x1004));
    assert_eq!((plan[0].access, plan[1].access), (N, S));
    // The fetches
    cpu.set_pc(0x3002);
    assert_eq!(cpu.next_fetch(), (0x3000, S));
    assert_eq!(cpu.refill_plan(), ((0x3002, N), (0x3006, S)));
    cpu.set_cpu_state(CpuState::Thumb);
    assert_eq!(cpu.next_fetch(), (0x3002, S));
    assert_eq!(cpu.refill_plan(), ((0x3002, N), (0x3004, S)));
    cpu.set_pc(0x3003);
    assert_eq!(cpu.next_fetch(), (0x3002, S));
    assert!(ram.log().is_empty());
}

#[test]
fn halfword_and_signed_loads() {
    let (mut cpu, ram) = machine(&[]);
    ram.set_word(0x100, 0x8001_80FF);
    cpu.set_register(1, 0x100);
    cpu.set_register(2, 2);
    // LDRH r0, [r1]
    let instruction = decode(&cpu, 0xE1D100B0);
    assert_eq!(execute_halfword_and_signed_data_transfer(&mut cpu, &instruction), ADVANCE_N);
    assert_eq!(cpu.register(0), 0x80FF);
    // LDRSH r0, [r1]
    assert_eq!(run(&mut cpu, 0xE1D100F0), Ok(ADVANCE_N));
    assert_eq!(cpu.register(0), 0xFFFF_80FF);
    // LDRSB r0, [r1]
    assert_eq!(run(&mut cpu, 0xE1D100D0), Ok(ADVANCE_N));
    assert_eq!(cpu.register(0), 0xFFFF_FFFF);
    // LDRSB r0, [r1, #2]
    assert_eq!(run(&mut cpu, 0xE1D100D2), Ok(ADVANCE_N));
    assert_eq!(cpu.register(0), 0x01);
    // LDRH r0, [r1, r2]
    assert_eq!(run(&mut cpu, 0xE19100B2), Ok(ADVANCE_N));
    assert_eq!(cpu.register(0), 0x8001);
    // LDRSH r0, [r1, #2]!
    assert_eq!(run(&mut cpu, 0xE1F100F2), Ok(ADVANCE_N));
    assert_eq!(cpu.register(0), 0xFFFF_8001);
    assert_eq!(cpu.register(1), 0x102);
    // LDRH r0, [r1], #-2 at a misaligned base reads the aligned halfword.
    cpu.set_register(1, 0x101);
    assert_eq!(run(&mut cpu, 0xE05100B2), Ok(ADVANCE_N));
    assert_eq!(cpu.register(0), 0x80FF);
    assert_eq!(cpu.register(1), 0xFF);
    assert_eq!(
        ram.log(),
        vec![
            load(2, 0x100, 0x80FF, N),
            load(2, 0x100, 0x80FF, N),
            load(1, 0x100, 0xFF, N),
            load(1, 0x102, 0x01, N),
            load(2, 0x102, 0x8001, N),
            load(2, 0x102, 0x8001, N),
            load(2, 0x100, 0x80FF, N),
        ]
    );
}

#[test]
fn halfword_stores_and_plan() {
    let (mut cpu, ram) = machine(&[]);
    cpu.set_register(0, 0x1234_ABCD);
    cpu.set_register(1, 0x200);
    // STRH r0, [r1, #0x12]
    let instruction = decode(&cpu, 0xE1C101B2);
    let plan = plan_halfword_and_signed_data_transfer(&cpu, &instruction);
    assert_eq!(plan.address, 0x212);
    assert_eq!(plan.final_base, 0x212);
    assert_eq!(plan.value, 0x1234_ABCD);
    assert_eq!(run(&mut cpu, 0xE1C101B2), Ok(ADVANCE_N));
    assert_eq!(ram.word(0x210), 0xABCD_0000);
    assert_eq!(cpu.register(1), 0x200);
    // STRH r0, [r1], #4
    assert_eq!(run(&mut cpu, 0xE0C100B4), Ok(ADVANCE_N));
    assert_eq!(ram.word(0x200), 0x0000_ABCD);
    assert_eq!(cpu.register(1), 0x204);
    assert_eq!(ram.log(), vec![store(2, 0x212, 0xABCD, N), store(2, 0x200, 0xABCD, N)]);
}

#[test]
fn block_transfer_addresses_ascend_with_the_register_numbers() {
    let (mut cpu, _) = machine(&[]);
    cpu.set_register(13, 0x1000);
    let cases = [
        (0xE8AD0221u32, [0x1000u32, 0x1004, 0x1008]), // STMIA r13!, {r0, r5, r9}
        (0xE9AD0221, [0x1004, 0x1008, 0x100C]),        // STMIB
        (0xE82D0221, [0x0FF8, 0x0FFC, 0x1000]),        // STMDA
        (0xE92D0221, [0x0FF4, 0x0FF8, 0x0FFC]),        // STMDB
        (0xE8BD0221, [0x1000, 0x1004, 0x1008]),        // LDMIA
        (0xE93D0221, [0x0FF4, 0x0FF8, 0x0FFC]),        // LDMDB
    ];
    for (word, addresses) in cases {
        let plan = plan_block_data_transfer(&cpu, &decode(&cpu, word));
        let slots: Vec<(usize, u32)> =
            plan.iter().map(|slot| (slot.register, slot.address)).collect();
        assert_eq!(
            slots,
            vec![(0, addresses[0]), (5, addresses[1]), (9, addresses[2])],
            "{:08X}",
            word
        );
    }
    assert!(plan_block_data_transfer(&cpu, &decode(&cpu, 0xE8AD0000)).is_empty());
}

#[test]
fn block_stores() {
    for (word, first, final_base) in [
        (0xE8AD0221u32, 0x1000u32, 0x100Cu32),
        (0xE9AD0221, 0x1004, 0x100C),
        (0xE82D0221, 0x0FF8, 0x0FF4),
        (0xE92D0221, 0x0FF4, 0x0FF4),
        (0xE88D0221, 0x1000, 0x1000),
        (0xE90D0221, 0x0FF4, 0x1000),
    ] {
        let (mut cpu, ram) = machine(&[]);
        cpu.set_register(0, 0xA0);
        cpu.set_register(5, 0xA5);
        cpu.set_register(9, 0xA9);
        cpu.set_register(13, 0x1000);
        let instruction = decode(&cpu, word);
        assert_eq!(execute_block_data_transfer(&mut cpu, &instruction), Ok(ADVANCE_N));
        assert_eq!(
            ram.log(),
            vec![
                store(4, first, 0xA0, N),
                store(4, first + 4, 0xA5, S),
                store(4, first + 8, 0xA9, S)
            ],
            "{:08X}",
            word
        );
        assert_eq!(cpu.register(13), final_base, "{:08X}", word);
    }
}

#[test]
fn block_loads() {
    for (word, first, final_base) in [
        (0xE8BD0221u32, 0x1000u32, 0x100Cu32),
        (0xE9BD0221, 0x1004, 0x100C),
        (0xE83D0221, 0x0FF8, 0x0FF4),
        (0xE93D0221, 0x0FF4, 0x0FF4),
        (0xE89D0221, 0x1000, 0x1000),
    ] {
        let (mut cpu, ram) = machine(&[]);
        ram.set_word(first, 0xB0);
        ram.set_word(first + 4, 0xB5);
        ram.set_word(first + 8, 0xB9);
        cpu.set_register(13, 0x1000);
        assert_eq!(run(&mut cpu, word), Ok(ADVANCE_N));
        assert_eq!(
            ram.log(),
            vec![load(4, first, 0xB0, N), load(4, first + 4, 0xB5, S), load(4, first + 8, 0xB9, S)],
            "{:08X}",
            word
        );
        assert_eq!(
            (cpu.register(0), cpu.register(5), cpu.register(9), cpu.register(13)),
            (0xB0, 0xB5, 0xB9, final_base),
            "{:08X}",
            word
        );
    }
}

#[test]
fn block_load_of_the_program_counter_flushes() {
    let (mut cpu, ram) = machine(&[]);
    ram.set_word(0x1000, 0x11);
    ram.set_word(0x1004, 0x0000_0800);
    cpu.set_register(13, 0x1000);
    // LDMIA r13!, {r0, pc}
    assert_eq!(run(&mut cpu, 0xE8BD8001), Ok(CpuAction::PipelineFlush));
    assert_eq!(cpu.register(0), 0x11);
    assert_eq!(cpu.register(13), 0x1008);
    assert_eq!(cpu.pc(), 0x808);
    assert_eq!(
        ram.log(),
        vec![
            load(4, 0x1000, 0x11, N),
            load(4, 0x1004, 0x800, S),
            load(4, 0x800, 0, N),
            load(4, 0x804, 0, S)
        ]
    );
    // STMIA r13, {pc} stores one instruction beyond the program counter.
    ram.clear_log();
    assert_eq!(run(&mut cpu, 0xE88D8000), Ok(ADVANCE_N));
    assert_eq!(ram.log(), vec![store(4, 0x1008, 0x80C, N)]);
}

#[test]
fn block_transfer_with_the_s_bit_moves_the_user_bank() {
    let (mut cpu, ram) = machine(&[]);
    cpu.change_mode(CpuMode::User);
    cpu.set_register(13, 0xAAAA);
    cpu.set_register(14, 0xBBBB);
    cpu.change_mode(CpuMode::Irq);
    cpu.set_register(13, 0x1111);
    cpu.set_register(14, 0x2222);
    cpu.set_register(0, 0x1000);
    // STMIA r0, {r13, r14}^
    assert_eq!(run(&mut cpu, 0xE8C06000), Ok(ADVANCE_N));
    assert_eq!(ram.log(), vec![store(4, 0x1000, 0xAAAA, N), store(4, 0x1004, 0xBBBB, S)]);
    // STMIA r0, {r13, r14}
    ram.clear_log();
    assert_eq!(run(&mut cpu, 0xE8806000), Ok(ADVANCE_N));
    assert_eq!(ram.log(), vec![store(4, 0x1000, 0x1111, N), store(4, 0x1004, 0x2222, S)]);
    // LDMIA r0, {r13, r14}^
    ram.set_word(0x1000, 0xCCCC);
    ram.set_word(0x1004, 0xDDDD);
    assert_eq!(run(&mut cpu, 0xE8D06000), Ok(ADVANCE_N));
    assert_eq!((cpu.register(13), cpu.register(14)), (0x1111, 0x2222));
    cpu.change_mode(CpuMode::User);
    assert_eq!((cpu.register(13), cpu.register(14)), (0xCCCC, 0xDDDD));
}

#[test]
fn block_load_of_the_program_counter_with_the_s_bit_is_refused() {
    let (mut cpu, ram) = machine(&[]);
    cpu.set_register(13, 0x1000);
    let before = registers(&cpu);
    // LDMIA r13!, {r0, pc}^
    for mode in [CpuMode::Supervisor, CpuMode::System, CpuMode::Fiq] {
        cpu.change_mode(mode);
        cpu.set_register(13, 0x1000);
        let instruction = decode(&cpu, 0xE8FD8001);
        assert_eq!(
            execute_block_data_transfer(&mut cpu, &instruction),
            Err(ExecutionError::UnsupportedBlockTransfer)
        );
        assert_eq!(cpu.pc(), before[15]);
        assert_eq!(cpu.register(0), 0);
        assert_eq!(cpu.register(13), 0x1000);
        assert!(ram.log().is_empty());
    }
    cpu.change_mode(CpuMode::User);
    cpu.set_register(13, 0x1000);
    ram.set_word(0x1004, 0x600);
    assert_eq!(run(&mut cpu, 0xE8FD8001), Ok(CpuAction::PipelineFlush));
    assert_eq!(cpu.pc(), 0x608);
}

#[test]
fn swap_word_and_byte() {
    let (mut cpu, ram) = machine(&[]);
    ram.set_word(0x100, 0x4433_2211);
    cpu.set_register(1, 0xAABB_CCDD);
    cpu.set_register(2, 0x100);
    // SWP r0, r1, [r2]
    let instruction = decode(&cpu, 0xE1020091);
    assert_eq!(execute_single_data_swap(&mut cpu, &instruction), ADVANCE_N);
    assert_eq!(cpu.register(0), 0x4433_2211);
    assert_eq!(ram.word(0x100), 0xAABB_CCDD);
    // SWPB r0, r1, [r2]
    cpu.set_register(2, 0x101);
    assert_eq!(run(&mut cpu, 0xE1420091), Ok(ADVANCE_N));
    assert_eq!(cpu.register(0), 0xCC);
    assert_eq!(ram.word(0x100), 0xAABB_DDDD);
    // SWP r1, r1, [r2] at a misaligned address
    cpu.set_register(2, 0x102);
    assert_eq!(run(&mut cpu, 0xE1021091), Ok(ADVANCE_N));
    assert_eq!(cpu.register(1), 0xDDDD_AABB);
    assert_eq!(ram.word(0x100), 0xAABB_CCDD);
    assert_eq!(
        ram.log(),
        vec![
            load(4, 0x100, 0x4433_2211, N),
            store(4, 0x100, 0xAABB_CCDD, N),
            load(1, 0x101, 0xCC, N),
            store(1, 0x101, 0xDD, N),
            load(4, 0x100, 0xAABB_DDDD, N),
            store(4, 0x100, 0xAABB_CCDD, N),
        ]
    );
}

#[test]
fn an_instruction_runs_by_its_tag() {
    let (mut cpu, _) = machine(&[]);
    cpu.set_register(1, 6);
    cpu.set_register(2, 7);
    let instruction = ArmInstruction::decode(0xE0000291, 8);
    assert_eq!(instruction.execute(&mut cpu), Ok(ADVANCE));
    assert_eq!(cpu.register(0), 42);
    assert_eq!(ArmInstruction::decode(0xEF000000, 8).execute(&mut cpu), Ok(CpuAction::PipelineFlush));
    assert_eq!(cpu.pc(), 0x10);
    assert_eq!(ArmInstruction::decode(0xE6000010, 8).execute(&mut cpu), Ok(CpuAction::PipelineFlush));
    assert_eq!(cpu.pc(), 0x0C);
    assert_eq!(cpu.mode(), CpuMode::Undefined);
}

#[test]
fn the_core_passes_bus_calls_through() {
    let (mut cpu, ram) = machine(&[]);
    cpu.store_32(0x100, 0x1122_3344, S);
    cpu.store_16(0x104, 0x5566, N);
    cpu.store_8(0x106, 0x77, S);
    assert_eq!(cpu.load_32(0x100, N), 0x1122_3344);
    assert_eq!(cpu.load_16(0x104, S), 0x5566);
    assert_eq!(cpu.load_8(0x106, N), 0x77);
    assert_eq!(MemoryInterface::load_32(&mut cpu, 0x104, S), 0x0077_5566);
    MemoryInterface::store_8(&mut cpu, 0x107, 0x88, N);
    assert_eq!(MemoryInterface::load_8(&mut cpu, 0x107, N), 0x88);
    MemoryInterface::store_16(&mut cpu, 0x108, 0x99AA, N);
    assert_eq!(MemoryInterface::load_16(&mut cpu, 0x108, N), 0x99AA);
    MemoryInterface::store_32(&mut cpu, 0x10C, 0xBBCC_DDEE, N);
    assert_eq!(ram.word(0x10C), 0xBBCC_DDEE);
    assert_eq!(ram.log().len(), 12);
    assert_eq!(cpu.pc(), 8);
}
