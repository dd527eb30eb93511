//! The banked register file: sixteen logical registers, of which R13 and
//! R14 have a private copy in each of the five exception modes and R8 to
//! R12 have one in Fiq mode.

use crate::types::CpuMode;
use vstd::prelude::*;

verus! {

/// Number of the stack pointer.
pub const SP: usize = 13;

/// Number of the link register.
pub const LR: usize = 14;

/// Number of the program counter.
pub const PC: usize = 15;

/// How many physical copies the arena keeps of each register. A mode sees
/// one of them; R0 to R7 and R15 use only the first, R8 to R12 the first
/// two.
pub const BANKS: usize = 6;

/// Which physical copy of the register with this number a mode sees.
pub open spec fn bank_of(register: int, mode: CpuMode) -> int {
    if 8 <= register <= 12 {
        if mode == CpuMode::Fiq {
            1
        } else {
            0
        }
    } else if 13 <= register <= 14 {
        match mode {
            CpuMode::User => 0,
            CpuMode::System => 0,
            CpuMode::Fiq => 1,
            CpuMode::Irq => 2,
            CpuMode::Supervisor => 3,
            CpuMode::Abort => 4,
            CpuMode::Undefined => 5,
        }
    } else {
        0
    }
}

/// Whether an arena has sixteen rows of six cells.
pub open spec fn well_shaped(banks: Seq<Seq<u32>>) -> bool {
    &&& banks.len() == 16
    &&& forall|register: int| 0 <= register < 16 ==> (#[trigger] banks[register]).len() == BANKS
}

/// What a mode reads from the register with this number.
pub open spec fn read_register(banks: Seq<Seq<u32>>, register: int, mode: CpuMode) -> u32 {
    banks[register][bank_of(register, mode)]
}

/// The arena after a mode has written the register with this number.
pub open spec fn write_register(
    banks: Seq<Seq<u32>>,
    register: int,
    mode: CpuMode,
    value: u32,
) -> Seq<Seq<u32>> {
    banks.update(register, banks[register].update(bank_of(register, mode), value))
}

/// The arena after a mode has made a series of writes, each a register
/// number and a value, first to last.
pub open spec fn write_registers(
    banks: Seq<Seq<u32>>,
    mode: CpuMode,
    writes: Seq<(int, u32)>,
) -> Seq<Seq<u32>>
    decreases writes.len(),
{
    if writes.len() == 0 {
        banks
    } else {
        write_register(
            write_registers(banks, mode, writes.drop_last()),
            writes.last().0,
            mode,
            writes.last().1,
        )
    }
}

/// The bank index is within the row of its register.
pub proof fn lemma_bank_in_range(register: int, mode: CpuMode)
    requires
        0 <= register < 16,
    ensures
        0 <= bank_of(register, mode) < BANKS,
{
}

/// A write keeps the arena's shape; it is read back by every mode that
/// shares the written copy and is invisible to every other register and
/// mode.
pub proof fn lemma_write_then_read(
    banks: Seq<Seq<u32>>,
    register: int,
    mode: CpuMode,
    value: u32,
    other: int,
    other_mode: CpuMode,
)
    requires
        well_shaped(banks),
        0 <= register < 16,
        0 <= other < 16,
    ensures
        well_shaped(write_register(banks, register, mode, value)),
        read_register(write_register(banks, register, mode, value), other, other_mode) == (if other
            == register && bank_of(register, mode) == bank_of(other, other_mode) {
            value
        } else {
            read_register(banks, other, other_mode)
        }),
{
    lemma_bank_in_range(register, mode);
    lemma_bank_in_range(other, other_mode);
    let after = write_register(banks, register, mode, value);
    assert forall|r: int| 0 <= r < 16 implies (#[trigger] after[r]).len() == BANKS by {
        assert(banks[r].len() == BANKS);
    }
}

/// Mode banking: whatever one mode writes, and however often, a second mode
/// still reads its old value from each register of which the two modes see
/// different copies. Taken with Fiq as the first mode and User as the
/// second, R8 to R14 come back from a stay in Fiq mode exactly as they were
/// left.
pub proof fn lemma_banked_registers_survive(
    banks: Seq<Seq<u32>>,
    mode: CpuMode,
    writes: Seq<(int, u32)>,
    register: int,
    other_mode: CpuMode,
)
    requires
        well_shaped(banks),
        forall|i: int| 0 <= i < writes.len() ==> 0 <= (#[trigger] writes[i]).0 < 16,
        0 <= register < 16,
        bank_of(register, mode) != bank_of(register, other_mode),
    ensures
        well_shaped(write_registers(banks, mode, writes)),
        read_register(write_registers(banks, mode, writes), register, other_mode) == read_register(
            banks,
            register,
            other_mode,
        ),
    decreases writes.len(),
{
    if writes.len() > 0 {
        let earlier = writes.drop_last();
        assert forall|i: int| 0 <= i < earlier.len() implies 0 <= (#[trigger] earlier[i]).0
            < 16 by {
            assert(earlier[i] == writes[i]);
        }
        lemma_banked_registers_survive(banks, mode, earlier, register, other_mode);
        lemma_write_then_read(
            write_registers(banks, mode, earlier),
            writes.last().0,
            mode,
            writes.last().1,
            register,
            other_mode,
        );
    }
}

/// User and Fiq mode see different copies of each of R8 to R14, and the
/// same copy of every other register.
pub proof fn lemma_fiq_banks(register: int)
    requires
        0 <= register < 16,
    ensures
        (8 <= register <= 14) <==> bank_of(register, CpuMode::Fiq) != bank_of(
            register,
            CpuMode::User,
        ),
{
}

/// The arena in which every copy of every register is zero.
pub open spec fn zeroed_arena() -> Seq<Seq<u32>> {
    Seq::new(16, |register: int| Seq::new(BANKS as nat, |bank: int| 0u32))
}

/// The arena of a register file with every register zero: one row of six
/// cells for each logical register.
pub fn build_general_registers() -> (general_registers: [[u32; 6]; 16])
    ensures
        forall|register: int, bank: int|
            0 <= register < 16 && 0 <= bank < BANKS ==> general_registers[register][bank] == 0,
{
    [[0u32; 6]; 16]
}

/// The banked register file.
#[derive(Debug, Clone, Copy)]
pub struct RegisterFile {
    general_registers: [[u32; 6]; 16],
}

impl View for RegisterFile {
    type V = Seq<Seq<u32>>;

    closed spec fn view(&self) -> Seq<Seq<u32>> {
        Seq::new(16, |i: int| self.general_registers[i]@)
    }
}

impl RegisterFile {
    /// The view of a register file always has sixteen rows of six cells.
    pub proof fn lemma_shape(&self)
        ensures
            well_shaped(self@),
    {
    }

    /// A register file with every register zero.
    pub fn new() -> (registers: Self)
        ensures
            registers@ == zeroed_arena(),
            well_shaped(registers@),
            forall|register: int, mode: CpuMode|
                0 <= register < 16 ==> #[trigger] read_register(registers@, register, mode) == 0,
    {
        let registers = RegisterFile { general_registers: build_general_registers() };
        proof {
            assert forall|i: int| 0 <= i < 16 implies #[trigger] registers@[i]
                =~= zeroed_arena()[i] by {
                assert forall|j: int| 0 <= j < 6 implies registers@[i][j] == 0 by {
                    assert(registers.general_registers[i][j] == 0);
                }
            }
            assert(registers@ =~= zeroed_arena());
            assert forall|register: int, mode: CpuMode|
                0 <= register < 16 implies #[trigger] read_register(
                registers@,
                register,
                mode,
            ) == 0 by {
                lemma_bank_in_range(register, mode);
            }
        }
        registers
    }

    /// The index of the copy that `mode` sees of the register `index`.
    fn bank(index: usize, mode: CpuMode) -> (bank: usize)
        requires
            index < 16,
        ensures
            bank == bank_of(index as int, mode),
            bank < BANKS,
    {
        if 8 <= index && index <= 12 {
            match mode {
                CpuMode::Fiq => 1,
                _ => 0,
            }
        } else if 13 <= index && index <= 14 {
            match mode {
                CpuMode::User => 0,
                CpuMode::System => 0,
                CpuMode::Fiq => 1,
                CpuMode::Irq => 2,
                CpuMode::Supervisor => 3,
                CpuMode::Abort => 4,
                CpuMode::Undefined => 5,
            }
        } else {
            0
        }
    }

    /// What `mode` reads from the register `index`.
    pub fn read(&self, index: usize, mode: CpuMode) -> (value: u32)
        requires
            index < 16,
        ensures
            value == read_register(self@, index as int, mode),
    {
        let bank = Self::bank(index, mode);
        self.general_registers[index][bank]
    }

    /// Writes the copy that `mode` sees of the register `index`.
    pub fn write(&mut self, index: usize, mode: CpuMode, value: u32)
        requires
            index < 16,
        ensures
            final(self)@ == write_register(old(self)@, index as int, mode, value),
            well_shaped(final(self)@),
    {
        let bank = Self::bank(index, mode);
        self.general_registers[index][bank] = value;
        proof {
            assert(self@ =~= write_register(old(self)@, index as int, mode, value));
        }
    }
}

} // verus!
