//! The program status register: condition flags, interrupt masks, the
//! execution-state bit and the mode field, packed into one 32-bit word.

use crate::bitfield::{
    assign_bit, assign_range, bit_is_set, bit_range, extract_range, test_bit, with_bit,
    with_bit_range,
};
use crate::types::{mode_of_bits, CpuMode, CpuState, InvalidMode};
use vstd::prelude::*;

verus! {

/// The bits of a status word that exist: flags (31-28), the two interrupt
/// masks (7, 6), the state bit (5) and the mode field (4-0).
pub const LIVE_BITS: u32 = 0xF000_00FF;

/// The bits of a status word that are reserved and always read as zero.
pub const RESERVED_BITS: u32 = 0x0FFF_FF00;

/// Position of the negative flag.
pub const NEGATIVE_BIT: u32 = 31;

/// Position of the zero flag.
pub const ZERO_BIT: u32 = 30;

/// Position of the carry flag.
pub const CARRY_BIT: u32 = 29;

/// Position of the overflow flag.
pub const OVERFLOW_BIT: u32 = 28;

/// Position of the bit that masks ordinary interrupts.
pub const IRQ_DISABLE_BIT: u32 = 7;

/// Position of the bit that masks fast interrupts.
pub const FIQ_DISABLE_BIT: u32 = 6;

/// Position of the execution-state bit.
pub const STATE_BIT: u32 = 5;

/// The four flags of a status word as a nibble: N, Z, C, V from bit 3 down.
pub open spec fn status_flags(word: u32) -> u8 {
    (word >> 28) as u8
}

/// The mode field of a status word.
pub open spec fn status_mode_bits(word: u32) -> u8 {
    (word & 0x1F) as u8
}

/// The mode that a status word names, if its mode field is legal.
pub open spec fn status_mode(word: u32) -> Option<CpuMode> {
    mode_of_bits(status_mode_bits(word))
}

/// The execution state that a status word names.
pub open spec fn status_state(word: u32) -> CpuState {
    if bit_is_set(word, STATE_BIT) {
        CpuState::Thumb
    } else {
        CpuState::Arm
    }
}

/// The nibble that holds the four flags N, Z, C, V from bit 3 down.
pub open spec fn flags_nibble(n: bool, z: bool, c: bool, v: bool) -> u8 {
    ((if n {
        8int
    } else {
        0
    }) + (if z {
        4int
    } else {
        0
    }) + (if c {
        2int
    } else {
        0
    }) + (if v {
        1int
    } else {
        0
    })) as u8
}

/// A status word with its four flags replaced by the low nibble of `flags`.
pub open spec fn with_status_flags(word: u32, flags: u8) -> u32 {
    (word & 0x0FFF_FFFF) | (((flags & 0xF) as u32) << 28)
}

/// A status word with its mode field replaced by the pattern of `mode`.
pub open spec fn with_status_mode(word: u32, mode: CpuMode) -> u32 {
    (word & 0xFFFF_FFE0) | (mode.bits() as u32)
}

/// A program status register. Its reserved bits are zero at all times.
#[derive(Debug, Copy, Clone)]
pub struct ProgramStatusRegister {
    value: u32,
}

proof fn lemma_live_bits(value: u32)
    by (bit_vector)
    ensures
        (value & 0xF000_00FFu32) & 0x0FFF_FF00u32 == 0,
        value & 0x0FFF_FF00u32 == 0 ==> value & 0xF000_00FFu32 == value,
        value & 0x0FFF_FF00u32 == 0 ==> ((value & 0x0FFF_FFFFu32) | (0xF000_0000u32 & value))
            == value,
{
}

proof fn lemma_flag_bits(value: u32, flags: u32)
    by (bit_vector)
    requires
        value & 0x0FFF_FF00u32 == 0,
    ensures
        ((value & 0x0FFF_FFFFu32) | (0xF000_0000u32 & flags)) & 0x0FFF_FF00u32 == 0,
        ((value & 0x0FFF_FFFFu32) | (0xF000_0000u32 & flags)) >> 28 == flags >> 28,
        ((value & 0x0FFF_FFFFu32) | (0xF000_0000u32 & flags)) & 0x0FFF_FFFFu32 == value
            & 0x0FFF_FFFFu32,
        ((value & 0x0FFF_FFFFu32) | (0xF000_0000u32 & flags)) & 0x1Fu32 == value & 0x1Fu32,
{
}

proof fn lemma_mode_field(value: u32, field: u32)
    by (bit_vector)
    requires
        field <= 31,
    ensures
        bit_range(value, 0, 5) == value & 0x1F,
        value & 0x1F <= 31,
        field >> 5 == 0,
        with_bit_range(value, 0, 5, field) == (value & 0xFFFF_FFE0u32) | field,
        ((value & 0xFFFF_FFE0u32) | field) & 0x1F == field,
        ((value & 0xFFFF_FFE0u32) | field) & 0x0FFF_FF00u32 == value & 0x0FFF_FF00u32,
{
}

proof fn lemma_flag_nibble(value: u32, n: bool, z: bool, c: bool, v: bool)
    by (bit_vector)
    requires
        n == bit_is_set(value, 31),
        z == bit_is_set(value, 30),
        c == bit_is_set(value, 29),
        v == bit_is_set(value, 28),
    ensures
        (if n { 8u8 } else { 0u8 }) | (if z { 4u8 } else { 0u8 }) | (if c { 2u8 } else { 0u8 })
            | (if v { 1u8 } else { 0u8 })
            == (value >> 28) as u8,
        (value >> 28) as u8 <= 15,
{
}

proof fn lemma_set_flag_nibble(value: u32, flags: u8)
    by (bit_vector)
    ensures
        with_bit(
            with_bit(
                with_bit(with_bit(value, 31, flags & 0b1000 != 0), 30, flags & 0b0100 != 0),
                29,
                flags & 0b0010 != 0,
            ),
            28,
            flags & 0b0001 != 0,
        ) == with_status_flags(value, flags),
        status_flags(with_status_flags(value, flags)) == flags & 0xF,
        with_status_flags(value, flags) & 0x0FFF_FFFFu32 == value & 0x0FFF_FFFFu32,
        with_status_flags(value, flags) & 0x1Fu32 == value & 0x1Fu32,
{
}

/// Writing a nibble of flags and reading the flags back gives the nibble,
/// and whatever stands above the nibble makes no difference. Copying the
/// top four bits of a word into the flags ignores the rest of that word.
pub proof fn lemma_flags_round_trip(word: u32, flags: u8, source: u32)
    by (bit_vector)
    ensures
        flags <= 15 ==> status_flags(with_status_flags(word, flags)) == flags,
        status_flags(with_status_flags(word, flags)) == flags & 0xF,
        with_status_flags(word, flags) == with_status_flags(word, flags & 0xF),
        with_status_flags(word, flags) & 0x0FFF_FFFFu32 == word & 0x0FFF_FFFFu32,
        (word & 0x0FFF_FFFFu32) | (0xF000_0000u32 & source) == (word & 0x0FFF_FFFFu32) | (
        0xF000_0000u32 & (source & 0xF000_0000u32)),
{
}

/// The mode field after a write holds the written mode; a second write
/// replaces the first; and writing the mode that a word already names
/// changes nothing.
pub proof fn lemma_mode_write(word: u32, mode: CpuMode, other: CpuMode)
    ensures
        status_mode(with_status_mode(word, mode)) == Some(mode),
        with_status_mode(with_status_mode(word, mode), other) == with_status_mode(word, other),
        status_mode(word) == Some(mode) ==> with_status_mode(word, mode) == word,
{
    let a = mode.bits() as u32;
    let b = other.bits() as u32;
    assert(((word & 0xFFFF_FFE0u32) | a) & 0x1F == a && (((word & 0xFFFF_FFE0u32) | a)
        & 0xFFFF_FFE0u32) | b == (word & 0xFFFF_FFE0u32) | b && (word & 0x1F == a ==> (word
        & 0xFFFF_FFE0u32) | a == word) && word & 0x1F <= 31) by (bit_vector)
        requires
            a <= 31,
            b <= 31,
    ;
}

/// A status word that got its flags from a nibble made of N, Z, C and V has
/// each of the four where the condition evaluator looks for it; the rest of
/// the word is as before.
pub proof fn lemma_flags_of_nibble(word: u32, n: bool, z: bool, c: bool, v: bool)
    ensures
        bit_is_set(with_status_flags(word, flags_nibble(n, z, c, v)), NEGATIVE_BIT) == n,
        bit_is_set(with_status_flags(word, flags_nibble(n, z, c, v)), ZERO_BIT) == z,
        bit_is_set(with_status_flags(word, flags_nibble(n, z, c, v)), CARRY_BIT) == c,
        bit_is_set(with_status_flags(word, flags_nibble(n, z, c, v)), OVERFLOW_BIT) == v,
        with_status_flags(word, flags_nibble(n, z, c, v)) & 0x0FFF_FFFF == word & 0x0FFF_FFFF,
{
    let flags = flags_nibble(n, z, c, v);
    assert(bit_is_set(with_status_flags(word, flags), 31) == (flags & 8 != 0) && bit_is_set(
        with_status_flags(word, flags),
        30,
    ) == (flags & 4 != 0) && bit_is_set(with_status_flags(word, flags), 29) == (flags & 2 != 0)
        && bit_is_set(with_status_flags(word, flags), 28) == (flags & 1 != 0) && with_status_flags(
        word,
        flags,
    ) & 0x0FFF_FFFFu32 == word & 0x0FFF_FFFFu32) by (bit_vector);
    assert(flags < 16 ==> (flags & 8 != 0) == (flags >= 8) && (flags & 4 != 0) == (flags % 8 >= 4)
        && (flags & 2 != 0) == (flags % 4 >= 2) && (flags & 1 != 0) == (flags % 2 == 1))
        by (bit_vector);
}

impl View for ProgramStatusRegister {
    type V = u32;

    closed spec fn view(&self) -> u32 {
        self.value
    }
}

impl ProgramStatusRegister {
    #[verifier::type_invariant]
    spec fn reserved_bits_are_zero(self) -> bool {
        self.value & RESERVED_BITS == 0
    }

    /// A register from a raw word; the reserved bits of the word are
    /// dropped.
    pub fn new(value: u32) -> (r: Self)
        ensures
            r@ == value & LIVE_BITS,
    {
        proof {
            lemma_live_bits(value);
        }
        ProgramStatusRegister { value: value & LIVE_BITS }
    }

    /// A register from a raw word; the reserved bits of the word are
    /// dropped.
    pub fn from_bits(value: u32) -> (r: Self)
        ensures
            r@ == value & LIVE_BITS,
    {
        Self::new(value)
    }

    /// The raw word. Its reserved bits are zero.
    pub fn get(&self) -> (r: u32)
        ensures
            r == self@,
            r & RESERVED_BITS == 0,
            r & LIVE_BITS == r,
    {
        proof {
            use_type_invariant(self);
            lemma_live_bits(self.value);
        }
        self.value
    }

    /// The raw word. Its reserved bits are zero.
    pub fn value(&self) -> (r: u32)
        ensures
            r == self@,
            r & RESERVED_BITS == 0,
            r & LIVE_BITS == r,
    {
        self.get()
    }

    /// The raw word. Its reserved bits are zero.
    pub fn into_bits(self) -> (r: u32)
        ensures
            r == self@,
            r & RESERVED_BITS == 0,
            r & LIVE_BITS == r,
    {
        self.get()
    }

    /// Rewrites every bit that exists; the reserved bits of `value` are
    /// dropped.
    pub fn set(&mut self, value: u32)
        ensures
            final(self)@ == value & LIVE_BITS,
    {
        proof {
            lemma_live_bits(value);
        }
        self.value = value & LIVE_BITS;
    }

    /// Copies bits 31-28 of `value` into the flags and leaves the rest of
    /// the register as it was.
    pub fn set_flag_bits(&mut self, value: u32)
        ensures
            final(self)@ == (old(self)@ & 0x0FFF_FFFF) | (0xF000_0000 & value),
            final(self)@ >> 28 == value >> 28,
            final(self)@ & 0x0FFF_FFFF == old(self)@ & 0x0FFF_FFFF,
            status_mode(final(self)@) == status_mode(old(self)@),
    {
        proof {
            use_type_invariant(&*self);
            lemma_flag_bits(self.value, value);
        }
        self.value = (self.value & 0x0FFF_FFFF) | (0xF000_0000 & value);
    }

    /// The four flags as a nibble: N, Z, C, V from bit 3 down.
    pub fn flags(&self) -> (r: u8)
        ensures
            r == status_flags(self@),
            r <= 15,
    {
        let n = self.negative();
        let z = self.zero();
        let c = self.carry();
        let v = self.overflow();
        proof {
            lemma_flag_nibble(self.value, n, z, c, v);
        }
        (if n { 8u8 } else { 0u8 }) | (if z { 4u8 } else { 0u8 }) | (if c { 2u8 } else { 0u8 })
            | (if v { 1u8 } else { 0u8 })
    }

    /// Writes the four flags from the low nibble of `value` (N, Z, C, V
    /// from bit 3 down) and leaves the rest of the register as it was; the
    /// high nibble of `value` is ignored.
    pub fn set_flags(&mut self, value: u8)
        ensures
            final(self)@ == with_status_flags(old(self)@, value),
            status_flags(final(self)@) == value & 0xF,
            final(self)@ & 0x0FFF_FFFF == old(self)@ & 0x0FFF_FFFF,
            status_mode(final(self)@) == status_mode(old(self)@),
    {
        proof {
            lemma_set_flag_nibble(self.value, value);
        }
        self.set_negative(value & 0b1000 != 0);
        self.set_zero(value & 0b0100 != 0);
        self.set_carry((value & 0b0010) != 0);
        self.set_overflow(value & 0b0001 != 0);
    }

    fn bit(&self, pos: usize) -> (r: bool)
        requires
            pos < 32,
        ensures
            r == bit_is_set(self@, pos as u32),
    {
        test_bit(self.value, pos)
    }

    fn set_bit(&mut self, pos: usize, status: bool)
        requires
            pos < 8 || 28 <= pos < 32,
        ensures
            final(self)@ == with_bit(old(self)@, pos as u32, status),
            pos >= 5 ==> status_mode(final(self)@) == status_mode(old(self)@),
    {
        proof {
            use_type_invariant(&*self);
            assert(RESERVED_BITS & (1u32 << (pos as u32)) == 0 && (pos >= 5 ==> 0x1Fu32 & (1u32 << (
            pos as u32)) == 0)) by (bit_vector)
                requires
                    pos < 8 || 28 <= pos < 32,
            ;
            crate::bitfield::lemma_with_bit_keeps(self.value, pos as u32, status, RESERVED_BITS);
            if pos >= 5 {
                crate::bitfield::lemma_with_bit_keeps(self.value, pos as u32, status, 0x1F);
            }
        }
        let mut value = self.value;
        assign_bit(&mut value, pos, status);
        self.value = value;
    }

    /// The negative flag.
    pub fn n_flag(&self) -> (r: bool)
        ensures
            r == bit_is_set(self@, NEGATIVE_BIT),
    {
        self.bit(31)
    }

    /// Writes the negative flag and nothing else.
    pub fn set_n_flag(&mut self, status: bool)
        ensures
            final(self)@ == with_bit(old(self)@, NEGATIVE_BIT, status),
            status_mode(final(self)@) == status_mode(old(self)@),
    {
        self.set_bit(31, status);
    }

    /// The zero flag.
    pub fn z_flag(&self) -> (r: bool)
        ensures
            r == bit_is_set(self@, ZERO_BIT),
    {
        self.bit(30)
    }

    /// Writes the zero flag and nothing else.
    pub fn set_z_flag(&mut self, status: bool)
        ensures
            final(self)@ == with_bit(old(self)@, ZERO_BIT, status),
            status_mode(final(self)@) == status_mode(old(self)@),
    {
        self.set_bit(30, status);
    }

    /// The carry flag.
    pub fn c_flag(&self) -> (r: bool)
        ensures
            r == bit_is_set(self@, CARRY_BIT),
    {
        self.bit(29)
    }

    /// Writes the carry flag and nothing else.
    pub fn set_c_flag(&mut self, status: bool)
        ensures
            final(self)@ == with_bit(old(self)@, CARRY_BIT, status),
            status_mode(final(self)@) == status_mode(old(self)@),
    {
        self.set_bit(29, status);
    }

    /// The overflow flag.
    pub fn v_flag(&self) -> (r: bool)
        ensures
            r == bit_is_set(self@, OVERFLOW_BIT),
    {
        self.bit(28)
    }

    /// Writes the overflow flag and nothing else.
    pub fn set_v_flag(&mut self, status: bool)
        ensures
            final(self)@ == with_bit(old(self)@, OVERFLOW_BIT, status),
            status_mode(final(self)@) == status_mode(old(self)@),
    {
        self.set_bit(28, status);
    }

    /// The negative flag.
    pub fn negative(&self) -> (r: bool)
        ensures
            r == bit_is_set(self@, NEGATIVE_BIT),
    {
        self.bit(31)
    }

    /// Writes the negative flag and nothing else.
    pub fn set_negative(&mut self, status: bool)
        ensures
            final(self)@ == with_bit(old(self)@, NEGATIVE_BIT, status),
            status_mode(final(self)@) == status_mode(old(self)@),
    {
        self.set_bit(31, status);
    }

    /// The zero flag.
    pub fn zero(&self) -> (r: bool)
        ensures
            r == bit_is_set(self@, ZERO_BIT),
    {
        self.bit(30)
    }

    /// Writes the zero flag and nothing else.
    pub fn set_zero(&mut self, status: bool)
        ensures
            final(self)@ == with_bit(old(self)@, ZERO_BIT, status),
            status_mode(final(self)@) == status_mode(old(self)@),
    {
        self.set_bit(30, status);
    }

    /// The carry flag.
    pub fn carry(&self) -> (r: bool)
        ensures
            r == bit_is_set(self@, CARRY_BIT),
    {
        self.bit(29)
    }

    /// Writes the carry flag and nothing else.
    pub fn set_carry(&mut self, status: bool)
        ensures
            final(self)@ == with_bit(old(self)@, CARRY_BIT, status),
            status_mode(final(self)@) == status_mode(old(self)@),
    {
        self.set_bit(29, status);
    }

    /// The overflow flag.
    pub fn overflow(&self) -> (r: bool)
        ensures
            r == bit_is_set(self@, OVERFLOW_BIT),
    {
        self.bit(28)
    }

    /// Writes the overflow flag and nothing else.
    pub fn set_overflow(&mut self, status: bool)
        ensures
            final(self)@ == with_bit(old(self)@, OVERFLOW_BIT, status),
            status_mode(final(self)@) == status_mode(old(self)@),
    {
        self.set_bit(28, status);
    }

    /// Whether ordinary interrupts are masked.
    pub fn irq_disable(&self) -> (r: bool)
        ensures
            r == bit_is_set(self@, IRQ_DISABLE_BIT),
    {
        self.bit(7)
    }

    /// Writes the mask of ordinary interrupts and nothing else.
    pub fn set_irq_disable(&mut self, status: bool)
        ensures
            final(self)@ == with_bit(old(self)@, IRQ_DISABLE_BIT, status),
            status_mode(final(self)@) == status_mode(old(self)@),
    {
        self.set_bit(7, status);
    }

    /// Whether fast interrupts are masked.
    pub fn fiq_disable(&self) -> (r: bool)
        ensures
            r == bit_is_set(self@, FIQ_DISABLE_BIT),
    {
        self.bit(6)
    }

    /// Writes the mask of fast interrupts and nothing else.
    pub fn set_fiq_disable(&mut self, status: bool)
        ensures
            final(self)@ == with_bit(old(self)@, FIQ_DISABLE_BIT, status),
            status_mode(final(self)@) == status_mode(old(self)@),
    {
        self.set_bit(6, status);
    }

    /// The execution state.
    pub fn state(&self) -> (r: CpuState)
        ensures
            r == status_state(self@),
    {
        if self.bit(5) {
            CpuState::Thumb
        } else {
            CpuState::Arm
        }
    }

    /// Writes the execution-state bit and nothing else.
    pub fn set_state(&mut self, state: CpuState)
        ensures
            final(self)@ == with_bit(old(self)@, STATE_BIT, state == CpuState::Thumb),
            status_state(final(self)@) == state,
            status_mode(final(self)@) == status_mode(old(self)@),
    {
        proof {
            crate::bitfield::lemma_with_bit_reads(self.value, 5, state == CpuState::Thumb, 5);
        }
        match state {
            CpuState::Arm => self.set_bit(5, false),
            CpuState::Thumb => self.set_bit(5, true),
        }
    }

    /// The mode, or `InvalidMode` where the mode field holds none of the
    /// seven legal patterns.
    pub fn mode(&self) -> (r: Result<CpuMode, InvalidMode>)
        ensures
            r == match status_mode(self@) {
                Some(mode) => Ok::<CpuMode, InvalidMode>(mode),
                None => Err::<CpuMode, InvalidMode>(InvalidMode),
            },
    {
        proof {
            lemma_mode_field(self.value, 0);
        }
        let field = extract_range(self.value, 0, 5);
        CpuMode::from_bits(field as u8)
    }

    /// Writes the mode field and nothing else.
    pub fn set_mode(&mut self, mode: CpuMode)
        ensures
            final(self)@ == with_status_mode(old(self)@, mode),
            status_mode(final(self)@) == Some(mode),
    {
        let field = mode.into_bits() as u32;
        proof {
            use_type_invariant(&*self);
            lemma_mode_field(self.value, field);
        }
        let mut value = self.value;
        assign_range(&mut value, 0, 5, field);
        self.value = value;
    }
}

} // verus!
