//! The barrel shifter: the four shift kinds, each giving a shifted value
//! and a carry-out.

use crate::bitfield::bit_is_set;
use vstd::prelude::*;

verus! {

/// The four kinds of shift.
#[derive(Debug, Copy, Clone, PartialEq, Eq, Structural)]
pub enum ShiftType {
    LSL,
    LSR,
    ASR,
    ROR,
}

impl ShiftType {
    /// The member with the given code; codes beyond the last name the last.
    pub open spec fn with_code(value: u32) -> Self {
        if value == 0 {
            ShiftType::LSL
        } else if value == 1 {
            ShiftType::LSR
        } else if value == 2 {
            ShiftType::ASR
        } else {
            ShiftType::ROR
        }
    }

    /// The shift kind's 2-bit code.
    pub open spec fn code(self) -> u32 {
        match self {
            ShiftType::LSL => 0,
            ShiftType::LSR => 1,
            ShiftType::ASR => 2,
            ShiftType::ROR => 3,
        }
    }

    /// Decodes the 2-bit shift-kind field of an instruction.
    pub fn from_bits(value: u32) -> (r: Self)
        requires
            value < 4,
        ensures
            r == Self::with_code(value),
            r.code() == value,
    {
        match value {
            0 => ShiftType::LSL,
            1 => ShiftType::LSR,
            2 => ShiftType::ASR,
            _ => ShiftType::ROR,
        }
    }
}

/// Where a shift amount comes from: the instruction word or a register.
#[derive(Debug, Copy, Clone, PartialEq, Eq, Structural)]
pub enum ShiftBy {
    Immediate,
    Register,
}

impl ShiftBy {
    /// Whether the amount comes from the instruction word.
    pub fn is_immediate(self) -> (r: bool)
        ensures
            r == (self == ShiftBy::Immediate),
    {
        match self {
            ShiftBy::Immediate => true,
            ShiftBy::Register => false,
        }
    }
}

/// A shifted value and the shifter's carry-out.
pub struct Shifted {
    pub value: u32,
    pub carry: bool,
}

/// Logical shift left. Amount 0 changes nothing; amounts 1 to 31 shift,
/// the carry being the last bit pushed out at the top; amount 32 gives 0
/// with bit 0 as carry; larger amounts give 0 and no carry.
pub open spec fn lsl_spec(value: u32, amount: u32, carry: bool) -> Shifted {
    if amount == 0 {
        Shifted { value, carry }
    } else if amount < 32 {
        Shifted { value: value << amount, carry: bit_is_set(value, (32 - amount) as u32) }
    } else if amount == 32 {
        Shifted { value: 0, carry: bit_is_set(value, 0) }
    } else {
        Shifted { value: 0, carry: false }
    }
}

/// Logical shift right. An immediate amount of 0 stands for 32; a register
/// amount of 0 changes nothing; amounts 1 to 31 shift, the carry being the
/// last bit pushed out at the bottom; amount 32 gives 0 with bit 31 as
/// carry; larger amounts give 0 and no carry.
pub open spec fn lsr_spec(value: u32, amount: u32, carry: bool, immediate: bool) -> Shifted {
    if amount == 0 && !immediate {
        Shifted { value, carry }
    } else if amount == 0 || amount == 32 {
        Shifted { value: 0, carry: bit_is_set(value, 31) }
    } else if amount < 32 {
        Shifted { value: value >> amount, carry: bit_is_set(value, (amount - 1) as u32) }
    } else {
        Shifted { value: 0, carry: false }
    }
}

/// `value` shifted right by `amount` (1 to 31) with copies of bit 31 coming
/// in at the top.
pub open spec fn arithmetic_shift(value: u32, amount: u32) -> u32 {
    if bit_is_set(value, 31) {
        (value >> amount) | !(u32::MAX >> amount)
    } else {
        value >> amount
    }
}

/// Arithmetic shift right. An immediate amount of 0 stands for 32; a
/// register amount of 0 changes nothing; amounts 1 to 31 shift with sign
/// fill, the carry being the last bit pushed out at the bottom; amounts of
/// 32 and more fill the word with bit 31, which is the carry as well.
pub open spec fn asr_spec(value: u32, amount: u32, carry: bool, immediate: bool) -> Shifted {
    if amount == 0 && !immediate {
        Shifted { value, carry }
    } else if amount == 0 || amount >= 32 {
        Shifted {
            value: if bit_is_set(value, 31) {
                u32::MAX
            } else {
                0
            },
            carry: bit_is_set(value, 31),
        }
    } else {
        Shifted {
            value: arithmetic_shift(value, amount),
            carry: bit_is_set(value, (amount - 1) as u32),
        }
    }
}

/// `value` rotated right by `amount` (1 to 31).
pub open spec fn rotate_right(value: u32, amount: u32) -> u32 {
    (value >> amount) | (value << ((32 - amount) as u32))
}

/// The extended rotate: the 33-bit quantity made of the carry (on top) and
/// `value` is rotated right by one.
pub open spec fn rotate_right_extended(value: u32, carry: bool) -> u32 {
    if carry {
        (value >> 1) | 0x8000_0000
    } else {
        value >> 1
    }
}

/// Rotate right. An immediate amount of 0 is the extended rotate, whose
/// carry-out is bit 0; a register amount of 0 changes nothing; a non-zero
/// multiple of 32 keeps the value and gives bit 31 as carry; any other
/// amount rotates by its remainder modulo 32, the carry being the last bit
/// that went round.
pub open spec fn ror_spec(value: u32, amount: u32, carry: bool, immediate: bool) -> Shifted {
    if amount == 0 && immediate {
        Shifted { value: rotate_right_extended(value, carry), carry: bit_is_set(value, 0) }
    } else if amount == 0 {
        Shifted { value, carry }
    } else if amount % 32 == 0 {
        Shifted { value, carry: bit_is_set(value, 31) }
    } else {
        Shifted {
            value: rotate_right(value, amount % 32),
            carry: bit_is_set(value, (amount % 32 - 1) as u32),
        }
    }
}

/// The shift of the given kind.
pub open spec fn shift_spec(
    kind: ShiftType,
    value: u32,
    amount: u32,
    carry: bool,
    immediate: bool,
) -> Shifted {
    match kind {
        ShiftType::LSL => lsl_spec(value, amount, carry),
        ShiftType::LSR => lsr_spec(value, amount, carry, immediate),
        ShiftType::ASR => asr_spec(value, amount, carry, immediate),
        ShiftType::ROR => ror_spec(value, amount, carry, immediate),
    }
}

/// The carry-out of a shift by 1 to 31 is a bit of the value that went in; the
/// shifted value has the bits that its kind promises.
pub proof fn lemma_shift_bits(value: u32, amount: u32, carry: bool, k: u32)
    by (bit_vector)
    requires
        0 < amount < 32,
        k < 32,
    ensures
        bit_is_set(value << amount, k) == (k >= amount && bit_is_set(value, (k - amount) as u32)),
        bit_is_set(value >> amount, k) == (k + amount < 32 && bit_is_set(
            value,
            (k + amount) as u32,
        )),
        bit_is_set(arithmetic_shift(value, amount), k) == bit_is_set(
            value,
            if k + amount < 32 {
                (k + amount) as u32
            } else {
                31u32
            },
        ),
        bit_is_set(rotate_right(value, amount), k) == bit_is_set(
            value,
            if k + amount < 32 {
                (k + amount) as u32
            } else {
                (k + amount - 32) as u32
            },
        ),
        bit_is_set(rotate_right_extended(value, carry), k) == (if k == 31 {
            carry
        } else {
            bit_is_set(value, (k + 1) as u32)
        }),
{
}

fn bit(value: u32, pos: u32) -> (r: bool)
    requires
        pos < 32,
    ensures
        r == bit_is_set(value, pos),
{
    value & (1u32 << pos) != 0
}

/// Logical shift left of `value` by `amount`; `carry` comes in as the
/// current carry and leaves as the shifter's carry-out.
pub fn lsl(value: u32, amount: u32, carry: &mut bool) -> (r: u32)
    ensures
        r == lsl_spec(value, amount, *old(carry)).value,
        *final(carry) == lsl_spec(value, amount, *old(carry)).carry,
{
    if amount == 0 {
        value
    } else if amount < 32 {
        *carry = bit(value, 32 - amount);
        value << amount
    } else if amount == 32 {
        *carry = bit(value, 0);
        0
    } else {
        *carry = false;
        0
    }
}

/// Logical shift right of `value` by `amount`; `carry` comes in as the
/// current carry and leaves as the shifter's carry-out. A shift by 32
/// gives 0 and leaves bit 31 of `value` in the carry.
pub fn lsr(value: u32, amount: u32, carry: &mut bool, immediate: bool) -> (r: u32)
    ensures
        r == lsr_spec(value, amount, *old(carry), immediate).value,
        *final(carry) == lsr_spec(value, amount, *old(carry), immediate).carry,
        amount == 32 ==> r == 0 && *final(carry) == bit_is_set(value, 31),
{
    if amount == 0 && !immediate {
        value
    } else if amount == 0 || amount == 32 {
        *carry = bit(value, 31);
        0
    } else if amount < 32 {
        *carry = bit(value, amount - 1);
        value >> amount
    } else {
        *carry = false;
        0
    }
}

/// Arithmetic shift right of `value` by `amount`; `carry` comes in as the
/// current carry and leaves as the shifter's carry-out.
pub fn asr(value: u32, amount: u32, carry: &mut bool, immediate: bool) -> (r: u32)
    ensures
        r == asr_spec(value, amount, *old(carry), immediate).value,
        *final(carry) == asr_spec(value, amount, *old(carry), immediate).carry,
{
    let sign = bit(value, 31);
    if amount == 0 && !immediate {
        value
    } else if amount == 0 || amount >= 32 {
        *carry = sign;
        if sign {
            u32::MAX
        } else {
            0
        }
    } else {
        *carry = bit(value, amount - 1);
        if sign {
            (value >> amount) | !(u32::MAX >> amount)
        } else {
            value >> amount
        }
    }
}

/// Rotation to the right of `value` by `amount`; `carry` comes in as the
/// current carry and leaves as the shifter's carry-out. An immediate
/// amount of 0 is the extended rotate: the old carry becomes bit 31 of the
/// result and bit 0 of `value` becomes the carry.
pub fn ror(value: u32, amount: u32, carry: &mut bool, immediate: bool) -> (r: u32)
    ensures
        r == ror_spec(value, amount, *old(carry), immediate).value,
        *final(carry) == ror_spec(value, amount, *old(carry), immediate).carry,
        amount == 0 && immediate ==> bit_is_set(r, 31) == *old(carry) && *final(carry)
            == bit_is_set(value, 0),
{
    if amount == 0 && immediate {
        proof {
            lemma_shift_bits(value, 1, *carry, 31);
        }
        let carry_in = *carry;
        *carry = bit(value, 0);
        if carry_in {
            (value >> 1) | 0x8000_0000
        } else {
            value >> 1
        }
    } else if amount == 0 {
        value
    } else if amount % 32 == 0 {
        *carry = bit(value, 31);
        value
    } else {
        let by = amount % 32;
        *carry = bit(value, by - 1);
        (value >> by) | (value << (32 - by))
    }
}

/// The shift of the given kind of `value` by `amount`; `carry` comes in as
/// the current carry and leaves as the shifter's carry-out.
pub fn shift(kind: ShiftType, value: u32, amount: u32, carry: &mut bool, immediate: bool) -> (r:
    u32)
    ensures
        r == shift_spec(kind, value, amount, *old(carry), immediate).value,
        *final(carry) == shift_spec(kind, value, amount, *old(carry), immediate).carry,
{
    match kind {
        ShiftType::LSL => lsl(value, amount, carry),
        ShiftType::LSR => lsr(value, amount, carry, immediate),
        ShiftType::ASR => asr(value, amount, carry, immediate),
        ShiftType::ROR => ror(value, amount, carry, immediate),
    }
}

} // verus!
