//! System control: the wait-state control word and the halt state.

use vstd::prelude::*;

verus! {

/// The bits of a wait-state control word that exist: all but bit 13.
pub const WAITSTATE_LIVE_BITS: u16 = 0xDFFF;

/// The field of `width` bits (1 or 2) that begins at bit `lo` of a
/// wait-state control word.
pub open spec fn waitstate_field(word: u16, lo: u16, width: u16) -> u8 {
    if width == 1 {
        ((word >> lo) & 1) as u8
    } else {
        ((word >> lo) & 3) as u8
    }
}

/// The wait-state control word: access timings of the save memory and of
/// the three wait state regions of the cartridge, the PHI terminal clock,
/// the prefetch-buffer switch and the cartridge type. Bit 13 is reserved
/// and always zero.
#[derive(Debug, Copy, Clone, PartialEq, Eq)]
pub struct WaitStateControl {
    value: u16,
}

impl View for WaitStateControl {
    type V = u16;

    closed spec fn view(&self) -> u16 {
        self.value
    }
}

proof fn lemma_waitstate_bits(word: u16)
    by (bit_vector)
    ensures
        (word & 0xDFFFu16) & 0x2000u16 == 0,
        ((word >> 0u16) & 3) <= 3,
        ((word >> 2u16) & 3) <= 3,
        ((word >> 4u16) & 1) <= 1,
        ((word >> 5u16) & 3) <= 3,
        ((word >> 7u16) & 1) <= 1,
        ((word >> 8u16) & 3) <= 3,
        ((word >> 10u16) & 1) <= 1,
        ((word >> 11u16) & 3) <= 3,
{
}

impl WaitStateControl {
    #[verifier::type_invariant]
    spec fn reserved_bit_is_zero(self) -> bool {
        self.value & 0x2000 == 0
    }

    /// A control word from raw bits; the reserved bit is dropped.
    pub fn from_bits(value: u16) -> (r: Self)
        ensures
            r@ == value & WAITSTATE_LIVE_BITS,
    {
        proof {
            lemma_waitstate_bits(value);
        }
        WaitStateControl { value: value & WAITSTATE_LIVE_BITS }
    }

    /// The raw bits. The reserved bit is zero.
    pub fn into_bits(self) -> (r: u16)
        ensures
            r == self@,
            r & 0x2000 == 0,
    {
        proof {
            use_type_invariant(self);
        }
        self.value
    }

    /// Rewrites every bit that exists; the reserved bit is dropped.
    pub fn set_bits(&mut self, value: u16)
        ensures
            final(self)@ == value & WAITSTATE_LIVE_BITS,
    {
        proof {
            lemma_waitstate_bits(value);
        }
        self.value = value & WAITSTATE_LIVE_BITS;
    }

    /// The wait states of the save memory (bits 1-0).
    pub fn sram_wait_control(&self) -> (r: u8)
        ensures
            r == waitstate_field(self@, 0, 2),
            r <= 3,
    {
        proof {
            lemma_waitstate_bits(self.value);
        }
        ((self.value >> 0u16) & 3) as u8
    }

    /// The wait states of a first access in wait state region 0 (bits 3-2).
    pub fn ws0_first_access(&self) -> (r: u8)
        ensures
            r == waitstate_field(self@, 2, 2),
            r <= 3,
    {
        proof {
            lemma_waitstate_bits(self.value);
        }
        ((self.value >> 2u16) & 3) as u8
    }

    /// The wait states of a second access in wait state region 0 (bit 4).
    pub fn ws0_second_access(&self) -> (r: u8)
        ensures
            r == waitstate_field(self@, 4, 1),
            r <= 1,
    {
        proof {
            lemma_waitstate_bits(self.value);
        }
        ((self.value >> 4u16) & 1) as u8
    }

    /// The wait states of a first access in wait state region 1 (bits 6-5).
    pub fn ws1_first_access(&self) -> (r: u8)
        ensures
            r == waitstate_field(self@, 5, 2),
            r <= 3,
    {
        proof {
            lemma_waitstate_bits(self.value);
        }
        ((self.value >> 5u16) & 3) as u8
    }

    /// The wait states of a second access in wait state region 1 (bit 7).
    pub fn ws1_second_access(&self) -> (r: u8)
        ensures
            r == waitstate_field(self@, 7, 1),
            r <= 1,
    {
        proof {
            lemma_waitstate_bits(self.value);
        }
        ((self.value >> 7u16) & 1) as u8
    }

    /// The wait states of a first access in wait state region 2 (bits 9-8).
    pub fn ws2_first_access(&self) -> (r: u8)
        ensures
            r == waitstate_field(self@, 8, 2),
            r <= 3,
    {
        proof {
            lemma_waitstate_bits(self.value);
        }
        ((self.value >> 8u16) & 3) as u8
    }

    /// The wait states of a second access in wait state region 2 (bit 10).
    pub fn ws2_second_access(&self) -> (r: u8)
        ensures
            r == waitstate_field(self@, 10, 1),
            r <= 1,
    {
        proof {
            lemma_waitstate_bits(self.value);
        }
        ((self.value >> 10u16) & 1) as u8
    }

    /// The clock put out on the PHI terminal (bits 12-11).
    pub fn phi_terminal_output(&self) -> (r: u8)
        ensures
            r == waitstate_field(self@, 11, 2),
            r <= 3,
    {
        proof {
            lemma_waitstate_bits(self.value);
        }
        ((self.value >> 11u16) & 3) as u8
    }

    /// Whether the prefetch buffer of the cartridge is on (bit 14).
    pub fn game_pak_prefetch_buffer_enable(&self) -> (r: bool)
        ensures
            r == (self@ & (1u16 << 14u16) != 0),
    {
        self.value & (1u16 << 14u16) != 0
    }

    /// The cartridge type flag (bit 15).
    pub fn game_pak_type_flag(&self) -> (r: bool)
        ensures
            r == (self@ & (1u16 << 15u16) != 0),
    {
        self.value & (1u16 << 15u16) != 0
    }
}

/// Whether the processor runs, waits for an interrupt or has stopped.
#[derive(Debug, Copy, Clone, PartialEq, Eq, Structural)]
pub enum HaltMode {
    Running,
    Halted,
    Stopped,
}

/// The system control registers.
pub struct SystemControl {
    waitstate_control: WaitStateControl,
    halt_mode: HaltMode,
}

/// The system control registers as a mathematical value.
pub struct SystemControlView {
    /// The wait-state control word.
    pub waitstate_control: u16,
    /// The halt state.
    pub halt_mode: HaltMode,
}

impl View for SystemControl {
    type V = SystemControlView;

    closed spec fn view(&self) -> SystemControlView {
        SystemControlView {
            waitstate_control: self.waitstate_control@,
            halt_mode: self.halt_mode,
        }
    }
}

impl SystemControl {
    /// System control after reset: a wait-state control word of zero, and
    /// the processor running.
    pub fn new() -> (r: Self)
        ensures
            r@ == (SystemControlView { waitstate_control: 0, halt_mode: HaltMode::Running }),
    {
        proof {
            assert(0u16 & 0xDFFFu16 == 0) by (bit_vector);
        }
        SystemControl {
            waitstate_control: WaitStateControl::from_bits(0),
            halt_mode: HaltMode::Running,
        }
    }

    /// Rewrites the wait-state control word; its reserved bit is dropped.
    pub fn set_waitstate_control(&mut self, value: u16)
        ensures
            final(self)@ == (SystemControlView {
                waitstate_control: value & WAITSTATE_LIVE_BITS,
                ..old(self)@
            }),
    {
        let mut control = self.waitstate_control;
        control.set_bits(value);
        self.waitstate_control = control;
    }

    /// The wait-state control word.
    pub fn waitstate_control(&self) -> (r: WaitStateControl)
        ensures
            r@ == self@.waitstate_control,
    {
        self.waitstate_control
    }

    /// Sets the halt state.
    pub fn set_halt_mode(&mut self, halt_mode: HaltMode)
        ensures
            final(self)@ == (SystemControlView { halt_mode, ..old(self)@ }),
    {
        self.halt_mode = halt_mode
    }

    /// The halt state.
    pub fn halt_mode(&self) -> (r: HaltMode)
        ensures
            r == self@.halt_mode,
    {
        self.halt_mode
    }
}

} // verus!
