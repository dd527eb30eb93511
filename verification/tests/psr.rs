use arm7tdmi::psr::ProgramStatusRegister;
use arm7tdmi::{CpuMode, CpuState, InvalidMode};

#[test]
fn get_psr() {
    let psr = ProgramStatusRegister::new(0xFFFFFFFF);
    assert_eq!(psr.get(), 0xF00000FF)
}

#[test]
fn set_psr() {
    let mut psr = ProgramStatusRegister::new(0xFFFFFFFF);
    psr.set(0xEFFFFFEE);
    assert_eq!(psr.get(), 0xE00000EE);
}

#[test]
fn set_psr_flags() {
    let mut psr = ProgramStatusRegister::new(0xFFFFFF11);
    psr.set_flag_bits(0xEFFF4FEE);
    assert_eq!(psr.get(), 0xE0000011);

    psr.set_flag_bits(0x01FF); // has leading zeroes, equivalent to setting flags to zero
    assert_eq!(psr.get(), 0x00000011);
}

#[test]
fn get_psr_n_flag() {
    let psr = ProgramStatusRegister::new(0xFFFFFFFF);
    assert_eq!(psr.n_flag(), true)
}

#[test]
fn set_psr_n_flag() {
    let mut psr = ProgramStatusRegister::new(0xFFFFFFFF);
    psr.set_n_flag(false);
    assert_eq!(psr.n_flag(), false)
}

#[test]
fn get_psr_z_flag() {
    let psr = ProgramStatusRegister::new(0xFFFFFFFF);
    assert_eq!(psr.z_flag(), true)
}

#[test]
fn set_psr_z_flag() {
    let mut psr = ProgramStatusRegister::new(0xFFFFFFFF);
    psr.set_z_flag(false);
    assert_eq!(psr.z_flag(), false)
}

#[test]
fn get_psr_c_flag() {
    let psr = ProgramStatusRegister::new(0xFFFFFFFF);
    assert_eq!(psr.c_flag(), true)
}

#[test]
fn set_psr_c_flag() {
    let mut psr = ProgramStatusRegister::new(0xFFFFFFFF);
    psr.set_c_flag(false);
    assert_eq!(psr.c_flag(), false)
}

#[test]
fn get_psr_v_flag() {
    let psr = ProgramStatusRegister::new(0xFFFFFFFF);
    assert_eq!(psr.v_flag(), true)
}

#[test]
fn set_psr_v_flag() {
    let mut psr = ProgramStatusRegister::new(0xFFFFFFFF);
    psr.set_v_flag(false);
    assert_eq!(psr.v_flag(), false)
}

#[test]
fn get_psr_irq_disable() {
    let psr = ProgramStatusRegister::new(0xFFFFFFFF);
    assert_eq!(psr.irq_disable(), true)
}

#[test]
fn set_psr_irq_disable() {
    let mut psr = ProgramStatusRegister::new(0xFFFFFFFF);
    psr.set_irq_disable(false);
    assert_eq!(psr.irq_disable(), false)
}

#[test]
fn get_psr_fiq_disable() {
    let psr = ProgramStatusRegister::new(0xFFFFFFFF);
    assert_eq!(psr.fiq_disable(), true)
}

#[test]
fn set_psr_fiq_disable() {
    let mut psr = ProgramStatusRegister::new(0xFFFFFFFF);
    psr.set_fiq_disable(false);
    assert_eq!(psr.fiq_disable(), false)
}

#[test]
fn get_psr_state() {
    let psr = ProgramStatusRegister::new(0xFFFFFFFF);
    assert_eq!(psr.state(), CpuState::Thumb)
}

#[test]
fn set_psr_state() {
    let mut psr = ProgramStatusRegister::new(0xFFFFFFFF);
    psr.set_state(CpuState::Arm);
    assert_eq!(psr.state(), CpuState::Arm)
}

#[test]
fn get_psr_mode() {
    let psr = ProgramStatusRegister::new(0xFFFFFFFF);
    assert_eq!(psr.mode(), Ok(CpuMode::System))
}

#[test]
fn set_psr_mode() {
    let mut psr = ProgramStatusRegister::new(0xFFFFFFFF);
    psr.set_mode(CpuMode::User);
    assert_eq!(psr.mode(), Ok(CpuMode::User));

    psr.set_mode(CpuMode::Fiq);
    assert_eq!(psr.mode(), Ok(CpuMode::Fiq));

    psr.set_mode(CpuMode::Irq);
    assert_eq!(psr.mode(), Ok(CpuMode::Irq));

    psr.set_mode(CpuMode::Supervisor);
    assert_eq!(psr.mode(), Ok(CpuMode::Supervisor));

    psr.set_mode(CpuMode::Abort);
    assert_eq!(psr.mode(), Ok(CpuMode::Abort));

    psr.set_mode(CpuMode::Undefined);
    assert_eq!(psr.mode(), Ok(CpuMode::Undefined));
}

#[test]
fn from_bits_psr() {
    let psr = ProgramStatusRegister::from_bits(0xFFFFFFFF);
    assert_eq!(psr.into_bits(), 0xF00000FF)
}

#[test]
fn psr_set_psr_flags() {
    let mut psr = ProgramStatusRegister::from_bits(0xFFFFFF11);
    psr.set_flags(0xE);
    assert_eq!(psr.into_bits(), 0xE0000011);
    assert_eq!(psr.flags(), 0xE);

    psr.set_flags(0x0);
    assert_eq!(psr.into_bits(), 0x00000011);
    assert_eq!(psr.flags(), 0x0);
}

#[test]
fn get_psr_negative() {
    let psr = ProgramStatusRegister::from_bits(0xFFFFFFFF);
    assert_eq!(psr.negative(), true)
}

#[test]
fn set_psr_negative() {
    let mut psr = ProgramStatusRegister::from_bits(0xFFFFFFFF);
    psr.set_negative(false);
    assert_eq!(psr.negative(), false)
}

#[test]
fn get_psr_zero() {
    let psr = ProgramStatusRegister::from_bits(0xFFFFFFFF);
    assert_eq!(psr.zero(), true)
}

#[test]
fn set_psr_zero() {
    let mut psr = ProgramStatusRegister::from_bits(0xFFFFFFFF);
    psr.set_zero(false);
    assert_eq!(psr.zero(), false)
}

#[test]
fn get_psr_carry() {
    let psr = ProgramStatusRegister::from_bits(0xFFFFFFFF);
    assert_eq!(psr.carry(), true)
}

#[test]
fn set_psr_carry() {
    let mut psr = ProgramStatusRegister::from_bits(0xFFFFFFFF);
    psr.set_carry(false);
    assert_eq!(psr.carry(), false)
}

#[test]
fn get_psr_overflow() {
    let psr = ProgramStatusRegister::from_bits(0xFFFFFFFF);
    assert_eq!(psr.overflow(), true)
}

#[test]
fn set_psr_overflow() {
    let mut psr = ProgramStatusRegister::from_bits(0xFFFFFFFF);
    psr.set_overflow(false);
    assert_eq!(psr.overflow(), false)
}

#[test]
fn psr_get_psr_irq_disable() {
    let psr = ProgramStatusRegister::from_bits(0xFFFFFFFF);
    assert_eq!(psr.irq_disable(), true)
}

#[test]
fn psr_set_psr_irq_disable() {
    let mut psr = ProgramStatusRegister::from_bits(0xFFFFFFFF);
    psr.set_irq_disable(false);
    assert_eq!(psr.irq_disable(), false)
}

#[test]
fn psr_get_psr_fiq_disable() {
    let psr = ProgramStatusRegister::from_bits(0xFFFFFFFF);
    assert_eq!(psr.fiq_disable(), true)
}

#[test]
fn psr_set_psr_fiq_disable() {
    let mut psr = ProgramStatusRegister::from_bits(0xFFFFFFFF);
    psr.set_fiq_disable(false);
    assert_eq!(psr.fiq_disable(), false)
}

#[test]
fn psr_get_psr_state() {
    let psr = ProgramStatusRegister::from_bits(0xFFFFFFFF);
    assert_eq!(psr.state(), CpuState::Thumb)
}

#[test]
fn psr_set_psr_state() {
    let mut psr = ProgramStatusRegister::from_bits(0xFFFFFFFF);
    psr.set_state(CpuState::Arm);
    assert_eq!(psr.state(), CpuState::Arm)
}

#[test]
fn psr_get_psr_mode() {
    let psr = ProgramStatusRegister::from_bits(0xFFFFFFFF);
    assert_eq!(psr.mode(), Ok(CpuMode::System))
}

#[test]
fn psr_set_psr_mode() {
    let mut psr = ProgramStatusRegister::from_bits(0xFFFFFFFF);
    psr.set_mode(CpuMode::User);
    assert_eq!(psr.mode(), Ok(CpuMode::User));

    psr.set_mode(CpuMode::Fiq);
    assert_eq!(psr.mode(), Ok(CpuMode::Fiq));

    psr.set_mode(CpuMode::Irq);
    assert_eq!(psr.mode(), Ok(CpuMode::Irq));

    psr.set_mode(CpuMode::Supervisor);
    assert_eq!(psr.mode(), Ok(CpuMode::Supervisor));

    psr.set_mode(CpuMode::Abort);
    assert_eq!(psr.mode(), Ok(CpuMode::Abort));

    psr.set_mode(CpuMode::Undefined);
    assert_eq!(psr.mode(), Ok(CpuMode::Undefined));
}

#[test]
fn get_psr_mode_invalid() {
    let psr = ProgramStatusRegister::new(0xFFFFFF15);
    assert_eq!(psr.mode(), Err(InvalidMode));
    let psr = ProgramStatusRegister::from_bits(0x00000000);
    assert_eq!(psr.mode(), Err(InvalidMode));
}

#[test]
fn value_masks_reserved_bits() {
    assert_eq!(ProgramStatusRegister::from_bits(0xFFFFFFFF).value(), 0xF00000FF);
    assert_eq!(ProgramStatusRegister::from_bits(0x0FFFFF00).value(), 0);
    let mut psr = ProgramStatusRegister::new(0);
    psr.set(0x0FFFFF00);
    assert_eq!(psr.get(), 0);
    assert_eq!(psr.into_bits(), 0);
}

#[test]
fn flags_round_trip_for_every_nibble() {
    for word in [0u32, 0xFFFFFFFF, 0x6000001F, 0x900000D3] {
        for nibble in 0u8..16 {
            let mut psr = ProgramStatusRegister::from_bits(word);
            let rest = psr.value() & 0x0FFFFFFF;
            psr.set_flags(nibble);
            assert_eq!(psr.flags(), nibble);
            assert_eq!(psr.value(), rest | ((nibble as u32) << 28));
        }
    }
}

#[test]
fn flags_ignore_what_stands_above_the_nibble() {
    for high in [0x10u8, 0x80, 0xF0, 0xA0] {
        for nibble in 0u8..16 {
            let mut masked = ProgramStatusRegister::from_bits(0x1F);
            masked.set_flags(nibble);
            let mut raw = ProgramStatusRegister::from_bits(0x1F);
            raw.set_flags(high | nibble);
            assert_eq!(raw.value(), masked.value());
            assert_eq!(raw.flags(), nibble);
        }
    }
}

#[test]
fn flag_bits_come_from_the_top_of_a_word() {
    let mut psr = ProgramStatusRegister::new(0x000000D3);
    psr.set_flag_bits(0xA123_4567);
    assert_eq!(psr.get(), 0xA00000D3);
    assert_eq!(psr.flags(), 0xA);
    assert!(psr.n_flag());
    assert!(!psr.z_flag());
    assert!(psr.c_flag());
    assert!(!psr.v_flag());
}

#[test]
fn each_flag_has_its_own_bit() {
    let mut psr = ProgramStatusRegister::new(0x10);
    psr.set_n_flag(true);
    assert_eq!(psr.get(), 0x80000010);
    psr.set_n_flag(false);
    psr.set_z_flag(true);
    assert_eq!(psr.get(), 0x40000010);
    psr.set_z_flag(false);
    psr.set_c_flag(true);
    assert_eq!(psr.get(), 0x20000010);
    psr.set_c_flag(false);
    psr.set_v_flag(true);
    assert_eq!(psr.get(), 0x10000010);
    psr.set_v_flag(false);
    psr.set_irq_disable(true);
    assert_eq!(psr.get(), 0x00000090);
    psr.set_irq_disable(false);
    psr.set_fiq_disable(true);
    assert_eq!(psr.get(), 0x00000050);
    psr.set_fiq_disable(false);
    psr.set_state(CpuState::Thumb);
    assert_eq!(psr.get(), 0x00000030);
    psr.set_state(CpuState::Arm);
    assert_eq!(psr.get(), 0x00000010);
}

#[test]
fn set_mode_writes_the_pattern_and_nothing_else() {
    let cases = [
        (CpuMode::User, 0x10u32),
        (CpuMode::Fiq, 0x11),
        (CpuMode::Irq, 0x12),
        (CpuMode::Supervisor, 0x13),
        (CpuMode::Abort, 0x17),
        (CpuMode::Undefined, 0x1B),
        (CpuMode::System, 0x1F),
    ];
    for (mode, pattern) in cases {
        let mut psr = ProgramStatusRegister::new(0xF00000E0);
        psr.set_mode(mode);
        assert_eq!(psr.get(), 0xF00000E0 | pattern);
        assert_eq!(psr.mode(), Ok(mode));
        assert_eq!(mode.into_bits() as u32, pattern);
        assert_eq!(CpuMode::from_bits(pattern as u8), Ok(mode));
    }
}

#[test]
fn mode_patterns_outside_the_seven_are_refused() {
    let legal = [0x10u8, 0x11, 0x12, 0x13, 0x17, 0x1B, 0x1F];
    for bits in 0u8..=255 {
        assert_eq!(CpuMode::from_bits(bits).is_ok(), legal.contains(&bits));
    }
    assert_eq!(CpuMode::from_bits(0), Err(InvalidMode));
}

#[test]
fn state_bit_round_trip() {
    assert_eq!(CpuState::from_bits(0), CpuState::Arm);
    assert_eq!(CpuState::from_bits(1), CpuState::Thumb);
    assert_eq!(CpuState::Arm.into_bits(), 0);
    assert_eq!(CpuState::Thumb.into_bits(), 1);
}
