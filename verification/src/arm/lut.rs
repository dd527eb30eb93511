//! Classification of a 32-bit instruction word.

use crate::arm::ArmInstructionKind;
use vstd::prelude::*;

verus! {

/// The kind of an instruction word. The patterns are tried in a fixed
/// order, because some of them overlap, and the first that fits decides;
/// what fits none of them is data processing.
pub open spec fn kind_of(word: u32) -> ArmInstructionKind {
    if word & 0x0FFF_FFF0 == 0x012F_FF10 {
        ArmInstructionKind::BranchAndExchange
    } else if word & 0x0E00_0000 == 0x0800_0000 {
        ArmInstructionKind::BlockDataTransfer
    } else if word & 0x0F00_0000 == 0x0A00_0000 || word & 0x0F00_0000 == 0x0B00_0000 {
        ArmInstructionKind::BranchAndBranchWithLink
    } else if word & 0x0F00_0000 == 0x0F00_0000 {
        ArmInstructionKind::SoftwareInterrupt
    } else if word & 0x0E00_0010 == 0x0600_0010 {
        ArmInstructionKind::Undefined
    } else if word & 0x0C00_0000 == 0x0400_0000 {
        ArmInstructionKind::SingleDataTransfer
    } else if word & 0x0FB0_0FF0 == 0x0100_0090 {
        ArmInstructionKind::SingleDataSwap
    } else if word & 0x0F80_00F0 == 0x0000_0090 {
        ArmInstructionKind::Multiply
    } else if word & 0x0F80_00F0 == 0x0080_0090 {
        ArmInstructionKind::MultiplyLong
    } else if word & 0x0E40_0F90 == 0x0000_0090 {
        ArmInstructionKind::HalfwordAndSignedDataTransfer
    } else if word & 0x0E40_0090 == 0x0040_0090 {
        ArmInstructionKind::HalfwordAndSignedDataTransfer
    } else if word & 0x0FBF_0000 == 0x010F_0000 {
        ArmInstructionKind::PsrTransfer
    } else if word & 0x0DB0_F000 == 0x0120_F000 {
        ArmInstructionKind::PsrTransfer
    } else {
        ArmInstructionKind::DataProcessing
    }
}

/// Whether a word lies in the coprocessor space: bits 27 and 26 set, but
/// not all of bits 27 to 24.
pub open spec fn in_coprocessor_space(word: u32) -> bool {
    word & 0x0C00_0000 == 0x0C00_0000 && word & 0x0F00_0000 != 0x0F00_0000
}

/// Whether a word fits one of the patterns that come before data
/// processing in the order of priority.
pub open spec fn fits_earlier_pattern(word: u32) -> bool {
    ||| word & 0x0FFF_FFF0 == 0x012F_FF10
    ||| word & 0x0E00_0000 == 0x0800_0000
    ||| word & 0x0F00_0000 == 0x0A00_0000
    ||| word & 0x0F00_0000 == 0x0B00_0000
    ||| word & 0x0F00_0000 == 0x0F00_0000
    ||| word & 0x0E00_0010 == 0x0600_0010
    ||| word & 0x0C00_0000 == 0x0400_0000
    ||| word & 0x0FB0_0FF0 == 0x0100_0090
    ||| word & 0x0F80_00F0 == 0x0000_0090
    ||| word & 0x0F80_00F0 == 0x0080_0090
    ||| word & 0x0E40_0F90 == 0x0000_0090
    ||| word & 0x0E40_0090 == 0x0040_0090
    ||| word & 0x0FBF_0000 == 0x010F_0000
    ||| word & 0x0DB0_F000 == 0x0120_F000
}

/// Decoding is total. Every word fits an earlier pattern, or the pattern of
/// data processing (bits 27 and 26 clear), or lies in the coprocessor
/// space; the three are exclusive where the first fails, and a word is
/// data processing exactly when it fits no earlier pattern.
pub proof fn lemma_decode_total(word: u32)
    ensures
        fits_earlier_pattern(word) || word & 0x0C00_0000 == 0 || in_coprocessor_space(word),
        in_coprocessor_space(word) ==> !fits_earlier_pattern(word) && word & 0x0C00_0000 != 0,
        kind_of(word) == ArmInstructionKind::DataProcessing <==> !fits_earlier_pattern(word),
{
    assert((word & 0x0E00_0000u32 == 0x0800_0000u32) || (word & 0x0F00_0000u32 == 0x0A00_0000u32)
        || (word & 0x0F00_0000u32 == 0x0B00_0000u32) || (word & 0x0F00_0000u32 == 0x0F00_0000u32)
        || (word & 0x0C00_0000u32 == 0x0400_0000u32) || (word & 0x0C00_0000u32 == 0) || (word
        & 0x0C00_0000u32 == 0x0C00_0000u32 && word & 0x0F00_0000u32 != 0x0F00_0000u32))
        by (bit_vector);
    assert((word & 0x0C00_0000u32 == 0x0C00_0000u32 && word & 0x0F00_0000u32 != 0x0F00_0000u32)
        ==> !(word & 0x0FFF_FFF0u32 == 0x012F_FF10u32) && !(word & 0x0E00_0000u32
        == 0x0800_0000u32) && !(word & 0x0F00_0000u32 == 0x0A00_0000u32) && !(word
        & 0x0F00_0000u32 == 0x0B00_0000u32) && !(word & 0x0E00_0010u32 == 0x0600_0010u32) && !(
    word & 0x0C00_0000u32 == 0x0400_0000u32) && !(word & 0x0FB0_0FF0u32 == 0x0100_0090u32) && !(
    word & 0x0F80_00F0u32 == 0x0000_0090u32) && !(word & 0x0F80_00F0u32 == 0x0080_0090u32) && !(
    word & 0x0E40_0F90u32 == 0x0000_0090u32) && !(word & 0x0E40_0090u32 == 0x0040_0090u32) && !(
    word & 0x0FBF_0000u32 == 0x010F_0000u32) && !(word & 0x0DB0_F000u32 == 0x0120_F000u32) && word
        & 0x0C00_0000u32 != 0) by (bit_vector);
}

/// The kind of an instruction word.
pub fn classify(word: u32) -> (kind: ArmInstructionKind)
    ensures
        kind == kind_of(word),
{
    if word & 0x0FFF_FFF0 == 0x012F_FF10 {
        ArmInstructionKind::BranchAndExchange
    } else if word & 0x0E00_0000 == 0x0800_0000 {
        ArmInstructionKind::BlockDataTransfer
    } else if word & 0x0F00_0000 == 0x0A00_0000 || word & 0x0F00_0000 == 0x0B00_0000 {
        ArmInstructionKind::BranchAndBranchWithLink
    } else if word & 0x0F00_0000 == 0x0F00_0000 {
        ArmInstructionKind::SoftwareInterrupt
    } else if word & 0x0E00_0010 == 0x0600_0010 {
        ArmInstructionKind::Undefined
    } else if word & 0x0C00_0000 == 0x0400_0000 {
        ArmInstructionKind::SingleDataTransfer
    } else if word & 0x0FB0_0FF0 == 0x0100_0090 {
        ArmInstructionKind::SingleDataSwap
    } else if word & 0x0F80_00F0 == 0x0000_0090 {
        ArmInstructionKind::Multiply
    } else if word & 0x0F80_00F0 == 0x0080_0090 {
        ArmInstructionKind::MultiplyLong
    } else if word & 0x0E40_0F90 == 0x0000_0090 {
        ArmInstructionKind::HalfwordAndSignedDataTransfer
    } else if word & 0x0E40_0090 == 0x0040_0090 {
        ArmInstructionKind::HalfwordAndSignedDataTransfer
    } else if word & 0x0FBF_0000 == 0x010F_0000 {
        ArmInstructionKind::PsrTransfer
    } else if word & 0x0DB0_F000 == 0x0120_F000 {
        ArmInstructionKind::PsrTransfer
    } else {
        ArmInstructionKind::DataProcessing
    }
}

} // verus!
