use vstd::prelude::*;

use super::thumb::{decode_thumb, thumb_refill_pipeline, written_pc};
use super::{
    add_spec, add_with_carry, advanced_pc, arithmetic_shift_right, barrel_shift, condition_holds, rotate_right,
    rotate_right_spec, shift_spec, shifter, spec_condition, spec_register, register_index, sub_spec, sub_with_borrow, sval,
    wadd, wsub, with_flags, bank_of, mode_bits, spsr_bank_of, Cpu, CpuMode, ExceptionType, InstructionCondition, InstructionSet, PcCalculation, Register,
    ShiftType, CARRY_FLAG_BIT, OVERFLOW_FLAG_BIT, SIGN_FLAG_BIT, STATE_BIT, ZERO_FLAG_BIT,
};
use crate::bits::{
    bit_of_u16, bit_of_u32, field_u32, get_bit_u16, get_bit_u32, get_field_u32, lemma_with_bit_u32, with_bit_u32, with_field_u32,
};
use crate::bus::{bus_cycled, bus_cycles, bus_ran, lemma_words_read_len, lemma_words_read_push, lemma_words_written_none, lemma_words_written_push, Bus};

verus! {

#[derive(Clone, Copy, Debug, PartialEq, Eq, Structural)]
pub enum OffsetModifierType {
    AddToBase,
    SubtractFromBase,
}

#[derive(Clone, Copy, Debug, PartialEq, Eq, Structural)]
pub enum SingleDataMemoryAccessSize {
    Byte,
    HalfWord,
    Word,
    DoubleWord,
}

#[derive(Clone, Copy, Debug, PartialEq, Eq, Structural)]
pub enum SingleDataTransferIndexType {
    PostIndex { non_privileged: bool },
    PreIndex { write_back: bool },
}

#[derive(Clone, Copy, Debug, PartialEq, Eq, Structural)]
pub enum BlockDataTransferIndexType {
    PostIndex,
    PreIndex,
}

#[derive(Clone, Copy, Debug, PartialEq, Eq, Structural)]
pub enum BlockDataTransferType {
    Ldm,
    Stm,
}

#[derive(Clone, Copy, Debug, PartialEq, Eq, Structural)]
pub enum PsrTransferType {
    Mrs,
    Msr,
}

#[derive(Clone, Copy, Debug, PartialEq, Eq, Structural)]
pub enum PsrTransferPsr {
    Cpsr,
    Spsr,
}

#[derive(Clone, Copy, Debug, PartialEq, Eq, Structural)]
pub enum SingleDataTransferOffsetValue {
    Immediate { offset: u32 },
    RegisterImmediate { shift_amount: u32, shift_type: ShiftType, offset_register: Register },
    Register { offset_register: Register },
}

/// The offset of a single data transfer; `sign` set means the offset is
/// subtracted from the base.
#[derive(Clone, Copy, Debug, PartialEq, Eq, Structural)]
pub struct SingleDataTransferOffsetInfo {
    pub value: SingleDataTransferOffsetValue,
    pub sign: bool,
}

#[derive(Clone, Copy, Debug, PartialEq, Eq, Structural)]
pub enum ArmRegisterOrImmediate {
    Immediate(u32),
    Register(Register),
}

#[derive(Clone, Copy, Debug, PartialEq, Eq, Structural)]
pub enum AluSecondOperandInfo {
    Register { shift_info: ArmRegisterOrImmediate, shift_type: ShiftType, register: Register },
    Immediate { base: u32, shift: u32 },
}

#[derive(Clone, Copy, Debug, PartialEq, Eq, Structural)]
pub enum SwpAccessSize {
    Word,
    Byte,
}

#[derive(Clone, Copy, Debug, PartialEq, Eq, Structural)]
pub enum AluOperation {
    And,
    Eor,
    Sub,
    Rsb,
    Add,
    Adc,
    Sbc,
    Rsc,
    Tst,
    Teq,
    Cmp,
    Cmn,
    Orr,
    Mov,
    Bic,
    Mvn,
}

#[derive(Clone, Copy, Debug, PartialEq, Eq, Structural)]
pub enum MultiplyOperation {
    Mul,
    Mla,
    Umaal,
    Umull,
    Umlal,
    Smull,
    Smlal,
}

#[derive(Clone, Copy, Debug, PartialEq, Eq, Structural)]
pub enum MsrSourceInfo {
    Register(Register),
    Immediate { value: u32 },
}

/// A decoded ARM instruction. Register lists are bit sets: bit `i` set means
/// register `i` takes part.
#[derive(Clone, Copy, Debug, PartialEq, Eq, Structural)]
pub enum ArmInstructionType {
    B { offset: i32 },
    Bl { offset: i32 },
    Bx { operand: Register },
    Blx { operand: Register },
    Ldr {
        index_type: SingleDataTransferIndexType,
        base_register: Register,
        destination_register: Register,
        offset_info: SingleDataTransferOffsetInfo,
        access_size: SingleDataMemoryAccessSize,
        sign_extend: bool,
    },
    Str {
        index_type: SingleDataTransferIndexType,
        base_register: Register,
        source_register: Register,
        offset_info: SingleDataTransferOffsetInfo,
        access_size: SingleDataMemoryAccessSize,
    },
    Ldm {
        index_type: BlockDataTransferIndexType,
        offset_modifier: OffsetModifierType,
        write_back: bool,
        base_register: Register,
        register_list: u16,
        force_user_mode: bool,
    },
    Stm {
        index_type: BlockDataTransferIndexType,
        offset_modifier: OffsetModifierType,
        write_back: bool,
        base_register: Register,
        register_list: u16,
        force_user_mode: bool,
    },
    Mrs { source_psr: PsrTransferPsr, destination_register: Register },
    Msr {
        destination_psr: PsrTransferPsr,
        write_flags_field: bool,
        write_status_field: bool,
        write_extension_field: bool,
        write_control_field: bool,
        source_info: MsrSourceInfo,
    },
    Alu {
        operation: AluOperation,
        set_conditions: bool,
        first_operand: Register,
        second_operand: AluSecondOperandInfo,
        destination_operand: Register,
    },
    Mul {
        operation: MultiplyOperation,
        set_conditions: bool,
        destination_register: Register,
        accumulate_register: Register,
        operand_register_rs: Register,
        operand_register_rm: Register,
    },
    Swi { comment: u32 },
    Swp {
        access_size: SwpAccessSize,
        base_register: Register,
        dest_register: Register,
        source_register: Register,
    },
    Invalid { opcode: u32 },
}

#[derive(Clone, Copy, Debug, PartialEq, Eq, Structural)]
pub struct ArmInstruction {
    pub instruction_type: ArmInstructionType,
    pub condition: InstructionCondition,
}

impl ArmInstruction {
    pub fn instruction_type(&self) -> (r: ArmInstructionType)
        ensures
            r == self.instruction_type,
    {
        self.instruction_type
    }

    pub fn instruction_condition(&self) -> (r: InstructionCondition)
        ensures
            r == self.condition,
    {
        self.condition
    }
}

// ---------------------------------------------------------------------------
// Field extraction

/// Bit `index` of the opcode.
pub open spec fn obit(opcode: u32, index: u32) -> bool {
    (opcode >> index) & 1u32 == 1u32
}

/// The register whose 4-bit number starts at bit `offset` of the opcode.
pub open spec fn reg_at(opcode: u32, offset: u32) -> Register {
    spec_register(field_u32(opcode, offset, 4) as int)
}

fn bit(opcode: u32, index: u32) -> (r: bool)
    requires
        index < 32,
    ensures
        r == obit(opcode, index),
{
    (opcode >> index) & 1u32 == 1u32
}

proof fn lemma_field_bound(value: u32, low: u32, width: u32)
    requires
        low < 32,
        0 < width < 32,
    ensures
        field_u32(value, low, width) < (1u32 << width),
{
    let v = value;
    assert((v >> low) & (((1u32 << width) - 1u32) as u32) < (1u32 << width)) by (bit_vector)
        requires
            low < 32,
            0 < width < 32,
    ;
}

fn field(opcode: u32, low: u32, width: u32) -> (r: u32)
    requires
        low < 32,
        0 < width < 32,
    ensures
        r == field_u32(opcode, low, width),
        r < (1u32 << width),
{
    proof {
        lemma_field_bound(opcode, low, width);
    }
    get_field_u32(opcode, low, width)
}

fn get_register_at_offset(opcode: u32, offset: u32) -> (r: Register)
    requires
        offset <= 28,
    ensures
        r == reg_at(opcode, offset),
{
    let index = field(opcode, offset, 4);
    assert(1u32 << 4u32 == 16) by {
            crate::bits::lemma_bit_constants();
        }
    Register::from_index(index)
}

pub open spec fn spec_shift_type(opcode: u32) -> ShiftType {
    let code = field_u32(opcode, 5, 2);
    if code == 0 {
        ShiftType::Lsl
    } else if code == 1 {
        ShiftType::Lsr
    } else if code == 2 {
        ShiftType::Asr
    } else {
        ShiftType::Ror
    }
}

fn get_shift_type(opcode: u32) -> (r: ShiftType)
    ensures
        r == spec_shift_type(opcode),
{
    let code = field(opcode, 5, 2);
    if code == 0 {
        ShiftType::Lsl
    } else if code == 1 {
        ShiftType::Lsr
    } else if code == 2 {
        ShiftType::Asr
    } else {
        ShiftType::Ror
    }
}

pub open spec fn spec_arm_condition(opcode: u32) -> InstructionCondition {
    spec_condition(opcode >> 28u32)
}

fn get_condition(opcode: u32) -> (r: InstructionCondition)
    ensures
        r == spec_arm_condition(opcode),
{
    let code = opcode >> 28u32;
    match code {
        0 => InstructionCondition::Equal,
        1 => InstructionCondition::NotEqual,
        2 => InstructionCondition::UnsignedHigherOrSame,
        3 => InstructionCondition::UnsignedLower,
        4 => InstructionCondition::SignedNegative,
        5 => InstructionCondition::SignedPositiveOrZero,
        6 => InstructionCondition::SignedOverflow,
        7 => InstructionCondition::SignedNoOverflow,
        8 => InstructionCondition::UnsignedHigher,
        9 => InstructionCondition::UnsignedLowerOrSame,
        10 => InstructionCondition::SignedGreaterOrEqual,
        11 => InstructionCondition::SignedLessThan,
        12 => InstructionCondition::SignedGreaterThan,
        13 => InstructionCondition::SignedLessOrEqual,
        14 => InstructionCondition::Always,
        _ => InstructionCondition::Never,
    }
}

// ---------------------------------------------------------------------------
// Decoding, one instruction class at a time. Each `spec_try_*` states which
// opcodes belong to the class and what they decode to.

/// The 24-bit branch offset, sign-extended and scaled by 4.
pub open spec fn branch_offset(opcode: u32) -> i32 {
    let raw = opcode & 0x00FF_FFFFu32;
    let extended = if raw & 0x0080_0000u32 != 0 {
        raw | 0xFF00_0000u32
    } else {
        raw
    };
    (extended << 2u32) as i32
}

pub open spec fn spec_try_branch_basic(opcode: u32) -> Option<ArmInstructionType> {
    if opcode & 0x0E00_0000u32 == 0x0A00_0000u32 {
        if obit(opcode, 24) {
            Some(ArmInstructionType::Bl { offset: branch_offset(opcode) })
        } else {
            Some(ArmInstructionType::B { offset: branch_offset(opcode) })
        }
    } else {
        None
    }
}

fn try_decode_arm_branch_basic(opcode: u32) -> (r: Option<ArmInstructionType>)
    ensures
        r == spec_try_branch_basic(opcode),
{
    if opcode & 0x0E00_0000u32 == 0x0A00_0000u32 {
        let raw = opcode & 0x00FF_FFFFu32;
        let extended = if raw & 0x0080_0000u32 != 0 {
            raw | 0xFF00_0000u32
        } else {
            raw
        };
        let offset = (extended << 2u32) as i32;
        if bit(opcode, 24) {
            Some(ArmInstructionType::Bl { offset })
        } else {
            Some(ArmInstructionType::B { offset })
        }
    } else {
        None
    }
}

/// BX/BLX by register; other values of bits 4-7 are not this class.
pub open spec fn spec_try_branch_exchange(opcode: u32) -> Option<ArmInstructionType> {
    if opcode & 0x0FFF_FF00u32 == 0x012F_FF00u32 {
        let kind = field_u32(opcode, 4, 4);
        if kind == 1 {
            Some(ArmInstructionType::Bx { operand: reg_at(opcode, 0) })
        } else if kind == 3 {
            Some(ArmInstructionType::Blx { operand: reg_at(opcode, 0) })
        } else {
            None
        }
    } else {
        None
    }
}

fn try_decode_arm_branch_exchange(opcode: u32) -> (r: Option<ArmInstructionType>)
    ensures
        r == spec_try_branch_exchange(opcode),
{
    if opcode & 0x0FFF_FF00u32 == 0x012F_FF00u32 {
        let operand = get_register_at_offset(opcode, 0);
        let kind = field(opcode, 4, 4);
        if kind == 1 {
            Some(ArmInstructionType::Bx { operand })
        } else if kind == 3 {
            Some(ArmInstructionType::Blx { operand })
        } else {
            None
        }
    } else {
        None
    }
}

pub open spec fn spec_try_swi(opcode: u32) -> Option<ArmInstructionType> {
    if field_u32(opcode, 24, 4) != 0xF {
        None
    } else {
        Some(ArmInstructionType::Swi { comment: field_u32(opcode, 0, 24) })
    }
}

fn try_decode_arm_swi(opcode: u32) -> (r: Option<ArmInstructionType>)
    ensures
        r == spec_try_swi(opcode),
{
    if field(opcode, 24, 4) != 0xF {
        return None;
    }
    let comment = field(opcode, 0, 24);
    Some(ArmInstructionType::Swi { comment })
}

pub open spec fn spec_alu_operation(code: u32) -> AluOperation {
    if code == 0x0 {
        AluOperation::And
    } else if code == 0x1 {
        AluOperation::Eor
    } else if code == 0x2 {
        AluOperation::Sub
    } else if code == 0x3 {
        AluOperation::Rsb
    } else if code == 0x4 {
        AluOperation::Add
    } else if code == 0x5 {
        AluOperation::Adc
    } else if code == 0x6 {
        AluOperation::Sbc
    } else if code == 0x7 {
        AluOperation::Rsc
    } else if code == 0x8 {
        AluOperation::Tst
    } else if code == 0x9 {
        AluOperation::Teq
    } else if code == 0xA {
        AluOperation::Cmp
    } else if code == 0xB {
        AluOperation::Cmn
    } else if code == 0xC {
        AluOperation::Orr
    } else if code == 0xD {
        AluOperation::Mov
    } else if code == 0xE {
        AluOperation::Bic
    } else {
        AluOperation::Mvn
    }
}

fn lookup_alu_opcode(code: u32) -> (r: AluOperation)
    ensures
        r == spec_alu_operation(code),
{
    match code {
        0x0 => AluOperation::And,
        0x1 => AluOperation::Eor,
        0x2 => AluOperation::Sub,
        0x3 => AluOperation::Rsb,
        0x4 => AluOperation::Add,
        0x5 => AluOperation::Adc,
        0x6 => AluOperation::Sbc,
        0x7 => AluOperation::Rsc,
        0x8 => AluOperation::Tst,
        0x9 => AluOperation::Teq,
        0xA => AluOperation::Cmp,
        0xB => AluOperation::Cmn,
        0xC => AluOperation::Orr,
        0xD => AluOperation::Mov,
        0xE => AluOperation::Bic,
        _ => AluOperation::Mvn,
    }
}

/// The second operand of a data-processing opcode (`None` when bit 7 must be
/// zero for a register-specified shift and is not).
pub open spec fn spec_alu_second_operand(opcode: u32) -> Option<AluSecondOperandInfo> {
    if obit(opcode, 25) {
        Some(
            AluSecondOperandInfo::Immediate {
                base: field_u32(opcode, 0, 8),
                shift: (field_u32(opcode, 8, 4) * 2) as u32,
            },
        )
    } else if obit(opcode, 4) {
        if obit(opcode, 7) {
            None
        } else {
            Some(
                AluSecondOperandInfo::Register {
                    register: reg_at(opcode, 0),
                    shift_info: ArmRegisterOrImmediate::Register(reg_at(opcode, 8)),
                    shift_type: spec_shift_type(opcode),
                },
            )
        }
    } else {
        Some(
            AluSecondOperandInfo::Register {
                register: reg_at(opcode, 0),
                shift_info: ArmRegisterOrImmediate::Immediate(field_u32(opcode, 7, 5)),
                shift_type: spec_shift_type(opcode),
            },
        )
    }
}

pub open spec fn spec_try_data_process(opcode: u32) -> Option<ArmInstructionType> {
    if opcode & 0x0C00_0000u32 != 0 {
        None
    } else {
        let code = field_u32(opcode, 21, 4);
        let s = obit(opcode, 20);
        let rn = reg_at(opcode, 16);
        let rd = reg_at(opcode, 12);
        let op = spec_alu_operation(code);
        if 0x8 <= code <= 0xB && !s {
            None
        } else if (op == AluOperation::Mov || op == AluOperation::Mvn) && rn != Register::R0 {
            None
        } else if (op == AluOperation::Cmp || op == AluOperation::Cmn || op == AluOperation::Tst
            || op == AluOperation::Teq) && !(rd == Register::R0 || rd == Register::R15) {
            None
        } else {
            match spec_alu_second_operand(opcode) {
                None => None,
                Some(second_operand) => Some(
                    ArmInstructionType::Alu {
                        operation: op,
                        set_conditions: s,
                        first_operand: rn,
                        second_operand,
                        destination_operand: rd,
                    },
                ),
            }
        }
    }
}

fn try_decode_arm_data_process(opcode: u32) -> (r: Option<ArmInstructionType>)
    ensures
        r == spec_try_data_process(opcode),
{
    if opcode & 0x0C00_0000u32 != 0 {
        return None;
    }
    let code = field(opcode, 21, 4);
    let set_condition_codes_bit = bit(opcode, 20);
    let first_operand = get_register_at_offset(opcode, 16);
    let destination_operand = get_register_at_offset(opcode, 12);
    if 0x8 <= code && code <= 0xB && !set_condition_codes_bit {
        return None;
    }
    let alu_operation = lookup_alu_opcode(code);
    if (alu_operation == AluOperation::Mov || alu_operation == AluOperation::Mvn) && first_operand
        != Register::R0 {
        return None;
    }
    if (alu_operation == AluOperation::Cmp || alu_operation == AluOperation::Cmn || alu_operation
        == AluOperation::Tst || alu_operation == AluOperation::Teq) && !(destination_operand
        == Register::R0 || destination_operand == Register::R15) {
        return None;
    }
    let second_operand = if bit(opcode, 25) {
        let base = field(opcode, 0, 8);
        let shift_field = field(opcode, 8, 4);
        assert(1u32 << 4u32 == 16) by {
            crate::bits::lemma_bit_constants();
        }
        AluSecondOperandInfo::Immediate { base, shift: shift_field * 2 }
    } else {
        let shift_type = get_shift_type(opcode);
        let register = get_register_at_offset(opcode, 0);
        let shift_info = if bit(opcode, 4) {
            let shift_register = get_register_at_offset(opcode, 8);
            if bit(opcode, 7) {
                return None;
            }
            ArmRegisterOrImmediate::Register(shift_register)
        } else {
            ArmRegisterOrImmediate::Immediate(field(opcode, 7, 5))
        };
        AluSecondOperandInfo::Register { register, shift_info, shift_type }
    };
    Some(
        ArmInstructionType::Alu {
            operation: alu_operation,
            set_conditions: set_condition_codes_bit,
            first_operand,
            second_operand,
            destination_operand,
        },
    )
}

pub open spec fn spec_multiply_operation(code: u32) -> Option<MultiplyOperation> {
    if code == 0 {
        Some(MultiplyOperation::Mul)
    } else if code == 1 {
        Some(MultiplyOperation::Mla)
    } else if code == 2 {
        Some(MultiplyOperation::Umaal)
    } else if code == 4 {
        Some(MultiplyOperation::Umull)
    } else if code == 5 {
        Some(MultiplyOperation::Umlal)
    } else if code == 6 {
        Some(MultiplyOperation::Smull)
    } else if code == 7 {
        Some(MultiplyOperation::Smlal)
    } else {
        None
    }
}

pub open spec fn spec_try_multiply(opcode: u32) -> Option<ArmInstructionType> {
    if field_u32(opcode, 25, 3) != 0 || field_u32(opcode, 4, 4) != 9 {
        None
    } else {
        match spec_multiply_operation(field_u32(opcode, 21, 4)) {
            None => None,
            Some(operation) => Some(
                ArmInstructionType::Mul {
                    operation,
                    set_conditions: obit(opcode, 20),
                    destination_register: reg_at(opcode, 16),
                    accumulate_register: reg_at(opcode, 12),
                    operand_register_rs: reg_at(opcode, 8),
                    operand_register_rm: reg_at(opcode, 0),
                },
            ),
        }
    }
}

fn try_decode_arm_multiply(opcode: u32) -> (r: Option<ArmInstructionType>)
    ensures
        r == spec_try_multiply(opcode),
{
    if field(opcode, 25, 3) != 0 {
        return None;
    }
    if field(opcode, 4, 4) != 9 {
        return None;
    }
    let operation = match field(opcode, 21, 4) {
        0 => MultiplyOperation::Mul,
        1 => MultiplyOperation::Mla,
        2 => MultiplyOperation::Umaal,
        4 => MultiplyOperation::Umull,
        5 => MultiplyOperation::Umlal,
        6 => MultiplyOperation::Smull,
        7 => MultiplyOperation::Smlal,
        _ => return None,
    };
    Some(
        ArmInstructionType::Mul {
            operation,
            set_conditions: bit(opcode, 20),
            destination_register: get_register_at_offset(opcode, 16),
            accumulate_register: get_register_at_offset(opcode, 12),
            operand_register_rs: get_register_at_offset(opcode, 8),
            operand_register_rm: get_register_at_offset(opcode, 0),
        },
    )
}

pub open spec fn psr_of(opcode: u32) -> PsrTransferPsr {
    if obit(opcode, 22) {
        PsrTransferPsr::Spsr
    } else {
        PsrTransferPsr::Cpsr
    }
}

pub open spec fn spec_try_mrs(opcode: u32) -> Option<ArmInstructionType> {
    if field_u32(opcode, 26, 2) != 0 || obit(opcode, 25) || field_u32(opcode, 23, 2) != 2 || obit(
        opcode,
        20,
    ) || field_u32(opcode, 16, 4) != 0xF || field_u32(opcode, 0, 12) != 0 || obit(opcode, 21) {
        None
    } else {
        Some(
            ArmInstructionType::Mrs {
                source_psr: psr_of(opcode),
                destination_register: reg_at(opcode, 12),
            },
        )
    }
}

fn get_psr(opcode: u32) -> (r: PsrTransferPsr)
    ensures
        r == psr_of(opcode),
{
    if bit(opcode, 22) {
        PsrTransferPsr::Spsr
    } else {
        PsrTransferPsr::Cpsr
    }
}

fn try_decode_arm_mrs(opcode: u32) -> (r: Option<ArmInstructionType>)
    ensures
        r == spec_try_mrs(opcode),
{
    if field(opcode, 26, 2) != 0 {
        return None;
    }
    if bit(opcode, 25) {
        return None;
    }
    if field(opcode, 23, 2) != 2 {
        return None;
    }
    if bit(opcode, 20) {
        return None;
    }
    if field(opcode, 16, 4) != 0xF {
        return None;
    }
    if field(opcode, 0, 12) != 0 {
        return None;
    }
    if bit(opcode, 21) {
        return None;
    }
    Some(
        ArmInstructionType::Mrs {
            source_psr: get_psr(opcode),
            destination_register: get_register_at_offset(opcode, 12),
        },
    )
}

pub open spec fn spec_try_msr(opcode: u32) -> Option<ArmInstructionType> {
    if field_u32(opcode, 26, 2) != 0 || field_u32(opcode, 23, 2) != 2 || obit(opcode, 20) || !obit(
        opcode,
        21,
    ) {
        None
    } else if !obit(opcode, 25) && field_u32(opcode, 4, 8) != 0 {
        None
    } else {
        let source_info = if obit(opcode, 25) {
            MsrSourceInfo::Immediate {
                value: super::rotate_right_spec(
                    field_u32(opcode, 0, 8),
                    (field_u32(opcode, 8, 4) * 2) as u32,
                ),
            }
        } else {
            MsrSourceInfo::Register(reg_at(opcode, 0))
        };
        Some(
            ArmInstructionType::Msr {
                destination_psr: psr_of(opcode),
                write_flags_field: obit(opcode, 19),
                write_status_field: obit(opcode, 18),
                write_extension_field: obit(opcode, 17),
                write_control_field: obit(opcode, 16),
                source_info,
            },
        )
    }
}

fn try_decode_arm_msr(opcode: u32) -> (r: Option<ArmInstructionType>)
    ensures
        r == spec_try_msr(opcode),
{
    if field(opcode, 26, 2) != 0 {
        return None;
    }
    if field(opcode, 23, 2) != 2 {
        return None;
    }
    if bit(opcode, 20) {
        return None;
    }
    if !bit(opcode, 21) {
        return None;
    }
    let source_info = if bit(opcode, 25) {
        let shift = field(opcode, 8, 4);
        assert(1u32 << 4u32 == 16) by {
            crate::bits::lemma_bit_constants();
        }
        let immediate = field(opcode, 0, 8);
        MsrSourceInfo::Immediate { value: super::rotate_right(immediate, shift * 2) }
    } else {
        if field(opcode, 4, 8) != 0 {
            return None;
        }
        MsrSourceInfo::Register(get_register_at_offset(opcode, 0))
    };
    Some(
        ArmInstructionType::Msr {
            destination_psr: get_psr(opcode),
            write_flags_field: bit(opcode, 19),
            write_status_field: bit(opcode, 18),
            write_extension_field: bit(opcode, 17),
            write_control_field: bit(opcode, 16),
            source_info,
        },
    )
}

pub open spec fn spec_try_psr_transfer(opcode: u32) -> Option<ArmInstructionType> {
    match spec_try_mrs(opcode) {
        Some(i) => Some(i),
        None => spec_try_msr(opcode),
    }
}

fn try_decode_arm_psr_transfer(opcode: u32) -> (r: Option<ArmInstructionType>)
    ensures
        r == spec_try_psr_transfer(opcode),
{
    match try_decode_arm_mrs(opcode) {
        Some(i) => Some(i),
        None => try_decode_arm_msr(opcode),
    }
}

pub open spec fn sdt_index_type(opcode: u32) -> SingleDataTransferIndexType {
    if obit(opcode, 24) {
        SingleDataTransferIndexType::PreIndex { write_back: obit(opcode, 21) }
    } else {
        SingleDataTransferIndexType::PostIndex { non_privileged: obit(opcode, 21) }
    }
}

fn get_sdt_index_type(opcode: u32) -> (r: SingleDataTransferIndexType)
    ensures
        r == sdt_index_type(opcode),
{
    if bit(opcode, 24) {
        SingleDataTransferIndexType::PreIndex { write_back: bit(opcode, 21) }
    } else {
        SingleDataTransferIndexType::PostIndex { non_privileged: bit(opcode, 21) }
    }
}

pub open spec fn spec_try_basic_single_data_transfer(opcode: u32) -> Option<ArmInstructionType> {
    if opcode & 0x0C00_0000u32 != 0x0400_0000u32 {
        None
    } else if obit(opcode, 25) && obit(opcode, 4) {
        None
    } else {
        let value = if obit(opcode, 25) {
            SingleDataTransferOffsetValue::RegisterImmediate {
                shift_amount: field_u32(opcode, 7, 5),
                shift_type: spec_shift_type(opcode),
                offset_register: reg_at(opcode, 0),
            }
        } else {
            SingleDataTransferOffsetValue::Immediate { offset: field_u32(opcode, 0, 12) }
        };
        let offset_info = SingleDataTransferOffsetInfo { value, sign: !obit(opcode, 23) };
        let access_size = if obit(opcode, 22) {
            SingleDataMemoryAccessSize::Byte
        } else {
            SingleDataMemoryAccessSize::Word
        };
        if obit(opcode, 20) {
            Some(
                ArmInstructionType::Ldr {
                    index_type: sdt_index_type(opcode),
                    base_register: reg_at(opcode, 16),
                    destination_register: reg_at(opcode, 12),
                    offset_info,
                    access_size,
                    sign_extend: false,
                },
            )
        } else {
            Some(
                ArmInstructionType::Str {
                    index_type: sdt_index_type(opcode),
                    base_register: reg_at(opcode, 16),
                    source_register: reg_at(opcode, 12),
                    offset_info,
                    access_size,
                },
            )
        }
    }
}

fn try_decode_arm_basic_single_data_transfer(opcode: u32) -> (r: Option<ArmInstructionType>)
    ensures
        r == spec_try_basic_single_data_transfer(opcode),
{
    if opcode & 0x0C00_0000u32 != 0x0400_0000u32 {
        return None;
    }
    let index_type = get_sdt_index_type(opcode);
    let access_size = if bit(opcode, 22) {
        SingleDataMemoryAccessSize::Byte
    } else {
        SingleDataMemoryAccessSize::Word
    };
    let base_register = get_register_at_offset(opcode, 16);
    let source_destination_register = get_register_at_offset(opcode, 12);
    let value = if bit(opcode, 25) {
        if bit(opcode, 4) {
            return None;
        }
        SingleDataTransferOffsetValue::RegisterImmediate {
            shift_amount: field(opcode, 7, 5),
            shift_type: get_shift_type(opcode),
            offset_register: get_register_at_offset(opcode, 0),
        }
    } else {
        SingleDataTransferOffsetValue::Immediate { offset: field(opcode, 0, 12) }
    };
    let offset_info = SingleDataTransferOffsetInfo { value, sign: !bit(opcode, 23) };
    if bit(opcode, 20) {
        Some(
            ArmInstructionType::Ldr {
                index_type,
                base_register,
                destination_register: source_destination_register,
                offset_info,
                access_size,
                sign_extend: false,
            },
        )
    } else {
        Some(
            ArmInstructionType::Str {
                index_type,
                base_register,
                source_register: source_destination_register,
                offset_info,
                access_size,
            },
        )
    }
}

pub open spec fn spec_try_special_single_data_transfer(opcode: u32) -> Option<
    ArmInstructionType,
> {
    if field_u32(opcode, 25, 3) != 0 || !obit(opcode, 7) || !obit(opcode, 4) {
        None
    } else if !obit(opcode, 22) && field_u32(opcode, 8, 4) != 0 {
        None
    } else {
        let value = if obit(opcode, 22) {
            SingleDataTransferOffsetValue::Immediate {
                offset: (field_u32(opcode, 8, 4) << 4u32) | field_u32(opcode, 0, 4),
            }
        } else {
            SingleDataTransferOffsetValue::Register { offset_register: reg_at(opcode, 0) }
        };
        let offset_info = SingleDataTransferOffsetInfo { value, sign: !obit(opcode, 23) };
        let index_type = sdt_index_type(opcode);
        let base_register = reg_at(opcode, 16);
        let rd = reg_at(opcode, 12);
        let code = field_u32(opcode, 5, 2);
        if code == 0 {
            None
        } else if obit(opcode, 20) {
            Some(
                ArmInstructionType::Ldr {
                    index_type,
                    base_register,
                    destination_register: rd,
                    offset_info,
                    access_size: if code == 2 {
                        SingleDataMemoryAccessSize::Byte
                    } else {
                        SingleDataMemoryAccessSize::HalfWord
                    },
                    sign_extend: code != 1,
                },
            )
        } else if code == 2 {
            Some(
                ArmInstructionType::Ldr {
                    index_type,
                    base_register,
                    destination_register: rd,
                    offset_info,
                    access_size: SingleDataMemoryAccessSize::DoubleWord,
                    sign_extend: false,
                },
            )
        } else {
            Some(
                ArmInstructionType::Str {
                    index_type,
                    base_register,
                    source_register: rd,
                    offset_info,
                    access_size: if code == 1 {
                        SingleDataMemoryAccessSize::HalfWord
                    } else {
                        SingleDataMemoryAccessSize::DoubleWord
                    },
                },
            )
        }
    }
}

fn try_decode_arm_special_single_data_transfer(opcode: u32) -> (r: Option<ArmInstructionType>)
    ensures
        r == spec_try_special_single_data_transfer(opcode),
{
    if field(opcode, 25, 3) != 0 {
        return None;
    }
    if !bit(opcode, 7) {
        return None;
    }
    if !bit(opcode, 4) {
        return None;
    }
    let base_register = get_register_at_offset(opcode, 16);
    let source_dest_register = get_register_at_offset(opcode, 12);
    let code = field(opcode, 5, 2);
    let upper = field(opcode, 8, 4);
    let lower = field(opcode, 0, 4);
    let value = if bit(opcode, 22) {
        SingleDataTransferOffsetValue::Immediate { offset: (upper << 4u32) | lower }
    } else {
        if upper != 0 {
            return None;
        }
        assert(1u32 << 4u32 == 16) by {
            crate::bits::lemma_bit_constants();
        }
        SingleDataTransferOffsetValue::Register { offset_register: Register::from_index(lower) }
    };
    let offset_info = SingleDataTransferOffsetInfo { value, sign: !bit(opcode, 23) };
    let index_type = get_sdt_index_type(opcode);
    if code == 0 {
        return None;
    }
    if bit(opcode, 20) {
        if code == 1 {
            Some(
                ArmInstructionType::Ldr {
                    access_size: SingleDataMemoryAccessSize::HalfWord,
                    base_register,
                    destination_register: source_dest_register,
                    index_type,
                    offset_info,
                    sign_extend: false,
                },
            )
        } else if code == 2 {
            Some(
                ArmInstructionType::Ldr {
                    access_size: SingleDataMemoryAccessSize::Byte,
                    base_register,
                    destination_register: source_dest_register,
                    index_type,
                    offset_info,
                    sign_extend: true,
                },
            )
        } else {
            Some(
                ArmInstructionType::Ldr {
                    access_size: SingleDataMemoryAccessSize::HalfWord,
                    base_register,
                    destination_register: source_dest_register,
                    index_type,
                    offset_info,
                    sign_extend: true,
                },
            )
        }
    } else {
        if code == 1 {
            Some(
                ArmInstructionType::Str {
                    access_size: SingleDataMemoryAccessSize::HalfWord,
                    base_register,
                    index_type,
                    offset_info,
                    source_register: source_dest_register,
                },
            )
        } else if code == 2 {
            Some(
                ArmInstructionType::Ldr {
                    access_size: SingleDataMemoryAccessSize::DoubleWord,
                    base_register,
                    index_type,
                    offset_info,
                    destination_register: source_dest_register,
                    sign_extend: false,
                },
            )
        } else {
            Some(
                ArmInstructionType::Str {
                    access_size: SingleDataMemoryAccessSize::DoubleWord,
                    base_register,
                    index_type,
                    offset_info,
                    source_register: source_dest_register,
                },
            )
        }
    }
}

pub open spec fn spec_try_single_data_transfer(opcode: u32) -> Option<ArmInstructionType> {
    match spec_try_basic_single_data_transfer(opcode) {
        Some(i) => Some(i),
        None => spec_try_special_single_data_transfer(opcode),
    }
}

fn try_decode_arm_single_data_transfer(opcode: u32) -> (r: Option<ArmInstructionType>)
    ensures
        r == spec_try_single_data_transfer(opcode),
{
    match try_decode_arm_basic_single_data_transfer(opcode) {
        Some(i) => Some(i),
        None => try_decode_arm_special_single_data_transfer(opcode),
    }
}

pub open spec fn spec_try_block_data_transfer(opcode: u32) -> Option<ArmInstructionType> {
    if opcode & 0x0E00_0000u32 != 0x0800_0000u32 {
        None
    } else {
        let index_type = if obit(opcode, 24) {
            BlockDataTransferIndexType::PreIndex
        } else {
            BlockDataTransferIndexType::PostIndex
        };
        let offset_modifier = if obit(opcode, 23) {
            OffsetModifierType::AddToBase
        } else {
            OffsetModifierType::SubtractFromBase
        };
        let register_list = (opcode & 0xFFFFu32) as u16;
        if obit(opcode, 20) {
            Some(
                ArmInstructionType::Ldm {
                    index_type,
                    offset_modifier,
                    write_back: obit(opcode, 21),
                    base_register: reg_at(opcode, 16),
                    register_list,
                    force_user_mode: obit(opcode, 22),
                },
            )
        } else {
            Some(
                ArmInstructionType::Stm {
                    index_type,
                    offset_modifier,
                    write_back: obit(opcode, 21),
                    base_register: reg_at(opcode, 16),
                    register_list,
                    force_user_mode: obit(opcode, 22),
                },
            )
        }
    }
}

fn try_decode_arm_block_data_transfer(opcode: u32) -> (r: Option<ArmInstructionType>)
    ensures
        r == spec_try_block_data_transfer(opcode),
{
    if opcode & 0x0E00_0000u32 != 0x0800_0000u32 {
        return None;
    }
    let index_type = if bit(opcode, 24) {
        BlockDataTransferIndexType::PreIndex
    } else {
        BlockDataTransferIndexType::PostIndex
    };
    let offset_modifier = if bit(opcode, 23) {
        OffsetModifierType::AddToBase
    } else {
        OffsetModifierType::SubtractFromBase
    };
    let write_back = bit(opcode, 21);
    let force_user_mode = bit(opcode, 22);
    let base_register = get_register_at_offset(opcode, 16);
    let register_list = (opcode & 0xFFFFu32) as u16;
    if bit(opcode, 20) {
        Some(
            ArmInstructionType::Ldm {
                index_type,
                offset_modifier,
                write_back,
                base_register,
                register_list,
                force_user_mode,
            },
        )
    } else {
        Some(
            ArmInstructionType::Stm {
                index_type,
                offset_modifier,
                write_back,
                base_register,
                register_list,
                force_user_mode,
            },
        )
    }
}

pub open spec fn spec_try_single_data_swap(opcode: u32) -> Option<ArmInstructionType> {
    if field_u32(opcode, 23, 5) != 2 || field_u32(opcode, 20, 2) != 0 || field_u32(opcode, 4, 8)
        != 9 {
        None
    } else {
        Some(
            ArmInstructionType::Swp {
                access_size: if obit(opcode, 22) {
                    SwpAccessSize::Byte
                } else {
                    SwpAccessSize::Word
                },
                base_register: reg_at(opcode, 16),
                dest_register: reg_at(opcode, 12),
                source_register: reg_at(opcode, 0),
            },
        )
    }
}

fn try_decode_arm_single_data_swap(opcode: u32) -> (r: Option<ArmInstructionType>)
    ensures
        r == spec_try_single_data_swap(opcode),
{
    if field(opcode, 23, 5) != 2 {
        return None;
    }
    if field(opcode, 20, 2) != 0 {
        return None;
    }
    if field(opcode, 4, 8) != 9 {
        return None;
    }
    let access_size = if bit(opcode, 22) {
        SwpAccessSize::Byte
    } else {
        SwpAccessSize::Word
    };
    Some(
        ArmInstructionType::Swp {
            access_size,
            base_register: get_register_at_offset(opcode, 16),
            dest_register: get_register_at_offset(opcode, 12),
            source_register: get_register_at_offset(opcode, 0),
        },
    )
}

/// The first of two decodings that succeeds.
pub open spec fn first_some(a: Option<ArmInstructionType>, b: Option<ArmInstructionType>) -> Option<
    ArmInstructionType,
> {
    match a {
        Some(i) => Some(i),
        None => b,
    }
}

/// The instruction type of an opcode: the first decoding class (in the order
/// the hardware's opcode tables are searched) that claims it, else `Invalid`.
pub open spec fn spec_decode_arm_type(opcode: u32) -> ArmInstructionType {
    let group = opcode & 0x0E00_0000u32;
    let found = if group == 0 {
        first_some(
            spec_try_branch_exchange(opcode),
            first_some(
                spec_try_data_process(opcode),
                first_some(
                    spec_try_multiply(opcode),
                    first_some(
                        spec_try_psr_transfer(opcode),
                        first_some(
                            spec_try_special_single_data_transfer(opcode),
                            spec_try_single_data_swap(opcode),
                        ),
                    ),
                ),
            ),
        )
    } else if group == 0x0200_0000u32 {
        first_some(spec_try_data_process(opcode), spec_try_psr_transfer(opcode))
    } else if group == 0x0400_0000u32 || group == 0x0600_0000u32 {
        spec_try_single_data_transfer(opcode)
    } else if group == 0x0800_0000u32 {
        spec_try_block_data_transfer(opcode)
    } else if group == 0x0A00_0000u32 {
        spec_try_branch_basic(opcode)
    } else if group == 0x0E00_0000u32 {
        spec_try_swi(opcode)
    } else {
        None
    };
    match found {
        Some(i) => i,
        None => ArmInstructionType::Invalid { opcode },
    }
}

pub open spec fn spec_decode_arm(opcode: u32) -> ArmInstruction {
    ArmInstruction {
        condition: spec_arm_condition(opcode),
        instruction_type: spec_decode_arm_type(opcode),
    }
}

/// Decodes a 32-bit ARM opcode.
pub fn decode_arm(opcode: u32) -> (r: ArmInstruction)
    ensures
        r == spec_decode_arm(opcode),
{
    let condition = get_condition(opcode);
    let group = opcode & 0x0E00_0000u32;
    let found = if group == 0 {
        match try_decode_arm_branch_exchange(opcode) {
            Some(i) => Some(i),
            None => match try_decode_arm_data_process(opcode) {
                Some(i) => Some(i),
                None => match try_decode_arm_multiply(opcode) {
                    Some(i) => Some(i),
                    None => match try_decode_arm_psr_transfer(opcode) {
                        Some(i) => Some(i),
                        None => match try_decode_arm_special_single_data_transfer(opcode) {
                            Some(i) => Some(i),
                            None => try_decode_arm_single_data_swap(opcode),
                        },
                    },
                },
            },
        }
    } else if group == 0x0200_0000u32 {
        match try_decode_arm_data_process(opcode) {
            Some(i) => Some(i),
            None => try_decode_arm_psr_transfer(opcode),
        }
    } else if group == 0x0400_0000u32 || group == 0x0600_0000u32 {
        try_decode_arm_single_data_transfer(opcode)
    } else if group == 0x0800_0000u32 {
        try_decode_arm_block_data_transfer(opcode)
    } else if group == 0x0A00_0000u32 {
        try_decode_arm_branch_basic(opcode)
    } else if group == 0x0E00_0000u32 {
        try_decode_arm_swi(opcode)
    } else {
        None
    };
    let instruction_type = match found {
        Some(i) => i,
        None => ArmInstructionType::Invalid { opcode },
    };
    ArmInstruction { condition, instruction_type }
}


/// The bits of a status register that an MSR writes: the flags (31-24),
/// status (23-16), extension (15-8) and control (7-0) fields it selects.
pub open spec fn msr_mask(flags: bool, status: bool, extension: bool, control: bool) -> u32 {
    (if flags {
        0xFF00_0000u32
    } else {
        0u32
    }) | (if status {
        0x00FF_0000u32
    } else {
        0u32
    }) | (if extension {
        0x0000_FF00u32
    } else {
        0u32
    }) | (if control {
        0x0000_00FFu32
    } else {
        0u32
    })
}


/// A byte sign-extended to a word.
pub open spec fn sext8(b: u8) -> u32 {
    if b >= 0x80 {
        (b as u32) | 0xFFFF_FF00u32
    } else {
        b as u32
    }
}

/// A halfword sign-extended to a word.
pub open spec fn sext16(h: u16) -> u32 {
    if h >= 0x8000 {
        (h as u32) | 0xFFFF_0000u32
    } else {
        h as u32
    }
}

pub(crate) fn sign_extend_byte(b: u8) -> (r: u32)
    ensures
        r == sext8(b),
{
    if b >= 0x80 {
        (b as u32) | 0xFFFF_FF00
    } else {
        b as u32
    }
}

pub(crate) fn sign_extend_hword(h: u16) -> (r: u32)
    ensures
        r == sext16(h),
{
    if h >= 0x8000 {
        (h as u32) | 0xFFFF_0000
    } else {
        h as u32
    }
}

/// The value a load of `size` from `address` gives: unaligned halfwords and
/// words rotated so that the addressed byte comes first, a signed halfword
/// load from an odd address loading a sign-extended byte.
pub open spec fn load_value(bus: Bus, address: u32, size: SingleDataMemoryAccessSize, sign_extend: bool) -> u32 {
    match size {
        SingleDataMemoryAccessSize::Byte => if sign_extend {
            sext8(bus.byte_at(address))
        } else {
            bus.byte_at(address) as u32
        },
        SingleDataMemoryAccessSize::HalfWord => if !sign_extend {
            rotate_right_spec(bus.hword_at(address) as u32, ((address & 1u32) * 8) as u32)
        } else if address & 1 == 0 {
            sext16(bus.hword_at(address))
        } else {
            sext8(bus.byte_at(address))
        },
        _ => rotate_right_spec(bus.word_at(address), ((address & 3u32) * 8) as u32),
    }
}

/// The bus after a load of `size` from `address`: the read it makes leaves
/// its mark on the open-bus latches.
pub open spec fn load_bus(bus: Bus, address: u32, size: SingleDataMemoryAccessSize, sign_extend: bool) -> Bus {
    match size {
        SingleDataMemoryAccessSize::Byte => bus.after_byte_read(address),
        SingleDataMemoryAccessSize::HalfWord => if !sign_extend || address & 1 == 0 {
            bus.after_hword_read(address)
        } else {
            bus.after_byte_read(address)
        },
        _ => bus.after_word_read(address),
    }
}

/// Whether `after` is `before` with `value` stored at `address` by a store
/// of `size`.
pub open spec fn stored(before: Bus, after: Bus, address: u32, value: u32, size: SingleDataMemoryAccessSize) -> bool {
    match size {
        SingleDataMemoryAccessSize::Byte => before.byte_written(&after, value as u8, address),
        SingleDataMemoryAccessSize::HalfWord => before.hword_written(&after, value as u16, address),
        _ => before.word_written(&after, value, address),
    }
}

/// The number of set bits of a register list.
pub open spec fn bits_set(list: u16, below: nat) -> nat
    decreases below,
{
    if below == 0 {
        0
    } else {
        bits_set(list, (below - 1) as nat) + if bit_of_u16(list, (below - 1) as u16) {
            1nat
        } else {
            0nat
        }
    }
}

/// The base after a block transfer: moved up or down by four bytes per
/// listed register, or by 0x40 for an empty list.
pub open spec fn block_new_base(base: u32, offset_modifier: OffsetModifierType, register_list: u16) -> u32 {
    let amount = (if register_list == 0 {
        0x40
    } else {
        4 * bits_set(register_list, 16)
    }) as u32;
    if offset_modifier == OffsetModifierType::AddToBase {
        wadd(base, amount)
    } else {
        wsub(base, amount)
    }
}

/// The addresses that a block load reads, in the order of its reads: up
/// from the base for an incrementing transfer, down from it for a
/// decrementing one, the first one word away from the base when the base
/// moves before each access.
pub open spec fn ldm_addresses(base: u32, add: bool, pre: bool, count: nat) -> Seq<u32> {
    Seq::new(
        count,
        |k: int|
            {
                let distance = (4 * k + if pre {
                    4int
                } else {
                    0int
                }) as u32;
                if add {
                    wadd(base, distance)
                } else {
                    wsub(base, distance)
                }
            },
    )
}

/// The addresses that a block store writes, in the order of its writes:
/// up from `start`, the lowest address of the block, the first one word
/// past it when the address moves before each write.
pub open spec fn stm_addresses(start: u32, before: bool, count: nat) -> Seq<u32> {
    Seq::new(
        count,
        |k: int|
            wadd(
                start,
                (4 * k + if before {
                    4int
                } else {
                    0int
                }) as u32,
            ),
    )
}

/// The word a block store writes for register `j`: `base_word` for the base
/// register `b`, R15 one instruction ahead, any other register as it is.
pub open spec fn stm_word(registers: Seq<u32>, j: int, b: int, base_word: u32) -> u32 {
    if j == b {
        base_word
    } else if j == 15 {
        wadd(registers[15], 4)
    } else {
        registers[j]
    }
}

/// The word a block store writes for a listed base: its old value when it
/// is the lowest listed register, else its new value.
pub open spec fn stm_base_word(base: u32, list: u16, b: int, new_base: u32) -> u32 {
    if lowest_set(list, 0) == b {
        base
    } else {
        new_base
    }
}

/// Whether `after` is the bus after a block store wrote, to `addresses` in
/// turn, the words of the registers listed in `list`, lowest register
/// first: `base_word` for the base register `b`, and for each other
/// register its word in `registers` (R15 one instruction ahead).
pub open spec fn block_stored(
    before: Bus,
    after: Bus,
    addresses: Seq<u32>,
    list: u16,
    registers: Seq<u32>,
    b: int,
    base_word: u32,
) -> bool {
    exists|buses: Seq<Bus>, values: Seq<u32>|
        #[trigger] block_wrote(before, after, addresses, list, registers, b, base_word, buses, values)
}

/// A block store's writes, through the buses `buses` and with the words
/// `values`.
pub open spec fn block_wrote(
    before: Bus,
    after: Bus,
    addresses: Seq<u32>,
    list: u16,
    registers: Seq<u32>,
    b: int,
    base_word: u32,
    buses: Seq<Bus>,
    values: Seq<u32>,
) -> bool {
    &&& before.words_written(&after, buses, values, addresses)
    &&& forall|j: int|
        0 <= j < 16 && #[trigger] bit_of_u16(list, j as u16) ==> values[bits_set(list, j as nat) as int]
            == stm_word(registers, j, b, base_word)
}

/// One listed register more stored by a block store: the words of the
/// registers stored so far stay where they are.
proof fn lemma_stm_step(
    list: u16,
    i: nat,
    earlier: Seq<u32>,
    value: u32,
    registers: Seq<u32>,
    b: int,
    base_word: u32,
)
    requires
        i < 16,
        bit_of_u16(list, i as u16),
        earlier.len() == bits_set(list, i),
        value == stm_word(registers, i as int, b, base_word),
        forall|j: int|
            0 <= j < i && bit_of_u16(list, j as u16) ==> #[trigger] earlier[bits_set(
                list,
                j as nat,
            ) as int] == stm_word(registers, j, b, base_word),
    ensures
        forall|j: int|
            0 <= j < i + 1 && bit_of_u16(list, j as u16) ==> #[trigger] earlier.push(
                value,
            )[bits_set(list, j as nat) as int] == stm_word(registers, j, b, base_word),
{
    assert forall|j: int|
        0 <= j < i + 1 && bit_of_u16(list, j as u16) implies #[trigger] earlier.push(
        value,
    )[bits_set(list, j as nat) as int] == stm_word(registers, j, b, base_word) by {
        if j < i {
            assert(bits_set(list, (j + 1) as nat) == bits_set(list, j as nat) + 1);
            lemma_bits_set_bound(list, (j + 1) as nat, i);
            assert(earlier[bits_set(list, j as nat) as int] == stm_word(registers, j, b, base_word));
        }
    }
}

/// The bus, decoded instruction and prefetched opcode after the ARM pipeline
/// is refilled at `target`: the words at `target` and `target + 4` are
/// fetched in turn, and the first is decoded.
pub open spec fn arm_refill_pipeline(bus: Bus, target: u32) -> (Bus, Option<ArmInstruction>, Option<u32>) {
    let first_bus = bus.fetching_from(target);
    let next = wadd(target, 4);
    let second_bus = first_bus.after_word_read(target).fetching_from(next);
    (
        second_bus.after_word_read(next),
        Some(spec_decode_arm(first_bus.word_at(target))),
        Some(second_bus.word_at(next)),
    )
}

/// The steps of a load, put together: the base written back, the value
/// loaded into the destination, and the bus cycle that ends the
/// instruction give the effect that LDR states.
proof fn lemma_ldr_done(
    start: Cpu,
    written_back: Cpu,
    loaded: Cpu,
    after: Cpu,
    access_size: SingleDataMemoryAccessSize,
    base_register: Register,
    destination_register: Register,
    index_type: SingleDataTransferIndexType,
    offset_info: SingleDataTransferOffsetInfo,
    sign_extend: bool,
    address: u32,
    offset_address: u32,
    base_modified: bool,
    value: u32,
)
    requires
        register_index(base_register) < 16,
        register_index(destination_register) < 16,
        ({
            let pc = start.registers[15];
            let base = start.register_value(base_register, PcCalculation::Identity);
            let off = start.ldr_offset(offset_info.value);
            &&& offset_address == (if offset_info.sign {
                wsub(base, off)
            } else {
                wadd(base, off)
            })
            &&& (address, base_modified) == (match index_type {
                SingleDataTransferIndexType::PostIndex { .. } => (base, true),
                SingleDataTransferIndexType::PreIndex { write_back } => (offset_address, write_back),
            })
            &&& written_back.bus == start.bus.fetching_from(pc).after_word_read(pc)
            &&& written_back.pre_decode_arm == decoded_arm(start.prefetch_opcode)
            &&& written_back.prefetch_opcode == Some(start.bus.fetching_from(pc).word_at(pc))
            &&& written_back == Cpu {
                registers: written_back.registers,
                bus: written_back.bus,
                pre_decode_arm: written_back.pre_decode_arm,
                prefetch_opcode: written_back.prefetch_opcode,
                ..start
            }
        }),
        base_modified ==> written_back.registers@ == start.registers@.update(
            register_index(base_register),
            if register_index(base_register) == 15 {
                written_pc(start.thumb(), offset_address)
            } else {
                offset_address
            },
        ),
        !base_modified ==> written_back.registers@ == start.registers@,
        value == load_value(written_back.bus, address, access_size, sign_extend),
        loaded.registers@ == written_back.registers@.update(
            register_index(destination_register),
            if register_index(destination_register) == 15 {
                written_pc(start.thumb(), value)
            } else {
                value
            },
        ),
        loaded == (Cpu {
            registers: loaded.registers,
            bus: load_bus(written_back.bus, address, access_size, sign_extend),
            ..written_back
        }),
        ({
            let refill = destination_register == Register::R15 || (base_modified && base_register == Register::R15);
            &&& Cpu::bus_cycle_finished(
                loaded.bus,
                after,
                refill,
                loaded.registers[15],
                loaded.pre_decode_arm,
                loaded.prefetch_opcode,
            )
            &&& refill ==> after.registers@ == loaded.registers@.update(
                15,
                written_pc(start.thumb(), wadd(loaded.registers[15], 8)),
            )
            &&& !refill ==> after.registers@ == loaded.registers@.update(
                15,
                advanced_pc(start.thumb(), start.registers[15], 4),
            )
            &&& after == Cpu {
                registers: after.registers,
                bus: after.bus,
                pre_decode_arm: after.pre_decode_arm,
                prefetch_opcode: after.prefetch_opcode,
                ..loaded
            }
        }),
    ensures
        start.arm_ldr_effect(after, access_size, base_register, destination_register, index_type, offset_info, sign_extend),
{
}

/// The address from which LDM with an empty list loads R15.
pub open spec fn ldm_empty_address(base: u32, add: bool, pre: bool) -> u32 {
    if !pre {
        base
    } else if add {
        wadd(base, 0x40)
    } else {
        wsub(base, 0x40)
    }
}

/// Which read of a block load fills register `j`: the lowest listed
/// register takes the lowest address, which an incrementing transfer reads
/// first and a decrementing one last.
pub open spec fn ldm_slot(list: u16, j: int, add: bool) -> int {
    if add {
        bits_set(list, j as nat) as int
    } else {
        bits_set(list, 16) - 1 - bits_set(list, j as nat)
    }
}

/// Whether register `j` has had its turn after `n` turns of a block load
/// (lowest first when incrementing, highest first when decrementing).
pub open spec fn ldm_turn_taken(j: int, n: nat, add: bool) -> bool {
    if add {
        j < n
    } else {
        j >= 16 - n
    }
}

/// One listed register more loaded into user mode's bank by a block load
/// with the S bit: the copies loaded so far keep the words of their reads.
proof fn lemma_ldm_user_step(
    list: u16,
    add: bool,
    n: nat,
    index: int,
    slot: nat,
    before: Cpu,
    after: Cpu,
    mid: Cpu,
    earlier: Seq<u32>,
    later: Seq<u32>,
)
    requires
        n < 16,
        index == (if add {
            n as int
        } else {
            15 - n
        }),
        bit_of_u16(list, index as u16),
        add ==> slot == bits_set(list, n),
        !add ==> slot + bits_set(list, (16 - n) as nat) == bits_set(list, 16),
        earlier.len() == slot,
        later.len() == slot + 1,
        forall|k: int| 0 <= k < slot ==> later[k] == earlier[k],
        forall|m: CpuMode, j: int|
            0 <= j < 15 ==> #[trigger] after.register_in_mode(m, j) == if j == index && bank_of(m, j) == bank_of(
                CpuMode::User,
                j,
            ) {
                later[slot as int]
            } else {
                before.register_in_mode(m, j)
            },
        forall|m: CpuMode, j: int|
            0 <= j < 15 ==> #[trigger] before.register_in_mode(m, j) == if bit_of_u16(list, j as u16) && ldm_turn_taken(
                j,
                n,
                add,
            ) && bank_of(m, j) == bank_of(CpuMode::User, j) {
                earlier[ldm_slot(list, j, add)]
            } else {
                mid.register_in_mode(m, j)
            },
    ensures
        forall|m: CpuMode, j: int|
            0 <= j < 15 ==> #[trigger] after.register_in_mode(m, j) == if bit_of_u16(list, j as u16) && ldm_turn_taken(
                j,
                n + 1,
                add,
            ) && bank_of(m, j) == bank_of(CpuMode::User, j) {
                later[ldm_slot(list, j, add)]
            } else {
                mid.register_in_mode(m, j)
            },
{
    assert(bits_set(list, (index + 1) as nat) == bits_set(list, index as nat) + 1);
    assert forall|m: CpuMode, j: int| 0 <= j < 15 implies #[trigger] after.register_in_mode(m, j) == if bit_of_u16(
        list,
        j as u16,
    ) && ldm_turn_taken(j, n + 1, add) && bank_of(m, j) == bank_of(CpuMode::User, j) {
        later[ldm_slot(list, j, add)]
    } else {
        mid.register_in_mode(m, j)
    } by {
        if j != index {
            assert(ldm_turn_taken(j, n + 1, add) == ldm_turn_taken(j, n, add));
            if bit_of_u16(list, j as u16) && ldm_turn_taken(j, n, add) {
                assert(bits_set(list, (j + 1) as nat) == bits_set(list, j as nat) + 1);
                lemma_bits_set_bound(list, (j + 1) as nat, 16);
                if add {
                    lemma_bits_set_bound(list, (j + 1) as nat, n);
                } else {
                    lemma_bits_set_bound(list, (16 - n) as nat, j as nat);
                }
                assert(0 <= ldm_slot(list, j, add) < slot);
            }
        } else {
            assert(ldm_slot(list, j, add) == slot);
        }
    }
}

/// One listed register more loaded by a block load: the registers loaded
/// so far keep the words of their reads.
proof fn lemma_ldm_step(
    list: u16,
    add: bool,
    n: nat,
    index: int,
    slot: nat,
    before: Seq<u32>,
    after: Seq<u32>,
    earlier: Seq<u32>,
    later: Seq<u32>,
)
    requires
        n < 16,
        index == (if add {
            n as int
        } else {
            15 - n
        }),
        bit_of_u16(list, index as u16),
        add ==> slot == bits_set(list, n),
        !add ==> slot + bits_set(list, (16 - n) as nat) == bits_set(list, 16),
        earlier.len() == slot,
        later.len() == slot + 1,
        forall|k: int| 0 <= k < slot ==> later[k] == earlier[k],
        index < 15 ==> after[index] == later[slot as int],
        forall|j: int| 0 <= j < 15 && j != index ==> after[j] == before[j],
        forall|j: int|
            0 <= j < 15 && bit_of_u16(list, j as u16) && (if add {
                j < n
            } else {
                j >= 16 - n
            }) ==> #[trigger] before[j] == earlier[ldm_slot(list, j, add)],
    ensures
        forall|j: int|
            0 <= j < 15 && bit_of_u16(list, j as u16) && (if add {
                j < n + 1
            } else {
                j >= 15 - n
            }) ==> #[trigger] after[j] == later[ldm_slot(list, j, add)],
{
    assert(bits_set(list, (index + 1) as nat) == bits_set(list, index as nat) + 1);
    assert forall|j: int|
        0 <= j < 15 && bit_of_u16(list, j as u16) && (if add {
            j < n + 1
        } else {
            j >= 15 - n
        }) implies #[trigger] after[j] == later[ldm_slot(list, j, add)] by {
        if j != index {
            assert(bits_set(list, (j + 1) as nat) == bits_set(list, j as nat) + 1);
            lemma_bits_set_bound(list, (j + 1) as nat, 16);
            if add {
                lemma_bits_set_bound(list, (j + 1) as nat, n);
            } else {
                lemma_bits_set_bound(list, (16 - n) as nat, j as nat);
            }
            assert(0 <= ldm_slot(list, j, add) < slot);
            assert(before[j] == earlier[ldm_slot(list, j, add)]);
        } else {
            assert(ldm_slot(list, j, add) == slot);
        }
    }
}

pub(crate) proof fn lemma_bits_set_bound(list: u16, j: nat, k: nat)
    requires
        j <= k,
    ensures
        bits_set(list, j) <= bits_set(list, k),
        bits_set(list, k) - bits_set(list, j) <= k - j,
    decreases k - j,
{
    if j < k {
        lemma_bits_set_bound(list, j, (k - 1) as nat);
    }
}

fn count_bits(list: u16) -> (r: u32)
    ensures
        r == bits_set(list, 16),
        r <= 16,
{
    let mut count: u32 = 0;
    let mut i: u32 = 0;
    while i < 16
        invariant
            i <= 16,
            count == bits_set(list, i as nat),
            count <= i,
        decreases 16 - i,
    {
        if get_bit_u16(list, i as u16) {
            count = count + 1;
        }
        i = i + 1;
    }
    count
}

/// The number of the lowest listed register (16 for an empty list).
pub open spec fn lowest_set(list: u16, from: nat) -> nat
    decreases 16 - from,
{
    if from >= 16 {
        16
    } else if bit_of_u16(list, from as u16) {
        from
    } else {
        lowest_set(list, from + 1)
    }
}

fn lowest_bit(list: u16) -> (r: u32)
    ensures
        r == lowest_set(list, 0),
{
    let mut i: u32 = 0;
    while i < 16
        invariant
            i <= 16,
            lowest_set(list, 0) == lowest_set(list, i as nat),
        decreases 16 - i,
    {
        if get_bit_u16(list, i as u16) {
            return i;
        }
        i = i + 1;
    }
    16
}

/// The 32-bit product `rm * rs`, plus the accumulator for MLA, modulo 2^32.
#[verifier::opaque]
pub open spec fn mul32(op: MultiplyOperation, rm: u32, rs: u32, acc: u32) -> u32 {
    if op == MultiplyOperation::Mla {
        ((rm * rs + acc) % 0x1_0000_0000) as u32
    } else {
        ((rm * rs) % 0x1_0000_0000) as u32
    }
}

/// The signed value of a doubleword.
pub open spec fn sval64(x: u64) -> int {
    if x >= 0x8000_0000_0000_0000 {
        x - 0x1_0000_0000_0000_0000
    } else {
        x as int
    }
}

/// The 64-bit product of a long multiply (unsigned or signed), plus the
/// accumulator `hi:lo` for the accumulating forms, modulo 2^64.
#[verifier::opaque]
pub open spec fn mul64(op: MultiplyOperation, rm: u32, rs: u32, lo: u32, hi: u32) -> u64 {
    let acc: int = hi * 0x1_0000_0000 + lo;
    let product: int = if op == MultiplyOperation::Smull || op == MultiplyOperation::Smlal {
        sval(rm) * sval(rs)
    } else {
        rm * rs
    };
    let total = if op == MultiplyOperation::Umlal || op == MultiplyOperation::Smlal {
        product + acc
    } else {
        product
    };
    (total % 0x1_0000_0000_0000_0000) as u64
}

pub(crate) fn mul32_exec(op: MultiplyOperation, rm: u32, rs: u32, acc: u32) -> (r: u32)
    ensures
        r == mul32(op, rm, rs, acc),
{
    reveal(mul32);
    assert(rm * rs <= 0xFFFF_FFFE_0000_0001) by (nonlinear_arith)
        requires
            rm <= 0xFFFF_FFFF,
            rs <= 0xFFFF_FFFF,
    ;
    let product: u64 = (rm as u64) * (rs as u64);
    if op == MultiplyOperation::Mla {
        ((product + acc as u64) % 0x1_0000_0000) as u32
    } else {
        (product % 0x1_0000_0000) as u32
    }
}

fn mul64_exec(op: MultiplyOperation, rm: u32, rs: u32, lo: u32, hi: u32) -> (r: u64)
    ensures
        r == mul64(op, rm, rs, lo, hi),
{
    reveal(mul64);
    let acc: i128 = (hi as i128) * 0x1_0000_0000 + (lo as i128);
    let signed = op == MultiplyOperation::Smull || op == MultiplyOperation::Smlal;
    let a: i128 = if signed {
        if rm >= 0x8000_0000 {
            rm as i128 - 0x1_0000_0000
        } else {
            rm as i128
        }
    } else {
        rm as i128
    };
    let b: i128 = if signed {
        if rs >= 0x8000_0000 {
            rs as i128 - 0x1_0000_0000
        } else {
            rs as i128
        }
    } else {
        rs as i128
    };
    assert(-0x1_0000_0000_0000_0000 <= a * b <= 0x1_0000_0000_0000_0000) by (nonlinear_arith)
        requires
            -0x8000_0000 <= a < 0x1_0000_0000,
            -0x8000_0000 <= b < 0x1_0000_0000,
    ;
    let product: i128 = a * b;
    let total: i128 = if op == MultiplyOperation::Umlal || op == MultiplyOperation::Smlal {
        product + acc
    } else {
        product
    };
    let shifted: i128 = total + 4 * 0x1_0000_0000_0000_0000;
    proof {
        vstd::arithmetic::div_mod::lemma_mod_multiples_vanish(4, total as int, 0x1_0000_0000_0000_0000);
    }
    (shifted % 0x1_0000_0000_0000_0000) as u64
}

// ---------------------------------------------------------------------------
// Execution

/// Result, carry and overflow of an ALU operation on operands `a` and `b`:
/// logical operations take the shifter's carry and keep the overflow flag.
pub open spec fn alu_spec(op: AluOperation, a: u32, b: u32, shifter_carry: bool, c: bool, v: bool) -> (u32, bool, bool) {
    match op {
        AluOperation::And | AluOperation::Tst => (a & b, shifter_carry, v),
        AluOperation::Eor | AluOperation::Teq => (a ^ b, shifter_carry, v),
        AluOperation::Orr => (a | b, shifter_carry, v),
        AluOperation::Bic => (a & !b, shifter_carry, v),
        AluOperation::Mov => (b, shifter_carry, v),
        AluOperation::Mvn => (!b, shifter_carry, v),
        AluOperation::Add | AluOperation::Cmn => add_spec(a, b, false),
        AluOperation::Adc => add_spec(a, b, c),
        AluOperation::Sub | AluOperation::Cmp => sub_spec(a, b, true),
        AluOperation::Sbc => sub_spec(a, b, c),
        AluOperation::Rsb => sub_spec(b, a, true),
        AluOperation::Rsc => sub_spec(b, a, c),
    }
}

/// Whether an ALU operation writes its result (the test operations only set
/// flags).
pub open spec fn alu_writes(op: AluOperation) -> bool {
    !(op == AluOperation::Tst || op == AluOperation::Teq || op == AluOperation::Cmp || op == AluOperation::Cmn)
}

fn alu_compute(op: AluOperation, a: u32, b: u32, shifter_carry: bool, c: bool, v: bool) -> (r: (u32, bool, bool))
    ensures
        r == alu_spec(op, a, b, shifter_carry, c, v),
{
    match op {
        AluOperation::And | AluOperation::Tst => (a & b, shifter_carry, v),
        AluOperation::Eor | AluOperation::Teq => (a ^ b, shifter_carry, v),
        AluOperation::Orr => (a | b, shifter_carry, v),
        AluOperation::Bic => (a & !b, shifter_carry, v),
        AluOperation::Mov => (b, shifter_carry, v),
        AluOperation::Mvn => (!b, shifter_carry, v),
        AluOperation::Add | AluOperation::Cmn => add_with_carry(a, b, false),
        AluOperation::Adc => add_with_carry(a, b, c),
        AluOperation::Sub | AluOperation::Cmp => sub_with_borrow(a, b, true),
        AluOperation::Sbc => sub_with_borrow(a, b, c),
        AluOperation::Rsb => sub_with_borrow(b, a, true),
        AluOperation::Rsc => sub_with_borrow(b, a, c),
    }
}

/// The prefetched opcode, decoded.
pub open spec fn decoded_arm(prefetch: Option<u32>) -> Option<ArmInstruction> {
    match prefetch {
        Some(op) => Some(spec_decode_arm(op)),
        None => None,
    }
}

/// The program counter after an ARM instruction that does not branch.
pub open spec fn arm_next_pc(pc: u32) -> u32 {
    wadd(pc, 4) & !3u32
}

impl Cpu {
    /// The second ALU operand and the shifter's carry out. An immediate is
    /// rotated right by its (even) rotation; a register is shifted by an
    /// immediate amount or by the low byte of another register, and then
    /// reads R15 one instruction further ahead.
    pub open spec fn alu_second(&self, info: AluSecondOperandInfo) -> (u32, bool) {
        let c = self.flag(CARRY_FLAG_BIT);
        match info {
            AluSecondOperandInfo::Immediate { base, shift } => {
                let result = rotate_right_spec(base, shift % 32);
                (result, if shift % 32 == 0 {
                    c
                } else {
                    bit_of_u32(result, 31)
                })
            },
            AluSecondOperandInfo::Register { register, shift_info, shift_type } => match shift_info {
                ArmRegisterOrImmediate::Immediate(amount) => shifter(
                    shift_type,
                    self.register_value(register, PcCalculation::Identity),
                    amount % 32,
                    c,
                    false,
                ),
                ArmRegisterOrImmediate::Register(rs) => shifter(
                    shift_type,
                    self.register_value(register, PcCalculation::Plus(4)),
                    self.register_value(rs, PcCalculation::Identity) & 0xFFu32,
                    c,
                    true,
                ),
            },
        }
    }

    fn evaluate_alu_second_operand(&self, info: AluSecondOperandInfo) -> (r: (u32, bool))
        ensures
            r == self.alu_second(info),
    {
        let c = self.get_carry_flag();
        match info {
            AluSecondOperandInfo::Immediate { base, shift } => {
                let result = rotate_right(base, shift % 32);
                let carry = if shift % 32 == 0 {
                    c
                } else {
                    get_bit_u32(result, 31)
                };
                (result, carry)
            },
            AluSecondOperandInfo::Register { register, shift_info, shift_type } => match shift_info {
                ArmRegisterOrImmediate::Immediate(amount) => {
                    let value = self.read_register(register, PcCalculation::Identity);
                    barrel_shift(shift_type, value, amount % 32, c, false)
                },
                ArmRegisterOrImmediate::Register(rs) => {
                    let value = self.read_register(register, PcCalculation::Plus(4));
                    let amount = self.read_register(rs, PcCalculation::Identity) & 0xFF;
                    barrel_shift(shift_type, value, amount, c, true)
                },
            },
        }
    }

    /// The first cycle of an ARM instruction: the prefetched opcode moves to
    /// decode and the opcode at the program counter is fetched.
    pub(crate) fn arm_prefetch(&mut self) -> (old_pc: u32)
        requires
            old(self).wf(),
        ensures
            final(self).wf(),
            old_pc == old(self).registers[15],
            *final(self) == (Cpu {
                pre_decode_arm: decoded_arm(old(self).prefetch_opcode),
                prefetch_opcode: Some(old(self).bus.fetching_from(old_pc).word_at(old_pc)),
                bus: old(self).bus.fetching_from(old_pc).after_word_read(old_pc),
                ..*old(self)
            }),
    {
        let old_pc = self.registers[15];
        self.pre_decode_arm = match self.prefetch_opcode {
            Some(op) => Some(decode_arm(op)),
            None => None,
        };
        let fetched = self.bus.fetch_arm_opcode(old_pc);
        self.prefetch_opcode = Some(fetched);
        old_pc
    }

    /// Refills the pipeline at `target` after a branch: the opcodes at
    /// `target` and `target + 4` are fetched (the first decoded) and the
    /// program counter points past them.
    fn arm_refill(&mut self, target: u32)
        requires
            old(self).wf(),
        ensures
            final(self).wf(),
            ({
                let (bus, decoded, prefetched) = arm_refill_pipeline(old(self).bus, target);
                &&& final(self).registers@ == old(self).registers@.update(15, written_pc(old(self).thumb(), wadd(target, 8)))
                &&& *final(self) == (Cpu {
                    registers: final(self).registers,
                    bus,
                    pre_decode_arm: decoded,
                    prefetch_opcode: prefetched,
                    ..*old(self)
                })
            }),
            final(self).registers[15] == wadd(target, 8) & !3u32 || final(self).thumb(),
            final(self).pre_decode_arm is Some,
            final(self).prefetch_opcode is Some,
            final(self).cpsr == old(self).cpsr,
            forall|i: int| 0 <= i < 15 ==> final(self).registers[i] == old(self).registers[i],
    {
        let first = self.bus.fetch_arm_opcode(target);
        self.pre_decode_arm = Some(decode_arm(first));
        let second = self.bus.fetch_arm_opcode(target.wrapping_add(4));
        self.prefetch_opcode = Some(second);
        self.write_register(target.wrapping_add(8), Register::R15);
    }

    /// Moves the program counter on by one ARM instruction.
    pub(crate) fn arm_advance(&mut self, old_pc: u32)
        ensures
            final(self).registers@ == old(self).registers@.update(15, advanced_pc(old(self).thumb(), old_pc, 4)),
            *final(self) == (Cpu { registers: final(self).registers, ..*old(self) }),
    {
        self.write_register(old_pc.wrapping_add(4), Register::R15);
    }

    /// Whether `bus` is the bus once a data-processing instruction has read
    /// its operands: after the fetch of this cycle, and one more bus cycle
    /// when the shift amount comes from a register.
    pub open spec fn alu_read_bus(self, bus: Bus, second_operand: AluSecondOperandInfo) -> bool {
        let pc = self.registers[15];
        let fetched = self.bus.fetching_from(pc).after_word_read(pc);
        if second_operand matches AluSecondOperandInfo::Register { shift_info: ArmRegisterOrImmediate::Register(_), .. } {
            bus_cycled(fetched, bus)
        } else {
            bus == fetched
        }
    }

    /// A data-processing instruction's write of R15 (`mid` the core once the
    /// operands are read): with the S bit the status register is restored
    /// from the saved one, every mode's registers R0-R14 and saved status
    /// registers are kept, and R15 takes the result with the pipeline of the
    /// (new) state refilled there, or, for a comparison, moves on.
    pub open spec fn alu_pc_written(mid: Cpu, after: Cpu, writes: bool, result: u32, set_conditions: bool, old_pc: u32) -> bool {
        let cpsr = if set_conditions {
            mid.spsr
        } else {
            mid.cpsr
        };
        let thumb = bit_of_u32(cpsr, STATE_BIT);
        &&& after.cpsr == cpsr
        &&& forall|m: CpuMode, i: int| 0 <= i < 15 ==> #[trigger] after.register_in_mode(m, i) == mid.register_in_mode(m, i)
        &&& forall|m: CpuMode| spsr_bank_of(m) != 0 ==> #[trigger] after.spsr_in_mode(m) == mid.spsr_in_mode(m)
        &&& !set_conditions ==> forall|j: int| 0 <= j < 15 ==> after.registers[j] == mid.registers[j]
        &&& after.cycle_count == mid.cycle_count
        &&& writes && !thumb ==> {
            let (bus, decoded, prefetched) = arm_refill_pipeline(mid.bus, result);
            &&& after.registers[15] == written_pc(false, wadd(result, 8))
            &&& after.bus == bus && after.pre_decode_arm == decoded && after.prefetch_opcode == prefetched
            &&& after.pre_decode_thumb == mid.pre_decode_thumb
        }
        &&& writes && thumb ==> {
            let (bus, decoded, prefetched) = thumb_refill_pipeline(mid.bus, result);
            &&& after.registers[15] == written_pc(true, wadd(result, 4))
            &&& after.bus == bus && after.pre_decode_thumb == decoded && after.prefetch_opcode == prefetched
            &&& after.pre_decode_arm == mid.pre_decode_arm
        }
        &&& !writes ==> {
            &&& after.registers[15] == advanced_pc(thumb, old_pc, 4)
            &&& after.bus == mid.bus && after.pre_decode_arm == mid.pre_decode_arm
            &&& after.pre_decode_thumb == mid.pre_decode_thumb && after.prefetch_opcode == mid.prefetch_opcode
        }
    }

    pub open spec fn arm_alu_effect(self, after: Cpu, operation: AluOperation, first_operand: Register, second_operand: AluSecondOperandInfo, destination_operand: Register, set_conditions: bool) -> bool {
        &&& (({
                let by_register = second_operand matches AluSecondOperandInfo::Register {
                    shift_info: ArmRegisterOrImmediate::Register(_),
                    ..
                };
                let a = self.register_value(first_operand, if by_register {
                    PcCalculation::Plus(4)
                } else {
                    PcCalculation::Identity
                });
                let (b, sc) = self.alu_second(second_operand);
                let (res, c, v) = alu_spec(
                    operation,
                    a,
                    b,
                    sc,
                    self.flag(CARRY_FLAG_BIT),
                    self.flag(OVERFLOW_FLAG_BIT),
                );
                let d = register_index(destination_operand);
                let pc = self.registers[15];
                let fetched_word = self.bus.fetching_from(pc).word_at(pc);
                &&& d < 15 ==> {
                    &&& after.registers[15] == advanced_pc(self.thumb(), self.registers[15], 4)
                    &&& alu_writes(operation) ==> after.registers[d] == res
                    &&& !alu_writes(operation) ==> after.registers[d] == self.registers[d]
                    &&& forall|j: int| 0 <= j < 15 && j != d ==> after.registers[j] == self.registers[j]
                    &&& set_conditions ==> after.cpsr == with_flags(self.cpsr, bit_of_u32(res, 31), res == 0, c, v)
                    &&& !set_conditions ==> after.cpsr == self.cpsr
                    &&& after.pre_decode_arm == decoded_arm(self.prefetch_opcode)
                    &&& self.alu_read_bus(after.bus, second_operand)
                    &&& after == Cpu {
                        registers: after.registers,
                        cpsr: after.cpsr,
                        bus: after.bus,
                        pre_decode_arm: after.pre_decode_arm,
                        prefetch_opcode: Some(fetched_word),
                        ..self
                    }
                }
                &&& d == 15 ==> exists|mid_bus: Bus|
                    #[trigger] self.alu_read_bus(mid_bus, second_operand) && Cpu::alu_pc_written(
                        Cpu {
                            bus: mid_bus,
                            pre_decode_arm: decoded_arm(self.prefetch_opcode),
                            prefetch_opcode: Some(fetched_word),
                            ..self
                        },
                        after,
                        alu_writes(operation),
                        res,
                        set_conditions,
                        pc,
                    )
            }))
    }

    /// B: the pipeline refilled at the program counter plus the offset (after
    /// the fetch of this cycle), R15 eight bytes past the target; nothing else
    /// changes.
    pub open spec fn arm_b_effect(self, after: Cpu, offset: i32) -> bool {
        let pc = self.registers[15];
        let target = wadd(pc, offset as u32);
        let (bus, decoded, prefetched) = arm_refill_pipeline(self.bus.fetching_from(pc).after_word_read(pc), target);
        &&& after.registers@ == self.registers@.update(15, written_pc(self.thumb(), wadd(target, 8)))
        &&& after == Cpu { registers: after.registers, bus, pre_decode_arm: decoded, prefetch_opcode: prefetched, ..self }
    }

    /// BL: as B, with R14 set to the address of the next instruction.
    pub open spec fn arm_bl_effect(self, after: Cpu, offset: i32) -> bool {
        let pc = self.registers[15];
        let target = wadd(pc, offset as u32);
        let (bus, decoded, prefetched) = arm_refill_pipeline(self.bus.fetching_from(pc).after_word_read(pc), target);
        &&& after.registers@ == self.registers@.update(14, wsub(pc, 4)).update(
            15,
            written_pc(self.thumb(), wadd(target, 8)),
        )
        &&& after == Cpu { registers: after.registers, bus, pre_decode_arm: decoded, prefetch_opcode: prefetched, ..self }
    }

    /// BX: the state bit takes bit 0 of the operand, and the pipeline of that
    /// state is refilled at the operand with bit 0 cleared (after the fetch
    /// of this cycle); nothing else changes.
    pub open spec fn arm_bx_effect(self, after: Cpu, operand: Register) -> bool {
        let pc = self.registers[15];
        let fetched = self.bus.fetching_from(pc).after_word_read(pc);
        let target = self.register_value(operand, PcCalculation::Identity);
        let thumb = bit_of_u32(target, 0);
        let new_pc = target & !1u32;
        let cpsr = with_bit_u32(self.cpsr, STATE_BIT, thumb);
        &&& after.thumb() == thumb
        &&& after.mode() == self.mode()
        &&& thumb ==> {
            let (bus, decoded, prefetched) = thumb_refill_pipeline(fetched, new_pc);
            &&& after.registers@ == self.registers@.update(15, written_pc(true, wadd(new_pc, 4)))
            &&& after == Cpu {
                registers: after.registers,
                cpsr,
                bus,
                pre_decode_thumb: decoded,
                prefetch_opcode: prefetched,
                ..self
            }
        }
        &&& !thumb ==> {
            let (bus, decoded, prefetched) = arm_refill_pipeline(fetched, new_pc);
            &&& after.registers@ == self.registers@.update(15, written_pc(false, wadd(new_pc, 8)))
            &&& after == Cpu { registers: after.registers, cpsr, bus, pre_decode_arm: decoded, prefetch_opcode: prefetched, ..self }
        }
    }

    pub open spec fn arm_msr_effect(self, after: Cpu, destination_psr: PsrTransferPsr, source_info: MsrSourceInfo, write_control_field: bool, write_extension_field: bool, write_flags_field: bool, write_status_field: bool) -> bool {
        &&& (({
                let source = match source_info {
                    MsrSourceInfo::Immediate { value } => value,
                    MsrSourceInfo::Register(r) => self.register_value(r, PcCalculation::Identity),
                };
                let mask = msr_mask(write_flags_field, write_status_field, write_extension_field, write_control_field);
                &&& destination_psr == PsrTransferPsr::Cpsr ==> after.cpsr == (source & mask) | (self.cpsr & !mask)
                &&& destination_psr == PsrTransferPsr::Spsr ==> after.spsr == (source & mask) | (self.spsr & !mask)
                    && after.cpsr == self.cpsr
                    && after.registers@ == self.registers@.update(15, advanced_pc(self.thumb(), self.registers[15], 4))
            }))
    }

    pub open spec fn arm_mrs_effect(self, after: Cpu, destination_register: Register, source_psr: PsrTransferPsr) -> bool {
        &&& (register_index(destination_register) < 15 ==> after.registers[register_index(destination_register)]
                == match source_psr {
                PsrTransferPsr::Cpsr => self.cpsr,
                PsrTransferPsr::Spsr => self.spsr,
            } && after.registers[15] == advanced_pc(self.thumb(), self.registers[15], 4)
                && after.cpsr == self.cpsr)
    }

    /// The end of an ARM instruction that runs the bus one cycle from
    /// `before`: the pipeline refilled at `new_pc` (when `refill`) from the bus
    /// after the cycle, else the bus after the cycle and the pipeline of this
    /// instruction's fetch (`decoded`, `prefetched`).
    pub open spec fn bus_cycle_finished(
        before: Bus,
        after: Cpu,
        refill: bool,
        new_pc: u32,
        decoded: Option<ArmInstruction>,
        prefetched: Option<u32>,
    ) -> bool {
        exists|stepped: Bus|
            #[trigger] bus_cycled(before, stepped) && if refill {
                (after.bus, after.pre_decode_arm, after.prefetch_opcode) == arm_refill_pipeline(stepped, new_pc)
            } else {
                &&& after.bus == stepped
                &&& after.pre_decode_arm == decoded
                &&& after.prefetch_opcode == prefetched
            }
    }

    /// LDR/LDRB/LDRH/LDRSB/LDRSH: the destination takes the loaded value
    /// (R15 aligned), a written-back base its moved address (the load wins
    /// when they are the same register); the base is read as it is, R15
    /// included. After the load the bus runs one cycle; a write of R15
    /// refills the pipeline there, else R15 moves on.
    pub open spec fn arm_ldr_effect(self, after: Cpu, access_size: SingleDataMemoryAccessSize, base_register: Register, destination_register: Register, index_type: SingleDataTransferIndexType, offset_info: SingleDataTransferOffsetInfo, sign_extend: bool) -> bool {
        &&& (({
                let old_pc = self.registers[15];
                let mid = self.bus.fetching_from(old_pc).after_word_read(old_pc);
                let base = self.register_value(base_register, PcCalculation::Identity);
                let off = self.ldr_offset(offset_info.value);
                let moved = if offset_info.sign {
                    wsub(base, off)
                } else {
                    wadd(base, off)
                };
                let (address, write_back) = match index_type {
                    SingleDataTransferIndexType::PostIndex { .. } => (base, true),
                    SingleDataTransferIndexType::PreIndex { write_back } => (moved, write_back),
                };
                let rd = register_index(destination_register);
                let rb = register_index(base_register);
                let loaded = load_value(mid, address, access_size, sign_extend);
                let refill = rd == 15 || (write_back && rb == 15);
                let new_pc = if rd == 15 {
                    written_pc(self.thumb(), loaded)
                } else {
                    written_pc(self.thumb(), moved)
                };
                rd < 16 && rb < 16 ==> {
                    &&& forall|j: int|
                        0 <= j < 15 ==> #[trigger] after.registers[j] == if j == rd {
                            loaded
                        } else if write_back && j == rb {
                            moved
                        } else {
                            self.registers[j]
                        }
                    &&& refill ==> after.registers[15] == written_pc(self.thumb(), wadd(new_pc, 8))
                    &&& !refill ==> after.registers[15] == advanced_pc(self.thumb(), old_pc, 4)
                    &&& Cpu::bus_cycle_finished(
                        load_bus(mid, address, access_size, sign_extend),
                        after,
                        refill,
                        new_pc,
                        decoded_arm(self.prefetch_opcode),
                        Some(self.bus.fetching_from(old_pc).word_at(old_pc)),
                    )
                    &&& after == Cpu {
                        registers: after.registers,
                        bus: after.bus,
                        pre_decode_arm: after.pre_decode_arm,
                        prefetch_opcode: after.prefetch_opcode,
                        ..self
                    }
                }
            }))
    }

    pub open spec fn arm_str_effect(self, after: Cpu, access_size: SingleDataMemoryAccessSize, base_register: Register, index_type: SingleDataTransferIndexType, offset_info: SingleDataTransferOffsetInfo, source_register: Register) -> bool {
        &&& (({
                let old_pc = self.registers[15];
                let mid = self.bus.fetching_from(old_pc).after_word_read(old_pc);
                let base = self.register_value(base_register, PcCalculation::Identity);
                let off = self.str_offset(offset_info.value);
                let moved = if offset_info.sign {
                    wsub(base, off)
                } else {
                    wadd(base, off)
                };
                let (address, write_back) = match index_type {
                    SingleDataTransferIndexType::PostIndex { .. } => (base, true),
                    SingleDataTransferIndexType::PreIndex { write_back } => (moved, write_back),
                };
                let value = self.register_value(source_register, PcCalculation::Plus(4));
                let rb = register_index(base_register);
                &&& stored(mid, after.bus, address, value, access_size)
                &&& rb < 15 ==> {
                    &&& write_back ==> after.registers[rb] == moved
                    &&& !write_back ==> after.registers[rb] == self.registers[rb]
                    &&& forall|j: int| 0 <= j < 15 && j != rb ==> after.registers[j] == self.registers[j]
                    &&& after.registers[15] == advanced_pc(self.thumb(), old_pc, 4)
                    &&& after.cpsr == self.cpsr
                }
            }))
    }

    /// LDM without the S bit: each listed register takes the word of its
    /// read (R15 word aligned, and in ARM state the pipeline refilled there
    /// so that it ends eight bytes on; an empty list loads R15 alone);
    /// registers not listed keep their values; an unlisted base moves by four
    /// bytes per listed register (0x40 for an empty list) when written back;
    /// without R15 in a non-empty list, R15 moves on. After the reads the bus
    /// runs one cycle; the instruction itself writes nothing to memory, and
    /// only the registers, the bus and the pipeline change.
    pub open spec fn arm_ldm_effect(self, after: Cpu, index_type: BlockDataTransferIndexType, offset_modifier: OffsetModifierType, write_back: bool, base_register: Register, register_list: u16, force_user_mode: bool) -> bool {
        &&& !force_user_mode ==> self.arm_ldm_plain(after, index_type, offset_modifier, write_back, base_register, register_list)
        &&& force_user_mode ==> self.arm_ldm_user(after, index_type, offset_modifier, base_register, register_list)
    }

    /// `after` agrees with `x` but for R0-R15 and the bus.
    #[verifier::opaque]
    pub open spec fn same_but_registers_and_bus(after: Cpu, x: Cpu) -> bool {
        after == Cpu { registers: after.registers, bus: after.bus, ..x }
    }

    /// LDM without the S bit (see `arm_ldm_effect`).
    pub open spec fn arm_ldm_plain(self, after: Cpu, index_type: BlockDataTransferIndexType, offset_modifier: OffsetModifierType, write_back: bool, base_register: Register, register_list: u16) -> bool {
        let b = register_index(base_register);
        let add = offset_modifier == OffsetModifierType::AddToBase;
        let mid = self.bus.fetching_from(self.registers[15]).after_word_read(self.registers[15]);
        let pre = index_type == BlockDataTransferIndexType::PreIndex;
        let addresses = ldm_addresses(self.registers[b], add, pre, bits_set(register_list, 16));
        let loaded = mid.words_read(addresses);
        let empty_address = ldm_empty_address(self.registers[b], add, pre);
        let refill = register_list == 0 || bit_of_u16(register_list, 15);
        let new_pc = written_pc(
            self.thumb(),
            if register_list == 0 {
                mid.word_at(empty_address)
            } else {
                loaded[ldm_slot(register_list, 15, add)]
            },
        );
        let read_bus = if register_list == 0 {
            mid.after_word_read(empty_address)
        } else {
            mid.after_words_read(addresses)
        };
        b < 15 ==> {
            &&& forall|j: int| 0 <= j < 15 && bit_of_u16(register_list, j as u16) ==> #[trigger] after.registers[j] == loaded[ldm_slot(register_list, j, add)]
            &&& bit_of_u16(register_list, 15) && !self.thumb() ==> after.registers[15] == wadd(
                loaded[ldm_slot(register_list, 15, add)] & !3u32,
                8,
            ) & !3u32
            &&& register_list == 0 && !self.thumb() ==> after.registers[15] == wadd(
                mid.word_at(ldm_empty_address(self.registers[b], add, index_type == BlockDataTransferIndexType::PreIndex)) & !3u32,
                8,
            ) & !3u32
            &&& forall|j: int| 0 <= j < 15 && j != b && !bit_of_u16(register_list, j as u16) ==> #[trigger] after.registers[j] == self.registers[j]
            &&& !bit_of_u16(register_list, b as u16) ==> after.registers[b] == (if write_back {
                block_new_base(self.registers[b], offset_modifier, register_list)
            } else {
                self.registers[b]
            })
            &&& register_list != 0 && !bit_of_u16(register_list, 15) ==> after.registers[15] == advanced_pc(self.thumb(), self.registers[15], 4)
            &&& after.cpsr == self.cpsr
            &&& refill ==> after.registers[15] == written_pc(self.thumb(), wadd(new_pc, 8))
            &&& Cpu::bus_cycle_finished(
                read_bus,
                after,
                refill,
                new_pc,
                decoded_arm(self.prefetch_opcode),
                Some(self.bus.fetching_from(self.registers[15]).word_at(self.registers[15])),
            )
            &&& after == Cpu {
                registers: after.registers,
                bus: after.bus,
                pre_decode_arm: after.pre_decode_arm,
                prefetch_opcode: after.prefetch_opcode,
                ..self
            }
        }
    }

    /// LDM with the S bit: the mode stays, and each listed register of
    /// R0-R14 but the base is loaded into its user-bank copy, whatever the
    /// current mode; every other copy keeps its value.
    pub open spec fn arm_ldm_user(self, after: Cpu, index_type: BlockDataTransferIndexType, offset_modifier: OffsetModifierType, base_register: Register, register_list: u16) -> bool {
        let b = register_index(base_register);
        let add = offset_modifier == OffsetModifierType::AddToBase;
        let mid = self.bus.fetching_from(self.registers[15]).after_word_read(self.registers[15]);
        let pre = index_type == BlockDataTransferIndexType::PreIndex;
        let addresses = ldm_addresses(self.registers[b], add, pre, bits_set(register_list, 16));
        let loaded = mid.words_read(addresses);
        b < 15 ==> {
            &&& after.mode() == self.mode()
            &&& forall|m: CpuMode, j: int|
                0 <= j < 15 && j != b ==> #[trigger] after.register_in_mode(m, j) == if bit_of_u16(register_list, j as u16)
                    && bank_of(m, j) == bank_of(CpuMode::User, j) {
                    loaded[ldm_slot(register_list, j, add)]
                } else {
                    self.register_in_mode(m, j)
                }
        }
    }

    /// STM: the listed registers (R15 alone for an empty list) are written,
    /// lowest register at the lowest address, to consecutive words of the
    /// block below or above the base; R15 is stored one instruction ahead,
    /// and a listed base as its old value if it is the lowest listed
    /// register, else as its new value. With the S bit the other registers
    /// are stored from the user bank, whatever the current mode. The registers
    /// keep their values but for a written-back base, which moves by four
    /// bytes per listed register (0x40 for an empty list); R15 moves on.
    pub open spec fn arm_stm_effect(self, after: Cpu, index_type: BlockDataTransferIndexType, offset_modifier: OffsetModifierType, write_back: bool, base_register: Register, register_list: u16, force_user_mode: bool) -> bool {
        let b = register_index(base_register);
        let add = offset_modifier == OffsetModifierType::AddToBase;
        let pre = index_type == BlockDataTransferIndexType::PreIndex;
        let stored_list: u16 = if register_list == 0 {
            0x8000
        } else {
            register_list
        };
        let count: nat = if register_list == 0 {
            16
        } else {
            bits_set(register_list, 16)
        };
        let base = self.registers[b];
        let new_base = block_new_base(base, offset_modifier, register_list);
        let start = if add {
            base
        } else {
            wsub(base, (4 * count) as u32)
        };
        let addresses = stm_addresses(start, (add && pre) || (!add && !pre), bits_set(stored_list, 16));
        let mid = self.bus.fetching_from(self.registers[15]).after_word_read(self.registers[15]);
        b < 15 ==> {
            &&& block_stored(
                mid,
                after.bus,
                addresses,
                stored_list,
                if force_user_mode {
                    self.user_view()
                } else {
                    self.registers@
                },
                b,
                stm_base_word(base, stored_list, b, new_base),
            )
            &&& after.registers@ == self.registers@.update(b, if write_back {
                block_new_base(self.registers[b], offset_modifier, register_list)
            } else {
                self.registers[b]
            }).update(15, advanced_pc(self.thumb(), self.registers[15], 4))
            &&& after == Cpu { registers: after.registers, bus: after.bus, ..self.arm_fetched() }
        }
    }

    /// MUL/MLA and the long multiplies: the destination (RdHi:RdLo for the
    /// long forms) takes the product, N and Z follow it with the S bit, R15
    /// moves on, and the bus runs four cycles after the fetch; nothing else
    /// changes.
    pub open spec fn arm_mul_effect(self, after: Cpu, operation: MultiplyOperation, set_conditions: bool, destination_register_rdhi: Register, accumulate_register_rdlo: Register, operand_register_rm: Register, operand_register_rs: Register) -> bool {
        &&& (({
                let rm = self.register_value(operand_register_rm, PcCalculation::Identity);
                let rs = self.register_value(operand_register_rs, PcCalculation::Identity);
                let lo = self.register_value(accumulate_register_rdlo, PcCalculation::Identity);
                let hi = self.register_value(destination_register_rdhi, PcCalculation::Identity);
                let d = register_index(destination_register_rdhi);
                let l = register_index(accumulate_register_rdlo);
                let next = advanced_pc(self.thumb(), self.registers[15], 4);
                &&& d < 15 && (l < 15 || operation == MultiplyOperation::Mul || operation == MultiplyOperation::Mla) ==> {
                    &&& bus_ran(self.arm_fetched().bus, after.bus, 4)
                    &&& after == Cpu {
                        registers: after.registers,
                        cpsr: after.cpsr,
                        bus: after.bus,
                        ..self.arm_fetched()
                    }
                }
                &&& d < 15 && (operation == MultiplyOperation::Mul || operation == MultiplyOperation::Mla) ==> {
                    let result = mul32(operation, rm, rs, lo);
                    &&& after.registers@ == self.registers@.update(d, result).update(15, next)
                    &&& after.cpsr == (if set_conditions {
                        with_bit_u32(with_bit_u32(self.cpsr, ZERO_FLAG_BIT, result == 0), SIGN_FLAG_BIT, bit_of_u32(result, 31))
                    } else {
                        self.cpsr
                    })
                }
                &&& d < 15 && l < 15 && !(operation == MultiplyOperation::Mul || operation == MultiplyOperation::Mla) ==> {
                    let result = mul64(operation, rm, rs, lo, hi);
                    &&& after.registers@ == self.registers@.update(l, result as u32).update(d, (result >> 32u64) as u32).update(
                        15,
                        next,
                    )
                    &&& after.cpsr == (if set_conditions {
                        with_bit_u32(with_bit_u32(self.cpsr, ZERO_FLAG_BIT, result == 0), SIGN_FLAG_BIT, result >> 63u64 == 1)
                    } else {
                        self.cpsr
                    })
                }
            }))
    }

    /// SWP: the destination takes the old memory value (a rotated word or a
    /// byte), then the source register's value is stored at the address.
    pub open spec fn arm_swp_effect(self, after: Cpu, access_size: SwpAccessSize, base_register: Register, dest_register: Register, source_register: Register) -> bool {
        let old_pc = self.registers[15];
        let mid = self.bus.fetching_from(old_pc).after_word_read(old_pc);
        let address = self.register_value(base_register, PcCalculation::Identity);
        let value = self.register_value(source_register, PcCalculation::Identity);
        let d = register_index(dest_register);
        d < 15 ==> {
            &&& after.registers@ == self.registers@.update(d, match access_size {
                SwpAccessSize::Byte => mid.byte_at(address) as u32,
                SwpAccessSize::Word => rotate_right_spec(mid.word_at(address), ((address & 3u32) * 8) as u32),
            }).update(15, advanced_pc(self.thumb(), old_pc, 4))
            &&& match access_size {
                SwpAccessSize::Byte => mid.after_byte_read(address).byte_written(&after.bus, value as u8, address),
                SwpAccessSize::Word => mid.after_word_read(address).word_written(&after.bus, value, address),
            }
            &&& after == Cpu { registers: after.registers, bus: after.bus, ..self.arm_fetched() }
        }
    }

    /// The operands of a data-processing instruction, read after the
    /// prefetch (and, for a shift by register, after the extra cycle).
    fn alu_inputs(&mut self, first_operand: Register, second_operand: AluSecondOperandInfo) -> (r: (u32, u32, bool, u32))
        requires
            old(self).wf(),
        ensures
            final(self).wf(),
            final(self).registers == old(self).registers,
            final(self).cpsr == old(self).cpsr,
            final(self).spsr == old(self).spsr,
            final(self).pre_decode_arm == decoded_arm(old(self).prefetch_opcode),
            r.3 == old(self).registers[15],
            old(self).alu_read_bus(final(self).bus, second_operand),
            *final(self) == (Cpu {
                bus: final(self).bus,
                pre_decode_arm: decoded_arm(old(self).prefetch_opcode),
                prefetch_opcode: Some(old(self).bus.fetching_from(old(self).registers[15]).word_at(old(self).registers[15])),
                ..*old(self)
            }),
            ({
                let by_register = second_operand matches AluSecondOperandInfo::Register {
                    shift_info: ArmRegisterOrImmediate::Register(_),
                    ..
                };
                &&& r.0 == old(self).register_value(first_operand, if by_register {
                    PcCalculation::Plus(4)
                } else {
                    PcCalculation::Identity
                })
                &&& (r.1, r.2) == old(self).alu_second(second_operand)
            }),
    {
        let ghost start = *self;
        let old_pc = self.arm_prefetch();
        let by_register = match second_operand {
            AluSecondOperandInfo::Register { shift_info: ArmRegisterOrImmediate::Register(_), .. } => true,
            _ => false,
        };
        if by_register {
            self.bus.step();
        }
        let pc_calculation = if by_register {
            PcCalculation::Plus(4)
        } else {
            PcCalculation::Identity
        };
        let a = self.read_register(first_operand, pc_calculation);
        let (b, shifter_carry) = self.evaluate_alu_second_operand(second_operand);
        assert(self.alu_second(second_operand) == start.alu_second(second_operand));
        (a, b, shifter_carry, old_pc)
    }

    /// Writes back the outcome of a data-processing instruction: the flags,
    /// the destination register and the program counter.
    fn alu_commit(
        &mut self,
        writes: bool,
        result: u32,
        carry: bool,
        overflow: bool,
        destination_operand: Register,
        set_conditions: bool,
        old_pc: u32,
    )
        requires
            old(self).wf(),
        ensures
            final(self).wf(),
            ({
                let d = register_index(destination_operand);
                d < 15 ==> {
                    &&& final(self).registers[15] == advanced_pc(old(self).thumb(), old_pc, 4)
                    &&& writes ==> final(self).registers[d] == result
                    &&& !writes ==> final(self).registers[d] == old(self).registers[d]
                    &&& forall|j: int| 0 <= j < 15 && j != d ==> final(self).registers[j] == old(self).registers[j]
                    &&& set_conditions ==> final(self).cpsr == with_flags(old(self).cpsr, bit_of_u32(result, 31), result == 0, carry, overflow)
                    &&& !set_conditions ==> final(self).cpsr == old(self).cpsr
                    &&& final(self).pre_decode_arm == old(self).pre_decode_arm
                    &&& *final(self) == (Cpu { registers: final(self).registers, cpsr: final(self).cpsr, ..*old(self) })
                }
            }),
            register_index(destination_operand) == 15 ==> Cpu::alu_pc_written(
                *old(self),
                *final(self),
                writes,
                result,
                set_conditions,
                old_pc,
            ),
    {
        let ghost mid = *self;
        if set_conditions {
            self.set_flags(get_bit_u32(result, 31), result == 0, carry, overflow);
            proof {
                assert forall|m: CpuMode, i: int| 0 <= i < 16 implies #[trigger] self.register_in_mode(m, i)
                    == mid.register_in_mode(m, i) by {}
                assert forall|m: CpuMode| spsr_bank_of(m) != 0 implies #[trigger] self.spsr_in_mode(m) == mid.spsr_in_mode(
                    m,
                ) by {}
            }
            if destination_operand == Register::R15 {
                let saved = self.spsr;
                self.write_register(saved, Register::Cpsr);
            }
        }
        let ghost restored = *self;
        proof {
            assert forall|m: CpuMode, i: int| 0 <= i < 16 implies #[trigger] restored.register_in_mode(m, i)
                == mid.register_in_mode(m, i) by {}
            assert forall|m: CpuMode| spsr_bank_of(m) != 0 implies #[trigger] restored.spsr_in_mode(m)
                == mid.spsr_in_mode(m) by {}
        }
        if writes {
            self.write_register(result, destination_operand);
            let ghost pc_written = *self;
            if destination_operand == Register::R15 {
                proof {
                    assert forall|m: CpuMode, i: int| 0 <= i < 15 implies #[trigger] pc_written.register_in_mode(m, i)
                        == restored.register_in_mode(m, i) by {}
                    assert forall|m: CpuMode| spsr_bank_of(m) != 0 implies #[trigger] pc_written.spsr_in_mode(m)
                        == restored.spsr_in_mode(m) by {}
                }
                if self.get_instruction_mode() == InstructionSet::Arm {
                    self.arm_refill(result);
                } else {
                    self.thumb_refill(result);
                }
                proof {
                    assert forall|m: CpuMode, i: int| 0 <= i < 15 implies #[trigger] self.register_in_mode(m, i)
                        == pc_written.register_in_mode(m, i) by {}
                    assert forall|m: CpuMode| spsr_bank_of(m) != 0 implies #[trigger] self.spsr_in_mode(m)
                        == pc_written.spsr_in_mode(m) by {}
                }
            } else {
                self.arm_advance(old_pc);
            }
        } else {
            self.arm_advance(old_pc);
            proof {
                assert forall|m: CpuMode, i: int| 0 <= i < 15 implies #[trigger] self.register_in_mode(m, i)
                    == restored.register_in_mode(m, i) by {}
                assert forall|m: CpuMode| spsr_bank_of(m) != 0 implies #[trigger] self.spsr_in_mode(m)
                    == restored.spsr_in_mode(m) by {}
            }
        }
    }

    /// Data processing: the operation on the first operand and the (shifted)
    /// second operand, with the flags set when requested. A flag-setting
    /// write of R15 also restores the status register from the saved one.
    pub fn execute_arm_alu(
        &mut self,
        operation: AluOperation,
        first_operand: Register,
        second_operand: AluSecondOperandInfo,
        destination_operand: Register,
        set_conditions: bool,
    )
        requires
            old(self).wf(),
        ensures
            final(self).wf(),
            old(self).arm_alu_effect(*final(self), operation, first_operand, second_operand, destination_operand, set_conditions),
    {
        let (a, b, shifter_carry, old_pc) = self.alu_inputs(first_operand, second_operand);
        let ghost mid = *self;
        let c = self.get_carry_flag();
        let v = self.get_overflow_flag();
        let (result, carry, overflow) = alu_compute(operation, a, b, shifter_carry, c, v);
        let writes = match operation {
            AluOperation::Tst | AluOperation::Teq | AluOperation::Cmp | AluOperation::Cmn => false,
            _ => true,
        };
        self.alu_commit(writes, result, carry, overflow, destination_operand, set_conditions, old_pc);
        proof {
            if register_index(destination_operand) == 15 {
                assert(old(self).alu_read_bus(mid.bus, second_operand));
            }
        }
    }

    /// B: branch to the program counter plus the offset.
    pub fn execute_arm_b(&mut self, offset: i32)
        requires
            old(self).wf(),
        ensures
            final(self).wf(),
            old(self).arm_b_effect(*final(self), offset),
    {
        let old_pc = self.registers[15];
        let _ = self.bus.fetch_arm_opcode(old_pc);
        let new_pc = old_pc.wrapping_add(offset as u32);
        self.arm_refill(new_pc);
    }

    /// BL: branch, saving the address of the next instruction in R14.
    pub fn execute_arm_bl(&mut self, offset: i32)
        requires
            old(self).wf(),
        ensures
            final(self).wf(),
            old(self).arm_bl_effect(*final(self), offset),
    {
        let old_pc = self.registers[15];
        let _ = self.bus.fetch_arm_opcode(old_pc);
        self.write_register(old_pc.wrapping_sub(4), Register::R14);
        let new_pc = old_pc.wrapping_add(offset as u32);
        self.arm_refill(new_pc);
    }

    /// BX: branch to the operand's address, entering Thumb state when its
    /// bit 0 is set.
    #[verifier::rlimit(30)]
    pub fn execute_arm_bx(&mut self, operand: Register)
        requires
            old(self).wf(),
        ensures
            final(self).wf(),
            old(self).arm_bx_effect(*final(self), operand),
    {
        let old_pc = self.registers[15];
        let _ = self.bus.fetch_arm_opcode(old_pc);
        let target = self.read_register(operand, PcCalculation::Identity);
        let thumb = get_bit_u32(target, 0);
        self.set_cpsr_bit(STATE_BIT, thumb);
        proof {
            lemma_with_bit_u32(old(self).cpsr, STATE_BIT, thumb);
        }
        let new_pc = target & !1u32;
        if thumb {
            self.thumb_refill(new_pc);
        } else {
            self.arm_refill(new_pc);
        }
    }

    /// MSR: writes the fields of a status register selected by the field
    /// mask from an immediate or a register.
    pub fn execute_arm_msr(
        &mut self,
        destination_psr: PsrTransferPsr,
        source_info: MsrSourceInfo,
        write_control_field: bool,
        write_extension_field: bool,
        write_flags_field: bool,
        write_status_field: bool,
    )
        requires
            old(self).wf(),
        ensures
            final(self).wf(),
            old(self).arm_msr_effect(*final(self), destination_psr, source_info, write_control_field, write_extension_field, write_flags_field, write_status_field),
    {
        let old_pc = self.arm_prefetch();
        let source_value = match source_info {
            MsrSourceInfo::Immediate { value } => value,
            MsrSourceInfo::Register(register) => self.read_register(register, PcCalculation::Identity),
        };
        let f: u32 = if write_flags_field {
            0xFF00_0000
        } else {
            0
        };
        let st: u32 = if write_status_field {
            0x00FF_0000
        } else {
            0
        };
        let e: u32 = if write_extension_field {
            0x0000_FF00
        } else {
            0
        };
        let c: u32 = if write_control_field {
            0x0000_00FF
        } else {
            0
        };
        let write_mask = ((f | st) | e) | c;
        let psr_register = match destination_psr {
            PsrTransferPsr::Cpsr => Register::Cpsr,
            PsrTransferPsr::Spsr => Register::Spsr,
        };
        let current_psr = self.read_register(psr_register, PcCalculation::Identity);
        let new_value = (source_value & write_mask) | (current_psr & !write_mask);
        self.write_register(new_value, psr_register);
        self.arm_advance(old_pc);
    }

    /// MRS: copies a status register into a register.
    pub fn execute_arm_mrs(&mut self, destination_register: Register, source_psr: PsrTransferPsr)
        requires
            old(self).wf(),
        ensures
            final(self).wf(),
            old(self).arm_mrs_effect(*final(self), destination_register, source_psr),
    {
        let old_pc = self.arm_prefetch();
        let value = match source_psr {
            PsrTransferPsr::Cpsr => self.cpsr,
            PsrTransferPsr::Spsr => self.spsr,
        };
        self.write_register(value, destination_register);
        if destination_register != Register::Cpsr {
            self.arm_advance(old_pc);
        } else {
            self.arm_advance(old_pc);
        }
    }

    /// The offset of a load: an immediate, a register, or a register shifted
    /// by an immediate (with the immediate shifter's encodings of 0).
    pub open spec fn ldr_offset(&self, value: SingleDataTransferOffsetValue) -> u32 {
        match value {
            SingleDataTransferOffsetValue::Immediate { offset } => offset,
            SingleDataTransferOffsetValue::Register { offset_register } => self.register_value(
                offset_register,
                PcCalculation::Identity,
            ),
            SingleDataTransferOffsetValue::RegisterImmediate { shift_amount, shift_type, offset_register } => shifter(
                shift_type,
                self.register_value(offset_register, PcCalculation::Identity),
                shift_amount % 32,
                self.flag(CARRY_FLAG_BIT),
                false,
            ).0,
        }
    }

    /// The offset of a store: as for a load, but a shift by 0 leaves the
    /// register unchanged.
    pub open spec fn str_offset(&self, value: SingleDataTransferOffsetValue) -> u32 {
        match value {
            SingleDataTransferOffsetValue::Immediate { offset } => offset,
            SingleDataTransferOffsetValue::Register { offset_register } => self.register_value(
                offset_register,
                PcCalculation::Identity,
            ),
            SingleDataTransferOffsetValue::RegisterImmediate { shift_amount, shift_type, offset_register } => shift_spec(
                shift_type,
                self.register_value(offset_register, PcCalculation::Identity),
                shift_amount % 32,
            ),
        }
    }

    fn evaluate_ldr_offset(&self, value: SingleDataTransferOffsetValue) -> (r: u32)
        ensures
            r == self.ldr_offset(value),
    {
        match value {
            SingleDataTransferOffsetValue::Immediate { offset } => offset,
            SingleDataTransferOffsetValue::Register { offset_register } => self.read_register(
                offset_register,
                PcCalculation::Identity,
            ),
            SingleDataTransferOffsetValue::RegisterImmediate { shift_amount, shift_type, offset_register } => {
                let v = self.read_register(offset_register, PcCalculation::Identity);
                let c = self.get_carry_flag();
                barrel_shift(shift_type, v, shift_amount % 32, c, false).0
            },
        }
    }

    fn evaluate_str_offset(&self, value: SingleDataTransferOffsetValue) -> (r: u32)
        ensures
            r == self.str_offset(value),
    {
        match value {
            SingleDataTransferOffsetValue::Immediate { offset } => offset,
            SingleDataTransferOffsetValue::Register { offset_register } => self.read_register(
                offset_register,
                PcCalculation::Identity,
            ),
            SingleDataTransferOffsetValue::RegisterImmediate { shift_amount, shift_type, offset_register } => {
                let v = self.read_register(offset_register, PcCalculation::Identity);
                shift_type.evaluate(v, shift_amount % 32)
            },
        }
    }

    /// LDR/LDRB/LDRH/LDRSB/LDRSH: loads from the base plus or minus the
    /// offset (pre-indexed) or from the base (post-indexed, which always
    /// writes the new address back). Unaligned words and halfwords are
    /// rotated; LDRSH from an odd address loads a sign-extended byte. A load
    /// into R15 refills the pipeline.
    #[verifier::spinoff_prover]
    #[verifier::rlimit(100)]
    pub fn execute_arm_ldr(
        &mut self,
        access_size: SingleDataMemoryAccessSize,
        base_register: Register,
        destination_register: Register,
        index_type: SingleDataTransferIndexType,
        offset_info: SingleDataTransferOffsetInfo,
        sign_extend: bool,
    )
        requires
            old(self).wf(),
            access_size != SingleDataMemoryAccessSize::DoubleWord,
            !(access_size == SingleDataMemoryAccessSize::Word && sign_extend),
        ensures
            final(self).wf(),
            old(self).arm_ldr_effect(*final(self), access_size, base_register, destination_register, index_type, offset_info, sign_extend),
    {
        let ghost start = *self;
        let old_pc = self.arm_prefetch();
        let base_address = self.read_register(base_register, PcCalculation::Identity);
        let offset_amount = self.evaluate_ldr_offset(offset_info.value);
        assert(self.ldr_offset(offset_info.value) == start.ldr_offset(offset_info.value));
        let offset_address = if offset_info.sign {
            base_address.wrapping_sub(offset_amount)
        } else {
            base_address.wrapping_add(offset_amount)
        };
        let general = base_register.is_general_register() && destination_register.is_general_register();
        let (address, base_modified) = match index_type {
            SingleDataTransferIndexType::PostIndex { .. } => (base_address, true),
            SingleDataTransferIndexType::PreIndex { write_back } => (offset_address, write_back),
        };
        if base_modified {
            if general {
                self.write_numbered_register(offset_address, base_register);
            } else {
                self.write_register(offset_address, base_register);
            }
        }
        let ghost written_back = *self;
        let ghost mid = self.bus;
        let value = self.load(address, access_size, sign_extend);
        if general {
            self.write_numbered_register(value, destination_register);
        } else {
            self.write_register(value, destination_register);
        }
        let ghost loaded = *self;
        let r15_modified = destination_register == Register::R15 || (base_modified && base_register
            == Register::R15);
        self.finish_with_bus_cycle(r15_modified, old_pc);
        proof {
            if general {
                lemma_ldr_done(
                    start,
                    written_back,
                    loaded,
                    *self,
                    access_size,
                    base_register,
                    destination_register,
                    index_type,
                    offset_info,
                    sign_extend,
                    address,
                    offset_address,
                    base_modified,
                    value,
                );
            }
        }
    }

    /// One load of `access_size` from the bus, as `load_value` states.
    fn load(&mut self, address: u32, access_size: SingleDataMemoryAccessSize, sign_extend: bool) -> (r: u32)
        requires
            old(self).wf(),
            access_size != SingleDataMemoryAccessSize::DoubleWord,
            !(access_size == SingleDataMemoryAccessSize::Word && sign_extend),
        ensures
            final(self).wf(),
            r == load_value(old(self).bus, address, access_size, sign_extend),
            *final(self) == (Cpu { bus: load_bus(old(self).bus, address, access_size, sign_extend), ..*old(self) }),
    {
        assert(((address & 1u32) * 8) < 32 && ((address & 3u32) * 8) < 32) by {
            crate::bits::lemma_u32_address(address);
        }
        match access_size {
            SingleDataMemoryAccessSize::Byte => {
                let b = self.bus.read_byte_address(address);
                if sign_extend {
                    sign_extend_byte(b)
                } else {
                    b as u32
                }
            },
            SingleDataMemoryAccessSize::HalfWord => {
                if !sign_extend {
                    let h = self.bus.read_halfword_address(address);
                    rotate_right(h as u32, (address & 1) * 8)
                } else if address & 1 == 0 {
                    let h = self.bus.read_halfword_address(address);
                    sign_extend_hword(h)
                } else {
                    let b = self.bus.read_byte_address(address);
                    sign_extend_byte(b)
                }
            },
            _ => {
                let w = self.bus.read_word_address(address);
                rotate_right(w, (address & 3) * 8)
            },
        }
    }

    /// STR/STRB/STRH: stores the source register (reading R15 one
    /// instruction further ahead) at the base plus or minus the offset
    /// (pre-indexed) or at the base (post-indexed, which always writes the
    /// new address back).
    pub fn execute_arm_str(
        &mut self,
        access_size: SingleDataMemoryAccessSize,
        base_register: Register,
        index_type: SingleDataTransferIndexType,
        offset_info: SingleDataTransferOffsetInfo,
        source_register: Register,
    )
        requires
            old(self).wf(),
            access_size != SingleDataMemoryAccessSize::DoubleWord,
        ensures
            final(self).wf(),
            old(self).arm_str_effect(*final(self), access_size, base_register, index_type, offset_info, source_register),
    {
        let ghost start = *self;
        let old_pc = self.arm_prefetch();
        let base_address = self.read_register(base_register, PcCalculation::Identity);
        let offset_amount = self.evaluate_str_offset(offset_info.value);
        assert(self.str_offset(offset_info.value) == start.str_offset(offset_info.value));
        let offset_address = if offset_info.sign {
            base_address.wrapping_sub(offset_amount)
        } else {
            base_address.wrapping_add(offset_amount)
        };
        let value = self.read_register(source_register, PcCalculation::Plus(4));
        let address = match index_type {
            SingleDataTransferIndexType::PostIndex { .. } => {
                self.write_register(offset_address, base_register);
                base_address
            },
            SingleDataTransferIndexType::PreIndex { write_back } => {
                if write_back {
                    self.write_register(offset_address, base_register);
                }
                offset_address
            },
        };
        match access_size {
            SingleDataMemoryAccessSize::Byte => self.bus.write_byte_address(value as u8, address),
            SingleDataMemoryAccessSize::HalfWord => self.bus.write_halfword_address(value as u16, address),
            _ => self.bus.write_word_address(value, address),
        }
        self.arm_advance(old_pc);
    }

    /// Writes a register as user mode sees it (for LDM with the S bit and
    /// no R15): switches to user mode, writes, and switches back. Every mode
    /// that shares user mode's copy of a register R0-R14 sees the value, R15
    /// takes it aligned, and all other copies, the saved status registers,
    /// the mode and the rest of the core stay as they were (the mode bits of
    /// the status register are rewritten as those of the mode they select).
    fn write_register_user_mode(&mut self, value: u32, register: Register)
        requires
            old(self).wf(),
        ensures
            final(self).wf(),
            register != Register::Cpsr ==> final(self).cpsr == with_field_u32(old(self).cpsr, mode_bits(old(self).mode()), 0, 5),
            register == Register::Cpsr ==> final(self).cpsr == with_field_u32(value, mode_bits(old(self).mode()), 0, 5),
            final(self).mode() == old(self).mode(),
            register_index(register) < 15 ==> forall|m: CpuMode, i: int|
                0 <= i < 16 ==> #[trigger] final(self).register_in_mode(m, i) == if i == register_index(register)
                    && bank_of(m, i) == bank_of(CpuMode::User, i) {
                    value
                } else {
                    old(self).register_in_mode(m, i)
                },
            register == Register::R15 ==> forall|m: CpuMode, i: int|
                0 <= i < 16 ==> #[trigger] final(self).register_in_mode(m, i) == if i == 15 {
                    written_pc(old(self).thumb(), value)
                } else {
                    old(self).register_in_mode(m, i)
                },
            register_index(register) < 16 ==> forall|m: CpuMode|
                spsr_bank_of(m) != 0 ==> #[trigger] final(self).spsr_in_mode(m) == old(self).spsr_in_mode(m),
            final(self).bus == old(self).bus,
            final(self).cycle_count == old(self).cycle_count,
            final(self).prefetch_opcode == old(self).prefetch_opcode,
            final(self).pre_decode_arm == old(self).pre_decode_arm,
            final(self).pre_decode_thumb == old(self).pre_decode_thumb,
    {
        let ghost start = *self;
        let old_mode = self.get_cpu_mode();
        self.set_cpu_mode(CpuMode::User);
        let ghost user = *self;
        proof {
            let c = start.cpsr;
            assert(bit_of_u32(with_field_u32(c, 0x10u32, 0, 5), 5) == bit_of_u32(c, 5)) by (bit_vector);
            assert(user.thumb() == start.thumb());
        }
        self.write_register(value, register);
        let ghost written = *self;
        proof {
            if register_index(register) < 16 {
                assert forall|m: CpuMode, i: int| 0 <= i < 16 implies #[trigger] written.register_in_mode(m, i)
                    == if i == register_index(register) && bank_of(m, i) == bank_of(CpuMode::User, i) {
                    written.registers[i]
                } else {
                    user.register_in_mode(m, i)
                } by {}
                assert forall|m: CpuMode| spsr_bank_of(m) != 0 implies #[trigger] written.spsr_in_mode(m)
                    == user.spsr_in_mode(m) by {}
            }
        }
        self.set_cpu_mode(old_mode);
        proof {
            let c = start.cpsr;
            let f = mode_bits(old_mode);
            assert(with_field_u32(with_field_u32(c, 0x10u32, 0, 5), f, 0, 5) == with_field_u32(c, f, 0, 5)) by (bit_vector);
            if register_index(register) < 16 {
                assert forall|m: CpuMode, i: int| 0 <= i < 16 implies #[trigger] self.register_in_mode(m, i)
                    == written.register_in_mode(m, i) by {}
                assert forall|m: CpuMode| spsr_bank_of(m) != 0 implies #[trigger] self.spsr_in_mode(m)
                    == start.spsr_in_mode(m) by {
                    assert(self.spsr_in_mode(m) == written.spsr_in_mode(m));
                    assert(user.spsr_in_mode(m) == start.spsr_in_mode(m));
                }
            }
        }
    }

    /// LDM: loads the listed registers from consecutive words, lowest
    /// register at the lowest address, incrementing or decrementing from the
    /// base before or after each access. An empty list loads R15 and moves
    /// the base by 0x40. The base is written back unless it is in the list.
    #[verifier::spinoff_prover]
    #[verifier::rlimit(100)]
    pub fn execute_arm_ldm(
        &mut self,
        index_type: BlockDataTransferIndexType,
        offset_modifier: OffsetModifierType,
        write_back: bool,
        base_register: Register,
        register_list: u16,
        force_user_mode: bool,
    )
        requires
            old(self).wf(),
        ensures
            final(self).wf(),
            old(self).arm_ldm_effect(*final(self), index_type, offset_modifier, write_back, base_register, register_list, force_user_mode),
    {
        let old_pc = self.arm_prefetch();
        let ghost mid = *self;
        let pre = index_type == BlockDataTransferIndexType::PreIndex;
        let add = offset_modifier == OffsetModifierType::AddToBase;
        let mut current_address = self.read_register(base_register, PcCalculation::Identity);
        let ghost base0 = current_address;
        let ghost mut count: nat = 0;
        let ghost mut addresses: Seq<u32> = Seq::empty();
        let ghost total = bits_set(register_list, 16);
        let mut r15_written = false;
        let mut n: u32 = 0;
        assert(addresses =~= ldm_addresses(base0, add, pre, 0));
        assert(Cpu::same_but_registers_and_bus(*self, mid)) by {
            reveal(Cpu::same_but_registers_and_bus);
        }
        while n < 16
            invariant
                self.wf(),
                total == bits_set(register_list, 16),
                addresses == ldm_addresses(base0, add, pre, count),
                self.bus == mid.bus.after_words_read(addresses),
                register_index(base_register) < 15 ==> base0 == mid.registers[register_index(base_register)],
                force_user_mode ==> self.mode() == mid.mode(),
                force_user_mode ==> forall|m: CpuMode, j: int|
                    0 <= j < 15 ==> #[trigger] self.register_in_mode(m, j) == if bit_of_u16(register_list, j as u16)
                        && ldm_turn_taken(j, n as nat, add) && bank_of(m, j) == bank_of(CpuMode::User, j) {
                        mid.bus.words_read(addresses)[ldm_slot(register_list, j, add)]
                    } else {
                        mid.register_in_mode(m, j)
                    },
                !force_user_mode ==> forall|j: int|
                    0 <= j < 15 && bit_of_u16(register_list, j as u16) && (if add {
                        j < n
                    } else {
                        j >= 16 - n
                    }) ==> #[trigger] self.registers[j] == mid.bus.words_read(addresses)[ldm_slot(register_list, j, add)],
                n <= 16,
                add == (offset_modifier == OffsetModifierType::AddToBase),
                pre == (index_type == BlockDataTransferIndexType::PreIndex),
                !r15_written && !force_user_mode ==> self.registers[15] == old_pc,
                r15_written ==> bit_of_u16(register_list, 15),
                r15_written ==> count >= 1,
                r15_written && add ==> n == 16,
                (if add {
                    n == 16
                } else {
                    n >= 1
                }) && bit_of_u16(register_list, 15) ==> r15_written,
                !force_user_mode && r15_written ==> self.registers[15] == written_pc(
                    mid.thumb(),
                    mid.bus.words_read(addresses)[ldm_slot(register_list, 15, add)],
                ),
                !force_user_mode ==> self.mode() == old(self).mode() && self.thumb() == old(self).thumb(),
                count <= n,
                register_list == 0 ==> count == 0,
                add ==> count == bits_set(register_list, n as nat),
                !add ==> count + bits_set(register_list, (16 - n) as nat) == bits_set(register_list, 16),
                current_address == (if add {
                    wadd(base0, (4 * count) as u32)
                } else {
                    wsub(base0, (4 * count) as u32)
                }),
                !force_user_mode ==> self.cpsr == mid.cpsr,
                !force_user_mode ==> Cpu::same_but_registers_and_bus(*self, mid),
                !force_user_mode ==> forall|j: int|
                    0 <= j < 15 && !(bit_of_u16(register_list, j as u16) && (if add {
                        j < n
                    } else {
                        j >= 16 - n
                    })) ==> #[trigger] self.registers[j] == mid.registers[j],
            decreases 16 - n,
        {
            let index: u32 = if add {
                n
            } else {
                15 - n
            };
            let ghost before_regs = self.registers;
            proof {
                if !add {
                    assert(bits_set(register_list, (16 - n) as nat) == bits_set(register_list, (15 - n) as nat) + if bit_of_u16(register_list, (15 - n) as u16) {
                        1nat
                    } else {
                        0nat
                    });
                }
                lemma_bits_set_bound(register_list, (15 - n) as nat, 16);
            }
            if get_bit_u16(register_list, index as u16) {
                proof {
                    if register_list == 0 {
                        crate::bits::lemma_u16_zero_bits(index as u16);
                    }
                    count = count + 1;
                }
                if pre {
                    current_address = if add {
                        current_address.wrapping_add(4)
                    } else {
                        current_address.wrapping_sub(4)
                    };
                }
                let ghost slot: nat = (count - 1) as nat;
                let ghost earlier = mid.bus.words_read(addresses);
                let ghost regs_before = self.registers;
                let ghost cpu_before = *self;
                let value = self.bus.read_word_address(current_address);
                proof {
                    lemma_words_read_push(mid.bus, addresses, current_address);
                    lemma_words_read_len(mid.bus, addresses);
                    assert(ldm_addresses(base0, add, pre, count) =~= addresses.push(current_address));
                    addresses = addresses.push(current_address);
                    assert(slot == ldm_slot(register_list, index as int, add));
                }
                let register = Register::from_index(index);
                if register == Register::R15 {
                    r15_written = true;
                }
                if force_user_mode {
                    self.write_register_user_mode(value, register);
                } else {
                    self.write_register(value, register);
                }
                assert(!force_user_mode ==> Cpu::same_but_registers_and_bus(*self, mid)) by {
                    reveal(Cpu::same_but_registers_and_bus);
                }
                proof {
                    if force_user_mode {
                        lemma_ldm_user_step(
                            register_list,
                            add,
                            n as nat,
                            index as int,
                            slot,
                            cpu_before,
                            *self,
                            mid,
                            earlier,
                            mid.bus.words_read(addresses),
                        );
                    }
                    if !force_user_mode && r15_written && index != 15 {
                        assert(bits_set(register_list, 16) == bits_set(register_list, 15) + 1);
                        assert(ldm_slot(register_list, 15, add) == 0);
                        assert(mid.bus.words_read(addresses)[0] == earlier[0]);
                    }
                    if !force_user_mode {
                        lemma_ldm_step(
                            register_list,
                            add,
                            n as nat,
                            index as int,
                            slot,
                            regs_before@,
                            self.registers@,
                            earlier,
                            mid.bus.words_read(addresses),
                        );
                    }
                }
                if !pre {
                    current_address = if add {
                        current_address.wrapping_add(4)
                    } else {
                        current_address.wrapping_sub(4)
                    };
                }
            }
            n = n + 1;
        }
        let ghost loop_exit = *self;
        let ghost loop_words = mid.bus.words_read(addresses);
        let ghost mut empty_word: u32 = 0;
        if register_list == 0 {
            proof {
                assert(addresses =~= Seq::<u32>::empty());
                assert(self.bus == mid.bus || force_user_mode);
            }
            if pre {
                current_address = if add {
                    current_address.wrapping_add(0x40)
                } else {
                    current_address.wrapping_sub(0x40)
                };
            }
            assert(current_address == ldm_empty_address(base0, add, pre));
            let value = self.bus.read_word_address(current_address);
            proof {
                empty_word = value;
            }
            r15_written = true;
            if force_user_mode {
                self.write_register_user_mode(value, Register::R15);
            } else {
                self.write_register(value, Register::R15);
            }
            if !pre {
                current_address = if add {
                    current_address.wrapping_add(0x40)
                } else {
                    current_address.wrapping_sub(0x40)
                };
            }
        }
        let ghost loop_end = *self;
        let base_in_list = base_register.is_general_register() && get_bit_u16(register_list, base_register.index() as u16);
        if !base_in_list && write_back {
            self.write_register(current_address, base_register);
        }
        let ghost written_back = *self;
        self.finish_with_bus_cycle(r15_written, old_pc);
        proof {
            let b = register_index(base_register);
            if force_user_mode {
                assert(old(self).arm_ldm_user(*self, index_type, offset_modifier, base_register, register_list)) by {
                    if b < 15 {
                        assert forall|m: CpuMode, j: int| 0 <= j < 15 && j != b implies #[trigger] self.register_in_mode(m, j)
                            == loop_end.register_in_mode(m, j) by {}
                        if register_list != 0 {
                            lemma_words_read_len(mid.bus, addresses);
                            assert(addresses == ldm_addresses(base0, add, pre, total));
                        } else {
                            assert forall|j: int| 0 <= j < 15 implies !#[trigger] bit_of_u16(register_list, j as u16) by {
                                crate::bits::lemma_u16_zero_bits(j as u16);
                            }
                        }
                        assert forall|m: CpuMode, j: int| 0 <= j < 15 implies #[trigger] mid.register_in_mode(m, j)
                            == old(self).register_in_mode(m, j) by {}
                        let loaded = mid.bus.words_read(ldm_addresses(base0, add, pre, total));
                        assert forall|m: CpuMode, j: int| 0 <= j < 15 && j != b implies #[trigger] self.register_in_mode(m, j)
                            == if bit_of_u16(register_list, j as u16) && bank_of(m, j) == bank_of(CpuMode::User, j) {
                            loaded[ldm_slot(register_list, j, add)]
                        } else {
                            old(self).register_in_mode(m, j)
                        } by {
                            assert(ldm_turn_taken(j, 16, add));
                            assert(loop_exit.register_in_mode(m, j) == if bit_of_u16(register_list, j as u16) && ldm_turn_taken(
                                j,
                                16,
                                add,
                            ) && bank_of(m, j) == bank_of(CpuMode::User, j) {
                                loop_words[ldm_slot(register_list, j, add)]
                            } else {
                                mid.register_in_mode(m, j)
                            });
                            assert(loop_end.register_in_mode(m, j) == loop_exit.register_in_mode(m, j));
                            assert(register_list != 0 ==> loop_words == loaded);
                            assert(self.register_in_mode(m, j) == loop_end.register_in_mode(m, j));
                            assert(mid.register_in_mode(m, j) == old(self).register_in_mode(m, j));
                        }
                        assert(self.mode() == old(self).mode());
                    }
                }
            } else {
                assert(old(self).arm_ldm_plain(*self, index_type, offset_modifier, write_back, base_register, register_list)) by {
                    reveal(Cpu::same_but_registers_and_bus);
                    if b < 15 && register_list != 0 {
                        lemma_words_read_len(mid.bus, addresses);
                        assert(addresses == ldm_addresses(base0, add, pre, total));
                    }
                    if register_list == 0 {
                        assert(empty_word == mid.bus.word_at(ldm_empty_address(base0, add, pre)));
                    }
                }
            }
        }
    }

    /// STM: stores the listed registers (reading R15 one instruction further
    /// ahead) to consecutive words, lowest register at the lowest address.
    /// An empty list stores R15 and moves the base by 0x40. A listed base is
    /// stored as its old value if it is the first listed register, else as
    /// its new value. With the S bit the other registers are read as user
    /// mode sees them.
    #[verifier::spinoff_prover]
    #[verifier::rlimit(50)]
    pub fn execute_arm_stm(
        &mut self,
        index_type: BlockDataTransferIndexType,
        offset_modifier: OffsetModifierType,
        write_back: bool,
        base_register: Register,
        register_list: u16,
        force_user_mode: bool,
    )
        requires
            old(self).wf(),
        ensures
            final(self).wf(),
            old(self).arm_stm_effect(*final(self), index_type, offset_modifier, write_back, base_register, register_list, force_user_mode),
    {
        let old_pc = self.arm_prefetch();
        let base_address = self.read_register(base_register, PcCalculation::Identity);
        let list: u16 = if register_list == 0 {
            0x8000
        } else {
            register_list
        };
        let count: u32 = if register_list == 0 {
            16
        } else {
            count_bits(register_list)
        };
        let add = offset_modifier == OffsetModifierType::AddToBase;
        let before_write = (add && index_type == BlockDataTransferIndexType::PreIndex) || (!add && index_type
            == BlockDataTransferIndexType::PostIndex);
        let new_base = if add {
            base_address.wrapping_add(4 * count)
        } else {
            base_address.wrapping_sub(4 * count)
        };
        let mut current_address = if add {
            base_address
        } else {
            base_address.wrapping_sub(4 * count)
        };
        let base_first = base_register.is_general_register() && lowest_bit(list) == base_register.index() as u32;
        let base_value = if base_first {
            base_address
        } else {
            new_base
        };
        let ghost mid = *self;
        let ghost start = current_address;
        let ghost b = register_index(base_register);
        let ghost source = if force_user_mode {
            mid.user_view()
        } else {
            mid.registers@
        };
        let ghost mut buses: Seq<Bus> = seq![self.bus];
        let ghost mut values: Seq<u32> = Seq::empty();
        let ghost mut addresses: Seq<u32> = Seq::empty();
        proof {
            lemma_words_written_none(self.bus);
            assert(addresses =~= stm_addresses(start, before_write, 0));
        }
        let mut i: u32 = 0;
        while i < 16
            invariant
                self.wf(),
                i <= 16,
                *self == (Cpu { bus: self.bus, ..mid }),
                b == register_index(base_register),
                bits_set(list, i as nat) <= i,
                current_address == wadd(start, (4 * bits_set(list, i as nat)) as u32),
                addresses == stm_addresses(start, before_write, bits_set(list, i as nat)),
                values.len() == bits_set(list, i as nat),
                mid.bus.words_written(&self.bus, buses, values, addresses),
                b < 15 ==> base_address == mid.registers[b],
                source == (if force_user_mode {
                    mid.user_view()
                } else {
                    mid.registers@
                }),
                forall|j: int|
                    0 <= j < i && bit_of_u16(list, j as u16) ==> #[trigger] values[bits_set(
                        list,
                        j as nat,
                    ) as int] == stm_word(source, j, b, base_value),
            decreases 16 - i,
        {
            proof {
                lemma_bits_set_bound(list, i as nat, (i + 1) as nat);
            }
            if get_bit_u16(list, i as u16) {
                let ghost slot = values.len();
                if before_write {
                    current_address = current_address.wrapping_add(4);
                }
                let register = Register::from_index(i);
                let value = if register == base_register {
                    base_value
                } else if force_user_mode {
                    self.read_user_register(register, PcCalculation::Plus(4))
                } else {
                    self.read_register(register, PcCalculation::Plus(4))
                };
                proof {
                    if force_user_mode && register != base_register {
                        assert(source[i as int] == mid.register_in_mode(CpuMode::User, i as int));
                    }
                }
                let ghost bus_before = self.bus;
                self.bus.write_word_address(value, current_address);
                proof {
                    assert(stm_addresses(start, before_write, (slot + 1) as nat) =~= addresses.push(current_address));
                    lemma_words_written_push(mid.bus, bus_before, self.bus, buses, values, addresses, value, current_address);
                    lemma_stm_step(list, i as nat, values, value, source, b, base_value);
                    buses = buses.push(self.bus);
                    values = values.push(value);
                    addresses = addresses.push(current_address);
                }
                if !before_write {
                    current_address = current_address.wrapping_add(4);
                }
            }
            i = i + 1;
        }
        assert(new_base == block_new_base(base_address, offset_modifier, register_list));
        let ghost stored_bus = self.bus;
        if write_back {
            self.write_register(new_base, base_register);
        }
        self.arm_advance(old_pc);
        proof {
            if b < 15 {
                // The writes of the loop are those that the contract names.
                assert(self.bus == stored_bus);
                assert(mid.user_view() =~= old(self).user_view());
                let spec_count: nat = if register_list == 0 {
                    16
                } else {
                    bits_set(register_list, 16)
                };
                let spec_mid = old(self).bus.fetching_from(old(self).registers[15]).after_word_read(old(self).registers[15]);
                let spec_word = stm_base_word(
                    old(self).registers[b],
                    list,
                    b,
                    block_new_base(old(self).registers[b], offset_modifier, register_list),
                );
                let spec_start = if add {
                    old(self).registers[b]
                } else {
                    wsub(old(self).registers[b], (4 * spec_count) as u32)
                };
                let pre = index_type == BlockDataTransferIndexType::PreIndex;
                assert(base_value == spec_word);
                assert(addresses == stm_addresses(spec_start, (add && pre) || (!add && !pre), bits_set(list, 16)));
                assert(block_wrote(
                    spec_mid,
                    self.bus,
                    addresses,
                    list,
                    source,
                    b,
                    spec_word,
                    buses,
                    values,
                ));
            }
            if b < 15 {
                assert(self.registers@ =~= old(self).registers@.update(b, if write_back {
                    block_new_base(old(self).registers[b], offset_modifier, register_list)
                } else {
                    old(self).registers[b]
                }).update(15, advanced_pc(old(self).thumb(), old(self).registers[15], 4)));
            }
        }
    }

    /// The end of an ARM instruction that runs the bus one cycle: the
    /// pipeline refilled at R15 (when `refill`), else R15 moved on from
    /// `old_pc`.
    fn finish_with_bus_cycle(&mut self, refill: bool, old_pc: u32)
        requires
            old(self).wf(),
        ensures
            final(self).wf(),
            Cpu::bus_cycle_finished(
                old(self).bus,
                *final(self),
                refill,
                old(self).registers[15],
                old(self).pre_decode_arm,
                old(self).prefetch_opcode,
            ),
            refill ==> final(self).registers@ == old(self).registers@.update(
                15,
                written_pc(old(self).thumb(), wadd(old(self).registers[15], 8)),
            ),
            !refill ==> final(self).registers@ == old(self).registers@.update(15, advanced_pc(old(self).thumb(), old_pc, 4)),
            *final(self) == (Cpu {
                registers: final(self).registers,
                bus: final(self).bus,
                pre_decode_arm: final(self).pre_decode_arm,
                prefetch_opcode: final(self).prefetch_opcode,
                ..*old(self)
            }),
    {
        self.bus.step();
        let ghost stepped = self.bus;
        if refill {
            let new_pc = self.registers[15];
            self.arm_refill(new_pc);
        } else {
            self.arm_advance(old_pc);
        }
        assert(bus_cycled(old(self).bus, stepped));
    }

    /// Writes one of R0-R15 (R15 aligned for the current state).
    fn write_numbered_register(&mut self, value: u32, register: Register)
        requires
            register_index(register) < 16,
        ensures
            final(self).registers@ == old(self).registers@.update(
                register_index(register),
                if register_index(register) == 15 {
                    written_pc(old(self).thumb(), value)
                } else {
                    value
                },
            ),
            *final(self) == (Cpu { registers: final(self).registers, ..*old(self) }),
    {
        self.write_register(value, register);
    }

    /// Writes one of R0-R14.
    fn write_general_register(&mut self, value: u32, register: Register)
        requires
            register_index(register) < 15,
        ensures
            final(self).registers@ == old(self).registers@.update(register_index(register), value),
            *final(self) == (Cpu { registers: final(self).registers, ..*old(self) }),
    {
        self.write_register(value, register);
    }

    /// Sets Z and N for a flag-setting multiply; leaves them otherwise.
    fn set_multiply_flags(&mut self, set_conditions: bool, zero: bool, negative: bool)
        ensures
            *final(self) == (Cpu {
                cpsr: if set_conditions {
                    with_bit_u32(with_bit_u32(old(self).cpsr, ZERO_FLAG_BIT, zero), SIGN_FLAG_BIT, negative)
                } else {
                    old(self).cpsr
                },
                ..*old(self)
            }),
            final(self).thumb() == old(self).thumb(),
    {
        if set_conditions {
            self.set_cpsr_bit(ZERO_FLAG_BIT, zero);
            self.set_cpsr_bit(SIGN_FLAG_BIT, negative);
            proof {
                lemma_with_bit_u32(old(self).cpsr, ZERO_FLAG_BIT, zero);
                lemma_with_bit_u32(with_bit_u32(old(self).cpsr, ZERO_FLAG_BIT, zero), SIGN_FLAG_BIT, negative);
            }
        }
    }

    /// MUL/MLA (32-bit result) and UMULL/UMLAL/SMULL/SMLAL (64-bit result in
    /// RdHi:RdLo, the accumulating forms adding RdHi:RdLo first). With the
    /// S bit, N and Z follow the result. Takes four extra cycles.
    #[verifier::rlimit(50)]
    pub fn execute_arm_mul(
        &mut self,
        operation: MultiplyOperation,
        set_conditions: bool,
        destination_register_rdhi: Register,
        accumulate_register_rdlo: Register,
        operand_register_rm: Register,
        operand_register_rs: Register,
    )
        requires
            old(self).wf(),
            operation != MultiplyOperation::Umaal,
        ensures
            final(self).wf(),
            old(self).arm_mul_effect(*final(self), operation, set_conditions, destination_register_rdhi, accumulate_register_rdlo, operand_register_rm, operand_register_rs),
    {
        let old_pc = self.arm_prefetch();
        let lo = self.read_register(accumulate_register_rdlo, PcCalculation::Identity);
        let hi = self.read_register(destination_register_rdhi, PcCalculation::Identity);
        let rm = self.read_register(operand_register_rm, PcCalculation::Identity);
        let rs = self.read_register(operand_register_rs, PcCalculation::Identity);
        let d_ok = destination_register_rdhi.is_general_register() && destination_register_rdhi.index() < 15;
        let l_ok = accumulate_register_rdlo.is_general_register() && accumulate_register_rdlo.index() < 15;
        if operation == MultiplyOperation::Mul || operation == MultiplyOperation::Mla {
            let result = mul32_exec(operation, rm, rs, lo);
            self.set_multiply_flags(set_conditions, result == 0, get_bit_u32(result, 31));
            if d_ok {
                self.write_general_register(result, destination_register_rdhi);
            } else {
                self.write_register(result, destination_register_rdhi);
            }
        } else {
            let result = mul64_exec(operation, rm, rs, lo, hi);
            self.set_multiply_flags(set_conditions, result == 0, result >> 63u64 == 1);
            if d_ok && l_ok {
                self.write_general_register(result as u32, accumulate_register_rdlo);
                self.write_general_register((result >> 32u64) as u32, destination_register_rdhi);
            } else {
                self.write_register(result as u32, accumulate_register_rdlo);
                self.write_register((result >> 32u64) as u32, destination_register_rdhi);
            }
        }
        let ghost before = *self;
        let ghost mut chain: Seq<Bus> = seq![self.bus];
        let mut k: u32 = 0;
        while k < 4
            invariant
                self.wf(),
                k <= 4,
                *self == (Cpu { bus: self.bus, ..before }),
                bus_cycles(before.bus, self.bus, k as nat, chain),
            decreases 4 - k,
        {
            let ghost bus_before = self.bus;
            self.bus.step();
            proof {
                assert(bus_cycled(bus_before, self.bus));
                let next = chain.push(self.bus);
                assert forall|j: int| 0 <= j < k + 1 implies #[trigger] bus_cycled(next[j], next[j + 1]) by {
                    if j < k {
                        assert(next[j] == chain[j] && next[j + 1] == chain[j + 1]);
                    }
                }
                chain = next;
            }
            k = k + 1;
        }
        assert(bus_ran(before.bus, self.bus, 4));
        self.arm_advance(old_pc);
    }

    /// SWP/SWPB: loads from the base address into the destination and stores
    /// the source there. A word load from an unaligned address is rotated.
    pub fn execute_arm_swp(
        &mut self,
        access_size: SwpAccessSize,
        base_register: Register,
        dest_register: Register,
        source_register: Register,
    )
        requires
            old(self).wf(),
        ensures
            final(self).wf(),
            old(self).arm_swp_effect(*final(self), access_size, base_register, dest_register, source_register),
    {
        let old_pc = self.arm_prefetch();
        let address = self.read_register(base_register, PcCalculation::Identity);
        assert(((address & 3u32) * 8) < 32) by {
            crate::bits::lemma_u32_address(address);
        }
        match access_size {
            SwpAccessSize::Byte => {
                let old_value = self.bus.read_byte_address(address);
                let new_value = self.read_register(source_register, PcCalculation::Identity) as u8;
                self.write_register(old_value as u32, dest_register);
                self.bus.write_byte_address(new_value, address);
            },
            SwpAccessSize::Word => {
                let old_value = rotate_right(self.bus.read_word_address(address), (address & 3) * 8);
                let new_value = self.read_register(source_register, PcCalculation::Identity);
                self.write_register(old_value, dest_register);
                self.bus.write_word_address(new_value, address);
            },
        }
        self.arm_advance(old_pc);
    }

    /// Executes a decoded ARM instruction whose condition holds; one whose
    /// condition fails only moves the pipeline on. Instructions that the
    /// core does not implement (BLX, UMAAL, doubleword and signed word
    /// transfers, undecodable opcodes) take the undefined-instruction trap.
    /// What executing an ARM instruction does: when its condition fails,
    /// only the pipeline moves on; otherwise the effect of its kind, SWI the
    /// software interrupt, and the forms this core does not execute (BLX,
    /// UMAAL, doubleword and sign-extended word transfers, invalid opcodes)
    /// the undefined-instruction exception.
    pub open spec fn arm_executed(self, after: Cpu, instruction: ArmInstruction) -> bool {
        if !condition_holds(
            instruction.condition,
            self.flag(SIGN_FLAG_BIT),
            self.flag(ZERO_FLAG_BIT),
            self.flag(CARRY_FLAG_BIT),
            self.flag(OVERFLOW_FLAG_BIT),
        ) {
            &&& after.registers@ == self.registers@.update(15, advanced_pc(self.thumb(), self.registers[15], 4))
            &&& after == Cpu { registers: after.registers, ..self.arm_fetched() }
        } else {
            match instruction.instruction_type {
                ArmInstructionType::Alu { operation, first_operand, second_operand, destination_operand, set_conditions } => {
                    self.arm_alu_effect(after, operation, first_operand, second_operand, destination_operand, set_conditions)
                },
                ArmInstructionType::B { offset } => self.arm_b_effect(after, offset),
                ArmInstructionType::Bl { offset } => self.arm_bl_effect(after, offset),
                ArmInstructionType::Bx { operand } => self.arm_bx_effect(after, operand),
                ArmInstructionType::Msr {
                    destination_psr,
                    source_info,
                    write_control_field,
                    write_extension_field,
                    write_flags_field,
                    write_status_field,
                } => self.arm_msr_effect(
                    after,
                    destination_psr,
                    source_info,
                    write_control_field,
                    write_extension_field,
                    write_flags_field,
                    write_status_field,
                ),
                ArmInstructionType::Mrs { destination_register, source_psr } => self.arm_mrs_effect(
                    after,
                    destination_register,
                    source_psr,
                ),
                ArmInstructionType::Ldr {
                    access_size,
                    base_register,
                    destination_register,
                    index_type,
                    offset_info,
                    sign_extend,
                } => if access_size == SingleDataMemoryAccessSize::DoubleWord || (access_size
                    == SingleDataMemoryAccessSize::Word && sign_extend) {
                    self.exception_effect(after, ExceptionType::Undefined)
                } else {
                    self.arm_ldr_effect(
                        after,
                        access_size,
                        base_register,
                        destination_register,
                        index_type,
                        offset_info,
                        sign_extend,
                    )
                },
                ArmInstructionType::Str { access_size, base_register, index_type, offset_info, source_register } => if access_size
                    == SingleDataMemoryAccessSize::DoubleWord {
                    self.exception_effect(after, ExceptionType::Undefined)
                } else {
                    self.arm_str_effect(after, access_size, base_register, index_type, offset_info, source_register)
                },
                ArmInstructionType::Ldm {
                    index_type,
                    offset_modifier,
                    write_back,
                    base_register,
                    register_list,
                    force_user_mode,
                } => self.arm_ldm_effect(
                    after,
                    index_type,
                    offset_modifier,
                    write_back,
                    base_register,
                    register_list,
                    force_user_mode,
                ),
                ArmInstructionType::Stm {
                    index_type,
                    offset_modifier,
                    write_back,
                    base_register,
                    register_list,
                    force_user_mode,
                } => self.arm_stm_effect(
                    after,
                    index_type,
                    offset_modifier,
                    write_back,
                    base_register,
                    register_list,
                    force_user_mode,
                ),
                ArmInstructionType::Mul {
                    operation,
                    set_conditions,
                    destination_register,
                    accumulate_register,
                    operand_register_rm,
                    operand_register_rs,
                } => if operation == MultiplyOperation::Umaal {
                    self.exception_effect(after, ExceptionType::Undefined)
                } else {
                    self.arm_mul_effect(
                        after,
                        operation,
                        set_conditions,
                        destination_register,
                        accumulate_register,
                        operand_register_rm,
                        operand_register_rs,
                    )
                },
                ArmInstructionType::Swi { .. } => self.exception_effect(after, ExceptionType::Swi),
                ArmInstructionType::Swp { access_size, base_register, dest_register, source_register } => self.arm_swp_effect(
                    after,
                    access_size,
                    base_register,
                    dest_register,
                    source_register,
                ),
                _ => self.exception_effect(after, ExceptionType::Undefined),
            }
        }
    }

    #[verifier::rlimit(100)]
    pub fn execute_arm(&mut self, instruction: ArmInstruction)
        requires
            old(self).wf(),
        ensures
            final(self).wf(),
            old(self).arm_executed(*final(self), instruction),
    {
        if !self.evaluate_instruction_condition(instruction.condition) {
            let old_pc = self.arm_prefetch();
            self.arm_advance(old_pc);
            return;
        }
        match instruction.instruction_type {
            ArmInstructionType::Alu { operation, first_operand, second_operand, destination_operand, set_conditions } => {
                self.execute_arm_alu(operation, first_operand, second_operand, destination_operand, set_conditions)
            },
            ArmInstructionType::B { offset } => self.execute_arm_b(offset),
            ArmInstructionType::Bl { offset } => self.execute_arm_bl(offset),
            ArmInstructionType::Bx { operand } => self.execute_arm_bx(operand),
            ArmInstructionType::Msr {
                destination_psr,
                source_info,
                write_control_field,
                write_extension_field,
                write_flags_field,
                write_status_field,
            } => self.execute_arm_msr(
                destination_psr,
                source_info,
                write_control_field,
                write_extension_field,
                write_flags_field,
                write_status_field,
            ),
            ArmInstructionType::Mrs { destination_register, source_psr } => self.execute_arm_mrs(
                destination_register,
                source_psr,
            ),
            ArmInstructionType::Ldr { access_size, base_register, destination_register, index_type, offset_info, sign_extend } => {
                if access_size == SingleDataMemoryAccessSize::DoubleWord || (access_size == SingleDataMemoryAccessSize::Word
                    && sign_extend) {
                    self.handle_exception(ExceptionType::Undefined);
                } else {
                    self.execute_arm_ldr(access_size, base_register, destination_register, index_type, offset_info, sign_extend);
                }
            },
            ArmInstructionType::Str { access_size, base_register, index_type, offset_info, source_register } => {
                if access_size == SingleDataMemoryAccessSize::DoubleWord {
                    self.handle_exception(ExceptionType::Undefined);
                } else {
                    self.execute_arm_str(access_size, base_register, index_type, offset_info, source_register);
                }
            },
            ArmInstructionType::Ldm { index_type, offset_modifier, write_back, base_register, register_list, force_user_mode } => {
                self.execute_arm_ldm(index_type, offset_modifier, write_back, base_register, register_list, force_user_mode)
            },
            ArmInstructionType::Stm { index_type, offset_modifier, write_back, base_register, register_list, force_user_mode } => {
                self.execute_arm_stm(index_type, offset_modifier, write_back, base_register, register_list, force_user_mode)
            },
            ArmInstructionType::Mul {
                operation,
                set_conditions,
                destination_register,
                accumulate_register,
                operand_register_rm,
                operand_register_rs,
            } => {
                if operation == MultiplyOperation::Umaal {
                    self.handle_exception(ExceptionType::Undefined);
                } else {
                    self.execute_arm_mul(
                        operation,
                        set_conditions,
                        destination_register,
                        accumulate_register,
                        operand_register_rm,
                        operand_register_rs,
                    );
                }
            },
            ArmInstructionType::Swi { .. } => self.handle_exception(ExceptionType::Swi),
            ArmInstructionType::Swp { access_size, base_register, dest_register, source_register } => {
                self.execute_arm_swp(access_size, base_register, dest_register, source_register)
            },
            _ => self.handle_exception(ExceptionType::Undefined),
        }
    }
}

} // verus!
