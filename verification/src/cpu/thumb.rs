use vstd::prelude::*;

use super::arm::{mul32, mul32_exec, sext16, sext8, sign_extend_byte, sign_extend_hword, MultiplyOperation};
use super::{
    add_spec, add_with_carry, advanced_pc, barrel_shift, condition_holds, exception_mode, exception_return_address,
    exception_vector, register_index, rotate_right, rotate_right_spec, shifter, spec_condition, spec_register, sub_spec,
    sub_with_borrow, wadd, wsub, Cpu, ExceptionType, InstructionCondition, PcCalculation, Register, ShiftType,
    CARRY_FLAG_BIT, OVERFLOW_FLAG_BIT, SIGN_FLAG_BIT, STATE_BIT, ZERO_FLAG_BIT,
};
use crate::bits::{bit_of_u32, bit_of_u8, get_bit_u32, get_bit_u8, lemma_with_bit_u32, with_bit_u32};
use crate::bus::{lemma_words_read_len, lemma_words_read_push, lemma_words_written_none, lemma_words_written_push, Bus};

verus! {

#[derive(Clone, Copy, Debug, PartialEq, Eq, Structural)]
pub enum ThumbRegisterOperation {
    Lsl,
    Lsr,
    Asr,
    Add,
    Sub,
    Mov,
    Cmp,
    And,
    Eor,
    Adc,
    Sbc,
    Ror,
    Tst,
    Neg,
    Cmn,
    Orr,
    Mul,
    Bic,
    Mvn,
}

#[derive(Clone, Copy, Debug, PartialEq, Eq, Structural)]
pub enum ThumbHighRegisterOperation {
    Add,
    Cmp,
    Mov,
}

#[derive(Clone, Copy, Debug, PartialEq, Eq, Structural)]
pub enum ThumbRegisterOrImmediate {
    Immediate(u32),
    Register(Register),
}

#[derive(Clone, Copy, Debug, PartialEq, Eq, Structural)]
pub enum ThumbLoadStoreDataSize {
    Byte,
    HalfWord,
    Word,
}

/// A decoded Thumb instruction. Register lists are bit sets of R0-R7.
#[derive(Clone, Copy, Debug, PartialEq, Eq, Structural)]
pub enum ThumbInstructionType {
    Ldr {
        base_register: Register,
        offset: ThumbRegisterOrImmediate,
        destination_register: Register,
        size: ThumbLoadStoreDataSize,
        sign_extend: bool,
    },
    Str {
        base_register: Register,
        offset: ThumbRegisterOrImmediate,
        source_register: Register,
        size: ThumbLoadStoreDataSize,
    },
    Register {
        operation: ThumbRegisterOperation,
        destination_register: Register,
        source: Register,
        second_operand: ThumbRegisterOrImmediate,
    },
    HighRegister {
        operation: ThumbHighRegisterOperation,
        destination_register: Register,
        source: Register,
    },
    B { condition: InstructionCondition, offset: i16 },
    BlPartOne { offset: i32 },
    BlPartTwo { offset: u16 },
    Bx { operand: Register },
    Blx { operand: Register },
    Push { register_bit_list: u8, push_lr: bool },
    Pop { register_bit_list: u8, pop_pc: bool },
    AddSpecial {
        source_register: Register,
        dest_register: Register,
        unsigned_offset: u16,
        sign_bit: bool,
    },
    StmiaWriteBack { base_register: Register, register_bit_list: u8 },
    LdmiaWriteBack { base_register: Register, register_bit_list: u8 },
    Swi { comment: u16 },
    Invalid { opcode: u16 },
}

#[derive(Clone, Copy, Debug, PartialEq, Eq, Structural)]
pub struct ThumbInstruction {
    pub instruction_type: ThumbInstructionType,
}

impl ThumbInstruction {
    pub fn instruction_type(&self) -> (r: ThumbInstructionType)
        ensures
            r == self.instruction_type,
    {
        self.instruction_type
    }
}

// ---------------------------------------------------------------------------
// Field extraction

/// The bits of the opcode selected by `mask` after shifting right by `low`.
pub open spec fn tf(opcode: u16, low: u16, mask: u16) -> u16 {
    (opcode >> low) & mask
}

/// Bit `index` of the opcode.
pub open spec fn tb(opcode: u16, index: u16) -> bool {
    (opcode >> index) & 1u16 == 1u16
}

/// The low register (R0-R7) whose 3-bit number starts at bit `offset`.
pub open spec fn treg(opcode: u16, offset: u16) -> Register {
    spec_register(tf(opcode, offset, 7) as int)
}

fn field(opcode: u16, low: u16, mask: u16) -> (r: u16)
    requires
        low < 16,
    ensures
        r == tf(opcode, low, mask),
        r <= mask,
{
    assert((opcode >> low) & mask <= mask) by (bit_vector);
    (opcode >> low) & mask
}

fn bit(opcode: u16, index: u16) -> (r: bool)
    requires
        index < 16,
    ensures
        r == tb(opcode, index),
{
    (opcode >> index) & 1u16 == 1u16
}

fn low_register(opcode: u16, offset: u16) -> (r: Register)
    requires
        offset < 16,
    ensures
        r == treg(opcode, offset),
{
    let index = field(opcode, offset, 7);
    Register::from_index(index as u32)
}

// ---------------------------------------------------------------------------
// Register operations

pub open spec fn spec_try_move_shifted_register(opcode: u16) -> Option<ThumbInstructionType> {
    let op = tf(opcode, 11, 3);
    if tf(opcode, 13, 7) != 0 || op == 3 {
        None
    } else {
        Some(ThumbInstructionType::Register {
            operation: if op == 0 {
                ThumbRegisterOperation::Lsl
            } else if op == 1 {
                ThumbRegisterOperation::Lsr
            } else {
                ThumbRegisterOperation::Asr
            },
            destination_register: treg(opcode, 0),
            source: treg(opcode, 3),
            second_operand: ThumbRegisterOrImmediate::Immediate(tf(opcode, 6, 0x1F) as u32),
        })
    }
}

fn try_decode_thumb_move_shifted_register(opcode: u16) -> (r: Option<ThumbInstructionType>)
    ensures
        r == spec_try_move_shifted_register(opcode),
{
    if field(opcode, 13, 7) != 0 {
        return None;
    }
    let op = field(opcode, 11, 3);
    let operation = if op == 0 {
        ThumbRegisterOperation::Lsl
    } else if op == 1 {
        ThumbRegisterOperation::Lsr
    } else if op == 2 {
        ThumbRegisterOperation::Asr
    } else {
        return None;
    };
    let offset = field(opcode, 6, 0x1F) as u32;
    Some(ThumbInstructionType::Register {
        operation,
        destination_register: low_register(opcode, 0),
        source: low_register(opcode, 3),
        second_operand: ThumbRegisterOrImmediate::Immediate(offset),
    })
}

pub open spec fn spec_try_add_subtract(opcode: u16) -> Option<ThumbInstructionType> {
    if tf(opcode, 11, 0x1F) != 3 {
        None
    } else {
        let op = tf(opcode, 9, 3);
        Some(ThumbInstructionType::Register {
            operation: if op == 0 || op == 2 {
                ThumbRegisterOperation::Add
            } else {
                ThumbRegisterOperation::Sub
            },
            destination_register: treg(opcode, 0),
            source: treg(opcode, 3),
            second_operand: if op < 2 {
                ThumbRegisterOrImmediate::Register(treg(opcode, 6))
            } else {
                ThumbRegisterOrImmediate::Immediate(tf(opcode, 6, 7) as u32)
            },
        })
    }
}

fn try_decode_thumb_add_subtract(opcode: u16) -> (r: Option<ThumbInstructionType>)
    ensures
        r == spec_try_add_subtract(opcode),
{
    if field(opcode, 11, 0x1F) != 3 {
        return None;
    }
    let op = field(opcode, 9, 3);
    let operation = if op == 0 || op == 2 {
        ThumbRegisterOperation::Add
    } else {
        ThumbRegisterOperation::Sub
    };
    let second_operand = if op < 2 {
        ThumbRegisterOrImmediate::Register(low_register(opcode, 6))
    } else {
        ThumbRegisterOrImmediate::Immediate(field(opcode, 6, 7) as u32)
    };
    Some(ThumbInstructionType::Register {
        operation,
        destination_register: low_register(opcode, 0),
        source: low_register(opcode, 3),
        second_operand,
    })
}

pub open spec fn spec_try_move_compare_add_subtract_immediate(opcode: u16) -> Option<ThumbInstructionType> {
    if tf(opcode, 13, 7) != 1 {
        None
    } else {
        let op = tf(opcode, 11, 3);
        Some(ThumbInstructionType::Register {
            operation: if op == 0 {
                ThumbRegisterOperation::Mov
            } else if op == 1 {
                ThumbRegisterOperation::Cmp
            } else if op == 2 {
                ThumbRegisterOperation::Add
            } else {
                ThumbRegisterOperation::Sub
            },
            destination_register: treg(opcode, 8),
            source: treg(opcode, 8),
            second_operand: ThumbRegisterOrImmediate::Immediate(tf(opcode, 0, 0xFF) as u32),
        })
    }
}

fn try_decode_thumb_move_compare_add_subtract_immediate(opcode: u16) -> (r: Option<ThumbInstructionType>)
    ensures
        r == spec_try_move_compare_add_subtract_immediate(opcode),
{
    if field(opcode, 13, 7) != 1 {
        return None;
    }
    let op = field(opcode, 11, 3);
    let operation = if op == 0 {
        ThumbRegisterOperation::Mov
    } else if op == 1 {
        ThumbRegisterOperation::Cmp
    } else if op == 2 {
        ThumbRegisterOperation::Add
    } else {
        ThumbRegisterOperation::Sub
    };
    let dest = low_register(opcode, 8);
    Some(ThumbInstructionType::Register {
        operation,
        destination_register: dest,
        source: dest,
        second_operand: ThumbRegisterOrImmediate::Immediate(field(opcode, 0, 0xFF) as u32),
    })
}

/// The operation selected by the 4-bit opcode of the ALU instruction class.
pub open spec fn spec_thumb_alu_operation(code: u16) -> ThumbRegisterOperation {
    if code == 0x0 {
        ThumbRegisterOperation::And
    } else if code == 0x1 {
        ThumbRegisterOperation::Eor
    } else if code == 0x2 {
        ThumbRegisterOperation::Lsl
    } else if code == 0x3 {
        ThumbRegisterOperation::Lsr
    } else if code == 0x4 {
        ThumbRegisterOperation::Asr
    } else if code == 0x5 {
        ThumbRegisterOperation::Adc
    } else if code == 0x6 {
        ThumbRegisterOperation::Sbc
    } else if code == 0x7 {
        ThumbRegisterOperation::Ror
    } else if code == 0x8 {
        ThumbRegisterOperation::Tst
    } else if code == 0x9 {
        ThumbRegisterOperation::Neg
    } else if code == 0xA {
        ThumbRegisterOperation::Cmp
    } else if code == 0xB {
        ThumbRegisterOperation::Cmn
    } else if code == 0xC {
        ThumbRegisterOperation::Orr
    } else if code == 0xD {
        ThumbRegisterOperation::Mul
    } else if code == 0xE {
        ThumbRegisterOperation::Bic
    } else {
        ThumbRegisterOperation::Mvn
    }
}

fn lookup_thumb_alu_operation(code: u16) -> (r: ThumbRegisterOperation)
    ensures
        r == spec_thumb_alu_operation(code),
{
    match code {
        0x0 => ThumbRegisterOperation::And,
        0x1 => ThumbRegisterOperation::Eor,
        0x2 => ThumbRegisterOperation::Lsl,
        0x3 => ThumbRegisterOperation::Lsr,
        0x4 => ThumbRegisterOperation::Asr,
        0x5 => ThumbRegisterOperation::Adc,
        0x6 => ThumbRegisterOperation::Sbc,
        0x7 => ThumbRegisterOperation::Ror,
        0x8 => ThumbRegisterOperation::Tst,
        0x9 => ThumbRegisterOperation::Neg,
        0xA => ThumbRegisterOperation::Cmp,
        0xB => ThumbRegisterOperation::Cmn,
        0xC => ThumbRegisterOperation::Orr,
        0xD => ThumbRegisterOperation::Mul,
        0xE => ThumbRegisterOperation::Bic,
        _ => ThumbRegisterOperation::Mvn,
    }
}

pub open spec fn spec_try_alu_operations(opcode: u16) -> Option<ThumbInstructionType> {
    if tf(opcode, 10, 0x3F) != 0x10 {
        None
    } else {
        Some(ThumbInstructionType::Register {
            operation: spec_thumb_alu_operation(tf(opcode, 6, 0xF)),
            destination_register: treg(opcode, 0),
            source: treg(opcode, 0),
            second_operand: ThumbRegisterOrImmediate::Register(treg(opcode, 3)),
        })
    }
}

fn try_decode_thumb_alu_operations(opcode: u16) -> (r: Option<ThumbInstructionType>)
    ensures
        r == spec_try_alu_operations(opcode),
{
    if field(opcode, 10, 0x3F) != 0x10 {
        return None;
    }
    let dest = low_register(opcode, 0);
    Some(ThumbInstructionType::Register {
        operation: lookup_thumb_alu_operation(field(opcode, 6, 0xF)),
        destination_register: dest,
        source: dest,
        second_operand: ThumbRegisterOrImmediate::Register(low_register(opcode, 3)),
    })
}

/// High register operations: the destination's number takes bit 7 as its
/// high bit, the source is any of the sixteen registers; with bit 7 set the
/// branch exchange becomes BLX.
pub open spec fn spec_try_high_register_operations_branch_exchange(opcode: u16) -> Option<
    ThumbInstructionType,
> {
    if tf(opcode, 10, 0x3F) != 0x11 {
        None
    } else {
        let op = tf(opcode, 8, 3);
        let msb = tb(opcode, 7);
        let dest = spec_register(tf(opcode, 0, 7) + if msb {
            8int
        } else {
            0int
        });
        let source = spec_register(tf(opcode, 3, 0xF) as int);
        Some(
            if op == 0 {
                ThumbInstructionType::HighRegister {
                    operation: ThumbHighRegisterOperation::Add,
                    destination_register: dest,
                    source,
                }
            } else if op == 1 {
                ThumbInstructionType::HighRegister {
                    operation: ThumbHighRegisterOperation::Cmp,
                    destination_register: dest,
                    source,
                }
            } else if op == 2 {
                ThumbInstructionType::HighRegister {
                    operation: ThumbHighRegisterOperation::Mov,
                    destination_register: dest,
                    source,
                }
            } else if msb {
                ThumbInstructionType::Blx { operand: source }
            } else {
                ThumbInstructionType::Bx { operand: source }
            },
        )
    }
}

fn try_decode_thumb_high_register_operations_branch_exchange(opcode: u16) -> (r: Option<
    ThumbInstructionType,
>)
    ensures
        r == spec_try_high_register_operations_branch_exchange(opcode),
{
    if field(opcode, 10, 0x3F) != 0x11 {
        return None;
    }
    let op = field(opcode, 8, 3);
    let msb = bit(opcode, 7);
    let low = field(opcode, 0, 7);
    let dest_index: u16 = if msb {
        low + 8
    } else {
        low
    };
    let dest = Register::from_index(dest_index as u32);
    let source = Register::from_index(field(opcode, 3, 0xF) as u32);
    Some(
        if op == 0 {
            ThumbInstructionType::HighRegister {
                operation: ThumbHighRegisterOperation::Add,
                destination_register: dest,
                source,
            }
        } else if op == 1 {
            ThumbInstructionType::HighRegister {
                operation: ThumbHighRegisterOperation::Cmp,
                destination_register: dest,
                source,
            }
        } else if op == 2 {
            ThumbInstructionType::HighRegister {
                operation: ThumbHighRegisterOperation::Mov,
                destination_register: dest,
                source,
            }
        } else if msb {
            ThumbInstructionType::Blx { operand: source }
        } else {
            ThumbInstructionType::Bx { operand: source }
        },
    )
}

pub open spec fn first_some(a: Option<ThumbInstructionType>, b: Option<ThumbInstructionType>) -> Option<
    ThumbInstructionType,
> {
    if a is Some {
        a
    } else {
        b
    }
}

pub open spec fn spec_try_register_operation(opcode: u16) -> Option<ThumbInstructionType> {
    first_some(
        spec_try_move_shifted_register(opcode),
        first_some(
            spec_try_add_subtract(opcode),
            first_some(
                spec_try_move_compare_add_subtract_immediate(opcode),
                first_some(
                    spec_try_alu_operations(opcode),
                    spec_try_high_register_operations_branch_exchange(opcode),
                ),
            ),
        ),
    )
}

fn try_decode_thumb_register_operation(opcode: u16) -> (r: Option<ThumbInstructionType>)
    ensures
        r == spec_try_register_operation(opcode),
{
    let a = try_decode_thumb_move_shifted_register(opcode);
    if a.is_some() {
        return a;
    }
    let b = try_decode_thumb_add_subtract(opcode);
    if b.is_some() {
        return b;
    }
    let c = try_decode_thumb_move_compare_add_subtract_immediate(opcode);
    if c.is_some() {
        return c;
    }
    let d = try_decode_thumb_alu_operations(opcode);
    if d.is_some() {
        return d;
    }
    try_decode_thumb_high_register_operations_branch_exchange(opcode)
}


// ---------------------------------------------------------------------------
// Loads and stores

pub open spec fn spec_try_load_pc_relative(opcode: u16) -> Option<ThumbInstructionType> {
    if tf(opcode, 11, 0x1F) != 0x09 {
        None
    } else {
        Some(ThumbInstructionType::Ldr {
            base_register: Register::R15,
            offset: ThumbRegisterOrImmediate::Immediate((tf(opcode, 0, 0xFF) * 4) as u32),
            destination_register: treg(opcode, 8),
            size: ThumbLoadStoreDataSize::Word,
            sign_extend: false,
        })
    }
}

fn try_decode_thumb_load_pc_relative(opcode: u16) -> (r: Option<ThumbInstructionType>)
    ensures
        r == spec_try_load_pc_relative(opcode),
{
    if field(opcode, 11, 0x1F) != 0x09 {
        return None;
    }
    let offset = (field(opcode, 0, 0xFF) as u32) * 4;
    Some(ThumbInstructionType::Ldr {
        base_register: Register::R15,
        offset: ThumbRegisterOrImmediate::Immediate(offset),
        destination_register: low_register(opcode, 8),
        size: ThumbLoadStoreDataSize::Word,
        sign_extend: false,
    })
}

/// Loads and stores with a register offset: word/byte (bit 9 clear) or
/// halfword/sign-extended (bit 9 set).
pub open spec fn spec_try_load_store_register_offset(opcode: u16) -> Option<ThumbInstructionType> {
    if tf(opcode, 12, 0xF) != 0x5 {
        None
    } else {
        let op = tf(opcode, 10, 3);
        let base_register = treg(opcode, 3);
        let offset = ThumbRegisterOrImmediate::Register(treg(opcode, 6));
        let rd = treg(opcode, 0);
        if !tb(opcode, 9) {
            Some(
                if op == 0 {
                    ThumbInstructionType::Str { base_register, offset, source_register: rd, size: ThumbLoadStoreDataSize::Word }
                } else if op == 1 {
                    ThumbInstructionType::Str { base_register, offset, source_register: rd, size: ThumbLoadStoreDataSize::Byte }
                } else if op == 2 {
                    ThumbInstructionType::Ldr { base_register, offset, destination_register: rd, size: ThumbLoadStoreDataSize::Word, sign_extend: false }
                } else {
                    ThumbInstructionType::Ldr { base_register, offset, destination_register: rd, size: ThumbLoadStoreDataSize::Byte, sign_extend: false }
                },
            )
        } else {
            Some(
                if op == 0 {
                    ThumbInstructionType::Str { base_register, offset, source_register: rd, size: ThumbLoadStoreDataSize::HalfWord }
                } else if op == 1 {
                    ThumbInstructionType::Ldr { base_register, offset, destination_register: rd, size: ThumbLoadStoreDataSize::Byte, sign_extend: true }
                } else if op == 2 {
                    ThumbInstructionType::Ldr { base_register, offset, destination_register: rd, size: ThumbLoadStoreDataSize::HalfWord, sign_extend: false }
                } else {
                    ThumbInstructionType::Ldr { base_register, offset, destination_register: rd, size: ThumbLoadStoreDataSize::HalfWord, sign_extend: true }
                },
            )
        }
    }
}

fn try_decode_thumb_load_store_register_offset(opcode: u16) -> (r: Option<ThumbInstructionType>)
    ensures
        r == spec_try_load_store_register_offset(opcode),
{
    if field(opcode, 12, 0xF) != 0x5 {
        return None;
    }
    let op = field(opcode, 10, 3);
    let base_register = low_register(opcode, 3);
    let offset = ThumbRegisterOrImmediate::Register(low_register(opcode, 6));
    let rd = low_register(opcode, 0);
    if !bit(opcode, 9) {
        Some(
            if op == 0 {
                ThumbInstructionType::Str { base_register, offset, source_register: rd, size: ThumbLoadStoreDataSize::Word }
            } else if op == 1 {
                ThumbInstructionType::Str { base_register, offset, source_register: rd, size: ThumbLoadStoreDataSize::Byte }
            } else if op == 2 {
                ThumbInstructionType::Ldr { base_register, offset, destination_register: rd, size: ThumbLoadStoreDataSize::Word, sign_extend: false }
            } else {
                ThumbInstructionType::Ldr { base_register, offset, destination_register: rd, size: ThumbLoadStoreDataSize::Byte, sign_extend: false }
            },
        )
    } else {
        Some(
            if op == 0 {
                ThumbInstructionType::Str { base_register, offset, source_register: rd, size: ThumbLoadStoreDataSize::HalfWord }
            } else if op == 1 {
                ThumbInstructionType::Ldr { base_register, offset, destination_register: rd, size: ThumbLoadStoreDataSize::Byte, sign_extend: true }
            } else if op == 2 {
                ThumbInstructionType::Ldr { base_register, offset, destination_register: rd, size: ThumbLoadStoreDataSize::HalfWord, sign_extend: false }
            } else {
                ThumbInstructionType::Ldr { base_register, offset, destination_register: rd, size: ThumbLoadStoreDataSize::HalfWord, sign_extend: true }
            },
        )
    }
}

/// Loads and stores with a 5-bit immediate offset, in bytes (bit 12 set) or
/// words.
pub open spec fn spec_try_load_store_immediate_offset(opcode: u16) -> Option<ThumbInstructionType> {
    if tf(opcode, 13, 7) != 3 {
        None
    } else {
        let raw = tf(opcode, 6, 0x1F);
        let byte = tb(opcode, 12);
        let size = if byte {
            ThumbLoadStoreDataSize::Byte
        } else {
            ThumbLoadStoreDataSize::Word
        };
        let offset = ThumbRegisterOrImmediate::Immediate(
            if byte {
                raw as u32
            } else {
                (raw * 4) as u32
            },
        );
        Some(
            if tb(opcode, 11) {
                ThumbInstructionType::Ldr { base_register: treg(opcode, 3), offset, destination_register: treg(opcode, 0), size, sign_extend: false }
            } else {
                ThumbInstructionType::Str { base_register: treg(opcode, 3), offset, source_register: treg(opcode, 0), size }
            },
        )
    }
}

fn try_decode_thumb_load_store_immediate_offset(opcode: u16) -> (r: Option<ThumbInstructionType>)
    ensures
        r == spec_try_load_store_immediate_offset(opcode),
{
    if field(opcode, 13, 7) != 3 {
        return None;
    }
    let raw = field(opcode, 6, 0x1F);
    let byte = bit(opcode, 12);
    let size = if byte {
        ThumbLoadStoreDataSize::Byte
    } else {
        ThumbLoadStoreDataSize::Word
    };
    let offset = ThumbRegisterOrImmediate::Immediate(
        if byte {
            raw as u32
        } else {
            (raw as u32) * 4
        },
    );
    Some(
        if bit(opcode, 11) {
            ThumbInstructionType::Ldr { base_register: low_register(opcode, 3), offset, destination_register: low_register(opcode, 0), size, sign_extend: false }
        } else {
            ThumbInstructionType::Str { base_register: low_register(opcode, 3), offset, source_register: low_register(opcode, 0), size }
        },
    )
}

pub open spec fn spec_try_load_store_halfword(opcode: u16) -> Option<ThumbInstructionType> {
    if tf(opcode, 12, 0xF) != 0x8 {
        None
    } else {
        let offset = ThumbRegisterOrImmediate::Immediate((tf(opcode, 6, 0x1F) * 2) as u32);
        Some(
            if tb(opcode, 11) {
                ThumbInstructionType::Ldr { base_register: treg(opcode, 3), offset, destination_register: treg(opcode, 0), size: ThumbLoadStoreDataSize::HalfWord, sign_extend: false }
            } else {
                ThumbInstructionType::Str { base_register: treg(opcode, 3), offset, source_register: treg(opcode, 0), size: ThumbLoadStoreDataSize::HalfWord }
            },
        )
    }
}

fn try_decode_thumb_load_store_halfword(opcode: u16) -> (r: Option<ThumbInstructionType>)
    ensures
        r == spec_try_load_store_halfword(opcode),
{
    if field(opcode, 12, 0xF) != 0x8 {
        return None;
    }
    let offset = ThumbRegisterOrImmediate::Immediate((field(opcode, 6, 0x1F) as u32) * 2);
    Some(
        if bit(opcode, 11) {
            ThumbInstructionType::Ldr { base_register: low_register(opcode, 3), offset, destination_register: low_register(opcode, 0), size: ThumbLoadStoreDataSize::HalfWord, sign_extend: false }
        } else {
            ThumbInstructionType::Str { base_register: low_register(opcode, 3), offset, source_register: low_register(opcode, 0), size: ThumbLoadStoreDataSize::HalfWord }
        },
    )
}

pub open spec fn spec_try_load_store_sp_relative(opcode: u16) -> Option<ThumbInstructionType> {
    if tf(opcode, 12, 0xF) != 0x9 {
        None
    } else {
        let offset = ThumbRegisterOrImmediate::Immediate((tf(opcode, 0, 0xFF) * 4) as u32);
        Some(
            if tb(opcode, 11) {
                ThumbInstructionType::Ldr { base_register: Register::R13, offset, destination_register: treg(opcode, 8), size: ThumbLoadStoreDataSize::Word, sign_extend: false }
            } else {
                ThumbInstructionType::Str { base_register: Register::R13, offset, source_register: treg(opcode, 8), size: ThumbLoadStoreDataSize::Word }
            },
        )
    }
}

fn try_decode_thumb_load_store_sp_relative(opcode: u16) -> (r: Option<ThumbInstructionType>)
    ensures
        r == spec_try_load_store_sp_relative(opcode),
{
    if field(opcode, 12, 0xF) != 0x9 {
        return None;
    }
    let offset = ThumbRegisterOrImmediate::Immediate((field(opcode, 0, 0xFF) as u32) * 4);
    Some(
        if bit(opcode, 11) {
            ThumbInstructionType::Ldr { base_register: Register::R13, offset, destination_register: low_register(opcode, 8), size: ThumbLoadStoreDataSize::Word, sign_extend: false }
        } else {
            ThumbInstructionType::Str { base_register: Register::R13, offset, source_register: low_register(opcode, 8), size: ThumbLoadStoreDataSize::Word }
        },
    )
}

pub open spec fn spec_try_memory_load_store(opcode: u16) -> Option<ThumbInstructionType> {
    first_some(
        spec_try_load_pc_relative(opcode),
        first_some(
            spec_try_load_store_register_offset(opcode),
            first_some(
                spec_try_load_store_immediate_offset(opcode),
                first_some(spec_try_load_store_halfword(opcode), spec_try_load_store_sp_relative(opcode)),
            ),
        ),
    )
}

fn try_decode_thumb_memory_load_store(opcode: u16) -> (r: Option<ThumbInstructionType>)
    ensures
        r == spec_try_memory_load_store(opcode),
{
    let a = try_decode_thumb_load_pc_relative(opcode);
    if a.is_some() {
        return a;
    }
    let b = try_decode_thumb_load_store_register_offset(opcode);
    if b.is_some() {
        return b;
    }
    let c = try_decode_thumb_load_store_immediate_offset(opcode);
    if c.is_some() {
        return c;
    }
    let d = try_decode_thumb_load_store_halfword(opcode);
    if d.is_some() {
        return d;
    }
    try_decode_thumb_load_store_sp_relative(opcode)
}

// ---------------------------------------------------------------------------
// Address arithmetic and multiple transfers

/// `ADD Rd, PC/SP, #nn` (bit 11 selects SP) and `ADD SP, #+-nn`.
pub open spec fn spec_try_memory_addressing(opcode: u16) -> Option<ThumbInstructionType> {
    if tf(opcode, 12, 0xF) == 0xA {
        Some(ThumbInstructionType::AddSpecial {
            source_register: if tb(opcode, 11) {
                Register::R13
            } else {
                Register::R15
            },
            dest_register: treg(opcode, 8),
            unsigned_offset: (tf(opcode, 0, 0xFF) * 4) as u16,
            sign_bit: false,
        })
    } else if tf(opcode, 8, 0xFF) == 0xB0 {
        Some(ThumbInstructionType::AddSpecial {
            source_register: Register::R13,
            dest_register: Register::R13,
            unsigned_offset: (tf(opcode, 0, 0x7F) * 4) as u16,
            sign_bit: tb(opcode, 7),
        })
    } else {
        None
    }
}

fn try_decode_thumb_memory_addressing(opcode: u16) -> (r: Option<ThumbInstructionType>)
    ensures
        r == spec_try_memory_addressing(opcode),
{
    if field(opcode, 12, 0xF) == 0xA {
        Some(ThumbInstructionType::AddSpecial {
            source_register: if bit(opcode, 11) {
                Register::R13
            } else {
                Register::R15
            },
            dest_register: low_register(opcode, 8),
            unsigned_offset: field(opcode, 0, 0xFF) * 4,
            sign_bit: false,
        })
    } else if field(opcode, 8, 0xFF) == 0xB0 {
        Some(ThumbInstructionType::AddSpecial {
            source_register: Register::R13,
            dest_register: Register::R13,
            unsigned_offset: field(opcode, 0, 0x7F) * 4,
            sign_bit: bit(opcode, 7),
        })
    } else {
        None
    }
}

/// PUSH/POP (bits 9-10 must be 0b10) and LDMIA/STMIA with write-back.
pub open spec fn spec_try_memory_multiple_load_store(opcode: u16) -> Option<ThumbInstructionType> {
    let list = tf(opcode, 0, 0xFF) as u8;
    if tf(opcode, 12, 0xF) == 0xB && tf(opcode, 9, 3) == 2 {
        Some(
            if tb(opcode, 11) {
                ThumbInstructionType::Pop { register_bit_list: list, pop_pc: tb(opcode, 8) }
            } else {
                ThumbInstructionType::Push { register_bit_list: list, push_lr: tb(opcode, 8) }
            },
        )
    } else if tf(opcode, 12, 0xF) == 0xC {
        Some(
            if tb(opcode, 11) {
                ThumbInstructionType::LdmiaWriteBack { base_register: treg(opcode, 8), register_bit_list: list }
            } else {
                ThumbInstructionType::StmiaWriteBack { base_register: treg(opcode, 8), register_bit_list: list }
            },
        )
    } else {
        None
    }
}

fn try_decode_thumb_memory_multiple_load_store(opcode: u16) -> (r: Option<ThumbInstructionType>)
    ensures
        r == spec_try_memory_multiple_load_store(opcode),
{
    let list = field(opcode, 0, 0xFF) as u8;
    if field(opcode, 12, 0xF) == 0xB && field(opcode, 9, 3) == 2 {
        Some(
            if bit(opcode, 11) {
                ThumbInstructionType::Pop { register_bit_list: list, pop_pc: bit(opcode, 8) }
            } else {
                ThumbInstructionType::Push { register_bit_list: list, push_lr: bit(opcode, 8) }
            },
        )
    } else if field(opcode, 12, 0xF) == 0xC {
        Some(
            if bit(opcode, 11) {
                ThumbInstructionType::LdmiaWriteBack { base_register: low_register(opcode, 8), register_bit_list: list }
            } else {
                ThumbInstructionType::StmiaWriteBack { base_register: low_register(opcode, 8), register_bit_list: list }
            },
        )
    } else {
        None
    }
}

// ---------------------------------------------------------------------------
// Branches and software interrupts

/// The branch offset of a conditional branch: the signed 8-bit field, doubled.
pub open spec fn conditional_offset(opcode: u16) -> i16 {
    let raw = tf(opcode, 0, 0xFF) as int;
    (if raw >= 0x80 {
        raw - 0x100
    } else {
        raw
    } * 2) as i16
}

/// The branch offset of an unconditional branch: the signed 11-bit field,
/// doubled.
pub open spec fn unconditional_offset(opcode: u16) -> i16 {
    let raw = tf(opcode, 0, 0x7FF) as int;
    (if raw >= 0x400 {
        raw - 0x800
    } else {
        raw
    } * 2) as i16
}

/// The first half of a long branch with link: the signed 11-bit field,
/// shifted to bits 12-22.
pub open spec fn long_branch_offset(opcode: u16) -> i32 {
    let raw = tf(opcode, 0, 0x7FF) as int;
    (if raw >= 0x400 {
        raw - 0x800
    } else {
        raw
    } * 4096) as i32
}

pub open spec fn spec_try_jump_call(opcode: u16) -> Option<ThumbInstructionType> {
    let top4 = tf(opcode, 12, 0xF);
    let top5 = tf(opcode, 11, 0x1F);
    let cond = tf(opcode, 8, 0xF);
    if top4 == 0xD && cond != 0xF {
        Some(ThumbInstructionType::B {
            condition: if cond == 0xE {
                InstructionCondition::Never
            } else {
                spec_condition(cond as u32)
            },
            offset: conditional_offset(opcode),
        })
    } else if top5 == 0x1C {
        Some(ThumbInstructionType::B { condition: InstructionCondition::Always, offset: unconditional_offset(opcode) })
    } else if top5 == 0x1E {
        Some(ThumbInstructionType::BlPartOne { offset: long_branch_offset(opcode) })
    } else if top5 == 0x1F {
        Some(ThumbInstructionType::BlPartTwo { offset: (tf(opcode, 0, 0x7FF) * 2) as u16 })
    } else if tf(opcode, 8, 0xFF) == 0xDF {
        Some(ThumbInstructionType::Swi { comment: tf(opcode, 0, 0xFF) })
    } else {
        None
    }
}

fn condition_from_code(code: u16) -> (r: InstructionCondition)
    requires
        code < 14,
    ensures
        r == spec_condition(code as u32),
{
    match code {
        0 => InstructionCondition::Equal,
        1 => InstructionCondition::NotEqual,
        2 => InstructionCondition::UnsignedHigherOrSame,
        3 => InstructionCondition::UnsignedLower,
        4 => InstructionCondition::SignedNegative,
        5 => InstructionCondition::SignedPositiveOrZero,
        6 => InstructionCondition::SignedOverflow,
        7 => InstructionCondition::SignedNoOverflow,
        8 => InstructionCondition::UnsignedHigher,
        9 => InstructionCondition::UnsignedLowerOrSame,
        10 => InstructionCondition::SignedGreaterOrEqual,
        11 => InstructionCondition::SignedLessThan,
        12 => InstructionCondition::SignedGreaterThan,
        _ => InstructionCondition::SignedLessOrEqual,
    }
}

fn try_decode_thumb_jump_call(opcode: u16) -> (r: Option<ThumbInstructionType>)
    ensures
        r == spec_try_jump_call(opcode),
{
    let top4 = field(opcode, 12, 0xF);
    let top5 = field(opcode, 11, 0x1F);
    let cond = field(opcode, 8, 0xF);
    if top4 == 0xD && cond != 0xF {
        let raw = field(opcode, 0, 0xFF) as i16;
        let signed: i16 = if raw >= 0x80 {
            raw - 0x100
        } else {
            raw
        };
        let condition = if cond == 0xE {
            InstructionCondition::Never
        } else {
            condition_from_code(cond)
        };
        Some(ThumbInstructionType::B { condition, offset: signed * 2 })
    } else if top5 == 0x1C {
        let raw = field(opcode, 0, 0x7FF) as i16;
        let signed: i16 = if raw >= 0x400 {
            raw - 0x800
        } else {
            raw
        };
        Some(ThumbInstructionType::B { condition: InstructionCondition::Always, offset: signed * 2 })
    } else if top5 == 0x1E {
        let raw = field(opcode, 0, 0x7FF) as i32;
        let signed: i32 = if raw >= 0x400 {
            raw - 0x800
        } else {
            raw
        };
        Some(ThumbInstructionType::BlPartOne { offset: signed * 4096 })
    } else if top5 == 0x1F {
        Some(ThumbInstructionType::BlPartTwo { offset: field(opcode, 0, 0x7FF) * 2 })
    } else if field(opcode, 8, 0xFF) == 0xDF {
        Some(ThumbInstructionType::Swi { comment: field(opcode, 0, 0xFF) })
    } else {
        None
    }
}

/// The instruction an opcode decodes to: the first instruction class (in
/// the order register operations, loads and stores, address arithmetic,
/// multiple transfers, branches) that accepts it, else `Invalid`.
pub open spec fn spec_decode_thumb(opcode: u16) -> ThumbInstruction {
    let found = first_some(
        spec_try_register_operation(opcode),
        first_some(
            spec_try_memory_load_store(opcode),
            first_some(
                spec_try_memory_addressing(opcode),
                first_some(spec_try_memory_multiple_load_store(opcode), spec_try_jump_call(opcode)),
            ),
        ),
    );
    ThumbInstruction {
        instruction_type: match found {
            Some(t) => t,
            None => ThumbInstructionType::Invalid { opcode },
        },
    }
}

pub fn decode_thumb(opcode: u16) -> (r: ThumbInstruction)
    ensures
        r == spec_decode_thumb(opcode),
{
    let a = try_decode_thumb_register_operation(opcode);
    let found = if a.is_some() {
        a
    } else {
        let b = try_decode_thumb_memory_load_store(opcode);
        if b.is_some() {
            b
        } else {
            let c = try_decode_thumb_memory_addressing(opcode);
            if c.is_some() {
                c
            } else {
                let d = try_decode_thumb_memory_multiple_load_store(opcode);
                if d.is_some() {
                    d
                } else {
                    try_decode_thumb_jump_call(opcode)
                }
            }
        }
    };
    ThumbInstruction {
        instruction_type: match found {
            Some(t) => t,
            None => ThumbInstructionType::Invalid { opcode },
        },
    }
}

} // verus!

verus! {

impl Cpu {
    /// Refills the pipeline at `target` after a branch into Thumb code: the
    /// halfwords at `target` and `target + 2` are fetched (the first decoded)
    /// and the program counter points past them.
    pub(crate) fn thumb_refill(&mut self, target: u32)
        requires
            old(self).wf(),
        ensures
            final(self).wf(),
            ({
                let (bus, decoded, prefetched) = thumb_refill_pipeline(old(self).bus, target);
                &&& final(self).registers@ == old(self).registers@.update(15, written_pc(old(self).thumb(), wadd(target, 4)))
                &&& *final(self) == (Cpu {
                    registers: final(self).registers,
                    bus,
                    pre_decode_thumb: decoded,
                    prefetch_opcode: prefetched,
                    ..*old(self)
                })
            }),
            final(self).registers[15] == advanced_pc(old(self).thumb(), target, 4),
            final(self).pre_decode_thumb is Some,
            final(self).prefetch_opcode is Some,
            final(self).cpsr == old(self).cpsr,
            forall|i: int| 0 <= i < 15 ==> final(self).registers[i] == old(self).registers[i],
    {
        let first = self.bus.fetch_thumb_opcode(target);
        self.pre_decode_thumb = Some(decode_thumb(first));
        let second = self.bus.fetch_thumb_opcode(target.wrapping_add(2));
        self.prefetch_opcode = Some(second as u32);
        self.write_register(target.wrapping_add(4), Register::R15);
    }
}


// ---------------------------------------------------------------------------
// Execution

/// The cycle counts of an instruction: internal, non-sequential and
/// sequential cycles.
#[derive(Clone, Copy, Debug, PartialEq, Eq, Structural)]
pub struct InstructionCyclesInfo {
    pub i: u8,
    pub n: u8,
    pub s: u8,
}

/// The number of set bits among the lowest `below` bits of a register list.
pub open spec fn bits_set8(list: u8, below: nat) -> nat
    decreases below,
{
    if below == 0 {
        0
    } else {
        bits_set8(list, (below - 1) as nat) + if bit_of_u8(list, (below - 1) as u8) {
            1nat
        } else {
            0nat
        }
    }
}

pub(crate) proof fn lemma_bits_set8_bound(list: u8, below: nat)
    ensures
        bits_set8(list, below) <= below,
    decreases below,
{
    if below > 0 {
        lemma_bits_set8_bound(list, (below - 1) as nat);
    }
}

fn count_bits8(list: u8) -> (r: u8)
    ensures
        r == bits_set8(list, 8),
        r <= 8,
{
    let mut count: u8 = 0;
    let mut i: u8 = 0;
    while i < 8
        invariant
            i <= 8,
            count == bits_set8(list, i as nat),
            count <= i,
        decreases 8 - i,
    {
        if get_bit_u8(list, i) {
            count = count + 1;
        }
        i = i + 1;
    }
    count
}

/// `n - 1`, or 0 for 0.
pub open spec fn less_one(n: nat) -> u8 {
    if n == 0 {
        0
    } else {
        (n - 1) as u8
    }
}

/// The cycle counts of each Thumb instruction.
pub open spec fn spec_thumb_cycles(t: ThumbInstructionType) -> InstructionCyclesInfo {
    match t {
        ThumbInstructionType::Register { operation, .. } => if operation == ThumbRegisterOperation::Lsl || operation
            == ThumbRegisterOperation::Lsr || operation == ThumbRegisterOperation::Asr || operation
            == ThumbRegisterOperation::Ror || operation == ThumbRegisterOperation::Mul {
            InstructionCyclesInfo { i: 1, n: 0, s: 1 }
        } else {
            InstructionCyclesInfo { i: 0, n: 0, s: 1 }
        },
        ThumbInstructionType::HighRegister { operation, destination_register, .. } => if destination_register
            == Register::R15 && (operation == ThumbHighRegisterOperation::Add || operation
            == ThumbHighRegisterOperation::Mov) {
            InstructionCyclesInfo { i: 0, n: 1, s: 2 }
        } else {
            InstructionCyclesInfo { i: 0, n: 0, s: 1 }
        },
        ThumbInstructionType::Bx { .. } | ThumbInstructionType::Blx { .. } => InstructionCyclesInfo { i: 0, n: 1, s: 2 },
        ThumbInstructionType::Ldr { .. } => InstructionCyclesInfo { i: 1, n: 1, s: 1 },
        ThumbInstructionType::Str { .. } => InstructionCyclesInfo { i: 0, n: 2, s: 0 },
        ThumbInstructionType::AddSpecial { .. } => InstructionCyclesInfo { i: 0, n: 0, s: 1 },
        ThumbInstructionType::Push { register_bit_list, .. } => InstructionCyclesInfo {
            i: 0,
            n: 2,
            s: less_one(bits_set8(register_bit_list, 8)),
        },
        ThumbInstructionType::Pop { register_bit_list, pop_pc } => if pop_pc {
            InstructionCyclesInfo { i: 1, n: 2, s: (bits_set8(register_bit_list, 8) + 1) as u8 }
        } else {
            InstructionCyclesInfo { i: 1, n: 1, s: bits_set8(register_bit_list, 8) as u8 }
        },
        ThumbInstructionType::StmiaWriteBack { register_bit_list, .. } => InstructionCyclesInfo {
            i: 0,
            n: 2,
            s: less_one(bits_set8(register_bit_list, 8)),
        },
        ThumbInstructionType::LdmiaWriteBack { register_bit_list, .. } => InstructionCyclesInfo {
            i: 1,
            n: 1,
            s: bits_set8(register_bit_list, 8) as u8,
        },
        ThumbInstructionType::B { .. } => InstructionCyclesInfo { i: 0, n: 0, s: 1 },
        ThumbInstructionType::BlPartOne { .. } => InstructionCyclesInfo { i: 0, n: 0, s: 1 },
        ThumbInstructionType::BlPartTwo { .. } => InstructionCyclesInfo { i: 0, n: 1, s: 2 },
        ThumbInstructionType::Swi { .. } => InstructionCyclesInfo { i: 0, n: 1, s: 2 },
        ThumbInstructionType::Invalid { .. } => InstructionCyclesInfo { i: 0, n: 0, s: 0 },
    }
}

impl ThumbInstructionType {
    /// How many cycles of each kind the instruction takes.
    pub fn cycles_info(&self) -> (r: InstructionCyclesInfo)
        requires
            !(*self is Invalid),
        ensures
            r == spec_thumb_cycles(*self),
    {
        match *self {
            ThumbInstructionType::Register { operation, .. } => match operation {
                ThumbRegisterOperation::Lsl
                | ThumbRegisterOperation::Lsr
                | ThumbRegisterOperation::Asr
                | ThumbRegisterOperation::Ror
                | ThumbRegisterOperation::Mul => InstructionCyclesInfo { i: 1, n: 0, s: 1 },
                _ => InstructionCyclesInfo { i: 0, n: 0, s: 1 },
            },
            ThumbInstructionType::HighRegister { operation, destination_register, .. } => {
                let to_pc = destination_register == Register::R15 && (operation == ThumbHighRegisterOperation::Add
                    || operation == ThumbHighRegisterOperation::Mov);
                if to_pc {
                    InstructionCyclesInfo { i: 0, n: 1, s: 2 }
                } else {
                    InstructionCyclesInfo { i: 0, n: 0, s: 1 }
                }
            },
            ThumbInstructionType::Bx { .. } | ThumbInstructionType::Blx { .. } => InstructionCyclesInfo { i: 0, n: 1, s: 2 },
            ThumbInstructionType::Ldr { .. } => InstructionCyclesInfo { i: 1, n: 1, s: 1 },
            ThumbInstructionType::Str { .. } => InstructionCyclesInfo { i: 0, n: 2, s: 0 },
            ThumbInstructionType::AddSpecial { .. } => InstructionCyclesInfo { i: 0, n: 0, s: 1 },
            ThumbInstructionType::Push { register_bit_list, .. } => {
                let count = count_bits8(register_bit_list);
                InstructionCyclesInfo { i: 0, n: 2, s: count.saturating_sub(1) }
            },
            ThumbInstructionType::Pop { register_bit_list, pop_pc } => {
                let count = count_bits8(register_bit_list);
                if pop_pc {
                    InstructionCyclesInfo { i: 1, n: 2, s: count + 1 }
                } else {
                    InstructionCyclesInfo { i: 1, n: 1, s: count }
                }
            },
            ThumbInstructionType::StmiaWriteBack { register_bit_list, .. } => {
                let count = count_bits8(register_bit_list);
                InstructionCyclesInfo { i: 0, n: 2, s: count.saturating_sub(1) }
            },
            ThumbInstructionType::LdmiaWriteBack { register_bit_list, .. } => {
                let count = count_bits8(register_bit_list);
                InstructionCyclesInfo { i: 1, n: 1, s: count }
            },
            ThumbInstructionType::B { .. } => InstructionCyclesInfo { i: 0, n: 0, s: 1 },
            ThumbInstructionType::BlPartOne { .. } => InstructionCyclesInfo { i: 0, n: 0, s: 1 },
            ThumbInstructionType::BlPartTwo { .. } => InstructionCyclesInfo { i: 0, n: 1, s: 2 },
            ThumbInstructionType::Swi { .. } => InstructionCyclesInfo { i: 0, n: 1, s: 2 },
            ThumbInstructionType::Invalid { .. } => InstructionCyclesInfo { i: 0, n: 0, s: 0 },
        }
    }
}

/// Whether a register operation is a shift.
pub open spec fn is_thumb_shift(op: ThumbRegisterOperation) -> bool {
    op == ThumbRegisterOperation::Lsl || op == ThumbRegisterOperation::Lsr || op == ThumbRegisterOperation::Asr || op
        == ThumbRegisterOperation::Ror
}

/// A register operand that the register group reads: R0-R14.
pub open spec fn plain_operand(operand: ThumbRegisterOrImmediate) -> bool {
    match operand {
        ThumbRegisterOrImmediate::Register(r) => register_index(r) < 15,
        ThumbRegisterOrImmediate::Immediate(_) => true,
    }
}

/// The Thumb instructions this core executes: every decodable one but BLX
/// (and the invalid opcodes), with its register fields in the ranges the
/// decoder gives and its immediate shift amounts below 32.
pub open spec fn thumb_supported(t: ThumbInstructionType) -> bool {
    match t {
        ThumbInstructionType::Register { operation, destination_register, source, second_operand } => {
            &&& register_index(destination_register) < 15
            &&& register_index(source) < 15
            &&& plain_operand(second_operand)
            &&& is_thumb_shift(operation) ==> match second_operand {
                ThumbRegisterOrImmediate::Immediate(amount) => amount < 32,
                _ => true,
            }
        },
        ThumbInstructionType::HighRegister { destination_register, source, .. } => destination_register.is_general()
            && source.is_general(),
        ThumbInstructionType::Ldr { base_register, offset, destination_register, size, sign_extend } => {
            &&& base_register.is_general()
            &&& plain_operand(offset)
            &&& register_index(destination_register) < 15
            &&& !(size == ThumbLoadStoreDataSize::Word && sign_extend)
        },
        ThumbInstructionType::Str { base_register, offset, source_register, .. } => {
            &&& register_index(base_register) < 15
            &&& plain_operand(offset)
            &&& register_index(source_register) < 15
        },
        ThumbInstructionType::Bx { operand } => operand.is_general(),
        ThumbInstructionType::StmiaWriteBack { base_register, .. } => register_index(base_register) < 15,
        ThumbInstructionType::LdmiaWriteBack { base_register, .. } => register_index(base_register) < 15,
        ThumbInstructionType::AddSpecial { source_register, dest_register, .. } => source_register.is_general()
            && register_index(dest_register) < 15,
        ThumbInstructionType::Blx { .. } => false,
        ThumbInstructionType::Invalid { .. } => false,
        _ => true,
    }
}

fn plain_operand_exec(operand: ThumbRegisterOrImmediate) -> (r: bool)
    ensures
        r == plain_operand(operand),
{
    match operand {
        ThumbRegisterOrImmediate::Register(r) => r.is_general_register() && r.index() < 15,
        ThumbRegisterOrImmediate::Immediate(_) => true,
    }
}

fn low_index(r: Register) -> (b: bool)
    ensures
        b == (register_index(r) < 15),
{
    r.is_general_register() && r.index() < 15
}

/// Whether the core executes the instruction (see `thumb_supported`).
pub fn is_thumb_supported(t: ThumbInstructionType) -> (r: bool)
    ensures
        r == thumb_supported(t),
{
    match t {
        ThumbInstructionType::Register { operation, destination_register, source, second_operand } => {
            let shift_ok = match second_operand {
                ThumbRegisterOrImmediate::Immediate(amount) => amount < 32,
                _ => true,
            };
            let is_shift = match operation {
                ThumbRegisterOperation::Lsl
                | ThumbRegisterOperation::Lsr
                | ThumbRegisterOperation::Asr
                | ThumbRegisterOperation::Ror => true,
                _ => false,
            };
            low_index(destination_register) && low_index(source) && plain_operand_exec(second_operand) && (!is_shift
                || shift_ok)
        },
        ThumbInstructionType::HighRegister { destination_register, source, .. } => destination_register.is_general_register()
            && source.is_general_register(),
        ThumbInstructionType::Ldr { base_register, offset, destination_register, size, sign_extend } => {
            base_register.is_general_register() && plain_operand_exec(offset) && low_index(destination_register) && !(size
                == ThumbLoadStoreDataSize::Word && sign_extend)
        },
        ThumbInstructionType::Str { base_register, offset, source_register, .. } => {
            low_index(base_register) && plain_operand_exec(offset) && low_index(source_register)
        },
        ThumbInstructionType::Bx { operand } => operand.is_general_register(),
        ThumbInstructionType::StmiaWriteBack { base_register, .. } => low_index(base_register),
        ThumbInstructionType::LdmiaWriteBack { base_register, .. } => low_index(base_register),
        ThumbInstructionType::AddSpecial { source_register, dest_register, .. } => source_register.is_general_register()
            && low_index(dest_register),
        ThumbInstructionType::Blx { .. } => false,
        ThumbInstructionType::Invalid { .. } => false,
        _ => true,
    }
}

/// Whether a register operation writes its result back (all but the
/// comparisons).
pub open spec fn thumb_reg_writes(op: ThumbRegisterOperation) -> bool {
    !(op == ThumbRegisterOperation::Cmp || op == ThumbRegisterOperation::Cmn || op == ThumbRegisterOperation::Tst)
}

/// The outcome of a register operation on `a` and `b`: the result, the
/// carry (None: C unchanged), the N flag and the overflow (None: V
/// unchanged). `by_register` tells a shift by register from a shift by an
/// immediate. ADC takes its carry from C for the result and the carry out,
/// and from V for the N and V flags.
pub open spec fn thumb_reg_spec(
    op: ThumbRegisterOperation,
    a: u32,
    b: u32,
    by_register: bool,
    c: bool,
    v: bool,
) -> (u32, Option<bool>, bool, Option<bool>) {
    match op {
        ThumbRegisterOperation::Add | ThumbRegisterOperation::Cmn => {
            let (r, co, vo) = add_spec(a, b, false);
            (r, Some(co), bit_of_u32(r, 31), Some(vo))
        },
        ThumbRegisterOperation::Adc => {
            let (r, co, _) = add_spec(a, b, c);
            let (sr, _, vo) = add_spec(a, b, v);
            (r, Some(co), bit_of_u32(sr, 31), Some(vo))
        },
        ThumbRegisterOperation::Sub | ThumbRegisterOperation::Cmp => {
            let (r, co, vo) = sub_spec(a, b, true);
            (r, Some(co), bit_of_u32(r, 31), Some(vo))
        },
        ThumbRegisterOperation::Sbc => {
            let (r, co, vo) = sub_spec(a, b, c);
            (r, Some(co), bit_of_u32(r, 31), Some(vo))
        },
        ThumbRegisterOperation::Neg => {
            let (r, co, vo) = sub_spec(0, b, true);
            (r, Some(co), bit_of_u32(r, 31), Some(vo))
        },
        ThumbRegisterOperation::Mov => (b, None, bit_of_u32(b, 31), None),
        ThumbRegisterOperation::Mvn => (!b, None, bit_of_u32(!b, 31), None),
        ThumbRegisterOperation::Lsl => {
            let (r, co) = shifter(ShiftType::Lsl, a, b, c, by_register);
            (r, Some(co), bit_of_u32(r, 31), None)
        },
        ThumbRegisterOperation::Lsr => {
            let (r, co) = shifter(ShiftType::Lsr, a, b, c, by_register);
            (r, Some(co), bit_of_u32(r, 31), None)
        },
        ThumbRegisterOperation::Asr => {
            let (r, co) = shifter(ShiftType::Asr, a, b, c, by_register);
            (r, Some(co), bit_of_u32(r, 31), None)
        },
        ThumbRegisterOperation::Ror => {
            let (r, co) = shifter(ShiftType::Ror, a, b, c, by_register);
            (r, Some(co), bit_of_u32(r, 31), None)
        },
        ThumbRegisterOperation::Tst | ThumbRegisterOperation::And => (a & b, None, bit_of_u32(a & b, 31), None),
        ThumbRegisterOperation::Orr => (a | b, None, bit_of_u32(a | b, 31), None),
        ThumbRegisterOperation::Eor => (a ^ b, None, bit_of_u32(a ^ b, 31), None),
        ThumbRegisterOperation::Bic => (a & !b, None, bit_of_u32(a & !b, 31), None),
        ThumbRegisterOperation::Mul => {
            let r = mul32(MultiplyOperation::Mul, a, b, 0);
            (r, None, bit_of_u32(r, 31), None)
        },
    }
}

fn thumb_register_compute(
    op: ThumbRegisterOperation,
    a: u32,
    b: u32,
    by_register: bool,
    c: bool,
    v: bool,
) -> (r: (u32, Option<bool>, bool, Option<bool>))
    requires
        is_thumb_shift(op) && !by_register ==> b < 32,
    ensures
        r == thumb_reg_spec(op, a, b, by_register, c, v),
{
    match op {
        ThumbRegisterOperation::Add | ThumbRegisterOperation::Cmn => {
            let (r, co, vo) = add_with_carry(a, b, false);
            (r, Some(co), get_bit_u32(r, 31), Some(vo))
        },
        ThumbRegisterOperation::Adc => {
            let (r, co, _) = add_with_carry(a, b, c);
            let (sr, _, vo) = add_with_carry(a, b, v);
            (r, Some(co), get_bit_u32(sr, 31), Some(vo))
        },
        ThumbRegisterOperation::Sub | ThumbRegisterOperation::Cmp => {
            let (r, co, vo) = sub_with_borrow(a, b, true);
            (r, Some(co), get_bit_u32(r, 31), Some(vo))
        },
        ThumbRegisterOperation::Sbc => {
            let (r, co, vo) = sub_with_borrow(a, b, c);
            (r, Some(co), get_bit_u32(r, 31), Some(vo))
        },
        ThumbRegisterOperation::Neg => {
            let (r, co, vo) = sub_with_borrow(0, b, true);
            (r, Some(co), get_bit_u32(r, 31), Some(vo))
        },
        ThumbRegisterOperation::Mov => (b, None, get_bit_u32(b, 31), None),
        ThumbRegisterOperation::Mvn => (!b, None, get_bit_u32(!b, 31), None),
        ThumbRegisterOperation::Lsl => {
            let (r, co) = barrel_shift(ShiftType::Lsl, a, b, c, by_register);
            (r, Some(co), get_bit_u32(r, 31), None)
        },
        ThumbRegisterOperation::Lsr => {
            let (r, co) = barrel_shift(ShiftType::Lsr, a, b, c, by_register);
            (r, Some(co), get_bit_u32(r, 31), None)
        },
        ThumbRegisterOperation::Asr => {
            let (r, co) = barrel_shift(ShiftType::Asr, a, b, c, by_register);
            (r, Some(co), get_bit_u32(r, 31), None)
        },
        ThumbRegisterOperation::Ror => {
            let (r, co) = barrel_shift(ShiftType::Ror, a, b, c, by_register);
            (r, Some(co), get_bit_u32(r, 31), None)
        },
        ThumbRegisterOperation::Tst | ThumbRegisterOperation::And => (a & b, None, get_bit_u32(a & b, 31), None),
        ThumbRegisterOperation::Orr => (a | b, None, get_bit_u32(a | b, 31), None),
        ThumbRegisterOperation::Eor => (a ^ b, None, get_bit_u32(a ^ b, 31), None),
        ThumbRegisterOperation::Bic => (a & !b, None, get_bit_u32(a & !b, 31), None),
        ThumbRegisterOperation::Mul => {
            let r = mul32_exec(MultiplyOperation::Mul, a, b, 0);
            (r, None, get_bit_u32(r, 31), None)
        },
    }
}

/// The status register with N and Z replaced, and C and V replaced where
/// given.
pub open spec fn thumb_flags(cpsr: u32, n: bool, z: bool, c: Option<bool>, v: Option<bool>) -> u32 {
    let c1 = match c {
        Some(x) => with_bit_u32(cpsr, CARRY_FLAG_BIT, x),
        None => cpsr,
    };
    let v1 = match v {
        Some(x) => with_bit_u32(c1, OVERFLOW_FLAG_BIT, x),
        None => c1,
    };
    with_bit_u32(with_bit_u32(v1, SIGN_FLAG_BIT, n), ZERO_FLAG_BIT, z)
}

/// The value an operand stands for: the immediate, or the register's
/// content.
pub open spec fn thumb_operand(cpu: Cpu, operand: ThumbRegisterOrImmediate) -> u32 {
    match operand {
        ThumbRegisterOrImmediate::Immediate(v) => v,
        ThumbRegisterOrImmediate::Register(r) => cpu.register_value(r, PcCalculation::Identity),
    }
}

/// The bus, decoded instruction and prefetched opcode after the Thumb
/// pipeline is refilled at `target`: the halfwords at `target` and
/// `target + 2` are fetched in turn, and the first is decoded.
pub open spec fn thumb_refill_pipeline(bus: Bus, target: u32) -> (Bus, Option<ThumbInstruction>, Option<u32>) {
    let first_bus = bus.fetching_from(target);
    let next = wadd(target, 2);
    let second_bus = first_bus.after_hword_read(target).fetching_from(next);
    (
        second_bus.after_hword_read(next),
        Some(spec_decode_thumb(first_bus.hword_at(target))),
        Some(second_bus.hword_at(next) as u32),
    )
}

/// R15 after `value` is written to it in the given state: halfword aligned
/// in Thumb state, word aligned in ARM state.
pub open spec fn written_pc(thumb: bool, value: u32) -> u32 {
    if thumb {
        value & !1u32
    } else {
        value & !3u32
    }
}

/// The bus after a Thumb load of `size` from `address`: the read that the
/// load makes leaves its mark on the open-bus latches.
pub open spec fn thumb_load_bus(bus: Bus, address: u32, size: ThumbLoadStoreDataSize, sign_extend: bool) -> Bus {
    match size {
        ThumbLoadStoreDataSize::Byte => bus.after_byte_read(address),
        ThumbLoadStoreDataSize::HalfWord => if address & 1 == 0 {
            bus.after_hword_read(address)
        } else if sign_extend {
            bus.after_byte_read(address)
        } else {
            bus.after_hword_read((address - 1) as u32)
        },
        ThumbLoadStoreDataSize::Word => bus.after_word_read(address & !3u32),
    }
}

/// The value a Thumb load of `size` from `address` gives: an unaligned
/// halfword is rotated (or, sign-extended, read as a byte), a word comes
/// from the aligned address rotated by the misalignment.
pub open spec fn thumb_load_value(bus: Bus, address: u32, size: ThumbLoadStoreDataSize, sign_extend: bool) -> u32 {
    match size {
        ThumbLoadStoreDataSize::Byte => if sign_extend {
            sext8(bus.byte_at(address))
        } else {
            bus.byte_at(address) as u32
        },
        ThumbLoadStoreDataSize::HalfWord => if address & 1 == 0 {
            if sign_extend {
                sext16(bus.hword_at(address))
            } else {
                bus.hword_at(address) as u32
            }
        } else {
            if sign_extend {
                sext8(bus.byte_at(address))
            } else {
                rotate_right_spec(bus.hword_at((address - 1) as u32) as u32, 8)
            }
        },
        ThumbLoadStoreDataSize::Word => rotate_right_spec(bus.word_at(address & !3u32), ((address & 3u32) * 8) as u32),
    }
}

/// Whether `after` is `before` with `value` stored at `address` by a Thumb
/// store of `size` (halfwords and words at the aligned address).
pub open spec fn thumb_stored(before: Bus, after: Bus, address: u32, value: u32, size: ThumbLoadStoreDataSize) -> bool {
    match size {
        ThumbLoadStoreDataSize::Byte => before.byte_written(&after, value as u8, address),
        ThumbLoadStoreDataSize::HalfWord => before.hword_written(&after, value as u16, address & !1u32),
        ThumbLoadStoreDataSize::Word => before.word_written(&after, value, address & !3u32),
    }
}

/// Two register lists counted up to `j` and `k`, with `j <= k`.
/// The addresses that POP, or LDMIA from `base`, reads: consecutive words
/// up from the base, bits 0-1 of each address cleared.
pub open spec fn thumb_block_addresses(base: u32, count: nat) -> Seq<u32> {
    Seq::new(count, |k: int| wadd(base, (4 * k) as u32) & !3u32)
}

/// The addresses that PUSH writes from `sp` down: consecutive words below
/// it, bits 0-1 of each address cleared.
pub open spec fn push_addresses(sp: u32, count: nat) -> Seq<u32> {
    Seq::new(count, |k: int| wsub(sp, (4 * (k + 1)) as u32) & !3u32)
}

/// The lowest set bit of `list` from bit `from` on (8 if none).
pub open spec fn lowest_set8(list: u8, from: nat) -> nat
    decreases 8 - from,
{
    if from >= 8 {
        8
    } else if bit_of_u8(list, from as u8) {
        from
    } else {
        lowest_set8(list, from + 1)
    }
}

/// Whether `after` is the bus after PUSH wrote, to `addresses` in turn, LR
/// first (when pushed) and then the listed registers from the highest down,
/// so that the lowest register takes the lowest address.
pub open spec fn push_stored(before: Bus, after: Bus, addresses: Seq<u32>, list: u8, push_lr: bool, registers: [u32; 16]) -> bool {
    exists|buses: Seq<Bus>, values: Seq<u32>|
        #[trigger] push_wrote(before, after, addresses, list, push_lr, registers, buses, values)
}

/// PUSH's writes, through the buses `buses` and with the words `values`.
pub open spec fn push_wrote(
    before: Bus,
    after: Bus,
    addresses: Seq<u32>,
    list: u8,
    push_lr: bool,
    registers: [u32; 16],
    buses: Seq<Bus>,
    values: Seq<u32>,
) -> bool {
    let lr: nat = if push_lr {
        1
    } else {
        0
    };
    let total = bits_set8(list, 8);
    &&& before.words_written(&after, buses, values, addresses)
    &&& push_lr ==> values[0] == registers[14]
    &&& forall|j: int|
        0 <= j < 8 && #[trigger] bit_of_u8(list, j as u8) ==> values[lr + total - 1 - bits_set8(list, j as nat)]
            == registers[j]
}

/// Whether `after` is the bus after STMIA from `base` wrote the listed
/// registers to consecutive words up from the base, lowest register first:
/// a listed base as its old value if it is the lowest listed register, else
/// as `new_base`.
pub open spec fn stmia_stored(
    before: Bus,
    after: Bus,
    base: u32,
    list: u8,
    b: int,
    new_base: u32,
    registers: [u32; 16],
) -> bool {
    exists|buses: Seq<Bus>, values: Seq<u32>|
        {
            &&& #[trigger] before.words_written(&after, buses, values, thumb_block_addresses(base, bits_set8(list, 8)))
            &&& forall|j: int|
                0 <= j < 8 && bit_of_u8(list, j as u8) ==> #[trigger] values[bits_set8(list, j as nat) as int]
                    == stmia_word(registers, j, b, base, new_base, list)
        }
}

/// The word STMIA writes for register `j`.
pub open spec fn stmia_word(registers: [u32; 16], j: int, b: int, base: u32, new_base: u32, list: u8) -> u32 {
    if j == b {
        if lowest_set8(list, 0) == b {
            base
        } else {
            new_base
        }
    } else {
        registers[j]
    }
}

/// One register more written by PUSH, from the highest listed register
/// down: the words written so far stay where they are.
proof fn lemma_push_step(list: u8, k: nat, lr: nat, earlier: Seq<u32>, value: u32, registers: [u32; 16])
    requires
        k < 8,
        bit_of_u8(list, k as u8),
        lr <= 1,
        earlier.len() == lr + bits_set8(list, 8) - bits_set8(list, k + 1),
        value == registers[k as int],
        forall|j: int|
            k < j < 8 && bit_of_u8(list, j as u8) ==> #[trigger] earlier[lr + bits_set8(list, 8) - 1 - bits_set8(
                list,
                j as nat,
            )] == registers[j],
    ensures
        forall|j: int|
            k <= j < 8 && bit_of_u8(list, j as u8) ==> #[trigger] earlier.push(value)[lr + bits_set8(list, 8) - 1
                - bits_set8(list, j as nat)] == registers[j],
{
    assert(bits_set8(list, k + 1) == bits_set8(list, k) + 1);
    lemma_bits_set8_mono(list, k + 1, 8);
    assert forall|j: int| k <= j < 8 && bit_of_u8(list, j as u8) implies #[trigger] earlier.push(value)[lr + bits_set8(
        list,
        8,
    ) - 1 - bits_set8(list, j as nat)] == registers[j] by {
        if j > k {
            assert(bits_set8(list, (j + 1) as nat) == bits_set8(list, j as nat) + 1);
            lemma_bits_set8_mono(list, k + 1, j as nat);
            lemma_bits_set8_mono(list, (j + 1) as nat, 8);
            assert(earlier[lr + bits_set8(list, 8) - 1 - bits_set8(list, j as nat)] == registers[j]);
        }
    }
}

/// One register more written by STMIA, lowest first: the words written so
/// far stay where they are.
proof fn lemma_stmia_step(
    list: u8,
    i: nat,
    earlier: Seq<u32>,
    value: u32,
    registers: [u32; 16],
    b: int,
    base: u32,
    new_base: u32,
)
    requires
        i < 8,
        bit_of_u8(list, i as u8),
        earlier.len() == bits_set8(list, i),
        value == stmia_word(registers, i as int, b, base, new_base, list),
        forall|j: int|
            0 <= j < i && bit_of_u8(list, j as u8) ==> #[trigger] earlier[bits_set8(list, j as nat) as int]
                == stmia_word(registers, j, b, base, new_base, list),
    ensures
        forall|j: int|
            0 <= j < i + 1 && bit_of_u8(list, j as u8) ==> #[trigger] earlier.push(value)[bits_set8(list, j as nat) as int]
                == stmia_word(registers, j, b, base, new_base, list),
{
    assert forall|j: int| 0 <= j < i + 1 && bit_of_u8(list, j as u8) implies #[trigger] earlier.push(value)[bits_set8(
        list,
        j as nat,
    ) as int] == stmia_word(registers, j, b, base, new_base, list) by {
        if j < i {
            assert(bits_set8(list, (j + 1) as nat) == bits_set8(list, j as nat) + 1);
            lemma_bits_set8_mono(list, (j + 1) as nat, i);
            assert(earlier[bits_set8(list, j as nat) as int] == stmia_word(registers, j, b, base, new_base, list));
        }
    }
}

/// One listed register more loaded by POP or LDMIA: the registers loaded so
/// far keep the words of their reads.
proof fn lemma_block_load_step(list: u8, k: nat, before: Seq<u32>, after: Seq<u32>, earlier: Seq<u32>, later: Seq<u32>)
    requires
        k < 8,
        bit_of_u8(list, k as u8),
        earlier.len() == bits_set8(list, k),
        later.len() == earlier.len() + 1,
        forall|i: int| 0 <= i < earlier.len() ==> later[i] == earlier[i],
        after[k as int] == later[earlier.len() as int],
        forall|j: int| 0 <= j < 8 && j != k ==> after[j] == before[j],
        forall|j: int|
            0 <= j < k && bit_of_u8(list, j as u8) ==> #[trigger] before[j] == earlier[bits_set8(list, j as nat) as int],
    ensures
        forall|j: int|
            0 <= j < k + 1 && bit_of_u8(list, j as u8) ==> #[trigger] after[j] == later[bits_set8(list, j as nat) as int],
{
    assert forall|j: int| 0 <= j < k + 1 && bit_of_u8(list, j as u8) implies #[trigger] after[j] == later[bits_set8(
        list,
        j as nat,
    ) as int] by {
        if j < k {
            assert(bits_set8(list, (j + 1) as nat) == bits_set8(list, j as nat) + 1);
            lemma_bits_set8_mono(list, (j + 1) as nat, k);
            assert(before[j] == earlier[bits_set8(list, j as nat) as int]);
        }
    }
}

pub(crate) proof fn lemma_bits_set8_mono(list: u8, j: nat, k: nat)
    requires
        j <= k,
    ensures
        bits_set8(list, j) <= bits_set8(list, k),
        bits_set8(list, k) - bits_set8(list, j) <= k - j,
    decreases k - j,
{
    if j < k {
        lemma_bits_set8_mono(list, j, (k - 1) as nat);
    }
}

impl Cpu {
    /// R15 after one Thumb instruction.
    pub open spec fn thumb_next_pc(&self) -> u32 {
        advanced_pc(self.thumb(), self.registers[15], 2)
    }

    /// The core with new registers and the pipeline emptied.
    pub open spec fn flushed_with(self, registers: [u32; 16]) -> Cpu {
        Cpu { registers, prefetch_opcode: None, pre_decode_arm: None, pre_decode_thumb: None, ..self }
    }

    /// An exception taken: the mode, status registers, link register and
    /// vector of `exception`, the pipeline empty, the bus untouched, and every
    /// other register of every mode (and the other modes' saved status
    /// registers) kept, so that the interrupted code can resume.
    pub open spec fn exception_effect(self, after: Cpu, exception: ExceptionType) -> bool {
        &&& after.mode() == exception_mode(exception)
        &&& after.cpsr == Cpu::exception_cpsr(self.cpsr, exception)
        &&& after.registers[14] == exception_return_address(self.registers[15], self.thumb(), exception)
        &&& after.spsr == self.cpsr
        &&& after.registers[15] == exception_vector(exception)
        &&& after.prefetch_opcode is None
        &&& after.pre_decode_arm is None
        &&& after.pre_decode_thumb is None
        &&& after.bus == self.bus
        &&& Cpu::banks_kept_on_entry(self, after, exception_mode(exception))
    }

    /// A register operation (format 1-5 arithmetic and logic): the result
    /// written back unless it is a comparison, the flags it sets, and R15
    /// moved on.
    pub open spec fn thumb_register_effect(
        self,
        after: Cpu,
        operation: ThumbRegisterOperation,
        destination_register: Register,
        source: Register,
        second_operand: ThumbRegisterOrImmediate,
    ) -> bool {
        let a = self.registers[register_index(source)];
        let b = thumb_operand(self, second_operand);
        let by_register = second_operand matches ThumbRegisterOrImmediate::Register(_);
        let (result, c, n, v) = thumb_reg_spec(
            operation,
            a,
            b,
            by_register,
            self.flag(CARRY_FLAG_BIT),
            self.flag(OVERFLOW_FLAG_BIT),
        );
        let regs = if thumb_reg_writes(operation) {
            self.registers@.update(register_index(destination_register), result)
        } else {
            self.registers@
        };
        &&& after.registers@ == regs.update(15, self.thumb_next_pc())
        &&& after == Cpu { registers: after.registers, cpsr: thumb_flags(self.cpsr, n, result == 0, c, v), ..self }
    }

    /// ADD, CMP or MOV on any registers: CMP only sets the flags; a write
    /// of R15 empties the pipeline instead of moving on.
    pub open spec fn thumb_high_register_effect(
        self,
        after: Cpu,
        destination_register: Register,
        operation: ThumbHighRegisterOperation,
        source: Register,
    ) -> bool {
        let dv = self.register_value(destination_register, PcCalculation::Identity);
        let sv = self.register_value(source, PcCalculation::Identity);
        let d = register_index(destination_register);
        if operation == ThumbHighRegisterOperation::Cmp {
            let (r, c, v) = sub_spec(dv, sv, true);
            &&& after.registers@ == self.registers@.update(15, self.thumb_next_pc())
            &&& after == Cpu {
                registers: after.registers,
                cpsr: thumb_flags(self.cpsr, bit_of_u32(r, 31), r == 0, Some(c), Some(v)),
                ..self
            }
        } else {
            let result = if operation == ThumbHighRegisterOperation::Add {
                wadd(dv, sv)
            } else {
                sv
            };
            if d == 15 {
                &&& after.registers@ == self.registers@.update(15, written_pc(self.thumb(), result))
                &&& after == self.flushed_with(after.registers)
            } else {
                &&& after.registers@ == self.registers@.update(d, result).update(15, self.thumb_next_pc())
                &&& after == Cpu { registers: after.registers, ..self }
            }
        }
    }

    /// The address a Thumb load reads: the base (R15 word aligned) plus the
    /// offset.
    pub open spec fn thumb_ldr_address(self, base_register: Register, offset: ThumbRegisterOrImmediate) -> u32 {
        wadd(self.register_value(base_register, PcCalculation::WordAligned), thumb_operand(self, offset))
    }

    pub open spec fn thumb_ldr_effect(
        self,
        after: Cpu,
        base_register: Register,
        offset: ThumbRegisterOrImmediate,
        destination_register: Register,
        size: ThumbLoadStoreDataSize,
        sign_extend: bool,
    ) -> bool {
        let address = self.thumb_ldr_address(base_register, offset);
        let value = thumb_load_value(self.bus, address, size, sign_extend);
        &&& after.registers@ == self.registers@.update(register_index(destination_register), value).update(
            15,
            self.thumb_next_pc(),
        )
        &&& after == Cpu { registers: after.registers, bus: thumb_load_bus(self.bus, address, size, sign_extend), ..self }
    }

    pub open spec fn thumb_str_effect(
        self,
        after: Cpu,
        base_register: Register,
        offset: ThumbRegisterOrImmediate,
        source_register: Register,
        size: ThumbLoadStoreDataSize,
    ) -> bool {
        let address = wadd(self.registers[register_index(base_register)], thumb_operand(self, offset));
        &&& thumb_stored(self.bus, after.bus, address, self.registers[register_index(source_register)], size)
        &&& after.registers@ == self.registers@.update(15, self.thumb_next_pc())
        &&& after == Cpu { registers: after.registers, bus: after.bus, ..self }
    }

    /// A conditional branch: taken, R15 plus the offset and the pipeline
    /// emptied; not taken, R15 moved on.
    pub open spec fn thumb_b_effect(self, after: Cpu, condition: InstructionCondition, offset: i16) -> bool {
        if condition_holds(
            condition,
            self.flag(SIGN_FLAG_BIT),
            self.flag(ZERO_FLAG_BIT),
            self.flag(CARRY_FLAG_BIT),
            self.flag(OVERFLOW_FLAG_BIT),
        ) {
            &&& after.registers@ == self.registers@.update(
                15,
                written_pc(self.thumb(), wadd(self.registers[15], offset as u32)),
            )
            &&& after == self.flushed_with(after.registers)
        } else {
            &&& after.registers@ == self.registers@.update(15, self.thumb_next_pc())
            &&& after == Cpu { registers: after.registers, ..self }
        }
    }

    /// The first half of BL: LR is R15 plus the upper offset.
    pub open spec fn thumb_bl_part_1_effect(self, after: Cpu, offset: i32) -> bool {
        &&& after.registers@ == self.registers@.update(14, wadd(self.registers[15], offset as u32)).update(
            15,
            self.thumb_next_pc(),
        )
        &&& after == Cpu { registers: after.registers, ..self }
    }

    /// The second half of BL: R15 is LR plus the lower offset, LR the
    /// address of the next instruction with bit 0 set.
    pub open spec fn thumb_bl_part_2_effect(self, after: Cpu, offset: u16) -> bool {
        let new_pc = wadd(self.registers[14], offset as u32);
        let new_lr = wsub(self.registers[15], 2) | 1u32;
        &&& after.registers@ == self.registers@.update(15, written_pc(self.thumb(), new_pc)).update(14, new_lr)
        &&& after == self.flushed_with(after.registers)
    }

    /// The operand of BX (R15 read word aligned).
    pub open spec fn thumb_bx_target(self, operand: Register) -> u32 {
        if operand == Register::R15 {
            (self.registers[15] & !2u32) & !1u32
        } else {
            self.register_value(operand, PcCalculation::Identity)
        }
    }

    /// BX: the state follows bit 0 of the operand, R15 the rest of it.
    pub open spec fn thumb_bx_effect(self, after: Cpu, operand: Register) -> bool {
        let target = self.thumb_bx_target(operand);
        let thumb = bit_of_u32(target, 0);
        &&& after.registers@ == self.registers@.update(15, written_pc(thumb, target & !1u32))
        &&& after == Cpu { cpsr: with_bit_u32(self.cpsr, STATE_BIT, thumb), ..self.flushed_with(after.registers) }
    }

    /// PUSH: LR (when pushed) and the listed registers are written to
    /// consecutive words below SP, the lowest register at the lowest
    /// address, and SP goes down by four for each; R15 moves on.
    pub open spec fn thumb_push_effect(self, after: Cpu, register_bit_list: u8, push_lr: bool) -> bool {
        let count = bits_set8(register_bit_list, 8) + if push_lr {
            1nat
        } else {
            0nat
        };
        &&& push_stored(
            self.bus,
            after.bus,
            push_addresses(self.registers[13], count),
            register_bit_list,
            push_lr,
            self.registers,
        )
        &&& after.registers@ == self.registers@.update(13, wsub(self.registers[13], (4 * count) as u32)).update(
            15,
            self.thumb_next_pc(),
        )
        &&& after == Cpu { registers: after.registers, bus: after.bus, ..self }
    }

    /// POP: the listed registers (and PC, bit 0 cleared) take consecutive
    /// words from SP up, which goes up by four for each; the other registers
    /// keep their values; popping PC empties the pipeline.
    pub open spec fn thumb_pop_effect(self, after: Cpu, register_bit_list: u8, pop_pc: bool) -> bool {
        let count = bits_set8(register_bit_list, 8) + if pop_pc {
            1nat
        } else {
            0nat
        };
        let loaded = self.bus.words_read(thumb_block_addresses(self.registers[13], count));
        &&& after.registers[13] == wadd(self.registers[13], (4 * count) as u32)
        &&& forall|j: int|
            0 <= j < 15 && j != 13 && !(j < 8 && bit_of_u8(register_bit_list, j as u8)) ==> #[trigger] after.registers[j]
                == self.registers[j]
        &&& forall|j: int|
            0 <= j < 8 && bit_of_u8(register_bit_list, j as u8) ==> #[trigger] after.registers[j]
                == loaded[bits_set8(register_bit_list, j as nat) as int]
        &&& pop_pc ==> after.registers[15] == written_pc(self.thumb(), loaded[count - 1] & !1u32)
        &&& after.bus == self.bus.after_words_read(thumb_block_addresses(self.registers[13], count))
        &&& !pop_pc ==> after.registers[15] == self.thumb_next_pc() && after == Cpu {
            registers: after.registers,
            bus: after.bus,
            ..self
        }
        &&& pop_pc ==> after == Cpu { bus: after.bus, ..self.flushed_with(after.registers) }
        &&& pop_pc && self.thumb() ==> after.registers[15] & 1u32 == 0
    }

    /// The number of words STMIA and LDMIA move: 16 for an empty list.
    pub open spec fn block_count(register_bit_list: u8) -> nat {
        if register_bit_list == 0 {
            16
        } else {
            bits_set8(register_bit_list, 8)
        }
    }

    /// STMIA: the listed registers are written to consecutive words up from
    /// the base, lowest register first (an empty list writes R15, two bytes
    /// ahead, at the base), the base moves up by four per word and R15 moves
    /// on.
    pub open spec fn thumb_stmia_effect(self, after: Cpu, base_register: Register, register_bit_list: u8) -> bool {
        let b = register_index(base_register);
        let base = self.registers[b];
        let new_base = wadd(base, (4 * Cpu::block_count(register_bit_list)) as u32);
        &&& register_bit_list != 0 ==> stmia_stored(self.bus, after.bus, base, register_bit_list, b, new_base, self.registers)
        &&& register_bit_list == 0 ==> self.bus.word_written(&after.bus, wadd(self.registers[15], 2), base & !3u32)
        &&& after.registers@ == self.registers@.update(
            b,
            wadd(self.registers[b], (4 * Cpu::block_count(register_bit_list)) as u32),
        ).update(15, self.thumb_next_pc())
        &&& after == Cpu { registers: after.registers, bus: after.bus, ..self }
    }

    /// LDMIA: the listed registers take consecutive words from the base up,
    /// and the base moves up by four per word (a listed base ends as the
    /// moved base); registers not listed keep their values; an empty list
    /// loads R15 and empties the pipeline.
    pub open spec fn thumb_ldmia_effect(self, after: Cpu, base_register: Register, register_bit_list: u8) -> bool {
        let b = register_index(base_register);
        let loaded = self.bus.words_read(thumb_block_addresses(self.registers[b], bits_set8(register_bit_list, 8)));
        &&& after.registers[b] == wadd(self.registers[b], (4 * Cpu::block_count(register_bit_list)) as u32)
        &&& forall|j: int|
            0 <= j < 15 && j != b && !(j < 8 && bit_of_u8(register_bit_list, j as u8)) ==> #[trigger] after.registers[j]
                == self.registers[j]
        &&& forall|j: int|
            0 <= j < 8 && j != b && bit_of_u8(register_bit_list, j as u8) ==> #[trigger] after.registers[j]
                == loaded[bits_set8(register_bit_list, j as nat) as int]
        &&& register_bit_list == 0 ==> after.registers[15] == written_pc(
            self.thumb(),
            self.bus.word_at(self.registers[b] & !3u32),
        ) && after.bus == self.bus.after_word_read(self.registers[b] & !3u32)
        &&& register_bit_list != 0 ==> after.bus == self.bus.after_words_read(
            thumb_block_addresses(self.registers[b], bits_set8(register_bit_list, 8)),
        )
        &&& register_bit_list != 0 ==> after.registers[15] == self.thumb_next_pc() && after == Cpu {
            registers: after.registers,
            bus: after.bus,
            ..self
        }
        &&& register_bit_list == 0 ==> after == Cpu { bus: after.bus, ..self.flushed_with(after.registers) }
    }

    /// ADD/SUB of an immediate to SP or the word-aligned PC (or to SP in
    /// place).
    pub open spec fn thumb_add_special_effect(
        self,
        after: Cpu,
        source_register: Register,
        dest_register: Register,
        sign_bit: bool,
        unsigned_offset: u16,
    ) -> bool {
        let sv = self.register_value(source_register, PcCalculation::WordAligned);
        let result = if sign_bit {
            wsub(sv, unsigned_offset as u32)
        } else {
            wadd(sv, unsigned_offset as u32)
        };
        &&& after.registers@ == self.registers@.update(register_index(dest_register), result).update(
            15,
            self.thumb_next_pc(),
        )
        &&& after == Cpu { registers: after.registers, ..self }
    }

    /// What executing a Thumb instruction does: the effect of its kind, SWI
    /// the software interrupt, and an instruction outside
    /// `thumb_supported` the undefined-instruction exception.
    pub open spec fn thumb_executed(self, after: Cpu, t: ThumbInstructionType) -> bool {
        if !thumb_supported(t) {
            self.exception_effect(after, ExceptionType::Undefined)
        } else {
            match t {
                ThumbInstructionType::Register { operation, destination_register, source, second_operand } => self.thumb_register_effect(
                    after,
                    operation,
                    destination_register,
                    source,
                    second_operand,
                ),
                ThumbInstructionType::HighRegister { destination_register, operation, source } => self.thumb_high_register_effect(
                    after,
                    destination_register,
                    operation,
                    source,
                ),
                ThumbInstructionType::Ldr { base_register, offset, destination_register, size, sign_extend } => self.thumb_ldr_effect(
                    after,
                    base_register,
                    offset,
                    destination_register,
                    size,
                    sign_extend,
                ),
                ThumbInstructionType::Str { base_register, offset, source_register, size } => self.thumb_str_effect(
                    after,
                    base_register,
                    offset,
                    source_register,
                    size,
                ),
                ThumbInstructionType::B { condition, offset } => self.thumb_b_effect(after, condition, offset),
                ThumbInstructionType::BlPartOne { offset } => self.thumb_bl_part_1_effect(after, offset),
                ThumbInstructionType::BlPartTwo { offset } => self.thumb_bl_part_2_effect(after, offset),
                ThumbInstructionType::Bx { operand } => self.thumb_bx_effect(after, operand),
                ThumbInstructionType::Push { register_bit_list, push_lr } => self.thumb_push_effect(
                    after,
                    register_bit_list,
                    push_lr,
                ),
                ThumbInstructionType::Pop { register_bit_list, pop_pc } => self.thumb_pop_effect(
                    after,
                    register_bit_list,
                    pop_pc,
                ),
                ThumbInstructionType::StmiaWriteBack { base_register, register_bit_list } => self.thumb_stmia_effect(
                    after,
                    base_register,
                    register_bit_list,
                ),
                ThumbInstructionType::LdmiaWriteBack { base_register, register_bit_list } => self.thumb_ldmia_effect(
                    after,
                    base_register,
                    register_bit_list,
                ),
                ThumbInstructionType::AddSpecial { source_register, dest_register, sign_bit, unsigned_offset } => self.thumb_add_special_effect(
                    after,
                    source_register,
                    dest_register,
                    sign_bit,
                    unsigned_offset,
                ),
                ThumbInstructionType::Swi { .. } => self.exception_effect(after, ExceptionType::Swi),
                _ => self.exception_effect(after, ExceptionType::Undefined),
            }
        }
    }
}

impl Cpu {
    /// Moves R15 on by one Thumb instruction.
    pub(crate) fn advance_pc_for_thumb_instruction(&mut self)
        ensures
            final(self).registers@ == old(self).registers@.update(15, old(self).thumb_next_pc()),
            *final(self) == (Cpu { registers: final(self).registers, ..*old(self) }),
    {
        let old_pc = self.read_register(Register::R15, PcCalculation::Identity);
        self.write_register(old_pc.wrapping_add(2), Register::R15);
    }

    /// Sets N and Z, and C and V where given.
    fn set_thumb_flags(&mut self, n: bool, z: bool, c: Option<bool>, v: Option<bool>)
        ensures
            *final(self) == (Cpu { cpsr: thumb_flags(old(self).cpsr, n, z, c, v), ..*old(self) }),
            final(self).thumb() == old(self).thumb(),
    {
        let ghost c0 = self.cpsr;
        match c {
            Some(carry) => {
                self.set_cpsr_bit(CARRY_FLAG_BIT, carry);
                proof {
                    lemma_with_bit_u32(c0, CARRY_FLAG_BIT, carry);
                }
            },
            None => {},
        }
        let ghost c1 = self.cpsr;
        assert(bit_of_u32(c1, STATE_BIT) == bit_of_u32(c0, STATE_BIT));
        match v {
            Some(overflow) => {
                self.set_cpsr_bit(OVERFLOW_FLAG_BIT, overflow);
                proof {
                    lemma_with_bit_u32(c1, OVERFLOW_FLAG_BIT, overflow);
                }
            },
            None => {},
        }
        let ghost c2 = self.cpsr;
        assert(bit_of_u32(c2, STATE_BIT) == bit_of_u32(c0, STATE_BIT));
        self.set_cpsr_bit(SIGN_FLAG_BIT, n);
        proof {
            lemma_with_bit_u32(c2, SIGN_FLAG_BIT, n);
        }
        let ghost c3 = self.cpsr;
        assert(bit_of_u32(c3, STATE_BIT) == bit_of_u32(c0, STATE_BIT));
        self.set_cpsr_bit(ZERO_FLAG_BIT, z);
        proof {
            lemma_with_bit_u32(c3, ZERO_FLAG_BIT, z);
        }
    }

    pub fn execute_thumb_register_operation(
        &mut self,
        operation: ThumbRegisterOperation,
        destination_register: Register,
        source: Register,
        second_operand: ThumbRegisterOrImmediate,
    )
        requires
            old(self).wf(),
            thumb_supported(
                ThumbInstructionType::Register { operation, destination_register, source, second_operand },
            ),
        ensures
            final(self).wf(),
            old(self).thumb_register_effect(*final(self), operation, destination_register, source, second_operand),
    {
        let a = self.read_register(source, PcCalculation::Identity);
        let (b, by_register) = match second_operand {
            ThumbRegisterOrImmediate::Immediate(immediate) => (immediate, false),
            ThumbRegisterOrImmediate::Register(register) => (self.read_register(register, PcCalculation::Identity), true),
        };
        let c = self.get_carry_flag();
        let v = self.get_overflow_flag();
        let (result, carry, negative, overflow) = thumb_register_compute(operation, a, b, by_register, c, v);
        self.set_thumb_flags(negative, result == 0, carry, overflow);
        let writes = match operation {
            ThumbRegisterOperation::Cmp | ThumbRegisterOperation::Cmn | ThumbRegisterOperation::Tst => false,
            _ => true,
        };
        if writes {
            self.write_register(result, destination_register);
        }
        self.advance_pc_for_thumb_instruction();
    }

    pub fn execute_thumb_high_register_operation(
        &mut self,
        destination_register: Register,
        operation: ThumbHighRegisterOperation,
        source: Register,
    )
        requires
            old(self).wf(),
            destination_register.is_general(),
            source.is_general(),
        ensures
            final(self).wf(),
            old(self).thumb_high_register_effect(*final(self), destination_register, operation, source),
    {
        let destination_value = self.read_register(destination_register, PcCalculation::Identity);
        let source_value = self.read_register(source, PcCalculation::Identity);
        match operation {
            ThumbHighRegisterOperation::Cmp => {
                let (result, carry, overflow) = sub_with_borrow(destination_value, source_value, true);
                self.set_thumb_flags(get_bit_u32(result, 31), result == 0, Some(carry), Some(overflow));
                self.advance_pc_for_thumb_instruction();
            },
            _ => {
                let result = if operation == ThumbHighRegisterOperation::Add {
                    destination_value.wrapping_add(source_value)
                } else {
                    source_value
                };
                self.write_register(result, destination_register);
                if destination_register == Register::R15 {
                    self.flush_prefetch();
                } else {
                    self.advance_pc_for_thumb_instruction();
                }
            },
        }
    }

    fn thumb_load(&mut self, address: u32, size: ThumbLoadStoreDataSize, sign_extend: bool) -> (r: u32)
        requires
            old(self).wf(),
        ensures
            final(self).wf(),
            r == thumb_load_value(old(self).bus, address, size, sign_extend),
            *final(self) == (Cpu { bus: thumb_load_bus(old(self).bus, address, size, sign_extend), ..*old(self) }),
    {
        assert(((address & 3u32) * 8) < 32) by {
            crate::bits::lemma_u32_address(address);
        }
        match size {
            ThumbLoadStoreDataSize::Byte => {
                let b = self.bus.read_byte_address(address);
                if sign_extend {
                    sign_extend_byte(b)
                } else {
                    b as u32
                }
            },
            ThumbLoadStoreDataSize::HalfWord => {
                if address & 1 == 0 {
                    let h = self.bus.read_halfword_address(address);
                    if sign_extend {
                        sign_extend_hword(h)
                    } else {
                        h as u32
                    }
                } else if sign_extend {
                    let b = self.bus.read_byte_address(address);
                    sign_extend_byte(b)
                } else {
                    assert(address >= 1) by {
                        crate::bits::lemma_u32_address(address);
                    }
                    let h = self.bus.read_halfword_address(address - 1);
                    rotate_right(h as u32, 8)
                }
            },
            ThumbLoadStoreDataSize::Word => {
                let w = self.bus.read_word_address(address & !3u32);
                rotate_right(w, (address & 3u32) * 8)
            },
        }
    }

    pub fn execute_thumb_ldr(
        &mut self,
        base_register: Register,
        offset: ThumbRegisterOrImmediate,
        destination_register: Register,
        size: ThumbLoadStoreDataSize,
        sign_extend: bool,
    )
        requires
            old(self).wf(),
            thumb_supported(
                ThumbInstructionType::Ldr { base_register, offset, destination_register, size, sign_extend },
            ),
        ensures
            final(self).wf(),
            old(self).thumb_ldr_effect(*final(self), base_register, offset, destination_register, size, sign_extend),
    {
        let base_address = self.read_register(base_register, PcCalculation::WordAligned);
        let base_offset = match offset {
            ThumbRegisterOrImmediate::Immediate(immediate) => immediate,
            ThumbRegisterOrImmediate::Register(register) => self.read_register(register, PcCalculation::Identity),
        };
        let real_address = base_address.wrapping_add(base_offset);
        let value = self.thumb_load(real_address, size, sign_extend);
        self.write_register(value, destination_register);
        self.advance_pc_for_thumb_instruction();
    }

    pub fn execute_thumb_str(
        &mut self,
        base_register: Register,
        offset: ThumbRegisterOrImmediate,
        source_register: Register,
        size: ThumbLoadStoreDataSize,
    )
        requires
            old(self).wf(),
            thumb_supported(ThumbInstructionType::Str { base_register, offset, source_register, size }),
        ensures
            final(self).wf(),
            old(self).thumb_str_effect(*final(self), base_register, offset, source_register, size),
    {
        let base_address = self.read_register(base_register, PcCalculation::Identity);
        let base_offset = match offset {
            ThumbRegisterOrImmediate::Immediate(immediate) => immediate,
            ThumbRegisterOrImmediate::Register(register) => self.read_register(register, PcCalculation::Identity),
        };
        let real_address = base_address.wrapping_add(base_offset);
        let value = self.read_register(source_register, PcCalculation::Identity);
        match size {
            ThumbLoadStoreDataSize::Byte => self.bus.write_byte_address(value as u8, real_address),
            ThumbLoadStoreDataSize::HalfWord => self.bus.write_halfword_address(value as u16, real_address & !1u32),
            ThumbLoadStoreDataSize::Word => self.bus.write_word_address(value, real_address & !3u32),
        }
        self.advance_pc_for_thumb_instruction();
    }

    pub fn execute_thumb_b(&mut self, condition: InstructionCondition, offset: i16)
        requires
            old(self).wf(),
        ensures
            final(self).wf(),
            old(self).thumb_b_effect(*final(self), condition, offset),
    {
        if self.evaluate_instruction_condition(condition) {
            let old_pc = self.read_register(Register::R15, PcCalculation::Identity);
            let new_pc = old_pc.wrapping_add(offset as u32);
            self.write_register(new_pc, Register::R15);
            self.flush_prefetch();
        } else {
            self.advance_pc_for_thumb_instruction();
        }
    }

    pub fn execute_thumb_bl_part_1(&mut self, offset: i32)
        requires
            old(self).wf(),
        ensures
            final(self).wf(),
            old(self).thumb_bl_part_1_effect(*final(self), offset),
    {
        let old_pc = self.read_register(Register::R15, PcCalculation::Identity);
        let new_lr = old_pc.wrapping_add(offset as u32);
        self.write_register(new_lr, Register::R14);
        self.advance_pc_for_thumb_instruction();
    }

    pub fn execute_thumb_bl_part_2(&mut self, offset: u16)
        requires
            old(self).wf(),
        ensures
            final(self).wf(),
            old(self).thumb_bl_part_2_effect(*final(self), offset),
    {
        let old_pc = self.read_register(Register::R15, PcCalculation::Identity);
        let old_lr = self.read_register(Register::R14, PcCalculation::Identity);
        let new_pc = old_lr.wrapping_add(offset as u32);
        let new_lr = old_pc.wrapping_sub(2) | 1;
        self.write_register(new_pc, Register::R15);
        self.write_register(new_lr, Register::R14);
        self.flush_prefetch();
    }

    pub fn execute_thumb_bx(&mut self, operand: Register)
        requires
            old(self).wf(),
            operand.is_general(),
        ensures
            final(self).wf(),
            old(self).thumb_bx_effect(*final(self), operand),
    {
        let raw = self.read_register(operand, PcCalculation::WordAligned);
        let operand_value = if operand == Register::R15 {
            raw & !1u32
        } else {
            raw
        };
        let new_state_bit = get_bit_u32(operand_value, 0);
        self.set_cpsr_bit(STATE_BIT, new_state_bit);
        proof {
            lemma_with_bit_u32(old(self).cpsr, STATE_BIT, new_state_bit);
        }
        let new_pc = operand_value & !1u32;
        self.write_register(new_pc, Register::R15);
        self.flush_prefetch();
    }

    pub fn execute_thumb_push(&mut self, register_bit_list: u8, push_lr: bool)
        requires
            old(self).wf(),
        ensures
            final(self).wf(),
            old(self).thumb_push_effect(*final(self), register_bit_list, push_lr),
    {
        let ghost start = *self;
        let ghost lr_count: nat = if push_lr {
            1
        } else {
            0
        };
        let ghost total = bits_set8(register_bit_list, 8);
        let ghost mut buses: Seq<Bus> = seq![self.bus];
        let ghost mut values: Seq<u32> = Seq::empty();
        let ghost mut addresses: Seq<u32> = Seq::empty();
        proof {
            lemma_words_written_none(self.bus);
        }
        if push_lr {
            let lr_value = self.read_register(Register::R14, PcCalculation::Identity);
            let new_r13 = self.read_register(Register::R13, PcCalculation::Identity).wrapping_sub(4);
            self.write_register(new_r13, Register::R13);
            let ghost bus_before = self.bus;
            self.bus.write_word_address(lr_value, new_r13 & !3u32);
            proof {
                lemma_words_written_push(start.bus, bus_before, self.bus, buses, values, addresses, lr_value, new_r13 & !3u32);
                buses = buses.push(self.bus);
                values = values.push(lr_value);
                addresses = addresses.push(new_r13 & !3u32);
            }
        } else {
            assert(self.registers@ =~= start.registers@.update(13, wsub(start.registers[13], 0)));
        }
        proof {
            lemma_bits_set8_mono(register_bit_list, 0, 8);
            assert(addresses =~= push_addresses(start.registers[13], lr_count));
        }
        let mut k: u8 = 8;
        while k > 0
            invariant
                self.wf(),
                k <= 8,
                total == bits_set8(register_bit_list, 8),
                values.len() == lr_count + total - bits_set8(register_bit_list, k as nat),
                addresses == push_addresses(start.registers[13], (lr_count + total - bits_set8(register_bit_list, k as nat)) as nat),
                start.bus.words_written(&self.bus, buses, values, addresses),
                push_lr ==> values[0] == start.registers[14],
                forall|j: int|
                    k <= j < 8 && bit_of_u8(register_bit_list, j as u8) ==> #[trigger] values[lr_count + total - 1
                        - bits_set8(register_bit_list, j as nat)] == start.registers[j],
                lr_count == (if push_lr {
                    1nat
                } else {
                    0nat
                }),
                bits_set8(register_bit_list, k as nat) <= total,
                total - bits_set8(register_bit_list, k as nat) <= 8 - k,
                self.registers@ == start.registers@.update(
                    13,
                    wsub(start.registers[13], (4 * (lr_count + total - bits_set8(register_bit_list, k as nat))) as u32),
                ),
                *self == (Cpu { registers: self.registers, bus: self.bus, ..start }),
            decreases k,
        {
            k = k - 1;
            proof {
                lemma_bits_set8_mono(register_bit_list, k as nat, 8);
            }
            if get_bit_u8(register_bit_list, k) {
                let register = Register::from_index(k as u32);
                let value = self.read_register(register, PcCalculation::Identity);
                let new_r13 = self.read_register(Register::R13, PcCalculation::Identity).wrapping_sub(4);
                self.write_register(new_r13, Register::R13);
                let ghost bus_before = self.bus;
                self.bus.write_word_address(value, new_r13 & !3u32);
                proof {
                    assert(bits_set8(register_bit_list, (k + 1) as nat) == bits_set8(register_bit_list, k as nat) + 1);
                    lemma_bits_set8_mono(register_bit_list, (k + 1) as nat, 8);
                    assert(push_addresses(start.registers[13], (values.len() + 1) as nat) =~= addresses.push(new_r13 & !3u32));
                    lemma_words_written_push(start.bus, bus_before, self.bus, buses, values, addresses, value, new_r13 & !3u32);
                    lemma_push_step(register_bit_list, k as nat, lr_count, values, value, start.registers);
                    buses = buses.push(self.bus);
                    values = values.push(value);
                    addresses = addresses.push(new_r13 & !3u32);
                }
            }
        }
        let ghost stored_bus = self.bus;
        self.advance_pc_for_thumb_instruction();
        proof {
            assert(self.bus == stored_bus);
            assert(bits_set8(register_bit_list, 0) == 0);
            assert(addresses == push_addresses(start.registers[13], lr_count + total));
            assert(start.bus.words_written(&self.bus, buses, values, push_addresses(start.registers[13], lr_count + total)));
            assert(push_lr ==> values[0] == start.registers[14]);
            assert forall|j: int| 0 <= j < 8 && bit_of_u8(register_bit_list, j as u8) implies #[trigger] values[lr_count
                + total - 1 - bits_set8(register_bit_list, j as nat)] == start.registers[j] by {}
            assert(push_wrote(
                start.bus,
                self.bus,
                push_addresses(start.registers[13], lr_count + total),
                register_bit_list,
                push_lr,
                start.registers,
                buses,
                values,
            ));
            assert(push_stored(
                start.bus,
                self.bus,
                push_addresses(start.registers[13], lr_count + total),
                register_bit_list,
                push_lr,
                start.registers,
            ));
        }
    }

    pub fn execute_thumb_pop(&mut self, register_bit_list: u8, pop_pc: bool)
        requires
            old(self).wf(),
        ensures
            final(self).wf(),
            old(self).thumb_pop_effect(*final(self), register_bit_list, pop_pc),
    {
        let ghost start = *self;
        let ghost mut addresses: Seq<u32> = Seq::empty();
        let mut k: u8 = 0;
        assert(addresses =~= thumb_block_addresses(start.registers[13], 0));
        while k < 8
            invariant
                self.wf(),
                k <= 8,
                bits_set8(register_bit_list, k as nat) <= k,
                addresses == thumb_block_addresses(start.registers[13], bits_set8(register_bit_list, k as nat)),
                self.bus == start.bus.after_words_read(addresses),
                forall|j: int|
                    0 <= j < k && bit_of_u8(register_bit_list, j as u8) ==> #[trigger] self.registers[j]
                        == start.bus.words_read(addresses)[bits_set8(register_bit_list, j as nat) as int],
                self.registers[13] == wadd(start.registers[13], (4 * bits_set8(register_bit_list, k as nat)) as u32),
                forall|j: int|
                    0 <= j < 16 && j != 13 && !(j < k && bit_of_u8(register_bit_list, j as u8)) ==> #[trigger] self.registers[j]
                        == start.registers[j],
                *self == (Cpu { registers: self.registers, bus: self.bus, ..start }),
            decreases 8 - k,
        {
            proof {
                lemma_bits_set8_bound(register_bit_list, (k + 1) as nat);
            }
            if get_bit_u8(register_bit_list, k) {
                let register = Register::from_index(k as u32);
                let old_r13 = self.read_register(Register::R13, PcCalculation::Identity);
                let ghost earlier = start.bus.words_read(addresses);
                let ghost regs_before = self.registers;
                let value = self.bus.read_word_address(old_r13 & !3u32);
                proof {
                    lemma_words_read_push(start.bus, addresses, old_r13 & !3u32);
                    lemma_words_read_len(start.bus, addresses);
                    assert(bits_set8(register_bit_list, (k + 1) as nat) == bits_set8(register_bit_list, k as nat) + 1);
                    assert(thumb_block_addresses(start.registers[13], bits_set8(register_bit_list, (k + 1) as nat))
                        =~= addresses.push(old_r13 & !3u32));
                    addresses = addresses.push(old_r13 & !3u32);
                }
                self.write_register(old_r13.wrapping_add(4), Register::R13);
                self.write_register(value, register);
                proof {
                    lemma_block_load_step(
                        register_bit_list,
                        k as nat,
                        regs_before@,
                        self.registers@,
                        earlier,
                        start.bus.words_read(addresses),
                    );
                }
            }
            k = k + 1;
        }
        let ghost loop_regs = self.registers;
        proof {
            lemma_words_read_len(start.bus, addresses);
        }
        if pop_pc {
            let old_r13 = self.read_register(Register::R13, PcCalculation::Identity);
            let ghost earlier = start.bus.words_read(addresses);
            proof {
                lemma_words_read_push(start.bus, addresses, old_r13 & !3u32);
                lemma_words_read_len(start.bus, addresses);
                assert(thumb_block_addresses(start.registers[13], bits_set8(register_bit_list, 8) + 1)
                    =~= addresses.push(old_r13 & !3u32));
            }
            let pc_value = self.bus.read_word_address(old_r13 & !3u32) & !1u32;
            self.write_register(old_r13.wrapping_add(4), Register::R13);
            self.write_register(pc_value, Register::R15);
            proof {
                crate::bits::lemma_u32_address(pc_value);
            }
            self.flush_prefetch();
            proof {
                let loaded = start.bus.words_read(addresses.push(old_r13 & !3u32));
                assert forall|j: int| 0 <= j < 8 && bit_of_u8(register_bit_list, j as u8) implies #[trigger] self.registers[j]
                    == loaded[bits_set8(register_bit_list, j as nat) as int] by {
                    assert(loop_regs[j] == earlier[bits_set8(register_bit_list, j as nat) as int]);
                    assert(bits_set8(register_bit_list, (j + 1) as nat) == bits_set8(register_bit_list, j as nat) + 1);
                    lemma_bits_set8_mono(register_bit_list, (j + 1) as nat, 8);
                }
            }
        } else {
            self.advance_pc_for_thumb_instruction();
            proof {
                let loaded = start.bus.words_read(addresses);
                assert forall|j: int| 0 <= j < 8 && bit_of_u8(register_bit_list, j as u8) implies #[trigger] self.registers[j]
                    == loaded[bits_set8(register_bit_list, j as nat) as int] by {
                    assert(loop_regs[j] == loaded[bits_set8(register_bit_list, j as nat) as int]);
                }
            }
        }
    }

    pub fn execute_thumb_stmia_write_back(&mut self, base_register: Register, register_bit_list: u8)
        requires
            old(self).wf(),
            register_index(base_register) < 15,
        ensures
            final(self).wf(),
            old(self).thumb_stmia_effect(*final(self), base_register, register_bit_list),
    {
        let ghost start = *self;
        let base_address = self.read_register(base_register, PcCalculation::Identity);
        let count = count_bits8(register_bit_list);
        let num_registers: u32 = if register_bit_list == 0 {
            16
        } else {
            count as u32
        };
        let new_base = base_address.wrapping_add(4 * num_registers);
        let mut first: u8 = 8;
        let mut k: u8 = 0;
        while k < 8
            invariant
                k <= 8,
                first == 8 ==> lowest_set8(register_bit_list, 0) == lowest_set8(register_bit_list, k as nat),
                first < 8 ==> lowest_set8(register_bit_list, 0) == first,
                first <= 8,
            decreases 8 - k,
        {
            if first == 8 && get_bit_u8(register_bit_list, k) {
                first = k;
            }
            k = k + 1;
        }
        let base_first = register_bit_list != 0 && base_register.index() == first as usize;
        let base_value = if base_first {
            base_address
        } else {
            new_base
        };
        let mut current_address = base_address;
        let ghost b = register_index(base_register);
        let ghost mut buses: Seq<Bus> = seq![self.bus];
        let ghost mut values: Seq<u32> = Seq::empty();
        let ghost mut addresses: Seq<u32> = Seq::empty();
        if register_bit_list == 0 {
            let value = self.read_register(Register::R15, PcCalculation::Plus(2));
            self.bus.write_word_address(value, current_address & !3u32);
        } else {
            proof {
                lemma_words_written_none(self.bus);
                assert(addresses =~= thumb_block_addresses(base_address, 0));
                assert(base_value == stmia_word(start.registers, b, b, base_address, new_base, register_bit_list));
            }
            let mut i: u8 = 0;
            while i < 8
                invariant
                    self.wf(),
                    i <= 8,
                    *self == (Cpu { bus: self.bus, ..start }),
                    b == register_index(base_register),
                    b < 15,
                    base_address == start.registers[b],
                    base_value == stmia_word(start.registers, b, b, base_address, new_base, register_bit_list),
                    bits_set8(register_bit_list, i as nat) <= i,
                    current_address == wadd(base_address, (4 * bits_set8(register_bit_list, i as nat)) as u32),
                    values.len() == bits_set8(register_bit_list, i as nat),
                    addresses == thumb_block_addresses(base_address, bits_set8(register_bit_list, i as nat)),
                    start.bus.words_written(&self.bus, buses, values, addresses),
                    forall|j: int|
                        0 <= j < i && bit_of_u8(register_bit_list, j as u8) ==> #[trigger] values[bits_set8(
                            register_bit_list,
                            j as nat,
                        ) as int] == stmia_word(start.registers, j, b, base_address, new_base, register_bit_list),
                decreases 8 - i,
            {
                proof {
                    lemma_bits_set8_bound(register_bit_list, (i + 1) as nat);
                }
                if get_bit_u8(register_bit_list, i) {
                    let register = Register::from_index(i as u32);
                    let value = if register == base_register {
                        base_value
                    } else {
                        self.read_register(register, PcCalculation::Plus(2))
                    };
                    let ghost bus_before = self.bus;
                    self.bus.write_word_address(value, current_address & !3u32);
                    proof {
                        assert(bits_set8(register_bit_list, (i + 1) as nat) == bits_set8(register_bit_list, i as nat) + 1);
                        assert(thumb_block_addresses(base_address, (values.len() + 1) as nat) =~= addresses.push(
                            current_address & !3u32,
                        ));
                        lemma_words_written_push(
                            start.bus,
                            bus_before,
                            self.bus,
                            buses,
                            values,
                            addresses,
                            value,
                            current_address & !3u32,
                        );
                        lemma_stmia_step(
                            register_bit_list,
                            i as nat,
                            values,
                            value,
                            start.registers,
                            b,
                            base_address,
                            new_base,
                        );
                        buses = buses.push(self.bus);
                        values = values.push(value);
                        addresses = addresses.push(current_address & !3u32);
                    }
                    current_address = current_address.wrapping_add(4);
                }
                i = i + 1;
            }
        }
        let ghost stored_bus = self.bus;
        self.write_register(new_base, base_register);
        self.advance_pc_for_thumb_instruction();
        proof {
            assert(self.bus == stored_bus);
            if register_bit_list != 0 {
                assert(stmia_stored(start.bus, self.bus, base_address, register_bit_list, b, new_base, start.registers));
            }
        }
    }

    pub fn execute_thumb_ldmia_write_back(&mut self, base_register: Register, register_bit_list: u8)
        requires
            old(self).wf(),
            register_index(base_register) < 15,
        ensures
            final(self).wf(),
            old(self).thumb_ldmia_effect(*final(self), base_register, register_bit_list),
    {
        let ghost start = *self;
        let base_address = self.read_register(base_register, PcCalculation::Identity);
        let count = count_bits8(register_bit_list);
        let num_registers: u32 = if register_bit_list == 0 {
            16
        } else {
            count as u32
        };
        let new_base = base_address.wrapping_add(4 * num_registers);
        let mut current_address = base_address;
        let ghost mut addresses: Seq<u32> = Seq::empty();
        if register_bit_list == 0 {
            let value = self.bus.read_word_address(current_address & !3u32);
            self.write_register(value, Register::R15);
            self.write_register(new_base, base_register);
            self.flush_prefetch();
            proof {
                assert forall|j: int| 0 <= j < 8 implies !#[trigger] bit_of_u8(register_bit_list, j as u8) by {
                    crate::bits::lemma_u8_zero_bits(j as u8);
                }
            }
        } else {
            let mut k: u8 = 0;
            assert(addresses =~= thumb_block_addresses(base_address, 0));
            while k < 8
                invariant
                    self.wf(),
                    k <= 8,
                    base_address == start.registers[register_index(base_register)],
                    bits_set8(register_bit_list, k as nat) <= k,
                    current_address == wadd(base_address, (4 * bits_set8(register_bit_list, k as nat)) as u32),
                    addresses == thumb_block_addresses(base_address, bits_set8(register_bit_list, k as nat)),
                    self.bus == start.bus.after_words_read(addresses),
                    forall|j: int|
                        0 <= j < k && bit_of_u8(register_bit_list, j as u8) ==> #[trigger] self.registers[j]
                            == start.bus.words_read(addresses)[bits_set8(register_bit_list, j as nat) as int],
                    forall|j: int|
                        0 <= j < 16 && !(j < k && bit_of_u8(register_bit_list, j as u8)) ==> #[trigger] self.registers[j]
                            == start.registers[j],
                    *self == (Cpu { registers: self.registers, bus: self.bus, ..start }),
                decreases 8 - k,
            {
                proof {
                    lemma_bits_set8_bound(register_bit_list, (k + 1) as nat);
                }
                if get_bit_u8(register_bit_list, k) {
                    let ghost earlier = start.bus.words_read(addresses);
                    let ghost regs_before = self.registers;
                    let value = self.bus.read_word_address(current_address & !3u32);
                    proof {
                        lemma_words_read_push(start.bus, addresses, current_address & !3u32);
                        lemma_words_read_len(start.bus, addresses);
                        assert(bits_set8(register_bit_list, (k + 1) as nat) == bits_set8(register_bit_list, k as nat) + 1);
                        assert(thumb_block_addresses(base_address, bits_set8(register_bit_list, (k + 1) as nat))
                            =~= addresses.push(current_address & !3u32));
                        addresses = addresses.push(current_address & !3u32);
                    }
                    let register = Register::from_index(k as u32);
                    self.write_register(value, register);
                    proof {
                        lemma_block_load_step(
                            register_bit_list,
                            k as nat,
                            regs_before@,
                            self.registers@,
                            earlier,
                            start.bus.words_read(addresses),
                        );
                    }
                    current_address = current_address.wrapping_add(4);
                }
                k = k + 1;
            }
            let ghost loop_regs = self.registers;
            self.write_register(new_base, base_register);
            self.advance_pc_for_thumb_instruction();
            proof {
                let loaded = start.bus.words_read(addresses);
                let b = register_index(base_register);
                assert forall|j: int| 0 <= j < 8 && j != b && bit_of_u8(register_bit_list, j as u8) implies #[trigger] self.registers[j]
                    == loaded[bits_set8(register_bit_list, j as nat) as int] by {
                    assert(loop_regs[j] == loaded[bits_set8(register_bit_list, j as nat) as int]);
                }
            }
        }
    }

    pub fn execute_thumb_add_special(
        &mut self,
        source_register: Register,
        dest_register: Register,
        sign_bit: bool,
        unsigned_offset: u16,
    )
        requires
            old(self).wf(),
            source_register.is_general(),
            register_index(dest_register) < 15,
        ensures
            final(self).wf(),
            old(self).thumb_add_special_effect(*final(self), source_register, dest_register, sign_bit, unsigned_offset),
    {
        let source_value = self.read_register(source_register, PcCalculation::WordAligned);
        let result = if sign_bit {
            source_value.wrapping_sub(unsigned_offset as u32)
        } else {
            source_value.wrapping_add(unsigned_offset as u32)
        };
        self.write_register(result, dest_register);
        self.advance_pc_for_thumb_instruction();
    }

    /// Executes a Thumb instruction. Instructions outside `thumb_supported`
    /// (BLX, invalid opcodes, register fields out of range) take the
    /// undefined-instruction exception.
    pub fn execute_thumb(&mut self, instruction: ThumbInstruction)
        requires
            old(self).wf(),
        ensures
            final(self).wf(),
            old(self).thumb_executed(*final(self), instruction.instruction_type),
    {
        let t = instruction.instruction_type;
        if !is_thumb_supported(t) {
            self.handle_exception(ExceptionType::Undefined);
            return;
        }
        match t {
            ThumbInstructionType::Register { operation, destination_register, source, second_operand } => {
                self.execute_thumb_register_operation(operation, destination_register, source, second_operand)
            },
            ThumbInstructionType::HighRegister { destination_register, operation, source } => {
                self.execute_thumb_high_register_operation(destination_register, operation, source)
            },
            ThumbInstructionType::Ldr { base_register, offset, destination_register, size, sign_extend } => {
                self.execute_thumb_ldr(base_register, offset, destination_register, size, sign_extend)
            },
            ThumbInstructionType::Str { base_register, offset, source_register, size } => {
                self.execute_thumb_str(base_register, offset, source_register, size)
            },
            ThumbInstructionType::B { condition, offset } => self.execute_thumb_b(condition, offset),
            ThumbInstructionType::BlPartOne { offset } => self.execute_thumb_bl_part_1(offset),
            ThumbInstructionType::BlPartTwo { offset } => self.execute_thumb_bl_part_2(offset),
            ThumbInstructionType::Bx { operand } => self.execute_thumb_bx(operand),
            ThumbInstructionType::Push { register_bit_list, push_lr } => self.execute_thumb_push(register_bit_list, push_lr),
            ThumbInstructionType::Pop { register_bit_list, pop_pc } => self.execute_thumb_pop(register_bit_list, pop_pc),
            ThumbInstructionType::StmiaWriteBack { base_register, register_bit_list } => {
                self.execute_thumb_stmia_write_back(base_register, register_bit_list)
            },
            ThumbInstructionType::LdmiaWriteBack { base_register, register_bit_list } => {
                self.execute_thumb_ldmia_write_back(base_register, register_bit_list)
            },
            ThumbInstructionType::AddSpecial { source_register, dest_register, sign_bit, unsigned_offset } => {
                self.execute_thumb_add_special(source_register, dest_register, sign_bit, unsigned_offset)
            },
            ThumbInstructionType::Swi { .. } => self.handle_exception(ExceptionType::Swi),
            _ => self.handle_exception(ExceptionType::Undefined),
        }
    }
}

} // verus!
