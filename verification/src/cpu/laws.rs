//! What the data-processing instructions compute, stated over the values of
//! their operands, and the ARM data-processing opcode table.

use vstd::prelude::*;

use super::arm::{
    spec_arm_condition, spec_decode_arm, AluOperation, AluSecondOperandInfo, ArmInstructionType, MultiplyOperation,
};
use super::thumb::{
    spec_decode_thumb, thumb_flags, ThumbInstructionType, ThumbRegisterOperation, ThumbRegisterOrImmediate,
};
use super::{
    condition_holds, register_index, shifter, spec_register, sval, with_flags, Cpu, PcCalculation, Register,
    ShiftType, CARRY_FLAG_BIT, OVERFLOW_FLAG_BIT, SIGN_FLAG_BIT, ZERO_FLAG_BIT,
};
use crate::bits::{bit_of_u32, lemma_with_bit_u32};

verus! {

/// The condition flags read back from a status register whose N, Z, C and V
/// were set to `n`, `z`, `c` and `v`.
proof fn lemma_with_flags_read(cpsr: u32, n: bool, z: bool, c: bool, v: bool)
    ensures
        bit_of_u32(with_flags(cpsr, n, z, c, v), SIGN_FLAG_BIT) == n,
        bit_of_u32(with_flags(cpsr, n, z, c, v), ZERO_FLAG_BIT) == z,
        bit_of_u32(with_flags(cpsr, n, z, c, v), CARRY_FLAG_BIT) == c,
        bit_of_u32(with_flags(cpsr, n, z, c, v), OVERFLOW_FLAG_BIT) == v,
{
    let x1 = crate::bits::with_bit_u32(cpsr, SIGN_FLAG_BIT, n);
    let x2 = crate::bits::with_bit_u32(x1, ZERO_FLAG_BIT, z);
    let x3 = crate::bits::with_bit_u32(x2, CARRY_FLAG_BIT, c);
    lemma_with_bit_u32(cpsr, SIGN_FLAG_BIT, n);
    lemma_with_bit_u32(x1, ZERO_FLAG_BIT, z);
    lemma_with_bit_u32(x2, CARRY_FLAG_BIT, c);
    lemma_with_bit_u32(x3, OVERFLOW_FLAG_BIT, v);
}

/// The condition flags read back after a Thumb operation set N and Z, and C
/// and V where they are given.
proof fn lemma_thumb_flags_read(cpsr: u32, n: bool, z: bool, c: Option<bool>, v: Option<bool>)
    ensures
        bit_of_u32(thumb_flags(cpsr, n, z, c, v), SIGN_FLAG_BIT) == n,
        bit_of_u32(thumb_flags(cpsr, n, z, c, v), ZERO_FLAG_BIT) == z,
        bit_of_u32(thumb_flags(cpsr, n, z, c, v), CARRY_FLAG_BIT) == match c {
            Some(x) => x,
            None => bit_of_u32(cpsr, CARRY_FLAG_BIT),
        },
        bit_of_u32(thumb_flags(cpsr, n, z, c, v), OVERFLOW_FLAG_BIT) == match v {
            Some(x) => x,
            None => bit_of_u32(cpsr, OVERFLOW_FLAG_BIT),
        },
{
    let c1 = match c {
        Some(x) => crate::bits::with_bit_u32(cpsr, CARRY_FLAG_BIT, x),
        None => cpsr,
    };
    if let Some(x) = c {
        lemma_with_bit_u32(cpsr, CARRY_FLAG_BIT, x);
    }
    let v1 = match v {
        Some(x) => crate::bits::with_bit_u32(c1, OVERFLOW_FLAG_BIT, x),
        None => c1,
    };
    if let Some(x) = v {
        lemma_with_bit_u32(c1, OVERFLOW_FLAG_BIT, x);
    }
    let w = crate::bits::with_bit_u32(v1, SIGN_FLAG_BIT, n);
    lemma_with_bit_u32(v1, SIGN_FLAG_BIT, n);
    lemma_with_bit_u32(w, ZERO_FLAG_BIT, z);
}

/// ARM data processing on R0-R14: with `a` the value of Rn and `b` the
/// shifted second operand, an instruction that writes Rd leaves there
/// AND a & b, EOR a ^ b, ORR a | b, BIC a with the bits of b cleared, MOV b,
/// MVN the complement of b, ADD a + b, ADC a + b + C, SUB a - b,
/// SBC a - b - (1 - C), RSB b - a and RSC b - a - (1 - C), all modulo 2^32;
/// TST, TEQ, CMP and CMN leave Rd as it was.
pub proof fn lemma_alu_results(
    cpu: Cpu,
    after: Cpu,
    operation: AluOperation,
    first_operand: Register,
    second_operand: AluSecondOperandInfo,
    destination_operand: Register,
    set_conditions: bool,
)
    requires
        cpu.arm_alu_effect(after, operation, first_operand, second_operand, destination_operand, set_conditions),
        register_index(first_operand) < 15,
        register_index(destination_operand) < 15,
    ensures
        ({
            let a = cpu.registers[register_index(first_operand)];
            let b = cpu.alu_second(second_operand).0;
            let c: int = if cpu.flag(CARRY_FLAG_BIT) {
                1
            } else {
                0
            };
            let r = after.registers[register_index(destination_operand)];
            &&& operation == AluOperation::And ==> r == a & b
            &&& operation == AluOperation::Eor ==> r == a ^ b
            &&& operation == AluOperation::Orr ==> r == a | b
            &&& operation == AluOperation::Bic ==> r == a & !b
            &&& operation == AluOperation::Mov ==> r == b
            &&& operation == AluOperation::Mvn ==> r == !b
            &&& operation == AluOperation::Add ==> r == (a + b) as u32
            &&& operation == AluOperation::Adc ==> r == (a + b + c) as u32
            &&& operation == AluOperation::Sub ==> r == (a - b) as u32
            &&& operation == AluOperation::Sbc ==> r == (a - b - 1 + c) as u32
            &&& operation == AluOperation::Rsb ==> r == (b - a) as u32
            &&& operation == AluOperation::Rsc ==> r == (b - a - 1 + c) as u32
            &&& (operation == AluOperation::Tst || operation == AluOperation::Teq || operation == AluOperation::Cmp
                || operation == AluOperation::Cmn) ==> r == cpu.registers[register_index(destination_operand)]
        }),
{
}

/// ARM data processing with the S bit on R0-R14: Z tells whether the result
/// (for TST a & b, TEQ a ^ b, CMP a - b, CMN a + b) is zero and N is its top
/// bit; the logical operations take C from the shifter and keep V; ADD and
/// CMN set C when a + b does not fit in 32 bits, SUB and CMP when a >= b,
/// RSB when b >= a.
pub proof fn lemma_alu_flags(
    cpu: Cpu,
    after: Cpu,
    operation: AluOperation,
    first_operand: Register,
    second_operand: AluSecondOperandInfo,
    destination_operand: Register,
)
    requires
        cpu.arm_alu_effect(after, operation, first_operand, second_operand, destination_operand, true),
        register_index(first_operand) < 15,
        register_index(destination_operand) < 15,
    ensures
        ({
            let a = cpu.registers[register_index(first_operand)];
            let (b, shifter_carry) = cpu.alu_second(second_operand);
            let logical = operation == AluOperation::And || operation == AluOperation::Eor || operation
                == AluOperation::Orr || operation == AluOperation::Bic || operation == AluOperation::Mov || operation
                == AluOperation::Mvn || operation == AluOperation::Tst || operation == AluOperation::Teq;
            let value = if operation == AluOperation::Tst {
                a & b
            } else if operation == AluOperation::Teq {
                a ^ b
            } else if operation == AluOperation::Cmp {
                (a - b) as u32
            } else if operation == AluOperation::Cmn {
                (a + b) as u32
            } else {
                after.registers[register_index(destination_operand)]
            };
            &&& after.flag(ZERO_FLAG_BIT) == (value == 0)
            &&& after.flag(SIGN_FLAG_BIT) == bit_of_u32(value, 31)
            &&& logical ==> after.flag(CARRY_FLAG_BIT) == shifter_carry
            &&& logical ==> after.flag(OVERFLOW_FLAG_BIT) == cpu.flag(OVERFLOW_FLAG_BIT)
            &&& (operation == AluOperation::Add || operation == AluOperation::Cmn) ==> after.flag(CARRY_FLAG_BIT) == (a
                + b > 0xFFFF_FFFF)
            &&& (operation == AluOperation::Sub || operation == AluOperation::Cmp) ==> after.flag(CARRY_FLAG_BIT) == (a
                >= b)
            &&& operation == AluOperation::Rsb ==> after.flag(CARRY_FLAG_BIT) == (b >= a)
        }),
{
    let a = cpu.registers[register_index(first_operand)];
    let (b, sc) = cpu.alu_second(second_operand);
    let (res, c, v) = super::arm::alu_spec(
        operation,
        a,
        b,
        sc,
        cpu.flag(CARRY_FLAG_BIT),
        cpu.flag(OVERFLOW_FLAG_BIT),
    );
    lemma_with_flags_read(cpu.cpsr, bit_of_u32(res, 31), res == 0, c, v);
}

/// Thumb register operations on R0-R14: with `a` the value of the source
/// register Rs (for the two-register forms, Rd itself) and `b` the second
/// operand, an operation that writes Rd leaves there AND a & b, ORR a | b,
/// EOR a ^ b, BIC a with the bits of b cleared, MOV b, MVN the complement of
/// b, ADD a + b, ADC a + b + C, SUB a - b, SBC a - b - (1 - C), NEG 0 - b and
/// MUL a * b, all modulo 2^32; TST, CMP and CMN leave Rd as it was.
pub proof fn lemma_thumb_register_results(
    cpu: Cpu,
    after: Cpu,
    operation: ThumbRegisterOperation,
    destination_register: Register,
    source: Register,
    second_operand: ThumbRegisterOrImmediate,
)
    requires
        cpu.thumb_register_effect(after, operation, destination_register, source, second_operand),
        register_index(destination_register) < 15,
        register_index(source) < 15,
        second_operand matches ThumbRegisterOrImmediate::Register(r) ==> register_index(r) < 15,
    ensures
        ({
            let a = cpu.registers[register_index(source)];
            let b = match second_operand {
                ThumbRegisterOrImmediate::Immediate(v) => v,
                ThumbRegisterOrImmediate::Register(r) => cpu.registers[register_index(r)],
            };
            let c: int = if cpu.flag(CARRY_FLAG_BIT) {
                1
            } else {
                0
            };
            let r = after.registers[register_index(destination_register)];
            &&& operation == ThumbRegisterOperation::And ==> r == a & b
            &&& operation == ThumbRegisterOperation::Orr ==> r == a | b
            &&& operation == ThumbRegisterOperation::Eor ==> r == a ^ b
            &&& operation == ThumbRegisterOperation::Bic ==> r == a & !b
            &&& operation == ThumbRegisterOperation::Mov ==> r == b
            &&& operation == ThumbRegisterOperation::Mvn ==> r == !b
            &&& operation == ThumbRegisterOperation::Add ==> r == (a + b) as u32
            &&& operation == ThumbRegisterOperation::Adc ==> r == (a + b + c) as u32
            &&& operation == ThumbRegisterOperation::Sub ==> r == (a - b) as u32
            &&& operation == ThumbRegisterOperation::Sbc ==> r == (a - b - 1 + c) as u32
            &&& operation == ThumbRegisterOperation::Neg ==> r == (0 - b) as u32
            &&& operation == ThumbRegisterOperation::Mul ==> r as int == (a * b) % 0x1_0000_0000
            &&& (operation == ThumbRegisterOperation::Tst || operation == ThumbRegisterOperation::Cmp || operation
                == ThumbRegisterOperation::Cmn) ==> r == cpu.registers[register_index(destination_register)]
        }),
{
    reveal(super::arm::mul32);
}

/// The flags of Thumb register operations on R0-R14: Z tells whether the
/// result (for TST a & b, CMP a - b, CMN a + b) is zero; N is its top bit
/// for all but ADC; the logical operations and MOV, MVN and MUL keep C and
/// V; CMP and SUB set C when a >= b, CMN and ADD when a + b does not fit in
/// 32 bits.
pub proof fn lemma_thumb_register_flags(
    cpu: Cpu,
    after: Cpu,
    operation: ThumbRegisterOperation,
    destination_register: Register,
    source: Register,
    second_operand: ThumbRegisterOrImmediate,
)
    requires
        cpu.thumb_register_effect(after, operation, destination_register, source, second_operand),
        register_index(destination_register) < 15,
        register_index(source) < 15,
        second_operand matches ThumbRegisterOrImmediate::Register(r) ==> register_index(r) < 15,
    ensures
        ({
            let a = cpu.registers[register_index(source)];
            let b = match second_operand {
                ThumbRegisterOrImmediate::Immediate(v) => v,
                ThumbRegisterOrImmediate::Register(r) => cpu.registers[register_index(r)],
            };
            let value = if operation == ThumbRegisterOperation::Tst {
                a & b
            } else if operation == ThumbRegisterOperation::Cmp {
                (a - b) as u32
            } else if operation == ThumbRegisterOperation::Cmn {
                (a + b) as u32
            } else {
                after.registers[register_index(destination_register)]
            };
            let keeps_cv = operation == ThumbRegisterOperation::And || operation == ThumbRegisterOperation::Orr
                || operation == ThumbRegisterOperation::Eor || operation == ThumbRegisterOperation::Bic || operation
                == ThumbRegisterOperation::Mov || operation == ThumbRegisterOperation::Mvn || operation
                == ThumbRegisterOperation::Tst || operation == ThumbRegisterOperation::Mul;
            &&& after.flag(ZERO_FLAG_BIT) == (value == 0)
            &&& operation != ThumbRegisterOperation::Adc ==> after.flag(SIGN_FLAG_BIT) == bit_of_u32(value, 31)
            &&& keeps_cv ==> after.flag(CARRY_FLAG_BIT) == cpu.flag(CARRY_FLAG_BIT)
            &&& keeps_cv ==> after.flag(OVERFLOW_FLAG_BIT) == cpu.flag(OVERFLOW_FLAG_BIT)
            &&& (operation == ThumbRegisterOperation::Sub || operation == ThumbRegisterOperation::Cmp) ==> after.flag(
                CARRY_FLAG_BIT,
            ) == (a >= b)
            &&& (operation == ThumbRegisterOperation::Add || operation == ThumbRegisterOperation::Cmn) ==> after.flag(
                CARRY_FLAG_BIT,
            ) == (a + b > 0xFFFF_FFFF)
        }),
{
    let a = cpu.registers[register_index(source)];
    let b = super::thumb::thumb_operand(cpu, second_operand);
    let by_register = second_operand matches ThumbRegisterOrImmediate::Register(_);
    let (result, c, n, v) = super::thumb::thumb_reg_spec(
        operation,
        a,
        b,
        by_register,
        cpu.flag(CARRY_FLAG_BIT),
        cpu.flag(OVERFLOW_FLAG_BIT),
    );
    lemma_thumb_flags_read(cpu.cpsr, n, result == 0, c, v);
    reveal(super::arm::mul32);
}

/// The ARM data-processing opcode table: Rn is bits 19-16, Rd bits 15-12,
/// the S bit bit 20, and bits 24-21 select AND (0x0), EOR (0x1), SUB (0x2), RSB (0x3), ADD (0x4),
/// ADC (0x5), SBC (0x6), RSC (0x7), TST (0x8), TEQ (0x9), CMP (0xA),
/// CMN (0xB), ORR (0xC), MOV (0xD), BIC (0xE) or MVN (0xF).
pub proof fn lemma_alu_opcode_table(opcode: u32)
    ensures
        match spec_decode_arm(opcode).instruction_type {
            ArmInstructionType::Alu { operation, set_conditions, first_operand, destination_operand, .. } => {
                let code = (opcode >> 21u32) & 0xFu32;
                &&& first_operand == spec_register(((opcode >> 16u32) & 0xFu32) as int)
                &&& destination_operand == spec_register(((opcode >> 12u32) & 0xFu32) as int)
                &&& set_conditions == ((opcode >> 20u32) & 1u32 == 1u32)
                &&& code == 0x0 ==> operation == AluOperation::And
                &&& code == 0x1 ==> operation == AluOperation::Eor
                &&& code == 0x2 ==> operation == AluOperation::Sub
                &&& code == 0x3 ==> operation == AluOperation::Rsb
                &&& code == 0x4 ==> operation == AluOperation::Add
                &&& code == 0x5 ==> operation == AluOperation::Adc
                &&& code == 0x6 ==> operation == AluOperation::Sbc
                &&& code == 0x7 ==> operation == AluOperation::Rsc
                &&& code == 0x8 ==> operation == AluOperation::Tst
                &&& code == 0x9 ==> operation == AluOperation::Teq
                &&& code == 0xA ==> operation == AluOperation::Cmp
                &&& code == 0xB ==> operation == AluOperation::Cmn
                &&& code == 0xC ==> operation == AluOperation::Orr
                &&& code == 0xD ==> operation == AluOperation::Mov
                &&& code == 0xE ==> operation == AluOperation::Bic
                &&& code == 0xF ==> operation == AluOperation::Mvn
            },
            _ => true,
        },
{
    assert((1u32 << 4u32) == 16u32) by (bit_vector);
}

/// The ARM condition field (bits 31-28): EQ (0x0) holds when Z is set, NE
/// when it is clear, CS/CC on C, MI/PL on N, VS/VC on V, HI when C is set
/// and Z clear, LS otherwise, GE when N equals V, LT otherwise, GT when Z is
/// clear and N equals V, LE otherwise, AL always, and 0xF never.
pub proof fn lemma_arm_condition_table(opcode: u32, n: bool, z: bool, c: bool, v: bool)
    ensures
        ({
            let code = opcode >> 28u32;
            let holds = condition_holds(spec_arm_condition(opcode), n, z, c, v);
            &&& code == 0x0 ==> holds == z
            &&& code == 0x1 ==> holds == !z
            &&& code == 0x2 ==> holds == c
            &&& code == 0x3 ==> holds == !c
            &&& code == 0x4 ==> holds == n
            &&& code == 0x5 ==> holds == !n
            &&& code == 0x6 ==> holds == v
            &&& code == 0x7 ==> holds == !v
            &&& code == 0x8 ==> holds == (c && !z)
            &&& code == 0x9 ==> holds == (!c || z)
            &&& code == 0xA ==> holds == (n == v)
            &&& code == 0xB ==> holds == (n != v)
            &&& code == 0xC ==> holds == (!z && n == v)
            &&& code == 0xD ==> holds == (z || n != v)
            &&& code == 0xE ==> holds
            &&& code == 0xF ==> !holds
        }),
{
}

/// The Thumb ALU class (opcodes 0x4000-0x43FF): Rd in bits 2-0 is both the
/// destination and the first operand, Rs in bits 5-3 the second, and bits
/// 9-6 select AND (0x0), EOR (0x1), LSL (0x2), LSR (0x3), ASR (0x4),
/// ADC (0x5), SBC (0x6), ROR (0x7), TST (0x8), NEG (0x9), CMP (0xA),
/// CMN (0xB), ORR (0xC), MUL (0xD), BIC (0xE) or MVN (0xF).
pub proof fn lemma_thumb_alu_opcode_table(opcode: u16)
    requires
        opcode >> 10u16 == 0x10u16,
    ensures
        match spec_decode_thumb(opcode).instruction_type {
            ThumbInstructionType::Register { operation, destination_register, source, second_operand } => {
                let code = (opcode >> 6u16) & 0xFu16;
                &&& destination_register == spec_register((opcode & 7u16) as int)
                &&& source == destination_register
                &&& second_operand == ThumbRegisterOrImmediate::Register(spec_register(((opcode >> 3u16) & 7u16) as int))
                &&& code == 0x0 ==> operation == ThumbRegisterOperation::And
                &&& code == 0x1 ==> operation == ThumbRegisterOperation::Eor
                &&& code == 0x2 ==> operation == ThumbRegisterOperation::Lsl
                &&& code == 0x3 ==> operation == ThumbRegisterOperation::Lsr
                &&& code == 0x4 ==> operation == ThumbRegisterOperation::Asr
                &&& code == 0x5 ==> operation == ThumbRegisterOperation::Adc
                &&& code == 0x6 ==> operation == ThumbRegisterOperation::Sbc
                &&& code == 0x7 ==> operation == ThumbRegisterOperation::Ror
                &&& code == 0x8 ==> operation == ThumbRegisterOperation::Tst
                &&& code == 0x9 ==> operation == ThumbRegisterOperation::Neg
                &&& code == 0xA ==> operation == ThumbRegisterOperation::Cmp
                &&& code == 0xB ==> operation == ThumbRegisterOperation::Cmn
                &&& code == 0xC ==> operation == ThumbRegisterOperation::Orr
                &&& code == 0xD ==> operation == ThumbRegisterOperation::Mul
                &&& code == 0xE ==> operation == ThumbRegisterOperation::Bic
                &&& code == 0xF ==> operation == ThumbRegisterOperation::Mvn
            },
            _ => false,
        },
{
    assert((opcode >> 13u16) & 7u16 == 2u16 && (opcode >> 10u16) & 0x3Fu16 == 0x10u16 && (opcode >> 11u16)
        & 0x1Fu16 == 8u16 && (opcode >> 0u16) & 7u16 == opcode & 7u16) by (bit_vector)
        requires
            opcode >> 10u16 == 0x10u16,
    ;
}

/// MUL and MLA on R0-R14: Rd takes Rm * Rs (plus Rn for MLA) modulo 2^32.
/// The long multiplies leave in RdHi:RdLo, as one 64-bit number, Rm * Rs
/// taken unsigned (UMULL) or signed (SMULL), plus the old RdHi:RdLo for
/// UMLAL and SMLAL, modulo 2^64.
pub proof fn lemma_multiply_results(
    cpu: Cpu,
    after: Cpu,
    operation: MultiplyOperation,
    set_conditions: bool,
    rd_hi: Register,
    rd_lo: Register,
    rm: Register,
    rs: Register,
)
    requires
        cpu.arm_mul_effect(after, operation, set_conditions, rd_hi, rd_lo, rm, rs),
        register_index(rd_hi) < 15,
        register_index(rd_lo) < 15,
        register_index(rm) < 16,
        register_index(rs) < 16,
        operation != MultiplyOperation::Umaal,
    ensures
        ({
            let m = cpu.registers[register_index(rm)];
            let s = cpu.registers[register_index(rs)];
            let hi = cpu.registers[register_index(rd_hi)];
            let lo = cpu.registers[register_index(rd_lo)];
            let d = after.registers[register_index(rd_hi)];
            let wide = after.registers[register_index(rd_hi)] * 0x1_0000_0000 + after.registers[register_index(
                rd_lo,
            )];
            &&& operation == MultiplyOperation::Mul ==> d == (m * s) % 0x1_0000_0000
            &&& operation == MultiplyOperation::Mla ==> d == (m * s + lo) % 0x1_0000_0000
            &&& register_index(rd_hi) != register_index(rd_lo) ==> {
                &&& operation == MultiplyOperation::Umull ==> wide == (m * s) % 0x1_0000_0000_0000_0000
                &&& operation == MultiplyOperation::Smull ==> wide == (sval(m) * sval(s)) % 0x1_0000_0000_0000_0000
                &&& operation == MultiplyOperation::Umlal ==> wide == (m * s + hi * 0x1_0000_0000 + lo)
                    % 0x1_0000_0000_0000_0000
                &&& operation == MultiplyOperation::Smlal ==> wide == (sval(m) * sval(s) + hi * 0x1_0000_0000 + lo)
                    % 0x1_0000_0000_0000_0000
            }
        }),
{
    reveal(super::arm::mul32);
    reveal(super::arm::mul64);
    let m = cpu.register_value(rm, PcCalculation::Identity);
    let s = cpu.register_value(rs, PcCalculation::Identity);
    let hi = cpu.register_value(rd_hi, PcCalculation::Identity);
    let lo = cpu.register_value(rd_lo, PcCalculation::Identity);
    let x = super::arm::mul64(operation, m, s, lo, hi);
    assert((x >> 32u64) * 0x1_0000_0000u64 + (x & 0xFFFF_FFFFu64) == x && (x & 0xFFFF_FFFFu64) == (x as u32) as u64
        && (x >> 32u64) == ((x >> 32u64) as u32) as u64) by (bit_vector);
}

/// The barrel shifter on an amount `n` from an instruction's immediate
/// field: for 1 <= n < 32, LSL gives the value shifted left with carry
/// bit 32 - n, LSR the value divided by 2^n with carry bit n - 1, ASR the
/// signed value divided by 2^n (rounded down) with carry bit n - 1, and ROR
/// the bits rotated right with carry bit n - 1. An amount of 0 means LSL by
/// nothing (carry kept), LSR and ASR by 32 (carry the top bit), and for ROR
/// a rotation right by one through the carry.
pub proof fn lemma_shifter_immediate(value: u32, n: u32, carry: bool)
    requires
        n < 32,
    ensures
        1 <= n ==> shifter(ShiftType::Lsl, value, n, carry, false) == (value << n, bit_of_u32(
            value,
            (32 - n) as u32,
        )),
        1 <= n ==> shifter(ShiftType::Lsr, value, n, carry, false).0 == value as nat / vstd::arithmetic::power2::pow2(
            n as nat,
        ),
        1 <= n ==> shifter(ShiftType::Asr, value, n, carry, false).0 == (if value < 0x8000_0000 {
            value >> n
        } else {
            !((!value) >> n)
        }),
        1 <= n ==> shifter(ShiftType::Ror, value, n, carry, false).0 == (value >> n) | (value << ((32 - n) as u32)),
        1 <= n ==> shifter(ShiftType::Lsr, value, n, carry, false).1 == bit_of_u32(value, (n - 1) as u32),
        1 <= n ==> shifter(ShiftType::Asr, value, n, carry, false).1 == bit_of_u32(value, (n - 1) as u32),
        1 <= n ==> shifter(ShiftType::Ror, value, n, carry, false).1 == bit_of_u32(value, (n - 1) as u32),
        shifter(ShiftType::Lsl, value, 0, carry, false) == (value, carry),
        shifter(ShiftType::Lsr, value, 0, carry, false) == (0u32, value >= 0x8000_0000),
        shifter(ShiftType::Asr, value, 0, carry, false) == (if value >= 0x8000_0000 {
            0xFFFF_FFFFu32
        } else {
            0u32
        }, value >= 0x8000_0000),
        shifter(ShiftType::Ror, value, 0, carry, false) == ((value >> 1u32) | (if carry {
            0x8000_0000u32
        } else {
            0u32
        }), bit_of_u32(value, 0)),
{
    assert(bit_of_u32(value, 31) == (value >= 0x8000_0000) && ((value >> 31u32) & 1u32 == 1u32) == (value
        >= 0x8000_0000)) by (bit_vector);
    assert(crate::bits::with_bit_u32((value >> 1u32) | (value << 31u32), 31, carry) == (value >> 1u32) | (if carry {
        0x8000_0000u32
    } else {
        0u32
    })) by (bit_vector);
    if 1 <= n {
        vstd::bits::lemma_u32_shr_is_div(value, n);
    }
}

/// The overflow flag of a flag-setting ADD or CMN (SUB or CMP) on R0-R14:
/// set exactly when the operands have the same sign (different signs) and
/// the sign of the result (the sum or difference modulo 2^32) differs from
/// the first operand's.
pub proof fn lemma_alu_overflow(
    cpu: Cpu,
    after: Cpu,
    operation: AluOperation,
    first_operand: Register,
    second_operand: AluSecondOperandInfo,
    destination_operand: Register,
)
    requires
        cpu.arm_alu_effect(after, operation, first_operand, second_operand, destination_operand, true),
        register_index(first_operand) < 15,
        register_index(destination_operand) < 15,
    ensures
        ({
            let a = cpu.registers[register_index(first_operand)];
            let b = cpu.alu_second(second_operand).0;
            let add = if a + b >= 0x1_0000_0000 {
                a + b - 0x1_0000_0000
            } else {
                a + b
            };
            let difference = if a >= b {
                a - b
            } else {
                a - b + 0x1_0000_0000
            };
            &&& (operation == AluOperation::Add || operation == AluOperation::Cmn) ==> after.flag(OVERFLOW_FLAG_BIT)
                == ((a >= 0x8000_0000) == (b >= 0x8000_0000) && (add >= 0x8000_0000) != (a >= 0x8000_0000))
            &&& (operation == AluOperation::Sub || operation == AluOperation::Cmp) ==> after.flag(OVERFLOW_FLAG_BIT)
                == ((a >= 0x8000_0000) != (b >= 0x8000_0000) && (difference >= 0x8000_0000) != (a >= 0x8000_0000))
        }),
{
    let a = cpu.registers[register_index(first_operand)];
    let (b, sc) = cpu.alu_second(second_operand);
    let (res, c, v) = super::arm::alu_spec(
        operation,
        a,
        b,
        sc,
        cpu.flag(CARRY_FLAG_BIT),
        cpu.flag(OVERFLOW_FLAG_BIT),
    );
    lemma_with_flags_read(cpu.cpsr, bit_of_u32(res, 31), res == 0, c, v);
}

} // verus!
