pub mod arm;
pub mod laws;
pub mod text;
pub mod thumb;

use vstd::prelude::*;

use crate::bits::{bit_of_u32, get_bit_u32, set_bit_u32, set_field_u32, with_bit_u32, with_field_u32};
use crate::bus::{bus_cycled, bus_cycles, bus_ran, Bus};
use crate::cartridge::Cartridge;
use arm::{decode_arm, decoded_arm, spec_decode_arm, ArmInstruction};
use thumb::{decode_thumb, spec_decode_thumb, spec_thumb_cycles, ThumbInstruction, ThumbInstructionType};


verus! {

#[derive(Clone, Copy, Debug, PartialEq, Eq, Structural)]
pub enum CpuMode {
    User,
    Fiq,
    Irq,
    Supervisor,
    Abort,
    Undefined,
    System,
}

#[derive(Clone, Copy, Debug, PartialEq, Eq, Structural)]
pub enum Register {
    R0,
    R1,
    R2,
    R3,
    R4,
    R5,
    R6,
    R7,
    R8,
    R9,
    R10,
    R11,
    R12,
    R13,
    R14,
    R15,
    Cpsr,
    Spsr,
}

/// The general-purpose register with number `index` (0-15).
pub open spec fn spec_register(index: int) -> Register {
    if index == 0 {
        Register::R0
    } else if index == 1 {
        Register::R1
    } else if index == 2 {
        Register::R2
    } else if index == 3 {
        Register::R3
    } else if index == 4 {
        Register::R4
    } else if index == 5 {
        Register::R5
    } else if index == 6 {
        Register::R6
    } else if index == 7 {
        Register::R7
    } else if index == 8 {
        Register::R8
    } else if index == 9 {
        Register::R9
    } else if index == 10 {
        Register::R10
    } else if index == 11 {
        Register::R11
    } else if index == 12 {
        Register::R12
    } else if index == 13 {
        Register::R13
    } else if index == 14 {
        Register::R14
    } else {
        Register::R15
    }
}

/// The number of a general-purpose register; `Cpsr` and `Spsr` have none (16).
pub open spec fn register_index(register: Register) -> int {
    match register {
        Register::R0 => 0,
        Register::R1 => 1,
        Register::R2 => 2,
        Register::R3 => 3,
        Register::R4 => 4,
        Register::R5 => 5,
        Register::R6 => 6,
        Register::R7 => 7,
        Register::R8 => 8,
        Register::R9 => 9,
        Register::R10 => 10,
        Register::R11 => 11,
        Register::R12 => 12,
        Register::R13 => 13,
        Register::R14 => 14,
        Register::R15 => 15,
        Register::Cpsr => 16,
        Register::Spsr => 16,
    }
}

impl Register {
    pub open spec fn is_general(self) -> bool {
        register_index(self) < 16
    }

    /// The register with number `index`.
    pub fn from_index(index: u32) -> (r: Self)
        requires
            index < 16,
        ensures
            r == spec_register(index as int),
            register_index(r) == index,
    {
        match index {
            0 => Register::R0,
            1 => Register::R1,
            2 => Register::R2,
            3 => Register::R3,
            4 => Register::R4,
            5 => Register::R5,
            6 => Register::R6,
            7 => Register::R7,
            8 => Register::R8,
            9 => Register::R9,
            10 => Register::R10,
            11 => Register::R11,
            12 => Register::R12,
            13 => Register::R13,
            14 => Register::R14,
            _ => Register::R15,
        }
    }

    pub fn is_general_register(self) -> (r: bool)
        ensures
            r == self.is_general(),
    {
        !(self == Register::Cpsr || self == Register::Spsr)
    }

    /// The number of a general-purpose register.
    pub fn index(self) -> (r: usize)
        requires
            self.is_general(),
        ensures
            r == register_index(self),
    {
        match self {
            Register::R0 => 0,
            Register::R1 => 1,
            Register::R2 => 2,
            Register::R3 => 3,
            Register::R4 => 4,
            Register::R5 => 5,
            Register::R6 => 6,
            Register::R7 => 7,
            Register::R8 => 8,
            Register::R9 => 9,
            Register::R10 => 10,
            Register::R11 => 11,
            Register::R12 => 12,
            Register::R13 => 13,
            Register::R14 => 14,
            _ => 15,
        }
    }
}

/// Numbering registers and reading the number back gives the same register.
pub proof fn lemma_register_index_roundtrip(index: int)
    requires
        0 <= index < 16,
    ensures
        register_index(spec_register(index)) == index,
{
}

#[derive(Clone, Copy, Debug, PartialEq, Eq, Structural)]
pub enum InstructionCondition {
    Equal,
    NotEqual,
    UnsignedHigherOrSame,
    UnsignedLower,
    SignedNegative,
    SignedPositiveOrZero,
    SignedOverflow,
    SignedNoOverflow,
    UnsignedHigher,
    UnsignedLowerOrSame,
    SignedGreaterOrEqual,
    SignedLessThan,
    SignedGreaterThan,
    SignedLessOrEqual,
    Always,
    Never,
}

/// The condition encoded by a 4-bit condition field.
pub open spec fn spec_condition(code: u32) -> InstructionCondition {
    if code == 0 {
        InstructionCondition::Equal
    } else if code == 1 {
        InstructionCondition::NotEqual
    } else if code == 2 {
        InstructionCondition::UnsignedHigherOrSame
    } else if code == 3 {
        InstructionCondition::UnsignedLower
    } else if code == 4 {
        InstructionCondition::SignedNegative
    } else if code == 5 {
        InstructionCondition::SignedPositiveOrZero
    } else if code == 6 {
        InstructionCondition::SignedOverflow
    } else if code == 7 {
        InstructionCondition::SignedNoOverflow
    } else if code == 8 {
        InstructionCondition::UnsignedHigher
    } else if code == 9 {
        InstructionCondition::UnsignedLowerOrSame
    } else if code == 10 {
        InstructionCondition::SignedGreaterOrEqual
    } else if code == 11 {
        InstructionCondition::SignedLessThan
    } else if code == 12 {
        InstructionCondition::SignedGreaterThan
    } else if code == 13 {
        InstructionCondition::SignedLessOrEqual
    } else if code == 14 {
        InstructionCondition::Always
    } else {
        InstructionCondition::Never
    }
}

/// Whether `condition` holds for the flags N, Z, C and V.
pub open spec fn condition_holds(
    condition: InstructionCondition,
    n: bool,
    z: bool,
    c: bool,
    v: bool,
) -> bool {
    match condition {
        InstructionCondition::Equal => z,
        InstructionCondition::NotEqual => !z,
        InstructionCondition::UnsignedHigherOrSame => c,
        InstructionCondition::UnsignedLower => !c,
        InstructionCondition::SignedNegative => n,
        InstructionCondition::SignedPositiveOrZero => !n,
        InstructionCondition::SignedOverflow => v,
        InstructionCondition::SignedNoOverflow => !v,
        InstructionCondition::UnsignedHigher => c && !z,
        InstructionCondition::UnsignedLowerOrSame => !c || z,
        InstructionCondition::SignedGreaterOrEqual => n == v,
        InstructionCondition::SignedLessThan => n != v,
        InstructionCondition::SignedGreaterThan => !z && n == v,
        InstructionCondition::SignedLessOrEqual => z || n != v,
        InstructionCondition::Always => true,
        InstructionCondition::Never => false,
    }
}

/// Each condition code and the one that differs from it in the lowest bit
/// hold in complementary cases (for every code but "always"/"never").
pub proof fn lemma_condition_pairs_complement(code: u32, n: bool, z: bool, c: bool, v: bool)
    requires
        code < 14,
        code % 2 == 0,
    ensures
        condition_holds(spec_condition(code), n, z, c, v) == !condition_holds(
            spec_condition((code + 1) as u32),
            n,
            z,
            c,
            v,
        ),
{
}

#[derive(Clone, Copy, Debug, PartialEq, Eq, Structural)]
pub enum InstructionSet {
    Arm,
    Thumb,
}

#[derive(Clone, Copy, Debug, PartialEq, Eq, Structural)]
pub enum ShiftType {
    Lsl,
    Lsr,
    Asr,
    Ror,
}

/// `value` rotated right by `amount` bits (0 <= amount < 32).
pub open spec fn rotate_right_spec(value: u32, amount: u32) -> u32 {
    if amount == 0 {
        value
    } else {
        (value >> amount) | (value << ((32 - amount) as u32))
    }
}

/// `value` shifted arithmetically right by `amount` bits (0 <= amount < 32).
pub open spec fn asr_spec(value: u32, amount: u32) -> u32 {
    if (value >> 31u32) & 1 == 1 {
        !((!value) >> amount)
    } else {
        value >> amount
    }
}

/// The result of a shift by an amount below 32.
pub open spec fn shift_spec(shift_type: ShiftType, value: u32, amount: u32) -> u32 {
    match shift_type {
        ShiftType::Lsl => value << amount,
        ShiftType::Lsr => value >> amount,
        ShiftType::Asr => asr_spec(value, amount),
        ShiftType::Ror => rotate_right_spec(value, amount),
    }
}

pub fn rotate_right(value: u32, amount: u32) -> (r: u32)
    requires
        amount < 32,
    ensures
        r == rotate_right_spec(value, amount),
{
    if amount == 0 {
        value
    } else {
        (value >> amount) | (value << (32 - amount))
    }
}

pub fn arithmetic_shift_right(value: u32, amount: u32) -> (r: u32)
    requires
        amount < 32,
    ensures
        r == asr_spec(value, amount),
{
    if (value >> 31u32) & 1 == 1 {
        !((!value) >> amount)
    } else {
        value >> amount
    }
}

impl ShiftType {
    pub fn evaluate(self, value: u32, shift: u32) -> (r: u32)
        requires
            shift < 32,
        ensures
            r == shift_spec(self, value, shift),
    {
        match self {
            ShiftType::Lsl => value << shift,
            ShiftType::Lsr => value >> shift,
            ShiftType::Asr => arithmetic_shift_right(value, shift),
            ShiftType::Ror => rotate_right(value, shift),
        }
    }
}

/// An arithmetic right shift agrees with the signed division it stands for:
/// it is the two's-complement value shifted right with the sign bit copied in.
pub proof fn lemma_asr_sign_fill(value: u32, amount: u32)
    requires
        amount < 32,
    ensures
        (value >> 31u32) & 1 == 1 ==> (asr_spec(value, amount) >> 31u32) & 1 == 1,
        (value >> 31u32) & 1 == 0 ==> asr_spec(value, amount) == value >> amount,
{
    let v = value;
    let a = amount;
    assert((v >> 31u32) & 1 == 1 ==> ((!((!v) >> a)) >> 31u32) & 1 == 1) by (bit_vector)
        requires
            a < 32,
    ;
}

/// Rotating by `amount` and then by `32 - amount` gives back the value.
pub proof fn lemma_rotate_inverse(value: u32, amount: u32)
    requires
        0 < amount < 32,
    ensures
        rotate_right_spec(rotate_right_spec(value, amount), (32 - amount) as u32) == value,
{
    let v = value;
    let a = amount;
    let b: u32 = (32 - a) as u32;
    assert((((v >> a) | (v << b)) >> b) | (((v >> a) | (v << b)) << a) == v) by (bit_vector)
        requires
            0 < a < 32,
            b == 32 - a,
    ;
}

/// Whether bank `bank` has a copy of register `i` (see `bank_of`).
pub open spec fn valid_slot(bank: int, i: int) -> bool {
    ||| bank == 0 && 0 <= i < 16
    ||| bank == 1 && 8 <= i <= 14
    ||| 2 <= bank <= 5 && 13 <= i <= 14
}

/// How a read of R15 adjusts the stored program counter (which runs ahead of
/// the executing instruction by the pipeline's depth).
#[derive(Clone, Copy, Debug, PartialEq, Eq, Structural)]
pub enum PcCalculation {
    Identity,
    Plus(u32),
    Minus(u32),
    /// The value with bit 1 cleared (Thumb PC-relative addressing).
    WordAligned,
}

/// `a + b` modulo 2^32.
pub open spec fn wadd(a: u32, b: u32) -> u32 {
    if a + b > u32::MAX {
        (a + b - 0x1_0000_0000) as u32
    } else {
        (a + b) as u32
    }
}

/// `a - b` modulo 2^32.
pub open spec fn wsub(a: u32, b: u32) -> u32 {
    if a < b {
        (a - b + 0x1_0000_0000) as u32
    } else {
        (a - b) as u32
    }
}

pub open spec fn apply_pc(pc: u32, calculation: PcCalculation) -> u32 {
    match calculation {
        PcCalculation::Identity => pc,
        PcCalculation::Plus(n) => wadd(pc, n),
        PcCalculation::Minus(n) => wsub(pc, n),
        PcCalculation::WordAligned => pc & !2u32,
    }
}

fn apply_pc_exec(pc: u32, calculation: PcCalculation) -> (r: u32)
    ensures
        r == apply_pc(pc, calculation),
{
    match calculation {
        PcCalculation::Identity => pc,
        PcCalculation::Plus(n) => pc.wrapping_add(n),
        PcCalculation::Minus(n) => pc.wrapping_sub(n),
        PcCalculation::WordAligned => pc & !2u32,
    }
}

pub const USER_MODE_BITS: u32 = 0b10000;
pub const FIQ_MODE_BITS: u32 = 0b10001;
pub const IRQ_MODE_BITS: u32 = 0b10010;
pub const SUPERVISOR_MODE_BITS: u32 = 0b10011;
pub const ABORT_MODE_BITS: u32 = 0b10111;
pub const UNDEFINED_MODE_BITS: u32 = 0b11011;
pub const SYSTEM_MODE_BITS: u32 = 0b11111;

/// The mode that the mode bits (0-4) of a status register select; encodings
/// that name no mode run as user mode.
pub open spec fn mode_of(psr: u32) -> CpuMode {
    let bits = psr & 0x1Fu32;
    if bits == FIQ_MODE_BITS {
        CpuMode::Fiq
    } else if bits == IRQ_MODE_BITS {
        CpuMode::Irq
    } else if bits == SUPERVISOR_MODE_BITS {
        CpuMode::Supervisor
    } else if bits == ABORT_MODE_BITS {
        CpuMode::Abort
    } else if bits == UNDEFINED_MODE_BITS {
        CpuMode::Undefined
    } else if bits == SYSTEM_MODE_BITS {
        CpuMode::System
    } else {
        CpuMode::User
    }
}

pub open spec fn mode_bits(mode: CpuMode) -> u32 {
    match mode {
        CpuMode::User => USER_MODE_BITS,
        CpuMode::Fiq => FIQ_MODE_BITS,
        CpuMode::Irq => IRQ_MODE_BITS,
        CpuMode::Supervisor => SUPERVISOR_MODE_BITS,
        CpuMode::Abort => ABORT_MODE_BITS,
        CpuMode::Undefined => UNDEFINED_MODE_BITS,
        CpuMode::System => SYSTEM_MODE_BITS,
    }
}

/// Which copy of register `i` a mode works on: 0 the copy shared with user
/// mode, 1 FIQ's (R8-R14), 2-5 those of supervisor, abort, IRQ and
/// undefined mode (R13-R14).
pub open spec fn bank_of(mode: CpuMode, i: int) -> int {
    if i < 8 || i == 15 {
        0
    } else if mode == CpuMode::Fiq {
        1
    } else if i <= 12 {
        0
    } else {
        match mode {
            CpuMode::Supervisor => 2,
            CpuMode::Abort => 3,
            CpuMode::Irq => 4,
            CpuMode::Undefined => 5,
            _ => 0,
        }
    }
}

/// Which saved status register a mode has: 0 none (user and system mode),
/// else the bank numbers of `bank_of`.
pub open spec fn spsr_bank_of(mode: CpuMode) -> int {
    match mode {
        CpuMode::Fiq => 1,
        CpuMode::Supervisor => 2,
        CpuMode::Abort => 3,
        CpuMode::Irq => 4,
        CpuMode::Undefined => 5,
        _ => 0,
    }
}

/// The bit of the status register that holds a flag.
pub const SIGN_FLAG_BIT: u32 = 31;
pub const ZERO_FLAG_BIT: u32 = 30;
pub const CARRY_FLAG_BIT: u32 = 29;
pub const OVERFLOW_FLAG_BIT: u32 = 28;
pub const IRQ_DISABLE_BIT: u32 = 7;
pub const FIQ_DISABLE_BIT: u32 = 6;
pub const STATE_BIT: u32 = 5;


#[derive(Clone, Copy, Debug, PartialEq, Eq, Structural)]
pub enum ExceptionType {
    Reset,
    Undefined,
    Swi,
    PrefetchAbort,
    DataAbort,
    AddressExceeds26Bit,
    InterruptRequest,
    FastInterruptRequest,
}

pub open spec fn exception_mode(exception: ExceptionType) -> CpuMode {
    match exception {
        ExceptionType::Reset => CpuMode::Supervisor,
        ExceptionType::Undefined => CpuMode::Undefined,
        ExceptionType::Swi => CpuMode::Supervisor,
        ExceptionType::PrefetchAbort => CpuMode::Abort,
        ExceptionType::DataAbort => CpuMode::Abort,
        ExceptionType::AddressExceeds26Bit => CpuMode::Supervisor,
        ExceptionType::InterruptRequest => CpuMode::Irq,
        ExceptionType::FastInterruptRequest => CpuMode::Fiq,
    }
}

fn exception_mode_exec(exception: ExceptionType) -> (r: CpuMode)
    ensures
        r == exception_mode(exception),
{
    match exception {
        ExceptionType::Reset => CpuMode::Supervisor,
        ExceptionType::Undefined => CpuMode::Undefined,
        ExceptionType::Swi => CpuMode::Supervisor,
        ExceptionType::PrefetchAbort => CpuMode::Abort,
        ExceptionType::DataAbort => CpuMode::Abort,
        ExceptionType::AddressExceeds26Bit => CpuMode::Supervisor,
        ExceptionType::InterruptRequest => CpuMode::Irq,
        ExceptionType::FastInterruptRequest => CpuMode::Fiq,
    }
}

pub open spec fn exception_vector(exception: ExceptionType) -> u32 {
    match exception {
        ExceptionType::Reset => 0x00,
        ExceptionType::Undefined => 0x04,
        ExceptionType::Swi => 0x08,
        ExceptionType::PrefetchAbort => 0x0C,
        ExceptionType::DataAbort => 0x10,
        ExceptionType::AddressExceeds26Bit => 0x14,
        ExceptionType::InterruptRequest => 0x18,
        ExceptionType::FastInterruptRequest => 0x1C,
    }
}

fn exception_vector_exec(exception: ExceptionType) -> (r: u32)
    ensures
        r == exception_vector(exception),
{
    match exception {
        ExceptionType::Reset => 0x00,
        ExceptionType::Undefined => 0x04,
        ExceptionType::Swi => 0x08,
        ExceptionType::PrefetchAbort => 0x0C,
        ExceptionType::DataAbort => 0x10,
        ExceptionType::AddressExceeds26Bit => 0x14,
        ExceptionType::InterruptRequest => 0x18,
        ExceptionType::FastInterruptRequest => 0x1C,
    }
}

/// The address an exception saves in R14, from the stored program counter
/// (8 bytes ahead of the instruction in ARM state, 4 in Thumb state): for an
/// interrupt, the instruction to resume plus 4; for a software interrupt or
/// an undefined instruction, the next instruction.
pub open spec fn exception_return_address(pc: u32, thumb: bool, exception: ExceptionType) -> u32 {
    if exception == ExceptionType::InterruptRequest {
        if thumb {
            pc
        } else {
            wsub(pc, 4)
        }
    } else if thumb {
        wsub(pc, 2)
    } else {
        wsub(pc, 4)
    }
}


/// The two's-complement value of a word.
pub open spec fn sval(x: u32) -> int {
    if x >= 0x8000_0000 {
        x - 0x1_0000_0000
    } else {
        x as int
    }
}

pub open spec fn fits_i32(x: int) -> bool {
    -0x8000_0000 <= x <= 0x7FFF_FFFF
}

/// `a + b + carry_in` as a word, with the carry out (the unsigned sum
/// exceeds 32 bits) and the overflow (the signed sum does not fit).
pub open spec fn add_spec(a: u32, b: u32, carry_in: bool) -> (u32, bool, bool) {
    let c: int = if carry_in {
        1
    } else {
        0
    };
    ((a + b + c) as u32, a + b + c > u32::MAX, !fits_i32(sval(a) + sval(b) + c))
}

/// `a - b - (1 - carry_in)` as a word, with the carry out (no borrow: the
/// unsigned difference is not negative) and the overflow (the signed
/// difference does not fit).
pub open spec fn sub_spec(a: u32, b: u32, carry_in: bool) -> (u32, bool, bool) {
    let borrow: int = if carry_in {
        0
    } else {
        1
    };
    ((a - b - borrow) as u32, a - b - borrow >= 0, !fits_i32(sval(a) - sval(b) - borrow))
}

fn signed_value(x: u32) -> (r: i64)
    ensures
        r == sval(x),
{
    if x >= 0x8000_0000 {
        x as i64 - 0x1_0000_0000
    } else {
        x as i64
    }
}

pub fn add_with_carry(a: u32, b: u32, carry_in: bool) -> (r: (u32, bool, bool))
    ensures
        r == add_spec(a, b, carry_in),
{
    let c: u64 = if carry_in {
        1
    } else {
        0
    };
    let sum: u64 = a as u64 + b as u64 + c;
    let signed_sum: i64 = signed_value(a) + signed_value(b) + c as i64;
    (sum as u32, sum > 0xFFFF_FFFF, signed_sum < -0x8000_0000 || signed_sum > 0x7FFF_FFFF)
}

pub fn sub_with_borrow(a: u32, b: u32, carry_in: bool) -> (r: (u32, bool, bool))
    ensures
        r == sub_spec(a, b, carry_in),
{
    let borrow: i64 = if carry_in {
        0
    } else {
        1
    };
    let diff: i64 = a as i64 - b as i64 - borrow;
    let signed_diff: i64 = signed_value(a) - signed_value(b) - borrow;
    (diff as u32, diff >= 0, signed_diff < -0x8000_0000 || signed_diff > 0x7FFF_FFFF)
}

/// The barrel shifter: `value` shifted by `amount`, with the carry out.
/// An immediate amount (below 32) of 0 encodes LSR #32, ASR #32 and RRX
/// (rotate right by one through the carry); a register amount of 0 leaves
/// the value and carry, and amounts of 32 and more shift everything out.
pub open spec fn shifter(shift_type: ShiftType, value: u32, amount: u32, carry_in: bool, by_register: bool) -> (u32, bool) {
    let top = bit_of_u32(value, 31);
    if !by_register {
        if amount == 0 {
            match shift_type {
                ShiftType::Lsl => (value, carry_in),
                ShiftType::Lsr => (0u32, top),
                ShiftType::Asr => (if top {
                    0xFFFF_FFFFu32
                } else {
                    0u32
                }, top),
                ShiftType::Ror => (with_bit_u32(rotate_right_spec(value, 1), 31, carry_in), bit_of_u32(value, 0)),
            }
        } else {
            (
                shift_spec(shift_type, value, amount),
                match shift_type {
                    ShiftType::Lsl => bit_of_u32(value, (32 - amount) as u32),
                    _ => bit_of_u32(value, (amount - 1) as u32),
                },
            )
        }
    } else if amount == 0 {
        (value, carry_in)
    } else {
        match shift_type {
            ShiftType::Lsl => if amount < 32 {
                (value << amount, bit_of_u32(value, (32 - amount) as u32))
            } else if amount == 32 {
                (0u32, bit_of_u32(value, 0))
            } else {
                (0u32, false)
            },
            ShiftType::Lsr => if amount < 32 {
                (value >> amount, bit_of_u32(value, (amount - 1) as u32))
            } else if amount == 32 {
                (0u32, top)
            } else {
                (0u32, false)
            },
            ShiftType::Asr => if amount < 32 {
                (asr_spec(value, amount), bit_of_u32(value, (amount - 1) as u32))
            } else {
                (if top {
                    0xFFFF_FFFFu32
                } else {
                    0u32
                }, top)
            },
            ShiftType::Ror => {
                let e = amount % 32;
                if e == 0 {
                    (value, top)
                } else {
                    (rotate_right_spec(value, e), bit_of_u32(value, (e - 1) as u32))
                }
            },
        }
    }
}

pub fn barrel_shift(shift_type: ShiftType, value: u32, amount: u32, carry_in: bool, by_register: bool) -> (r: (u32, bool))
    requires
        !by_register ==> amount < 32,
    ensures
        r == shifter(shift_type, value, amount, carry_in, by_register),
{
    let top = get_bit_u32(value, 31);
    if !by_register {
        if amount == 0 {
            match shift_type {
                ShiftType::Lsl => (value, carry_in),
                ShiftType::Lsr => (0, top),
                ShiftType::Asr => (if top {
                    0xFFFF_FFFF
                } else {
                    0
                }, top),
                ShiftType::Ror => (set_bit_u32(rotate_right(value, 1), 31, carry_in), get_bit_u32(value, 0)),
            }
        } else {
            let carry = match shift_type {
                ShiftType::Lsl => get_bit_u32(value, 32 - amount),
                _ => get_bit_u32(value, amount - 1),
            };
            (shift_type.evaluate(value, amount), carry)
        }
    } else if amount == 0 {
        (value, carry_in)
    } else {
        match shift_type {
            ShiftType::Lsl => if amount < 32 {
                (value << amount, get_bit_u32(value, 32 - amount))
            } else if amount == 32 {
                (0, get_bit_u32(value, 0))
            } else {
                (0, false)
            },
            ShiftType::Lsr => if amount < 32 {
                (value >> amount, get_bit_u32(value, amount - 1))
            } else if amount == 32 {
                (0, top)
            } else {
                (0, false)
            },
            ShiftType::Asr => if amount < 32 {
                (arithmetic_shift_right(value, amount), get_bit_u32(value, amount - 1))
            } else {
                (if top {
                    0xFFFF_FFFF
                } else {
                    0
                }, top)
            },
            ShiftType::Ror => {
                let e = amount % 32;
                if e == 0 {
                    (value, top)
                } else {
                    (rotate_right(value, e), get_bit_u32(value, e - 1))
                }
            },
        }
    }
}

/// The program counter `n` bytes on, aligned to the instruction size.
pub open spec fn advanced_pc(thumb: bool, pc: u32, n: u32) -> u32 {
    if thumb {
        wadd(pc, n) & !1u32
    } else {
        wadd(pc, n) & !3u32
    }
}

/// The status register with the condition flags N, Z, C and V replaced.
pub open spec fn with_flags(cpsr: u32, n: bool, z: bool, c: bool, v: bool) -> u32 {
    with_bit_u32(with_bit_u32(with_bit_u32(with_bit_u32(cpsr, SIGN_FLAG_BIT, n), ZERO_FLAG_BIT, z), CARRY_FLAG_BIT, c), OVERFLOW_FLAG_BIT, v)
}

/// The ARM7TDMI core, with the bus it drives.
#[derive(Clone, Debug)]
pub struct Cpu {
    /// R0-R15 of the current mode.
    pub registers: [u32; 16],
    /// The saved status register of the current mode.
    pub spsr: u32,
    /// The user-mode copies of R0-R15 while another bank is current.
    pub user_registers: [u32; 16],
    /// FIQ mode's R8-R14.
    pub fiq_registers: [u32; 7],
    /// Supervisor, abort, IRQ and undefined mode's R13-R14.
    pub svc_registers: [u32; 2],
    pub abt_registers: [u32; 2],
    pub irq_registers: [u32; 2],
    pub und_registers: [u32; 2],
    pub spsr_fiq: u32,
    pub spsr_svc: u32,
    pub spsr_abt: u32,
    pub spsr_irq: u32,
    pub spsr_und: u32,
    pub cpsr: u32,
    pub cycle_count: u64,
    pub bus: Bus,
    pub prefetch_opcode: Option<u32>,
    pub pre_decode_arm: Option<ArmInstruction>,
    pub pre_decode_thumb: Option<ThumbInstruction>,
}

impl Cpu {
    pub open spec fn wf(&self) -> bool {
        self.bus.wf()
    }

    pub open spec fn mode(&self) -> CpuMode {
        mode_of(self.cpsr)
    }

    pub open spec fn flag(&self, bit: u32) -> bool {
        bit_of_u32(self.cpsr, bit)
    }

    pub open spec fn thumb(&self) -> bool {
        bit_of_u32(self.cpsr, STATE_BIT)
    }

    /// The stored copy of register `i` in bank `bank` (see `bank_of`).
    pub open spec fn stored(&self, bank: int, i: int) -> u32 {
        if bank == 0 {
            self.user_registers[i]
        } else if bank == 1 {
            self.fiq_registers[i - 8]
        } else if bank == 2 {
            self.svc_registers[i - 13]
        } else if bank == 3 {
            self.abt_registers[i - 13]
        } else if bank == 4 {
            self.irq_registers[i - 13]
        } else {
            self.und_registers[i - 13]
        }
    }

    pub open spec fn stored_spsr(&self, bank: int) -> u32 {
        if bank == 1 {
            self.spsr_fiq
        } else if bank == 2 {
            self.spsr_svc
        } else if bank == 3 {
            self.spsr_abt
        } else if bank == 4 {
            self.spsr_irq
        } else {
            self.spsr_und
        }
    }

    /// The value of register `i` (0-15) as `mode` sees it: the current
    /// register where `mode` shares the current mode's copy, else the stored
    /// copy of `mode`'s bank.
    pub open spec fn register_in_mode(&self, mode: CpuMode, i: int) -> u32 {
        if bank_of(mode, i) == bank_of(self.mode(), i) {
            self.registers[i]
        } else {
            self.stored(bank_of(mode, i), i)
        }
    }

    /// Whether `after` is this core switched to `mode`: the mode bits of the
    /// status register set, and every mode's view of every register and of
    /// its saved status register kept.
    pub open spec fn mode_set(&self, after: Cpu, mode: CpuMode) -> bool {
        &&& after.cpsr == with_field_u32(self.cpsr, mode_bits(mode), 0, 5)
        &&& after.mode() == mode
        &&& forall|m: CpuMode, i: int| 0 <= i < 16 ==> #[trigger] after.register_in_mode(m, i) == self.register_in_mode(m, i)
        &&& forall|m: CpuMode| spsr_bank_of(m) != 0 ==> #[trigger] after.spsr_in_mode(m) == self.spsr_in_mode(m)
    }

    /// The saved status register of `mode` (a mode that has one).
    pub open spec fn spsr_in_mode(&self, mode: CpuMode) -> u32 {
        if spsr_bank_of(mode) == spsr_bank_of(self.mode()) {
            self.spsr
        } else {
            self.stored_spsr(spsr_bank_of(mode))
        }
    }

    /// The value a read of `register` returns.
    pub open spec fn register_value(&self, register: Register, pc: PcCalculation) -> u32 {
        match register {
            Register::R15 => apply_pc(self.registers[15], pc),
            Register::Cpsr => self.cpsr,
            Register::Spsr => self.spsr,
            _ => self.registers[register_index(register)],
        }
    }

    pub fn read_register(&self, register: Register, pc_calculation: PcCalculation) -> (r: u32)
        ensures
            r == self.register_value(register, pc_calculation),
    {
        match register {
            Register::R15 => apply_pc_exec(self.registers[15], pc_calculation),
            Register::Cpsr => self.cpsr,
            Register::Spsr => self.spsr,
            _ => self.registers[register.index()],
        }
    }

    /// A register as user mode sees it, whatever the current mode.
    pub open spec fn user_register_value(&self, register: Register, pc: PcCalculation) -> u32 {
        match register {
            Register::R15 => apply_pc(self.registers[15], pc),
            Register::Cpsr => self.cpsr,
            Register::Spsr => self.spsr,
            _ => self.register_in_mode(CpuMode::User, register_index(register)),
        }
    }

    /// R0-R15 as user mode sees them, whatever the current mode.
    pub open spec fn user_view(&self) -> Seq<u32> {
        Seq::new(16, |i: int| self.register_in_mode(CpuMode::User, i))
    }

    fn read_user_register(&self, register: Register, pc_calculation: PcCalculation) -> (r: u32)
        requires
            register != Register::Spsr,
        ensures
            r == self.user_register_value(register, pc_calculation),
    {
        match register {
            Register::R15 => apply_pc_exec(self.registers[15], pc_calculation),
            Register::Cpsr => self.cpsr,
            Register::Spsr => self.spsr,
            _ => {
                let i: usize = register.index();
                // R0-R7 are shared by every mode, R8-R12 by all but FIQ mode,
                // and user and system mode share one bank.
                let banked = match self.get_cpu_mode() {
                    CpuMode::Fiq => i >= 8,
                    CpuMode::User | CpuMode::System => false,
                    _ => i >= 13,
                };
                if banked {
                    self.user_registers[i]
                } else {
                    self.registers[i]
                }
            },
        }
    }

    pub fn get_cpu_mode(&self) -> (r: CpuMode)
        ensures
            r == self.mode(),
    {
        let bits = self.cpsr & 0x1F;
        if bits == FIQ_MODE_BITS {
            CpuMode::Fiq
        } else if bits == IRQ_MODE_BITS {
            CpuMode::Irq
        } else if bits == SUPERVISOR_MODE_BITS {
            CpuMode::Supervisor
        } else if bits == ABORT_MODE_BITS {
            CpuMode::Abort
        } else if bits == UNDEFINED_MODE_BITS {
            CpuMode::Undefined
        } else if bits == SYSTEM_MODE_BITS {
            CpuMode::System
        } else {
            CpuMode::User
        }
    }

    pub fn get_instruction_mode(&self) -> (r: InstructionSet)
        ensures
            r == (if self.thumb() {
                InstructionSet::Thumb
            } else {
                InstructionSet::Arm
            }),
    {
        if get_bit_u32(self.cpsr, STATE_BIT) {
            InstructionSet::Thumb
        } else {
            InstructionSet::Arm
        }
    }

    pub fn get_sign_flag(&self) -> (r: bool)
        ensures
            r == self.flag(SIGN_FLAG_BIT),
    {
        get_bit_u32(self.cpsr, SIGN_FLAG_BIT)
    }

    pub fn get_zero_flag(&self) -> (r: bool)
        ensures
            r == self.flag(ZERO_FLAG_BIT),
    {
        get_bit_u32(self.cpsr, ZERO_FLAG_BIT)
    }

    pub fn get_carry_flag(&self) -> (r: bool)
        ensures
            r == self.flag(CARRY_FLAG_BIT),
    {
        get_bit_u32(self.cpsr, CARRY_FLAG_BIT)
    }

    pub fn get_overflow_flag(&self) -> (r: bool)
        ensures
            r == self.flag(OVERFLOW_FLAG_BIT),
    {
        get_bit_u32(self.cpsr, OVERFLOW_FLAG_BIT)
    }

    pub fn get_irq_disable(&self) -> (r: bool)
        ensures
            r == self.flag(IRQ_DISABLE_BIT),
    {
        get_bit_u32(self.cpsr, IRQ_DISABLE_BIT)
    }

    pub fn get_fiq_disable(&self) -> (r: bool)
        ensures
            r == self.flag(FIQ_DISABLE_BIT),
    {
        get_bit_u32(self.cpsr, FIQ_DISABLE_BIT)
    }

    /// Replaces the condition flags.
    fn set_flags(&mut self, n: bool, z: bool, c: bool, v: bool)
        ensures
            *final(self) == (Cpu { cpsr: with_flags(old(self).cpsr, n, z, c, v), ..*old(self) }),
            final(self).mode() == old(self).mode(),
            final(self).thumb() == old(self).thumb(),
    {
        self.set_cpsr_bit(SIGN_FLAG_BIT, n);
        self.set_cpsr_bit(ZERO_FLAG_BIT, z);
        self.set_cpsr_bit(CARRY_FLAG_BIT, c);
        self.set_cpsr_bit(OVERFLOW_FLAG_BIT, v);
        let ghost c0 = old(self).cpsr;
        assert(bit_of_u32(with_flags(c0, n, z, c, v), 5) == bit_of_u32(c0, 5)) by (bit_vector);
    }

    /// Sets one bit of the status register (a flag, a disable bit or the
    /// state bit), without a mode change.
    fn set_cpsr_bit(&mut self, bit: u32, set: bool)
        requires
            bit == SIGN_FLAG_BIT || bit == ZERO_FLAG_BIT || bit == CARRY_FLAG_BIT || bit == OVERFLOW_FLAG_BIT
                || bit == IRQ_DISABLE_BIT || bit == FIQ_DISABLE_BIT || bit == STATE_BIT,
        ensures
            *final(self) == (Cpu { cpsr: with_bit_u32(old(self).cpsr, bit, set), ..*old(self) }),
            final(self).mode() == old(self).mode(),
    {
        let old_cpsr = self.cpsr;
        self.cpsr = set_bit_u32(self.cpsr, bit, set);
        let new_cpsr = self.cpsr;
        assert(new_cpsr & 0x1Fu32 == old_cpsr & 0x1Fu32) by (bit_vector)
            requires
                5 <= bit < 32,
                new_cpsr == (if set {
                    old_cpsr | (1u32 << bit)
                } else {
                    old_cpsr & !(1u32 << bit)
                }),
        ;
    }

    /// The current registers after the bank switch into `mode`: each
    /// register takes the stored copy of `mode`'s bank.
    pub open spec fn loaded(&self, mode: CpuMode, after: &Cpu) -> bool {
        &&& forall|i: int| 0 <= i < 16 ==> #[trigger] after.registers[i] == self.stored(bank_of(mode, i), i)
        &&& after.spsr == if spsr_bank_of(mode) != 0 {
            self.stored_spsr(spsr_bank_of(mode))
        } else {
            self.spsr
        }
    }

    /// Whether `after` holds, in the banks of `mode`, the current registers.
    pub open spec fn stashed(&self, mode: CpuMode, after: &Cpu) -> bool {
        &&& forall|b: int, i: int|
            valid_slot(b, i) ==> #[trigger] after.stored(b, i) == if b == bank_of(mode, i) {
                self.registers[i]
            } else {
                self.stored(b, i)
            }
        &&& forall|b: int|
            1 <= b <= 5 ==> #[trigger] after.stored_spsr(b) == if b == spsr_bank_of(mode) {
                self.spsr
            } else {
                self.stored_spsr(b)
            }
    }

    fn stash_registers(&mut self, mode: CpuMode)
        ensures
            old(self).stashed(mode, final(self)),
            *final(self) == (Cpu {
                user_registers: final(self).user_registers,
                fiq_registers: final(self).fiq_registers,
                svc_registers: final(self).svc_registers,
                abt_registers: final(self).abt_registers,
                irq_registers: final(self).irq_registers,
                und_registers: final(self).und_registers,
                spsr_fiq: final(self).spsr_fiq,
                spsr_svc: final(self).spsr_svc,
                spsr_abt: final(self).spsr_abt,
                spsr_irq: final(self).spsr_irq,
                spsr_und: final(self).spsr_und,
                ..*old(self)
            }),
    {
        let r = self.registers;
        match mode {
            CpuMode::User | CpuMode::System => {
                self.user_registers = r;
            },
            CpuMode::Fiq => {
                let mut u = self.user_registers;
                u[0] = r[0];
                u[1] = r[1];
                u[2] = r[2];
                u[3] = r[3];
                u[4] = r[4];
                u[5] = r[5];
                u[6] = r[6];
                u[7] = r[7];
                u[15] = r[15];
                self.user_registers = u;
                self.fiq_registers = [r[8], r[9], r[10], r[11], r[12], r[13], r[14]];
                self.spsr_fiq = self.spsr;
            },
            CpuMode::Supervisor => {
                let mut u = self.user_registers;
                u[0] = r[0];
                u[1] = r[1];
                u[2] = r[2];
                u[3] = r[3];
                u[4] = r[4];
                u[5] = r[5];
                u[6] = r[6];
                u[7] = r[7];
                u[8] = r[8];
                u[9] = r[9];
                u[10] = r[10];
                u[11] = r[11];
                u[12] = r[12];
                u[15] = r[15];
                self.user_registers = u;
                self.svc_registers = [r[13], r[14]];
                self.spsr_svc = self.spsr;
            },
            CpuMode::Abort => {
                let mut u = self.user_registers;
                u[0] = r[0];
                u[1] = r[1];
                u[2] = r[2];
                u[3] = r[3];
                u[4] = r[4];
                u[5] = r[5];
                u[6] = r[6];
                u[7] = r[7];
                u[8] = r[8];
                u[9] = r[9];
                u[10] = r[10];
                u[11] = r[11];
                u[12] = r[12];
                u[15] = r[15];
                self.user_registers = u;
                self.abt_registers = [r[13], r[14]];
                self.spsr_abt = self.spsr;
            },
            CpuMode::Irq => {
                let mut u = self.user_registers;
                u[0] = r[0];
                u[1] = r[1];
                u[2] = r[2];
                u[3] = r[3];
                u[4] = r[4];
                u[5] = r[5];
                u[6] = r[6];
                u[7] = r[7];
                u[8] = r[8];
                u[9] = r[9];
                u[10] = r[10];
                u[11] = r[11];
                u[12] = r[12];
                u[15] = r[15];
                self.user_registers = u;
                self.irq_registers = [r[13], r[14]];
                self.spsr_irq = self.spsr;
            },
            CpuMode::Undefined => {
                let mut u = self.user_registers;
                u[0] = r[0];
                u[1] = r[1];
                u[2] = r[2];
                u[3] = r[3];
                u[4] = r[4];
                u[5] = r[5];
                u[6] = r[6];
                u[7] = r[7];
                u[8] = r[8];
                u[9] = r[9];
                u[10] = r[10];
                u[11] = r[11];
                u[12] = r[12];
                u[15] = r[15];
                self.user_registers = u;
                self.und_registers = [r[13], r[14]];
                self.spsr_und = self.spsr;
            },
        }
    }

    fn load_registers(&mut self, mode: CpuMode)
        ensures
            old(self).loaded(mode, final(self)),
            *final(self) == (Cpu { registers: final(self).registers, spsr: final(self).spsr, ..*old(self) }),
    {
        let u = self.user_registers;
        match mode {
            CpuMode::User | CpuMode::System => {
                self.registers = u;
            },
            CpuMode::Fiq => {
                let f = self.fiq_registers;
                self.registers = [u[0], u[1], u[2], u[3], u[4], u[5], u[6], u[7], f[0], f[1], f[2], f[3], f[4], f[5], f[6], u[15]];
                self.spsr = self.spsr_fiq;
            },
            CpuMode::Supervisor => {
                let b = self.svc_registers;
                self.registers = [u[0], u[1], u[2], u[3], u[4], u[5], u[6], u[7], u[8], u[9], u[10], u[11], u[12], b[0], b[1], u[15]];
                self.spsr = self.spsr_svc;
            },
            CpuMode::Abort => {
                let b = self.abt_registers;
                self.registers = [u[0], u[1], u[2], u[3], u[4], u[5], u[6], u[7], u[8], u[9], u[10], u[11], u[12], b[0], b[1], u[15]];
                self.spsr = self.spsr_abt;
            },
            CpuMode::Irq => {
                let b = self.irq_registers;
                self.registers = [u[0], u[1], u[2], u[3], u[4], u[5], u[6], u[7], u[8], u[9], u[10], u[11], u[12], b[0], b[1], u[15]];
                self.spsr = self.spsr_irq;
            },
            CpuMode::Undefined => {
                let b = self.und_registers;
                self.registers = [u[0], u[1], u[2], u[3], u[4], u[5], u[6], u[7], u[8], u[9], u[10], u[11], u[12], b[0], b[1], u[15]];
                self.spsr = self.spsr_und;
            },
        }
    }

    /// Writes a register. R15 is forced to the instruction alignment of the
    /// current state. A write of the status register that changes the mode
    /// switches register banks: the current registers go to the banks of the
    /// old mode and those of the new mode come in, so that every mode's view
    /// of every register, and every mode's saved status register, is kept.
    pub fn write_register(&mut self, value: u32, register: Register)
        ensures
            register_index(register) < 15 ==> final(self).registers@ == old(self).registers@.update(
                register_index(register),
                value,
            ) && *final(self) == (Cpu { registers: final(self).registers, ..*old(self) }),
            register == Register::R15 ==> final(self).registers@ == old(self).registers@.update(
                15,
                if old(self).thumb() {
                    value & !1u32
                } else {
                    value & !3u32
                },
            ) && *final(self) == (Cpu { registers: final(self).registers, ..*old(self) }),
            register == Register::Spsr ==> *final(self) == (Cpu { spsr: value, ..*old(self) }),
            register == Register::Cpsr ==> final(self).cpsr == value,
            register == Register::Cpsr && mode_of(value) == old(self).mode() ==> *final(self) == (Cpu {
                cpsr: value,
                ..*old(self)
            }),
            register == Register::Cpsr ==> forall|m: CpuMode, i: int|
                0 <= i < 16 ==> #[trigger] final(self).register_in_mode(m, i) == old(self).register_in_mode(m, i),
            register == Register::Cpsr ==> forall|m: CpuMode|
                spsr_bank_of(m) != 0 ==> #[trigger] final(self).spsr_in_mode(m) == old(self).spsr_in_mode(m),
            register == Register::Cpsr ==> final(self).bus == old(self).bus && final(self).cycle_count
                == old(self).cycle_count && final(self).prefetch_opcode == old(self).prefetch_opcode
                && final(self).pre_decode_arm == old(self).pre_decode_arm && final(self).pre_decode_thumb
                == old(self).pre_decode_thumb,
    {
        match register {
            Register::R15 => {
                let aligned = if get_bit_u32(self.cpsr, STATE_BIT) {
                    value & !1u32
                } else {
                    value & !3u32
                };
                self.registers[15] = aligned;
            },
            Register::Spsr => {
                self.spsr = value;
            },
            Register::Cpsr => {
                let old_mode = self.get_cpu_mode();
                self.cpsr = value;
                let new_mode = self.get_cpu_mode();
                if old_mode != new_mode {
                    let ghost before = *self;
                    self.stash_registers(old_mode);
                    let ghost mid = *self;
                    self.load_registers(new_mode);
                    proof {
                        assert forall|m: CpuMode, i: int| 0 <= i < 16 implies #[trigger] self.register_in_mode(m, i)
                            == old(self).register_in_mode(m, i) by {
                            let b = bank_of(m, i);
                            let bn = bank_of(new_mode, i);
                            let bo = bank_of(old_mode, i);
                            assert(valid_slot(b, i));
                            assert(valid_slot(bn, i));
                            assert(mid.stored(b, i) == if b == bo {
                                before.registers[i]
                            } else {
                                before.stored(b, i)
                            });
                            assert(mid.stored(bn, i) == if bn == bo {
                                before.registers[i]
                            } else {
                                before.stored(bn, i)
                            });
                            assert(self.stored(b, i) == mid.stored(b, i));
                            assert(before.stored(b, i) == old(self).stored(b, i));
                            assert(before.stored(bn, i) == old(self).stored(bn, i));
                            assert(self.registers[i] == mid.stored(bn, i));
                        }
                        assert forall|m: CpuMode| spsr_bank_of(m) != 0 implies #[trigger] self.spsr_in_mode(m)
                            == old(self).spsr_in_mode(m) by {
                            let b = spsr_bank_of(m);
                            assert(1 <= b <= 5);
                            assert(mid.stored_spsr(b) == if b == spsr_bank_of(old_mode) {
                                before.spsr
                            } else {
                                before.stored_spsr(b)
                            });
                            assert(self.stored_spsr(b) == mid.stored_spsr(b));
                            if spsr_bank_of(new_mode) != 0 {
                                let bn = spsr_bank_of(new_mode);
                                assert(mid.stored_spsr(bn) == if bn == spsr_bank_of(old_mode) {
                                    before.spsr
                                } else {
                                    before.stored_spsr(bn)
                                });
                            }
                        }
                    }
                }
            },
            _ => {
                let i = register.index();
                self.registers[i] = value;
            },
        }
    }

    /// Sets the mode bits (0-4) of the status register to `mode`, switching
    /// register banks.
    fn set_cpu_mode(&mut self, mode: CpuMode)
        ensures
            old(self).mode_set(*final(self), mode),
            final(self).bus == old(self).bus,
            final(self).cycle_count == old(self).cycle_count,
            final(self).prefetch_opcode == old(self).prefetch_opcode,
            final(self).pre_decode_arm == old(self).pre_decode_arm,
            final(self).pre_decode_thumb == old(self).pre_decode_thumb,
    {
        let bits: u32 = match mode {
            CpuMode::User => USER_MODE_BITS,
            CpuMode::Fiq => FIQ_MODE_BITS,
            CpuMode::Irq => IRQ_MODE_BITS,
            CpuMode::Supervisor => SUPERVISOR_MODE_BITS,
            CpuMode::Abort => ABORT_MODE_BITS,
            CpuMode::Undefined => UNDEFINED_MODE_BITS,
            CpuMode::System => SYSTEM_MODE_BITS,
        };
        let c = self.cpsr;
        let new_cpsr = set_field_u32(c, bits, 0, 5);
        assert(with_field_u32(c, bits, 0, 5) & 0x1Fu32 == bits) by (bit_vector)
            requires
                bits < 32,
        ;
        self.write_register(new_cpsr, Register::Cpsr);
    }

    pub fn evaluate_instruction_condition(&self, condition: InstructionCondition) -> (r: bool)
        ensures
            r == condition_holds(
                condition,
                self.flag(SIGN_FLAG_BIT),
                self.flag(ZERO_FLAG_BIT),
                self.flag(CARRY_FLAG_BIT),
                self.flag(OVERFLOW_FLAG_BIT),
            ),
    {
        let n = self.get_sign_flag();
        let z = self.get_zero_flag();
        let c = self.get_carry_flag();
        let v = self.get_overflow_flag();
        match condition {
            InstructionCondition::Equal => z,
            InstructionCondition::NotEqual => !z,
            InstructionCondition::UnsignedHigherOrSame => c,
            InstructionCondition::UnsignedLower => !c,
            InstructionCondition::SignedNegative => n,
            InstructionCondition::SignedPositiveOrZero => !n,
            InstructionCondition::SignedOverflow => v,
            InstructionCondition::SignedNoOverflow => !v,
            InstructionCondition::UnsignedHigher => c && !z,
            InstructionCondition::UnsignedLowerOrSame => !c || z,
            InstructionCondition::SignedGreaterOrEqual => n == v,
            InstructionCondition::SignedLessThan => n != v,
            InstructionCondition::SignedGreaterThan => !z && n == v,
            InstructionCondition::SignedLessOrEqual => z || n != v,
            InstructionCondition::Always => true,
            InstructionCondition::Never => false,
        }
    }

    fn flush_prefetch(&mut self)
        ensures
            *final(self) == (Cpu {
                prefetch_opcode: None,
                pre_decode_arm: None,
                pre_decode_thumb: None,
                ..*old(self)
            }),
    {
        self.pre_decode_arm = None;
        self.pre_decode_thumb = None;
        self.prefetch_opcode = None;
    }

    /// The status register after taking an exception into `mode`: ARM
    /// state, the new mode, IRQs disabled (and FIQs too for a FIQ).
    pub open spec fn exception_cpsr(cpsr: u32, exception: ExceptionType) -> u32 {
        let entered = with_bit_u32(
            with_field_u32(with_bit_u32(cpsr, STATE_BIT, false), mode_bits(exception_mode(exception)), 0, 5),
            IRQ_DISABLE_BIT,
            true,
        );
        if exception == ExceptionType::FastInterruptRequest {
            with_bit_u32(entered, FIQ_DISABLE_BIT, true)
        } else {
            entered
        }
    }

    /// Takes an exception: the return address goes to the new mode's R14
    /// and the old status register to its saved status register, the core
    /// enters the exception's mode in ARM state with IRQs disabled, and
    /// jumps to the exception vector with the pipeline flushed.
    fn handle_exception(&mut self, exception_type: ExceptionType)
        requires
            exception_type == ExceptionType::InterruptRequest || exception_type == ExceptionType::Swi
                || exception_type == ExceptionType::Undefined,
        ensures
            final(self).mode() == exception_mode(exception_type),
            final(self).cpsr == Cpu::exception_cpsr(old(self).cpsr, exception_type),
            final(self).registers[14] == exception_return_address(old(self).registers[15], old(self).thumb(), exception_type),
            final(self).spsr == old(self).cpsr,
            final(self).registers[15] == exception_vector(exception_type),
            final(self).prefetch_opcode is None,
            final(self).pre_decode_arm is None,
            final(self).pre_decode_thumb is None,
            final(self).bus == old(self).bus,
            final(self).cycle_count == old(self).cycle_count,
            Cpu::banks_kept_on_entry(*old(self), *final(self), exception_mode(exception_type)),
    {
        let ghost start = *self;
        let new_mode = exception_mode_exec(exception_type);
        let pc_calculation = if exception_type == ExceptionType::InterruptRequest {
            if self.get_instruction_mode() == InstructionSet::Arm {
                PcCalculation::Minus(4)
            } else {
                PcCalculation::Identity
            }
        } else {
            if self.get_instruction_mode() == InstructionSet::Arm {
                PcCalculation::Minus(4)
            } else {
                PcCalculation::Minus(2)
            }
        };
        let old_pc = self.read_register(Register::R15, pc_calculation);
        let old_flags = self.cpsr;
        self.set_cpsr_bit(STATE_BIT, false);
        let ghost armed = *self;
        proof {
            assert forall|m: CpuMode, i: int| 0 <= i < 16 implies #[trigger] armed.register_in_mode(m, i)
                == start.register_in_mode(m, i) by {}
            assert forall|m: CpuMode| spsr_bank_of(m) != 0 implies #[trigger] armed.spsr_in_mode(m)
                == start.spsr_in_mode(m) by {}
        }
        self.set_cpu_mode(new_mode);
        let ghost switched = *self;
        self.registers[14] = old_pc;
        self.spsr = old_flags;
        self.set_cpsr_bit(IRQ_DISABLE_BIT, true);
        if exception_type == ExceptionType::FastInterruptRequest {
            self.set_cpsr_bit(FIQ_DISABLE_BIT, true);
        }
        let ghost entered = *self;
        proof {
            assert forall|m: CpuMode, i: int|
                0 <= i < 15 && !(i == 14 && bank_of(m, 14) == bank_of(new_mode, 14)) implies #[trigger] entered.register_in_mode(
                m,
                i,
            ) == start.register_in_mode(m, i) by {
                assert(entered.register_in_mode(m, i) == switched.register_in_mode(m, i));
            }
            assert forall|m: CpuMode|
                spsr_bank_of(m) != 0 && spsr_bank_of(m) != spsr_bank_of(new_mode) implies #[trigger] entered.spsr_in_mode(m)
                == start.spsr_in_mode(m) by {
                assert(entered.spsr_in_mode(m) == switched.spsr_in_mode(m));
            }
        }
        let ghost c = self.cpsr;
        assert(!bit_of_u32(c, STATE_BIT)) by {
            let c0 = old(self).cpsr;
            let bits = mode_bits(new_mode);
            assert(!bit_of_u32(with_bit_u32(with_field_u32(with_bit_u32(c0, 5, false), bits, 0, 5), 7, true), 5)) by (bit_vector)
                requires bits < 32;
        }
        let vector = exception_vector_exec(exception_type);
        self.write_register(vector, Register::R15);
        assert(vector & !3u32 == vector) by {
            crate::bits::lemma_bit_constants();
        }
        self.flush_prefetch();
        proof {
            assert forall|m: CpuMode, i: int|
                0 <= i < 15 && !(i == 14 && bank_of(m, 14) == bank_of(new_mode, 14)) implies #[trigger] self.register_in_mode(
                m,
                i,
            ) == start.register_in_mode(m, i) by {
                assert(self.register_in_mode(m, i) == entered.register_in_mode(m, i));
            }
            assert forall|m: CpuMode|
                spsr_bank_of(m) != 0 && spsr_bank_of(m) != spsr_bank_of(new_mode) implies #[trigger] self.spsr_in_mode(m)
                == start.spsr_in_mode(m) by {
                assert(self.spsr_in_mode(m) == entered.spsr_in_mode(m));
            }
        }
    }

    /// Whether `after`, which has entered `mode` for an exception, keeps
    /// every register as every mode sees it (R0-R14; all but the new mode's
    /// own R14, which takes the return address) and the saved status
    /// register of every other mode.
    pub open spec fn banks_kept_on_entry(before: Cpu, after: Cpu, mode: CpuMode) -> bool {
        &&& forall|m: CpuMode, i: int|
            0 <= i < 15 && !(i == 14 && bank_of(m, 14) == bank_of(mode, 14)) ==> #[trigger] after.register_in_mode(m, i)
                == before.register_in_mode(m, i)
        &&& forall|m: CpuMode|
            spsr_bank_of(m) != 0 && spsr_bank_of(m) != spsr_bank_of(mode) ==> #[trigger] after.spsr_in_mode(m)
                == before.spsr_in_mode(m)
    }
}


/// What a Thumb instruction costs in cycles: the sum of its counts, at
/// least one.
pub open spec fn thumb_cycles_taken(t: ThumbInstructionType) -> u64 {
    let info = spec_thumb_cycles(t);
    if info.i + info.n + info.s == 0 {
        1
    } else {
        (info.i + info.n + info.s) as u64
    }
}

/// A mode switch (`set_cpu_mode`) keeps the flags and control bits of the
/// status register and R0-R7 and R15; switching to a mode and back to the
/// mode of valid mode bits gives back R0-R15 and the status register.
pub proof fn lemma_mode_switch_round_trip(before: Cpu, switched: Cpu, back: Cpu, mode: CpuMode)
    requires
        before.cpsr & 0x1F == mode_bits(before.mode()),
        before.mode_set(switched, mode),
        switched.mode_set(back, before.mode()),
    ensures
        switched.mode() == mode,
        switched.cpsr & !0x1Fu32 == before.cpsr & !0x1Fu32,
        forall|i: int| (0 <= i < 8 || i == 15) ==> #[trigger] switched.registers[i] == before.registers[i],
        back.cpsr == before.cpsr,
        forall|i: int| 0 <= i < 16 ==> #[trigger] back.registers[i] == before.registers[i],
{
    let c = before.cpsr;
    let f = mode_bits(mode);
    let g = mode_bits(before.mode());
    assert(with_field_u32(with_field_u32(c, f, 0, 5), g, 0, 5) == with_field_u32(c, g, 0, 5)) by (bit_vector);
    assert(c & 0x1F == g ==> with_field_u32(c, g, 0, 5) == c) by (bit_vector);
    assert(with_field_u32(c, f, 0, 5) & !0x1Fu32 == c & !0x1Fu32) by (bit_vector);
    assert forall|i: int| (0 <= i < 8 || i == 15) implies #[trigger] switched.registers[i] == before.registers[i] by {
        assert(switched.register_in_mode(mode, i) == before.register_in_mode(mode, i));
    }
    assert forall|i: int| 0 <= i < 16 implies #[trigger] back.registers[i] == before.registers[i] by {
        assert(back.register_in_mode(before.mode(), i) == switched.register_in_mode(before.mode(), i));
        assert(switched.register_in_mode(before.mode(), i) == before.register_in_mode(before.mode(), i));
    }
}

/// One step of the core takes between 1 and 255 cycles: at least one, and
/// at most the internal, non-sequential and sequential cycles of the
/// longest Thumb instruction.
pub proof fn lemma_step_cycles_bounded(cpu: Cpu)
    ensures
        1 <= cpu.step_cycles() <= 255,
{
    if cpu.thumb() {
        if let Some(d) = cpu.pre_decode_thumb {
            let t = d.instruction_type;
            match t {
                ThumbInstructionType::Push { register_bit_list, .. } => {
                    crate::cpu::thumb::lemma_bits_set8_bound(register_bit_list, 8);
                },
                ThumbInstructionType::Pop { register_bit_list, .. } => {
                    crate::cpu::thumb::lemma_bits_set8_bound(register_bit_list, 8);
                },
                ThumbInstructionType::StmiaWriteBack { register_bit_list, .. } => {
                    crate::cpu::thumb::lemma_bits_set8_bound(register_bit_list, 8);
                },
                ThumbInstructionType::LdmiaWriteBack { register_bit_list, .. } => {
                    crate::cpu::thumb::lemma_bits_set8_bound(register_bit_list, 8);
                },
                _ => {},
            }
            let info = spec_thumb_cycles(t);
            assert(info.i + info.n + info.s <= 255);
        }
    }
}

/// Both halves of an instruction: ARM or Thumb.
#[derive(Clone, Copy, Debug, PartialEq, Eq, Structural)]
pub enum Instruction {
    ArmInstruction(ArmInstruction),
    ThumbInstruction(ThumbInstruction),
}

impl Default for Instruction {
    /// The instruction of opcode 0 (ANDEQ r0, r0, r0).
    fn default() -> (r: Self)
        ensures
            r == Instruction::ArmInstruction(spec_decode_arm(0)),
    {
        Instruction::ArmInstruction(decode_arm(0))
    }
}

impl Cpu {
    /// A core in system mode, ARM state, with every register zero, an empty
    /// pipeline and a fresh bus around the cartridge.
    pub fn new(cartridge: Cartridge) -> (r: Self)
        requires
            cartridge.wf(),
        ensures
            r.wf(),
            forall|i: int| 0 <= i < 16 ==> r.registers[i] == 0 && r.user_registers[i] == 0,
            forall|i: int| 0 <= i < 7 ==> r.fiq_registers[i] == 0,
            forall|i: int|
                0 <= i < 2 ==> r.svc_registers[i] == 0 && r.abt_registers[i] == 0 && r.irq_registers[i] == 0
                    && r.und_registers[i] == 0,
            r.spsr == 0 && r.spsr_fiq == 0 && r.spsr_svc == 0 && r.spsr_abt == 0 && r.spsr_irq == 0 && r.spsr_und == 0,
            r.cpsr == SYSTEM_MODE_BITS,
            r.mode() == CpuMode::System,
            !r.thumb(),
            r.cycle_count == 0,
            r.prefetch_opcode is None,
            r.pre_decode_arm is None,
            r.pre_decode_thumb is None,
            r.bus.is_power_on(cartridge),
    {
        let cpsr = SYSTEM_MODE_BITS;
        assert(!bit_of_u32(0b11111u32, 5)) by {
            crate::bits::lemma_bit_constants();
        }
        assert(0b11111u32 & 0x1Fu32 == 0b11111u32) by {
            crate::bits::lemma_bit_constants();
        }
        Cpu {
            registers: [0u32, 0u32, 0u32, 0u32, 0u32, 0u32, 0u32, 0u32, 0u32, 0u32, 0u32, 0u32, 0u32, 0u32, 0u32, 0u32],
            spsr: 0,
            user_registers: [0u32, 0u32, 0u32, 0u32, 0u32, 0u32, 0u32, 0u32, 0u32, 0u32, 0u32, 0u32, 0u32, 0u32, 0u32, 0u32],
            fiq_registers: [0u32, 0u32, 0u32, 0u32, 0u32, 0u32, 0u32],
            svc_registers: [0u32, 0u32],
            abt_registers: [0u32, 0u32],
            irq_registers: [0u32, 0u32],
            und_registers: [0u32, 0u32],
            spsr_fiq: 0,
            spsr_svc: 0,
            spsr_abt: 0,
            spsr_irq: 0,
            spsr_und: 0,
            cpsr,
            cycle_count: 0,
            bus: Bus::new(cartridge),
            prefetch_opcode: None,
            pre_decode_arm: None,
            pre_decode_thumb: None,
        }
    }

    pub fn cycle_count(&self) -> (r: u64)
        ensures
            r == self.cycle_count,
    {
        self.cycle_count
    }

    /// Whether an IRQ is to be taken before the next instruction.
    pub open spec fn irq_wanted(&self) -> bool {
        !self.flag(IRQ_DISABLE_BIT) && self.bus.irq_pending()
    }

    /// The core after the fetch stage in Thumb state: the halfword at R15
    /// fetched, the previously fetched one decoded.
    pub open spec fn thumb_fetched(self) -> Cpu {
        let pc = self.registers[15];
        Cpu {
            prefetch_opcode: Some(self.bus.fetching_from(pc).hword_at(pc) as u32),
            pre_decode_thumb: match self.prefetch_opcode {
                Some(p) => Some(spec_decode_thumb(p as u16)),
                None => None,
            },
            bus: self.bus.fetching_from(pc).after_hword_read(pc),
            ..self
        }
    }

    /// The core after the fetch stage in ARM state.
    pub open spec fn arm_fetched(self) -> Cpu {
        let pc = self.registers[15];
        Cpu {
            pre_decode_arm: decoded_arm(self.prefetch_opcode),
            prefetch_opcode: Some(self.bus.fetching_from(pc).word_at(pc)),
            bus: self.bus.fetching_from(pc).after_word_read(pc),
            ..self
        }
    }

    /// The cycles one call of `fetch_decode_execute` takes.
    pub open spec fn step_cycles(self) -> u64 {
        if self.thumb() {
            match self.pre_decode_thumb {
                Some(d) => if self.irq_wanted() {
                    1
                } else {
                    thumb_cycles_taken(d.instruction_type)
                },
                None => 1,
            }
        } else {
            1
        }
    }

    /// `after` agrees with `x` but for the bus and the cycle count.
    pub open spec fn same_but_bus(after: Cpu, x: Cpu) -> bool {
        after == Cpu { bus: after.bus, cycle_count: after.cycle_count, ..x }
    }

    /// `after` is `x` with its bus run for `cycles` cycles (and the cycle
    /// count moved on).
    pub open spec fn ran(after: Cpu, x: Cpu, cycles: u64) -> bool {
        &&& Cpu::same_but_bus(after, x)
        &&& bus_ran(x.bus, after.bus, cycles as nat)
    }

    /// One step: the pipeline advances; with a decoded instruction ready,
    /// either a pending IRQ is taken or the instruction executes; then the
    /// bus runs for the cycles taken.
    pub open spec fn stepped(self, after: Cpu) -> bool {
        if self.thumb() {
            let mid = self.thumb_fetched();
            match self.pre_decode_thumb {
                Some(d) => if self.irq_wanted() {
                    exists|x: Cpu| mid.exception_effect(x, ExceptionType::InterruptRequest) && Cpu::ran(after, x, self.step_cycles())
                } else {
                    exists|x: Cpu| mid.thumb_executed(x, d.instruction_type) && Cpu::ran(after, x, self.step_cycles())
                },
                None => {
                    &&& after.registers@ == self.registers@.update(15, self.thumb_next_pc())
                    &&& Cpu::ran(after, Cpu { registers: after.registers, ..mid }, self.step_cycles())
                },
            }
        } else {
            match self.pre_decode_arm {
                Some(d) => if self.irq_wanted() {
                    exists|x: Cpu| self.arm_fetched().exception_effect(x, ExceptionType::InterruptRequest) && Cpu::ran(after, x, self.step_cycles())
                } else {
                    exists|x: Cpu| self.arm_executed(x, d) && Cpu::ran(after, x, self.step_cycles())
                },
                None => {
                    &&& after.registers@ == self.registers@.update(15, advanced_pc(false, self.registers[15], 4))
                    &&& Cpu::ran(after, Cpu { registers: after.registers, ..self.arm_fetched() }, self.step_cycles())
                },
            }
        }
    }

    /// One step of the core: the pipeline stage, the instruction or a
    /// pending IRQ, then the bus run for the cycles the step takes. A Thumb
    /// instruction takes its internal, non-sequential and sequential cycles
    /// (at least one); an ARM step counts one cycle, as no cycle table is
    /// given for ARM instructions. Either way a step takes 1 to 255 cycles.
    pub fn fetch_decode_execute(&mut self)
        requires
            old(self).wf(),
        ensures
            final(self).wf(),
            old(self).stepped(*final(self)),
            1 <= old(self).step_cycles() <= 255,
            final(self).cycle_count == old(self).cycle_count.wrapping_add(old(self).step_cycles()),
    {
        let ghost start = *self;
        proof {
            lemma_step_cycles_bounded(start);
        }
        let count = self.cycle_count;
        let irq_wanted = !self.get_irq_disable() && self.bus.get_irq_pending();
        let cycles_taken: u32 = match self.get_instruction_mode() {
            InstructionSet::Arm => {
                match self.pre_decode_arm {
                    Some(decoded) => {
                        if irq_wanted {
                            let _ = self.arm_prefetch();
                            self.handle_exception(ExceptionType::InterruptRequest);
                        } else {
                            self.execute_arm(decoded);
                        }
                    },
                    None => {
                        let old_pc = self.arm_prefetch();
                        self.arm_advance(old_pc);
                    },
                }
                1
            },
            InstructionSet::Thumb => {
                let pc = self.read_register(Register::R15, PcCalculation::Identity);
                let decoded_instruction = self.pre_decode_thumb;
                let prefetched_opcode = self.prefetch_opcode;
                let fetched = self.bus.fetch_thumb_opcode(pc);
                self.prefetch_opcode = Some(fetched as u32);
                self.pre_decode_thumb = match prefetched_opcode {
                    Some(prefetch) => Some(decode_thumb(prefetch as u16)),
                    None => None,
                };
                assert(*self == start.thumb_fetched());
                match decoded_instruction {
                    Some(decoded) => {
                        if irq_wanted {
                            self.handle_exception(ExceptionType::InterruptRequest);
                            1
                        } else {
                            self.execute_thumb(decoded);
                            let t = decoded.instruction_type();
                            let invalid = match t {
                                ThumbInstructionType::Invalid { .. } => true,
                                _ => false,
                            };
                            if invalid {
                                1
                            } else {
                                let info = t.cycles_info();
                                let total: u32 = info.i as u32 + info.n as u32 + info.s as u32;
                                if total == 0 {
                                    1
                                } else {
                                    total
                                }
                            }
                        }
                    },
                    None => {
                        self.advance_pc_for_thumb_instruction();
                        1
                    },
                }
            },
        };
        let ghost executed = *self;
        assert(cycles_taken == start.step_cycles());
        let ghost mut chain: Seq<Bus> = seq![self.bus];
        let mut k: u32 = 0;
        while k < cycles_taken
            invariant
                self.wf(),
                k <= cycles_taken,
                *self == (Cpu { bus: self.bus, ..executed }),
                bus_cycles(executed.bus, self.bus, k as nat, chain),
            decreases cycles_taken - k,
        {
            let ghost before = self.bus;
            self.bus.step();
            proof {
                assert(bus_cycled(before, self.bus));
                let next = chain.push(self.bus);
                assert forall|j: int| 0 <= j < k + 1 implies #[trigger] bus_cycled(next[j], next[j + 1]) by {
                    if j < k {
                        assert(next[j] == chain[j] && next[j + 1] == chain[j + 1]);
                    }
                }
                chain = next;
            }
            k = k + 1;
        }
        self.cycle_count = count.wrapping_add(cycles_taken as u64);
        assert(Cpu::same_but_bus(*self, executed));
        assert(bus_ran(executed.bus, self.bus, cycles_taken as nat));
        assert(Cpu::ran(*self, executed, start.step_cycles()));
        proof {
            if start.thumb() && start.pre_decode_thumb is Some && start.irq_wanted() {
                assert(start.thumb_fetched().exception_effect(executed, ExceptionType::InterruptRequest));
            }
        }
    }

    /// Whether the pipeline is in a state execution leaves it in: nothing
    /// decoded without a fetched opcode behind it.
    pub open spec fn pipeline_consistent(&self) -> bool {
        self.prefetch_opcode is None ==> (if self.thumb() {
            self.pre_decode_thumb is None
        } else {
            self.pre_decode_arm is None
        })
    }

    /// The disassembly of the instruction at `address` in the current state
    /// (the read goes through the bus like any other).
    pub fn disassemble(&mut self, address: u32) -> (r: Instruction)
        requires
            old(self).wf(),
        ensures
            final(self).wf(),
            !old(self).thumb() ==> r == Instruction::ArmInstruction(spec_decode_arm(old(self).bus.word_at(address)))
                && *final(self) == (Cpu { bus: old(self).bus.after_word_read(address), ..*old(self) }),
            old(self).thumb() ==> r == Instruction::ThumbInstruction(spec_decode_thumb(old(self).bus.hword_at(address)))
                && *final(self) == (Cpu { bus: old(self).bus.after_hword_read(address), ..*old(self) }),
    {
        match self.get_instruction_mode() {
            InstructionSet::Arm => {
                let opcode = self.bus.read_word_address(address);
                Instruction::ArmInstruction(decode_arm(opcode))
            },
            InstructionSet::Thumb => {
                let opcode = self.bus.read_halfword_address(address);
                Instruction::ThumbInstruction(decode_thumb(opcode))
            },
        }
    }

    /// The width of an instruction in the current state: 4 bytes in ARM
    /// state, 2 in Thumb state.
    pub fn get_instruction_width(&self) -> (r: u32)
        ensures
            r == (if self.thumb() {
                2u32
            } else {
                4u32
            }),
    {
        match self.get_instruction_mode() {
            InstructionSet::Arm => 4,
            InstructionSet::Thumb => 2,
        }
    }

    /// The address of the instruction being executed: R15 less one
    /// instruction for each filled pipeline stage.
    pub fn get_executing_pc(&self) -> (r: u32)
        requires
            self.pipeline_consistent(),
        ensures
            r == wsub(
                self.registers[15],
                ((if self.prefetch_opcode is None {
                    0u32
                } else if (if self.thumb() {
                    self.pre_decode_thumb is Some
                } else {
                    self.pre_decode_arm is Some
                }) {
                    2u32
                } else {
                    1u32
                }) * (if self.thumb() {
                    2u32
                } else {
                    4u32
                })) as u32,
            ),
    {
        let r15 = self.read_register(Register::R15, PcCalculation::Identity);
        let prefetch_saturated = self.prefetch_opcode.is_some();
        let decode_saturated = match self.get_instruction_mode() {
            InstructionSet::Arm => self.pre_decode_arm.is_some(),
            InstructionSet::Thumb => self.pre_decode_thumb.is_some(),
        };
        let instructions_behind: u32 = if !prefetch_saturated {
            0
        } else if decode_saturated {
            2
        } else {
            1
        };
        let bytes_behind = instructions_behind * self.get_instruction_width();
        r15.wrapping_sub(bytes_behind)
    }
}

} // verus!
