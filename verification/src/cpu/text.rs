use vstd::prelude::*;
use vstd::string::*;

use super::arm::{
    AluOperation, AluSecondOperandInfo, ArmInstruction, ArmInstructionType, ArmRegisterOrImmediate,
    BlockDataTransferIndexType, MsrSourceInfo, MultiplyOperation, OffsetModifierType, PsrTransferPsr,
    SingleDataMemoryAccessSize, SingleDataTransferIndexType, SingleDataTransferOffsetInfo, SingleDataTransferOffsetValue,
    SwpAccessSize,
};
use super::thumb::{
    ThumbHighRegisterOperation, ThumbInstruction, ThumbInstructionType, ThumbLoadStoreDataSize, ThumbRegisterOperation,
    ThumbRegisterOrImmediate,
};
use super::{rotate_right, rotate_right_spec, Cpu, Instruction, InstructionCondition, Register, ShiftType};
use crate::bits::{bit_of_u16, get_bit_u16};

verus! {

/// `String::push`: appends one character to the string.
#[verifier::external_body]
fn push_char(s: &mut String, c: char)
    ensures
        final(s)@ == old(s)@.push(c),
{
    s.push(c);
}

/// Appends a piece of text.
pub(crate) fn push_str(s: &mut String, piece: &str)
    ensures
        final(s)@ == old(s)@ + piece@,
{
    s.append(piece);
}

/// The character of a digit below 16, in upper or lower case.
pub open spec fn digit_char(d: nat, upper: bool) -> char {
    if d == 0 {
        '0'
    } else if d == 1 {
        '1'
    } else if d == 2 {
        '2'
    } else if d == 3 {
        '3'
    } else if d == 4 {
        '4'
    } else if d == 5 {
        '5'
    } else if d == 6 {
        '6'
    } else if d == 7 {
        '7'
    } else if d == 8 {
        '8'
    } else if d == 9 {
        '9'
    } else if d == 10 {
        if upper {
            'A'
        } else {
            'a'
        }
    } else if d == 11 {
        if upper {
            'B'
        } else {
            'b'
        }
    } else if d == 12 {
        if upper {
            'C'
        } else {
            'c'
        }
    } else if d == 13 {
        if upper {
            'D'
        } else {
            'd'
        }
    } else if d == 14 {
        if upper {
            'E'
        } else {
            'e'
        }
    } else {
        if upper {
            'F'
        } else {
            'f'
        }
    }
}

fn digit(d: u32, upper: bool) -> (c: char)
    requires
        d < 16,
    ensures
        c == digit_char(d as nat, upper),
{
    match d {
        0 => '0',
        1 => '1',
        2 => '2',
        3 => '3',
        4 => '4',
        5 => '5',
        6 => '6',
        7 => '7',
        8 => '8',
        9 => '9',
        10 => if upper {
            'A'
        } else {
            'a'
        },
        11 => if upper {
            'B'
        } else {
            'b'
        },
        12 => if upper {
            'C'
        } else {
            'c'
        },
        13 => if upper {
            'D'
        } else {
            'd'
        },
        14 => if upper {
            'E'
        } else {
            'e'
        },
        _ => if upper {
            'F'
        } else {
            'f'
        },
    }
}

/// A number in decimal, without leading zeros.
pub open spec fn decimal_text(n: nat) -> Seq<char>
    decreases n,
{
    if n < 10 {
        seq![digit_char(n, false)]
    } else {
        decimal_text(n / 10).push(digit_char(n % 10, false))
    }
}

pub(crate) fn push_decimal(s: &mut String, n: u32)
    ensures
        final(s)@ == old(s)@ + decimal_text(n as nat),
    decreases n,
{
    if n >= 10 {
        push_decimal(s, n / 10);
    }
    push_char(s, digit(n % 10, false));
    proof {
        if n >= 10 {
            assert(final(s)@ =~= old(s)@ + decimal_text(n as nat));
        } else {
            assert(final(s)@ =~= old(s)@ + decimal_text(n as nat));
        }
    }
}

/// The lowest `digits` hexadecimal digits of a number, most significant
/// first.
pub open spec fn hex_text(v: nat, digits: nat, upper: bool) -> Seq<char>
    decreases digits,
{
    if digits == 0 {
        seq![]
    } else {
        hex_text(v / 16, (digits - 1) as nat, upper).push(digit_char(v % 16, upper))
    }
}

pub(crate) fn push_hex(s: &mut String, v: u32, digits: u32, upper: bool)
    ensures
        final(s)@ == old(s)@ + hex_text(v as nat, digits as nat, upper),
    decreases digits,
{
    if digits > 0 {
        push_hex(s, v / 16, digits - 1, upper);
        push_char(s, digit(v % 16, upper));
        assert(final(s)@ =~= old(s)@ + hex_text(v as nat, digits as nat, upper));
    } else {
        assert(final(s)@ =~= old(s)@ + hex_text(v as nat, digits as nat, upper));
    }
}

pub open spec fn register_text(r: Register) -> Seq<char> {
    match r {
        Register::R0 => "r0"@,
        Register::R1 => "r1"@,
        Register::R2 => "r2"@,
        Register::R3 => "r3"@,
        Register::R4 => "r4"@,
        Register::R5 => "r5"@,
        Register::R6 => "r6"@,
        Register::R7 => "r7"@,
        Register::R8 => "r8"@,
        Register::R9 => "r9"@,
        Register::R10 => "r10"@,
        Register::R11 => "r11"@,
        Register::R12 => "r12"@,
        Register::R13 => "sp"@,
        Register::R14 => "lr"@,
        Register::R15 => "pc"@,
        Register::Cpsr => "cpsr"@,
        Register::Spsr => "spsr"@,
    }
}

pub(crate) fn register_str(r: Register) -> (s: &'static str)
    ensures
        s@ == register_text(r),
{
    match r {
        Register::R0 => "r0",
        Register::R1 => "r1",
        Register::R2 => "r2",
        Register::R3 => "r3",
        Register::R4 => "r4",
        Register::R5 => "r5",
        Register::R6 => "r6",
        Register::R7 => "r7",
        Register::R8 => "r8",
        Register::R9 => "r9",
        Register::R10 => "r10",
        Register::R11 => "r11",
        Register::R12 => "r12",
        Register::R13 => "sp",
        Register::R14 => "lr",
        Register::R15 => "pc",
        Register::Cpsr => "cpsr",
        Register::Spsr => "spsr",
    }
}

impl Register {
    /// The assembler name: r0-r12, sp, lr, pc, cpsr, spsr.
    pub fn to_string(&self) -> (r: String)
        ensures
            r@ == register_text(*self),
    {
        let mut s = String::new();
        push_str(&mut s, register_str(*self));
        assert(s@ =~= register_text(*self));
        s
    }
}

/// The condition suffix: empty for "always".
pub open spec fn condition_text(c: InstructionCondition) -> Seq<char> {
    match c {
        InstructionCondition::Equal => "eq"@,
        InstructionCondition::NotEqual => "ne"@,
        InstructionCondition::UnsignedHigherOrSame => "cs"@,
        InstructionCondition::UnsignedLower => "cc"@,
        InstructionCondition::SignedNegative => "mi"@,
        InstructionCondition::SignedPositiveOrZero => "pl"@,
        InstructionCondition::SignedOverflow => "vs"@,
        InstructionCondition::SignedNoOverflow => "vc"@,
        InstructionCondition::UnsignedHigher => "hi"@,
        InstructionCondition::UnsignedLowerOrSame => "ls"@,
        InstructionCondition::SignedGreaterOrEqual => "ge"@,
        InstructionCondition::SignedLessThan => "lt"@,
        InstructionCondition::SignedGreaterThan => "gt"@,
        InstructionCondition::SignedLessOrEqual => "le"@,
        InstructionCondition::Always => ""@,
        InstructionCondition::Never => "_NEVER"@,
    }
}

pub(crate) fn condition_str(c: InstructionCondition) -> (s: &'static str)
    ensures
        s@ == condition_text(c),
{
    match c {
        InstructionCondition::Equal => "eq",
        InstructionCondition::NotEqual => "ne",
        InstructionCondition::UnsignedHigherOrSame => "cs",
        InstructionCondition::UnsignedLower => "cc",
        InstructionCondition::SignedNegative => "mi",
        InstructionCondition::SignedPositiveOrZero => "pl",
        InstructionCondition::SignedOverflow => "vs",
        InstructionCondition::SignedNoOverflow => "vc",
        InstructionCondition::UnsignedHigher => "hi",
        InstructionCondition::UnsignedLowerOrSame => "ls",
        InstructionCondition::SignedGreaterOrEqual => "ge",
        InstructionCondition::SignedLessThan => "lt",
        InstructionCondition::SignedGreaterThan => "gt",
        InstructionCondition::SignedLessOrEqual => "le",
        InstructionCondition::Always => "",
        InstructionCondition::Never => "_NEVER",
    }
}

pub open spec fn shift_text(t: ShiftType) -> Seq<char> {
    match t {
        ShiftType::Lsl => "lsl"@,
        ShiftType::Lsr => "lsr"@,
        ShiftType::Asr => "asr"@,
        ShiftType::Ror => "ror"@,
    }
}

pub(crate) fn shift_str(t: ShiftType) -> (s: &'static str)
    ensures
        s@ == shift_text(t),
{
    match t {
        ShiftType::Lsl => "lsl",
        ShiftType::Lsr => "lsr",
        ShiftType::Asr => "asr",
        ShiftType::Ror => "ror",
    }
}

/// ", " when something was printed before.
pub open spec fn separator(printed: bool) -> Seq<char> {
    if printed {
        ", "@
    } else {
        seq![]
    }
}

/// A run of consecutive registers `start` to `end - 1`: "rN", "rN-rM", or
/// nothing for an empty run.
pub open spec fn run_text(start: nat, end: nat, printed: bool) -> Seq<char> {
    if end == start + 1 {
        separator(printed) + "r"@ + decimal_text(start)
    } else if end > start + 1 {
        separator(printed) + "r"@ + decimal_text(start) + "-r"@ + decimal_text((end - 1) as nat)
    } else {
        seq![]
    }
}

/// The last run of a list. With `lone_last_shown` false a last run of one
/// register prints only its separator.
pub open spec fn last_run_text(start: nat, end: nat, printed: bool, lone_last_shown: bool) -> Seq<char> {
    if end == start + 1 && !lone_last_shown {
        separator(printed)
    } else {
        run_text(start, end, printed)
    }
}

/// The text of a register list from bit `idx` on, the current run having
/// started at `start`: runs of listed registers separated by ", ".
pub open spec fn list_text_from(
    list: u16,
    len: nat,
    idx: nat,
    start: nat,
    printed: bool,
    lone_last_shown: bool,
) -> Seq<char>
    decreases len - idx,
{
    if idx >= len {
        last_run_text(start, len, printed, lone_last_shown)
    } else if bit_of_u16(list, idx as u16) {
        list_text_from(list, len, idx + 1, start, printed, lone_last_shown)
    } else {
        run_text(start, idx, printed) + list_text_from(list, len, idx + 1, idx + 1, printed || idx > start, lone_last_shown)
    }
}

/// The text of the first `len` registers of a list.
pub open spec fn list_text(list: u16, len: nat, lone_last_shown: bool) -> Seq<char> {
    list_text_from(list, len, 0, 0, false, lone_last_shown)
}

fn push_separator(s: &mut String, printed: bool)
    ensures
        final(s)@ == old(s)@ + separator(printed),
{
    if printed {
        push_str(s, ", ");
    } else {
        assert(s@ =~= s@ + separator(printed));
    }
}

fn push_run(s: &mut String, start: u16, end: u16, printed: bool)
    requires
        start <= end <= 16,
    ensures
        final(s)@ == old(s)@ + run_text(start as nat, end as nat, printed),
{
    if end == start + 1 {
        push_separator(s, printed);
        push_str(s, "r");
        push_decimal(s, start as u32);
        assert(final(s)@ =~= old(s)@ + run_text(start as nat, end as nat, printed));
    } else if end > start + 1 {
        push_separator(s, printed);
        push_str(s, "r");
        push_decimal(s, start as u32);
        push_str(s, "-r");
        push_decimal(s, (end - 1) as u32);
        assert(final(s)@ =~= old(s)@ + run_text(start as nat, end as nat, printed));
    } else {
        assert(final(s)@ =~= old(s)@ + run_text(start as nat, end as nat, printed));
    }
}

/// Appends the text of the first `len` registers of a list.
pub(crate) fn push_register_list(s: &mut String, list: u16, len: u16, lone_last_shown: bool)
    requires
        len <= 16,
    ensures
        final(s)@ == old(s)@ + list_text(list, len as nat, lone_last_shown),
{
    let ghost whole = list_text(list, len as nat, lone_last_shown);
    let mut start: u16 = 0;
    let mut printed = false;
    let mut idx: u16 = 0;
    assert(s@ + list_text_from(list, len as nat, 0, 0, false, lone_last_shown) =~= old(s)@ + whole);
    while idx < len
        invariant
            idx <= len <= 16,
            start <= idx,
            whole == list_text(list, len as nat, lone_last_shown),
            s@ + list_text_from(list, len as nat, idx as nat, start as nat, printed, lone_last_shown) == old(s)@ + whole,
        decreases len - idx,
    {
        let ghost before = s@;
        if !get_bit_u16(list, idx) {
            push_run(s, start, idx, printed);
            assert(s@ + list_text_from(list, len as nat, (idx + 1) as nat, (idx + 1) as nat, printed || idx > start, lone_last_shown)
                =~= before + list_text_from(list, len as nat, idx as nat, start as nat, printed, lone_last_shown));
            if idx > start {
                printed = true;
            }
            start = idx + 1;
        }
        idx = idx + 1;
    }
    let ghost before = s@;
    if len == start + 1 && !lone_last_shown {
        push_separator(s, printed);
    } else {
        push_run(s, start, len, printed);
    }
    assert(s@ =~= before + last_run_text(start as nat, len as nat, printed, lone_last_shown));
    assert(s@ =~= old(s)@ + whole);
}


pub open spec fn alu_operation_text(op: AluOperation) -> Seq<char> {
    match op {
        AluOperation::And => "and"@,
        AluOperation::Eor => "eor"@,
        AluOperation::Sub => "sub"@,
        AluOperation::Rsb => "rsb"@,
        AluOperation::Add => "add"@,
        AluOperation::Adc => "adc"@,
        AluOperation::Sbc => "sbc"@,
        AluOperation::Rsc => "rsc"@,
        AluOperation::Tst => "tst"@,
        AluOperation::Teq => "teq"@,
        AluOperation::Cmp => "cmp"@,
        AluOperation::Cmn => "cmn"@,
        AluOperation::Orr => "orr"@,
        AluOperation::Mov => "mov"@,
        AluOperation::Bic => "bic"@,
        AluOperation::Mvn => "mvn"@,
    }
}

fn alu_operation_str(op: AluOperation) -> (s: &'static str)
    ensures
        s@ == alu_operation_text(op),
{
    match op {
        AluOperation::And => "and",
        AluOperation::Eor => "eor",
        AluOperation::Sub => "sub",
        AluOperation::Rsb => "rsb",
        AluOperation::Add => "add",
        AluOperation::Adc => "adc",
        AluOperation::Sbc => "sbc",
        AluOperation::Rsc => "rsc",
        AluOperation::Tst => "tst",
        AluOperation::Teq => "teq",
        AluOperation::Cmp => "cmp",
        AluOperation::Cmn => "cmn",
        AluOperation::Orr => "orr",
        AluOperation::Mov => "mov",
        AluOperation::Bic => "bic",
        AluOperation::Mvn => "mvn",
    }
}

pub open spec fn psr_text(psr: PsrTransferPsr) -> Seq<char> {
    match psr {
        PsrTransferPsr::Cpsr => "cpsr"@,
        PsrTransferPsr::Spsr => "spsr"@,
    }
}

fn psr_str(psr: PsrTransferPsr) -> (s: &'static str)
    ensures
        s@ == psr_text(psr),
{
    match psr {
        PsrTransferPsr::Cpsr => "cpsr",
        PsrTransferPsr::Spsr => "spsr",
    }
}

/// Text that is `piece` when `b` holds and empty otherwise.
pub open spec fn when(b: bool, piece: Seq<char>) -> Seq<char> {
    if b {
        piece
    } else {
        seq![]
    }
}

fn push_when(s: &mut String, b: bool, piece: &str)
    ensures
        final(s)@ == old(s)@ + when(b, piece@),
{
    if b {
        push_str(s, piece);
    } else {
        assert(s@ =~= s@ + when(b, piece@));
    }
}

pub open spec fn arm_register_or_immediate_text(v: ArmRegisterOrImmediate) -> Seq<char> {
    match v {
        ArmRegisterOrImmediate::Immediate(value) => "#"@ + decimal_text(value as nat),
        ArmRegisterOrImmediate::Register(register) => register_text(register),
    }
}

fn push_arm_register_or_immediate(s: &mut String, v: ArmRegisterOrImmediate)
    ensures
        final(s)@ == old(s)@ + arm_register_or_immediate_text(v),
{
    match v {
        ArmRegisterOrImmediate::Immediate(value) => {
            push_str(s, "#");
            push_decimal(s, value);
        },
        ArmRegisterOrImmediate::Register(register) => push_str(s, register_str(register)),
    }
    assert(final(s)@ =~= old(s)@ + arm_register_or_immediate_text(v));
}

/// The second operand: "rM, <shift> <amount>" or "#<rotated immediate>".
pub open spec fn alu_second_text(info: AluSecondOperandInfo) -> Seq<char> {
    match info {
        AluSecondOperandInfo::Register { register, shift_info, shift_type } => register_text(register) + ", "@ + shift_text(
            shift_type,
        ) + " "@ + arm_register_or_immediate_text(shift_info),
        AluSecondOperandInfo::Immediate { base, shift } => "#"@ + decimal_text(rotate_right_spec(base, shift % 32) as nat),
    }
}

fn push_alu_second(s: &mut String, info: AluSecondOperandInfo)
    ensures
        final(s)@ == old(s)@ + alu_second_text(info),
{
    match info {
        AluSecondOperandInfo::Register { register, shift_info, shift_type } => {
            push_str(s, register_str(register));
            push_str(s, ", ");
            push_str(s, shift_str(shift_type));
            push_str(s, " ");
            push_arm_register_or_immediate(s, shift_info);
        },
        AluSecondOperandInfo::Immediate { base, shift } => {
            push_str(s, "#");
            push_decimal(s, rotate_right(base, shift % 32));
        },
    }
    assert(final(s)@ =~= old(s)@ + alu_second_text(info));
}

/// A transfer offset: "#[-]n", "[-]rM" or "[-]rM, <shift> #n".
pub open spec fn offset_info_text(info: SingleDataTransferOffsetInfo) -> Seq<char> {
    match info.value {
        SingleDataTransferOffsetValue::Immediate { offset } => "#"@ + when(info.sign, "-"@) + decimal_text(offset as nat),
        SingleDataTransferOffsetValue::Register { offset_register } => when(info.sign, "-"@) + register_text(
            offset_register,
        ),
        SingleDataTransferOffsetValue::RegisterImmediate { offset_register, shift_amount, shift_type } => when(
            info.sign,
            "-"@,
        ) + register_text(offset_register) + ", "@ + shift_text(shift_type) + " #"@ + decimal_text(shift_amount as nat),
    }
}

fn push_offset_info(s: &mut String, info: SingleDataTransferOffsetInfo)
    ensures
        final(s)@ == old(s)@ + offset_info_text(info),
{
    match info.value {
        SingleDataTransferOffsetValue::Immediate { offset } => {
            push_str(s, "#");
            push_when(s, info.sign, "-");
            push_decimal(s, offset);
        },
        SingleDataTransferOffsetValue::Register { offset_register } => {
            push_when(s, info.sign, "-");
            push_str(s, register_str(offset_register));
        },
        SingleDataTransferOffsetValue::RegisterImmediate { offset_register, shift_amount, shift_type } => {
            push_when(s, info.sign, "-");
            push_str(s, register_str(offset_register));
            push_str(s, ", ");
            push_str(s, shift_str(shift_type));
            push_str(s, " #");
            push_decimal(s, shift_amount);
        },
    }
    assert(final(s)@ =~= old(s)@ + offset_info_text(info));
}

/// The addressing part of a single transfer: "[rN, off]" with "!" for
/// write-back, or "[rN], off" post-indexed.
pub open spec fn transfer_address_text(
    index_type: SingleDataTransferIndexType,
    base_register: Register,
    offset_info: SingleDataTransferOffsetInfo,
) -> Seq<char> {
    match index_type {
        SingleDataTransferIndexType::PreIndex { write_back } => "["@ + register_text(base_register) + ", "@
            + offset_info_text(offset_info) + "]"@ + when(write_back, "!"@),
        SingleDataTransferIndexType::PostIndex { .. } => "["@ + register_text(base_register) + "], "@ + offset_info_text(
            offset_info,
        ),
    }
}

fn push_transfer_address(
    s: &mut String,
    index_type: SingleDataTransferIndexType,
    base_register: Register,
    offset_info: SingleDataTransferOffsetInfo,
)
    ensures
        final(s)@ == old(s)@ + transfer_address_text(index_type, base_register, offset_info),
{
    match index_type {
        SingleDataTransferIndexType::PreIndex { write_back } => {
            push_str(s, "[");
            push_str(s, register_str(base_register));
            push_str(s, ", ");
            push_offset_info(s, offset_info);
            push_str(s, "]");
            push_when(s, write_back, "!");
        },
        SingleDataTransferIndexType::PostIndex { .. } => {
            push_str(s, "[");
            push_str(s, register_str(base_register));
            push_str(s, "], ");
            push_offset_info(s, offset_info);
        },
    }
    assert(final(s)@ =~= old(s)@ + transfer_address_text(index_type, base_register, offset_info));
}

pub open spec fn access_size_text(size: SingleDataMemoryAccessSize) -> Seq<char> {
    match size {
        SingleDataMemoryAccessSize::Byte => "b"@,
        SingleDataMemoryAccessSize::HalfWord => "h"@,
        SingleDataMemoryAccessSize::Word => ""@,
        SingleDataMemoryAccessSize::DoubleWord => "d"@,
    }
}

fn access_size_str(size: SingleDataMemoryAccessSize) -> (s: &'static str)
    ensures
        s@ == access_size_text(size),
{
    match size {
        SingleDataMemoryAccessSize::Byte => "b",
        SingleDataMemoryAccessSize::HalfWord => "h",
        SingleDataMemoryAccessSize::Word => "",
        SingleDataMemoryAccessSize::DoubleWord => "d",
    }
}

pub open spec fn msr_source_text(info: MsrSourceInfo) -> Seq<char> {
    match info {
        MsrSourceInfo::Register(register) => register_text(register),
        MsrSourceInfo::Immediate { value } => "#"@ + decimal_text(value as nat),
    }
}

/// The block transfer suffix and operands: i/d, b/a, the base with "!"
/// for write-back, the register list and "^" for user-mode registers.
pub open spec fn block_text(
    index_type: BlockDataTransferIndexType,
    offset_modifier: OffsetModifierType,
    write_back: bool,
    base_register: Register,
    register_list: u16,
    force_user_mode: bool,
) -> Seq<char> {
    (if offset_modifier == OffsetModifierType::AddToBase {
        "i"@
    } else {
        "d"@
    }) + (if index_type == BlockDataTransferIndexType::PreIndex {
        "b"@
    } else {
        "a"@
    }) + " "@ + register_text(base_register) + when(write_back, "!"@) + " {"@ + list_text(register_list, 16, true) + "}"@
        + when(force_user_mode, "^"@)
}

#[verifier::rlimit(40)]
fn push_block(
    s: &mut String,
    index_type: BlockDataTransferIndexType,
    offset_modifier: OffsetModifierType,
    write_back: bool,
    base_register: Register,
    register_list: u16,
    force_user_mode: bool,
)
    ensures
        final(s)@ == old(s)@ + block_text(
            index_type,
            offset_modifier,
            write_back,
            base_register,
            register_list,
            force_user_mode,
        ),
{
    if offset_modifier == OffsetModifierType::AddToBase {
        push_str(s, "i");
    } else {
        push_str(s, "d");
    }
    if index_type == BlockDataTransferIndexType::PreIndex {
        push_str(s, "b");
    } else {
        push_str(s, "a");
    }
    push_str(s, " ");
    push_str(s, register_str(base_register));
    push_when(s, write_back, "!");
    push_str(s, " {");
    let ghost head = s@;
    assert(head =~= old(s)@ + ((if offset_modifier == OffsetModifierType::AddToBase {
        "i"@
    } else {
        "d"@
    }) + (if index_type == BlockDataTransferIndexType::PreIndex {
        "b"@
    } else {
        "a"@
    }) + " "@ + register_text(base_register) + when(write_back, "!"@) + " {"@));
    push_register_list(s, register_list, 16, true);
    push_str(s, "}");
    push_when(s, force_user_mode, "^");
    assert(s@ =~= head + (list_text(register_list, 16, true) + "}"@ + when(force_user_mode, "^"@)));
    assert(final(s)@ =~= old(s)@ + block_text(
        index_type,
        offset_modifier,
        write_back,
        base_register,
        register_list,
        force_user_mode,
    ));
}

/// The assembler text of an ARM instruction.
pub open spec fn arm_text(instruction: ArmInstruction) -> Seq<char> {
    let cond = condition_text(instruction.condition);
    match instruction.instruction_type {
        ArmInstructionType::Alu { operation, set_conditions, first_operand, second_operand, destination_operand } => {
            let head = alu_operation_text(operation) + when(set_conditions, "s"@) + cond + " "@;
            if operation == AluOperation::Tst || operation == AluOperation::Teq || operation == AluOperation::Cmp
                || operation == AluOperation::Cmn {
                head + register_text(first_operand) + ", "@ + alu_second_text(second_operand)
            } else if operation == AluOperation::Mov || operation == AluOperation::Mvn {
                head + register_text(destination_operand) + ", "@ + alu_second_text(second_operand)
            } else {
                head + register_text(destination_operand) + ", "@ + register_text(first_operand) + ", "@ + alu_second_text(
                    second_operand,
                )
            }
        },
        ArmInstructionType::B { offset } => "b"@ + cond + " 0x"@ + hex_text(offset as u32 as nat, 8, true),
        ArmInstructionType::Bl { offset } => "bl"@ + cond + " 0x"@ + hex_text(offset as u32 as nat, 8, true),
        ArmInstructionType::Bx { operand } => "bx"@ + cond + " "@ + register_text(operand),
        ArmInstructionType::Ldr {
            access_size,
            base_register,
            destination_register,
            index_type,
            offset_info,
            sign_extend,
        } => "ldr"@ + cond + when(sign_extend, "s"@) + access_size_text(access_size) + " "@ + register_text(
            destination_register,
        ) + ", "@ + transfer_address_text(index_type, base_register, offset_info),
        ArmInstructionType::Str { access_size, base_register, source_register, index_type, offset_info } => "str"@
            + cond + access_size_text(access_size) + " "@ + register_text(source_register) + ", "@ + transfer_address_text(
            index_type,
            base_register,
            offset_info,
        ),
        ArmInstructionType::Mrs { destination_register, source_psr } => "mrs"@ + cond + " "@ + register_text(
            destination_register,
        ) + ", "@ + psr_text(source_psr),
        ArmInstructionType::Msr {
            destination_psr,
            write_flags_field,
            write_status_field,
            write_extension_field,
            write_control_field,
            source_info,
        } => "msr"@ + cond + " "@ + psr_text(destination_psr) + when(
            write_flags_field || write_status_field || write_extension_field || write_control_field,
            "_"@,
        ) + when(write_control_field, "c"@) + when(write_flags_field, "f"@) + when(write_status_field, "s"@) + when(
            write_extension_field,
            "x"@,
        ) + ", "@ + msr_source_text(source_info),
        ArmInstructionType::Stm {
            base_register,
            index_type,
            offset_modifier,
            register_list,
            write_back,
            force_user_mode,
        } => "stm"@ + cond + block_text(index_type, offset_modifier, write_back, base_register, register_list, force_user_mode),
        ArmInstructionType::Ldm {
            base_register,
            index_type,
            offset_modifier,
            register_list,
            write_back,
            force_user_mode,
        } => "ldm"@ + cond + block_text(index_type, offset_modifier, write_back, base_register, register_list, force_user_mode),
        ArmInstructionType::Mul {
            accumulate_register,
            destination_register,
            operand_register_rm,
            operand_register_rs,
            operation,
            ..
        } => match operation {
            MultiplyOperation::Mul => "mul"@ + cond + " "@ + register_text(destination_register) + ", "@ + register_text(
                operand_register_rm,
            ) + ", "@ + register_text(operand_register_rs),
            MultiplyOperation::Mla => "mla"@ + cond + " "@ + register_text(destination_register) + ", "@ + register_text(
                operand_register_rm,
            ) + ", "@ + register_text(operand_register_rs) + ", "@ + register_text(accumulate_register),
            MultiplyOperation::Umaal => "umaal TODO"@,
            _ => (if operation == MultiplyOperation::Umull {
                "umull"@
            } else if operation == MultiplyOperation::Umlal {
                "umlal"@
            } else if operation == MultiplyOperation::Smull {
                "smull"@
            } else {
                "smlal"@
            }) + cond + " "@ + register_text(accumulate_register) + ", "@ + register_text(destination_register) + ", "@
                + register_text(operand_register_rm) + ", "@ + register_text(operand_register_rs),
        },
        ArmInstructionType::Swi { comment } => "swi #"@ + decimal_text(comment as nat),
        ArmInstructionType::Swp { access_size, base_register, dest_register, source_register } => "swp"@ + when(
            access_size == SwpAccessSize::Byte,
            "b"@,
        ) + " "@ + register_text(dest_register) + ", "@ + register_text(source_register) + ", ["@ + register_text(
            base_register,
        ) + "]"@,
        ArmInstructionType::Invalid { opcode } => "INVALID 0x"@ + hex_text(opcode as nat, 8, true),
        ArmInstructionType::Blx { .. } => seq![],
    }
}

impl ArmInstruction {
    /// The assembler text of the instruction (BLX has none).
    pub fn to_string(&self) -> (r: String)
        requires
            !(self.instruction_type is Blx),
        ensures
            r@ == arm_text(*self),
    {
        let mut s = String::new();
        let cond = condition_str(self.condition);
        match self.instruction_type {
            ArmInstructionType::Alu { operation, set_conditions, first_operand, second_operand, destination_operand } => {
                push_str(&mut s, alu_operation_str(operation));
                push_when(&mut s, set_conditions, "s");
                push_str(&mut s, cond);
                push_str(&mut s, " ");
                match operation {
                    AluOperation::Tst | AluOperation::Teq | AluOperation::Cmp | AluOperation::Cmn => {
                        push_str(&mut s, register_str(first_operand));
                    },
                    AluOperation::Mov | AluOperation::Mvn => {
                        push_str(&mut s, register_str(destination_operand));
                    },
                    _ => {
                        push_str(&mut s, register_str(destination_operand));
                        push_str(&mut s, ", ");
                        push_str(&mut s, register_str(first_operand));
                    },
                }
                push_str(&mut s, ", ");
                push_alu_second(&mut s, second_operand);
            },
            ArmInstructionType::B { offset } => {
                push_str(&mut s, "b");
                push_str(&mut s, cond);
                push_str(&mut s, " 0x");
                push_hex(&mut s, offset as u32, 8, true);
            },
            ArmInstructionType::Bl { offset } => {
                push_str(&mut s, "bl");
                push_str(&mut s, cond);
                push_str(&mut s, " 0x");
                push_hex(&mut s, offset as u32, 8, true);
            },
            ArmInstructionType::Bx { operand } => {
                push_str(&mut s, "bx");
                push_str(&mut s, cond);
                push_str(&mut s, " ");
                push_str(&mut s, register_str(operand));
            },
            ArmInstructionType::Ldr {
                access_size,
                base_register,
                destination_register,
                index_type,
                offset_info,
                sign_extend,
            } => {
                push_str(&mut s, "ldr");
                push_str(&mut s, cond);
                push_when(&mut s, sign_extend, "s");
                push_str(&mut s, access_size_str(access_size));
                push_str(&mut s, " ");
                push_str(&mut s, register_str(destination_register));
                push_str(&mut s, ", ");
                push_transfer_address(&mut s, index_type, base_register, offset_info);
            },
            ArmInstructionType::Str { access_size, base_register, source_register, index_type, offset_info } => {
                push_str(&mut s, "str");
                push_str(&mut s, cond);
                push_str(&mut s, access_size_str(access_size));
                push_str(&mut s, " ");
                push_str(&mut s, register_str(source_register));
                push_str(&mut s, ", ");
                push_transfer_address(&mut s, index_type, base_register, offset_info);
            },
            ArmInstructionType::Mrs { destination_register, source_psr } => {
                push_str(&mut s, "mrs");
                push_str(&mut s, cond);
                push_str(&mut s, " ");
                push_str(&mut s, register_str(destination_register));
                push_str(&mut s, ", ");
                push_str(&mut s, psr_str(source_psr));
            },
            ArmInstructionType::Msr {
                destination_psr,
                write_flags_field,
                write_status_field,
                write_extension_field,
                write_control_field,
                source_info,
            } => {
                push_str(&mut s, "msr");
                push_str(&mut s, cond);
                push_str(&mut s, " ");
                push_str(&mut s, psr_str(destination_psr));
                push_when(
                    &mut s,
                    write_flags_field || write_status_field || write_extension_field || write_control_field,
                    "_",
                );
                push_when(&mut s, write_control_field, "c");
                push_when(&mut s, write_flags_field, "f");
                push_when(&mut s, write_status_field, "s");
                push_when(&mut s, write_extension_field, "x");
                push_str(&mut s, ", ");
                match source_info {
                    MsrSourceInfo::Register(register) => push_str(&mut s, register_str(register)),
                    MsrSourceInfo::Immediate { value } => {
                        push_str(&mut s, "#");
                        push_decimal(&mut s, value);
                    },
                }
            },
            ArmInstructionType::Stm {
                base_register,
                index_type,
                offset_modifier,
                register_list,
                write_back,
                force_user_mode,
            } => {
                push_str(&mut s, "stm");
                push_str(&mut s, cond);
                push_block(&mut s, index_type, offset_modifier, write_back, base_register, register_list, force_user_mode);
            },
            ArmInstructionType::Ldm {
                base_register,
                index_type,
                offset_modifier,
                register_list,
                write_back,
                force_user_mode,
            } => {
                push_str(&mut s, "ldm");
                push_str(&mut s, cond);
                push_block(&mut s, index_type, offset_modifier, write_back, base_register, register_list, force_user_mode);
            },
            ArmInstructionType::Mul {
                accumulate_register,
                destination_register,
                operand_register_rm,
                operand_register_rs,
                operation,
                ..
            } => {
                match operation {
                    MultiplyOperation::Mul => {
                        push_str(&mut s, "mul");
                        push_str(&mut s, cond);
                        push_str(&mut s, " ");
                        push_str(&mut s, register_str(destination_register));
                        push_str(&mut s, ", ");
                        push_str(&mut s, register_str(operand_register_rm));
                        push_str(&mut s, ", ");
                        push_str(&mut s, register_str(operand_register_rs));
                    },
                    MultiplyOperation::Mla => {
                        push_str(&mut s, "mla");
                        push_str(&mut s, cond);
                        push_str(&mut s, " ");
                        push_str(&mut s, register_str(destination_register));
                        push_str(&mut s, ", ");
                        push_str(&mut s, register_str(operand_register_rm));
                        push_str(&mut s, ", ");
                        push_str(&mut s, register_str(operand_register_rs));
                        push_str(&mut s, ", ");
                        push_str(&mut s, register_str(accumulate_register));
                    },
                    MultiplyOperation::Umaal => {
                        push_str(&mut s, "umaal TODO");
                    },
                    _ => {
                        let name = match operation {
                            MultiplyOperation::Umull => "umull",
                            MultiplyOperation::Umlal => "umlal",
                            MultiplyOperation::Smull => "smull",
                            _ => "smlal",
                        };
                        push_str(&mut s, name);
                        push_str(&mut s, cond);
                        push_str(&mut s, " ");
                        push_str(&mut s, register_str(accumulate_register));
                        push_str(&mut s, ", ");
                        push_str(&mut s, register_str(destination_register));
                        push_str(&mut s, ", ");
                        push_str(&mut s, register_str(operand_register_rm));
                        push_str(&mut s, ", ");
                        push_str(&mut s, register_str(operand_register_rs));
                    },
                }
            },
            ArmInstructionType::Swi { comment } => {
                push_str(&mut s, "swi #");
                push_decimal(&mut s, comment);
            },
            ArmInstructionType::Swp { access_size, base_register, dest_register, source_register } => {
                push_str(&mut s, "swp");
                push_when(&mut s, access_size == SwpAccessSize::Byte, "b");
                push_str(&mut s, " ");
                push_str(&mut s, register_str(dest_register));
                push_str(&mut s, ", ");
                push_str(&mut s, register_str(source_register));
                push_str(&mut s, ", [");
                push_str(&mut s, register_str(base_register));
                push_str(&mut s, "]");
            },
            ArmInstructionType::Invalid { opcode } => {
                push_str(&mut s, "INVALID 0x");
                push_hex(&mut s, opcode, 8, true);
            },
            ArmInstructionType::Blx { .. } => {},
        }
        assert(s@ =~= arm_text(*self));
        s
    }
}


pub open spec fn thumb_register_operation_text(op: ThumbRegisterOperation) -> Seq<char> {
    match op {
        ThumbRegisterOperation::Lsl => "lsl"@,
        ThumbRegisterOperation::Lsr => "lsr"@,
        ThumbRegisterOperation::Asr => "asr"@,
        ThumbRegisterOperation::Add => "add"@,
        ThumbRegisterOperation::Sub => "sub"@,
        ThumbRegisterOperation::Mov => "mov"@,
        ThumbRegisterOperation::Cmp => "cmp"@,
        ThumbRegisterOperation::And => "and"@,
        ThumbRegisterOperation::Eor => "eor"@,
        ThumbRegisterOperation::Adc => "adc"@,
        ThumbRegisterOperation::Sbc => "sbc"@,
        ThumbRegisterOperation::Ror => "ror"@,
        ThumbRegisterOperation::Tst => "tst"@,
        ThumbRegisterOperation::Neg => "neg"@,
        ThumbRegisterOperation::Cmn => "cmn"@,
        ThumbRegisterOperation::Orr => "orr"@,
        ThumbRegisterOperation::Mul => "mul"@,
        ThumbRegisterOperation::Bic => "bic"@,
        ThumbRegisterOperation::Mvn => "mvn"@,
    }
}

fn thumb_register_operation_str(op: ThumbRegisterOperation) -> (s: &'static str)
    ensures
        s@ == thumb_register_operation_text(op),
{
    match op {
        ThumbRegisterOperation::Lsl => "lsl",
        ThumbRegisterOperation::Lsr => "lsr",
        ThumbRegisterOperation::Asr => "asr",
        ThumbRegisterOperation::Add => "add",
        ThumbRegisterOperation::Sub => "sub",
        ThumbRegisterOperation::Mov => "mov",
        ThumbRegisterOperation::Cmp => "cmp",
        ThumbRegisterOperation::And => "and",
        ThumbRegisterOperation::Eor => "eor",
        ThumbRegisterOperation::Adc => "adc",
        ThumbRegisterOperation::Sbc => "sbc",
        ThumbRegisterOperation::Ror => "ror",
        ThumbRegisterOperation::Tst => "tst",
        ThumbRegisterOperation::Neg => "neg",
        ThumbRegisterOperation::Cmn => "cmn",
        ThumbRegisterOperation::Orr => "orr",
        ThumbRegisterOperation::Mul => "mul",
        ThumbRegisterOperation::Bic => "bic",
        ThumbRegisterOperation::Mvn => "mvn",
    }
}

pub open spec fn thumb_high_operation_text(op: ThumbHighRegisterOperation) -> Seq<char> {
    match op {
        ThumbHighRegisterOperation::Add => "add"@,
        ThumbHighRegisterOperation::Cmp => "cmp"@,
        ThumbHighRegisterOperation::Mov => "mov"@,
    }
}

fn thumb_high_operation_str(op: ThumbHighRegisterOperation) -> (s: &'static str)
    ensures
        s@ == thumb_high_operation_text(op),
{
    match op {
        ThumbHighRegisterOperation::Add => "add",
        ThumbHighRegisterOperation::Cmp => "cmp",
        ThumbHighRegisterOperation::Mov => "mov",
    }
}

pub open spec fn thumb_operand_text(v: ThumbRegisterOrImmediate) -> Seq<char> {
    match v {
        ThumbRegisterOrImmediate::Immediate(value) => "#"@ + decimal_text(value as nat),
        ThumbRegisterOrImmediate::Register(register) => register_text(register),
    }
}

fn push_thumb_operand(s: &mut String, v: ThumbRegisterOrImmediate)
    ensures
        final(s)@ == old(s)@ + thumb_operand_text(v),
{
    match v {
        ThumbRegisterOrImmediate::Immediate(value) => {
            push_str(s, "#");
            push_decimal(s, value);
        },
        ThumbRegisterOrImmediate::Register(register) => push_str(s, register_str(register)),
    }
    assert(final(s)@ =~= old(s)@ + thumb_operand_text(v));
}

pub open spec fn thumb_size_text(size: ThumbLoadStoreDataSize) -> Seq<char> {
    match size {
        ThumbLoadStoreDataSize::Byte => "b"@,
        ThumbLoadStoreDataSize::HalfWord => "h"@,
        ThumbLoadStoreDataSize::Word => ""@,
    }
}

fn thumb_size_str(size: ThumbLoadStoreDataSize) -> (s: &'static str)
    ensures
        s@ == thumb_size_text(size),
{
    match size {
        ThumbLoadStoreDataSize::Byte => "b",
        ThumbLoadStoreDataSize::HalfWord => "h",
        ThumbLoadStoreDataSize::Word => "",
    }
}

/// A PUSH or POP list: the low registers, then `extra` (LR or PC) when
/// `with_extra`, separated by ", ".
pub open spec fn stack_list_text(list: u8, with_extra: bool, extra: Seq<char>) -> Seq<char> {
    "{"@ + list_text(list as u16, 8, true) + when(with_extra, separator(list != 0) + extra) + "}"@
}

fn push_stack_list(s: &mut String, list: u8, with_extra: bool, extra: &str)
    ensures
        final(s)@ == old(s)@ + stack_list_text(list, with_extra, extra@),
{
    push_str(s, "{");
    push_register_list(s, list as u16, 8, true);
    let ghost mid = s@;
    if with_extra {
        push_separator(s, list != 0);
        push_str(s, extra);
    }
    assert(s@ =~= mid + when(with_extra, separator(list != 0) + extra@));
    push_str(s, "}");
    assert(final(s)@ =~= old(s)@ + stack_list_text(list, with_extra, extra@));
}

/// The assembler text of a Thumb instruction.
pub open spec fn thumb_text(instruction: ThumbInstruction) -> Seq<char> {
    match instruction.instruction_type {
        ThumbInstructionType::Register { operation, destination_register, source, second_operand } => thumb_register_operation_text(
            operation,
        ) + " "@ + register_text(destination_register) + ", "@ + register_text(source) + ", "@ + thumb_operand_text(
            second_operand,
        ),
        ThumbInstructionType::HighRegister { destination_register, operation, source } => thumb_high_operation_text(
            operation,
        ) + " "@ + register_text(destination_register) + ", "@ + register_text(source),
        ThumbInstructionType::Ldr { base_register, destination_register, offset, sign_extend, size } => "ld"@ + (if sign_extend {
            "s"@
        } else {
            "r"@
        }) + thumb_size_text(size) + " "@ + register_text(destination_register) + ", ["@ + register_text(base_register)
            + ", "@ + thumb_operand_text(offset) + "]"@,
        ThumbInstructionType::Str { base_register, source_register, offset, size } => "str"@ + thumb_size_text(size) + " "@
            + register_text(source_register) + ", ["@ + register_text(base_register) + ", "@ + thumb_operand_text(offset)
            + "]"@,
        ThumbInstructionType::BlPartOne { offset } => "bl_1 0x"@ + hex_text(offset as u32 as nat, 8, false),
        ThumbInstructionType::BlPartTwo { offset } => "bl_2 0x"@ + hex_text(offset as nat, 4, false),
        ThumbInstructionType::B { condition, offset } => "b"@ + condition_text(condition) + " 0x"@ + hex_text(
            offset as u16 as nat,
            8,
            true,
        ),
        ThumbInstructionType::Bx { operand } => "bx "@ + register_text(operand),
        ThumbInstructionType::Blx { operand } => "blx "@ + register_text(operand),
        ThumbInstructionType::Push { register_bit_list, push_lr } => "push "@ + stack_list_text(
            register_bit_list,
            push_lr,
            "r14"@,
        ),
        ThumbInstructionType::Pop { register_bit_list, pop_pc } => "pop "@ + stack_list_text(
            register_bit_list,
            pop_pc,
            "r15"@,
        ),
        ThumbInstructionType::AddSpecial { source_register, dest_register, unsigned_offset, sign_bit } => (if sign_bit {
            "sub"@
        } else {
            "add"@
        }) + " "@ + register_text(dest_register) + ", "@ + register_text(source_register) + ", #"@ + decimal_text(
            unsigned_offset as nat,
        ),
        ThumbInstructionType::LdmiaWriteBack { base_register, register_bit_list } => "ldmia "@ + register_text(
            base_register,
        ) + "!, {"@ + list_text(register_bit_list as u16, 8, true) + "}"@,
        ThumbInstructionType::StmiaWriteBack { base_register, register_bit_list } => "stmia "@ + register_text(
            base_register,
        ) + "!, {"@ + list_text(register_bit_list as u16, 8, false) + "}"@,
        ThumbInstructionType::Swi { comment } => "swi #"@ + decimal_text(comment as nat),
        ThumbInstructionType::Invalid { opcode } => "INVALID 0x"@ + hex_text(opcode as nat, 4, true),
    }
}

impl ThumbInstruction {
    /// The assembler text of the instruction.
    pub fn to_string(&self) -> (r: String)
        ensures
            r@ == thumb_text(*self),
    {
        let mut s = String::new();
        match self.instruction_type {
            ThumbInstructionType::Register { operation, destination_register, source, second_operand } => {
                push_str(&mut s, thumb_register_operation_str(operation));
                push_str(&mut s, " ");
                push_str(&mut s, register_str(destination_register));
                push_str(&mut s, ", ");
                push_str(&mut s, register_str(source));
                push_str(&mut s, ", ");
                push_thumb_operand(&mut s, second_operand);
            },
            ThumbInstructionType::HighRegister { destination_register, operation, source } => {
                push_str(&mut s, thumb_high_operation_str(operation));
                push_str(&mut s, " ");
                push_str(&mut s, register_str(destination_register));
                push_str(&mut s, ", ");
                push_str(&mut s, register_str(source));
            },
            ThumbInstructionType::Ldr { base_register, destination_register, offset, sign_extend, size } => {
                push_str(&mut s, "ld");
                if sign_extend {
                    push_str(&mut s, "s");
                } else {
                    push_str(&mut s, "r");
                }
                push_str(&mut s, thumb_size_str(size));
                push_str(&mut s, " ");
                push_str(&mut s, register_str(destination_register));
                push_str(&mut s, ", [");
                push_str(&mut s, register_str(base_register));
                push_str(&mut s, ", ");
                push_thumb_operand(&mut s, offset);
                push_str(&mut s, "]");
            },
            ThumbInstructionType::Str { base_register, source_register, offset, size } => {
                push_str(&mut s, "str");
                push_str(&mut s, thumb_size_str(size));
                push_str(&mut s, " ");
                push_str(&mut s, register_str(source_register));
                push_str(&mut s, ", [");
                push_str(&mut s, register_str(base_register));
                push_str(&mut s, ", ");
                push_thumb_operand(&mut s, offset);
                push_str(&mut s, "]");
            },
            ThumbInstructionType::BlPartOne { offset } => {
                push_str(&mut s, "bl_1 0x");
                push_hex(&mut s, offset as u32, 8, false);
            },
            ThumbInstructionType::BlPartTwo { offset } => {
                push_str(&mut s, "bl_2 0x");
                push_hex(&mut s, offset as u32, 4, false);
            },
            ThumbInstructionType::B { condition, offset } => {
                push_str(&mut s, "b");
                push_str(&mut s, condition_str(condition));
                push_str(&mut s, " 0x");
                push_hex(&mut s, offset as u16 as u32, 8, true);
            },
            ThumbInstructionType::Bx { operand } => {
                push_str(&mut s, "bx ");
                push_str(&mut s, register_str(operand));
            },
            ThumbInstructionType::Blx { operand } => {
                push_str(&mut s, "blx ");
                push_str(&mut s, register_str(operand));
            },
            ThumbInstructionType::Push { register_bit_list, push_lr } => {
                push_str(&mut s, "push ");
                push_stack_list(&mut s, register_bit_list, push_lr, "r14");
            },
            ThumbInstructionType::Pop { register_bit_list, pop_pc } => {
                push_str(&mut s, "pop ");
                push_stack_list(&mut s, register_bit_list, pop_pc, "r15");
            },
            ThumbInstructionType::AddSpecial { source_register, dest_register, unsigned_offset, sign_bit } => {
                if sign_bit {
                    push_str(&mut s, "sub");
                } else {
                    push_str(&mut s, "add");
                }
                push_str(&mut s, " ");
                push_str(&mut s, register_str(dest_register));
                push_str(&mut s, ", ");
                push_str(&mut s, register_str(source_register));
                push_str(&mut s, ", #");
                push_decimal(&mut s, unsigned_offset as u32);
            },
            ThumbInstructionType::LdmiaWriteBack { base_register, register_bit_list } => {
                push_str(&mut s, "ldmia ");
                push_str(&mut s, register_str(base_register));
                push_str(&mut s, "!, {");
                push_register_list(&mut s, register_bit_list as u16, 8, true);
                push_str(&mut s, "}");
            },
            ThumbInstructionType::StmiaWriteBack { base_register, register_bit_list } => {
                push_str(&mut s, "stmia ");
                push_str(&mut s, register_str(base_register));
                push_str(&mut s, "!, {");
                push_register_list(&mut s, register_bit_list as u16, 8, false);
                push_str(&mut s, "}");
            },
            ThumbInstructionType::Swi { comment } => {
                push_str(&mut s, "swi #");
                push_decimal(&mut s, comment as u32);
            },
            ThumbInstructionType::Invalid { opcode } => {
                push_str(&mut s, "INVALID 0x");
                push_hex(&mut s, opcode as u32, 4, true);
            },
        }
        assert(s@ =~= thumb_text(*self));
        s
    }
}

/// The assembler text of an ARM or Thumb instruction.
pub open spec fn instruction_text(instruction: Instruction) -> Seq<char> {
    match instruction {
        Instruction::ArmInstruction(i) => arm_text(i),
        Instruction::ThumbInstruction(i) => thumb_text(i),
    }
}

impl Instruction {
    pub fn to_string(&self) -> (r: String)
        requires
            !(*self matches Instruction::ArmInstruction(i) && i.instruction_type is Blx),
        ensures
            r@ == instruction_text(*self),
    {
        match self {
            Instruction::ArmInstruction(i) => i.to_string(),
            Instruction::ThumbInstruction(i) => i.to_string(),
        }
    }
}


/// The label in front of register `i` in a register dump: four per line.
pub open spec fn dump_label(i: int) -> Seq<char> {
    if i == 0 {
        " R0: 0x"@
    } else if i == 1 {
        "  R1: 0x"@
    } else if i == 2 {
        "  R2: 0x"@
    } else if i == 3 {
        "  R3: 0x"@
    } else if i == 4 {
        "\n R4: 0x"@
    } else if i == 5 {
        "  R5: 0x"@
    } else if i == 6 {
        "  R6: 0x"@
    } else if i == 7 {
        "  R7: 0x"@
    } else if i == 8 {
        "\n R8: 0x"@
    } else if i == 9 {
        "  R9: 0x"@
    } else if i == 10 {
        " R10: 0x"@
    } else if i == 11 {
        " R11: 0x"@
    } else if i == 12 {
        "\nR12: 0x"@
    } else if i == 13 {
        " R13: 0x"@
    } else if i == 14 {
        " R14: 0x"@
    } else {
        " R15: 0x"@
    }
}

fn dump_label_str(i: usize) -> (s: &'static str)
    requires
        i < 16,
    ensures
        s@ == dump_label(i as int),
{
    match i {
        0 => " R0: 0x",
        1 => "  R1: 0x",
        2 => "  R2: 0x",
        3 => "  R3: 0x",
        4 => "\n R4: 0x",
        5 => "  R5: 0x",
        6 => "  R6: 0x",
        7 => "  R7: 0x",
        8 => "\n R8: 0x",
        9 => "  R9: 0x",
        10 => " R10: 0x",
        11 => " R11: 0x",
        12 => "\nR12: 0x",
        13 => " R13: 0x",
        14 => " R14: 0x",
        _ => " R15: 0x",
    }
}

/// The dump of the first `n` registers: each labelled, in eight lower-case
/// hexadecimal digits.
pub open spec fn register_dump_text(registers: Seq<u32>, n: nat) -> Seq<char>
    decreases n,
{
    if n == 0 {
        seq![]
    } else {
        register_dump_text(registers, (n - 1) as nat) + dump_label(n - 1) + hex_text(
            registers[n - 1] as nat,
            8,
            false,
        )
    }
}

impl Cpu {
    /// A dump of R0-R15 as the current mode sees them, four to a line.
    pub fn to_string(&self) -> (r: String)
        ensures
            r@ == register_dump_text(self.registers@, 16),
    {
        let mut s = String::new();
        let mut i: usize = 0;
        assert(s@ =~= register_dump_text(self.registers@, 0));
        while i < 16
            invariant
                i <= 16,
                s@ == register_dump_text(self.registers@, i as nat),
            decreases 16 - i,
        {
            push_str(&mut s, dump_label_str(i));
            push_hex(&mut s, self.registers[i], 8, false);
            i = i + 1;
            assert(s@ =~= register_dump_text(self.registers@, i as nat));
        }
        s
    }
}

} // verus!
