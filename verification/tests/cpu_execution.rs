use gba_core::cartridge::Cartridge;
use gba_core::cpu::arm::{decode_arm, BlockDataTransferIndexType, OffsetModifierType};
use gba_core::cpu::thumb::{
    decode_thumb, ThumbInstruction, ThumbInstructionType, ThumbRegisterOperation, ThumbRegisterOrImmediate,
};
use gba_core::cpu::{Cpu, CpuMode, InstructionSet, Register};

const SIGN: u32 = 1 << 31;
const ZERO: u32 = 1 << 30;
const CARRY: u32 = 1 << 29;
const OVERFLOW: u32 = 1 << 28;
const THUMB: u32 = 1 << 5;

fn new_cpu() -> Cpu {
    Cpu::new(Cartridge::new(vec![], None).unwrap())
}

fn thumb_cpu() -> Cpu {
    let mut cpu = new_cpu();
    cpu.cpsr |= THUMB;
    cpu
}

#[test]
fn new_cpu_starts_in_system_mode_arm_state() {
    let cpu = new_cpu();
    assert_eq!(cpu.get_cpu_mode(), CpuMode::System);
    assert!(matches!(cpu.get_instruction_mode(), InstructionSet::Arm));
    assert_eq!(cpu.cycle_count(), 0);
    for i in 0..16u32 {
        assert_eq!(cpu.read_register(Register::from_index(i), gba_core::cpu::PcCalculation::Identity), 0);
    }
    assert_eq!(cpu.get_executing_pc(), 0);
}

#[test]
fn pipeline_fills_before_the_first_instruction_executes() {
    let mut cpu = new_cpu();
    // Fetch into an empty pipeline: one cycle, PC moves on by a word.
    cpu.fetch_decode_execute();
    assert_eq!(cpu.registers[15], 4);
    assert!(cpu.prefetch_opcode.is_some());
    assert!(cpu.pre_decode_arm.is_none());
    cpu.fetch_decode_execute();
    assert_eq!(cpu.registers[15], 8);
    assert!(cpu.pre_decode_arm.is_some());
    assert_eq!(cpu.get_executing_pc(), 0);
    // The zero opcode is ANDEQ r0, r0, r0: with Z clear it only advances.
    cpu.fetch_decode_execute();
    assert_eq!(cpu.registers[15], 12);
    assert_eq!(cpu.cycle_count(), 3);
}

#[test]
fn thumb_add_immediate() {
    let mut cpu = thumb_cpu();
    cpu.registers[1] = 7;
    cpu.registers[15] = 0x0800_0004;
    cpu.execute_thumb_register_operation(
        ThumbRegisterOperation::Add,
        Register::R0,
        Register::R1,
        ThumbRegisterOrImmediate::Immediate(5),
    );
    assert_eq!(cpu.registers[0], 12);
    assert!(!cpu.get_zero_flag());
    assert!(!cpu.get_carry_flag());
    assert_eq!(cpu.registers[15], 0x0800_0006);
}

#[test]
fn thumb_adc_takes_n_and_v_from_the_overflow_flag() {
    let mut cpu = thumb_cpu();
    cpu.cpsr |= CARRY;
    cpu.registers[0] = 0x7FFF_FFFF;
    cpu.registers[1] = 0;
    cpu.execute_thumb_register_operation(
        ThumbRegisterOperation::Adc,
        Register::R0,
        Register::R0,
        ThumbRegisterOrImmediate::Register(Register::R1),
    );
    assert_eq!(cpu.registers[0], 0x8000_0000);
    assert!(!cpu.get_carry_flag());
    // The signed sum is taken with V (clear) as the carry in.
    assert!(!cpu.get_sign_flag());
    assert!(!cpu.get_overflow_flag());
}

#[test]
fn thumb_lsl_by_register_of_32() {
    let mut cpu = thumb_cpu();
    cpu.registers[0] = 1;
    cpu.registers[1] = 32;
    cpu.execute_thumb_register_operation(
        ThumbRegisterOperation::Lsl,
        Register::R0,
        Register::R0,
        ThumbRegisterOrImmediate::Register(Register::R1),
    );
    assert_eq!(cpu.registers[0], 0);
    assert!(cpu.get_carry_flag());
    assert!(cpu.get_zero_flag());
}

#[test]
fn thumb_cmp_sets_flags_without_writing() {
    let mut cpu = thumb_cpu();
    cpu.registers[0] = 5;
    cpu.execute_thumb_register_operation(
        ThumbRegisterOperation::Cmp,
        Register::R0,
        Register::R0,
        ThumbRegisterOrImmediate::Immediate(5),
    );
    assert_eq!(cpu.registers[0], 5);
    assert!(cpu.get_zero_flag());
    assert!(cpu.get_carry_flag());
    assert!(!cpu.get_sign_flag());
}

#[test]
fn thumb_push_then_pop_restores_registers_and_stack() {
    let mut cpu = thumb_cpu();
    cpu.registers[13] = 0x0300_7F00;
    cpu.registers[0] = 0x11;
    cpu.registers[1] = 0x22;
    cpu.execute_thumb_push(0b0000_0011, false);
    assert_eq!(cpu.registers[13], 0x0300_7EF8);
    cpu.registers[0] = 0;
    cpu.registers[1] = 0;
    cpu.execute_thumb_pop(0b0000_0011, false);
    assert_eq!(cpu.registers[0], 0x11);
    assert_eq!(cpu.registers[1], 0x22);
    assert_eq!(cpu.registers[13], 0x0300_7F00);
}

#[test]
fn thumb_long_branch_with_link() {
    let mut cpu = thumb_cpu();
    cpu.registers[15] = 0x0800_0004;
    cpu.execute_thumb_bl_part_1(0x1000);
    assert_eq!(cpu.registers[14], 0x0800_1004);
    assert_eq!(cpu.registers[15], 0x0800_0006);
    cpu.execute_thumb_bl_part_2(0x10);
    assert_eq!(cpu.registers[15], 0x0800_1014);
    assert_eq!(cpu.registers[14], 0x0800_0005);
    assert!(cpu.prefetch_opcode.is_none());
}

#[test]
fn thumb_bx_to_arm_state() {
    let mut cpu = thumb_cpu();
    cpu.registers[0] = 0x0800_0102;
    cpu.execute_thumb_bx(Register::R0);
    assert!(matches!(cpu.get_instruction_mode(), InstructionSet::Arm));
    assert_eq!(cpu.registers[15], 0x0800_0100);
    assert!(cpu.pre_decode_thumb.is_none());
}

#[test]
fn thumb_swi_enters_supervisor_mode() {
    let mut cpu = thumb_cpu();
    cpu.registers[15] = 0x0800_0104;
    cpu.execute_thumb(decode_thumb(0xDF00));
    assert_eq!(cpu.get_cpu_mode(), CpuMode::Supervisor);
    assert_eq!(cpu.registers[15], 8);
    assert_eq!(cpu.registers[14], 0x0800_0102);
    assert!(matches!(cpu.get_instruction_mode(), InstructionSet::Arm));
}

#[test]
fn unsupported_thumb_instruction_is_undefined() {
    let mut cpu = thumb_cpu();
    cpu.registers[15] = 0x0800_0104;
    cpu.execute_thumb(ThumbInstruction { instruction_type: ThumbInstructionType::Invalid { opcode: 0xE800 } });
    assert_eq!(cpu.get_cpu_mode(), CpuMode::Undefined);
    assert_eq!(cpu.registers[15], 4);
}

#[test]
fn arm_mov_immediate() {
    let mut cpu = new_cpu();
    cpu.registers[15] = 8;
    cpu.execute_arm(decode_arm(0xE3A0_0001));
    assert_eq!(cpu.registers[0], 1);
    assert_eq!(cpu.registers[15], 12);
}

#[test]
fn arm_failed_condition_only_advances() {
    let mut cpu = new_cpu();
    cpu.registers[15] = 8;
    cpu.execute_arm(decode_arm(0x03A0_0001));
    assert_eq!(cpu.registers[0], 0);
    assert_eq!(cpu.registers[15], 12);
}

#[test]
fn arm_multiply() {
    let mut cpu = new_cpu();
    cpu.registers[1] = 6;
    cpu.registers[2] = 7;
    cpu.execute_arm(decode_arm(0xE000_0291));
    assert_eq!(cpu.registers[0], 42);
}

#[test]
fn arm_subs_sets_flags() {
    let mut cpu = new_cpu();
    cpu.registers[1] = 3;
    // SUBS r0, r1, #3
    cpu.execute_arm(decode_arm(0xE251_0003));
    assert_eq!(cpu.registers[0], 0);
    assert!(cpu.get_zero_flag());
    assert!(cpu.get_carry_flag());
    assert!(!cpu.get_sign_flag());
    assert!(!cpu.get_overflow_flag());
}

#[test]
fn mode_switch_banks_registers() {
    let mut cpu = new_cpu();
    cpu.registers[13] = 0x1234;
    cpu.registers[12] = 0x5678;
    // MSR CPSR_c, #0x12 (IRQ mode)
    cpu.execute_arm(decode_arm(0xE321_F012));
    assert_eq!(cpu.get_cpu_mode(), CpuMode::Irq);
    assert_eq!(cpu.registers[13], 0);
    assert_eq!(cpu.registers[12], 0x5678);
    cpu.registers[13] = 0x9999;
    // MSR CPSR_c, #0x1F (system mode)
    cpu.execute_arm(decode_arm(0xE321_F01F));
    assert_eq!(cpu.get_cpu_mode(), CpuMode::System);
    assert_eq!(cpu.registers[13], 0x1234);
}

#[test]
fn instruction_width_follows_the_state() {
    let cpu = new_cpu();
    assert_eq!(cpu.get_instruction_width(), 4);
    let cpu = thumb_cpu();
    assert_eq!(cpu.get_instruction_width(), 2);
}

#[test]
fn thumb_cycles() {
    let push = decode_thumb(0xB50F).instruction_type();
    let info = push.cycles_info();
    assert_eq!((info.i, info.n, info.s), (0, 2, 3));
    let pop = decode_thumb(0xBD10).instruction_type();
    let info = pop.cycles_info();
    assert_eq!((info.i, info.n, info.s), (1, 2, 2));
}

#[test]
fn push_puts_the_lowest_register_at_the_lowest_address() {
    let mut cpu = thumb_cpu();
    cpu.registers[13] = 0x0300_7F00;
    cpu.registers[0] = 0x11;
    cpu.registers[2] = 0x33;
    cpu.registers[14] = 0x0800_0101;
    cpu.execute_thumb_push(0b0000_0101, true);
    assert_eq!(cpu.registers[13], 0x0300_7EF4);
    assert_eq!(cpu.bus.read_word_address_debug(0x0300_7EF4), 0x11);
    assert_eq!(cpu.bus.read_word_address_debug(0x0300_7EF8), 0x33);
    assert_eq!(cpu.bus.read_word_address_debug(0x0300_7EFC), 0x0800_0101);
}

#[test]
fn pop_with_pc_clears_bit_zero_and_empties_the_pipeline() {
    let mut cpu = thumb_cpu();
    cpu.registers[13] = 0x0300_7EF8;
    cpu.bus.write_word_address(0x44, 0x0300_7EF8);
    cpu.bus.write_word_address(0x0800_0203, 0x0300_7EFC);
    cpu.execute_thumb_pop(0b0000_1000, true);
    assert_eq!(cpu.registers[3], 0x44);
    assert_eq!(cpu.registers[15], 0x0800_0202);
    assert_eq!(cpu.registers[13], 0x0300_7F00);
    assert!(cpu.prefetch_opcode.is_none());
}

#[test]
fn thumb_stmia_and_ldmia_move_words_up_from_the_base() {
    let mut cpu = thumb_cpu();
    cpu.registers[0] = 0x0200_0010;
    cpu.registers[1] = 0xAAAA_0001;
    cpu.registers[3] = 0xBBBB_0003;
    cpu.execute_thumb_stmia_write_back(Register::R0, 0b0000_1010);
    assert_eq!(cpu.registers[0], 0x0200_0018);
    assert_eq!(cpu.bus.read_word_address_debug(0x0200_0010), 0xAAAA_0001);
    assert_eq!(cpu.bus.read_word_address_debug(0x0200_0014), 0xBBBB_0003);
    cpu.registers[0] = 0x0200_0010;
    cpu.registers[1] = 0;
    cpu.registers[3] = 0;
    cpu.execute_thumb_ldmia_write_back(Register::R0, 0b0000_1010);
    assert_eq!(cpu.registers[1], 0xAAAA_0001);
    assert_eq!(cpu.registers[3], 0xBBBB_0003);
    assert_eq!(cpu.registers[0], 0x0200_0018);
}

#[test]
fn thumb_stmia_stores_a_lowest_base_as_its_old_value() {
    let mut cpu = thumb_cpu();
    cpu.registers[0] = 0x0200_0020;
    cpu.registers[1] = 0x1234;
    cpu.execute_thumb_stmia_write_back(Register::R0, 0b0000_0011);
    assert_eq!(cpu.bus.read_word_address_debug(0x0200_0020), 0x0200_0020);
    assert_eq!(cpu.bus.read_word_address_debug(0x0200_0024), 0x1234);
    // A base that is not the lowest listed register is stored as its new value.
    cpu.registers[0] = 0x1234;
    cpu.registers[1] = 0x0200_0040;
    cpu.execute_thumb_stmia_write_back(Register::R1, 0b0000_0011);
    assert_eq!(cpu.bus.read_word_address_debug(0x0200_0040), 0x1234);
    assert_eq!(cpu.bus.read_word_address_debug(0x0200_0044), 0x0200_0048);
}

#[test]
fn arm_stmdb_then_ldmia_restores_registers() {
    let mut cpu = new_cpu();
    cpu.registers[13] = 0x0300_7F00;
    cpu.registers[1] = 0x101;
    cpu.registers[2] = 0x202;
    cpu.registers[3] = 0x303;
    cpu.execute_arm_stm(
        BlockDataTransferIndexType::PreIndex,
        OffsetModifierType::SubtractFromBase,
        true,
        Register::R13,
        0b1110,
        false,
    );
    assert_eq!(cpu.registers[13], 0x0300_7EF4);
    assert_eq!(cpu.bus.read_word_address_debug(0x0300_7EF4), 0x101);
    assert_eq!(cpu.bus.read_word_address_debug(0x0300_7EF8), 0x202);
    assert_eq!(cpu.bus.read_word_address_debug(0x0300_7EFC), 0x303);
    cpu.registers[1] = 0;
    cpu.registers[2] = 0;
    cpu.registers[3] = 0;
    cpu.execute_arm_ldm(
        BlockDataTransferIndexType::PostIndex,
        OffsetModifierType::AddToBase,
        true,
        Register::R13,
        0b1110,
        false,
    );
    assert_eq!(cpu.registers[1], 0x101);
    assert_eq!(cpu.registers[2], 0x202);
    assert_eq!(cpu.registers[3], 0x303);
    assert_eq!(cpu.registers[13], 0x0300_7F00);
}

#[test]
fn arm_ldmdb_reads_down_from_the_base() {
    let mut cpu = new_cpu();
    cpu.bus.write_word_address(0xA, 0x0200_0100);
    cpu.bus.write_word_address(0xB, 0x0200_0104);
    cpu.registers[5] = 0x0200_0108;
    cpu.execute_arm_ldm(
        BlockDataTransferIndexType::PreIndex,
        OffsetModifierType::SubtractFromBase,
        false,
        Register::R5,
        0b0000_0011,
        false,
    );
    assert_eq!(cpu.registers[0], 0xA);
    assert_eq!(cpu.registers[1], 0xB);
    assert_eq!(cpu.registers[5], 0x0200_0108);
}

#[test]
fn arm_ldm_into_pc_refills_the_pipeline() {
    let mut cpu = new_cpu();
    cpu.bus.write_word_address(0x55, 0x0300_0000);
    cpu.bus.write_word_address(0x0300_0103, 0x0300_0004);
    cpu.registers[0] = 0x0300_0000;
    cpu.execute_arm_ldm(
        BlockDataTransferIndexType::PostIndex,
        OffsetModifierType::AddToBase,
        true,
        Register::R0,
        0b1000_0000_0000_0010,
        false,
    );
    assert_eq!(cpu.registers[1], 0x55);
    assert_eq!(cpu.registers[0], 0x0300_0008);
    assert_eq!(cpu.registers[15], 0x0300_0108);
    assert!(cpu.pre_decode_arm.is_some());
}

#[test]
fn thumb_stmia_cycles_are_n_minus_one_s_plus_two_n() {
    let stmia = ThumbInstructionType::StmiaWriteBack { base_register: Register::R0, register_bit_list: 0b0000_0111 };
    let info = stmia.cycles_info();
    assert_eq!((info.i, info.n, info.s), (0, 2, 2));
}

#[test]
fn new_cpu_has_no_interrupt_requests() {
    let cpu = new_cpu();
    assert_eq!(cpu.bus.get_interrupt_request_debug(), [0; 4]);
}

#[test]
fn arm_movs_pc_lr_restores_the_status_register() {
    let mut cpu = new_cpu();
    cpu.cpsr = 0x13;
    cpu.spsr = 0x10;
    cpu.registers[14] = 0x0800_0100;
    cpu.registers[15] = 0x0800_0008;
    cpu.execute_arm(decode_arm(0xE1B0_F00E));
    assert_eq!(cpu.cpsr, 0x10);
    assert_eq!(cpu.registers[15], 0x0800_0108);
    assert!(cpu.pre_decode_arm.is_some());
}

#[test]
fn arm_pc_relative_load() {
    let mut cpu = new_cpu();
    cpu.bus.write_word_address(0xDEAD_BEEF, 0x0300_000C);
    cpu.registers[15] = 0x0300_0008;
    cpu.execute_arm(decode_arm(0xE59F_0004));
    assert_eq!(cpu.registers[0], 0xDEAD_BEEF);
    assert_eq!(cpu.registers[15], 0x0300_000C);
}

#[test]
fn arm_stm_with_s_bit_stores_the_user_bank() {
    let mut cpu = new_cpu();
    cpu.registers[13] = 0x1234;
    cpu.registers[14] = 0x5678;
    // MSR CPSR_c, #0x12 (IRQ mode): R13 and R14 are now IRQ's own.
    cpu.execute_arm(decode_arm(0xE321_F012));
    assert_eq!(cpu.get_cpu_mode(), CpuMode::Irq);
    cpu.registers[13] = 0xAAAA;
    cpu.registers[14] = 0xBBBB;
    cpu.registers[0] = 0x0200_0000;
    cpu.registers[1] = 0x77;
    cpu.execute_arm_stm(
        BlockDataTransferIndexType::PostIndex,
        OffsetModifierType::AddToBase,
        false,
        Register::R0,
        0b0110_0000_0000_0010,
        true,
    );
    assert_eq!(cpu.bus.read_word_address_debug(0x0200_0000), 0x77);
    assert_eq!(cpu.bus.read_word_address_debug(0x0200_0004), 0x1234);
    assert_eq!(cpu.bus.read_word_address_debug(0x0200_0008), 0x5678);
    assert_eq!(cpu.registers[13], 0xAAAA);
    assert_eq!(cpu.registers[14], 0xBBBB);
    assert_eq!(cpu.get_cpu_mode(), CpuMode::Irq);
}

#[test]
fn arm_ldm_leaves_memory_and_refills_from_the_loaded_pc() {
    let mut cpu = new_cpu();
    cpu.bus.write_word_address(0x0300_0103, 0x0300_0000);
    cpu.bus.write_word_address(0xE1A0_0000, 0x0300_0100);
    cpu.bus.write_word_address(0xE1A0_1001, 0x0300_0104);
    cpu.registers[2] = 0x0300_0000;
    cpu.registers[15] = 8;
    cpu.execute_arm_ldm(
        BlockDataTransferIndexType::PostIndex,
        OffsetModifierType::AddToBase,
        false,
        Register::R2,
        0b1000_0000_0000_0000,
        false,
    );
    assert_eq!(cpu.registers[15], 0x0300_0108);
    assert_eq!(cpu.registers[2], 0x0300_0000);
    assert_eq!(cpu.prefetch_opcode, Some(0xE1A0_1001));
    assert_eq!(cpu.bus.read_word_address_debug(0x0300_0000), 0x0300_0103);
    assert_eq!(cpu.bus.read_word_address_debug(0x0300_0100), 0xE1A0_0000);
    assert_eq!(cpu.get_cpu_mode(), CpuMode::System);
}

#[test]
fn arm_multiply_keeps_the_other_registers_and_memory() {
    let mut cpu = new_cpu();
    cpu.registers[1] = 6;
    cpu.registers[2] = 7;
    cpu.registers[3] = 0x99;
    cpu.registers[15] = 8;
    cpu.bus.write_word_address(0x1234_5678, 0x0200_0000);
    let cpsr = cpu.cpsr;
    // MUL r0, r1, r2
    cpu.execute_arm(decode_arm(0xE000_0291));
    assert_eq!(cpu.registers[0], 42);
    assert_eq!(cpu.registers[1], 6);
    assert_eq!(cpu.registers[2], 7);
    assert_eq!(cpu.registers[3], 0x99);
    assert_eq!(cpu.registers[15], 12);
    assert_eq!(cpu.cpsr, cpsr);
    assert_eq!(cpu.bus.read_word_address_debug(0x0200_0000), 0x1234_5678);
}

#[test]
fn swi_entry_keeps_the_interrupted_registers() {
    let mut cpu = new_cpu();
    for i in 0..15usize {
        cpu.registers[i] = 0x100 + i as u32;
    }
    cpu.registers[15] = 0x0800_0008;
    let cpsr = cpu.cpsr;
    // SWI 0
    cpu.execute_arm(decode_arm(0xEF00_0000));
    assert_eq!(cpu.get_cpu_mode(), CpuMode::Supervisor);
    for i in 0..13usize {
        assert_eq!(cpu.registers[i], 0x100 + i as u32);
    }
    assert_eq!(cpu.registers[14], 0x0800_0004);
    assert_eq!(cpu.registers[15], 0x08);
    assert_eq!(cpu.read_register(Register::Spsr, gba_core::cpu::PcCalculation::Identity), cpsr);
    // Back in system mode the interrupted R13 and R14 are still there.
    // MSR CPSR_c, #0x1F
    cpu.execute_arm(decode_arm(0xE321_F01F));
    assert_eq!(cpu.get_cpu_mode(), CpuMode::System);
    assert_eq!(cpu.registers[13], 0x10D);
    assert_eq!(cpu.registers[14], 0x10E);
    for i in 0..13usize {
        assert_eq!(cpu.registers[i], 0x100 + i as u32);
    }
}
