use gba_core::cpu::arm::decode_arm;
use gba_core::cpu::thumb::decode_thumb;
use gba_core::cpu::{Instruction, Register};

#[test]
fn register_names() {
    assert_eq!(Register::R0.to_string(), "r0");
    assert_eq!(Register::R13.to_string(), "sp");
    assert_eq!(Register::R14.to_string(), "lr");
    assert_eq!(Register::R15.to_string(), "pc");
}

#[test]
fn arm_data_processing_text() {
    assert_eq!(decode_arm(0xE3A0_0001).to_string(), "mov r0, #1");
    assert_eq!(decode_arm(0xE082_1003).to_string(), "add r1, r2, r3, lsl #0");
    assert_eq!(decode_arm(0xE251_0003).to_string(), "subs r0, r1, #3");
    assert_eq!(decode_arm(0xE350_0000).to_string(), "cmps r0, #0");
    assert_eq!(decode_arm(0x03A0_0001).to_string(), "moveq r0, #1");
}

#[test]
fn arm_branch_text() {
    assert_eq!(decode_arm(0xEAFF_FFFE).to_string(), "b 0xFFFFFFF8");
    assert_eq!(decode_arm(0xE12F_FF10).to_string(), "bx r0");
}

#[test]
fn arm_transfer_text() {
    assert_eq!(decode_arm(0xE591_0004).to_string(), "ldr r0, [r1, #4]");
    assert_eq!(decode_arm(0xE5A1_0004).to_string(), "str r0, [r1, #4]!");
    assert_eq!(decode_arm(0xE8BD_000F).to_string(), "ldmia sp! {r0-r3}");
    assert_eq!(decode_arm(0xE92D_4010).to_string(), "stmdb sp! {r4, r14}");
}

#[test]
fn arm_misc_text() {
    assert_eq!(decode_arm(0xE000_0291).to_string(), "mul r0, r1, r2");
    assert_eq!(decode_arm(0xEF00_0005).to_string(), "swi #5");
    assert_eq!(decode_arm(0xE10F_0000).to_string(), "mrs r0, cpsr");
}

#[test]
fn thumb_text() {
    assert_eq!(decode_thumb(0x2001).to_string(), "mov r0, r0, #1");
    assert_eq!(decode_thumb(0xB50F).to_string(), "push {r0-r3, r14}");
    assert_eq!(decode_thumb(0xBD10).to_string(), "pop {r4, r15}");
    assert_eq!(decode_thumb(0xC802).to_string(), "ldmia r0!, {r1}");
    assert_eq!(decode_thumb(0xC880).to_string(), "ldmia r0!, {r7}");
    assert_eq!(decode_thumb(0xDF02).to_string(), "swi #2");
    assert_eq!(decode_thumb(0x4770).to_string(), "bx lr");
}

#[test]
fn thumb_stmia_drops_a_lone_last_register() {
    assert_eq!(decode_thumb(0xC002).to_string(), "stmia r0!, {r1}");
    assert_eq!(decode_thumb(0xC080).to_string(), "stmia r0!, {}");
    assert_eq!(decode_thumb(0xC0C1).to_string(), "stmia r0!, {r0, r6-r7}");
}

#[test]
fn default_instruction_is_opcode_zero() {
    let text = Instruction::default().to_string();
    assert_eq!(text, "andeq r0, r0, r0, lsl #0");
}

#[test]
fn register_dump() {
    let mut cpu = gba_core::cpu::Cpu::new(gba_core::cartridge::Cartridge::new(vec![], None).unwrap());
    cpu.registers[15] = 0xAB;
    cpu.registers[10] = 0xDEAD_BEEF;
    let expected = " R0: 0x00000000  R1: 0x00000000  R2: 0x00000000  R3: 0x00000000\n R4: 0x00000000  R5: 0x00000000  R6: 0x00000000  R7: 0x00000000\n R8: 0x00000000  R9: 0x00000000 R10: 0xdeadbeef R11: 0x00000000\nR12: 0x00000000 R13: 0x00000000 R14: 0x00000000 R15: 0x000000ab";
    assert_eq!(cpu.to_string(), expected);
}
