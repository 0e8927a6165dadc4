use gba_core::apu::Apu;
use gba_core::bus::Bus;
use gba_core::calculate_lcd_checksum;
use gba_core::cartridge::{Cartridge, CartridgeError, MAX_ROM_SIZE, SRAM_SIZE};
use gba_core::cpu::Cpu;
use gba_core::keypad::{Key, Keypad};
use gba_core::lcd::Rgb555;
use gba_core::lcd_checksum_bytes;
use gba_core::timer::Timer;

fn new_bus() -> Bus {
    Bus::new(Cartridge::new(vec![0x12, 0x34, 0x56, 0x78], None).unwrap())
}

#[test]
fn board_wram_word_read_after_write() {
    let mut bus = new_bus();
    bus.write_word_address(0xDEAD_BEEF, 0x0200_0010);
    assert_eq!(bus.read_word_address(0x0200_0010), 0xDEAD_BEEF);
    assert_eq!(bus.read_byte_address(0x0200_0010), 0xEF);
    assert_eq!(bus.read_byte_address(0x0200_0013), 0xDE);
    assert_eq!(bus.read_halfword_address(0x0200_0012), 0xDEAD);
}

#[test]
fn chip_wram_is_mirrored_and_aligned() {
    let mut bus = new_bus();
    bus.write_word_address(0x1122_3344, 0x0300_0102);
    // Word writes go to the aligned address; chip WRAM repeats every 32 KiB.
    assert_eq!(bus.read_word_address(0x0300_0100), 0x1122_3344);
    assert_eq!(bus.read_word_address(0x0300_8100), 0x1122_3344);
}

#[test]
fn byte_write_leaves_neighbours() {
    let mut bus = new_bus();
    bus.write_word_address(0xAABB_CCDD, 0x0200_0000);
    bus.write_byte_address(0x11, 0x0200_0001);
    assert_eq!(bus.read_word_address(0x0200_0000), 0xAABB_11DD);
}

#[test]
fn rom_reads_and_open_bus_past_the_end() {
    let mut bus = new_bus();
    assert_eq!(bus.read_word_address(0x0800_0000), 0x7856_3412);
    assert_eq!(bus.read_byte_address(0x0800_0002), 0x56);
    // Past the end the halfword address shows through.
    assert_eq!(bus.read_halfword_address(0x0800_0010), 0x0008);
}

#[test]
fn keypad_presses_show_in_keyinput() {
    let mut bus = new_bus();
    assert_eq!(bus.read_halfword_address(0x0400_0130), 0xFFFF);
    bus.keypad.set_pressed(Key::A, true);
    bus.keypad.set_pressed(Key::Start, true);
    assert_eq!(bus.read_halfword_address(0x0400_0130), 0xFFF6);
    bus.keypad.set_pressed(Key::A, false);
    assert_eq!(bus.read_halfword_address(0x0400_0130), 0xFFF7);
}

#[test]
fn keypad_interrupt_in_or_mode() {
    let mut keypad = Keypad::new();
    keypad.interrupt_control = (1 << 14) | 0b1;
    assert!(!keypad.poll_pending_interrupts());
    keypad.set_pressed(Key::A, true);
    assert!(keypad.poll_pending_interrupts());
}

#[test]
fn timer_counts_after_the_start_delay_and_reloads() {
    let mut timer = Timer::new();
    timer.write_timer_counter_reload::<u16>(0xFFFE, 0);
    timer.write_timer_control::<u16>(0x80, 0);
    assert_eq!(timer.get_current_counter(), 0xFFFE);
    assert!(!timer.step(false));
    assert_eq!(timer.get_current_counter(), 0xFFFE);
    assert!(!timer.step(false));
    assert_eq!(timer.get_current_counter(), 0xFFFF);
    assert!(timer.step(false));
    assert_eq!(timer.get_current_counter(), 0xFFFE);
}

#[test]
fn stopped_timer_does_not_count() {
    let mut timer = Timer::new();
    for _ in 0..10 {
        assert!(!timer.step(true));
    }
    assert_eq!(timer.get_current_counter(), 0);
}

#[test]
fn cartridge_rejects_bad_images() {
    assert!(matches!(Cartridge::new(vec![0; MAX_ROM_SIZE + 1], None), Err(CartridgeError::RomTooLarge)));
    assert!(matches!(Cartridge::new(vec![], Some(vec![0; 16])), Err(CartridgeError::BackupSizeMismatch)));
    let cartridge = Cartridge::new(vec![], Some(vec![0x5A; SRAM_SIZE])).unwrap();
    assert_eq!(cartridge.read_sram_byte(3), 0x5A);
    let blank = Cartridge::new(vec![], None).unwrap();
    assert_eq!(blank.read_sram_byte(3), 0xFF);
}

#[test]
fn sram_read_after_write_through_the_bus() {
    let mut bus = new_bus();
    bus.write_byte_address(0x42, 0x0E00_0010);
    assert_eq!(bus.read_byte_address(0x0E00_0010), 0x42);
}

#[test]
fn palette_read_after_write() {
    let mut bus = new_bus();
    bus.write_halfword_address(0x7FFF, 0x0500_0002);
    assert_eq!(bus.read_halfword_address(0x0500_0002), 0x7FFF);
}

#[test]
fn wave_ram_read_after_write() {
    let mut apu = Apu::new();
    apu.write_ch3_wave_ram_byte(0xA5, 1);
    assert_eq!(apu.read_ch3_wave_ram_byte(1), 0xA5);
    assert_eq!(apu.read_ch3_wave_ram_byte(2), 0);
    // Selecting the other bank shows the untouched one.
    apu.write_ch3_stop_wave_ram_select::<u16>(1 << 6, 0);
    assert_eq!(apu.read_ch3_wave_ram_byte(1), 0);
}

#[test]
fn rgb555_components() {
    let colour = Rgb555(0x7C1F);
    assert_eq!(colour.red(), 0x1F);
    assert_eq!(colour.green(), 0);
    assert_eq!(colour.blue(), 0x1F);
}

#[test]
fn checksum_hashes_the_colour_bytes() {
    let cpu = Cpu::new(Cartridge::new(vec![], None).unwrap());
    let bytes = lcd_checksum_bytes(&cpu.bus.lcd.buffer);
    assert_eq!(bytes.len(), 240 * 160 * 3);
    assert_eq!(calculate_lcd_checksum(&cpu), xxhash_rust::xxh3::xxh3_64(&bytes));
    assert_ne!(calculate_lcd_checksum(&cpu), 0);
}

#[test]
fn checksum_bytes_are_red_green_blue() {
    let pixels = vec![Rgb555(0x0001), Rgb555(0x7C00)];
    assert_eq!(lcd_checksum_bytes(&pixels), vec![1, 0, 0, 0, 0, 0x1F]);
}

#[test]
fn bios_must_be_16_kib() {
    let mut bus = new_bus();
    assert!(!bus.load_bios(&vec![0u8; 16]));
    let mut bios = vec![0u8; 0x4000];
    bios[0] = 0x78;
    bios[1] = 0x56;
    bios[2] = 0x34;
    bios[3] = 0x12;
    assert!(bus.load_bios(&bios));
    assert_eq!(bus.fetch_arm_opcode(0), 0x1234_5678);
}

#[test]
fn immediate_dma_copies_words() {
    let mut bus = new_bus();
    for i in 0..4u32 {
        bus.write_word_address(0x1111_1111 * (i + 1), 0x0200_0000 + 4 * i);
    }
    bus.write_word_address(0x0200_0000, 0x0400_00D4);
    bus.write_word_address(0x0300_0000, 0x0400_00D8);
    bus.write_halfword_address(4, 0x0400_00DC);
    bus.write_halfword_address(0x8400, 0x0400_00DE);
    bus.step();
    for i in 0..4u32 {
        assert_eq!(bus.read_word_address(0x0300_0000 + 4 * i), 0x1111_1111 * (i + 1));
    }
}

#[test]
fn dma_halfwords_to_a_decrementing_destination_then_stops() {
    let mut bus = new_bus();
    bus.write_halfword_address(0xAAAA, 0x0200_0000);
    bus.write_halfword_address(0xBBBB, 0x0200_0002);
    bus.write_word_address(0x0200_0000, 0x0400_00D4);
    bus.write_word_address(0x0300_0010, 0x0400_00D8);
    bus.write_halfword_address(2, 0x0400_00DC);
    // Enabled, immediate, halfwords, destination decrement, no repeat,
    // interrupt at the end.
    bus.write_halfword_address(0xC020, 0x0400_00DE);
    bus.step();
    assert_eq!(bus.read_halfword_address(0x0300_0010), 0xAAAA);
    assert_eq!(bus.read_halfword_address(0x0300_000E), 0xBBBB);
    // The channel disabled itself and requested its interrupt.
    assert_eq!(bus.read_halfword_address(0x0400_00DE) & 0x8000, 0);
    assert_ne!(bus.get_interrupt_request_debug()[1] & (1 << 11), 0);
}

#[test]
fn a_frame_of_display_steps() {
    let mut lcd = gba_core::lcd::Lcd::new();
    lcd.lcd_status = 100 << 8;
    lcd.dot = 17;
    lcd.vcount = 3;
    let (mut vblank, mut hblank, mut matched) = (0, 0, 0);
    for _ in 0..70224 {
        let r = lcd.step();
        vblank += r.vblank_entered as u32;
        hblank += r.hblank_entered as u32;
        matched += r.vcount_matched as u32;
    }
    assert_eq!((vblank, hblank, matched), (1, 160, 1));
    assert_eq!((lcd.dot, lcd.vcount), (17, 3));
}

#[test]
fn interrupt_requests_move_one_stage_per_cycle() {
    let mut bus = new_bus();
    bus.interrupt_request = [1, 2, 4, 8];
    bus.step();
    let r = bus.get_interrupt_request_debug();
    assert_eq!(r[1], r[0]);
    assert_eq!((r[2], r[3]), (2, 4));
    bus.step();
    bus.step();
    assert_eq!(bus.get_interrupt_request_debug()[3] & 1, 1);
}
