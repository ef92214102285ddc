use dmg_core::{
    AddressBus, BankMode, Cartridge, Console, CoreError, Interrupt, Interrupts, Mbc, Mode, Shade,
    Video, CPU, ROM,
};

fn header_rom(cart_type: u8, ram_code: u8, len: usize) -> Vec<u8> {
    let mut bytes = vec![0u8; len];
    bytes[0x147] = cart_type;
    bytes[0x149] = ram_code;
    bytes
}

#[test]
fn rom_too_short_is_refused() {
    let r = ROM::new(vec![0u8; 0x100]);
    assert!(matches!(r, Err(CoreError::RomTooShort)));
}

#[test]
fn unsupported_cartridge_type_is_refused() {
    let rom = ROM::new(header_rom(0x05, 0x00, 0x8000)).unwrap();
    assert!(matches!(
        Cartridge::from_rom(rom),
        Err(CoreError::UnsupportedCartridgeType(0x05))
    ));
}

#[test]
fn unsupported_ram_size_is_refused() {
    let rom = ROM::new(header_rom(0x01, 0x04, 0x8000)).unwrap();
    assert!(matches!(
        Cartridge::from_rom(rom),
        Err(CoreError::UnsupportedRamSize(0x04))
    ));
}

#[test]
fn title_stops_at_nul_and_replaces_non_ascii() {
    let mut bytes = vec![0u8; 0x8000];
    bytes[0x134..0x134 + 6].copy_from_slice(b"TETRIS");
    let rom = ROM::new(bytes.clone()).unwrap();
    assert_eq!(rom.title(), "TETRIS");

    bytes[0x136] = 0xC3;
    bytes[0x139] = 0x00;
    bytes[0x13A] = 0x51;
    let rom = ROM::new(bytes).unwrap();
    assert_eq!(rom.title(), "TE\u{FFFD}RI");
}

#[test]
fn mbc1_bank_switch_and_forced_bank_one() {
    let mut bytes = header_rom(0x01, 0x02, 0x20000);
    bytes[0x4000] = 0x11; // bank 1
    bytes[0x8000] = 0x22; // bank 2
    bytes[0xC000] = 0x33; // bank 3
    let rom = ROM::new(bytes).unwrap();
    let mut cart = Cartridge::from_rom(rom).unwrap();

    assert_eq!(cart.read_byte(0x4000), 0x11);
    cart.write_byte(0x2000, 0x02);
    assert_eq!(cart.read_byte(0x4000), 0x22);
    cart.write_byte(0x2000, 0x03);
    assert_eq!(cart.read_byte(0x4000), 0x33);

    // Selecting bank 0 lands on bank 1.
    cart.write_byte(0x2000, 0x00);
    assert_eq!(cart.read_byte(0x4000), 0x11);
}

#[test]
fn mbc1_ram_enable_gate() {
    let rom = ROM::new(header_rom(0x01, 0x02, 0x8000)).unwrap();
    let mut cart = Cartridge::from_rom(rom).unwrap();

    // Disabled: writes are dropped, reads float high.
    cart.write_byte(0xA010, 0x5A);
    assert_eq!(cart.read_byte(0xA010), 0xFF);

    cart.write_byte(0x0000, 0x0A);
    cart.write_byte(0xA010, 0x5A);
    assert_eq!(cart.read_byte(0xA010), 0x5A);

    cart.write_byte(0x0000, 0x00);
    assert_eq!(cart.read_byte(0xA010), 0xFF);
}

#[test]
fn mbc1_bank_mode_select() {
    let rom = ROM::new(header_rom(0x01, 0x03, 0x8000)).unwrap();
    let mut cart = Cartridge::from_rom(rom).unwrap();
    cart.write_byte(0x6000, 0x01);
    cart.write_byte(0x4000, 0x02);
    match &cart.mbc {
        Mbc::MBC1(m) => {
            assert!(matches!(m.bank_mode, BankMode::RAM));
            assert_eq!(m.ram_bank, 2);
        },
        _ => panic!("expected the banked mapper"),
    }
}

#[test]
fn rom_only_ignores_writes_and_reads_image() {
    let mut bytes = header_rom(0x00, 0x00, 0x8000);
    bytes[0x2000] = 0x99;
    let rom = ROM::new(bytes).unwrap();
    let mut cart = Cartridge::from_rom(rom).unwrap();
    cart.write_byte(0x2000, 0x01);
    assert_eq!(cart.read_byte(0x2000), 0x99);
    assert_eq!(cart.read_byte(0xA000), 0xFF);
}

#[test]
fn unmapped_addresses_read_high() {
    let bus = AddressBus::new();
    assert_eq!(bus.read_byte(0xFEA5), 0xFF);
    assert_eq!(bus.read_byte(0xFF03), 0xFF);
    assert_eq!(bus.read_byte(0xFF46), 0xFF);
}

#[test]
fn ly_is_read_only_through_the_bus() {
    let mut bus = AddressBus::new();
    bus.write_byte(0xFF44, 0x55);
    assert_eq!(bus.read_byte(0xFF44), 0x00);
}

#[test]
fn stat_read_composes_live_bits() {
    let mut bus = AddressBus::new();
    bus.write_byte(0xFF41, 0xFF);
    // Stored bits 7..3 kept; bit 2 is the coincidence flag (LY == LYC ==
    // 0 here); bits 1..0 are the mode, OAM search at power-on.
    assert_eq!(bus.read_byte(0xFF41), 0xF8 | 0x04 | 0x02);
}

#[test]
fn word_access_is_little_endian() {
    let mut bus = AddressBus::new();
    bus.write_word(0xC100, 0xBEEF);
    assert_eq!(bus.read_byte(0xC100), 0xEF);
    assert_eq!(bus.read_byte(0xC101), 0xBE);
    assert_eq!(bus.read_word(0xC100), 0xBEEF);
}

#[test]
fn interrupt_request_sets_its_bit() {
    let mut ints = Interrupts::new();
    ints.request(Interrupt::Timer);
    assert_eq!(ints.iflag, 0x04);
    ints.request(Interrupt::VBlank);
    assert_eq!(ints.iflag, 0x05);
    ints.request(Interrupt::Timer);
    assert_eq!(ints.iflag, 0x05);
}

#[test]
fn interrupt_dispatch_jumps_to_vector() {
    let mut cpu = CPU::new();
    let mut bus = AddressBus::new();
    cpu.registers.pc = 0xC234;
    cpu.registers.sp = 0xFFFE;
    bus.write_byte(0xFFFF, 0x04);
    bus.write_byte(0xFF0F, 0x04);

    let c = cpu.step(&mut bus).unwrap();
    assert_eq!(c, 16);
    assert_eq!(cpu.registers.pc, 0x0050);
    assert_eq!(cpu.registers.sp, 0xFFFC);
    assert!(!cpu.ime);
    assert_eq!(bus.read_byte(0xFF0F), 0x00);
    assert_eq!(bus.read_word(0xFFFC), 0xC234);
}

#[test]
fn halted_cpu_ticks_until_interrupt() {
    let mut cpu = CPU::new();
    let mut bus = AddressBus::new();
    cpu.ime = false;
    cpu.halt = true;
    assert_eq!(cpu.step(&mut bus).unwrap(), 4);
    assert!(cpu.halt);

    // A pending enabled interrupt lifts the halt even without IME; the
    // next fetch proceeds (a NOP from empty memory... 0xC000 reads 0).
    cpu.registers.pc = 0xC000;
    bus.write_byte(0xFFFF, 0x01);
    bus.write_byte(0xFF0F, 0x01);
    let c = cpu.step(&mut bus).unwrap();
    assert!(!cpu.halt);
    assert_eq!(c, 4);
    assert_eq!(cpu.registers.pc, 0xC001);
}

#[test]
fn undefined_opcode_aborts() {
    let mut cpu = CPU::new();
    let mut bus = AddressBus::new();
    bus.write_byte(0xC000, 0xD3);
    cpu.registers.pc = 0xC000;
    assert!(matches!(
        cpu.step(&mut bus),
        Err(CoreError::UndefinedOpcode(0xD3))
    ));
}

#[test]
fn rotate_and_shift_results() {
    let mut cpu = CPU::new();
    cpu.registers.b = 0x85;
    cpu.rlc_b();
    assert_eq!(cpu.registers.b, 0x0B);
    assert!(cpu.registers.f.carry && !cpu.registers.f.zero);

    cpu.registers.c = 0xF0;
    cpu.swap_c();
    assert_eq!(cpu.registers.c, 0x0F);
    assert!(!cpu.registers.f.carry);

    cpu.registers.d = 0x81;
    cpu.sra_d();
    assert_eq!(cpu.registers.d, 0xC0);
    assert!(cpu.registers.f.carry);

    cpu.registers.e = 0x01;
    cpu.srl_e();
    assert_eq!(cpu.registers.e, 0x00);
    assert!(cpu.registers.f.zero && cpu.registers.f.carry);

    cpu.registers.f.carry = true;
    cpu.registers.h = 0x00;
    cpu.rl_h();
    assert_eq!(cpu.registers.h, 0x01);
    assert!(!cpu.registers.f.carry && !cpu.registers.f.zero);
}

#[test]
fn bit_res_set_behaviour() {
    let mut cpu = CPU::new();
    cpu.registers.b = 0b0100_0000;
    cpu.registers.f.carry = true;
    cpu.bit_6_b();
    assert!(!cpu.registers.f.zero && cpu.registers.f.half_carry && cpu.registers.f.carry);
    cpu.bit_0_b();
    assert!(cpu.registers.f.zero);

    cpu.registers.c = 0xFF;
    cpu.res_3_c();
    assert_eq!(cpu.registers.c, 0xF7);
    cpu.set_3_c();
    assert_eq!(cpu.registers.c, 0xFF);
}

#[test]
fn add_sp_offset_flags() {
    let mut cpu = CPU::new();
    let mut bus = AddressBus::new();
    cpu.registers.sp = 0xFFF8;
    cpu.registers.pc = 0xC000;
    bus.write_byte(0xC000, 0x08);
    cpu.add_sp_n(&bus);
    assert_eq!(cpu.registers.sp, 0x0000);
    assert!(cpu.registers.f.half_carry && cpu.registers.f.carry);
    assert!(!cpu.registers.f.zero && !cpu.registers.f.subtract);

    // A negative offset.
    cpu.registers.sp = 0x0000;
    cpu.registers.pc = 0xC001;
    bus.write_byte(0xC001, 0xFE);
    cpu.add_sp_n(&bus);
    assert_eq!(cpu.registers.sp, 0xFFFE);
}

#[test]
fn carry_chain_arithmetic() {
    let mut cpu = CPU::new();
    cpu.registers.a = 0xE1;
    cpu.registers.b = 0x0F;
    cpu.registers.f.carry = true;
    cpu.adc_a_b();
    assert_eq!(cpu.registers.a, 0xF1);
    assert!(cpu.registers.f.half_carry && !cpu.registers.f.carry);

    cpu.registers.a = 0x3B;
    cpu.registers.c = 0x2A;
    cpu.registers.f.carry = true;
    cpu.sbc_a_c();
    assert_eq!(cpu.registers.a, 0x10);
    assert!(!cpu.registers.f.carry && !cpu.registers.f.zero);
}

#[test]
fn scf_ccf_cpl() {
    let mut cpu = CPU::new();
    cpu.registers.f.zero = true;
    cpu.scf();
    assert!(cpu.registers.f.carry && cpu.registers.f.zero);
    assert!(!cpu.registers.f.subtract && !cpu.registers.f.half_carry);
    cpu.ccf();
    assert!(!cpu.registers.f.carry);
    cpu.registers.a = 0x35;
    cpu.cpl();
    assert_eq!(cpu.registers.a, 0xCA);
    assert!(cpu.registers.f.subtract && cpu.registers.f.half_carry);
}

#[test]
fn relative_jump_is_signed() {
    let mut cpu = CPU::new();
    let mut bus = AddressBus::new();
    cpu.registers.pc = 0xC010;
    bus.write_byte(0xC010, 0xFE); // -2: back to the instruction itself
    cpu.jr_n(&bus);
    assert_eq!(cpu.registers.pc, 0xC00F);

    cpu.registers.pc = 0xC010;
    bus.write_byte(0xC010, 0x10);
    cpu.jr_n(&bus);
    assert_eq!(cpu.registers.pc, 0xC021);
}

#[test]
fn palette_decodes_pairs() {
    let p = Video::palette(0xE4);
    assert_eq!(p, vec![Shade::White, Shade::LightGrey, Shade::DarkGrey, Shade::Black]);
    let p = Video::palette(0x1B);
    assert_eq!(p, vec![Shade::Black, Shade::DarkGrey, Shade::LightGrey, Shade::White]);
}

#[test]
fn vram_hidden_during_pixel_transfer() {
    let mut video = Video::new();
    video.write_byte(0x8000, 0x12);
    assert_eq!(video.read_byte(0x8000), 0x12);
    video.mode = Mode::VRAMRead;
    assert_eq!(video.read_byte(0x8000), 0xFF);
    video.write_byte(0x8000, 0x34);
    video.mode = Mode::HBlank;
    assert_eq!(video.read_byte(0x8000), 0x12);
}

#[test]
fn oam_write_updates_sprite_cache() {
    let mut video = Video::new();
    video.mode = Mode::HBlank;
    video.write_byte(0xFE00, 24); // y
    video.write_byte(0xFE01, 16); // x
    video.write_byte(0xFE02, 7); // tile
    video.write_byte(0xFE03, 0b1110_0000); // behind, y flip, x flip
    let s = video.sprites[0];
    assert_eq!((s.y, s.x, s.tile), (24, 16, 7));
    assert!(s.y_flip && s.x_flip);
    assert_eq!(s.palette, 0);
}

#[test]
fn frame_bytes_match_shades() {
    let console = Console::new();
    let bytes = console.frame_bytes();
    assert_eq!(bytes.len(), 160 * 144);
    assert!(bytes.iter().all(|&b| b == 0));
}

#[test]
fn boot_register_map_is_written() {
    let rom = ROM::new(header_rom(0x00, 0x00, 0x8000)).unwrap();
    let cart = Cartridge::from_rom(rom).unwrap();
    let mut console = Console::new();
    console.insert_cartridge(cart);
    assert_eq!(console.bus.video.lcdc, 0x91);
    assert_eq!(console.bus.video.bgp, 0xFC);
    assert_eq!(console.bus.video.obp0, 0xFF);
    assert_eq!(console.bus.interrupts.ie, 0x00);
    assert_eq!(console.bus.timer.tac, 0x00);
}
