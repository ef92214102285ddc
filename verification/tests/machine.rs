use dmg_core::{Cartridge, Console, Shade, ROM};

fn console_with(code_at: &[(usize, &[u8])]) -> Console {
    let mut bytes = vec![0u8; 0x8000];
    bytes[0x147] = 0x00;
    for (addr, code) in code_at {
        bytes[*addr..*addr + code.len()].copy_from_slice(code);
    }
    let rom = ROM::new(bytes).unwrap();
    let cart = Cartridge::from_rom(rom).unwrap();
    let mut console = Console::new();
    console.insert_cartridge(cart);
    console
}

#[test]
fn serial_rom_emits_one_byte() {
    // JP 0x0150; there LD A,0x42; LDH (0xFF01),A; LD A,0x81;
    // LDH (0xFF02),A; JR back to itself.
    let mut console = console_with(&[
        (0x100, &[0x00, 0x00, 0xC3, 0x50, 0x01]),
        (0x150, &[0x3E, 0x42, 0xE0, 0x01, 0x3E, 0x81, 0xE0, 0x02, 0x18, 0xFE]),
    ]);
    console.run_frame().unwrap();
    assert_eq!(console.take_serial(), vec![0x42]);
}

#[test]
fn push_pop_rom_moves_bc_to_hl() {
    // LD BC,0x1234; PUSH BC; POP HL.
    let mut console = console_with(&[(0x100, &[0x01, 0x34, 0x12, 0xC5, 0xE1])]);
    let sp0 = console.cpu.registers.sp;
    console.cpu.step(&mut console.bus).unwrap();
    console.cpu.step(&mut console.bus).unwrap();
    console.cpu.step(&mut console.bus).unwrap();
    assert_eq!(console.cpu.registers.get_hl(), 0x1234);
    assert_eq!(console.cpu.registers.sp, sp0);
}

#[test]
fn black_tile_rom_fills_rendered_lines() {
    // Display off; tile 0 written as 16 bytes of 0xFF (every pixel index
    // 3); the 0x9800 map filled with tile 0; BGP 0xE4; display on with
    // LCDC 0x91; spin.
    let code: &[u8] = &[
        0x3E, 0x00, 0xE0, 0x40, // LD A,0; LDH (0x40),A
        0x3E, 0xFF, // LD A,0xFF
        0x21, 0x00, 0x80, // LD HL,0x8000
        0x06, 0x10, // LD B,16
        0x22, 0x05, 0x20, 0xFC, // LD (HL+),A; DEC B; JR NZ,-4
        0x3E, 0x00, // LD A,0
        0x21, 0x00, 0x98, // LD HL,0x9800
        0x0E, 0x04, // LD C,4
        0x06, 0x00, // LD B,0 (256 iterations)
        0x22, 0x05, 0x20, 0xFC, // LD (HL+),A; DEC B; JR NZ,-4
        0x0D, 0x20, 0xF7, // DEC C; JR NZ,-9
        0x3E, 0xE4, 0xE0, 0x47, // LD A,0xE4; LDH (0x47),A
        0x3E, 0x91, 0xE0, 0x40, // LD A,0x91; LDH (0x40),A
        0x18, 0xFE, // JR -2
    ];
    let mut console = console_with(&[(0x100, code)]);
    console.run_frame().unwrap();
    console.run_frame().unwrap();
    console.run_frame().unwrap();
    let fb = console.framebuffer();
    // Lines 0..=142 have been rendered; the machine enters the vertical
    // blank as LY becomes 143, so the last row keeps its initial shade.
    for line in 0..143 {
        for x in 0..160 {
            assert_eq!(fb[line * 160 + x], Shade::Black, "line {} x {}", line, x);
        }
    }
    for x in 0..160 {
        assert_eq!(fb[143 * 160 + x], Shade::White);
    }
}

#[test]
fn timer_rom_raises_interrupt_and_reloads() {
    // TMA = 0xFE, TAC = 0x05 (enabled, fastest rate), TIMA = 0xFE; spin.
    let code: &[u8] = &[
        0x3E, 0xFE, 0xE0, 0x06, // LD A,0xFE; LDH (0x06),A
        0x3E, 0x05, 0xE0, 0x07, // LD A,0x05; LDH (0x07),A
        0x3E, 0xFE, 0xE0, 0x05, // LD A,0xFE; LDH (0x05),A
        0x18, 0xFE, // JR -2
    ];
    let mut console = console_with(&[(0x100, code)]);
    console.run_frame().unwrap();
    assert_ne!(console.bus.interrupts.iflag & 0x04, 0);
    assert_eq!(console.bus.timer.tma, 0xFE);
    assert!(console.bus.timer.tima >= 0xFE);
}

#[test]
fn daa_rom_adjusts_bcd_sum() {
    // LD A,0x09; ADD A,0x01; DAA.
    let mut console = console_with(&[(0x100, &[0x3E, 0x09, 0xC6, 0x01, 0x27])]);
    console.cpu.step(&mut console.bus).unwrap();
    console.cpu.step(&mut console.bus).unwrap();
    console.cpu.step(&mut console.bus).unwrap();
    let regs = &console.cpu.registers;
    assert_eq!(regs.a, 0x10);
    assert!(!regs.f.zero);
    assert!(!regs.f.subtract);
    assert!(!regs.f.half_carry);
    assert!(!regs.f.carry);
}

#[test]
fn oam_dma_rom_copies_wram_page() {
    // Display off; WRAM 0xC000..0xC09F filled with its offset; DMA from
    // page 0xC0.
    let code: &[u8] = &[
        0x3E, 0x00, 0xE0, 0x40, // LD A,0; LDH (0x40),A
        0x21, 0x00, 0xC0, // LD HL,0xC000
        0x06, 0xA0, // LD B,0xA0
        0x3E, 0x00, // LD A,0
        0x22, 0x3C, 0x05, // LD (HL+),A; INC A; DEC B
        0x20, 0xFB, // JR NZ,-5
        0x3E, 0xC0, 0xE0, 0x46, // LD A,0xC0; LDH (0x46),A
        0x18, 0xFE, // JR -2
    ];
    let mut console = console_with(&[(0x100, code)]);
    console.run_frame().unwrap();
    for i in 0..160usize {
        assert_eq!(console.bus.video.oam[i], i as u8, "oam byte {}", i);
    }
}
