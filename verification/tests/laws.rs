use dmg_core::{AddressBus, Console, Flag, Interrupt, Registers, Serial, Timer, CPU};

fn fresh_registers() -> Registers {
    Registers {
        a: 0,
        b: 0,
        c: 0,
        d: 0,
        e: 0,
        f: Flag { zero: false, subtract: false, half_carry: false, carry: false },
        h: 0,
        l: 0,
        pc: 0,
        sp: 0,
    }
}

#[test]
fn af_round_trip_masks_low_nibble() {
    let mut regs = fresh_registers();
    for v in [0x0000u16, 0x1234, 0xABCD, 0xFFFF, 0x00F0, 0x000F] {
        regs.set_af(v);
        assert_eq!(regs.get_af(), v & 0xFFF0);
    }
}

#[test]
fn af_round_trip_all_flag_bytes() {
    let mut regs = fresh_registers();
    for lo in 0..=255u16 {
        let v = 0x5A00 | lo;
        regs.set_af(v);
        assert_eq!(regs.get_af(), v & 0xFFF0);
    }
}

#[test]
fn wram_write_read_and_echo() {
    let mut bus = AddressBus::new();
    bus.write_byte(0xC000, 0x11);
    assert_eq!(bus.read_byte(0xC000), 0x11);
    assert_eq!(bus.read_byte(0xE000), 0x11);

    bus.write_byte(0xDDFF, 0xAB);
    assert_eq!(bus.read_byte(0xDDFF), 0xAB);
    assert_eq!(bus.read_byte(0xFDFF), 0xAB);

    bus.write_byte(0xE123, 0x77);
    assert_eq!(bus.read_byte(0xC123), 0x77);
}

#[test]
fn vram_write_read_back_and_tile_decode() {
    let mut bus = AddressBus::new();
    // Even byte of tile 2, row 3: the low plane, most significant bit at x = 0.
    bus.write_byte(0x8000 + 2 * 16 + 6, 0b1010_0001);
    assert_eq!(bus.read_byte(0x8000 + 2 * 16 + 6), 0b1010_0001);
    let row = bus.video.tiles[2].pixels[3 * 8..3 * 8 + 8].to_vec();
    assert_eq!(row, vec![1, 0, 1, 0, 0, 0, 0, 1]);

    // Odd byte of the same row: the high plane.
    bus.write_byte(0x8000 + 2 * 16 + 7, 0b1100_0000);
    let row = bus.video.tiles[2].pixels[3 * 8..3 * 8 + 8].to_vec();
    assert_eq!(row, vec![3, 2, 1, 0, 0, 0, 0, 1]);
}

#[test]
fn inc_flags_over_all_values() {
    let mut cpu = CPU::new();
    for v in 0..=255u8 {
        for carry in [false, true] {
            cpu.registers.b = v;
            cpu.registers.f.carry = carry;
            cpu.inc_b();
            assert_eq!(cpu.registers.b, v.wrapping_add(1));
            assert_eq!(cpu.registers.f.zero, v == 0xFF);
            assert!(!cpu.registers.f.subtract);
            assert_eq!(cpu.registers.f.half_carry, v & 0xF == 0xF);
            assert_eq!(cpu.registers.f.carry, carry);
        }
    }
}

#[test]
fn dec_flags_over_all_values() {
    let mut cpu = CPU::new();
    for v in 0..=255u8 {
        for carry in [false, true] {
            cpu.registers.e = v;
            cpu.registers.f.carry = carry;
            cpu.dec_e();
            assert_eq!(cpu.registers.e, v.wrapping_sub(1));
            assert_eq!(cpu.registers.f.zero, v == 1);
            assert!(cpu.registers.f.subtract);
            assert_eq!(cpu.registers.f.half_carry, v & 0xF == 0x0);
            assert_eq!(cpu.registers.f.carry, carry);
        }
    }
}

#[test]
fn inc_dec_on_every_register() {
    let mut cpu = CPU::new();
    cpu.registers.a = 0x0F;
    cpu.inc_a();
    assert_eq!(cpu.registers.a, 0x10);
    assert!(cpu.registers.f.half_carry && !cpu.registers.f.zero && !cpu.registers.f.subtract);
    cpu.registers.c = 0x10;
    cpu.dec_c();
    assert_eq!(cpu.registers.c, 0x0F);
    assert!(cpu.registers.f.half_carry && cpu.registers.f.subtract);
    cpu.registers.d = 0xFF;
    cpu.inc_d();
    assert!(cpu.registers.f.zero && cpu.registers.f.half_carry);
    cpu.registers.h = 0x01;
    cpu.dec_h();
    assert!(cpu.registers.f.zero);
    cpu.registers.l = 0x00;
    cpu.dec_l();
    assert_eq!(cpu.registers.l, 0xFF);
    assert!(cpu.registers.f.half_carry);
}

#[test]
fn push_pop_round_trip() {
    let mut cpu = CPU::new();
    let mut bus = AddressBus::new();

    cpu.registers.sp = 0xFFFE;
    cpu.registers.set_bc(0xBEEF);
    cpu.push_bc(&mut bus);
    cpu.registers.set_bc(0);
    cpu.pop_bc(&bus);
    assert_eq!(cpu.registers.get_bc(), 0xBEEF);
    assert_eq!(cpu.registers.sp, 0xFFFE);

    cpu.registers.sp = 0xD000;
    cpu.registers.set_de(0x1234);
    cpu.push_de(&mut bus);
    cpu.pop_de(&bus);
    assert_eq!(cpu.registers.get_de(), 0x1234);
    assert_eq!(cpu.registers.sp, 0xD000);

    cpu.registers.set_hl(0x8001);
    cpu.push_hl(&mut bus);
    cpu.pop_hl(&bus);
    assert_eq!(cpu.registers.get_hl(), 0x8001);

    // AF keeps only its meaningful bits.
    cpu.registers.set_af(0xABFF);
    cpu.push_af(&mut bus);
    cpu.registers.set_af(0);
    cpu.pop_af(&bus);
    assert_eq!(cpu.registers.get_af(), 0xABF0);
}

#[test]
fn serial_transfer_emits_once() {
    let mut serial = Serial::new();
    serial.sb = 0x42;
    serial.sc = 0x81;

    // Four cycles are not enough to clock the byte out.
    let irqs = serial.step(4);
    assert!(irqs.is_empty());
    assert!(serial.sink.is_empty());

    // Four more complete the transfer: one byte, one interrupt.
    let irqs = serial.step(4);
    assert_eq!(irqs.len(), 1);
    assert!(matches!(irqs[0], Interrupt::Serial));
    assert_eq!(serial.sink, vec![0x42]);
    assert_eq!(serial.sb, 0xFF);
    assert_eq!(serial.sc, 0x01);

    // The start bit is gone: stepping further emits nothing.
    for _ in 0..100 {
        let irqs = serial.step(24);
        assert!(irqs.is_empty());
    }
    assert_eq!(serial.sink, vec![0x42]);
}

#[test]
fn timer_overflow_reloads_and_interrupts() {
    let mut timer = Timer::new();
    timer.tima = 0xFE;
    timer.tma = 0xFE;
    timer.tac = 0x05;

    let irqs = timer.step(16);
    assert!(irqs.is_empty());
    assert_eq!(timer.tima, 0xFF);

    let irqs = timer.step(16);
    assert_eq!(irqs.len(), 1);
    assert!(matches!(irqs[0], Interrupt::Timer));
    assert_eq!(timer.tima, 0xFE);
}

#[test]
fn timer_double_overflow_in_one_call() {
    let mut timer = Timer::new();
    timer.tima = 0xFE;
    timer.tma = 0xFE;
    timer.tac = 0x05;

    // One 32-cycle call holds two ticks at the fastest rate: 0xFE ->
    // 0xFF -> overflow, reloading from TMA and raising one interrupt.
    let irqs = timer.step(32);
    assert_eq!(irqs.len(), 1);
    assert!(matches!(irqs[0], Interrupt::Timer));
    assert_eq!(timer.tima, 0xFE);
    assert_eq!(timer.div, 0);

    // A whole second's worth of cycles in one call: 256 ticks, exactly
    // 128 overflows, DIV up by 16.
    let irqs = timer.step(4096);
    assert_eq!(irqs.len(), 128);
    assert_eq!(timer.tima, 0xFE);
    assert_eq!(timer.div, 16);
}

#[test]
fn serial_completes_in_one_large_call() {
    let mut serial = Serial::new();
    serial.sb = 0x99;
    serial.sc = 0x81;
    let irqs = serial.step(1000);
    assert_eq!(irqs.len(), 1);
    assert_eq!(serial.sink, vec![0x99]);
    assert_eq!(serial.sc, 0x01);
}

#[test]
fn divider_ticks_every_256_cycles() {
    let mut timer = Timer::new();
    for _ in 0..16 {
        timer.step(16);
    }
    assert_eq!(timer.div, 1);
    for _ in 0..16 {
        timer.step(16);
    }
    assert_eq!(timer.div, 2);
}

#[test]
fn display_off_frame_keeps_framebuffer() {
    let mut console = Console::new();
    let mut rom = vec![0u8; 0x8000];
    rom[0x147] = 0x00;
    // Switch the display off, then spin.
    let code = [0x3E, 0x00, 0xE0, 0x40, 0x18, 0xFE];
    rom[0x100..0x100 + code.len()].copy_from_slice(&code);
    let rom = dmg_core::ROM::new(rom).unwrap();
    let cart = dmg_core::Cartridge::from_rom(rom).unwrap();
    console.insert_cartridge(cart);
    let before: Vec<_> = console.framebuffer().clone();
    console.run_frame().unwrap();
    console.run_frame().unwrap();
    assert_eq!(console.framebuffer(), &before);
}

#[test]
fn frame_cycle_count_is_bounded() {
    let mut console = Console::new();
    let mut rom = vec![0u8; 0x8000];
    rom[0x147] = 0x00;
    rom[0x100] = 0x18;
    rom[0x101] = 0xFE;
    let rom = dmg_core::ROM::new(rom).unwrap();
    let cart = dmg_core::Cartridge::from_rom(rom).unwrap();
    console.insert_cartridge(cart);
    let n = console.run_frame().unwrap();
    assert!(n > 70224);
    assert!(n <= 70224 + 24);
}

#[test]
fn frame_without_cartridge_runs_nothing() {
    let mut console = Console::new();
    assert_eq!(console.run_frame().unwrap(), 0);
}
