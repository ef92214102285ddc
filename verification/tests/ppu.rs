use dmg_core::{Interrupt, Mode, Priority, Shade, Sprite, Video};

fn line_of(video: &Video, line: usize) -> Vec<Shade> {
    video.framebuffer()[line * 160..line * 160 + 160].to_vec()
}

#[test]
fn sprite_rendering_with_priority() {
    let mut video = Video::new();
    video.lcdc = 0x82; // display on, sprites on, background off
    video.obp0 = 0xE4;

    // Tile 1: every pixel index 1 (low plane set, high plane clear).
    for row in 0..8 {
        video.write_byte(0x8010 + row * 2, 0xFF);
        video.write_byte(0x8010 + row * 2 + 1, 0x00);
    }

    // An Above sprite covering columns 4..=11 of lines 0..=7.
    video.sprites[0] = Sprite {
        y: 16,
        x: 12,
        tile: 1,
        priority: Priority::Above,
        y_flip: false,
        x_flip: false,
        palette: 0,
    };
    // A Behind sprite: with the background layer off it never shows.
    video.sprites[1] = Sprite {
        y: 16,
        x: 48,
        tile: 1,
        priority: Priority::Behind,
        y_flip: false,
        x_flip: false,
        palette: 0,
    };

    video.mode = Mode::VRAMRead;
    video.mode_cycles = 160;
    video.ly = 0;
    let irqs = video.step(12);
    assert!(irqs.is_empty());
    assert!(matches!(video.mode, Mode::HBlank));

    let row = line_of(&video, 0);
    for x in 0..160 {
        let expected = if (4..12).contains(&x) {
            Shade::LightGrey
        } else {
            Shade::White
        };
        assert_eq!(row[x], expected, "column {}", x);
    }
}

#[test]
fn sprite_transparent_pixels_skip() {
    let mut video = Video::new();
    video.lcdc = 0x82;
    video.obp1 = 0xE4;

    // Tile 2: left half transparent (index 0), right half index 2.
    for row in 0..8 {
        video.write_byte(0x8020 + row * 2, 0x00);
        video.write_byte(0x8020 + row * 2 + 1, 0x0F);
    }

    // An x-flipped sprite using the second palette.
    video.sprites[0] = Sprite {
        y: 16,
        x: 8,
        tile: 2,
        priority: Priority::Above,
        y_flip: false,
        x_flip: true,
        palette: 1,
    };

    video.mode = Mode::VRAMRead;
    video.mode_cycles = 172;
    video.ly = 0;
    video.step(4);

    let row = line_of(&video, 0);
    // Flipped: the opaque right half lands on columns 0..=3.
    for x in 0..4 {
        assert_eq!(row[x], Shade::DarkGrey, "column {}", x);
    }
    for x in 4..160 {
        assert_eq!(row[x], Shade::White, "column {}", x);
    }
}

#[test]
fn hblank_interrupt_on_leaving_pixel_transfer() {
    let mut video = Video::new();
    video.lcdc = 0x80;
    video.stat = 0x08;
    video.mode = Mode::VRAMRead;
    video.mode_cycles = 171;
    let irqs = video.step(1);
    assert_eq!(irqs.len(), 1);
    assert!(matches!(irqs[0], Interrupt::LCDStat));
    assert!(matches!(video.mode, Mode::HBlank));
}

#[test]
fn coincidence_interrupt_when_ly_meets_lyc() {
    let mut video = Video::new();
    video.lcdc = 0x80;
    video.stat = 0x40;
    video.lyc = 1;
    video.mode = Mode::HBlank;
    video.mode_cycles = 203;
    let irqs = video.step(1);
    assert_eq!(video.ly, 1);
    assert_eq!(irqs.len(), 1);
    assert!(matches!(irqs[0], Interrupt::LCDStat));
}

#[test]
fn vblank_raised_at_line_143() {
    let mut video = Video::new();
    video.lcdc = 0x80;
    video.stat = 0x10;
    video.ly = 142;
    video.mode = Mode::HBlank;
    video.mode_cycles = 200;
    let irqs = video.step(4);
    assert_eq!(video.ly, 143);
    assert!(matches!(video.mode, Mode::VBlank));
    assert_eq!(irqs.len(), 2);
    assert!(matches!(irqs[0], Interrupt::VBlank));
    assert!(matches!(irqs[1], Interrupt::LCDStat));
}

#[test]
fn vblank_wraps_to_line_zero() {
    let mut video = Video::new();
    video.lcdc = 0x80;
    video.ly = 153;
    video.mode = Mode::VBlank;
    video.mode_cycles = 452;
    let irqs = video.step(4);
    assert_eq!(video.ly, 0);
    assert!(matches!(video.mode, Mode::OAMRead));
    assert!(irqs.is_empty());
}

#[test]
fn display_off_idles_at_line_zero() {
    let mut video = Video::new();
    video.lcdc = 0x00;
    video.ly = 50;
    video.mode = Mode::VBlank;
    let irqs = video.step(24);
    assert!(irqs.is_empty());
    assert_eq!(video.ly, 0);
    assert!(matches!(video.mode, Mode::HBlank));
}
