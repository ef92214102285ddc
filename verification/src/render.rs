use vstd::prelude::*;
use crate::Shade;
use crate::interrupts::Interrupt;
use crate::video::{Mode, Priority, Sprite, Video, VideoAbs, shade_of_spec};

verus! {

/// LCDC bit 7: whether the display runs at all.
pub open spec fn display_enabled_spec(v: VideoAbs) -> bool {
    v.lcdc / 128 % 2 == 1
}

/// LCDC bit 0: whether the background layer is drawn.
pub open spec fn background_enabled_spec(v: VideoAbs) -> bool {
    v.lcdc % 2 == 1
}

/// LCDC bit 1: whether sprites are drawn.
pub open spec fn sprites_enabled_spec(v: VideoAbs) -> bool {
    v.lcdc / 2 % 2 == 1
}

/// Which half of the tile-pattern table background map entries address
/// (LCDC bit 4): plain indices from 0x8000, or signed indices around
/// 0x9000.
#[allow(non_camel_case_types)]
#[derive(Clone, Copy, PartialEq, Eq, Structural, Debug)]
pub enum BackgroundAddressMode {
    x8000,
    x8800,
}

/// Which of the two 32x32 tile maps the background uses (LCDC bit 3).
#[allow(non_camel_case_types)]
#[derive(Clone, Copy, PartialEq, Eq, Structural, Debug)]
pub enum BackgroundTileMap {
    x9800,
    x9C00,
}

/// The VRAM offset of the background tile map (LCDC bit 3).
pub open spec fn bg_map_base_spec(v: VideoAbs) -> int {
    if v.lcdc / 8 % 2 == 1 {
        0x1C00
    } else {
        0x1800
    }
}

/// The tile-cache index a map entry selects: plain in 0x8000 mode
/// (LCDC bit 4), signed and offset by 256 in 0x8800 mode.
pub open spec fn bg_tile_index_spec(v: VideoAbs, sel: u8) -> int {
    if v.lcdc / 16 % 2 == 1 {
        sel as int
    } else {
        if sel < 128 {
            256 + sel
        } else {
            sel as int
        }
    }
}

/// The 2-bit background pixel index at column `x` of line `line`
/// (scrolling is not applied; the image is aligned to the map origin).
pub open spec fn bg_index_spec(v: VideoAbs, line: int, x: int) -> u8 {
    let sel = v.vram[bg_map_base_spec(v) + (line / 8) * 32 + x / 8];
    v.tiles[bg_tile_index_spec(v, sel)][(line % 8) * 8 + (x % 8)]
}

/// The background index sprites test for Behind priority: the sentinel -1
/// (never zero) when the background layer is off.
pub open spec fn scanline_index_spec(v: VideoAbs, line: int, x: int) -> int {
    if background_enabled_spec(v) {
        bg_index_spec(v, line, x) as int
    } else {
        -1
    }
}

/// The frame buffer after the background pass of one line: the line's 160
/// pixels take the background shade (or White with the layer off), the
/// rest keeps its value.
pub open spec fn fb_after_bg_spec(v: VideoAbs, line: int) -> Seq<Shade> {
    Seq::new(
        23040,
        |i: int|
            if line * 160 <= i < line * 160 + 160 {
                if background_enabled_spec(v) {
                    shade_of_spec(v.bgp, bg_index_spec(v, line, i - line * 160) as int)
                } else {
                    Shade::White
                }
            } else {
                v.framebuffer[i]
            },
    )
}

/// Whether a sprite's 8x8 box covers column `fx` of line `line`.
pub open spec fn sprite_covers_spec(s: Sprite, line: int, fx: int) -> bool {
    &&& s.y > 0
    &&& s.y < 160
    &&& s.y - 16 <= line < s.y - 16 + 8
    &&& s.x - 8 <= fx < s.x
}

/// The 2-bit pixel a covering sprite shows at column `fx`, with both flips
/// applied.
pub open spec fn sprite_pix_spec(v: VideoAbs, s: Sprite, line: int, fx: int) -> u8 {
    let x = fx - (s.x - 8);
    let px = if s.x_flip {
        7 - x
    } else {
        x
    };
    let py0 = line - (s.y - 16);
    let py = if s.y_flip {
        7 - py0
    } else {
        py0
    };
    v.tiles[s.tile as int][py * 8 + px]
}

/// Whether a sprite actually paints column `fx`: it covers it, the pixel
/// is not transparent, and a Behind sprite yields to any non-zero
/// background pixel.
pub open spec fn sprite_visible_spec(v: VideoAbs, s: Sprite, line: int, fx: int) -> bool {
    &&& sprite_covers_spec(s, line, fx)
    &&& sprite_pix_spec(v, s, line, fx) != 0
    &&& !(s.priority == Priority::Behind && scanline_index_spec(v, line, fx) != 0)
}

/// The frame buffer after the first `j` columns of one sprite's box are
/// drawn over it.
pub open spec fn fb_apply_sprite_partial_spec(
    v: VideoAbs,
    s: Sprite,
    line: int,
    fb: Seq<Shade>,
    j: int,
) -> Seq<Shade> {
    Seq::new(
        23040,
        |i: int|
            {
                let fx = i - line * 160;
                if 0 <= fx < 160 && s.x - 8 <= fx < s.x - 8 + j && sprite_visible_spec(
                    v,
                    s,
                    line,
                    fx,
                ) {
                    shade_of_spec(
                        if s.palette == 0 {
                            v.obp0
                        } else {
                            v.obp1
                        },
                        sprite_pix_spec(v, s, line, fx) as int,
                    )
                } else {
                    fb[i]
                }
            },
    )
}

/// The frame buffer after one whole sprite is drawn over it.
pub open spec fn fb_apply_sprite_spec(v: VideoAbs, s: Sprite, line: int, fb: Seq<Shade>) -> Seq<
    Shade,
> {
    fb_apply_sprite_partial_spec(v, s, line, fb, 8)
}

/// The frame buffer after the first `k` sprite-table entries are drawn in
/// order: later entries paint over earlier ones.
pub open spec fn fb_after_sprites_spec(v: VideoAbs, line: int, fb: Seq<Shade>, k: int) -> Seq<
    Shade,
>
    decreases k,
{
    if k <= 0 {
        fb
    } else {
        fb_apply_sprite_spec(v, v.sprites[k - 1], line, fb_after_sprites_spec(v, line, fb, k - 1))
    }
}

/// The frame buffer after one line is rendered: the background pass, then
/// the 40 sprites if the sprite layer is on.
pub open spec fn render_line_spec(v: VideoAbs, line: int) -> Seq<Shade> {
    let bg = fb_after_bg_spec(v, line);
    if sprites_enabled_spec(v) {
        fb_after_sprites_spec(v, line, bg, 40)
    } else {
        bg
    }
}

impl Video {
    /// The tile-pattern addressing mode LCDC bit 4 selects.
    pub fn background_address_mode(&self) -> (r: BackgroundAddressMode)
        ensures
            r == (if self@.lcdc / 16 % 2 == 1 {
                BackgroundAddressMode::x8000
            } else {
                BackgroundAddressMode::x8800
            }),
    {
        if self.lcdc / 16 % 2 == 1 {
            BackgroundAddressMode::x8000
        } else {
            BackgroundAddressMode::x8800
        }
    }

    /// The background tile map LCDC bit 3 selects.
    pub fn background_tile_map_display(&self) -> (r: BackgroundTileMap)
        ensures
            r == (if self@.lcdc / 8 % 2 == 1 {
                BackgroundTileMap::x9C00
            } else {
                BackgroundTileMap::x9800
            }),
    {
        if self.lcdc / 8 % 2 == 1 {
            BackgroundTileMap::x9C00
        } else {
            BackgroundTileMap::x9800
        }
    }

    /// The decoded background pixel index at one screen position.
    fn bg_index(&self, line: usize, x: usize) -> (r: u8)
        requires
            self.wf(),
            line < 144,
            x < 160,
        ensures
            r == bg_index_spec(self@, line as int, x as int),
            r < 4,
    {
        let map_base: usize = if self.lcdc / 8 % 2 == 1 {
            0x1C00
        } else {
            0x1800
        };
        let sel = self.vram[map_base + (line / 8) * 32 + x / 8];
        let t: usize = if self.lcdc / 16 % 2 == 1 {
            sel as usize
        } else {
            if sel < 128 {
                256 + sel as usize
            } else {
                sel as usize
            }
        };
        proof {
            assert(self@.tiles[t as int] == self.tiles@[t as int]@);
        }
        self.tiles[t].pixels[(line % 8) * 8 + x % 8]
    }

    /// The shade a palette register assigns to a 2-bit index.
    fn shade_of(reg: u8, idx: u8) -> (r: Shade)
        requires
            idx < 4,
        ensures
            r == shade_of_spec(reg, idx as int),
    {
        let bits = if idx == 0 {
            reg % 4
        } else if idx == 1 {
            reg / 4 % 4
        } else if idx == 2 {
            reg / 16 % 4
        } else {
            reg / 64 % 4
        };
        if bits == 0 {
            Shade::White
        } else if bits == 1 {
            Shade::LightGrey
        } else if bits == 2 {
            Shade::DarkGrey
        } else {
            Shade::Black
        }
    }

    /// Draws line LY of the frame: the background pass, then the sprites.
    /// Only the frame buffer changes.
    pub(crate) fn render_scanline(&mut self)
        requires
            old(self).wf(),
            old(self)@.ly < 144,
        ensures
            final(self).wf(),
            final(self)@ == (VideoAbs {
                framebuffer: render_line_spec(old(self)@, old(self)@.ly as int),
                ..old(self)@
            }),
    {
        let line = self.ly as usize;
        let offset = line * 160;
        let bg_on = self.lcdc % 2 == 1;

        let mut x: usize = 0;
        while x < 160
            invariant
                self.wf(),
                self@ == (VideoAbs { framebuffer: self@.framebuffer, ..old(self)@ }),
                line == old(self)@.ly < 144,
                offset == line * 160,
                bg_on == background_enabled_spec(old(self)@),
                x <= 160,
                self@.framebuffer.len() == 23040,
                old(self)@.framebuffer.len() == 23040,
                forall|i: int|
                    0 <= i < 23040 && !(offset <= i < offset + x) ==> #[trigger] self@.framebuffer[i]
                        == old(self)@.framebuffer[i],
                forall|i: int|
                    offset <= i < offset + x ==> #[trigger] self@.framebuffer[i]
                        == fb_after_bg_spec(old(self)@, line as int)[i],
            decreases 160 - x,
        {
            if bg_on {
                let pix = self.bg_index(line, x);
                let shade = Self::shade_of(self.bgp, pix);
                self.framebuffer[offset + x] = shade;
            } else {
                self.framebuffer[offset + x] = Shade::White;
            }
            proof {
                assert(bg_index_spec(self@, line as int, x as int) == bg_index_spec(
                    old(self)@,
                    line as int,
                    x as int,
                ));
            }
            x = x + 1;
        }

        proof {
            assert(self@.framebuffer =~= fb_after_bg_spec(old(self)@, line as int));
        }

        let ghost v0 = old(self)@;
        let ghost bg_fb = fb_after_bg_spec(old(self)@, line as int);

        if self.lcdc / 2 % 2 == 1 {
            let mut k: usize = 0;
            while k < 40
                invariant
                    self.wf(),
                    self@ == (VideoAbs { framebuffer: self@.framebuffer, ..v0 }),
                    v0 == old(self)@,
                    line == v0.ly < 144,
                    offset == line * 160,
                    bg_fb == fb_after_bg_spec(v0, line as int),
                    v0.framebuffer.len() == 23040,
                    k <= 40,
                    self@.framebuffer =~= fb_after_sprites_spec(v0, line as int, bg_fb, k as int),
                decreases 40 - k,
            {
                let s = self.sprites[k];
                self.draw_sprite(s, line, offset, Ghost(v0));
                proof {
                    assert(self@.framebuffer =~= fb_after_sprites_spec(
                        v0,
                        line as int,
                        bg_fb,
                        k + 1,
                    ));
                }
                k = k + 1;
            }
        }

        proof {
            assert(final(self)@ =~~= (VideoAbs {
                framebuffer: render_line_spec(old(self)@, old(self)@.ly as int),
                ..old(self)@
            }));
        }
    }

    /// Draws one sprite's eight columns over the current line where it is
    /// visible.
    fn draw_sprite(&mut self, s: Sprite, line: usize, offset: usize, Ghost(v0): Ghost<VideoAbs>)
        requires
            old(self).wf(),
            line < 144,
            offset == line * 160,
            v0 == (VideoAbs { framebuffer: v0.framebuffer, ..old(self)@ }),
            v0.framebuffer.len() == 23040,
        ensures
            final(self).wf(),
            final(self)@ == (VideoAbs { framebuffer: final(self)@.framebuffer, ..old(self)@ }),
            final(self)@.framebuffer =~= fb_apply_sprite_spec(
                v0,
                s,
                line as int,
                old(self)@.framebuffer,
            ),
    {
        let ghost fb0 = old(self)@.framebuffer;
        let covers_line = s.y > 0 && s.y < 160 && s.y as usize <= line + 16 && line + 16 < s.y
            as usize + 8;

        if !covers_line {
            proof {
                assert(final(self)@.framebuffer =~= fb_apply_sprite_partial_spec(
                    v0,
                    s,
                    line as int,
                    fb0,
                    8,
                ));
            }
            return ;
        }

        let py0 = line + 16 - s.y as usize;
        let py = if s.y_flip {
            7 - py0
        } else {
            py0
        };

        let mut x: usize = 0;
        while x < 8
            invariant
                self.wf(),
                self@ == (VideoAbs { framebuffer: self@.framebuffer, ..old(self)@ }),
                v0 == (VideoAbs { framebuffer: v0.framebuffer, ..old(self)@ }),
                v0.framebuffer.len() == 23040,
                line < 144,
                offset == line * 160,
                s.y > 0 && s.y < 160,
                s.y <= line + 16 < s.y + 8,
                py0 == line + 16 - s.y,
                py == (if s.y_flip {
                    7 - py0
                } else {
                    py0 as int
                }),
                x <= 8,
                fb0 == old(self)@.framebuffer,
                self@.framebuffer =~= fb_apply_sprite_partial_spec(
                    v0,
                    s,
                    line as int,
                    fb0,
                    x as int,
                ),
            decreases 8 - x,
        {
            let px = if s.x_flip {
                7 - x
            } else {
                x
            };
            proof {
                assert(self@.tiles[s.tile as int] == self.tiles@[s.tile as int]@);
            }
            let pix = self.tiles[s.tile as usize].pixels[py * 8 + px];

            let mut skip = pix == 0;
            let mut fx: usize = 0;
            if !skip {
                if s.x as usize + x >= 8 && s.x as usize + x - 8 < 160 {
                    fx = s.x as usize + x - 8;
                } else {
                    skip = true;
                }
            }
            if !skip {
                if s.priority == Priority::Behind {
                    let bg_on = self.lcdc % 2 == 1;
                    if !bg_on {
                        skip = true;
                    } else {
                        let under = self.bg_index(line, fx);
                        if under != 0 {
                            skip = true;
                        }
                    }
                }
            }
            if !skip {
                let reg = if s.palette == 0 {
                    self.obp0
                } else {
                    self.obp1
                };
                let shade = Self::shade_of(reg, pix);
                self.framebuffer[offset + fx] = shade;
            }
            proof {
                assert(self@.framebuffer =~= fb_apply_sprite_partial_spec(
                    v0,
                    s,
                    line as int,
                    fb0,
                    x + 1,
                ));
            }
            x = x + 1;
        }
    }
}


/// Rendering a line reads only the image state: two PPU values that agree
/// on it render the same line.
proof fn lemma_sprites_pass_same(v1: VideoAbs, v2: VideoAbs, line: int, fb: Seq<Shade>, k: int)
    requires
        v1.vram == v2.vram,
        v1.tiles == v2.tiles,
        v1.sprites == v2.sprites,
        v1.lcdc == v2.lcdc,
        v1.bgp == v2.bgp,
        v1.obp0 == v2.obp0,
        v1.obp1 == v2.obp1,
    ensures
        fb_after_sprites_spec(v1, line, fb, k) == fb_after_sprites_spec(v2, line, fb, k),
    decreases k,
{
    if k > 0 {
        lemma_sprites_pass_same(v1, v2, line, fb, k - 1);
        let prev = fb_after_sprites_spec(v1, line, fb, k - 1);
        assert(fb_apply_sprite_spec(v1, v1.sprites[k - 1], line, prev) =~= fb_apply_sprite_spec(
            v2,
            v2.sprites[k - 1],
            line,
            prev,
        ));
    }
}

/// The same, for the whole line.
pub proof fn lemma_render_line_same(v1: VideoAbs, v2: VideoAbs, line: int)
    requires
        v1.vram == v2.vram,
        v1.tiles == v2.tiles,
        v1.sprites == v2.sprites,
        v1.lcdc == v2.lcdc,
        v1.bgp == v2.bgp,
        v1.obp0 == v2.obp0,
        v1.obp1 == v2.obp1,
        v1.framebuffer == v2.framebuffer,
    ensures
        render_line_spec(v1, line) == render_line_spec(v2, line),
{
    assert(fb_after_bg_spec(v1, line) =~= fb_after_bg_spec(v2, line));
    lemma_sprites_pass_same(v1, v2, line, fb_after_bg_spec(v1, line), 40);
}

/// STAT bit 3: LCDStat on entering HBlank.
pub open spec fn hblank_interrupt_spec(v: VideoAbs) -> bool {
    v.stat / 8 % 2 == 1
}

/// STAT bit 4: LCDStat on entering VBlank.
pub open spec fn vblank_interrupt_spec(v: VideoAbs) -> bool {
    v.stat / 16 % 2 == 1
}

/// STAT bit 5: LCDStat on entering OAM search.
pub open spec fn oam_interrupt_spec(v: VideoAbs) -> bool {
    v.stat / 32 % 2 == 1
}

/// STAT bit 6: LCDStat when LY reaches LYC.
pub open spec fn coincidence_interrupt_spec(v: VideoAbs) -> bool {
    v.stat / 64 % 2 == 1
}

/// The PPU and the interrupts it raises after one step of `cycles`
/// cycles. With the display disabled the machine idles in HBlank at line
/// 0. Otherwise the accumulated cycles drive at most one phase
/// transition: leaving pixel transfer renders the line and may raise
/// LCDStat; leaving HBlank advances LY (raising the coincidence LCDStat
/// when LY meets LYC) into either VBlank -- raising VBlank and possibly
/// LCDStat -- or the next OAM search; each VBlank line advances LY until
/// the frame wraps to line 0.
pub open spec fn video_step_spec(v: VideoAbs, cycles: int) -> (VideoAbs, Seq<Interrupt>) {
    if !display_enabled_spec(v) {
        (VideoAbs { mode: Mode::HBlank, ly: 0, ..v }, Seq::<Interrupt>::empty())
    } else {
        let mc = v.mode_cycles + cycles;
        match v.mode {
            Mode::OAMRead => {
                if mc >= 80 {
                    (
                        VideoAbs { mode_cycles: mc - 80, mode: Mode::VRAMRead, ..v },
                        Seq::<Interrupt>::empty(),
                    )
                } else {
                    (VideoAbs { mode_cycles: mc, ..v }, Seq::<Interrupt>::empty())
                }
            },
            Mode::VRAMRead => {
                if mc >= 172 {
                    (
                        VideoAbs {
                            mode_cycles: mc - 172,
                            mode: Mode::HBlank,
                            framebuffer: render_line_spec(v, v.ly as int),
                            ..v
                        },
                        if hblank_interrupt_spec(v) {
                            seq![Interrupt::LCDStat]
                        } else {
                            Seq::<Interrupt>::empty()
                        },
                    )
                } else {
                    (VideoAbs { mode_cycles: mc, ..v }, Seq::<Interrupt>::empty())
                }
            },
            Mode::HBlank => {
                if mc >= 204 {
                    let newly = (v.ly + 1) as u8;
                    let coin = if newly == v.lyc && coincidence_interrupt_spec(v) {
                        seq![Interrupt::LCDStat]
                    } else {
                        Seq::<Interrupt>::empty()
                    };
                    if newly == 143 {
                        (
                            VideoAbs { mode_cycles: mc - 204, ly: newly, mode: Mode::VBlank, ..v },
                            coin + seq![Interrupt::VBlank] + (if vblank_interrupt_spec(v) {
                                seq![Interrupt::LCDStat]
                            } else {
                                Seq::<Interrupt>::empty()
                            }),
                        )
                    } else {
                        (
                            VideoAbs { mode_cycles: mc - 204, ly: newly, mode: Mode::OAMRead, ..v },
                            coin + (if oam_interrupt_spec(v) {
                                seq![Interrupt::LCDStat]
                            } else {
                                Seq::<Interrupt>::empty()
                            }),
                        )
                    }
                } else {
                    (VideoAbs { mode_cycles: mc, ..v }, Seq::<Interrupt>::empty())
                }
            },
            Mode::VBlank => {
                if mc >= 456 {
                    let newly = (v.ly + 1) as u8;
                    let coin = if newly == v.lyc && coincidence_interrupt_spec(v) {
                        seq![Interrupt::LCDStat]
                    } else {
                        Seq::<Interrupt>::empty()
                    };
                    if newly > 153 {
                        (
                            VideoAbs { mode_cycles: mc - 456, ly: 0, mode: Mode::OAMRead, ..v },
                            coin + (if oam_interrupt_spec(v) {
                                seq![Interrupt::LCDStat]
                            } else {
                                Seq::<Interrupt>::empty()
                            }),
                        )
                    } else {
                        (VideoAbs { mode_cycles: mc - 456, ly: newly, ..v }, coin)
                    }
                } else {
                    (VideoAbs { mode_cycles: mc, ..v }, Seq::<Interrupt>::empty())
                }
            },
        }
    }
}

impl Video {
    /// Advances the scanline machine by `cycles` cycles, rendering on
    /// leaving pixel transfer and returning the interrupts raised.
    /// `cycles` is one instruction's cost, 24 cycles at most: the
    /// scheduler feeds the machine one instruction at a time, and the
    /// phase counter is sized for such catch-up quanta (at most one
    /// phase transition per call).
    pub fn step(&mut self, cycles: usize) -> (r: Vec<Interrupt>)
        requires
            old(self).wf(),
            cycles <= 24,
        ensures
            final(self).wf(),
            final(self)@ == video_step_spec(old(self)@, cycles as int).0,
            r@ == video_step_spec(old(self)@, cycles as int).1,
    {
        let mut interrupts: Vec<Interrupt> = Vec::new();

        if self.lcdc / 128 % 2 != 1 {
            self.mode = Mode::HBlank;
            self.ly = 0;
            proof {
                assert(final(self)@ =~~= video_step_spec(old(self)@, cycles as int).0);
                assert(interrupts@ =~= video_step_spec(old(self)@, cycles as int).1);
            }
            return interrupts;
        }

        self.mode_cycles = self.mode_cycles + cycles;

        match self.mode {
            Mode::OAMRead => {
                if self.mode_cycles >= 80 {
                    self.mode_cycles = self.mode_cycles - 80;
                    self.mode = Mode::VRAMRead;
                }
            },
            Mode::VRAMRead => {
                if self.mode_cycles >= 172 {
                    self.mode_cycles = self.mode_cycles - 172;
                    self.mode = Mode::HBlank;

                    if self.stat / 8 % 2 == 1 {
                        interrupts.push(Interrupt::LCDStat);
                    }

                    let ghost before_render = self@;
                    self.render_scanline();
                    proof {
                        lemma_render_line_same(before_render, old(self)@, before_render.ly as int);
                    }
                }
            },
            Mode::HBlank => {
                if self.mode_cycles >= 204 {
                    self.mode_cycles = self.mode_cycles - 204;
                    self.ly = self.ly + 1;

                    if self.lyc == self.ly && self.stat / 64 % 2 == 1 {
                        interrupts.push(Interrupt::LCDStat);
                    }

                    if self.ly == 143 {
                        self.mode = Mode::VBlank;
                        interrupts.push(Interrupt::VBlank);

                        if self.stat / 16 % 2 == 1 {
                            interrupts.push(Interrupt::LCDStat);
                        }
                    } else {
                        self.mode = Mode::OAMRead;

                        if self.stat / 32 % 2 == 1 {
                            interrupts.push(Interrupt::LCDStat);
                        }
                    }
                }
            },
            Mode::VBlank => {
                if self.mode_cycles >= 456 {
                    self.mode_cycles = self.mode_cycles - 456;
                    self.ly = self.ly + 1;

                    if self.lyc == self.ly && self.stat / 64 % 2 == 1 {
                        interrupts.push(Interrupt::LCDStat);
                    }

                    if self.ly > 153 {
                        self.mode = Mode::OAMRead;

                        if self.stat / 32 % 2 == 1 {
                            interrupts.push(Interrupt::LCDStat);
                        }

                        self.ly = 0;
                    }
                }
            },
        }

        proof {
            assert(final(self)@ =~~= video_step_spec(old(self)@, cycles as int).0);
            assert(interrupts@ =~= video_step_spec(old(self)@, cycles as int).1);
        }

        interrupts
    }
}

/// With the display switched off, a step leaves the frame buffer -- and
/// everything but the idled mode and line counter -- untouched, and
/// raises nothing.
pub proof fn lemma_display_off_step(v: VideoAbs, cycles: int)
    requires
        !display_enabled_spec(v),
    ensures
        video_step_spec(v, cycles).0 == (VideoAbs { mode: Mode::HBlank, ly: 0, ..v }),
        video_step_spec(v, cycles).0.framebuffer == v.framebuffer,
        video_step_spec(v, cycles).0.lcdc == v.lcdc,
        video_step_spec(v, cycles).1 =~= Seq::<Interrupt>::empty(),
{
}

/// The PPU after a sequence of steps, one per entry of `quanta`.
pub open spec fn video_run_spec(v: VideoAbs, quanta: Seq<int>) -> VideoAbs
    decreases quanta.len(),
{
    if quanta.len() == 0 {
        v
    } else {
        video_run_spec(video_step_spec(v, quanta[0]).0, quanta.skip(1))
    }
}

/// A frame stepped with LCDC bit 7 clear throughout -- stepping itself
/// never sets it -- leaves the frame buffer exactly as it was.
pub proof fn lemma_display_off_frame(v: VideoAbs, quanta: Seq<int>)
    requires
        !display_enabled_spec(v),
    ensures
        video_run_spec(v, quanta).framebuffer == v.framebuffer,
    decreases quanta.len(),
{
    if quanta.len() > 0 {
        lemma_display_off_step(v, quanta[0]);
        lemma_display_off_frame(video_step_spec(v, quanta[0]).0, quanta.skip(1));
    }
}

/// One step moves LY only to itself, to the next line, or back to zero at
/// the frame or display-off boundaries; with the display running, the
/// wrap to zero happens only from line 153, so the lines of a frame are
/// visited in order.
pub proof fn lemma_ly_progression(v: VideoAbs, cycles: int)
    requires
        v.ly <= 153,
    ensures
        ({
            let newly = video_step_spec(v, cycles).0.ly;
            newly == v.ly || newly == v.ly + 1 || newly == 0
        }),
        display_enabled_spec(v) ==> ({
            let newly = video_step_spec(v, cycles).0.ly;
            newly == v.ly || newly == v.ly + 1 || (v.ly == 153 && newly == 0)
        }),
{
}


/// Whether some state of a pure run of the scanline machine shows line
/// `k`, the starting state included.
pub open spec fn ly_visited_spec(v: VideoAbs, quanta: Seq<int>, k: u8) -> bool
    decreases quanta.len(),
{
    v.ly == k || (quanta.len() > 0 && ly_visited_spec(
        video_step_spec(v, quanta[0]).0,
        quanta.skip(1),
        k,
    ))
}

/// While the display runs, the scanline counter never skips: over any
/// pure run, every line from the starting one up to the final one is
/// visited; when the counter ends up below where it started, the frame
/// wrapped, so every line up to 153 and line 0 were visited.  Together
/// with `lemma_ly_progression` this pins the once-per-frame sweep of LY.
pub proof fn lemma_ly_no_skip(v: VideoAbs, quanta: Seq<int>)
    requires
        display_enabled_spec(v),
        v.ly <= 153,
        v.mode != Mode::VBlank ==> v.ly <= 142,
    ensures
        video_run_spec(v, quanta).ly <= 153,
        video_run_spec(v, quanta).ly >= v.ly ==> (forall|k: u8|
            v.ly <= k <= video_run_spec(v, quanta).ly ==> ly_visited_spec(v, quanta, k)),
        video_run_spec(v, quanta).ly < v.ly ==> ((forall|k: u8|
            v.ly <= k <= 153 ==> ly_visited_spec(v, quanta, k)) && ly_visited_spec(v, quanta, 0)),
    decreases quanta.len(),
{
    if quanta.len() == 0 {
        assert(video_run_spec(v, quanta) == v);
    } else {
        let v1 = video_step_spec(v, quanta[0]).0;
        let rest = quanta.skip(1);
        let vf = video_run_spec(v, quanta);
        assert(vf == video_run_spec(v1, rest));
        assert(v1.lcdc == v.lcdc);
        assert(v1.ly <= 153 && (v1.mode != Mode::VBlank ==> v1.ly <= 142));
        assert(v1.ly == v.ly || v1.ly == v.ly + 1 || (v.ly == 153 && v1.ly == 0));
        lemma_ly_no_skip(v1, rest);
        assert forall|k: u8| ly_visited_spec(v1, rest, k) implies ly_visited_spec(
            v,
            quanta,
            k,
        ) by {}
        assert(ly_visited_spec(v, quanta, v.ly));
        if v1.ly == v.ly + 1 {
            if vf.ly >= v.ly {
                if vf.ly >= v1.ly {
                    assert forall|k: u8| v.ly <= k <= vf.ly implies ly_visited_spec(
                        v,
                        quanta,
                        k,
                    ) by {
                        if k >= v1.ly {
                            assert(ly_visited_spec(v1, rest, k));
                        }
                    }
                } else {
                    assert(vf.ly == v.ly);
                }
            } else {
                assert(vf.ly < v1.ly);
                assert forall|k: u8| v.ly <= k <= 153 implies ly_visited_spec(v, quanta, k) by {
                    if k >= v1.ly {
                        assert(ly_visited_spec(v1, rest, k));
                    }
                }
                assert(ly_visited_spec(v1, rest, 0));
            }
        } else if v.ly == 153 && v1.ly == 0 && v1.ly != v.ly {
            assert(ly_visited_spec(v1, rest, 0));
            if vf.ly >= v.ly {
                assert forall|k: u8| v.ly <= k <= vf.ly implies ly_visited_spec(v, quanta, k) by {
                    assert(k == 153);
                }
            } else {
                assert forall|k: u8| v.ly <= k <= 153 implies ly_visited_spec(v, quanta, k) by {
                    assert(k == 153);
                }
            }
        } else {
            assert(v1.ly == v.ly);
            if vf.ly >= v.ly {
                assert forall|k: u8| v.ly <= k <= vf.ly implies ly_visited_spec(v, quanta, k) by {
                    assert(ly_visited_spec(v1, rest, k));
                }
            } else {
                assert forall|k: u8| v.ly <= k <= 153 implies ly_visited_spec(v, quanta, k) by {
                    assert(ly_visited_spec(v1, rest, k));
                }
                assert(ly_visited_spec(v1, rest, 0));
            }
        }
    }
}

} // verus!
