use vstd::prelude::*;
use crate::Shade;

verus! {

/// The phase of the per-scanline state machine.
#[derive(Clone, Copy, PartialEq, Eq, Structural, Debug)]
pub enum Mode {
    HBlank,
    VBlank,
    OAMRead,
    VRAMRead,
}

/// The two mode bits of STAT.
pub open spec fn mode_bits_spec(m: Mode) -> u8 {
    match m {
        Mode::HBlank => 0,
        Mode::VBlank => 1,
        Mode::OAMRead => 2,
        Mode::VRAMRead => 3,
    }
}

pub fn mode_bits(m: Mode) -> (r: u8)
    ensures
        r == mode_bits_spec(m),
{
    match m {
        Mode::HBlank => 0,
        Mode::VBlank => 1,
        Mode::OAMRead => 2,
        Mode::VRAMRead => 3,
    }
}

/// Whether a sprite pixel covers or yields to the background.
#[derive(Clone, Copy, PartialEq, Eq, Structural, Debug)]
pub enum Priority {
    Above,
    Behind,
}

/// One decoded entry of the object attribute table.
#[derive(Clone, Copy, PartialEq, Eq, Structural, Debug)]
pub struct Sprite {
    pub y: u8,
    pub x: u8,
    pub tile: u8,
    pub priority: Priority,
    pub y_flip: bool,
    pub x_flip: bool,
    pub palette: u8,
}

/// One decoded 8x8 tile: 64 pixels, each a 2-bit colour index.
pub struct Tile {
    pub pixels: Vec<u8>,
}

impl View for Tile {
    type V = Seq<u8>;

    open spec fn view(&self) -> Seq<u8> {
        self.pixels@
    }
}

/// The three palette registers decoded to shades, index 0 first.
pub struct Palettes {
    pub bgp: Vec<Shade>,
    pub obp0: Vec<Shade>,
    pub obp1: Vec<Shade>,
}

/// The pixel-processing unit: video memory, the object attribute table,
/// the control registers, the scanline state machine, the frame buffer,
/// and the decoded tile and sprite caches kept coherent with every VRAM
/// and OAM write.
pub struct Video {
    pub vram: Vec<u8>,
    pub oam: Vec<u8>,
    pub lcdc: u8,
    pub stat: u8,
    pub scy: u8,
    pub scx: u8,
    pub ly: u8,
    pub lyc: u8,
    pub bgp: u8,
    pub obp0: u8,
    pub obp1: u8,
    pub wy: u8,
    pub wx: u8,
    pub mode_cycles: usize,
    pub mode: Mode,
    pub framebuffer: Vec<Shade>,
    pub tiles: Vec<Tile>,
    pub sprites: Vec<Sprite>,
}

/// The pixel-processing unit as its mathematical value.
#[verifier::ext_equal]
pub ghost struct VideoAbs {
    pub vram: Seq<u8>,
    pub oam: Seq<u8>,
    pub lcdc: u8,
    pub stat: u8,
    pub scy: u8,
    pub scx: u8,
    pub ly: u8,
    pub lyc: u8,
    pub bgp: u8,
    pub obp0: u8,
    pub obp1: u8,
    pub wy: u8,
    pub wx: u8,
    pub mode_cycles: int,
    pub mode: Mode,
    pub framebuffer: Seq<Shade>,
    pub tiles: Seq<Seq<u8>>,
    pub sprites: Seq<Sprite>,
}

impl View for Video {
    type V = VideoAbs;

    open spec fn view(&self) -> VideoAbs {
        VideoAbs {
            vram: self.vram@,
            oam: self.oam@,
            lcdc: self.lcdc,
            stat: self.stat,
            scy: self.scy,
            scx: self.scx,
            ly: self.ly,
            lyc: self.lyc,
            bgp: self.bgp,
            obp0: self.obp0,
            obp1: self.obp1,
            wy: self.wy,
            wx: self.wx,
            mode_cycles: self.mode_cycles as int,
            mode: self.mode,
            framebuffer: self.framebuffer@,
            tiles: self.tiles@.map_values(|t: Tile| t@),
            sprites: self.sprites@,
        }
    }
}

/// Bit `i` of a byte, as 0 or 1.
pub open spec fn bit_of_spec(v: u8, i: int) -> u8 {
    if i == 0 {
        (v % 2) as u8
    } else if i == 1 {
        (v / 2 % 2) as u8
    } else if i == 2 {
        (v / 4 % 2) as u8
    } else if i == 3 {
        (v / 8 % 2) as u8
    } else if i == 4 {
        (v / 16 % 2) as u8
    } else if i == 5 {
        (v / 32 % 2) as u8
    } else if i == 6 {
        (v / 64 % 2) as u8
    } else {
        (v / 128 % 2) as u8
    }
}

pub fn bit_of(v: u8, i: usize) -> (r: u8)
    requires
        i < 8,
    ensures
        r == bit_of_spec(v, i as int),
{
    if i == 0 {
        v % 2
    } else if i == 1 {
        v / 2 % 2
    } else if i == 2 {
        v / 4 % 2
    } else if i == 3 {
        v / 8 % 2
    } else if i == 4 {
        v / 16 % 2
    } else if i == 5 {
        v / 32 % 2
    } else if i == 6 {
        v / 64 % 2
    } else {
        v / 128 % 2
    }
}

/// A 2-bit tile pixel with one of its two bit planes replaced: an even
/// pattern byte carries the low plane, an odd one the high plane.
pub open spec fn combine_pix_spec(old_pix: u8, bit: u8, parity: int) -> u8 {
    if parity == 0 {
        ((old_pix / 2) * 2 + bit) as u8
    } else {
        (old_pix % 2 + 2 * bit) as u8
    }
}

/// The tile cache after one pattern byte is stored: pattern-byte bit 7
/// lands in pixel x = 0 of the row.
pub open spec fn tiles_after_write_spec(tiles: Seq<Seq<u8>>, index: int, value: u8) -> Seq<
    Seq<u8>,
> {
    let t = index / 16;
    let row = (index % 16) / 2;
    let parity = index % 2;
    tiles.update(
        t,
        Seq::new(
            64,
            |i: int|
                if row * 8 <= i < row * 8 + 8 {
                    combine_pix_spec(tiles[t][i], bit_of_spec(value, 7 - (i - row * 8)), parity)
                } else {
                    tiles[t][i]
                },
        ),
    )
}

/// A sprite-table entry with one of its four OAM bytes stored.
pub open spec fn sprite_with_byte_spec(s: Sprite, b: int, value: u8) -> Sprite {
    if b == 0 {
        Sprite { y: value, ..s }
    } else if b == 1 {
        Sprite { x: value, ..s }
    } else if b == 2 {
        Sprite { tile: value, ..s }
    } else {
        Sprite {
            priority: if bit_of_spec(value, 7) == 1 {
                Priority::Behind
            } else {
                Priority::Above
            },
            y_flip: bit_of_spec(value, 6) == 1,
            x_flip: bit_of_spec(value, 5) == 1,
            palette: if bit_of_spec(value, 4) == 1 {
                1u8
            } else {
                0u8
            },
            ..s
        }
    }
}

/// Whether an address lies in the VRAM window.
pub open spec fn vram_addr_spec(addr: u16) -> bool {
    0x8000 <= addr < 0xA000
}

/// Whether an address lies in the OAM window.
pub open spec fn oam_addr_spec(addr: u16) -> bool {
    0xFE00 <= addr < 0xFEA0
}

/// The byte a PPU read returns: VRAM is hidden during pixel transfer and
/// OAM during both search and transfer, reading 0xFF then.
pub open spec fn video_read_spec(v: VideoAbs, addr: u16) -> u8 {
    if vram_addr_spec(addr) {
        if v.mode == Mode::VRAMRead {
            0xFF
        } else {
            v.vram[addr - 0x8000]
        }
    } else {
        if v.mode == Mode::OAMRead || v.mode == Mode::VRAMRead {
            0xFF
        } else {
            v.oam[addr - 0xFE00]
        }
    }
}

/// The PPU after a VRAM or OAM write: the byte is stored and the decoded
/// caches follow, unless the window is hidden in the current mode, in
/// which case nothing changes.
pub open spec fn video_write_spec(v: VideoAbs, addr: u16, value: u8) -> VideoAbs {
    if vram_addr_spec(addr) {
        if v.mode == Mode::VRAMRead {
            v
        } else {
            let index = addr - 0x8000;
            let v1 = VideoAbs { vram: v.vram.update(index as int, value), ..v };
            if index < 0x1800 {
                VideoAbs { tiles: tiles_after_write_spec(v.tiles, index as int, value), ..v1 }
            } else {
                v1
            }
        }
    } else {
        if v.mode == Mode::OAMRead || v.mode == Mode::VRAMRead {
            v
        } else {
            let index = addr - 0xFE00;
            VideoAbs {
                oam: v.oam.update(index as int, value),
                sprites: v.sprites.update(
                    index as int / 4,
                    sprite_with_byte_spec(v.sprites[index as int / 4], index as int % 4, value),
                ),
                ..v
            }
        }
    }
}

/// The shade a palette register assigns to a 2-bit colour index.
pub open spec fn shade_of_spec(reg: u8, idx: int) -> Shade {
    let bits = if idx == 0 {
        reg % 4
    } else if idx == 1 {
        reg / 4 % 4
    } else if idx == 2 {
        reg / 16 % 4
    } else {
        reg / 64 % 4
    };
    if bits == 0 {
        Shade::White
    } else if bits == 1 {
        Shade::LightGrey
    } else if bits == 2 {
        Shade::DarkGrey
    } else {
        Shade::Black
    }
}

/// The PPU in its power-on state.
pub open spec fn video_new_spec() -> VideoAbs {
    VideoAbs {
        vram: Seq::new(8192, |i: int| 0u8),
        oam: Seq::new(160, |i: int| 0u8),
        lcdc: 0,
        stat: 0,
        scy: 0,
        scx: 0,
        ly: 0,
        lyc: 0,
        bgp: 0,
        obp0: 0,
        obp1: 0,
        wy: 0,
        wx: 0,
        mode_cycles: 0,
        mode: Mode::OAMRead,
        framebuffer: Seq::new(23040, |i: int| Shade::White),
        tiles: Seq::new(384, |t: int| Seq::new(64, |i: int| 0u8)),
        sprites: Seq::new(
            40,
            |s: int|
                Sprite {
                    y: 0,
                    x: 0,
                    tile: 0,
                    priority: Priority::Above,
                    y_flip: false,
                    x_flip: false,
                    palette: 0,
                },
        ),
    }
}

impl Video {
    /// The stores have their fixed sizes, every cached tile pixel is a
    /// 2-bit value, and the scanline counter never holds a full phase
    /// between steps.
    pub open spec fn wf(self) -> bool {
        &&& self@.vram.len() == 8192
        &&& self@.oam.len() == 160
        &&& self@.framebuffer.len() == 23040
        &&& self@.tiles.len() == 384
        &&& (forall|t: int| 0 <= t < 384 ==> (#[trigger] self@.tiles[t]).len() == 64)
        &&& (forall|t: int, i: int|
            0 <= t < 384 && 0 <= i < 64 ==> #[trigger] self@.tiles[t][i] < 4)
        &&& self@.sprites.len() == 40
        &&& self@.mode_cycles < 480
        &&& self@.ly <= 153
        &&& (self@.mode != Mode::VBlank ==> self@.ly <= 142)
    }

    pub fn new() -> (r: Video)
        ensures
            r.wf(),
            r@ == video_new_spec(),
            r@.vram =~= Seq::new(8192, |i: int| 0u8),
            r@.oam =~= Seq::new(160, |i: int| 0u8),
            r@.lcdc == 0 && r@.stat == 0 && r@.scy == 0 && r@.scx == 0,
            r@.ly == 0 && r@.lyc == 0 && r@.bgp == 0 && r@.obp0 == 0 && r@.obp1 == 0,
            r@.wy == 0 && r@.wx == 0,
            r@.mode_cycles == 0,
            r@.mode == Mode::OAMRead,
            r@.framebuffer =~= Seq::new(23040, |i: int| Shade::White),
            forall|t: int| 0 <= t < 384 ==> #[trigger] r@.tiles[t] =~= Seq::new(64, |i: int| 0u8),
            forall|s: int|
                0 <= s < 40 ==> #[trigger] r@.sprites[s] == (Sprite {
                    y: 0,
                    x: 0,
                    tile: 0,
                    priority: Priority::Above,
                    y_flip: false,
                    x_flip: false,
                    palette: 0,
                }),
    {
        let mut vram: Vec<u8> = Vec::new();
        let mut i: usize = 0;
        while i < 8192
            invariant
                i <= 8192,
                vram@ =~= Seq::new(i as nat, |j: int| 0u8),
            decreases 8192 - i,
        {
            vram.push(0);
            proof {
                assert(vram@ =~= Seq::new((i + 1) as nat, |j: int| 0u8));
            }
            i = i + 1;
        }

        let mut oam: Vec<u8> = Vec::new();
        let mut i: usize = 0;
        while i < 160
            invariant
                i <= 160,
                oam@ =~= Seq::new(i as nat, |j: int| 0u8),
            decreases 160 - i,
        {
            oam.push(0);
            proof {
                assert(oam@ =~= Seq::new((i + 1) as nat, |j: int| 0u8));
            }
            i = i + 1;
        }

        let mut framebuffer: Vec<Shade> = Vec::new();
        let mut i: usize = 0;
        while i < 23040
            invariant
                i <= 23040,
                framebuffer@ =~= Seq::new(i as nat, |j: int| Shade::White),
            decreases 23040 - i,
        {
            framebuffer.push(Shade::White);
            proof {
                assert(framebuffer@ =~= Seq::new((i + 1) as nat, |j: int| Shade::White));
            }
            i = i + 1;
        }

        let mut tiles: Vec<Tile> = Vec::new();
        let mut i: usize = 0;
        while i < 384
            invariant
                i <= 384,
                tiles@.len() == i,
                forall|t: int| 0 <= t < i ==> #[trigger] tiles@[t]@ =~= Seq::new(64, |j: int| 0u8),
            decreases 384 - i,
        {
            let mut pixels: Vec<u8> = Vec::new();
            let mut j: usize = 0;
            while j < 64
                invariant
                    j <= 64,
                    pixels@ =~= Seq::new(j as nat, |k: int| 0u8),
                decreases 64 - j,
            {
                pixels.push(0);
                proof {
                    assert(pixels@ =~= Seq::new((j + 1) as nat, |k: int| 0u8));
                }
                j = j + 1;
            }
            tiles.push(Tile { pixels });
            i = i + 1;
        }

        let mut sprites: Vec<Sprite> = Vec::new();
        let mut i: usize = 0;
        let blank = Sprite {
            y: 0,
            x: 0,
            tile: 0,
            priority: Priority::Above,
            y_flip: false,
            x_flip: false,
            palette: 0,
        };
        while i < 40
            invariant
                i <= 40,
                sprites@.len() == i,
                forall|s: int| 0 <= s < i ==> #[trigger] sprites@[s] == blank,
                blank == (Sprite {
                    y: 0,
                    x: 0,
                    tile: 0,
                    priority: Priority::Above,
                    y_flip: false,
                    x_flip: false,
                    palette: 0,
                }),
            decreases 40 - i,
        {
            sprites.push(blank);
            i = i + 1;
        }

        let r = Video {
            vram,
            oam,
            lcdc: 0,
            stat: 0,
            scy: 0,
            scx: 0,
            ly: 0,
            lyc: 0,
            bgp: 0,
            obp0: 0,
            obp1: 0,
            wy: 0,
            wx: 0,
            mode_cycles: 0,
            mode: Mode::OAMRead,
            framebuffer,
            tiles,
            sprites,
        };
        proof {
            assert(r@ =~~= video_new_spec());
        }
        r
    }

    /// Whether LY has reached LYC.
    pub fn coincidence_flag(&self) -> (r: bool)
        ensures
            r == (self.lyc == self.ly),
    {
        self.lyc == self.ly
    }

    /// The byte a read from the VRAM or OAM windows returns, honouring the
    /// mode gating.
    pub fn read_byte(&self, address: u16) -> (r: u8)
        requires
            self.wf(),
            vram_addr_spec(address) || oam_addr_spec(address),
        ensures
            r == video_read_spec(self@, address),
    {
        if 0x8000 <= address && address < 0xA000 {
            if let Mode::VRAMRead = self.mode {
                return 0xFF;
            }
            self.vram[(address - 0x8000) as usize]
        } else {
            if let Mode::OAMRead | Mode::VRAMRead = self.mode {
                return 0xFF;
            }
            self.oam[(address - 0xFE00) as usize]
        }
    }

    /// Stores a byte into the VRAM or OAM windows, honouring the mode
    /// gating and keeping the tile and sprite caches coherent.
    pub fn write_byte(&mut self, address: u16, value: u8)
        requires
            old(self).wf(),
            vram_addr_spec(address) || oam_addr_spec(address),
        ensures
            final(self).wf(),
            final(self)@ == video_write_spec(old(self)@, address, value),
    {
        if 0x8000 <= address && address < 0xA000 {
            if let Mode::VRAMRead = self.mode {
                proof {
                    assert(final(self)@ =~~= video_write_spec(old(self)@, address, value));
                }
                return ;
            }
            self.write_vram(address, value);
        } else {
            if let Mode::OAMRead | Mode::VRAMRead = self.mode {
                proof {
                    assert(final(self)@ =~~= video_write_spec(old(self)@, address, value));
                }
                return ;
            }
            self.write_oam(address, value);
        }
        proof {
            assert(final(self)@ =~~= video_write_spec(old(self)@, address, value));
        }
    }

    fn write_vram(&mut self, address: u16, value: u8)
        requires
            old(self).wf(),
            vram_addr_spec(address),
            old(self).mode != Mode::VRAMRead,
        ensures
            final(self).wf(),
            final(self)@.vram == old(self)@.vram.update(address - 0x8000, value),
            address - 0x8000 < 0x1800 ==> final(self)@.tiles == tiles_after_write_spec(
                old(self)@.tiles,
                address - 0x8000,
                value,
            ),
            address - 0x8000 >= 0x1800 ==> final(self)@.tiles == old(self)@.tiles,
            final(self)@ == (VideoAbs {
                vram: final(self)@.vram,
                tiles: final(self)@.tiles,
                ..old(self)@
            }),
    {
        let index = (address - 0x8000) as usize;
        self.vram[index] = value;

        if index >= 0x1800 {
            proof {
                assert(final(self)@ =~~= (VideoAbs {
                    vram: final(self)@.vram,
                    tiles: final(self)@.tiles,
                    ..old(self)@
                }));
            }
            return ;
        }

        let t = index / 16;
        let byte = index % 16;
        let row = byte / 2;
        let parity = byte % 2;

        let ghost old_tile = self@.tiles[t as int];

        let mut pixels: Vec<u8> = Vec::new();
        let mut i: usize = 0;
        while i < 64
            invariant
                self.wf(),
                t < 384,
                row < 8,
                parity < 2,
                i <= 64,
                old_tile == self@.tiles[t as int],
                pixels@.len() == i,
                forall|j: int|
                    0 <= j < i ==> #[trigger] pixels@[j] == (if row * 8 <= j < row * 8 + 8 {
                        combine_pix_spec(old_tile[j], bit_of_spec(value, 7 - (j - row * 8)), parity as int)
                    } else {
                        old_tile[j]
                    }),
            decreases 64 - i,
        {
            let old_pix = self.tiles[t].pixels[i];
            let np: u8 = if row * 8 <= i && i < row * 8 + 8 {
                let bit = bit_of(value, 7 - (i - row * 8));
                if parity == 0 {
                    (old_pix / 2) * 2 + bit
                } else {
                    old_pix % 2 + 2 * bit
                }
            } else {
                old_pix
            };
            pixels.push(np);
            i = i + 1;
        }

        self.tiles[t] = Tile { pixels };

        proof {
            assert(final(self)@.tiles[t as int] =~= tiles_after_write_spec(
                old(self)@.tiles,
                address - 0x8000,
                value,
            )[t as int]);
            assert(final(self)@.tiles =~= tiles_after_write_spec(
                old(self)@.tiles,
                address - 0x8000,
                value,
            ));
            assert(final(self)@ =~~= (VideoAbs {
                vram: final(self)@.vram,
                tiles: final(self)@.tiles,
                ..old(self)@
            }));
        }
    }

    fn write_oam(&mut self, address: u16, value: u8)
        requires
            old(self).wf(),
            oam_addr_spec(address),
            old(self).mode != Mode::VRAMRead,
            old(self).mode != Mode::OAMRead,
        ensures
            final(self).wf(),
            final(self)@ == video_write_spec(old(self)@, address, value),
    {
        let index = (address - 0xFE00) as usize;
        self.oam[index] = value;

        let s_i = index / 4;
        let byte = index % 4;

        let mut s = self.sprites[s_i];
        if byte == 0 {
            s.y = value;
        } else if byte == 1 {
            s.x = value;
        } else if byte == 2 {
            s.tile = value;
        } else {
            s.priority = if bit_of(value, 7) == 1 {
                Priority::Behind
            } else {
                Priority::Above
            };
            s.y_flip = bit_of(value, 6) == 1;
            s.x_flip = bit_of(value, 5) == 1;
            s.palette = if bit_of(value, 4) == 1 {
                1
            } else {
                0
            };
        }
        self.sprites[s_i] = s;

        proof {
            assert(final(self)@ =~~= video_write_spec(old(self)@, address, value));
        }
    }

    /// The three palette registers decoded to shades.
    pub fn palettes(&self) -> (r: Palettes)
        ensures
            r.bgp@.len() == 4 && r.obp0@.len() == 4 && r.obp1@.len() == 4,
            forall|i: int| 0 <= i < 4 ==> #[trigger] r.bgp@[i] == shade_of_spec(self.bgp, i),
            forall|i: int| 0 <= i < 4 ==> #[trigger] r.obp0@[i] == shade_of_spec(self.obp0, i),
            forall|i: int| 0 <= i < 4 ==> #[trigger] r.obp1@[i] == shade_of_spec(self.obp1, i),
    {
        Palettes {
            bgp: Self::palette(self.bgp),
            obp0: Self::palette(self.obp0),
            obp1: Self::palette(self.obp1),
        }
    }

    /// One palette register decoded to its four shades.
    pub fn palette(reg: u8) -> (r: Vec<Shade>)
        ensures
            r@.len() == 4,
            forall|i: int| 0 <= i < 4 ==> #[trigger] r@[i] == shade_of_spec(reg, i),
    {
        let mut out: Vec<Shade> = Vec::new();
        out.push(Self::shade_from_bits(reg % 4));
        out.push(Self::shade_from_bits(reg / 4 % 4));
        out.push(Self::shade_from_bits(reg / 16 % 4));
        out.push(Self::shade_from_bits(reg / 64 % 4));
        out
    }

    fn shade_from_bits(bits: u8) -> (r: Shade)
        ensures
            bits == 0 ==> r == Shade::White,
            bits == 1 ==> r == Shade::LightGrey,
            bits == 2 ==> r == Shade::DarkGrey,
            bits >= 3 ==> r == Shade::Black,
    {
        if bits == 0 {
            Shade::White
        } else if bits == 1 {
            Shade::LightGrey
        } else if bits == 2 {
            Shade::DarkGrey
        } else {
            Shade::Black
        }
    }

    /// The current frame, row-major, one shade per pixel.
    pub fn framebuffer(&self) -> (r: &Vec<Shade>)
        ensures
            r@ == self@.framebuffer,
    {
        &self.framebuffer
    }
}

/// A byte written into the tile-pattern region reads back unchanged, and
/// the cached tile row decodes it most-significant bit first: pixel x of
/// the row holds pattern bit 7 - x in the plane the byte parity selects.
pub proof fn lemma_vram_write_read_back(v: VideoAbs, addr: u16, value: u8)
    requires
        0x8000 <= addr < 0x9800,
        v.mode != Mode::VRAMRead,
        v.vram.len() == 8192,
        v.tiles.len() == 384,
        forall|t: int| 0 <= t < 384 ==> (#[trigger] v.tiles[t]).len() == 64,
    ensures
        video_read_spec(video_write_spec(v, addr, value), addr) == value,
        ({
            let w = video_write_spec(v, addr, value);
            let index = addr - 0x8000;
            let t = index / 16;
            let row = (index % 16) / 2;
            let parity = index % 2;
            forall|x: int|
                0 <= x < 8 ==> (if parity == 0 {
                    #[trigger] w.tiles[t][row * 8 + x] % 2
                } else {
                    w.tiles[t][row * 8 + x] / 2
                }) == bit_of_spec(value, 7 - x)
        }),
{
    let w = video_write_spec(v, addr, value);
    let index = addr - 0x8000;
    let t = index / 16;
    let row = (index % 16) / 2;
    let parity = index % 2;
    assert(0 <= t < 384 && 0 <= row < 8);
    assert forall|x: int| 0 <= x < 8 implies (if parity == 0 {
        #[trigger] w.tiles[t][row * 8 + x] % 2
    } else {
        w.tiles[t][row * 8 + x] / 2
    }) == bit_of_spec(value, 7 - x) by {
        assert(w.tiles[t][row * 8 + x] == combine_pix_spec(
            v.tiles[t][row * 8 + x],
            bit_of_spec(value, 7 - x),
            parity as int,
        ));
    }
}


/// Every cached tile pixel agrees with the two pattern bytes that back
/// it: the even byte is the low plane, the odd byte the high plane,
/// most significant bit first.
pub open spec fn tiles_coherent_spec(v: VideoAbs) -> bool {
    forall|t: int, i: int|
        0 <= t < 384 && 0 <= i < 64 ==> #[trigger] v.tiles[t][i] == bit_of_spec(
            v.vram[t * 16 + (i / 8) * 2],
            7 - (i % 8),
        ) + 2 * bit_of_spec(v.vram[t * 16 + (i / 8) * 2 + 1], 7 - (i % 8))
}

/// Every cached sprite agrees with its four object-attribute bytes.
pub open spec fn sprites_coherent_spec(v: VideoAbs) -> bool {
    forall|s: int|
        0 <= s < 40 ==> #[trigger] v.sprites[s] == (Sprite {
            y: v.oam[s * 4],
            x: v.oam[s * 4 + 1],
            tile: v.oam[s * 4 + 2],
            priority: if bit_of_spec(v.oam[s * 4 + 3], 7) == 1 {
                Priority::Behind
            } else {
                Priority::Above
            },
            y_flip: bit_of_spec(v.oam[s * 4 + 3], 6) == 1,
            x_flip: bit_of_spec(v.oam[s * 4 + 3], 5) == 1,
            palette: if bit_of_spec(v.oam[s * 4 + 3], 4) == 1 {
                1u8
            } else {
                0u8
            },
        })
}

/// At power-on both caches agree with the zeroed stores.
pub proof fn lemma_caches_coherent_initially()
    ensures
        tiles_coherent_spec(video_new_spec()),
        sprites_coherent_spec(video_new_spec()),
{
}

/// Every write through the VRAM and OAM windows keeps the decoded caches
/// coherent with the stores.
pub proof fn lemma_caches_coherent_preserved(v: VideoAbs, addr: u16, value: u8)
    requires
        vram_addr_spec(addr) || oam_addr_spec(addr),
        v.vram.len() == 8192,
        v.oam.len() == 160,
        v.tiles.len() == 384,
        forall|t: int| 0 <= t < 384 ==> (#[trigger] v.tiles[t]).len() == 64,
        v.sprites.len() == 40,
        tiles_coherent_spec(v),
        sprites_coherent_spec(v),
    ensures
        tiles_coherent_spec(video_write_spec(v, addr, value)),
        sprites_coherent_spec(video_write_spec(v, addr, value)),
{
    let w = video_write_spec(v, addr, value);
    if vram_addr_spec(addr) && v.mode != Mode::VRAMRead {
        let index = addr - 0x8000;
        if index < 0x1800 {
            let t0 = index as int / 16;
            let r0 = (index as int % 16) / 2;
            let parity = index as int % 2;
            assert forall|t: int, i: int| 0 <= t < 384 && 0 <= i < 64 implies #[trigger] w.tiles[t][i]
                == bit_of_spec(w.vram[t * 16 + (i / 8) * 2], 7 - (i % 8)) + 2 * bit_of_spec(
                w.vram[t * 16 + (i / 8) * 2 + 1],
                7 - (i % 8),
            ) by {
                assert(v.tiles[t][i] == bit_of_spec(v.vram[t * 16 + (i / 8) * 2], 7 - (i % 8)) + 2
                    * bit_of_spec(v.vram[t * 16 + (i / 8) * 2 + 1], 7 - (i % 8)));
                if t == t0 && r0 * 8 <= i < r0 * 8 + 8 {
                    assert(i / 8 == r0);
                    assert(t * 16 + (i / 8) * 2 + parity == index);
                    assert(w.tiles[t][i] == combine_pix_spec(
                        v.tiles[t][i],
                        bit_of_spec(value, 7 - (i - r0 * 8)),
                        parity,
                    ));
                    assert(v.tiles[t][i] < 4);
                } else {
                    assert(w.tiles[t][i] == v.tiles[t][i]);
                    assert(t * 16 + (i / 8) * 2 != index && t * 16 + (i / 8) * 2 + 1 != index);
                }
            }
        }
    }
}

} // verus!
