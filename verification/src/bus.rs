use vstd::prelude::*;
use crate::cartridge::{CartAbs, Cartridge, cart_addr_spec, cart_read_spec, cart_write_spec};
use crate::interrupts::Interrupts;
use crate::regs::{hi_byte_spec, lo_byte_spec, word_spec};
use crate::serial::{Serial, SerialAbs};
use crate::timer::Timer;
use crate::video::{
    Video, VideoAbs, mode_bits, mode_bits_spec, oam_addr_spec, video_new_spec, video_read_spec,
    video_write_spec, vram_addr_spec,
};

verus! {

/// The address bus: the decoder that routes every CPU memory access to
/// the cartridge, the video unit, work RAM, high RAM, or a peripheral
/// register, and that performs OAM DMA. It owns the stores it decodes
/// into.
pub struct AddressBus {
    pub cartridge: Option<Cartridge>,
    pub wram: Vec<u8>,
    pub serial: Serial,
    pub timer: Timer,
    pub video: Video,
    pub interrupts: Interrupts,
    pub hram: Vec<u8>,
}

/// The bus as its mathematical value.
#[verifier::ext_equal]
pub ghost struct BusAbs {
    pub cartridge: Option<CartAbs>,
    pub wram: Seq<u8>,
    pub serial: SerialAbs,
    pub timer: Timer,
    pub video: VideoAbs,
    pub interrupts: Interrupts,
    pub hram: Seq<u8>,
}

impl View for AddressBus {
    type V = BusAbs;

    open spec fn view(&self) -> BusAbs {
        BusAbs {
            cartridge: match self.cartridge {
                Some(c) => Some(c@),
                None => None,
            },
            wram: self.wram@,
            serial: self.serial@,
            timer: self.timer,
            video: self.video@,
            interrupts: self.interrupts,
            hram: self.hram@,
        }
    }
}

/// The STAT byte a read composes: stored bits 7..3, the live coincidence
/// flag at bit 2, the live mode at bits 1..0.
pub open spec fn stat_read_spec(v: VideoAbs) -> u8 {
    ((v.stat / 8) * 8 + (if v.lyc == v.ly {
        4u8
    } else {
        0u8
    }) + mode_bits_spec(v.mode)) as u8
}

/// The byte a bus read returns at any address: the full address map,
/// echo RAM folded onto work RAM, unmapped addresses reading 0xFF.
#[verifier::opaque]
pub open spec fn bus_read_spec(b: BusAbs, addr: u16) -> u8 {
    if cart_addr_spec(addr) {
        match b.cartridge {
            Some(c) => cart_read_spec(c, addr),
            None => 0xFF,
        }
    } else if vram_addr_spec(addr) || oam_addr_spec(addr) {
        video_read_spec(b.video, addr)
    } else if 0xC000 <= addr < 0xE000 {
        b.wram[addr - 0xC000]
    } else if 0xE000 <= addr < 0xFE00 {
        b.wram[addr - 0xE000]
    } else if addr == 0xFF01 {
        b.serial.sb
    } else if addr == 0xFF02 {
        b.serial.sc
    } else if addr == 0xFF04 {
        b.timer.div
    } else if addr == 0xFF05 {
        b.timer.tima
    } else if addr == 0xFF06 {
        b.timer.tma
    } else if addr == 0xFF07 {
        b.timer.tac
    } else if addr == 0xFF0F {
        b.interrupts.iflag
    } else if addr == 0xFF40 {
        b.video.lcdc
    } else if addr == 0xFF41 {
        stat_read_spec(b.video)
    } else if addr == 0xFF42 {
        b.video.scy
    } else if addr == 0xFF43 {
        b.video.scx
    } else if addr == 0xFF44 {
        b.video.ly
    } else if addr == 0xFF45 {
        b.video.lyc
    } else if addr == 0xFF47 {
        b.video.bgp
    } else if addr == 0xFF48 {
        b.video.obp0
    } else if addr == 0xFF49 {
        b.video.obp1
    } else if addr == 0xFF4A {
        b.video.wy
    } else if addr == 0xFF4B {
        b.video.wx
    } else if 0xFF80 <= addr < 0xFFFF {
        b.hram[addr - 0xFF80]
    } else if addr == 0xFFFF {
        b.interrupts.ie
    } else {
        0xFF
    }
}

/// The bus after the OAM DMA copy of the first `n` bytes from page `hi`:
/// byte `i` is read through the bus as it stands after the bytes before
/// it, and stored through the OAM window with its mode gating.
#[verifier::opaque]
pub open spec fn dma_spec(b: BusAbs, hi: u8, n: int) -> BusAbs
    decreases n,
{
    if n <= 0 {
        b
    } else {
        let b1 = dma_spec(b, hi, n - 1);
        let value = bus_read_spec(b1, (hi * 256 + (n - 1)) as u16);
        BusAbs { video: video_write_spec(b1.video, (0xFE00 + (n - 1)) as u16, value), ..b1 }
    }
}

/// The bus after a write at any address: the full address map. LY is
/// read-only, a STAT write keeps the live bits 1..0, a write to 0xFF46
/// performs the whole 160-byte OAM DMA, and unmapped addresses ignore the
/// write.
#[verifier::opaque]
pub open spec fn bus_write_spec(b: BusAbs, addr: u16, value: u8) -> BusAbs {
    if cart_addr_spec(addr) {
        match b.cartridge {
            Some(c) => BusAbs { cartridge: Some(cart_write_spec(c, addr, value)), ..b },
            None => b,
        }
    } else if vram_addr_spec(addr) || oam_addr_spec(addr) {
        BusAbs { video: video_write_spec(b.video, addr, value), ..b }
    } else if 0xC000 <= addr < 0xE000 {
        BusAbs { wram: b.wram.update(addr - 0xC000, value), ..b }
    } else if 0xE000 <= addr < 0xFE00 {
        BusAbs { wram: b.wram.update(addr - 0xE000, value), ..b }
    } else if addr == 0xFF01 {
        BusAbs { serial: SerialAbs { sb: value, ..b.serial }, ..b }
    } else if addr == 0xFF02 {
        BusAbs { serial: SerialAbs { sc: value, ..b.serial }, ..b }
    } else if addr == 0xFF04 {
        BusAbs { timer: Timer { div: value, ..b.timer }, ..b }
    } else if addr == 0xFF05 {
        BusAbs { timer: Timer { tima: value, ..b.timer }, ..b }
    } else if addr == 0xFF06 {
        BusAbs { timer: Timer { tma: value, ..b.timer }, ..b }
    } else if addr == 0xFF07 {
        BusAbs { timer: Timer { tac: value, ..b.timer }, ..b }
    } else if addr == 0xFF0F {
        BusAbs { interrupts: Interrupts { iflag: value, ..b.interrupts }, ..b }
    } else if addr == 0xFF40 {
        BusAbs { video: VideoAbs { lcdc: value, ..b.video }, ..b }
    } else if addr == 0xFF41 {
        BusAbs {
            video: VideoAbs { stat: ((value / 4) * 4 + b.video.stat % 4) as u8, ..b.video },
            ..b
        }
    } else if addr == 0xFF42 {
        BusAbs { video: VideoAbs { scy: value, ..b.video }, ..b }
    } else if addr == 0xFF43 {
        BusAbs { video: VideoAbs { scx: value, ..b.video }, ..b }
    } else if addr == 0xFF45 {
        BusAbs { video: VideoAbs { lyc: value, ..b.video }, ..b }
    } else if addr == 0xFF46 {
        dma_spec(b, value, 160)
    } else if addr == 0xFF47 {
        BusAbs { video: VideoAbs { bgp: value, ..b.video }, ..b }
    } else if addr == 0xFF48 {
        BusAbs { video: VideoAbs { obp0: value, ..b.video }, ..b }
    } else if addr == 0xFF49 {
        BusAbs { video: VideoAbs { obp1: value, ..b.video }, ..b }
    } else if addr == 0xFF4A {
        BusAbs { video: VideoAbs { wy: value, ..b.video }, ..b }
    } else if addr == 0xFF4B {
        BusAbs { video: VideoAbs { wx: value, ..b.video }, ..b }
    } else if 0xFF80 <= addr < 0xFFFF {
        BusAbs { hram: b.hram.update(addr - 0xFF80, value), ..b }
    } else if addr == 0xFFFF {
        BusAbs { interrupts: Interrupts { ie: value, ..b.interrupts }, ..b }
    } else {
        b
    }
}

/// The address after `a`, wrapping around the 16-bit space.
pub open spec fn addr_succ_spec(a: u16) -> u16 {
    if a == 0xFFFF {
        0
    } else {
        (a + 1) as u16
    }
}

/// The little-endian word read at an address.
pub open spec fn bus_read16_spec(b: BusAbs, addr: u16) -> u16 {
    word_spec(bus_read_spec(b, addr_succ_spec(addr)), bus_read_spec(b, addr))
}

/// The bus after a little-endian word write: low byte first.
pub open spec fn bus_write16_spec(b: BusAbs, addr: u16, value: u16) -> BusAbs {
    bus_write_spec(
        bus_write_spec(b, addr, lo_byte_spec(value)),
        addr_succ_spec(addr),
        hi_byte_spec(value),
    )
}

impl AddressBus {
    /// Every store has its fixed size and every component its own
    /// well-formedness.
    pub open spec fn wf(self) -> bool {
        &&& self.wram@.len() == 8192
        &&& self.hram@.len() == 127
        &&& self.serial.wf()
        &&& self.timer.wf()
        &&& self.video.wf()
        &&& match self.cartridge {
            Some(c) => c.wf(),
            None => true,
        }
    }

    /// A bus with no cartridge mounted and every store cleared.
    pub fn new() -> (r: AddressBus)
        ensures
            r.wf(),
            r@.cartridge is None,
            r@.wram =~= Seq::new(8192, |i: int| 0u8),
            r@.hram =~= Seq::new(127, |i: int| 0u8),
            r@.serial == (SerialAbs { sb: 0, sc: 0, transfer_cycles: 0, sink: Seq::<u8>::empty() }),
            r@.timer == (Timer { div: 0, tima: 0, tma: 0, tac: 0, divider_cycles: 0, timer_cycles: 0 }),
            r@.interrupts == (Interrupts { iflag: 0, ie: 0 }),
            r@.video == video_new_spec(),
    {
        let mut wram: Vec<u8> = Vec::new();
        let mut i: usize = 0;
        while i < 8192
            invariant
                i <= 8192,
                wram@ =~= Seq::new(i as nat, |j: int| 0u8),
            decreases 8192 - i,
        {
            wram.push(0);
            proof {
                assert(wram@ =~= Seq::new((i + 1) as nat, |j: int| 0u8));
            }
            i = i + 1;
        }
        let mut hram: Vec<u8> = Vec::new();
        let mut i: usize = 0;
        while i < 127
            invariant
                i <= 127,
                hram@ =~= Seq::new(i as nat, |j: int| 0u8),
            decreases 127 - i,
        {
            hram.push(0);
            proof {
                assert(hram@ =~= Seq::new((i + 1) as nat, |j: int| 0u8));
            }
            i = i + 1;
        }
        AddressBus {
            cartridge: None,
            wram,
            serial: Serial::new(),
            timer: Timer::new(),
            video: Video::new(),
            interrupts: Interrupts::new(),
            hram,
        }
    }

    /// Mounts a cartridge; everything else keeps its state.
    pub fn set_cartridge(&mut self, cartridge: Cartridge)
        requires
            cartridge.wf(),
        ensures
            final(self)@ == (BusAbs { cartridge: Some(cartridge@), ..old(self)@ }),
            old(self).wf() ==> final(self).wf(),
    {
        self.cartridge = Some(cartridge);
    }

    /// The byte at an address of the map.
    pub fn read_byte(&self, address: u16) -> (r: u8)
        requires
            self.wf(),
        ensures
            r == bus_read_spec(self@, address),
    {
        proof {
            reveal(bus_read_spec);
        }
        if address < 0x8000 || (0xA000 <= address && address < 0xC000) {
            match &self.cartridge {
                Some(c) => c.read_byte(address),
                None => 0xFF,
            }
        } else if (0x8000 <= address && address < 0xA000) || (0xFE00 <= address && address
            < 0xFEA0) {
            self.video.read_byte(address)
        } else if 0xC000 <= address && address < 0xE000 {
            self.wram[(address - 0xC000) as usize]
        } else if 0xE000 <= address && address < 0xFE00 {
            self.wram[(address - 0xE000) as usize]
        } else if address == 0xFF01 {
            self.serial.sb
        } else if address == 0xFF02 {
            self.serial.sc
        } else if address == 0xFF04 {
            self.timer.div
        } else if address == 0xFF05 {
            self.timer.tima
        } else if address == 0xFF06 {
            self.timer.tma
        } else if address == 0xFF07 {
            self.timer.tac
        } else if address == 0xFF0F {
            self.interrupts.iflag
        } else if address == 0xFF40 {
            self.video.lcdc
        } else if address == 0xFF41 {
            let coin: u8 = if self.video.coincidence_flag() {
                4
            } else {
                0
            };
            (self.video.stat / 8) * 8 + coin + mode_bits(self.video.mode)
        } else if address == 0xFF42 {
            self.video.scy
        } else if address == 0xFF43 {
            self.video.scx
        } else if address == 0xFF44 {
            self.video.ly
        } else if address == 0xFF45 {
            self.video.lyc
        } else if address == 0xFF47 {
            self.video.bgp
        } else if address == 0xFF48 {
            self.video.obp0
        } else if address == 0xFF49 {
            self.video.obp1
        } else if address == 0xFF4A {
            self.video.wy
        } else if address == 0xFF4B {
            self.video.wx
        } else if 0xFF80 <= address && address < 0xFFFF {
            self.hram[(address - 0xFF80) as usize]
        } else if address == 0xFFFF {
            self.interrupts.ie
        } else {
            0xFF
        }
    }

    /// Stores a byte at an address of the map; a write to 0xFF46 runs the
    /// OAM DMA copy.
    pub fn write_byte(&mut self, address: u16, value: u8)
        requires
            old(self).wf(),
        ensures
            final(self).wf(),
            final(self)@ == bus_write_spec(old(self)@, address, value),
    {
        proof {
            reveal(bus_write_spec);
        }
        if address < 0x8000 || (0xA000 <= address && address < 0xC000) {
            match &mut self.cartridge {
                Some(c) => c.write_byte(address, value),
                None => {},
            }
        } else if (0x8000 <= address && address < 0xA000) || (0xFE00 <= address && address
            < 0xFEA0) {
            self.video.write_byte(address, value);
        } else if 0xC000 <= address && address < 0xE000 {
            self.wram[(address - 0xC000) as usize] = value;
        } else if 0xE000 <= address && address < 0xFE00 {
            self.wram[(address - 0xE000) as usize] = value;
        } else if address == 0xFF01 {
            self.serial.sb = value;
        } else if address == 0xFF02 {
            self.serial.sc = value;
        } else if address == 0xFF04 {
            self.timer.div = value;
        } else if address == 0xFF05 {
            self.timer.tima = value;
        } else if address == 0xFF06 {
            self.timer.tma = value;
        } else if address == 0xFF07 {
            self.timer.tac = value;
        } else if address == 0xFF0F {
            self.interrupts.iflag = value;
        } else if address == 0xFF40 {
            self.video.lcdc = value;
        } else if address == 0xFF41 {
            self.video.stat = (value / 4) * 4 + self.video.stat % 4;
        } else if address == 0xFF42 {
            self.video.scy = value;
        } else if address == 0xFF43 {
            self.video.scx = value;
        } else if address == 0xFF45 {
            self.video.lyc = value;
        } else if address == 0xFF46 {
            self.oam_dma(value);
        } else if address == 0xFF47 {
            self.video.bgp = value;
        } else if address == 0xFF48 {
            self.video.obp0 = value;
        } else if address == 0xFF49 {
            self.video.obp1 = value;
        } else if address == 0xFF4A {
            self.video.wy = value;
        } else if address == 0xFF4B {
            self.video.wx = value;
        } else if 0xFF80 <= address && address < 0xFFFF {
            self.hram[(address - 0xFF80) as usize] = value;
        } else if address == 0xFFFF {
            self.interrupts.ie = value;
        }
        proof {
            assert(final(self)@ =~~= bus_write_spec(old(self)@, address, value));
        }
    }

    /// Copies 160 bytes from page `hi` into OAM through ordinary bus
    /// reads, modelled as one immediate transfer.
    fn oam_dma(&mut self, hi: u8)
        requires
            old(self).wf(),
        ensures
            final(self).wf(),
            final(self)@ == dma_spec(old(self)@, hi, 160),
    {
        proof {
            reveal(dma_spec);
        }
        let src: u16 = (hi as u16) * 256;
        let mut offset: u16 = 0;
        while offset < 160
            invariant
                self.wf(),
                src == hi * 256,
                offset <= 160,
                self@ == dma_spec(old(self)@, hi, offset as int),
            decreases 160 - offset,
        {
            let value = self.read_byte(src + offset);
            self.video.write_byte(0xFE00 + offset, value);
            proof {
                reveal(dma_spec);
                assert(self@ =~~= dma_spec(old(self)@, hi, offset + 1));
            }
            offset = offset + 1;
        }
    }

    /// The little-endian word at an address.
    pub fn read_word(&self, address: u16) -> (r: u16)
        requires
            self.wf(),
        ensures
            r == bus_read16_spec(self@, address),
    {
        let low = self.read_byte(address);
        let high = self.read_byte(
            if address == 0xFFFF {
                0
            } else {
                address + 1
            },
        );
        (high as u16) * 256 + (low as u16)
    }

    /// Stores a word little-endian: low byte at the address, high byte
    /// after it.
    pub fn write_word(&mut self, address: u16, value: u16)
        requires
            old(self).wf(),
        ensures
            final(self).wf(),
            final(self)@ == bus_write16_spec(old(self)@, address, value),
    {
        self.write_byte(address, (value % 256) as u8);
        let next = if address == 0xFFFF {
            0
        } else {
            address + 1
        };
        self.write_byte(next, (value / 256) as u8);
    }
}

/// Whether an address lands in plainly-backed RAM: work RAM (directly or
/// through the echo region) or high RAM.
pub open spec fn plain_ram_spec(addr: u16) -> bool {
    (0xC000 <= addr < 0xFE00) || (0xFF80 <= addr < 0xFFFF)
}

/// A byte written to work RAM, echo RAM or high RAM reads back unchanged.
pub proof fn lemma_ram_write_read(b: BusAbs, addr: u16, value: u8)
    requires
        plain_ram_spec(addr),
        b.wram.len() == 8192,
        b.hram.len() == 127,
    ensures
        bus_read_spec(bus_write_spec(b, addr, value), addr) == value,
{
    reveal(bus_read_spec);
    reveal(bus_write_spec);
}

/// Echo RAM shares its backing with work RAM: an address and its echo
/// always read the same byte.
pub proof fn lemma_echo_read(b: BusAbs, addr: u16)
    requires
        0xC000 <= addr <= 0xDDFF,
    ensures
        bus_read_spec(b, addr) == bus_read_spec(b, (addr + 0x2000) as u16),
{
    reveal(bus_read_spec);
}

/// A word written to plainly-backed RAM reads back unchanged; the two
/// bytes land on distinct cells even across the echo fold.
pub proof fn lemma_ram_write_read16(b: BusAbs, addr: u16, value: u16)
    requires
        plain_ram_spec(addr),
        plain_ram_spec(addr_succ_spec(addr)),
        b.wram.len() == 8192,
        b.hram.len() == 127,
    ensures
        bus_read16_spec(bus_write16_spec(b, addr, value), addr) == value,
{
    reveal(bus_read_spec);
    reveal(bus_write_spec);
    let b1 = bus_write_spec(b, addr, lo_byte_spec(value));
    let b2 = bus_write_spec(b1, addr_succ_spec(addr), hi_byte_spec(value));
    lemma_ram_write_read(b1, addr_succ_spec(addr), hi_byte_spec(value));
    assert(bus_read_spec(b2, addr) == lo_byte_spec(value));
}

} // verus!
