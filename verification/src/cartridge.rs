use vstd::prelude::*;
use crate::errors::CoreError;
use crate::rom::{CartridgeType, ROM, rom_at_spec};

verus! {

/// The plain 32 KiB mapper: no state, reads straight from the image,
/// discards every write.
#[derive(Clone, Copy, PartialEq, Eq, Structural, Debug)]
pub struct MBC0 {
}

/// Which window the 0x4000-0x5FFF register writes address.
#[derive(Clone, Copy, PartialEq, Eq, Structural, Debug)]
pub enum BankMode {
    ROM,
    RAM,
}

/// The MBC1 mapper: a switchable ROM bank, up to four RAM banks, and a
/// RAM-enable latch.
pub struct MBC1 {
    pub ram: Vec<u8>,
    pub ram_enabled: bool,
    pub rom_bank: u8,
    pub ram_bank: u8,
    pub bank_mode: BankMode,
}

/// The MBC1 mapper as its mathematical value.
#[verifier::ext_equal]
pub ghost struct Mbc1Abs {
    pub ram: Seq<u8>,
    pub ram_enabled: bool,
    pub rom_bank: u8,
    pub ram_bank: u8,
    pub bank_mode: BankMode,
}

impl View for MBC1 {
    type V = Mbc1Abs;

    open spec fn view(&self) -> Mbc1Abs {
        Mbc1Abs {
            ram: self.ram@,
            ram_enabled: self.ram_enabled,
            rom_bank: self.rom_bank,
            ram_bank: self.ram_bank,
            bank_mode: self.bank_mode,
        }
    }
}

/// The mapper of a cartridge, as a tagged sum.
pub enum Mbc {
    MBC0(MBC0),
    MBC1(MBC1),
}

/// The mapper as its mathematical value.
#[verifier::ext_equal]
pub ghost enum MbcAbs {
    MBC0,
    MBC1(Mbc1Abs),
}

impl View for Mbc {
    type V = MbcAbs;

    open spec fn view(&self) -> MbcAbs {
        match self {
            Mbc::MBC0(_) => MbcAbs::MBC0,
            Mbc::MBC1(m) => MbcAbs::MBC1(m@),
        }
    }
}

/// A mounted cartridge: the immutable image and the mapper state.
pub struct Cartridge {
    pub rom: ROM,
    pub mbc: Mbc,
}

/// A cartridge as its mathematical value.
#[verifier::ext_equal]
pub ghost struct CartAbs {
    pub rom: Seq<u8>,
    pub mbc: MbcAbs,
}

impl View for Cartridge {
    type V = CartAbs;

    open spec fn view(&self) -> CartAbs {
        CartAbs { rom: self.rom@, mbc: self.mbc@ }
    }
}

/// Whether an address belongs to the cartridge: the ROM window or the
/// external-RAM window.
pub open spec fn cart_addr_spec(addr: u16) -> bool {
    addr < 0x8000 || (0xA000 <= addr && addr < 0xC000)
}

/// The byte a cartridge read returns. ROM reads past the image and RAM
/// reads while RAM is disabled or unbacked yield 0xFF.
pub open spec fn cart_read_spec(c: CartAbs, addr: u16) -> u8 {
    match c.mbc {
        MbcAbs::MBC0 => {
            if addr < 0x8000 {
                rom_at_spec(c.rom, addr as int)
            } else {
                0xFF
            }
        },
        MbcAbs::MBC1(m) => {
            if addr < 0x4000 {
                rom_at_spec(c.rom, addr as int)
            } else if addr < 0x8000 {
                rom_at_spec(c.rom, m.rom_bank * 0x4000 + (addr - 0x4000))
            } else {
                if m.ram_enabled {
                    let i = m.ram_bank * 0x2000 + (addr - 0xA000);
                    if i < m.ram.len() {
                        m.ram[i]
                    } else {
                        0xFF
                    }
                } else {
                    0xFF
                }
            }
        },
    }
}

/// The MBC1 state a register or RAM write leaves behind.
pub open spec fn mbc1_write_spec(m: Mbc1Abs, addr: u16, value: u8) -> Mbc1Abs {
    if addr < 0x2000 {
        Mbc1Abs { ram_enabled: value % 16 == 0x0A, ..m }
    } else if addr < 0x4000 {
        let low = if value % 32 == 0 {
            1u8
        } else {
            (value % 32) as u8
        };
        Mbc1Abs { rom_bank: ((m.rom_bank / 32) * 32 + low) as u8, ..m }
    } else if addr < 0x6000 {
        match m.bank_mode {
            BankMode::ROM => Mbc1Abs {
                rom_bank: ((value % 4) * 32 + m.rom_bank % 32) as u8,
                ..m
            },
            BankMode::RAM => Mbc1Abs { ram_bank: (value % 4) as u8, ..m },
        }
    } else if addr < 0x8000 {
        Mbc1Abs {
            bank_mode: if value % 2 == 0 {
                BankMode::ROM
            } else {
                BankMode::RAM
            },
            ..m
        }
    } else {
        if m.ram_enabled {
            let i = m.ram_bank * 0x2000 + (addr - 0xA000);
            if i < m.ram.len() {
                Mbc1Abs { ram: m.ram.update(i, value), ..m }
            } else {
                m
            }
        } else {
            m
        }
    }
}

/// The cartridge a write leaves behind: the image never changes, only the
/// mapper state.
pub open spec fn cart_write_spec(c: CartAbs, addr: u16, value: u8) -> CartAbs {
    match c.mbc {
        MbcAbs::MBC0 => c,
        MbcAbs::MBC1(m) => CartAbs { mbc: MbcAbs::MBC1(mbc1_write_spec(m, addr, value)), ..c },
    }
}

impl MBC1 {
    /// The selected ROM bank stays in 1..=127 with a nonzero low window,
    /// and the RAM bank in 0..=3.
    pub open spec fn wf(self) -> bool {
        &&& 1 <= self.rom_bank < 128
        &&& self.rom_bank % 32 != 0
        &&& self.ram_bank < 4
    }

    pub fn new(ram_size: usize) -> (r: MBC1)
        ensures
            r@ == (Mbc1Abs {
                ram: Seq::new(ram_size as nat, |i: int| 0u8),
                ram_enabled: false,
                rom_bank: 1,
                ram_bank: 0,
                bank_mode: BankMode::ROM,
            }),
            r.wf(),
    {
        let mut ram: Vec<u8> = Vec::new();
        let mut i: usize = 0;
        while i < ram_size
            invariant
                i <= ram_size,
                ram@ =~= Seq::new(i as nat, |j: int| 0u8),
            decreases ram_size - i,
        {
            ram.push(0);
            proof {
                assert(ram@ =~= Seq::new((i + 1) as nat, |j: int| 0u8));
            }
            i = i + 1;
        }
        let r = MBC1 { ram, ram_enabled: false, rom_bank: 1, ram_bank: 0, bank_mode: BankMode::ROM };
        proof {
            assert(r@ =~= (Mbc1Abs {
                ram: Seq::new(ram_size as nat, |i: int| 0u8),
                ram_enabled: false,
                rom_bank: 1,
                ram_bank: 0,
                bank_mode: BankMode::ROM,
            }));
        }
        r
    }
}

impl Cartridge {
    pub open spec fn wf(self) -> bool {
        match self.mbc {
            Mbc::MBC0(_) => true,
            Mbc::MBC1(m) => m.wf(),
        }
    }

    /// Builds the cartridge the header describes: mapper type from byte
    /// 0x147, RAM sized per byte 0x149 for MBC1. Unsupported header bytes
    /// are refused.
    pub fn from_rom(rom: ROM) -> (r: Result<Cartridge, CoreError>)
        requires
            rom.wf(),
        ensures
            rom@[0x147] == 0 ==> (r matches Ok(c) && c@ == (CartAbs { rom: rom@, mbc: MbcAbs::MBC0 })
                && c.wf()),
            rom@[0x147] == 1 && rom@[0x149] <= 3 ==> (r matches Ok(c) && c.wf() && c@.rom == rom@
                && (c@.mbc matches MbcAbs::MBC1(m) && m == (Mbc1Abs {
                ram: Seq::new(
                    (if rom@[0x149] == 0 {
                        0int
                    } else if rom@[0x149] == 1 {
                        2048int
                    } else if rom@[0x149] == 2 {
                        8192int
                    } else {
                        32768int
                    }) as nat,
                    |i: int| 0u8,
                ),
                ram_enabled: false,
                rom_bank: 1,
                ram_bank: 0,
                bank_mode: BankMode::ROM,
            }))),
            rom@[0x147] > 1 ==> r == Err::<Cartridge, CoreError>(
                CoreError::UnsupportedCartridgeType(rom@[0x147]),
            ),
            rom@[0x147] == 1 && rom@[0x149] > 3 ==> r == Err::<Cartridge, CoreError>(
                CoreError::UnsupportedRamSize(rom@[0x149]),
            ),
    {
        match rom.cartridge_type()? {
            CartridgeType::ROMOnly => Ok(Cartridge { rom, mbc: Mbc::MBC0(MBC0 {  }) }),
            CartridgeType::MBC1 => {
                let ram_size = rom.ram_size()?;
                Ok(Cartridge { rom, mbc: Mbc::MBC1(MBC1::new(ram_size)) })
            },
        }
    }

    /// The byte the cartridge drives onto the bus for an address in its
    /// windows.
    pub fn read_byte(&self, address: u16) -> (r: u8)
        requires
            cart_addr_spec(address),
        ensures
            r == cart_read_spec(self@, address),
    {
        match &self.mbc {
            Mbc::MBC0(_) => {
                if address < 0x8000 {
                    self.rom.byte_at(address as usize)
                } else {
                    0xFF
                }
            },
            Mbc::MBC1(m) => {
                if address < 0x4000 {
                    self.rom.byte_at(address as usize)
                } else if address < 0x8000 {
                    let offset = (m.rom_bank as usize) * 0x4000;
                    self.rom.byte_at(offset + (address as usize - 0x4000))
                } else {
                    if m.ram_enabled {
                        let i = (m.ram_bank as usize) * 0x2000 + (address as usize - 0xA000);
                        if i < m.ram.len() {
                            m.ram[i]
                        } else {
                            0xFF
                        }
                    } else {
                        0xFF
                    }
                }
            },
        }
    }

    /// A write into the cartridge windows: mapper register or external
    /// RAM. The well-formedness of the mapper state is preserved.
    pub fn write_byte(&mut self, address: u16, value: u8)
        requires
            cart_addr_spec(address),
            old(self).wf(),
        ensures
            final(self).wf(),
            final(self)@ == cart_write_spec(old(self)@, address, value),
    {
        match &mut self.mbc {
            Mbc::MBC0(_) => {},
            Mbc::MBC1(m) => {
                if address < 0x2000 {
                    m.ram_enabled = value % 16 == 0x0A;
                } else if address < 0x4000 {
                    let low = if value % 32 == 0 {
                        1
                    } else {
                        value % 32
                    };
                    m.rom_bank = (m.rom_bank / 32) * 32 + low;
                } else if address < 0x6000 {
                    match m.bank_mode {
                        BankMode::ROM => {
                            m.rom_bank = (value % 4) * 32 + m.rom_bank % 32;
                        },
                        BankMode::RAM => {
                            m.ram_bank = value % 4;
                        },
                    }
                } else if address < 0x8000 {
                    m.bank_mode = if value % 2 == 0 {
                        BankMode::ROM
                    } else {
                        BankMode::RAM
                    };
                } else {
                    if m.ram_enabled {
                        let i = (m.ram_bank as usize) * 0x2000 + (address as usize - 0xA000);
                        if i < m.ram.len() {
                            m.ram[i] = value;
                        }
                    }
                }
            },
        }
        proof {
            assert(final(self)@ =~~= cart_write_spec(old(self)@, address, value));
        }
    }
}

} // verus!
