use vstd::prelude::*;
use crate::errors::CoreError;

verus! {

/// The mapper named by header byte 0x147.
#[derive(Clone, Copy, PartialEq, Eq, Structural, Debug)]
pub enum CartridgeType {
    ROMOnly,
    MBC1,
}

/// A cartridge image: the raw bytes handed over by the loader. The core
/// only reads them; the header region must be present.
pub struct ROM {
    bytes: Vec<u8>,
}

impl View for ROM {
    type V = Seq<u8>;

    closed spec fn view(&self) -> Seq<u8> {
        self.bytes@
    }
}

/// The byte at an offset of an image, or 0xFF where the image ends short
/// of it.
pub open spec fn rom_at_spec(rom: Seq<u8>, i: int) -> u8 {
    if 0 <= i < rom.len() {
        rom[i]
    } else {
        0xFF
    }
}

/// The character a title byte denotes: printable ASCII stands for itself,
/// anything else becomes the substitution character.
pub open spec fn title_char_spec(b: u8) -> char {
    if b < 0x80 {
        b as char
    } else {
        '\u{FFFD}'
    }
}

/// The title characters from window position `i` on, stopping at the first
/// NUL.
pub open spec fn title_tail_spec(win: Seq<u8>, i: int) -> Seq<char>
    decreases win.len() - i,
{
    if i < 0 || i >= win.len() || win[i] == 0 {
        Seq::empty()
    } else {
        seq![title_char_spec(win[i])] + title_tail_spec(win, i + 1)
    }
}

/// The title of an image: header bytes 0x134..0x143 up to the first NUL,
/// with non-ASCII bytes replaced.
pub open spec fn title_spec(rom: Seq<u8>) -> Seq<char> {
    title_tail_spec(rom.subrange(0x134, 0x144), 0)
}

/// Relies on String::push: appends the character to the string.
pub assume_specification[ String::push ](s: &mut String, ch: char)
    ensures
        final(s)@ == old(s)@.push(ch),
;

impl ROM {
    /// The header region (through byte 0x14F) is present.
    pub open spec fn wf(self) -> bool {
        self@.len() >= 0x150
    }

    /// Accepts an image if it is long enough to hold the header.
    pub fn new(bytes: Vec<u8>) -> (r: Result<ROM, CoreError>)
        ensures
            bytes@.len() >= 0x150 ==> (r matches Ok(rom) && rom@ == bytes@ && rom.wf()),
            bytes@.len() < 0x150 ==> r == Err::<ROM, CoreError>(CoreError::RomTooShort),
    {
        if bytes.len() < 0x150 {
            Err(CoreError::RomTooShort)
        } else {
            Ok(ROM { bytes })
        }
    }

    /// The byte at an offset, or 0xFF past the end of the image.
    pub fn byte_at(&self, i: usize) -> (r: u8)
        ensures
            r == rom_at_spec(self@, i as int),
    {
        if i < self.bytes.len() {
            self.bytes[i]
        } else {
            0xFF
        }
    }

    /// The cartridge title: header bytes 0x134..0x143 up to the first NUL,
    /// with non-ASCII bytes replaced by the substitution character.
    pub fn title(&self) -> (r: String)
        requires
            self.wf(),
        ensures
            r@ == title_spec(self@),
    {
        let ghost win = self@.subrange(0x134, 0x144);
        let mut out = String::new();
        let mut i: usize = 0;
        let mut done = false;

        while !done && i < 16
            invariant
                self.wf(),
                i <= 16,
                win == self@.subrange(0x134, 0x144),
                out@ + title_tail_spec(win, i as int) == title_tail_spec(win, 0),
                done ==> title_tail_spec(win, i as int) =~= Seq::<char>::empty(),
            decreases 16 - i, (if done { 0int } else { 1int }),
        {
            let b = self.bytes[0x134 + i];
            assert(b == win[i as int]);
            if b == 0 {
                done = true;
            } else {
                let c: char = if b < 0x80 {
                    b as char
                } else {
                    '\u{FFFD}'
                };
                let ghost prev = out@;
                out.push(c);
                proof {
                    assert(title_tail_spec(win, i as int) == seq![title_char_spec(win[i as int])]
                        + title_tail_spec(win, i + 1));
                    assert(prev + title_tail_spec(win, i as int) =~= out@ + title_tail_spec(
                        win,
                        i + 1,
                    ));
                }
                i = i + 1;
            }
        }
        proof {
            assert(title_tail_spec(win, i as int) =~= Seq::<char>::empty());
            assert(out@ =~= title_tail_spec(win, 0));
        }
        out
    }

    /// The mapper the header names, or the offending byte.
    pub fn cartridge_type(&self) -> (r: Result<CartridgeType, CoreError>)
        requires
            self.wf(),
        ensures
            self@[0x147] == 0 ==> r == Ok::<CartridgeType, CoreError>(CartridgeType::ROMOnly),
            self@[0x147] == 1 ==> r == Ok::<CartridgeType, CoreError>(CartridgeType::MBC1),
            self@[0x147] > 1 ==> r == Err::<CartridgeType, CoreError>(
                CoreError::UnsupportedCartridgeType(self@[0x147]),
            ),
    {
        let b = self.bytes[0x147];
        match b {
            0x00 => Ok(CartridgeType::ROMOnly),
            0x01 => Ok(CartridgeType::MBC1),
            _ => Err(CoreError::UnsupportedCartridgeType(b)),
        }
    }

    /// The cartridge RAM size in bytes the header names, or the offending
    /// byte.
    pub fn ram_size(&self) -> (r: Result<usize, CoreError>)
        requires
            self.wf(),
        ensures
            self@[0x149] == 0 ==> r == Ok::<usize, CoreError>(0usize),
            self@[0x149] == 1 ==> r == Ok::<usize, CoreError>(2048usize),
            self@[0x149] == 2 ==> r == Ok::<usize, CoreError>(8192usize),
            self@[0x149] == 3 ==> r == Ok::<usize, CoreError>(32768usize),
            self@[0x149] > 3 ==> r == Err::<usize, CoreError>(
                CoreError::UnsupportedRamSize(self@[0x149]),
            ),
    {
        let b = self.bytes[0x149];
        match b {
            0x00 => Ok(0),
            0x01 => Ok(2048),
            0x02 => Ok(8192),
            0x03 => Ok(32768),
            _ => Err(CoreError::UnsupportedRamSize(b)),
        }
    }
}

} // verus!
