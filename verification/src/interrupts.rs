use vstd::prelude::*;

verus! {

/// The five interrupt sources, in the order of their bits in IE and IF
/// (bit 0 VBlank through bit 4 Joypad).
#[derive(Clone, Copy, PartialEq, Eq, Structural, Debug)]
pub enum Interrupt {
    VBlank,
    LCDStat,
    Timer,
    Serial,
    Joypad,
}

/// The IF/IE bit of an interrupt source.
pub open spec fn interrupt_mask_spec(i: Interrupt) -> u8 {
    match i {
        Interrupt::VBlank => 0x01,
        Interrupt::LCDStat => 0x02,
        Interrupt::Timer => 0x04,
        Interrupt::Serial => 0x08,
        Interrupt::Joypad => 0x10,
    }
}

pub fn interrupt_mask(i: Interrupt) -> (r: u8)
    ensures
        r == interrupt_mask_spec(i),
{
    match i {
        Interrupt::VBlank => 0x01,
        Interrupt::LCDStat => 0x02,
        Interrupt::Timer => 0x04,
        Interrupt::Serial => 0x08,
        Interrupt::Joypad => 0x10,
    }
}

/// The interrupt controller: the request flags IF and the enable mask IE.
/// Only bits 0 to 4 are meaningful; higher bits are retained as written and
/// ignored during dispatch.
#[derive(Clone, Copy, PartialEq, Eq, Structural, Debug)]
pub struct Interrupts {
    pub iflag: u8,
    pub ie: u8,
}

impl Interrupts {
    pub fn new() -> (r: Interrupts)
        ensures
            r == (Interrupts { iflag: 0, ie: 0 }),
    {
        Interrupts { iflag: 0, ie: 0 }
    }

    /// Sets the IF bit of the given interrupt source; nothing else changes.
    pub fn request(&mut self, interrupt: Interrupt)
        ensures
            *final(self) == (Interrupts {
                iflag: old(self).iflag | interrupt_mask_spec(interrupt),
                ..*old(self)
            }),
    {
        self.iflag = self.iflag | interrupt_mask(interrupt);
    }
}


/// The IF byte after a batch of interrupts is requested in order.
pub open spec fn irq_fold_spec(iflag: u8, irqs: Seq<Interrupt>) -> u8
    decreases irqs.len(),
{
    if irqs.len() == 0 {
        iflag
    } else {
        irq_fold_spec(iflag | interrupt_mask_spec(irqs[0]), irqs.skip(1))
    }
}

} // verus!
