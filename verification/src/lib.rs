mod bus;
mod cartridge;
mod cpu;
mod cpu_alu;
mod cpu_cb;
mod cpu_ops;
mod cpu_spec;
mod cpu_step;
mod errors;
mod flags;
mod interrupts;
mod regs;
mod rom;
mod render;
mod serial;
mod timer;
mod video;

pub use bus::AddressBus;
pub use cartridge::{BankMode, Cartridge, MBC0, MBC1, Mbc};
pub use cpu::CPU;
pub use errors::CoreError;
pub use flags::Flag;
pub use interrupts::{Interrupt, Interrupts};
pub use regs::Registers;
pub use rom::{CartridgeType, ROM};
pub use render::{BackgroundAddressMode, BackgroundTileMap};
pub use serial::Serial;
pub use timer::Timer;
pub use video::{Mode, Palettes, Priority, Sprite, Tile, Video};

use vstd::prelude::*;
use crate::bus::BusAbs;
use crate::bus::bus_write_spec;
use crate::cpu::cpu_new_spec;
use crate::cpu_spec::cpu_step_spec;
use crate::cpu_spec::lemma_cpu_step_cycles;
use crate::interrupts::irq_fold_spec;
use crate::render::video_step_spec;
use crate::serial::SerialAbs;
use crate::serial::serial_irqs_spec;
use crate::serial::serial_step_spec;
use crate::timer::timer_irqs_spec;
use crate::timer::timer_step_spec;

verus! {

/// One of the four monochrome intensities a pixel can take.
#[derive(Clone, Copy, PartialEq, Eq, Structural, Debug)]
pub enum Shade {
    White,
    LightGrey,
    DarkGrey,
    Black,
}

/// The byte value a shade takes in the exported frame buffer.
pub open spec fn shade_index_spec(s: Shade) -> u8 {
    match s {
        Shade::White => 0,
        Shade::LightGrey => 1,
        Shade::DarkGrey => 2,
        Shade::Black => 3,
    }
}

pub fn shade_index(s: Shade) -> (r: u8)
    ensures
        r == shade_index_spec(s),
{
    match s {
        Shade::White => 0,
        Shade::LightGrey => 1,
        Shade::DarkGrey => 2,
        Shade::Black => 3,
    }
}

/// The whole console: the processor and the bus that owns every other
/// component. `run_frame` drives the cycle loop that interleaves CPU
/// steps with peripheral catch-up steps and routes their interrupts.
pub struct Console {
    pub cpu: CPU,
    pub bus: AddressBus,
}

/// The documented post-boot register values `insert_cartridge` writes
/// through the bus, applied in order.
pub open spec fn boot_io_spec(b: BusAbs) -> BusAbs {
    let b0 = b;
    let b1 = bus_write_spec(b0, 0xFF05, 0x00);
    let b2 = bus_write_spec(b1, 0xFF06, 0x00);
    let b3 = bus_write_spec(b2, 0xFF07, 0x00);
    let b4 = bus_write_spec(b3, 0xFF10, 0x80);
    let b5 = bus_write_spec(b4, 0xFF11, 0xBF);
    let b6 = bus_write_spec(b5, 0xFF12, 0xF3);
    let b7 = bus_write_spec(b6, 0xFF14, 0xBF);
    let b8 = bus_write_spec(b7, 0xFF16, 0x3F);
    let b9 = bus_write_spec(b8, 0xFF17, 0x00);
    let b10 = bus_write_spec(b9, 0xFF19, 0xBF);
    let b11 = bus_write_spec(b10, 0xFF1A, 0x7F);
    let b12 = bus_write_spec(b11, 0xFF1B, 0xFF);
    let b13 = bus_write_spec(b12, 0xFF1C, 0x9F);
    let b14 = bus_write_spec(b13, 0xFF1E, 0xBF);
    let b15 = bus_write_spec(b14, 0xFF20, 0xFF);
    let b16 = bus_write_spec(b15, 0xFF21, 0x00);
    let b17 = bus_write_spec(b16, 0xFF22, 0x00);
    let b18 = bus_write_spec(b17, 0xFF23, 0xBF);
    let b19 = bus_write_spec(b18, 0xFF24, 0x77);
    let b20 = bus_write_spec(b19, 0xFF25, 0xF3);
    let b21 = bus_write_spec(b20, 0xFF26, 0xF1);
    let b22 = bus_write_spec(b21, 0xFF40, 0x91);
    let b23 = bus_write_spec(b22, 0xFF42, 0x00);
    let b24 = bus_write_spec(b23, 0xFF43, 0x00);
    let b25 = bus_write_spec(b24, 0xFF45, 0x00);
    let b26 = bus_write_spec(b25, 0xFF47, 0xFC);
    let b27 = bus_write_spec(b26, 0xFF48, 0xFF);
    let b28 = bus_write_spec(b27, 0xFF49, 0xFF);
    let b29 = bus_write_spec(b28, 0xFF4A, 0x00);
    let b30 = bus_write_spec(b29, 0xFF4B, 0x00);
    let b31 = bus_write_spec(b30, 0xFFFF, 0x00);
    b31
}

/// What one frame run leaves behind: the machine state, the error that
/// aborted it if any, and the cycles elapsed.
#[verifier::ext_equal]
pub ghost struct FrameAbs {
    pub cpu: CPU,
    pub bus: BusAbs,
    pub err: Option<CoreError>,
    pub elapsed: int,
}

/// The frame fold the scheduler computes: while fewer than 70225 cycles
/// have elapsed, one CPU step (dispatch, halted tick, or instruction),
/// then serial, timer and video advanced by its cost with their raised
/// interrupts gathered into IF, in that order; an opcode-map hole stops
/// the fold with its error and the state at that point.
pub open spec fn console_run_spec(cpu: CPU, b: BusAbs, elapsed: int) -> FrameAbs
    decreases 70248 - elapsed
        when 0 <= elapsed <= 70248
        via console_run_spec_dec
{
    if elapsed > 70224 {
        FrameAbs { cpu, bus: b, err: None, elapsed }
    } else {
        let s = cpu_step_spec(cpu, b);
        match s.2 {
            Result::Err(e) => FrameAbs { cpu: s.0, bus: s.1, err: Some(e), elapsed },
            Result::Ok(c) => {
                let b1 = s.1;
                let b2 = BusAbs {
                    serial: serial_step_spec(b1.serial, c as int),
                    timer: timer_step_spec(b1.timer, c),
                    video: video_step_spec(b1.video, c as int).0,
                    interrupts: Interrupts {
                        iflag: irq_fold_spec(
                            irq_fold_spec(
                                irq_fold_spec(
                                    b1.interrupts.iflag,
                                    serial_irqs_spec(b1.serial, c as int),
                                ),
                                timer_irqs_spec(b1.timer, c),
                            ),
                            video_step_spec(b1.video, c as int).1,
                        ),
                        ie: b1.interrupts.ie,
                    },
                    ..b1
                };
                console_run_spec(s.0, b2, elapsed + c)
            },
        }
    }
}

#[via_fn]
proof fn console_run_spec_dec(cpu: CPU, b: BusAbs, elapsed: int) {
    if elapsed <= 70224 {
        lemma_cpu_step_cycles(cpu, b);
    }
}

impl Console {
    pub open spec fn wf(self) -> bool {
        self.bus.wf()
    }

    /// A console with no cartridge mounted: the CPU in its post-boot
    /// state, every store cleared.
    pub fn new() -> (r: Console)
        ensures
            r.wf(),
            r.cpu == cpu_new_spec(),
            r.bus@.cartridge is None,
            r.bus@.serial.sink == Seq::<u8>::empty(),
            r.bus@.serial.sc == 0,
            r.bus@.interrupts == (Interrupts { iflag: 0, ie: 0 }),
    {
        Console { cpu: CPU::new(), bus: AddressBus::new() }
    }

    /// Mounts a cartridge and writes the documented post-boot register
    /// map through the bus.
    pub fn insert_cartridge(&mut self, cartridge: Cartridge)
        requires
            old(self).wf(),
            cartridge.wf(),
        ensures
            final(self).wf(),
            final(self).cpu == old(self).cpu,
            final(self).bus@ == boot_io_spec(
                BusAbs { cartridge: Some(cartridge@), ..old(self).bus@ },
            ),
    {
        self.bus.set_cartridge(cartridge);
        self.bus.write_byte(0xFF05, 0x00);
        self.bus.write_byte(0xFF06, 0x00);
        self.bus.write_byte(0xFF07, 0x00);
        self.bus.write_byte(0xFF10, 0x80);
        self.bus.write_byte(0xFF11, 0xBF);
        self.bus.write_byte(0xFF12, 0xF3);
        self.bus.write_byte(0xFF14, 0xBF);
        self.bus.write_byte(0xFF16, 0x3F);
        self.bus.write_byte(0xFF17, 0x00);
        self.bus.write_byte(0xFF19, 0xBF);
        self.bus.write_byte(0xFF1A, 0x7F);
        self.bus.write_byte(0xFF1B, 0xFF);
        self.bus.write_byte(0xFF1C, 0x9F);
        self.bus.write_byte(0xFF1E, 0xBF);
        self.bus.write_byte(0xFF20, 0xFF);
        self.bus.write_byte(0xFF21, 0x00);
        self.bus.write_byte(0xFF22, 0x00);
        self.bus.write_byte(0xFF23, 0xBF);
        self.bus.write_byte(0xFF24, 0x77);
        self.bus.write_byte(0xFF25, 0xF3);
        self.bus.write_byte(0xFF26, 0xF1);
        self.bus.write_byte(0xFF40, 0x91);
        self.bus.write_byte(0xFF42, 0x00);
        self.bus.write_byte(0xFF43, 0x00);
        self.bus.write_byte(0xFF45, 0x00);
        self.bus.write_byte(0xFF47, 0xFC);
        self.bus.write_byte(0xFF48, 0xFF);
        self.bus.write_byte(0xFF49, 0xFF);
        self.bus.write_byte(0xFF4A, 0x00);
        self.bus.write_byte(0xFF4B, 0x00);
        self.bus.write_byte(0xFFFF, 0x00);
    }

    /// Runs one frame: CPU steps interleaved with serial, timer and
    /// video catch-up, their interrupts posted to the controller, until
    /// at least 70224 cycles have elapsed. The machine ends exactly as
    /// the frame fold `console_run_spec` says: on success the elapsed
    /// count comes back, within one instruction's cost of the frame
    /// length; an opcode-map hole aborts the frame with its error. With
    /// no cartridge mounted nothing runs.
    pub fn run_frame(&mut self) -> (r: Result<usize, CoreError>)
        requires
            old(self).wf(),
        ensures
            final(self).wf(),
            old(self).bus@.cartridge is None ==> r == Ok::<usize, CoreError>(0usize) && *final(self)
                == *old(self),
            old(self).bus@.cartridge is Some ==> ({
                let o = console_run_spec(old(self).cpu, old(self).bus@, 0);
                &&& final(self).cpu == o.cpu
                &&& final(self).bus@ == o.bus
                &&& (match r {
                    Result::Ok(n) => o.err is None && n as int == o.elapsed,
                    Result::Err(e) => o.err == Some(e),
                })
            }),
            old(self).bus@.cartridge is Some ==> (r matches Ok(n) ==> 70224 < n <= 70248),
    {
        if self.bus.cartridge.is_none() {
            return Ok(0);
        }

        let mut elapsed: usize = 0;

        while elapsed <= 70224
            invariant
                self.wf(),
                old(self).bus@.cartridge is Some,
                elapsed <= 70248,
                console_run_spec(old(self).cpu, old(self).bus@, 0) == console_run_spec(
                    self.cpu,
                    self.bus@,
                    elapsed as int,
                ),
            decreases 70248 - elapsed,
        {
            let ghost cpu0 = self.cpu;
            let ghost b0 = self.bus@;

            let step_result = self.cpu.step(&mut self.bus);
            let cycles = match step_result {
                Ok(c) => c,
                Err(e) => {
                    proof {
                        assert(console_run_spec(cpu0, b0, elapsed as int) == (FrameAbs {
                            cpu: self.cpu,
                            bus: self.bus@,
                            err: Some(e),
                            elapsed: elapsed as int,
                        }));
                    }
                    return Err(e);
                },
            };
            let ghost b1 = self.bus@;

            let serial_irqs = self.bus.serial.step(cycles);
            self.post_interrupts(&serial_irqs);

            let timer_irqs = self.bus.timer.step(cycles);
            self.post_interrupts(&timer_irqs);

            let video_irqs = self.bus.video.step(cycles);
            self.post_interrupts(&video_irqs);

            proof {
                assert(self.bus@ =~~= (BusAbs {
                    serial: serial_step_spec(b1.serial, cycles as int),
                    timer: timer_step_spec(b1.timer, cycles),
                    video: video_step_spec(b1.video, cycles as int).0,
                    interrupts: Interrupts {
                        iflag: irq_fold_spec(
                            irq_fold_spec(
                                irq_fold_spec(
                                    b1.interrupts.iflag,
                                    serial_irqs_spec(b1.serial, cycles as int),
                                ),
                                timer_irqs_spec(b1.timer, cycles),
                            ),
                            video_step_spec(b1.video, cycles as int).1,
                        ),
                        ie: b1.interrupts.ie,
                    },
                    ..b1
                }));
                assert(console_run_spec(cpu0, b0, elapsed as int) == console_run_spec(
                    self.cpu,
                    self.bus@,
                    elapsed + cycles,
                ));
            }

            elapsed = elapsed + cycles;
        }

        proof {
            assert(console_run_spec(self.cpu, self.bus@, elapsed as int) == (FrameAbs {
                cpu: self.cpu,
                bus: self.bus@,
                err: None,
                elapsed: elapsed as int,
            }));
        }

        Ok(elapsed)
    }

    /// Posts each raised interrupt to the controller in order: IF gathers
    /// their bits, nothing else changes.
    fn post_interrupts(&mut self, irqs: &Vec<Interrupt>)
        ensures
            final(self).bus == (AddressBus {
                interrupts: final(self).bus.interrupts,
                ..old(self).bus
            }),
            final(self).bus.interrupts == (Interrupts {
                iflag: irq_fold_spec(old(self).bus.interrupts.iflag, irqs@),
                ..old(self).bus.interrupts
            }),
            final(self).cpu == old(self).cpu,
            old(self).wf() ==> final(self).wf(),
    {
        proof {
            assert(irqs@.skip(0) =~= irqs@);
        }
        let mut i: usize = 0;
        while i < irqs.len()
            invariant
                i <= irqs@.len(),
                self.bus == (AddressBus { interrupts: self.bus.interrupts, ..old(self).bus }),
                self.cpu == old(self).cpu,
                self.bus.interrupts.ie == old(self).bus.interrupts.ie,
                irq_fold_spec(old(self).bus.interrupts.iflag, irqs@) == irq_fold_spec(
                    self.bus.interrupts.iflag,
                    irqs@.skip(i as int),
                ),
            decreases irqs@.len() - i,
        {
            proof {
                assert(irqs@.skip(i as int)[0] == irqs@[i as int]);
                assert(irqs@.skip(i as int).skip(1) =~= irqs@.skip(i + 1));
            }
            self.bus.interrupts.request(irqs[i]);
            i = i + 1;
        }
        proof {
            assert(irqs@.skip(irqs@.len() as int) =~= Seq::<Interrupt>::empty());
        }
    }

    /// The current frame, row-major, one shade per pixel.
    pub fn framebuffer(&self) -> (r: &Vec<Shade>)
        ensures
            r@ == self.bus@.video.framebuffer,
    {
        self.bus.video.framebuffer()
    }

    /// The current frame as bytes 0 (white) to 3 (black).
    pub fn frame_bytes(&self) -> (r: Vec<u8>)
        ensures
            r@.len() == self.bus@.video.framebuffer.len(),
            forall|i: int|
                0 <= i < r@.len() ==> #[trigger] r@[i] == shade_index_spec(
                    self.bus@.video.framebuffer[i],
                ),
    {
        let fb = self.bus.video.framebuffer();
        let mut out: Vec<u8> = Vec::new();
        let mut i: usize = 0;
        while i < fb.len()
            invariant
                i <= fb@.len(),
                fb@ == self.bus@.video.framebuffer,
                out@.len() == i,
                forall|j: int|
                    0 <= j < i ==> #[trigger] out@[j] == shade_index_spec(
                        self.bus@.video.framebuffer[j],
                    ),
            decreases fb@.len() - i,
        {
            out.push(shade_index(fb[i]));
            i = i + 1;
        }
        out
    }

    /// Hands the serial bytes emitted so far to the embedder and empties
    /// the sink.
    pub fn take_serial(&mut self) -> (r: Vec<u8>)
        ensures
            r@ == old(self).bus@.serial.sink,
            final(self).bus@ == (BusAbs {
                serial: SerialAbs { sink: Seq::<u8>::empty(), ..old(self).bus@.serial },
                ..old(self).bus@
            }),
            final(self).cpu == old(self).cpu,
            old(self).wf() ==> final(self).wf(),
    {
        let r = self.bus.serial.take_sink();
        proof {
            assert(final(self).bus@ =~~= (BusAbs {
                serial: SerialAbs { sink: Seq::<u8>::empty(), ..old(self).bus@.serial },
                ..old(self).bus@
            }));
        }
        r
    }
}

} // verus!
