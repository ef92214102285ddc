use vstd::prelude::*;
use crate::interrupts::Interrupt;

verus! {

/// The serial port. When SC holds 0x81 (transfer requested with internal
/// clock), eight cycles clock the byte in SB out to the sink, after which
/// SB reads 0xFF, SC drops its start bit, and a Serial interrupt is
/// raised. The sink is a byte buffer the embedder drains.
pub struct Serial {
    pub sb: u8,
    pub sc: u8,
    pub transfer_cycles: usize,
    pub sink: Vec<u8>,
}

/// The serial port as its mathematical value: registers, accumulated
/// transfer cycles, and the bytes emitted so far.
#[verifier::ext_equal]
pub ghost struct SerialAbs {
    pub sb: u8,
    pub sc: u8,
    pub transfer_cycles: int,
    pub sink: Seq<u8>,
}

impl View for Serial {
    type V = SerialAbs;

    open spec fn view(&self) -> SerialAbs {
        SerialAbs {
            sb: self.sb,
            sc: self.sc,
            transfer_cycles: self.transfer_cycles as int,
            sink: self.sink@,
        }
    }
}

/// The serial port after one step of `cycles` cycles.
pub open spec fn serial_step_spec(s: SerialAbs, cycles: int) -> SerialAbs {
    if s.sc == 0x81 {
        if s.transfer_cycles + cycles >= 8 {
            SerialAbs { sb: 0xFF, sc: 0x01, transfer_cycles: 0, sink: s.sink.push(s.sb) }
        } else {
            SerialAbs { transfer_cycles: s.transfer_cycles + cycles, ..s }
        }
    } else {
        s
    }
}

/// Whether one step of `cycles` cycles completes a transfer.
pub open spec fn serial_emits_spec(s: SerialAbs, cycles: int) -> bool {
    s.sc == 0x81 && s.transfer_cycles + cycles >= 8
}

/// The interrupts one serial step raises: one Serial request when a
/// transfer completes.
pub open spec fn serial_irqs_spec(s: SerialAbs, cycles: int) -> Seq<Interrupt> {
    if serial_emits_spec(s, cycles) {
        seq![Interrupt::Serial]
    } else {
        Seq::<Interrupt>::empty()
    }
}

impl Serial {
    /// Between steps, a pending transfer has clocked fewer than its eight
    /// cycles.
    pub open spec fn wf(self) -> bool {
        self.transfer_cycles < 8
    }

    pub fn new() -> (r: Serial)
        ensures
            r@ == (SerialAbs { sb: 0, sc: 0, transfer_cycles: 0, sink: Seq::<u8>::empty() }),
            r.wf(),
    {
        Serial { sb: 0, sc: 0, transfer_cycles: 0, sink: Vec::new() }
    }

    /// Advances a pending transfer by `cycles` cycles; on completion the
    /// byte in SB is appended to the sink and one Serial interrupt is
    /// returned.
    pub fn step(&mut self, cycles: usize) -> (r: Vec<Interrupt>)
        requires
            old(self).wf(),
            old(self).transfer_cycles + cycles <= usize::MAX,
        ensures
            final(self).wf(),
            final(self)@ == serial_step_spec(old(self)@, cycles as int),
            r@ =~= serial_irqs_spec(old(self)@, cycles as int),
            serial_emits_spec(old(self)@, cycles as int) ==> r@ =~= seq![Interrupt::Serial],
            !serial_emits_spec(old(self)@, cycles as int) ==> r@ =~= Seq::<Interrupt>::empty(),
    {
        let mut interrupts: Vec<Interrupt> = Vec::new();

        if self.sc == 0x81 {
            self.transfer_cycles = self.transfer_cycles + cycles;

            if self.transfer_cycles >= 8 {
                self.sink.push(self.sb);

                self.sb = 0xFF;
                self.sc = 0x01;
                self.transfer_cycles = 0;

                interrupts.push(Interrupt::Serial);
            }
        }

        proof {
            assert(final(self)@ =~= serial_step_spec(old(self)@, cycles as int));
        }

        interrupts
    }

    /// Hands the emitted bytes to the embedder and empties the sink.
    pub fn take_sink(&mut self) -> (r: Vec<u8>)
        ensures
            r@ == old(self)@.sink,
            final(self)@ == (SerialAbs { sink: Seq::<u8>::empty(), ..old(self)@ }),
            old(self).wf() ==> final(self).wf(),
    {
        let mut out: Vec<u8> = Vec::new();
        std::mem::swap(&mut out, &mut self.sink);
        proof {
            assert(final(self)@ =~= (SerialAbs { sink: Seq::<u8>::empty(), ..old(self)@ }));
        }
        out
    }
}

/// The serial port after a sequence of steps, one per entry of `quanta`.
pub open spec fn serial_run_spec(s: SerialAbs, quanta: Seq<int>) -> SerialAbs
    decreases quanta.len(),
{
    if quanta.len() == 0 {
        s
    } else {
        serial_run_spec(serial_step_spec(s, quanta[0]), quanta.skip(1))
    }
}

/// Once SC no longer holds 0x81, stepping changes nothing and emits
/// nothing.
proof fn lemma_serial_idle_run(s: SerialAbs, quanta: Seq<int>)
    requires
        s.sc != 0x81,
    ensures
        serial_run_spec(s, quanta) == s,
    decreases quanta.len(),
{
    if quanta.len() > 0 {
        lemma_serial_idle_run(s, quanta.skip(1));
    }
}

/// A transfer begun with SC = 0x81 emits the byte in SB to the sink exactly
/// once over any sequence of steps whose cycles total at least 8 (and
/// nothing before that total is reached), and only after at least 8
/// simulated cycles.
pub proof fn lemma_serial_transfer_once(s: SerialAbs, quanta: Seq<int>)
    requires
        s.sc == 0x81,
        s.transfer_cycles == 0,
        forall|i: int| 0 <= i < quanta.len() ==> 0 <= #[trigger] quanta[i],
    ensures
        sum_seq(quanta) >= 8 ==> serial_run_spec(s, quanta).sink =~= s.sink.push(s.sb),
        sum_seq(quanta) < 8 ==> serial_run_spec(s, quanta).sink =~= s.sink,
    decreases quanta.len(),
{
    if quanta.len() == 0 {
    } else {
        let s1 = serial_step_spec(s, quanta[0]);
        if s.transfer_cycles + quanta[0] >= 8 {
            lemma_serial_idle_run(s1, quanta.skip(1));
            lemma_sum_nonneg(quanta.skip(1));
            assert(sum_seq(quanta) == quanta[0] + sum_seq(quanta.skip(1)));
        } else {
            lemma_serial_partial_transfer(s1, quanta.skip(1));
            assert(sum_seq(quanta) == quanta[0] + sum_seq(quanta.skip(1)));
        }
    }
}

/// The same, from any point part-way into the transfer.
proof fn lemma_serial_partial_transfer(s: SerialAbs, quanta: Seq<int>)
    requires
        s.sc == 0x81,
        0 <= s.transfer_cycles < 8,
        forall|i: int| 0 <= i < quanta.len() ==> 0 <= #[trigger] quanta[i],
    ensures
        s.transfer_cycles + sum_seq(quanta) >= 8 ==> serial_run_spec(s, quanta).sink =~= s.sink.push(
            s.sb,
        ),
        s.transfer_cycles + sum_seq(quanta) < 8 ==> serial_run_spec(s, quanta).sink =~= s.sink,
    decreases quanta.len(),
{
    if quanta.len() == 0 {
    } else {
        let s1 = serial_step_spec(s, quanta[0]);
        if s.transfer_cycles + quanta[0] >= 8 {
            lemma_serial_idle_run(s1, quanta.skip(1));
            lemma_sum_nonneg(quanta.skip(1));
            assert(sum_seq(quanta) == quanta[0] + sum_seq(quanta.skip(1)));
        } else {
            lemma_serial_partial_transfer(s1, quanta.skip(1));
            assert(sum_seq(quanta) == quanta[0] + sum_seq(quanta.skip(1)));
        }
    }
}

/// The sum of a sequence of cycle counts.
pub open spec fn sum_seq(quanta: Seq<int>) -> int
    decreases quanta.len(),
{
    if quanta.len() == 0 {
        0
    } else {
        quanta[0] + sum_seq(quanta.skip(1))
    }
}

proof fn lemma_sum_nonneg(quanta: Seq<int>)
    requires
        forall|i: int| 0 <= i < quanta.len() ==> 0 <= #[trigger] quanta[i],
    ensures
        sum_seq(quanta) >= 0,
    decreases quanta.len(),
{
    if quanta.len() > 0 {
        lemma_sum_nonneg(quanta.skip(1));
    }
}

} // verus!
