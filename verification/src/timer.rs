use vstd::prelude::*;
use crate::interrupts::Interrupt;

verus! {

/// The divider and the programmable timer: DIV ticks every 256 cycles;
/// TIMA, when TAC bit 2 is set, ticks at the period selected by TAC bits
/// 1..0 and reloads from TMA on overflow, raising a Timer interrupt per
/// overflow.
#[derive(Clone, Copy, PartialEq, Eq, Structural, Debug)]
pub struct Timer {
    pub div: u8,
    pub tima: u8,
    pub tma: u8,
    pub tac: u8,
    pub divider_cycles: usize,
    pub timer_cycles: usize,
}

/// The TIMA period in cycles selected by TAC bits 1..0:
/// 00 -> 1024, 01 -> 16, 10 -> 64, 11 -> 256.
pub open spec fn timer_period_spec(tac: u8) -> usize {
    if tac % 4 == 0 {
        1024
    } else if tac % 4 == 1 {
        16
    } else if tac % 4 == 2 {
        64
    } else {
        256
    }
}

/// TAC bit 2: whether TIMA advances at all.
pub open spec fn timer_enabled_spec(tac: u8) -> bool {
    tac / 4 % 2 == 1
}

/// The value of TIMA after `n` wrap-increments: an increment at 0xFF
/// reloads from TMA instead.
pub open spec fn tima_after_spec(tima: u8, tma: u8, n: nat) -> u8
    decreases n,
{
    if n == 0 {
        tima
    } else {
        tima_after_spec(
            if tima == 255 {
                tma
            } else {
                (tima + 1) as u8
            },
            tma,
            (n - 1) as nat,
        )
    }
}

/// How many of `n` wrap-increments of TIMA overflow.
pub open spec fn tima_overflows_spec(tima: u8, tma: u8, n: nat) -> nat
    decreases n,
{
    if n == 0 {
        0
    } else {
        (if tima == 255 {
            1nat
        } else {
            0nat
        }) + tima_overflows_spec(
            if tima == 255 {
                tma
            } else {
                (tima + 1) as u8
            },
            tma,
            (n - 1) as nat,
        )
    }
}

/// The last wrap-increment of a run of `n + 1` is applied to the value the
/// first `n` produce.
proof fn lemma_tima_snoc(tima: u8, tma: u8, n: nat)
    ensures
        tima_after_spec(tima, tma, n + 1) == (if tima_after_spec(tima, tma, n) == 255 {
            tma
        } else {
            (tima_after_spec(tima, tma, n) + 1) as u8
        }),
        tima_overflows_spec(tima, tma, n + 1) == tima_overflows_spec(tima, tma, n) + (
        if tima_after_spec(tima, tma, n) == 255 {
            1nat
        } else {
            0nat
        }),
    decreases n,
{
    let step = if tima == 255 {
        tma
    } else {
        (tima + 1) as u8
    };
    assert(tima_after_spec(tima, tma, n + 1) == tima_after_spec(step, tma, n));
    assert(tima_overflows_spec(tima, tma, n + 1) == tima_overflows_spec(step, tma, n) + (
    if tima == 255 {
        1nat
    } else {
        0nat
    }));
    if n > 0 {
        lemma_tima_snoc(step, tma, (n - 1) as nat);
        assert(tima_after_spec(tima, tma, n) == tima_after_spec(step, tma, (n - 1) as nat));
        assert(tima_overflows_spec(tima, tma, n) == tima_overflows_spec(step, tma, (n - 1) as nat)
            + (if tima == 255 {
            1nat
        } else {
            0nat
        }));
    }
}

/// The timer after one step of `cycles` cycles: DIV gains one
/// wrap-increment per 256 accumulated cycles; with TAC bit 2 set, TIMA
/// gains one wrap-increment per period of accumulated cycles, reloading
/// from TMA on overflow.
pub open spec fn timer_step_spec(t: Timer, cycles: usize) -> Timer {
    let dtotal = t.divider_cycles + cycles;
    let base = Timer {
        div: ((t.div + dtotal / 256) % 256) as u8,
        divider_cycles: (dtotal % 256) as usize,
        ..t
    };
    if timer_enabled_spec(t.tac) {
        let total = t.timer_cycles + cycles;
        let period = timer_period_spec(t.tac);
        let n = (total / period as int) as nat;
        Timer {
            tima: tima_after_spec(t.tima, t.tma, n),
            timer_cycles: (total % period as int) as usize,
            ..base
        }
    } else {
        base
    }
}

/// The interrupts one timer step raises: one Timer request per TIMA
/// overflow.
pub open spec fn timer_irqs_spec(t: Timer, cycles: usize) -> Seq<Interrupt> {
    if timer_enabled_spec(t.tac) {
        Seq::new(
            tima_overflows_spec(
                t.tima,
                t.tma,
                ((t.timer_cycles + cycles) / timer_period_spec(t.tac) as int) as nat,
            ),
            |i: int| Interrupt::Timer,
        )
    } else {
        Seq::<Interrupt>::empty()
    }
}

impl Timer {
    /// The accumulators never hold a full period's worth of cycles between
    /// steps.
    pub open spec fn wf(self) -> bool {
        self.divider_cycles < 256 && self.timer_cycles < 1024
    }

    pub fn new() -> (r: Timer)
        ensures
            r == (Timer { div: 0, tima: 0, tma: 0, tac: 0, divider_cycles: 0, timer_cycles: 0 }),
            r.wf(),
    {
        Timer { div: 0, tima: 0, tma: 0, tac: 0, divider_cycles: 0, timer_cycles: 0 }
    }

    /// Advances the divider and the timer by `cycles` cycles.  DIV gains
    /// one wrap-increment per 256 accumulated cycles.  If TAC bit 2 is set,
    /// TIMA gains one wrap-increment per period of accumulated cycles, and
    /// the result holds one Timer interrupt per TIMA overflow; otherwise
    /// TIMA and its accumulator are untouched and no interrupt is raised.
    pub fn step(&mut self, cycles: usize) -> (r: Vec<Interrupt>)
        requires
            old(self).wf(),
            old(self).divider_cycles + cycles <= usize::MAX,
            old(self).timer_cycles + cycles <= usize::MAX,
        ensures
            final(self).wf(),
            *final(self) == timer_step_spec(*old(self), cycles),
            r@ =~= timer_irqs_spec(*old(self), cycles),
            final(self).tma == old(self).tma,
            final(self).tac == old(self).tac,
            final(self).divider_cycles == (old(self).divider_cycles + cycles) % 256,
            final(self).div == (old(self).div + (old(self).divider_cycles + cycles) / 256) % 256,
            timer_enabled_spec(old(self).tac) ==> {
                let total = old(self).timer_cycles + cycles;
                let period = timer_period_spec(old(self).tac);
                let n = (total / period as int) as nat;
                &&& final(self).timer_cycles == total % period as int
                &&& final(self).tima == tima_after_spec(old(self).tima, old(self).tma, n)
                &&& r@.len() == tima_overflows_spec(old(self).tima, old(self).tma, n)
                &&& forall|i: int| 0 <= i < r@.len() ==> r@[i] == Interrupt::Timer
            },
            !timer_enabled_spec(old(self).tac) ==> {
                &&& final(self).timer_cycles == old(self).timer_cycles
                &&& final(self).tima == old(self).tima
                &&& r@.len() == 0
            },
    {
        let mut interrupts: Vec<Interrupt> = Vec::new();

        self.step_divider(cycles);

        if self.tac / 4 % 2 == 1 {
            let overflows = self.step_timer(cycles);
            let mut k: usize = 0;
            while k < overflows
                invariant
                    k <= overflows,
                    interrupts@.len() == k,
                    forall|i: int| 0 <= i < k ==> interrupts@[i] == Interrupt::Timer,
                decreases overflows - k,
            {
                interrupts.push(Interrupt::Timer);
                k = k + 1;
            }
        }

        interrupts
    }

    fn step_divider(&mut self, cycles: usize)
        requires
            old(self).divider_cycles + cycles <= usize::MAX,
        ensures
            *final(self) == (Timer {
                div: ((old(self).div + (old(self).divider_cycles + cycles) / 256) % 256) as u8,
                divider_cycles: ((old(self).divider_cycles + cycles) % 256) as usize,
                ..*old(self)
            }),
    {
        self.divider_cycles = self.divider_cycles + cycles;

        while self.divider_cycles >= 256
            invariant
                *self == (Timer {
                    div: ((old(self).div + (old(self).divider_cycles + cycles - self.divider_cycles)
                        / 256) % 256) as u8,
                    divider_cycles: self.divider_cycles,
                    ..*old(self)
                }),
                self.divider_cycles % 256 == (old(self).divider_cycles + cycles) % 256,
                self.divider_cycles <= old(self).divider_cycles + cycles,
            decreases self.divider_cycles,
        {
            self.div = if self.div == 255 {
                0
            } else {
                self.div + 1
            };
            self.divider_cycles = self.divider_cycles - 256;
        }
    }

    /// The number of TIMA wrap-increments that overflowed, so that the
    /// caller can raise one interrupt per overflow.
    fn step_timer(&mut self, cycles: usize) -> (overflows: usize)
        requires
            old(self).timer_cycles + cycles <= usize::MAX,
        ensures
            ({
                let total = old(self).timer_cycles + cycles;
                let period = timer_period_spec(old(self).tac);
                let n = (total / period as int) as nat;
                &&& *final(self) == (Timer {
                    tima: tima_after_spec(old(self).tima, old(self).tma, n),
                    timer_cycles: (total % period as int) as usize,
                    ..*old(self)
                })
                &&& overflows == tima_overflows_spec(old(self).tima, old(self).tma, n)
            }),
    {
        let mut overflows: usize = 0;
        let ghost t0 = self.tima;
        let ghost total = old(self).timer_cycles + cycles;
        let ghost mut k: nat = 0;

        self.timer_cycles = self.timer_cycles + cycles;

        while self.timer_cycles >= self.period()
            invariant
                self.tac == old(self).tac,
                self.tma == old(self).tma,
                self.div == old(self).div,
                self.divider_cycles == old(self).divider_cycles,
                self.tima == tima_after_spec(t0, self.tma, k),
                overflows == tima_overflows_spec(t0, self.tma, k),
                overflows <= k,
                self.timer_cycles == total - k * timer_period_spec(self.tac),
                k * timer_period_spec(self.tac) <= total,
                total == old(self).timer_cycles + cycles,
                total <= usize::MAX,
            decreases self.timer_cycles,
        {
            proof {
                lemma_tima_snoc(t0, self.tma, k);
                assert(k * 16 <= k * timer_period_spec(self.tac)) by (nonlinear_arith)
                    requires
                        16 <= timer_period_spec(self.tac),
                        0 <= k,
                ;
                assert(k * 16 <= total);
                assert(overflows < usize::MAX);
                assert((k + 1) * timer_period_spec(self.tac) == k * timer_period_spec(self.tac)
                    + timer_period_spec(self.tac)) by (nonlinear_arith);
            }
            if self.tima == 255 {
                self.tima = self.tma;
                overflows = overflows + 1;
            } else {
                self.tima = self.tima + 1;
            }
            let p = self.period();
            self.timer_cycles = self.timer_cycles - p;
            proof {
                k = k + 1;
            }
        }

        proof {
            let period = timer_period_spec(self.tac) as int;
            assert(self.timer_cycles == total - k * period);
            assert(self.timer_cycles < period);
            assert(total / period == k) by {
                vstd::arithmetic::div_mod::lemma_fundamental_div_mod_converse(
                    total as int,
                    period,
                    k as int,
                    self.timer_cycles as int,
                );
            }
            assert(total % period == self.timer_cycles) by {
                vstd::arithmetic::div_mod::lemma_fundamental_div_mod_converse(
                    total as int,
                    period,
                    k as int,
                    self.timer_cycles as int,
                );
            }
        }

        overflows
    }

    /// The currently selected TIMA period in cycles.
    pub fn period(&self) -> (r: usize)
        ensures
            r == timer_period_spec(self.tac),
    {
        let sel = self.tac % 4;
        if sel == 0 {
            1024
        } else if sel == 1 {
            16
        } else if sel == 2 {
            64
        } else {
            256
        }
    }
}

} // verus!
