//! A delay driver based on SysTick.
//!
//! A delay is a plan for the system timer: how many full 2^24-tick periods to wait, and the
//! reload value of a last, shorter period.

use vstd::prelude::*;
use crate::peripheral::syst::{SystClkSource, spec_set_clock_source};
use crate::peripheral::SYST;

verus! {

/// System timer (SysTick) as a delay provider.
pub struct Delay {
    syst: SYST,
    frequency: u32,
}

/// How to wait a number of SysTick ticks.
#[derive(Debug, Clone, Copy, PartialEq, Eq, Structural)]
pub struct DelayPlan {
    /// Number of full periods of 2^24 ticks (reload value `0xffffff`) to wait, one wrap each.
    pub full_cycles: u64,
    /// Reload value of the last period, waited for one wrap; `None` when fewer than two ticks
    /// are left after the full periods.
    pub reload: Option<u32>,
}

/// How to wait a number of milliseconds: `chunks` delays of 4294967000 µs, then one of
/// `last_us` µs.
#[derive(Debug, Clone, Copy, PartialEq, Eq, Structural)]
pub struct DelayMsPlan {
    /// Number of delays of 4294967000 µs.
    pub chunks: u32,
    /// The microseconds of the last delay.
    pub last_us: u32,
}

/// Ticks of a clock of `frequency` Hz in `us` microseconds, rounded down.
pub open spec fn spec_ticks(us: u32, frequency: u32) -> int {
    us * frequency / 1_000_000
}

/// The plan that waits `ticks` ticks: full periods of 2^24 ticks, and a last period of the
/// remainder (reload value one less), skipped when the remainder is below two ticks.
pub open spec fn spec_delay_plan(ticks: int) -> DelayPlan {
    DelayPlan {
        full_cycles: (ticks / 0x100_0000) as u64,
        reload: if ticks % 0x100_0000 > 1 { Some((ticks % 0x100_0000 - 1) as u32) } else { None },
    }
}

/// The ticks that a plan waits: 2^24 per full period, and the reload value plus one for the
/// last period.
pub open spec fn planned_ticks(plan: DelayPlan) -> int {
    plan.full_cycles * 0x100_0000 + match plan.reload {
        Some(r) => r + 1,
        None => 0,
    }
}

/// A plan waits the ticks asked for, but for a remainder of one tick, which it drops.
pub proof fn lemma_delay_plan_ticks(ticks: int)
    requires
        0 <= ticks <= u64::MAX,
    ensures
        planned_ticks(spec_delay_plan(ticks)) == (if ticks % 0x100_0000 == 1 { ticks - 1 } else { ticks }),
{
    vstd::arithmetic::div_mod::lemma_fundamental_div_mod(ticks, 0x100_0000);
    vstd::arithmetic::div_mod::lemma_mod_pos_bound(ticks, 0x100_0000);
    vstd::arithmetic::div_mod::lemma_div_pos_is_pos(ticks, 0x100_0000);
    vstd::arithmetic::div_mod::lemma_div_is_ordered_by_denominator(ticks, 1, 0x100_0000);
}

/// A microsecond delay on a clock of `frequency` Hz waits `us * frequency / 1_000_000` ticks,
/// rounded down, whatever the frequency (a whole number of MHz or not), but for a remainder of one
/// tick after the full periods, which it drops.
pub proof fn lemma_delay_us_ticks(us: u32, frequency: u32)
    ensures
        spec_ticks(us, frequency) == us * frequency / 1_000_000,
        planned_ticks(spec_delay_plan(spec_ticks(us, frequency)))
            == (if (us * frequency / 1_000_000) % 0x100_0000 == 1 {
                us * frequency / 1_000_000 - 1
            } else {
                us * frequency / 1_000_000
            }),
{
    vstd::arithmetic::mul::lemma_mul_upper_bound(us as int, u32::MAX as int, frequency as int, u32::MAX as int);
    vstd::arithmetic::mul::lemma_mul_nonnegative(us as int, frequency as int);
    vstd::arithmetic::div_mod::lemma_div_pos_is_pos(us * frequency, 1_000_000);
    vstd::arithmetic::div_mod::lemma_div_is_ordered_by_denominator(us * frequency, 1, 1_000_000);
    lemma_delay_plan_ticks(us * frequency / 1_000_000);
}

/// The milliseconds plan waits `ms` milliseconds in all.
pub proof fn lemma_delay_ms_total(ms: u32, plan: DelayMsPlan)
    requires
        plan.chunks * 4294967 + plan.last_us / 1000 == ms,
        plan.last_us % 1000 == 0,
    ensures
        plan.chunks * 4294967000 + plan.last_us == ms * 1000,
{
}

impl Delay {
    /// The frequency in Hz of the clock that this delay counts.
    pub closed spec fn spec_frequency(&self) -> u32 {
        self.frequency
    }

    /// The system timer that this delay holds.
    pub closed spec fn spec_syst(&self) -> SYST {
        self.syst
    }

    /// Configures the system timer (SysTick) as a delay provider, clocked by the core.
    ///
    /// `ahb_frequency` is a frequency of the AHB bus in Hz. The result holds the delay and the
    /// CSR value (from the current `csr`) that selects the core clock.
    pub fn new(syst: SYST, ahb_frequency: u32, csr: u32) -> (r: (Self, u32))
        ensures
            r.0.spec_frequency() == ahb_frequency,
            r.0.spec_syst() == syst,
            r.1 == spec_set_clock_source(csr, SystClkSource::Core),
    {
        Self::with_source(syst, ahb_frequency, SystClkSource::Core, csr)
    }

    /// Configures the system timer (SysTick) as a delay provider
    /// with a clock source.
    ///
    /// `frequency` is the frequency of your `clock_source` in Hz. The result holds the delay and
    /// the CSR value (from the current `csr`) that selects `clock_source`.
    pub fn with_source(syst: SYST, frequency: u32, clock_source: SystClkSource, csr: u32) -> (r: (Self, u32))
        ensures
            r.0.spec_frequency() == frequency,
            r.0.spec_syst() == syst,
            r.1 == spec_set_clock_source(csr, clock_source),
    {
        let csr = SYST::set_clock_source(csr, clock_source);
        (Delay { syst, frequency }, csr)
    }

    /// Releases the system timer (SysTick) resource.
    pub fn free(self) -> (r: SYST)
        ensures
            r == self.spec_syst(),
    {
        self.syst
    }

    /// The plan to delay using the Cortex-M systick for a certain duration, in µs.
    pub fn delay_us(&self, us: u32) -> (r: DelayPlan)
        ensures
            r == spec_delay_plan(spec_ticks(us, self.spec_frequency())),
            planned_ticks(r) == (if (us * self.spec_frequency() / 1_000_000) % 0x100_0000 == 1 {
                us * self.spec_frequency() / 1_000_000 - 1
            } else {
                us * self.spec_frequency() / 1_000_000
            }),
    {
        proof {
            lemma_delay_us_ticks(us, self.frequency);
            vstd::arithmetic::mul::lemma_mul_upper_bound(us as int, u32::MAX as int, self.frequency as int, u32::MAX as int);
        }
        let ticks = (us as u64) * (self.frequency as u64) / 1_000_000;

        let full_cycles = ticks / 0x100_0000;

        let ticks = (ticks % 0x100_0000) as u32;
        let reload = if ticks > 1 { Some(ticks - 1) } else { None };

        DelayPlan { full_cycles, reload }
    }

    /// The plan to delay using the Cortex-M systick for a certain duration, in ms.
    pub fn delay_ms(&self, ms: u32) -> (r: DelayMsPlan)
        ensures
            r.chunks * 4294967 + r.last_us / 1000 == ms,
            r.last_us % 1000 == 0,
            r.last_us <= 4294967000,
            r.chunks > 0 ==> r.last_us > 0,
    {
        let mut ms = ms;
        let ghost total = ms;
        let mut chunks: u32 = 0;
        // 4294967 is the highest u32 value which you can multiply by 1000 without overflow
        while ms > 4294967
            invariant
                chunks * 4294967 + ms == total,
                chunks > 0 ==> ms > 0,
            decreases ms,
        {
            ms = ms - 4294967;
            chunks = chunks + 1;
        }
        DelayMsPlan { chunks, last_us: ms * 1_000 }
    }

    /// The plan to delay for a certain duration, in ns: the nanoseconds rounded up to whole
    /// microseconds.
    pub fn delay_ns(&self, ns: u32) -> (r: DelayPlan)
        ensures
            r == spec_delay_plan(spec_ticks((ns / 1000 + (if ns % 1000 == 0 { 0int } else { 1 })) as u32, self.spec_frequency())),
    {
        let us = ns / 1000 + if ns % 1000 == 0 { 0 } else { 1 };
        self.delay_us(us)
    }
}

} // verus!
