//! Instrumentation Trace Macrocell
//!
//! The documentation in this module contains references to ARM specifications, namely:
//! - coresight: *ARM CoreSight Architecture Specification*, Version 3.0.
//!
//! *NOTE* Not available on Armv6-M and Armv8-M Baseline.

use vstd::prelude::*;
use crate::peripheral::layout::{Slot, spec_offset, register_address};
use crate::bits::{bit_is_set, field, with_field, fits_at, set_field, same_outside};
use crate::peripheral::ITM;

verus! {

/// Stimulus Port
pub struct Stim {
    _marker: (),
}

impl Stim {
    /// Returns `true` if the stimulus port, which reads as `value`, is ready to accept more data
    /// (ARMv7-M: bit 0; see `is_fifo_ready_armv8m` for ARMv8-M)
    pub fn is_fifo_ready(value: u32) -> (r: bool)
        ensures
            r == bit_is_set(value, 0),
    {
        proof {
            crate::bits::lemma_single_bit(value, 0);
            crate::bits::lemma_fits_at_facts();
        }
        value & 0b1 == 1
    }

    /// Returns `true` if the stimulus port, which reads as `value`, accepts a write on ARMv8-M:
    /// it is either ready (bit 0) or disabled (bit 1, which ARMv8-M adds).
    pub fn is_fifo_ready_armv8m(value: u32) -> (r: bool)
        ensures
            r == (bit_is_set(value, 0) || bit_is_set(value, 1)),
    {
        proof {
            assert((value & 0b11 != 0) == (value & (1u32 << 0u32) != 0 || value & (1u32 << 1u32) != 0))
                by (bit_vector);
        }
        value & 0b11 != 0
    }
}

/// The possible local timestamp options.
#[derive(Debug, Eq, PartialEq, Copy, Clone, Structural)]
pub enum LocalTimestampOptions {
    /// Disable local timestamps.
    Disabled,
    /// Enable local timestamps and use no prescaling.
    Enabled,
    /// Enable local timestamps and set the prescaler to divide the
    /// reference clock by 4.
    EnabledDiv4,
    /// Enable local timestamps and set the prescaler to divide the
    /// reference clock by 16.
    EnabledDiv16,
    /// Enable local timestamps and set the prescaler to divide the
    /// reference clock by 64.
    EnabledDiv64,
}

impl LocalTimestampOptions {
    /// Converts an integer value to an enabled [LocalTimestampOptions]
    /// variant. Accepted values are: 1, 4, 16, 64. Any other value
    /// yields `Err(())`.
    pub fn try_from(value: u8) -> (r: Result<Self, ()>)
        ensures
            r == (if value == 1 {
                Ok(LocalTimestampOptions::Enabled)
            } else if value == 4 {
                Ok(LocalTimestampOptions::EnabledDiv4)
            } else if value == 16 {
                Ok(LocalTimestampOptions::EnabledDiv16)
            } else if value == 64 {
                Ok(LocalTimestampOptions::EnabledDiv64)
            } else {
                Err(())
            }),
    {
        match value {
            1 => Ok(Self::Enabled),
            4 => Ok(Self::EnabledDiv4),
            16 => Ok(Self::EnabledDiv16),
            64 => Ok(Self::EnabledDiv64),
            _ => Err(()),
        }
    }
}

/// The possible global timestamp options.
#[derive(Debug, Eq, PartialEq, Copy, Clone, Structural)]
pub enum GlobalTimestampOptions {
    /// Disable global timestamps.
    Disabled,
    /// Generate a global timestamp approximately every 128 cycles.
    Every128Cycles,
    /// Generate a global timestamp approximately every 8921 cycles.
    Every8192Cycles,
    /// Generate a global timestamp after every packet, if the output FIFO is empty.
    EveryPacket,
}

/// The possible clock sources for timestamp counters.
#[derive(Debug, Eq, PartialEq, Copy, Clone, Structural)]
pub enum TimestampClkSrc {
    /// Clock timestamp counters using the system processor clock.
    SystemClock,
    /// Clock timestamp counters using the asynchronous clock from the
    /// TPIU interface.
    ///
    /// NOTE: The timestamp counter is held in reset while the output
    /// line is idle.
    AsyncTPIU,
}

/// Available settings for the ITM peripheral.
#[derive(Debug, Eq, PartialEq, Copy, Clone, Structural)]
pub struct ITMSettings {
    /// Whether to enable ITM.
    pub enable: bool,
    /// Whether DWT packets should be forwarded to ITM.
    pub forward_dwt: bool,
    /// The local timestamp options that should be applied.
    pub local_timestamps: LocalTimestampOptions,
    /// The global timestamp options that should be applied.
    pub global_timestamps: GlobalTimestampOptions,
    /// The trace bus ID to use when multi-trace sources are in use.
    /// `None` specifies that only a single trace source is in use and
    /// has the same effect as `Some(0)`.
    pub bus_id: Option<u8>,
    /// The clock that should increase timestamp counters.
    pub timestamp_clk_src: TimestampClkSrc,
}

/// Possible errors on [ITM::configure].
#[derive(Debug, Eq, PartialEq, Copy, Clone, Structural)]
pub enum ITMConfigurationError {
    /// Global timestamp generation is not supported on this target.
    /// Request [`GlobalTimestampOptions::Disabled`] instead.
    ///
    /// ITM_TCR register remains unchanged on this error.
    GTS,
    /// The requested timestamp clock source is not supported on this target.
    ///
    /// *NOTE*: `GTSFREQ` in ITM_TCR field has
    /// potentially been changed on this error.
    TimestampClkSrc,
    /// The target does not implement the local timestamp prescaler.
    /// Request [`LocalTimestampOptions::Disabled`] or
    /// [`LocalTimestampOptions::Disabled`] instead.
    ///
    /// *NOTE*: `GTSFREQ` and `SWOENA` in ITM_TCR fields
    /// have potentially changed on this error.
    TSPrescale,
}

/// The value written to LAR to remove the software lock.
pub const ITM_LAR_KEY: u32 = 0xC5AC_CE55;

/// The GTSFREQ field value for a global timestamp option.
pub open spec fn gtsfreq_bits(g: GlobalTimestampOptions) -> u32 {
    match g {
        GlobalTimestampOptions::Disabled => 0b00,
        GlobalTimestampOptions::Every128Cycles => 0b01,
        GlobalTimestampOptions::Every8192Cycles => 0b10,
        GlobalTimestampOptions::EveryPacket => 0b11,
    }
}

/// The TSPrescale field value for a local timestamp option: no prescaling, or divide by 4,
/// 16 or 64.
pub open spec fn tsprescale_bits(l: LocalTimestampOptions) -> u32 {
    match l {
        LocalTimestampOptions::Disabled => 0b00,
        LocalTimestampOptions::Enabled => 0b00,
        LocalTimestampOptions::EnabledDiv4 => 0b01,
        LocalTimestampOptions::EnabledDiv16 => 0b10,
        LocalTimestampOptions::EnabledDiv64 => 0b11,
    }
}

/// The SWOENA bit value for a timestamp clock source.
pub open spec fn swoena_bit(c: TimestampClkSrc) -> u32 {
    match c {
        TimestampClkSrc::SystemClock => 0,
        TimestampClkSrc::AsyncTPIU => 1,
    }
}

/// The TRACEBUSID field value for a bus id.
pub open spec fn trace_bus_id(bus_id: Option<u8>) -> u32 {
    match bus_id {
        Some(id) => id as u32,
        None => 0,
    }
}

/// TCR with ITMENA, TSENA, TXENA and TRACEBUSID set as `settings` asks.
pub open spec fn spec_apply(tcr: u32, settings: ITMSettings) -> u32 {
    let t1 = with_field(tcr, 0, 1, if settings.enable { 1 } else { 0 });
    let t2 = with_field(t1, 1, 1, if settings.local_timestamps != LocalTimestampOptions::Disabled { 1 } else { 0 });
    let t3 = with_field(t2, 3, 1, if settings.forward_dwt { 1 } else { 0 });
    with_field(t3, 16, 0x7F, trace_bus_id(settings.bus_id))
}

/// The steps of [ITM::configure].
#[derive(Debug, Eq, PartialEq, Copy, Clone, Structural)]
pub enum ConfigureStep {
    /// Remove the software lock if it is in place (reads LSR).
    Unlock,
    /// Disable the ITM before altering its fields (reads TCR).
    DisableItm,
    /// Write the global timestamp frequency (reads TCR). Each step from here to
    /// `CheckTsprescale` holds the TCR value read when the ITM was disabled.
    SetGtsfreq(u32),
    /// Check that the global timestamp frequency was kept (reads TCR).
    CheckGtsfreq(u32),
    /// Write the timestamp clock source (reads TCR).
    SetSwoena(u32),
    /// Check that the timestamp clock source was kept (reads TCR).
    CheckSwoena(u32),
    /// Write the local timestamp prescaler (reads TCR).
    SetTsprescale(u32),
    /// Check that the local timestamp prescaler was kept (reads TCR).
    CheckTsprescale(u32),
    /// Write the enables and the trace bus id (reads TCR).
    Apply,
    /// Put the software lock back if there is one (reads LSR).
    Lock,
}

/// What to do at a step of [ITM::configure].
#[derive(Debug, Eq, PartialEq, Copy, Clone, Structural)]
pub enum ConfigureAction {
    /// Nothing to do at this step.
    Continue,
    /// Write `ITM_LAR_KEY` to LAR, then wait until LSR no longer reports the ITM locked.
    Unlock,
    /// Write TCR.
    WriteTcr(u32),
    /// Write TCR, then wait while TCR reports the ITM busy.
    WriteTcrAndWaitIdle(u32),
    /// Write 0 to LAR (puts the software lock back); the configuration succeeded.
    LockAndFinish,
    /// The configuration succeeded.
    Succeed,
    /// Write the value back to TCR (the TCR read when the ITM was disabled, but for the fields
    /// that the error names as changed, see `restored_tcr`); the configuration failed with this
    /// error.
    Fail(ITMConfigurationError, u32),
}

/// The transition of [ITM::configure] at `step`, where `reg` is the register that the step
/// reads (LSR or TCR): the next step (`None` when the configuration is over) and the action.
pub open spec fn spec_configure(settings: ITMSettings, step: ConfigureStep, reg: u32) -> (Option<ConfigureStep>, ConfigureAction) {
    match step {
        ConfigureStep::Unlock => (
            Some(ConfigureStep::DisableItm),
            if bit_is_set(reg, 0) && bit_is_set(reg, 1) { ConfigureAction::Unlock } else { ConfigureAction::Continue },
        ),
        ConfigureStep::DisableItm => (
            Some(ConfigureStep::SetGtsfreq(reg)),
            ConfigureAction::WriteTcrAndWaitIdle(with_field(reg, 0, 1, 0)),
        ),
        ConfigureStep::SetGtsfreq(saved) => (
            Some(ConfigureStep::CheckGtsfreq(saved)),
            ConfigureAction::WriteTcr(with_field(reg, 10, 0x3, gtsfreq_bits(settings.global_timestamps))),
        ),
        ConfigureStep::CheckGtsfreq(saved) => if settings.global_timestamps != GlobalTimestampOptions::Disabled
            && field(reg, 10, 0x3) == 0 {
            (None, ConfigureAction::Fail(ITMConfigurationError::GTS, saved))
        } else {
            (Some(ConfigureStep::SetSwoena(saved)), ConfigureAction::Continue)
        },
        ConfigureStep::SetSwoena(saved) => (
            Some(ConfigureStep::CheckSwoena(saved)),
            ConfigureAction::WriteTcr(with_field(reg, 4, 1, swoena_bit(settings.timestamp_clk_src))),
        ),
        ConfigureStep::CheckSwoena(saved) => if field(reg, 4, 1) != swoena_bit(settings.timestamp_clk_src) {
            (None, ConfigureAction::Fail(ITMConfigurationError::TimestampClkSrc, restored_tcr(ITMConfigurationError::TimestampClkSrc, saved, reg)))
        } else {
            (Some(ConfigureStep::SetTsprescale(saved)), ConfigureAction::Continue)
        },
        ConfigureStep::SetTsprescale(saved) => (
            Some(ConfigureStep::CheckTsprescale(saved)),
            ConfigureAction::WriteTcr(with_field(reg, 8, 0x3, tsprescale_bits(settings.local_timestamps))),
        ),
        ConfigureStep::CheckTsprescale(saved) => if settings.local_timestamps != LocalTimestampOptions::Disabled
            && settings.local_timestamps != LocalTimestampOptions::Enabled && field(reg, 8, 0x3) == 0 {
            (None, ConfigureAction::Fail(ITMConfigurationError::TSPrescale, restored_tcr(ITMConfigurationError::TSPrescale, saved, reg)))
        } else {
            (Some(ConfigureStep::Apply), ConfigureAction::Continue)
        },
        ConfigureStep::Apply => (Some(ConfigureStep::Lock), ConfigureAction::WriteTcr(spec_apply(reg, settings))),
        ConfigureStep::Lock => (
            None,
            if bit_is_set(reg, 0) { ConfigureAction::LockAndFinish } else { ConfigureAction::Succeed },
        ),
    }
}

/// The TCR value that a step holds: the one read when the ITM was disabled.
pub open spec fn saved_tcr(step: ConfigureStep) -> Option<u32> {
    match step {
        ConfigureStep::SetGtsfreq(saved) => Some(saved),
        ConfigureStep::CheckGtsfreq(saved) => Some(saved),
        ConfigureStep::SetSwoena(saved) => Some(saved),
        ConfigureStep::CheckSwoena(saved) => Some(saved),
        ConfigureStep::SetTsprescale(saved) => Some(saved),
        ConfigureStep::CheckTsprescale(saved) => Some(saved),
        _ => None,
    }
}

/// The TCR that a failed configuration writes back: the TCR read when the ITM was disabled
/// (`saved`), but for the fields that the error names as changed, which keep what `reg` (the TCR
/// the failing check read) holds: none for `GTS`, GTSFREQ for `TimestampClkSrc`, GTSFREQ and
/// SWOENA for `TSPrescale`.
pub open spec fn restored_tcr(error: ITMConfigurationError, saved: u32, reg: u32) -> u32 {
    match error {
        ITMConfigurationError::GTS => saved,
        ITMConfigurationError::TimestampClkSrc => with_field(saved, 10, 0x3, field(reg, 10, 0x3)),
        ITMConfigurationError::TSPrescale => with_field(
            with_field(saved, 10, 0x3, field(reg, 10, 0x3)),
            4,
            1,
            field(reg, 4, 1),
        ),
    }
}

/// The TCR bits that an error leaves changed: none for `GTS`, GTSFREQ for `TimestampClkSrc`,
/// GTSFREQ and SWOENA for `TSPrescale`.
pub open spec fn changed_on_error(error: ITMConfigurationError) -> u32 {
    match error {
        ITMConfigurationError::GTS => 0,
        ITMConfigurationError::TimestampClkSrc => 0x3u32 << 10u32,
        ITMConfigurationError::TSPrescale => (0x3u32 << 10u32) | (0x1u32 << 4u32),
    }
}

/// A configuration that fails leaves TCR as it was, but for the fields that the error names:
/// the step that disables the ITM keeps the TCR it read, every later step passes it on whatever
/// it reads, and a failure writes it back with only those fields as the failing check read them.
/// The steps before disabling the ITM write no TCR.
pub proof fn lemma_configure_failure_restores_tcr(settings: ITMSettings, step: ConfigureStep, reg: u32)
    ensures
        step == ConfigureStep::DisableItm ==> spec_configure(settings, step, reg).0 == Some(ConfigureStep::SetGtsfreq(reg)),
        step == ConfigureStep::Unlock ==> written_tcr(spec_configure(settings, step, reg).1) == 0
            && spec_configure(settings, step, reg).0 == Some(ConfigureStep::DisableItm),
        spec_configure(settings, step, reg).1 matches ConfigureAction::Fail(e, v)
            ==> saved_tcr(step) is Some && v == restored_tcr(e, saved_tcr(step)->0, reg)
                && same_outside(v, saved_tcr(step)->0, changed_on_error(e))
                && (e == ITMConfigurationError::GTS ==> v == saved_tcr(step)->0),
        saved_tcr(step) is Some ==> match spec_configure(settings, step, reg).0 {
            Some(next) => saved_tcr(next) == saved_tcr(step) || next == ConfigureStep::Apply,
            None => spec_configure(settings, step, reg).1 is Fail,
        },
{
    crate::bits::lemma_fits_at_facts();
    if let Some(saved) = saved_tcr(step) {
        let g = field(reg, 10, 0x3);
        let c = field(reg, 4, 1);
        crate::bits::lemma_with_field(saved, 10, 0x3, g);
        let s1 = with_field(saved, 10, 0x3, g);
        crate::bits::lemma_with_field(s1, 4, 1, c);
        let s2 = with_field(s1, 4, 1, c);
        assert(same_outside(s2, saved, (0x3u32 << 10u32) | (0x1u32 << 4u32))) by {
            assert(s2 & !(0x1u32 << 4u32) == s1 & !(0x1u32 << 4u32));
            assert(s1 & !(0x3u32 << 10u32) == saved & !(0x3u32 << 10u32));
            assert(s2 & !((0x3u32 << 10u32) | (0x1u32 << 4u32)) == saved & !((0x3u32 << 10u32) | (0x1u32 << 4u32)))
                by (bit_vector)
                requires
                    s2 & !(0x1u32 << 4u32) == s1 & !(0x1u32 << 4u32),
                    s1 & !(0x3u32 << 10u32) == saved & !(0x3u32 << 10u32),
            ;
        }
    }
}

/// The TCR value that an action writes (0 for an action that writes no TCR).
pub open spec fn written_tcr(action: ConfigureAction) -> u32 {
    match action {
        ConfigureAction::WriteTcr(v) => v,
        ConfigureAction::WriteTcrAndWaitIdle(v) => v,
        _ => 0,
    }
}

/// The TCR fields that `configure` writes do not overlap.
proof fn lemma_tcr_fields_disjoint()
    ensures
        (0x3u32 << 10u32) & (0x1u32 << 4u32) == 0,
        (0x3u32 << 10u32) & (0x3u32 << 8u32) == 0,
        (0x3u32 << 10u32) & (0x1u32 << 0u32) == 0,
        (0x3u32 << 10u32) & (0x1u32 << 1u32) == 0,
        (0x3u32 << 10u32) & (0x1u32 << 3u32) == 0,
        (0x3u32 << 10u32) & (0x7Fu32 << 16u32) == 0,
        (0x1u32 << 4u32) & (0x3u32 << 8u32) == 0,
        (0x1u32 << 4u32) & (0x1u32 << 0u32) == 0,
        (0x1u32 << 4u32) & (0x1u32 << 1u32) == 0,
        (0x1u32 << 4u32) & (0x1u32 << 3u32) == 0,
        (0x1u32 << 4u32) & (0x7Fu32 << 16u32) == 0,
        (0x3u32 << 8u32) & (0x1u32 << 0u32) == 0,
        (0x3u32 << 8u32) & (0x1u32 << 1u32) == 0,
        (0x3u32 << 8u32) & (0x1u32 << 3u32) == 0,
        (0x3u32 << 8u32) & (0x7Fu32 << 16u32) == 0,
        (0x1u32 << 0u32) & (0x1u32 << 1u32) == 0,
        (0x1u32 << 0u32) & (0x1u32 << 3u32) == 0,
        (0x1u32 << 0u32) & (0x7Fu32 << 16u32) == 0,
        (0x1u32 << 1u32) & (0x1u32 << 3u32) == 0,
        (0x1u32 << 1u32) & (0x7Fu32 << 16u32) == 0,
        (0x1u32 << 3u32) & (0x7Fu32 << 16u32) == 0,
        (0x1u32 << 1u32) & (0x1u32 << 0u32) == 0,
        (0x1u32 << 3u32) & (0x1u32 << 0u32) == 0,
        (0x1u32 << 3u32) & (0x1u32 << 1u32) == 0,
        (0x7Fu32 << 16u32) & (0x1u32 << 0u32) == 0,
        (0x7Fu32 << 16u32) & (0x1u32 << 1u32) == 0,
        (0x7Fu32 << 16u32) & (0x1u32 << 3u32) == 0,
        forall|x: u32| x & 0 == 0,
{
    assert(
        (0x3u32 << 10u32) & (0x1u32 << 4u32) == 0
        && (0x3u32 << 10u32) & (0x3u32 << 8u32) == 0
        && (0x3u32 << 10u32) & (0x1u32 << 0u32) == 0
        && (0x3u32 << 10u32) & (0x1u32 << 1u32) == 0
        && (0x3u32 << 10u32) & (0x1u32 << 3u32) == 0
        && (0x3u32 << 10u32) & (0x7Fu32 << 16u32) == 0
        && (0x1u32 << 4u32) & (0x3u32 << 8u32) == 0
        && (0x1u32 << 4u32) & (0x1u32 << 0u32) == 0
        && (0x1u32 << 4u32) & (0x1u32 << 1u32) == 0
        && (0x1u32 << 4u32) & (0x1u32 << 3u32) == 0
        && (0x1u32 << 4u32) & (0x7Fu32 << 16u32) == 0
        && (0x3u32 << 8u32) & (0x1u32 << 0u32) == 0
        && (0x3u32 << 8u32) & (0x1u32 << 1u32) == 0
        && (0x3u32 << 8u32) & (0x1u32 << 3u32) == 0
        && (0x3u32 << 8u32) & (0x7Fu32 << 16u32) == 0
        && (0x1u32 << 0u32) & (0x1u32 << 1u32) == 0
        && (0x1u32 << 0u32) & (0x1u32 << 3u32) == 0
        && (0x1u32 << 0u32) & (0x7Fu32 << 16u32) == 0
        && (0x1u32 << 1u32) & (0x1u32 << 3u32) == 0
        && (0x1u32 << 1u32) & (0x7Fu32 << 16u32) == 0
        && (0x1u32 << 3u32) & (0x7Fu32 << 16u32) == 0
        && (0x1u32 << 1u32) & (0x1u32 << 0u32) == 0
        && (0x1u32 << 3u32) & (0x1u32 << 0u32) == 0
        && (0x1u32 << 3u32) & (0x1u32 << 1u32) == 0
        && (0x7Fu32 << 16u32) & (0x1u32 << 0u32) == 0
        && (0x7Fu32 << 16u32) & (0x1u32 << 1u32) == 0
        && (0x7Fu32 << 16u32) & (0x1u32 << 3u32) == 0
        && forall|x: u32| x & 0 == 0
    ) by (bit_vector);
}

/// The lock steps read LSR's SLI (bit 0, a software lock is implemented) and SLK (bit 1, it is
/// locked): the ITM is unlocked only when both are set, and locked again at the end only when
/// SLI is set.
pub proof fn lemma_configure_lock_bits(settings: ITMSettings, lsr: u32)
    ensures
        (spec_configure(settings, ConfigureStep::Unlock, lsr).1 == ConfigureAction::Unlock)
            == (lsr & 0x3 == 0x3),
        (spec_configure(settings, ConfigureStep::Lock, lsr).1 == ConfigureAction::LockAndFinish)
            == (lsr & 0x1 == 0x1),
{
    assert(((lsr & (1u32 << 0u32) != 0 && lsr & (1u32 << 1u32) != 0) == (lsr & 0x3 == 0x3))
        && ((lsr & (1u32 << 0u32) != 0) == (lsr & 0x1 == 0x1))) by (bit_vector);
}

/// The TCR fields that the set steps write hold the architectural encodings: GTSFREQ is 0 when
/// global timestamps are disabled, 1 for every 128 cycles, 2 for every 8192 cycles and 3 for
/// every packet; SWOENA is 1 for the TPIU's asynchronous clock and 0 for the system clock;
/// TSPrescale is 1 to divide the reference clock by 4, 2 by 16, 3 by 64, and 0 without
/// prescaling. Each step leaves every other TCR bit as it read it.
pub proof fn lemma_configure_field_encodings(settings: ITMSettings, saved: u32, reg: u32)
    ensures
        ({
            let w = written_tcr(spec_configure(settings, ConfigureStep::SetGtsfreq(saved), reg).1);
            &&& settings.global_timestamps == GlobalTimestampOptions::Disabled ==> field(w, 10, 0x3) == 0
            &&& settings.global_timestamps == GlobalTimestampOptions::Every128Cycles ==> field(w, 10, 0x3) == 1
            &&& settings.global_timestamps == GlobalTimestampOptions::Every8192Cycles ==> field(w, 10, 0x3) == 2
            &&& settings.global_timestamps == GlobalTimestampOptions::EveryPacket ==> field(w, 10, 0x3) == 3
            &&& same_outside(w, reg, 0x3u32 << 10u32)
        }),
        ({
            let w = written_tcr(spec_configure(settings, ConfigureStep::SetSwoena(saved), reg).1);
            &&& settings.timestamp_clk_src == TimestampClkSrc::AsyncTPIU ==> field(w, 4, 0x1) == 1
            &&& settings.timestamp_clk_src == TimestampClkSrc::SystemClock ==> field(w, 4, 0x1) == 0
            &&& same_outside(w, reg, 0x1u32 << 4u32)
        }),
        ({
            let w = written_tcr(spec_configure(settings, ConfigureStep::SetTsprescale(saved), reg).1);
            &&& settings.local_timestamps == LocalTimestampOptions::EnabledDiv64 ==> field(w, 8, 0x3) == 3
            &&& settings.local_timestamps == LocalTimestampOptions::EnabledDiv16 ==> field(w, 8, 0x3) == 2
            &&& settings.local_timestamps == LocalTimestampOptions::EnabledDiv4 ==> field(w, 8, 0x3) == 1
            &&& settings.local_timestamps == LocalTimestampOptions::Enabled ==> field(w, 8, 0x3) == 0
            &&& settings.local_timestamps == LocalTimestampOptions::Disabled ==> field(w, 8, 0x3) == 0
            &&& same_outside(w, reg, 0x3u32 << 8u32)
        }),
{
    crate::bits::lemma_fits_at_facts();
    let g = gtsfreq_bits(settings.global_timestamps);
    let c = swoena_bit(settings.timestamp_clk_src);
    let p = tsprescale_bits(settings.local_timestamps);
    crate::bits::lemma_with_field(reg, 10, 0x3, g);
    crate::bits::lemma_with_field(reg, 4, 0x1, c);
    crate::bits::lemma_with_field(reg, 8, 0x3, p);
    assert(0u32 & 0x3 == 0 && 1u32 & 0x3 == 1 && 2u32 & 0x3 == 2 && 3u32 & 0x3 == 3
        && 0u32 & 0x1 == 0 && 1u32 & 0x1 == 1) by (bit_vector);
}

/// On an ITM that keeps every TCR field written to it, no check of `configure` fails, and the
/// TCR that it leaves holds every setting asked for.
pub proof fn lemma_configure_on_full_itm(settings: ITMSettings, tcr: u32)
    ensures
        ({
            let t1 = written_tcr(spec_configure(settings, ConfigureStep::DisableItm, tcr).1);
            let t2 = written_tcr(spec_configure(settings, ConfigureStep::SetGtsfreq(tcr), t1).1);
            let t3 = written_tcr(spec_configure(settings, ConfigureStep::SetSwoena(tcr), t2).1);
            let t4 = written_tcr(spec_configure(settings, ConfigureStep::SetTsprescale(tcr), t3).1);
            let t5 = written_tcr(spec_configure(settings, ConfigureStep::Apply, t4).1);
            &&& spec_configure(settings, ConfigureStep::CheckGtsfreq(tcr), t2)
                == (Some(ConfigureStep::SetSwoena(tcr)), ConfigureAction::Continue)
            &&& spec_configure(settings, ConfigureStep::CheckSwoena(tcr), t3)
                == (Some(ConfigureStep::SetTsprescale(tcr)), ConfigureAction::Continue)
            &&& spec_configure(settings, ConfigureStep::CheckTsprescale(tcr), t4)
                == (Some(ConfigureStep::Apply), ConfigureAction::Continue)
            &&& field(t5, 0, 1) == (if settings.enable { 1u32 } else { 0u32 })
            &&& field(t5, 1, 1) == (if settings.local_timestamps != LocalTimestampOptions::Disabled { 1u32 } else { 0u32 })
            &&& field(t5, 3, 1) == (if settings.forward_dwt { 1u32 } else { 0u32 })
            &&& field(t5, 16, 0x7F) == trace_bus_id(settings.bus_id) & 0x7F
            &&& field(t5, 10, 0x3) == gtsfreq_bits(settings.global_timestamps)
            &&& field(t5, 4, 1) == swoena_bit(settings.timestamp_clk_src)
            &&& field(t5, 8, 0x3) == tsprescale_bits(settings.local_timestamps)
        }),
{
    crate::bits::lemma_fits_at_facts();
    lemma_tcr_fields_disjoint();
    vstd::arithmetic::power2::lemma2_to64();
    vstd::bits::lemma_low_bits_mask_values();
    let g = gtsfreq_bits(settings.global_timestamps);
    let c = swoena_bit(settings.timestamp_clk_src);
    let p = tsprescale_bits(settings.local_timestamps);
    let e: u32 = if settings.enable { 1 } else { 0 };
    let ts: u32 = if settings.local_timestamps != LocalTimestampOptions::Disabled { 1 } else { 0 };
    let f: u32 = if settings.forward_dwt { 1 } else { 0 };
    let b = trace_bus_id(settings.bus_id);
    assert(g < 4 && c < 2 && p < 4);
    crate::bits::lemma_and_low_mask(g, 2, 0x3);
    crate::bits::lemma_and_low_mask(c, 1, 0x1);
    crate::bits::lemma_and_low_mask(p, 2, 0x3);
    crate::bits::lemma_and_low_mask(e, 1, 0x1);
    crate::bits::lemma_and_low_mask(ts, 1, 0x1);
    crate::bits::lemma_and_low_mask(f, 1, 0x1);

    let t1 = with_field(tcr, 0, 1, 0);
    let t2 = with_field(t1, 10, 0x3, g);
    crate::bits::lemma_with_field(t1, 10, 0x3, g);
    let t3 = with_field(t2, 4, 1, c);
    crate::bits::lemma_with_field(t2, 4, 1, c);
    crate::bits::lemma_field_preserved(t3, t2, 0x1u32 << 4u32, 10, 0x3);
    let t4 = with_field(t3, 8, 0x3, p);
    crate::bits::lemma_with_field(t3, 8, 0x3, p);
    crate::bits::lemma_field_preserved(t4, t3, 0x3u32 << 8u32, 10, 0x3);
    crate::bits::lemma_field_preserved(t4, t3, 0x3u32 << 8u32, 4, 1);

    let u1 = with_field(t4, 0, 1, e);
    crate::bits::lemma_with_field(t4, 0, 1, e);
    let u2 = with_field(u1, 1, 1, ts);
    crate::bits::lemma_with_field(u1, 1, 1, ts);
    let u3 = with_field(u2, 3, 1, f);
    crate::bits::lemma_with_field(u2, 3, 1, f);
    let u4 = with_field(u3, 16, 0x7F, b);
    crate::bits::lemma_with_field(u3, 16, 0x7F, b);
    // ITMENA survives the later writes
    crate::bits::lemma_field_preserved(u2, u1, 0x1u32 << 1u32, 0, 1);
    crate::bits::lemma_field_preserved(u3, u2, 0x1u32 << 3u32, 0, 1);
    crate::bits::lemma_field_preserved(u4, u3, 0x7Fu32 << 16u32, 0, 1);
    // TSENA
    crate::bits::lemma_field_preserved(u3, u2, 0x1u32 << 3u32, 1, 1);
    crate::bits::lemma_field_preserved(u4, u3, 0x7Fu32 << 16u32, 1, 1);
    // TXENA
    crate::bits::lemma_field_preserved(u4, u3, 0x7Fu32 << 16u32, 3, 1);
    // GTSFREQ, SWOENA, TSPrescale through the four writes
    crate::bits::lemma_field_preserved(u1, t4, 0x1u32 << 0u32, 10, 0x3);
    crate::bits::lemma_field_preserved(u2, u1, 0x1u32 << 1u32, 10, 0x3);
    crate::bits::lemma_field_preserved(u3, u2, 0x1u32 << 3u32, 10, 0x3);
    crate::bits::lemma_field_preserved(u4, u3, 0x7Fu32 << 16u32, 10, 0x3);
    crate::bits::lemma_field_preserved(u1, t4, 0x1u32 << 0u32, 4, 1);
    crate::bits::lemma_field_preserved(u2, u1, 0x1u32 << 1u32, 4, 1);
    crate::bits::lemma_field_preserved(u3, u2, 0x1u32 << 3u32, 4, 1);
    crate::bits::lemma_field_preserved(u4, u3, 0x7Fu32 << 16u32, 4, 1);
    crate::bits::lemma_field_preserved(u1, t4, 0x1u32 << 0u32, 8, 0x3);
    crate::bits::lemma_field_preserved(u2, u1, 0x1u32 << 1u32, 8, 0x3);
    crate::bits::lemma_field_preserved(u3, u2, 0x1u32 << 3u32, 8, 0x3);
    crate::bits::lemma_field_preserved(u4, u3, 0x7Fu32 << 16u32, 8, 0x3);
}

impl ITM {
    /// Checks whether `lsr` (LSR) reports the software lock mechanism. If `true`, the lock must
    /// be removed before any other mutating [`ITM`] operation.
    ///
    /// See (coresight, B2.3.10).
    pub fn has_software_lock(lsr: u32) -> (r: bool)
        ensures
            r == bit_is_set(lsr, 0),
    {
        lsr & (1u32 << 0u32) != 0
    }

    /// Checks whether `lsr` (LSR) reports the peripheral locked.
    ///
    /// See (coresight, B2.3.10).
    pub fn locked(lsr: u32) -> (r: bool)
        ensures
            r == bit_is_set(lsr, 1),
    {
        lsr & (1u32 << 1u32) != 0
    }

    /// Indicates whether `tcr` (TCR) reports the [`ITM`] processing events:
    /// `true` if [`ITM`] events are present and are being drained.
    pub fn busy(tcr: u32) -> (r: bool)
        ensures
            r == bit_is_set(tcr, 23),
    {
        tcr & (1u32 << 23u32) != 0
    }

    /// One step of configuring the [`ITM`] with the passed [`ITMSettings`].
    ///
    /// `reg` is what the step reads: LSR for `Unlock` and `Lock`, TCR for the other steps.
    /// The result is the next step (`None` once the configuration is over) and what to do now.
    /// Starting from `Unlock`, the steps unlock the ITM, disable it, write and check the global
    /// timestamp frequency, the timestamp clock source and the local timestamp prescaler (each
    /// of which a target may not implement), write the enables and the trace bus id, and lock
    /// the ITM again. When a check fails, the TCR read when the ITM was disabled is written
    /// back, but for the fields that the error names as changed (none for `GTS`, so TCR is then
    /// left as it was; see `lemma_configure_failure_restores_tcr`).
    pub fn configure(settings: &ITMSettings, step: ConfigureStep, reg: u32) -> (r: (Option<ConfigureStep>, ConfigureAction))
        ensures
            r == spec_configure(*settings, step, reg),
    {
        proof {
            crate::bits::lemma_fits_at_facts();
        }
        match step {
            ConfigureStep::Unlock => {
                // The ITM must be unlocked before we apply any changes.
                let action = if Self::has_software_lock(reg) && Self::locked(reg) {
                    ConfigureAction::Unlock
                } else {
                    ConfigureAction::Continue
                };
                (Some(ConfigureStep::DisableItm), action)
            },
            ConfigureStep::DisableItm => {
                // The ITM must then be disabled before altering certain fields
                // in order to avoid trace stream corruption.
                (Some(ConfigureStep::SetGtsfreq(reg)), ConfigureAction::WriteTcrAndWaitIdle(set_field(reg, 0, 1, 0)))
            },
            ConfigureStep::SetGtsfreq(saved) => {
                let gtsfreq: u32 = match settings.global_timestamps {
                    GlobalTimestampOptions::Disabled => 0b00,
                    GlobalTimestampOptions::Every128Cycles => 0b01,
                    GlobalTimestampOptions::Every8192Cycles => 0b10,
                    GlobalTimestampOptions::EveryPacket => 0b11,
                };
                (Some(ConfigureStep::CheckGtsfreq(saved)), ConfigureAction::WriteTcr(set_field(reg, 10, 0x3, gtsfreq)))
            },
            ConfigureStep::CheckGtsfreq(saved) => {
                // GTSFREQ is potentially RAZ/WI
                if settings.global_timestamps != GlobalTimestampOptions::Disabled && (reg >> 10u32) & 0x3 == 0 {
                    (None, ConfigureAction::Fail(ITMConfigurationError::GTS, saved))
                } else {
                    (Some(ConfigureStep::SetSwoena(saved)), ConfigureAction::Continue)
                }
            },
            ConfigureStep::SetSwoena(saved) => {
                let swoena: u32 = match settings.timestamp_clk_src {
                    TimestampClkSrc::SystemClock => 0,
                    TimestampClkSrc::AsyncTPIU => 1,
                };
                (Some(ConfigureStep::CheckSwoena(saved)), ConfigureAction::WriteTcr(set_field(reg, 4, 1, swoena)))
            },
            ConfigureStep::CheckSwoena(saved) => {
                // SWOENA is potentially either RAZ or RAO
                let swoena: u32 = match settings.timestamp_clk_src {
                    TimestampClkSrc::SystemClock => 0,
                    TimestampClkSrc::AsyncTPIU => 1,
                };
                if (reg >> 4u32) & 1 != swoena {
                    let restored = set_field(saved, 10, 0x3, (reg >> 10u32) & 0x3);
                    (None, ConfigureAction::Fail(ITMConfigurationError::TimestampClkSrc, restored))
                } else {
                    (Some(ConfigureStep::SetTsprescale(saved)), ConfigureAction::Continue)
                }
            },
            ConfigureStep::SetTsprescale(saved) => {
                let tsprescale: u32 = match settings.local_timestamps {
                    LocalTimestampOptions::Disabled | LocalTimestampOptions::Enabled => 0b00,
                    LocalTimestampOptions::EnabledDiv4 => 0b01,
                    LocalTimestampOptions::EnabledDiv16 => 0b10,
                    LocalTimestampOptions::EnabledDiv64 => 0b11,
                };
                (Some(ConfigureStep::CheckTsprescale(saved)), ConfigureAction::WriteTcr(set_field(reg, 8, 0x3, tsprescale)))
            },
            ConfigureStep::CheckTsprescale(saved) => {
                // TSPrescale is potentially RAZ/WI
                if settings.local_timestamps != LocalTimestampOptions::Disabled
                    && settings.local_timestamps != LocalTimestampOptions::Enabled
                    && (reg >> 8u32) & 0x3 == 0
                {
                    let gts = set_field(saved, 10, 0x3, (reg >> 10u32) & 0x3);
                    let restored = set_field(gts, 4, 1, (reg >> 4u32) & 1);
                    (None, ConfigureAction::Fail(ITMConfigurationError::TSPrescale, restored))
                } else {
                    (Some(ConfigureStep::Apply), ConfigureAction::Continue)
                }
            },
            ConfigureStep::Apply => {
                let bus_id: u32 = match settings.bus_id {
                    Some(id) => id as u32,
                    None => 0,
                };
                let t1 = set_field(reg, 0, 1, if settings.enable { 1 } else { 0 });
                let t2 = set_field(t1, 1, 1, if settings.local_timestamps != LocalTimestampOptions::Disabled { 1 } else { 0 });
                // forward hardware event packets from the DWT to the ITM
                let t3 = set_field(t2, 3, 1, if settings.forward_dwt { 1 } else { 0 });
                let t4 = set_field(t3, 16, 0x7F, bus_id);
                (Some(ConfigureStep::Lock), ConfigureAction::WriteTcr(t4))
            },
            ConfigureStep::Lock => {
                if Self::has_software_lock(reg) {
                    (None, ConfigureAction::LockAndFinish)
                } else {
                    (None, ConfigureAction::Succeed)
                }
            },
        }
    }
}

/// The registers of the ITM block.
#[derive(Clone, Copy, Debug, PartialEq, Eq, Structural)]
pub enum Register {
    /// Stimulus Port (256 registers)
    Stim,
    /// Trace Enable (eight registers)
    Ter,
    /// Trace Privilege
    Tpr,
    /// Trace Control
    Tcr,
    /// Lock Access
    Lar,
    /// Lock Status
    Lsr,
}

/// The ITM register block, slot by slot, reserved runs included.
pub open spec fn spec_layout() -> Seq<Slot> {
    seq![
        Slot { size: 4, count: 256 },
        Slot { size: 4, count: 640 },
        Slot { size: 4, count: 8 },
        Slot { size: 4, count: 8 },
        Slot { size: 4, count: 1 },
        Slot { size: 4, count: 15 },
        Slot { size: 4, count: 1 },
        Slot { size: 4, count: 75 },
        Slot { size: 4, count: 1 },
        Slot { size: 4, count: 1 },
    ]
}

/// The slot of a register.
pub open spec fn spec_slot(register: Register) -> int {
    match register {
        Register::Stim => 0,
        Register::Ter => 2,
        Register::Tpr => 4,
        Register::Tcr => 6,
        Register::Lar => 8,
        Register::Lsr => 9,
    }
}

/// The address of register `index` of `register` (`index` is 0 for a single register).
pub fn address(register: Register, index: u32) -> (r: u32)
    requires
        index < spec_layout()[spec_slot(register)].count,
    ensures
        r == ITM::PTR + spec_offset(spec_layout(), spec_slot(register))
            + index * spec_layout()[spec_slot(register)].size,
{
    let slots = vec![
        Slot { size: 4, count: 256 },
        Slot { size: 4, count: 640 },
        Slot { size: 4, count: 8 },
        Slot { size: 4, count: 8 },
        Slot { size: 4, count: 1 },
        Slot { size: 4, count: 15 },
        Slot { size: 4, count: 1 },
        Slot { size: 4, count: 75 },
        Slot { size: 4, count: 1 },
        Slot { size: 4, count: 1 },
    ];
    assert(slots@ =~= spec_layout());
    let k: usize = match register {
        Register::Stim => 0,
        Register::Ter => 2,
        Register::Tpr => 4,
        Register::Tcr => 6,
        Register::Lar => 8,
        Register::Lsr => 9,
    };
    register_address(ITM::PTR, slots.as_slice(), k, index, 0)
}

} // verus!
