use cortex_m::peripheral::dwt::{
    AccessType, ComparatorAddressSettings, ComparatorFunction, CycleCountSettings, DwtError,
    EmitOption, Comparator,
};
use cortex_m::peripheral::itm::{
    ConfigureAction, ConfigureStep, GlobalTimestampOptions, ITMConfigurationError, ITMSettings,
    LocalTimestampOptions, Stim, TimestampClkSrc,
};
use cortex_m::peripheral::nvic;
use cortex_m::peripheral::sau::{SauError, SauRegion, SauRegionAttribute};
use cortex_m::peripheral::syst::SystClkSource;
use cortex_m::peripheral::tpiu::TraceProtocol;
use cortex_m::peripheral::{Peripherals, DCB, DWT, ITM, NVIC, SAU, SYST, TPIU};

#[test]
fn syst_csr_bits() {
    assert_eq!(SYST::enable_counter(0), 1);
    assert_eq!(SYST::disable_counter(0xFFFF_FFFF), 0xFFFF_FFFE);
    assert_eq!(SYST::enable_interrupt(0), 2);
    assert_eq!(SYST::disable_interrupt(0xFFFF_FFFF), 0xFFFF_FFFD);
    assert!(SYST::is_counter_enabled(1));
    assert!(!SYST::is_interrupt_enabled(1));
    assert!(SYST::is_interrupt_enabled(2));
    assert!(SYST::has_wrapped(1 << 16));
    assert!(!SYST::has_wrapped(0));
}

#[test]
fn syst_clock_source() {
    assert_eq!(SYST::set_clock_source(0, SystClkSource::Core), 4);
    assert_eq!(SYST::set_clock_source(0xFF, SystClkSource::External), 0xFB);
    assert_eq!(SYST::get_clock_source(4), SystClkSource::Core);
    assert_eq!(SYST::get_clock_source(0xFB), SystClkSource::External);
    let csr = SYST::set_clock_source(0x1_0003, SystClkSource::External);
    assert_eq!(SYST::get_clock_source(csr), SystClkSource::External);
}

#[test]
fn syst_calibration() {
    assert_eq!(SYST::get_ticks_per_10ms(0xC0FF_FFFF), 0x00FF_FFFF);
    assert_eq!(SYST::get_ticks_per_10ms(0x4001_D4C0), 120_000);
    assert!(SYST::has_reference_clock(0x4000_0000));
    assert!(!SYST::has_reference_clock(0x8000_0000));
    assert!(SYST::is_precise(0x8000_0000));
    assert!(!SYST::is_precise(0x4000_0000));
}

#[test]
fn dcb_demcr_bits() {
    assert_eq!(DCB::enable_trace(0), 1 << 24);
    assert_eq!(DCB::disable_trace(0xFFFF_FFFF), !(1u32 << 24));
    assert_eq!(DCB::enable_debug_monitor(0), 1 << 16);
    assert_eq!(DCB::disable_debug_monitor(0xFFFF_FFFF), !(1u32 << 16));
    assert!(DCB::is_debugger_attached(1));
    assert!(!DCB::is_debugger_attached(0xFE));
}

#[test]
fn dwt_ctrl_bits() {
    assert_eq!(DWT::num_comp(0x4000_0000), 4);
    assert!(DWT::has_cycle_counter(0));
    assert!(!DWT::has_cycle_counter(1 << 25));
    assert!(!DWT::has_exception_trace(1 << 27));
    assert!(!DWT::has_external_match(1 << 26));
    assert!(!DWT::has_profiling_counter(1 << 24));
    assert_eq!(DWT::enable_cycle_counter(0x4000_0000), 0x4000_0001);
    assert_eq!(DWT::disable_cycle_counter(0xFF), 0xFE);
    assert!(DWT::cycle_counter_enabled(1));
    assert_eq!(DWT::enable_exception_tracing(0), 1 << 16);
    assert_eq!(DWT::disable_exception_tracing(0xFFFF_FFFF), !(1u32 << 16));
    assert_eq!(DWT::enable_pc_samples(0, true), 1 << 12);
    assert_eq!(DWT::enable_pc_samples(0xFFFF, false), 0xEFFF);
}

#[test]
fn dwt_counters_are_eight_bits() {
    assert_eq!(DWT::cpi_count(0x1234), 0x34);
    assert_eq!(DWT::exception_count(0xFF01), 0x01);
    assert_eq!(DWT::sleep_count(7), 7);
    assert_eq!(DWT::lsu_count(0x100), 0);
    assert_eq!(DWT::fold_count(0xFFFF_FFFF), 0xFF);
}

#[test]
fn dwt_comparator_address_match() {
    let settings = ComparatorFunction::Address(ComparatorAddressSettings {
        address: 0x2000_0000,
        mask: 4,
        emit: EmitOption::Address,
        access_type: AccessType::ReadOnly,
    });
    // FUNCTION = 0b1100, EMITRANGE set, DATAVMATCH/CYCMATCH and bits 10..19 cleared
    assert_eq!(Comparator::configure(0, settings), Ok((0b1100 | 0x20, 0x2000_0000, 4)));
    assert_eq!(
        Comparator::configure(0xFFFF_FFFF, settings),
        Ok(((0xFFFF_FFFF & !0x000F_FDAF) | 0b1100 | 0x20, 0x2000_0000, 4))
    );
    let settings = ComparatorFunction::Address(ComparatorAddressSettings {
        address: 0x100,
        mask: 0,
        emit: EmitOption::PC,
        access_type: AccessType::ReadWrite,
    });
    assert_eq!(Comparator::configure(0, settings), Ok((0b0001, 0x100, 0)));
}

#[test]
fn dwt_comparator_invalid_function() {
    let settings = ComparatorFunction::Address(ComparatorAddressSettings {
        address: 0x100,
        mask: 0,
        emit: EmitOption::PC,
        access_type: AccessType::WriteOnly,
    });
    assert_eq!(Comparator::configure(0, settings), Err(DwtError::InvalidFunction));
    let settings = ComparatorFunction::CycleCount(CycleCountSettings {
        emit: EmitOption::Data,
        compare: 10,
    });
    assert_eq!(Comparator::configure(0, settings), Err(DwtError::InvalidFunction));
}

#[test]
fn dwt_comparator_cycle_count() {
    let settings = ComparatorFunction::CycleCount(CycleCountSettings {
        emit: EmitOption::WatchpointDebugEvent,
        compare: 1000,
    });
    // FUNCTION = 0b0100, CYCMATCH set
    assert_eq!(Comparator::configure(0x20, settings), Ok((0b0100 | 0x80, 1000, 0)));
}

#[test]
fn tpiu_protocol() {
    assert_eq!(TPIU::set_swo_baud_rate(72_000_000, 2_000_000), 35);
    assert_eq!(TPIU::set_swo_baud_rate(1_000_000, 1_000_000), 0);
    assert_eq!(TPIU::trace_output_protocol(0), Some(TraceProtocol::Parallel));
    assert_eq!(TPIU::trace_output_protocol(0xFFFF_FFF6), Some(TraceProtocol::AsyncSWONRZ));
    assert_eq!(TPIU::trace_output_protocol(3), None);
    let sppr = TPIU::set_trace_output_protocol(0xFFFF_FFFF, TraceProtocol::AsyncSWOManchester);
    assert_eq!(sppr, 0xFFFF_FFFD);
    assert_eq!(TPIU::trace_output_protocol(sppr), Some(TraceProtocol::AsyncSWOManchester));
    assert_eq!(TraceProtocol::AsyncSWONRZ.value(), 2);
    assert_eq!(TraceProtocol::try_from(1), Ok(TraceProtocol::AsyncSWOManchester));
    assert_eq!(TraceProtocol::try_from(3), Err(()));
}

#[test]
fn tpiu_formatting_and_type() {
    assert_eq!(TPIU::enable_continuous_formatting(0x100, true), 0x102);
    assert_eq!(TPIU::enable_continuous_formatting(0x102, false), 0x100);
    let supports = TPIU::swo_supports((1 << 11) | (1 << 9) | (5 << 6));
    assert!(supports.nrz_encoding);
    assert!(!supports.manchester_encoding);
    assert!(!supports.parallel_operation);
    assert_eq!(supports.min_queue_size, 5);
}

/// Runs `ITM::configure` against a simulated ITM whose TCR keeps only the bits of `implemented`
/// and sets those of `forced`.
fn run_configure(settings: &ITMSettings, implemented: u32, forced: u32) -> (Result<(), ITMConfigurationError>, u32, u32) {
    run_configure_from(settings, implemented, forced, forced)
}

/// As `run_configure`, from a TCR that reads `start`.
fn run_configure_from(settings: &ITMSettings, implemented: u32, forced: u32, start: u32) -> (Result<(), ITMConfigurationError>, u32, u32) {
    let mut lsr: u32 = 0b11;
    let mut tcr: u32 = start;
    let mut step = Some(ConfigureStep::Unlock);
    let mut result = Ok(());
    while let Some(s) = step {
        let reg = if s == ConfigureStep::Unlock || s == ConfigureStep::Lock { lsr } else { tcr };
        let (next, action) = ITM::configure(settings, s, reg);
        match action {
            ConfigureAction::Continue => {}
            ConfigureAction::Unlock => lsr &= !0b10,
            ConfigureAction::WriteTcr(v) | ConfigureAction::WriteTcrAndWaitIdle(v) => {
                tcr = (v & implemented) | forced
            }
            ConfigureAction::LockAndFinish => lsr |= 0b10,
            ConfigureAction::Succeed => {}
            ConfigureAction::Fail(e, saved) => {
                tcr = (saved & implemented) | forced;
                result = Err(e);
            }
        }
        step = next;
    }
    (result, tcr, lsr)
}

fn full_settings() -> ITMSettings {
    ITMSettings {
        enable: true,
        forward_dwt: true,
        local_timestamps: LocalTimestampOptions::EnabledDiv16,
        global_timestamps: GlobalTimestampOptions::Every8192Cycles,
        bus_id: Some(3),
        timestamp_clk_src: TimestampClkSrc::AsyncTPIU,
    }
}

#[test]
fn itm_configure_full_itm() {
    let (result, tcr, lsr) = run_configure(&full_settings(), 0xFFFF_FFFF, 0);
    assert_eq!(result, Ok(()));
    assert_eq!(tcr, 0x0003_0A1B);
    assert_eq!(lsr, 0b11);
}

#[test]
fn itm_configure_missing_fields() {
    // GTSFREQ reads as zero
    let (result, _, _) = run_configure(&full_settings(), !(0b11 << 10), 0);
    assert_eq!(result, Err(ITMConfigurationError::GTS));
    // SWOENA reads as one
    let mut settings = full_settings();
    settings.timestamp_clk_src = TimestampClkSrc::SystemClock;
    let (result, _, _) = run_configure(&settings, 0xFFFF_FFFF, 1 << 4);
    assert_eq!(result, Err(ITMConfigurationError::TimestampClkSrc));
    // TSPrescale reads as zero
    let (result, _, _) = run_configure(&full_settings(), !(0b11 << 8), 0);
    assert_eq!(result, Err(ITMConfigurationError::TSPrescale));
    // without a prescaler nothing is missing
    let mut settings = full_settings();
    settings.local_timestamps = LocalTimestampOptions::Enabled;
    let (result, tcr, _) = run_configure(&settings, !(0b11 << 8), 0);
    assert_eq!(result, Ok(()));
    assert_eq!(tcr, 0x0003_081B);
}

#[test]
fn itm_configure_error_leaves_tcr() {
    // GTSFREQ reads as zero, TCR starts with the ITM enabled
    let mut settings = full_settings();
    settings.global_timestamps = GlobalTimestampOptions::Every128Cycles;
    let (result, tcr, _) = run_configure_from(&settings, !(0b11 << 10), 0, 1);
    assert_eq!(result, Err(ITMConfigurationError::GTS));
    assert_eq!(tcr, 1);
    // TSPrescale reads as zero: TCR as it was, but for GTSFREQ and SWOENA as written
    let (result, tcr, _) = run_configure_from(&full_settings(), !(0b11 << 8), 0, 0x0001_0009);
    assert_eq!(result, Err(ITMConfigurationError::TSPrescale));
    assert_eq!(tcr, 0x0001_0819);
    // SWOENA reads as one: TCR as it was, but for GTSFREQ as written
    let mut settings2 = full_settings();
    settings2.timestamp_clk_src = TimestampClkSrc::SystemClock;
    let (result, tcr, _) = run_configure_from(&settings2, 0xFFFF_FFFF, 1 << 4, 0x0000_0019);
    assert_eq!(result, Err(ITMConfigurationError::TimestampClkSrc));
    assert_eq!(tcr, 0x0000_0819);
    // the failing step hands back the TCR read when the ITM was disabled
    let (next, action) = ITM::configure(&settings, ConfigureStep::CheckGtsfreq(0x77), 0);
    assert_eq!(next, None);
    assert_eq!(action, ConfigureAction::Fail(ITMConfigurationError::GTS, 0x77));
}

#[test]
fn itm_registers() {
    assert!(Stim::is_fifo_ready(1));
    assert!(!Stim::is_fifo_ready(2));
    assert!(Stim::is_fifo_ready_armv8m(2));
    assert!(!Stim::is_fifo_ready_armv8m(4));
    assert!(ITM::has_software_lock(1));
    assert!(ITM::locked(2));
    assert!(!ITM::locked(1));
    assert!(ITM::busy(1 << 23));
    assert_eq!(LocalTimestampOptions::try_from(4), Ok(LocalTimestampOptions::EnabledDiv4));
    assert_eq!(LocalTimestampOptions::try_from(1), Ok(LocalTimestampOptions::Enabled));
    assert_eq!(LocalTimestampOptions::try_from(0), Err(()));
    assert_eq!(LocalTimestampOptions::try_from(8), Err(()));
}

#[test]
fn nvic_bit_registers() {
    assert_eq!(NVIC::request(37u16), 37);
    assert_eq!(NVIC::mask(37u16), (1, 1 << 5));
    assert_eq!(NVIC::unmask(31u16), (0, 1 << 31));
    assert_eq!(NVIC::pend(64u16), (2, 1));
    assert_eq!(NVIC::unpend(511u16), (15, 1 << 31));
    let mut regs = [0u32; 16];
    regs[1] = 1 << 5;
    assert!(NVIC::is_enabled(&regs, 37u16));
    assert!(!NVIC::is_enabled(&regs, 36u16));
    assert!(NVIC::is_pending(&regs, 37u16));
    assert!(NVIC::is_active(&regs, 37u16));
    assert!(!NVIC::is_active(&regs, 5u16));
}

#[test]
fn nvic_write_then_read_bit() {
    let mut iser = [0xFFFF_0000u32; 16];
    let (i, bit) = NVIC::unmask(45u16);
    iser[i] |= bit;
    assert!(NVIC::is_enabled(&iser, 45u16));
    assert!(!NVIC::is_enabled(&iser, 44u16));
    let (i, bit) = NVIC::mask(20u16);
    iser[i] &= !bit;
    assert!(!NVIC::is_enabled(&iser, 20u16));
    assert!(NVIC::is_enabled(&iser, 21u16));
}

#[test]
fn nvic_priorities() {
    let mut ipr = [0u32; 124];
    NVIC::set_priority(&mut ipr, 6u16, 0xA0);
    NVIC::set_priority(&mut ipr, 7u16, 0x30);
    assert_eq!(ipr[1], 0x30A0_0000);
    assert_eq!(NVIC::get_priority(&ipr, 6u16), 0xA0);
    assert_eq!(NVIC::get_priority(&ipr, 7u16), 0x30);
    assert_eq!(NVIC::get_priority(&ipr, 5u16), 0);
    assert_eq!(NVIC::ipr_index(495u16), 123);
    assert_eq!(NVIC::ipr_shift(6u16), 16);
    assert_eq!(nvic::address(nvic::Register::Stir, 0), 0xE000_EF00);
}

#[test]
fn sau_regions() {
    assert_eq!(SAU::region_numbers(0x0000_0108), 8);
    assert_eq!(SAU::enable(0), 1);
    let region = SauRegion {
        base_address: 0x1000_0000,
        limit_address: 0x1000_FFFF,
        attribute: SauRegionAttribute::NonSecureCallable,
    };
    assert_eq!(SAU::set_region(8, 2, region), Ok((2, 0x1000_0000, 0x1000_FFE3)));
    assert_eq!(SAU::get_region(8, 2, 0x1000_0000, 0x1000_FFE3), Ok(region));
    let secure = SauRegion { attribute: SauRegionAttribute::Secure, ..region };
    assert_eq!(SAU::set_region(8, 0, secure), Ok((0, 0x1000_0000, 0x1000_FFE0)));
    assert_eq!(SAU::get_region(8, 0, 0x1000_001F, 0x1000_FFE2), Ok(secure));
    let non_secure = SauRegion { attribute: SauRegionAttribute::NonSecure, ..region };
    assert_eq!(SAU::get_region(8, 0, 0x1000_0000, 0x1000_FFE1), Ok(non_secure));
}

#[test]
fn sau_errors() {
    let region = SauRegion {
        base_address: 0x1000_0000,
        limit_address: 0x1000_FFFF,
        attribute: SauRegionAttribute::NonSecure,
    };
    assert_eq!(SAU::set_region(8, 8, region), Err(SauError::RegionNumberTooBig));
    assert_eq!(SAU::get_region(0, 0, 0, 0), Err(SauError::RegionNumberTooBig));
    let bad_base = SauRegion { base_address: 0x1000_0004, ..region };
    assert_eq!(SAU::set_region(8, 1, bad_base), Err(SauError::WrongBaseAddress));
    let bad_limit = SauRegion { limit_address: 0x1000_FFFE, ..region };
    assert_eq!(SAU::set_region(8, 1, bad_limit), Err(SauError::WrongLimitAddress));
}

#[test]
fn peripherals_are_taken_once() {
    let mut taken = false;
    assert!(Peripherals::take(&mut taken).is_some());
    assert!(taken);
    assert!(Peripherals::take(&mut taken).is_none());
    let _ = Peripherals::steal(&mut taken);
    assert!(taken);
}
