use cortex_m::peripheral::scb::{
    Exception, FpuAccessMode, PriorityGrouping, SystemHandler, VectActive,
};
use cortex_m::peripheral::{CBP, CPUID, SCB};
use cortex_m::peripheral::cpuid::CsselrCacheType;

#[test]
fn priority_grouping_round_trip() {
    let aircr = SCB::set_priority_grouping(PriorityGrouping::<4>::Prigroup5);
    assert_eq!(aircr, 0x05FA_0500);
    let grouping: PriorityGrouping<4> = SCB::get_priority_grouping(aircr);
    assert_eq!(grouping.value(), 5);
    // PRIGROUP sits in bits 8..10, whatever the other bits hold
    let grouping: PriorityGrouping<4> = SCB::get_priority_grouping(0xFA05_0207);
    assert_eq!(grouping.value(), 2);
}

#[test]
fn encode_decode_priority() {
    // 4 implemented bits, PRIGROUP 5: 2 preemption bits, 2 sub-priority bits
    let grouping = PriorityGrouping::<4>::Prigroup5;
    assert_eq!(grouping.encode_priority(3, 1), 0xD0);
    assert_eq!(grouping.decode_priority(0xD0), (3, 1));
    assert_eq!(grouping.encode_priority(0, 0), 0);
    assert_eq!(grouping.decode_priority(0xDF), (3, 1));
    // PRIGROUP 0: all 4 implemented bits are preemption priority
    let grouping = PriorityGrouping::<4>::Prigroup0;
    assert_eq!(grouping.encode_priority(15, 0), 0xF0);
    assert_eq!(grouping.decode_priority(0xF0), (15, 0));
    // PRIGROUP 7: no preemption bits, 3 implemented bits of sub-priority
    let grouping = PriorityGrouping::<3>::Prigroup7;
    assert_eq!(grouping.encode_priority(0, 5), 0xA0);
    assert_eq!(grouping.decode_priority(0xA0), (0, 5));
}

#[test]
fn sys_reset_request_keeps_prigroup() {
    assert_eq!(SCB::sys_reset_request(0xFA05_0712), 0x05FA_0704);
    assert_eq!(SCB::sys_reset_request(0), 0x05FA_0004);
}

#[test]
fn sleep_bits() {
    assert_eq!(SCB::set_sleepdeep(0), 0b100);
    assert_eq!(SCB::clear_sleepdeep(0xFF), 0xFB);
    assert_eq!(SCB::set_sleeponexit(0), 0b10);
    assert_eq!(SCB::clear_sleeponexit(0xFF), 0xFD);
}

#[test]
fn pending_bits() {
    assert!(SCB::is_pendsv_pending(1 << 28));
    assert!(!SCB::is_pendsv_pending(1 << 26));
    assert!(SCB::is_pendst_pending(1 << 26));
    assert!(!SCB::is_pendst_pending(0));
}

#[test]
fn cache_enable_bits() {
    assert!(SCB::icache_enabled(1 << 17));
    assert!(!SCB::icache_enabled(1 << 16));
    assert!(SCB::dcache_enabled(1 << 16));
    assert_eq!(SCB::enable_icache(1), Some((1 << 17) | 1));
    assert_eq!(SCB::enable_icache(1 << 17), None);
    assert_eq!(SCB::enable_dcache(2), Some((1 << 16) | 2));
    assert_eq!(SCB::enable_dcache(1 << 16), None);
    assert_eq!(SCB::disable_icache((1 << 17) | 1), Some(1));
    assert_eq!(SCB::disable_icache(1), None);
    assert_eq!(SCB::disable_dcache((1 << 16) | 2), Some(2));
    assert_eq!(SCB::disable_dcache(0), None);
}

#[test]
fn fpu_access_mode() {
    assert_eq!(SCB::fpu_access_mode(0x00F0_0000), FpuAccessMode::Enabled);
    assert_eq!(SCB::fpu_access_mode(0x0050_0000), FpuAccessMode::Privileged);
    assert_eq!(SCB::fpu_access_mode(0), FpuAccessMode::Disabled);
    assert_eq!(SCB::fpu_access_mode(0x00A0_0000), FpuAccessMode::Disabled);
    assert_eq!(SCB::set_fpu_access_mode(0xFF0F_FFFF, FpuAccessMode::Privileged), 0xFF5F_FFFF);
    assert_eq!(SCB::enable_fpu(0), 0x00F0_0000);
    assert_eq!(SCB::disable_fpu(0xFFFF_FFFF), 0xFF0F_FFFF);
    let cpacr = SCB::set_fpu_access_mode(0x1234_5678, FpuAccessMode::Enabled);
    assert_eq!(SCB::fpu_access_mode(cpacr), FpuAccessMode::Enabled);
}

#[test]
fn exception_irqn() {
    assert_eq!(Exception::NonMaskableInt.irqn(), -14);
    assert_eq!(Exception::SVCall.irqn(), -5);
    assert_eq!(Exception::SysTick.irqn(), -1);
}

#[test]
fn vect_active_from() {
    assert_eq!(VectActive::from(0), Some(VectActive::ThreadMode));
    assert_eq!(VectActive::from(1), None);
    assert_eq!(VectActive::from(8), None);
    assert_eq!(VectActive::from(15), Some(VectActive::Exception(Exception::SysTick)));
    assert_eq!(VectActive::from(16), Some(VectActive::Interrupt { irqn: 0 }));
    assert_eq!(VectActive::from(511), Some(VectActive::Interrupt { irqn: 495 }));
    assert_eq!(VectActive::from(512), None);
}

#[test]
fn vect_active_of_icsr() {
    assert_eq!(SCB::vect_active(0x0000_0A0B), VectActive::Exception(Exception::SVCall));
    assert_eq!(SCB::vect_active(0xFFFF_FE2F), VectActive::Interrupt { irqn: 31 });
    assert_eq!(SCB::vect_active(0), VectActive::ThreadMode);
    for n in [0u16, 2, 3, 11, 15, 16, 100, 511] {
        assert_eq!(Some(SCB::vect_active(n as u32)), VectActive::from(n));
    }
}

#[test]
fn system_handler_priority() {
    let mut shpr = [0u8; 12];
    SCB::set_priority(&mut shpr, SystemHandler::SysTick, 0xF0);
    SCB::set_priority(&mut shpr, SystemHandler::MemoryManagement, 0x20);
    assert_eq!(shpr[11], 0xF0);
    assert_eq!(shpr[0], 0x20);
    assert_eq!(SCB::get_priority(&shpr, SystemHandler::SysTick), 0xF0);
    assert_eq!(SCB::get_priority(&shpr, SystemHandler::PendSV), 0);
}

#[test]
fn exception_enable_bits() {
    assert_eq!(SCB::enable(0, Exception::MemoryManagement), 1 << 16);
    assert_eq!(SCB::enable(0, Exception::UsageFault), 1 << 18);
    assert_eq!(SCB::enable(0, Exception::SysTick), 0);
    assert_eq!(SCB::disable(0xFFFF_FFFF, Exception::BusFault), !(1u32 << 17));
    assert!(SCB::is_enabled(1 << 19, Exception::SecureFault));
    assert!(!SCB::is_enabled(0xFFFF_FFFF, Exception::PendSV));
}

#[test]
fn dcache_lines_by_address() {
    assert_eq!(SCB::invalidate_dcache_by_address(0x2000_0000, 64, 3), vec![0x2000_0000, 0x2000_0020]);
    assert_eq!(SCB::clean_dcache_by_address(0x2000_0005, 40, 3), vec![0x2000_0000, 0x2000_0020]);
    // every line that the range overlaps
    assert_eq!(SCB::clean_dcache_by_address(0x2000_001F, 2, 3), vec![0x2000_0000, 0x2000_0020]);
    assert_eq!(SCB::clean_dcache_by_address(0x2000_0000, 0, 3), Vec::<u32>::new());
    assert_eq!(SCB::clean_invalidate_dcache_by_address(0x2000_0040, 33), vec![0x2000_0040, 0x2000_0060]);
    // 64-byte lines
    assert_eq!(SCB::clean_dcache_by_address(0x2000_0000, 129, 4), vec![0x2000_0000, 0x2000_0040, 0x2000_0080]);
    let words = [0u32; 10];
    assert_eq!(SCB::clean_dcache_by_slice(&words, 0x2000_0010, 3), vec![0x2000_0000, 0x2000_0020]);
    let word = 0u64;
    assert_eq!(SCB::clean_dcache_by_ref(&word, 0x2000_0038, 3), vec![0x2000_0020]);
}

#[test]
fn dcache_lines_of_unaligned_objects() {
    // 8 bytes at 0x1C overlap the lines at 0 and 0x20
    let bytes = [0u8; 8];
    assert_eq!(SCB::clean_dcache_by_slice(&bytes, 0x1C, 3), vec![0, 0x20]);
    let word = 0u64;
    assert_eq!(SCB::clean_dcache_by_ref(&word, 0x1C, 3), vec![0, 0x20]);
    assert_eq!(SCB::clean_invalidate_dcache_by_address(0x1C, 8), vec![0, 0x20]);
    // the last line below 4 GiB
    assert_eq!(SCB::clean_dcache_by_address(0xFFFF_FFE0, 32, 3), vec![0xFFFF_FFE0]);
    assert_eq!(SCB::clean_dcache_by_address(0xFFFF_FFFF, 1, 3), vec![0xFFFF_FFE0]);
}

#[test]
fn dcache_invalidate_by_object() {
    let mut words = [7u32; 16];
    assert_eq!(SCB::invalidate_dcache_by_slice(&mut words, 0x2000_0040, 3), vec![0x2000_0040, 0x2000_0060]);
    assert_eq!(words, [7u32; 16]);
    let mut line = [1u8; 32];
    assert_eq!(SCB::invalidate_dcache_by_ref(&mut line, 0x2000_0000, 3), vec![0x2000_0000]);
    assert_eq!(line, [1u8; 32]);
}

#[test]
fn dcache_set_way_words() {
    // 2 sets, 2 ways
    let ccsidr = (1 << 13) | (1 << 3);
    let expected = vec![0, 0x4000_0000, 0x20, 0x4000_0020];
    assert_eq!(SCB::invalidate_dcache(ccsidr), expected);
    assert_eq!(SCB::clean_dcache(ccsidr), expected);
    assert_eq!(SCB::clean_invalidate_dcache(ccsidr), expected);
    assert_eq!(SCB::invalidate_dcache(0).len(), 1);
}

#[test]
fn cache_maintenance_words() {
    assert_eq!(CBP::dcisw(3, 1), 0x4000_0060);
    // the set is masked to 0..=3 and the way to 0..=511
    assert_eq!(CBP::dcisw(5, 2), 0x8000_0020);
    assert_eq!(CBP::dccsw(511, 3), 0xC000_0060);
    assert_eq!(CBP::dcisw(4, 0), CBP::dcisw(0, 0));
    assert_eq!(CBP::dccisw(512, 4), 0);
}

#[test]
fn cpuid_cache_fields() {
    assert_eq!(CPUID::select_cache(1, CsselrCacheType::Instruction), 0b11);
    assert_eq!(CPUID::select_cache(9, CsselrCacheType::DataOrUnified), 0b10);
    assert_eq!(CPUID::cache_num_sets_ways((127 << 13) | (3 << 3)), (128, 4));
    assert_eq!(CPUID::cache_dminline(0x8303_C003), 3);
}
