use cortex_m::cmse::{AccessType, TestTarget};
use cortex_m::ctxt::{Context, Local};
use cortex_m::delay::{Delay, DelayMsPlan, DelayPlan};
use cortex_m::exception::Exception;
use cortex_m::itm::{write_aligned, write_all, write_str, Aligned, StimWrite};
use cortex_m::mutex::CriticalSectionMutex;
use cortex_m::peripheral::syst::SystClkSource;
use cortex_m::peripheral::Peripherals;
use cortex_m::psp::Stack;
use cortex_m::register::primask::Primask;

#[test]
fn test_target_fields() {
    let tt = TestTarget::check(0xAB5F_1203, AccessType::NonSecure);
    assert_eq!(tt.as_u32(), 0xAB5F_1203);
    assert_eq!(tt.access_type(), AccessType::NonSecure);
    // bits 16..23 hold 0x5F: MRVALID, SRVALID, R, RW, NSR and S set; NSRW and IRVALID clear
    assert_eq!(tt.mpu_region(), Some(0x03));
    assert_eq!(tt.sau_region(), Some(0x12));
    assert!(tt.readable());
    assert!(tt.read_and_writable());
    assert!(tt.ns_readable());
    assert!(!tt.ns_read_and_writable());
    assert!(tt.secure());
    assert_eq!(tt.idau_region(), None);
    let tt = TestTarget::check(0xAB80_0000, AccessType::Current);
    assert_eq!(tt.idau_region(), Some(0xAB));
    assert_eq!(tt.mpu_region(), None);
    assert_eq!(tt.sau_region(), None);
    assert!(!tt.readable());
}

#[test]
fn test_target_range() {
    assert_eq!(TestTarget::range_end(0x1000, 0), None);
    assert_eq!(TestTarget::range_end(0x1000, 0x10), Some(0x100F));
    assert_eq!(TestTarget::range_end(usize::MAX, 2), None);
    // fits in one 32-byte line: the first response alone decides
    let tt = TestTarget::check_range(0x2000_0000, 32, AccessType::Current, 7, 9).unwrap();
    assert_eq!(tt.as_u32(), 7);
    // crosses a line: both responses must agree
    assert!(TestTarget::check_range(0x2000_0010, 32, AccessType::Current, 7, 9).is_none());
    let tt = TestTarget::check_range(0x2000_0010, 32, AccessType::Unprivileged, 7, 7).unwrap();
    assert_eq!(tt.access_type(), AccessType::Unprivileged);
    assert!(TestTarget::check_range(0x2000_0000, 0, AccessType::Current, 7, 7).is_none());
}

#[test]
fn active_exception() {
    assert_eq!(Exception::active(0), None);
    assert_eq!(Exception::active(2), Some(Exception::NMI));
    assert_eq!(Exception::active(0xFFFF_FE0B), Some(Exception::SVCall));
    // VECTACTIVE is nine bits wide
    assert_eq!(Exception::active(256), Some(Exception::Interrupt(240)));
    assert_eq!(Exception::active(271), Some(Exception::Interrupt(255)));
    assert_eq!(Exception::active(272), Some(Exception::Reserved));
    assert_eq!(Exception::active(512), None);
    assert_eq!(Exception::active(15), Some(Exception::SysTick));
    assert_eq!(Exception::active(16 + 40), Some(Exception::Interrupt(40)));
    assert_eq!(Exception::active(12), Some(Exception::Reserved));
    assert_eq!(Exception::active(1), Some(Exception::Reserved));
}

#[test]
fn delay_plans() {
    let mut taken = false;
    let p = Peripherals::take(&mut taken).unwrap();
    let (delay, csr) = Delay::new(p.SYST, 8_000_000, 0);
    assert_eq!(csr, 4);
    assert_eq!(delay.delay_us(1000), DelayPlan { full_cycles: 0, reload: Some(7999) });
    assert_eq!(delay.delay_ns(1500), DelayPlan { full_cycles: 0, reload: Some(15) });
    assert_eq!(delay.delay_ns(1000), DelayPlan { full_cycles: 0, reload: Some(7) });
    assert_eq!(delay.delay_ms(1), DelayMsPlan { chunks: 0, last_us: 1000 });
    assert_eq!(delay.delay_ms(10_000_000), DelayMsPlan { chunks: 2, last_us: 1_410_066_000 });
    assert_eq!(delay.delay_ms(4_294_967 * 2), DelayMsPlan { chunks: 1, last_us: 4_294_967_000 });
    let syst = delay.free();
    let (delay, csr) = Delay::with_source(syst, 72_000_000, SystClkSource::External, 0xFF);
    assert_eq!(csr, 0xFB);
    assert_eq!(
        delay.delay_us(u32::MAX),
        DelayPlan { full_cycles: 18431, reload: Some(16_777_143) }
    );
    let (delay, _) = Delay::new(delay.free(), 1_000_000, 0);
    // a single tick is not waited
    assert_eq!(delay.delay_us(1), DelayPlan { full_cycles: 0, reload: None });
    assert_eq!(delay.delay_us(0), DelayPlan { full_cycles: 0, reload: None });
}

#[test]
fn itm_write_plans() {
    assert_eq!(
        write_all(0x2000_0001, &[1, 2, 3, 4, 5, 6, 7]),
        vec![StimWrite::U8(1), StimWrite::U16(0x0302), StimWrite::U32(0x0706_0504)]
    );
    assert_eq!(write_all(0x1000, &[1, 2, 3]), vec![StimWrite::U16(0x0201), StimWrite::U8(3)]);
    assert_eq!(write_all(0x1002, &[9]), vec![StimWrite::U8(9)]);
    assert_eq!(write_all(0x1003, &[]), vec![]);
    assert_eq!(
        write_all(0x1003, &[1, 2, 3, 4, 5, 6, 7, 8]),
        vec![
            StimWrite::U8(1),
            StimWrite::U32(0x0504_0302),
            StimWrite::U16(0x0706),
            StimWrite::U8(8),
        ]
    );
    assert_eq!(
        write_aligned(0x2000_0000, &Aligned(&[1u8, 2, 3, 4, 5][..])),
        vec![StimWrite::U32(0x0403_0201), StimWrite::U8(5)]
    );
    assert_eq!(write_str(0x3, "hi"), vec![StimWrite::U8(b'h'), StimWrite::U8(b'i')]);
}

fn carried(writes: &[StimWrite]) -> Vec<u8> {
    let mut bytes = Vec::new();
    for w in writes {
        match *w {
            StimWrite::U8(b) => bytes.push(b),
            StimWrite::U16(h) => bytes.extend_from_slice(&h.to_le_bytes()),
            StimWrite::U32(x) => bytes.extend_from_slice(&x.to_le_bytes()),
        }
    }
    bytes
}

#[test]
fn itm_writes_carry_the_buffer() {
    let buffer: Vec<u8> = (0u8..23).collect();
    for addr in 0x2000_0000usize..0x2000_0008 {
        for len in 0..buffer.len() {
            let writes = write_all(addr, &buffer[..len]);
            assert_eq!(carried(&writes), buffer[..len].to_vec());
        }
    }
}

#[test]
fn process_stack() {
    let mut stack = Stack::<16>::new();
    assert!(!stack.taken());
    let mut handle = stack.take_handle(0x2000_0000);
    assert!(stack.taken());
    assert_eq!(handle.bottom(), 0x2000_0000);
    assert_eq!(handle.top(), 0x2000_0040);
    let mut other = Stack::<4>::new();
    assert_eq!(other.take_handle(0x2000_0100).bottom() % 8, 0);
    let fresh: Stack<4> = Stack::default();
    assert!(!fresh.taken());
}

struct Token;

impl Context for Token {}

#[test]
fn local_and_mutex() {
    let mut local: Local<u32, Token> = Local::new(42);
    assert_eq!(*local.borrow(&Token), 42);
    let mut token = Token;
    *local.borrow_mut(&mut token) += 1;
    assert_eq!(*local.borrow(&token), 43);
    let mutex = CriticalSectionMutex::new(7u8);
    assert_eq!(mutex.into_inner(), 7);
}

#[test]
fn primask_bit() {
    assert!(Primask(0).is_active());
    assert!(!Primask(1).is_active());
    assert!(Primask(1).is_inactive());
}
