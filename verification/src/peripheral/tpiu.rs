//! Trace Port Interface Unit;
//!
//! *NOTE* Not available on Armv6-M.

use vstd::prelude::*;
use crate::peripheral::layout::{Slot, spec_offset, register_address};
use crate::bits::{bit_is_set, field, with_field, fits_at};
use crate::peripheral::TPIU;

verus! {

/// The available protocols for the trace output.
#[derive(Clone, Copy, Debug, PartialEq, Eq, Structural)]
pub enum TraceProtocol {
    /// Parallel trace port mode
    Parallel,
    /// Asynchronous SWO, using Manchester encoding
    AsyncSWOManchester,
    /// Asynchronous SWO, using NRZ encoding
    AsyncSWONRZ,
}

impl TraceProtocol {
    /// The TXMODE field value of this protocol.
    pub open spec fn txmode(self) -> u32 {
        match self {
            TraceProtocol::Parallel => 0b00,
            TraceProtocol::AsyncSWOManchester => 0b01,
            TraceProtocol::AsyncSWONRZ => 0b10,
        }
    }

    /// The TXMODE field value of this protocol.
    pub fn value(self) -> (r: u8)
        ensures
            r == self.txmode(),
    {
        match self {
            TraceProtocol::Parallel => 0b00,
            TraceProtocol::AsyncSWOManchester => 0b01,
            TraceProtocol::AsyncSWONRZ => 0b10,
        }
    }

    /// Tries to convert from a `TXMODE` field value. Fails if the set mode is
    /// unknown (and thus unpredictable).
    pub fn try_from(value: u8) -> (r: Result<Self, ()>)
        ensures
            r.is_ok() == (value < 3),
            r matches Ok(p) ==> p.txmode() == value,
    {
        match value {
            0b00 => Ok(TraceProtocol::Parallel),
            0b01 => Ok(TraceProtocol::AsyncSWOManchester),
            0b10 => Ok(TraceProtocol::AsyncSWONRZ),
            _ => Err(()),  // unknown and unpredictable mode
        }
    }
}

/// The SWO options supported by the TPIU.
#[derive(Clone, Copy, Debug, PartialEq, Eq, Structural)]
pub struct SWOSupports {
    /// Whether UART/NRZ encoding is supported for SWO.
    pub nrz_encoding: bool,
    /// Whether Manchester encoding is supported for SWO.
    pub manchester_encoding: bool,
    /// Whether parallel trace port operation is supported.
    pub parallel_operation: bool,
    /// The minimum implemented FIFO queue size of the TPIU for trace data.
    pub min_queue_size: u8,
}

/// SPPR with its TXMODE field set to `proto`.
pub open spec fn spec_set_trace_output_protocol(sppr: u32, proto: TraceProtocol) -> u32 {
    with_field(sppr, 0, 0x3, proto.txmode())
}

/// The trace output protocol that SPPR selects, `None` for the unknown TXMODE value.
pub open spec fn spec_trace_output_protocol(sppr: u32) -> Option<TraceProtocol> {
    let txmode = field(sppr, 0, 0x3);
    if txmode == 0 {
        Some(TraceProtocol::Parallel)
    } else if txmode == 1 {
        Some(TraceProtocol::AsyncSWOManchester)
    } else if txmode == 2 {
        Some(TraceProtocol::AsyncSWONRZ)
    } else {
        None
    }
}

/// The TXMODE encodings of the trace protocols: 0 for parallel trace port, 1 for SWO with
/// Manchester encoding, 2 for SWO with NRZ encoding; `set_trace_output_protocol` writes that value
/// in bits 1:0 of SPPR and leaves the other bits as they were.
pub proof fn lemma_trace_protocol_encodings(sppr: u32, proto: TraceProtocol)
    ensures
        TraceProtocol::Parallel.txmode() == 0,
        TraceProtocol::AsyncSWOManchester.txmode() == 1,
        TraceProtocol::AsyncSWONRZ.txmode() == 2,
        spec_set_trace_output_protocol(sppr, proto) & 0x3 == (match proto {
            TraceProtocol::Parallel => 0u32,
            TraceProtocol::AsyncSWOManchester => 1u32,
            TraceProtocol::AsyncSWONRZ => 2u32,
        }),
        crate::bits::same_outside(spec_set_trace_output_protocol(sppr, proto), sppr, 0x3),
{
    crate::bits::lemma_fits_at_facts();
    crate::bits::lemma_with_field(sppr, 0, 0x3, proto.txmode());
    assert(0u32 & 0x3 == 0 && 1u32 & 0x3 == 1 && 2u32 & 0x3 == 2 && (0x3u32 << 0u32) == 0x3)
        by (bit_vector);
    let x = spec_set_trace_output_protocol(sppr, proto);
    assert(x >> 0u32 == x) by (bit_vector);
}

/// Reading the trace output protocol after setting it gives the protocol that was set.
pub proof fn lemma_trace_output_protocol_read_back(sppr: u32, proto: TraceProtocol)
    ensures
        spec_trace_output_protocol(spec_set_trace_output_protocol(sppr, proto)) == Some(proto),
{
    crate::bits::lemma_fits_at_facts();
    assert(proto.txmode() < 3);
    vstd::arithmetic::power2::lemma2_to64();
    crate::bits::lemma_and_low_mask(proto.txmode(), 2, 0x3);
    crate::bits::lemma_with_field(sppr, 0, 0x3, proto.txmode());
    assert(proto.txmode() & 0x3 == proto.txmode());
}

impl TPIU {
    /// The ACPR value (prescaler) for a wanted baud rate of the Serial Wire Output (SWO) in
    /// relation to a given asynchronous reference clock rate.
    pub fn set_swo_baud_rate(ref_clk_rate: u32, baud_rate: u32) -> (r: u32)
        requires
            baud_rate != 0,
            ref_clk_rate / baud_rate >= 1,
        ensures
            r == ref_clk_rate / baud_rate - 1,
    {
        (ref_clk_rate / baud_rate) - 1
    }

    /// The used protocol for the trace output, from `sppr` (SPPR). Return `None` if an
    /// unknown (and thus unpredicable mode) is configured by means
    /// other than `set_trace_output_protocol`.
    pub fn trace_output_protocol(sppr: u32) -> (r: Option<TraceProtocol>)
        ensures
            r == spec_trace_output_protocol(sppr),
    {
        let txmode = (sppr >> 0u32) & 0x3;
        proof {
            crate::bits::lemma_field_bound(sppr, 0, 0x3);
        }
        match TraceProtocol::try_from(txmode as u8) {
            Ok(p) => Some(p),
            Err(()) => None,
        }
    }

    /// The SPPR value that sets the used protocol for the trace output.
    pub fn set_trace_output_protocol(sppr: u32, proto: TraceProtocol) -> (r: u32)
        ensures
            r == spec_set_trace_output_protocol(sppr, proto),
    {
        proof {
            crate::bits::lemma_fits_at_facts();
        }
        crate::bits::set_field(sppr, 0, 0x3, proto.value() as u32)
    }

    /// The FFCR value that sets whether to enable the formatter. If disabled, only ITM and DWT
    /// trace sources are passed through. Data from the ETM is discarded.
    pub fn enable_continuous_formatting(ffcr: u32, bit: bool) -> (r: u32)
        ensures
            r == (if bit { ffcr | (1u32 << 1u32) } else { ffcr & !(1u32 << 1u32) }),
    {
        if bit {
            ffcr | (1u32 << 1u32)
        } else {
            ffcr & !(1u32 << 1u32)
        }
    }

    /// The supported trace output modes and the minimum size of the TPIU FIFO queue for trace
    /// data, from `type_` (TYPE).
    pub fn swo_supports(type_: u32) -> (r: SWOSupports)
        ensures
            r.nrz_encoding == bit_is_set(type_, 11),
            r.manchester_encoding == bit_is_set(type_, 10),
            r.parallel_operation == !bit_is_set(type_, 9),
            r.min_queue_size == field(type_, 6, 0x7),
    {
        let fifosz = (type_ >> 6u32) & 0x7;
        proof {
            crate::bits::lemma_field_bound(type_, 6, 0x7);
        }
        SWOSupports {
            nrz_encoding: type_ & (1u32 << 11u32) != 0,
            manchester_encoding: type_ & (1u32 << 10u32) != 0,
            parallel_operation: type_ & (1u32 << 9u32) == 0,
            min_queue_size: fifosz as u8,
        }
    }
}

/// The registers of the TPIU block.
#[derive(Clone, Copy, Debug, PartialEq, Eq, Structural)]
pub enum Register {
    /// Supported Parallel Port Sizes
    Sspsr,
    /// Current Parallel Port Size
    Cspsr,
    /// Asynchronous Clock Prescaler
    Acpr,
    /// Selected Pin Control
    Sppr,
    /// Formatter and Flush Control
    Ffcr,
    /// Lock Access
    Lar,
    /// Lock Status
    Lsr,
    /// Device Type
    Type,
}

/// The TPIU register block, slot by slot, reserved runs included.
pub open spec fn spec_layout() -> Seq<Slot> {
    seq![
        Slot { size: 4, count: 1 },
        Slot { size: 4, count: 1 },
        Slot { size: 4, count: 2 },
        Slot { size: 4, count: 1 },
        Slot { size: 4, count: 55 },
        Slot { size: 4, count: 1 },
        Slot { size: 4, count: 132 },
        Slot { size: 4, count: 1 },
        Slot { size: 4, count: 810 },
        Slot { size: 4, count: 1 },
        Slot { size: 4, count: 1 },
        Slot { size: 4, count: 4 },
        Slot { size: 4, count: 1 },
    ]
}

/// The slot of a register.
pub open spec fn spec_slot(register: Register) -> int {
    match register {
        Register::Sspsr => 0,
        Register::Cspsr => 1,
        Register::Acpr => 3,
        Register::Sppr => 5,
        Register::Ffcr => 7,
        Register::Lar => 9,
        Register::Lsr => 10,
        Register::Type => 12,
    }
}

/// The address of register `index` of `register` (`index` is 0 for a single register).
pub fn address(register: Register, index: u32) -> (r: u32)
    requires
        index < spec_layout()[spec_slot(register)].count,
    ensures
        r == TPIU::PTR + spec_offset(spec_layout(), spec_slot(register))
            + index * spec_layout()[spec_slot(register)].size,
{
    let slots = vec![
        Slot { size: 4, count: 1 },
        Slot { size: 4, count: 1 },
        Slot { size: 4, count: 2 },
        Slot { size: 4, count: 1 },
        Slot { size: 4, count: 55 },
        Slot { size: 4, count: 1 },
        Slot { size: 4, count: 132 },
        Slot { size: 4, count: 1 },
        Slot { size: 4, count: 810 },
        Slot { size: 4, count: 1 },
        Slot { size: 4, count: 1 },
        Slot { size: 4, count: 4 },
        Slot { size: 4, count: 1 },
    ];
    assert(slots@ =~= spec_layout());
    let k: usize = match register {
        Register::Sspsr => 0,
        Register::Cspsr => 1,
        Register::Acpr => 3,
        Register::Sppr => 5,
        Register::Ffcr => 7,
        Register::Lar => 9,
        Register::Lsr => 10,
        Register::Type => 12,
    };
    register_address(TPIU::PTR, slots.as_slice(), k, index, 0)
}

} // verus!
