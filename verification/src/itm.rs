//! Instrumentation Trace Macrocell
//!
//! **NOTE** This module is only available on ARMv7-M and newer.
//!
//! A buffer goes out through a stimulus port as a sequence of 8-, 16- and 32-bit writes, each
//! naturally aligned: the functions here compute that sequence from the address of the buffer
//! and its bytes.

use vstd::prelude::*;
use vstd::string::StringSliceAdditionalSpecFns;
use vstd::arithmetic::div_mod::lemma_fundamental_div_mod_converse;

verus! {

/// One write to a stimulus port.
#[derive(Debug, Copy, Clone, PartialEq, Eq, Structural)]
pub enum StimWrite {
    /// An `u8` payload
    U8(u8),
    /// An `u16` payload
    U16(u16),
    /// An `u32` payload
    U32(u32),
}

/// Data that sits on a 4-Byte boundary.
///
/// ITM transfers are most efficient when the data is 4-Byte-aligned. The alignment itself is an
/// address property: `write_aligned` takes the address and requires it.
pub struct Aligned<T>(pub T);

/// The size of the next write at address `addr` with `len` bytes left: the largest of 4, 2 and
/// 1 that is a multiple of the address and fits in what is left.
pub open spec fn chunk_size(addr: int, len: int) -> int {
    if len >= 4 && addr % 4 == 0 {
        4
    } else if len >= 2 && addr % 2 == 0 {
        2
    } else {
        1
    }
}

/// The write that carries the bytes `bs` (1, 2 or 4 of them), little-endian.
pub open spec fn write_of(bs: Seq<u8>) -> StimWrite {
    if bs.len() == 1 {
        StimWrite::U8(bs[0])
    } else if bs.len() == 2 {
        StimWrite::U16((bs[0] + 256 * bs[1]) as u16)
    } else {
        StimWrite::U32((bs[0] + 256 * bs[1] + 65536 * bs[2] + 16777216 * bs[3]) as u32)
    }
}

/// The writes that carry `bytes` from address `addr`: at each point the largest naturally
/// aligned write that fits.
pub open spec fn spec_write_plan(addr: int, bytes: Seq<u8>) -> Seq<StimWrite>
    decreases bytes.len(),
{
    if bytes.len() == 0 {
        Seq::empty()
    } else {
        let n = chunk_size(addr, bytes.len() as int);
        seq![write_of(bytes.take(n))] + spec_write_plan(addr + n, bytes.skip(n))
    }
}

/// The bytes that a write puts on the port, in order (little-endian).
pub open spec fn write_bytes(w: StimWrite) -> Seq<u8> {
    match w {
        StimWrite::U8(b) => seq![b],
        StimWrite::U16(h) => seq![(h % 256) as u8, (h / 256) as u8],
        StimWrite::U32(x) => seq![
            (x % 256) as u8,
            (x / 256 % 256) as u8,
            (x / 65536 % 256) as u8,
            (x / 16777216) as u8,
        ],
    }
}

/// The bytes that a sequence of writes puts on the port, in order.
pub open spec fn carried(ws: Seq<StimWrite>) -> Seq<u8>
    decreases ws.len(),
{
    if ws.len() == 0 {
        Seq::empty()
    } else {
        write_bytes(ws[0]) + carried(ws.skip(1))
    }
}

proof fn lemma_write_of_bytes(bs: Seq<u8>)
    requires
        bs.len() == 1 || bs.len() == 2 || bs.len() == 4,
    ensures
        write_bytes(write_of(bs)) == bs,
{
    if bs.len() == 2 {
        let (b0, b1) = (bs[0] as int, bs[1] as int);
        lemma_fundamental_div_mod_converse(b0 + 256 * b1, 256, b1, b0);
        assert(write_bytes(write_of(bs)) =~= bs);
    } else if bs.len() == 4 {
        let (b0, b1, b2, b3) = (bs[0] as int, bs[1] as int, bs[2] as int, bs[3] as int);
        let x = b0 + 256 * b1 + 65536 * b2 + 16777216 * b3;
        lemma_fundamental_div_mod_converse(x, 256, b1 + 256 * b2 + 65536 * b3, b0);
        lemma_fundamental_div_mod_converse(b1 + 256 * b2 + 65536 * b3, 256, b2 + 256 * b3, b1);
        lemma_fundamental_div_mod_converse(x, 65536, b2 + 256 * b3, b0 + 256 * b1);
        lemma_fundamental_div_mod_converse(b2 + 256 * b3, 256, b3, b2);
        lemma_fundamental_div_mod_converse(x, 16777216, b3, b0 + 256 * b1 + 65536 * b2);
        assert(write_bytes(write_of(bs)) =~= bs);
    } else {
        assert(write_bytes(write_of(bs)) =~= bs);
    }
}

/// The writes of a buffer put exactly its bytes on the port, in order, wherever the buffer is.
pub proof fn lemma_write_plan_carries(addr: int, bytes: Seq<u8>)
    ensures
        carried(spec_write_plan(addr, bytes)) == bytes,
    decreases bytes.len(),
{
    if bytes.len() > 0 {
        let n = chunk_size(addr, bytes.len() as int);
        let rest = spec_write_plan(addr + n, bytes.skip(n));
        let plan = spec_write_plan(addr, bytes);
        lemma_write_plan_carries(addr + n, bytes.skip(n));
        lemma_write_of_bytes(bytes.take(n));
        assert(plan.skip(1) =~= rest);
        assert(bytes =~= bytes.take(n) + bytes.skip(n));
    }
}

/// A word-aligned buffer whose length is a multiple of four goes out as words only, one per four
/// bytes, each carrying its four bytes little-endian.
pub proof fn lemma_aligned_buffer_words(addr: int, bytes: Seq<u8>, i: int)
    requires
        addr % 4 == 0,
        bytes.len() % 4 == 0,
        0 <= i < bytes.len() / 4,
    ensures
        spec_write_plan(addr, bytes).len() == bytes.len() / 4,
        spec_write_plan(addr, bytes)[i] == StimWrite::U32(
            (bytes[4 * i] + 256 * bytes[4 * i + 1] + 65536 * bytes[4 * i + 2] + 16777216 * bytes[4 * i + 3]) as u32,
        ),
    decreases bytes.len(),
{
    let rest = bytes.skip(4);
    assert(chunk_size(addr, bytes.len() as int) == 4);
    if bytes.len() > 4 {
        if i > 0 {
            lemma_aligned_buffer_words(addr + 4, rest, i - 1);
            assert(rest[4 * (i - 1)] == bytes[4 * i]);
            assert(rest[4 * (i - 1) + 1] == bytes[4 * i + 1]);
            assert(rest[4 * (i - 1) + 2] == bytes[4 * i + 2]);
            assert(rest[4 * (i - 1) + 3] == bytes[4 * i + 3]);
        } else {
            lemma_aligned_buffer_words(addr + 4, rest, 0);
        }
    } else {
        assert(rest.len() == 0);
        assert(spec_write_plan(addr + 4, rest) =~= Seq::<StimWrite>::empty());
    }
}

/// The plan from `addr` after one more write, for the bytes from `pos` on.
proof fn lemma_plan_step(addr: int, bytes: Seq<u8>, pos: int)
    requires
        0 <= pos < bytes.len(),
    ensures
        ({
            let n = chunk_size(addr + pos, bytes.len() - pos);
            &&& pos + n <= bytes.len()
            &&& spec_write_plan(addr + pos, bytes.skip(pos))
                == seq![write_of(bytes.subrange(pos, pos + n))] + spec_write_plan(addr + pos + n, bytes.skip(pos + n))
        }),
{
    let n = chunk_size(addr + pos, bytes.len() - pos);
    assert(bytes.skip(pos).take(n) =~= bytes.subrange(pos, pos + n));
    assert(bytes.skip(pos).skip(n) =~= bytes.skip(pos + n));
}

/// Appends the write that carries `buffer[pos..pos + n]` (n is 1, 2 or 4).
fn push_write(writes: &mut Vec<StimWrite>, buffer: &[u8], pos: usize, n: usize)
    requires
        n == 1 || n == 2 || n == 4,
        pos + n <= buffer@.len(),
    ensures
        final(writes)@ == old(writes)@.push(write_of(buffer@.subrange(pos as int, pos + n))),
{
    let w = if n == 1 {
        StimWrite::U8(buffer[pos])
    } else if n == 2 {
        StimWrite::U16(buffer[pos] as u16 + (buffer[pos + 1] as u16) * 256)
    } else {
        StimWrite::U32(
            buffer[pos] as u32 + (buffer[pos + 1] as u32) * 256 + (buffer[pos + 2] as u32) * 65536
                + (buffer[pos + 3] as u32) * 16777216,
        )
    };
    writes.push(w);
    proof {
        let bs = buffer@.subrange(pos as int, pos + n);
        assert(w == write_of(bs));
    }
}

/// Appends the writes that carry `buffer[pos..]`, which starts 4-byte aligned: words, then a
/// half-word if at least 2 bytes are left, then a byte if 1 is left.
fn write_aligned_impl(writes: &mut Vec<StimWrite>, buffer: &[u8], pos: usize, Ghost(addr): Ghost<int>)
    requires
        pos <= buffer@.len(),
        (addr + pos) % 4 == 0,
    ensures
        final(writes)@ == old(writes)@ + spec_write_plan(addr + pos, buffer@.skip(pos as int)),
{
    let len = buffer.len() - pos;
    if len == 0 {
        assert(spec_write_plan(addr + pos, buffer@.skip(pos as int)) =~= Seq::<StimWrite>::empty());
        assert(writes@ =~= old(writes)@ + spec_write_plan(addr + pos, buffer@.skip(pos as int)));
        return;
    }

    let split = len - len % 4;
    let end_words = pos + split;
    let mut p = pos;
    while p < end_words
        invariant
            pos <= p <= end_words,
            end_words <= buffer@.len(),
            (end_words - p) % 4 == 0,
            (addr + p) % 4 == 0,
            buffer@.len() - end_words < 4,
            old(writes)@ + spec_write_plan(addr + pos, buffer@.skip(pos as int))
                == writes@ + spec_write_plan(addr + p, buffer@.skip(p as int)),
        decreases end_words - p,
    {
        proof {
            lemma_plan_step(addr, buffer@, p as int);
        }
        push_write(writes, buffer, p, 4);
        p = p + 4;
        proof {
            assert(old(writes)@ + spec_write_plan(addr + pos, buffer@.skip(pos as int))
                =~= writes@ + spec_write_plan(addr + p, buffer@.skip(p as int)));
        }
    }

    // 3 bytes or less left
    let mut left = buffer.len() - p;

    // at least 2 bytes left
    if left > 1 {
        proof {
            lemma_plan_step(addr, buffer@, p as int);
        }
        push_write(writes, buffer, p, 2);
        p = p + 2;
        left = left - 2;
        proof {
            assert(old(writes)@ + spec_write_plan(addr + pos, buffer@.skip(pos as int))
                =~= writes@ + spec_write_plan(addr + p, buffer@.skip(p as int)));
        }
    }

    // final byte
    if left == 1 {
        proof {
            lemma_plan_step(addr, buffer@, p as int);
        }
        push_write(writes, buffer, p, 1);
        p = p + 1;
        proof {
            assert(old(writes)@ + spec_write_plan(addr + pos, buffer@.skip(pos as int))
                =~= writes@ + spec_write_plan(addr + p, buffer@.skip(p as int)));
        }
    }
    assert(spec_write_plan(addr + p, buffer@.skip(p as int)) =~= Seq::<StimWrite>::empty());
    assert(writes@ =~= old(writes)@ + spec_write_plan(addr + pos, buffer@.skip(pos as int)));
}

/// The writes that put `buffer`, which is at address `addr`, on an ITM port: a byte first if
/// the address is odd, then a half-word if the address is 2 past a multiple of 4, then words,
/// then at most a half-word and a byte.
#[verifier::spinoff_prover]
pub fn write_all(addr: usize, buffer: &[u8]) -> (r: Vec<StimWrite>)
    ensures
        r@ == spec_write_plan(addr as int, buffer@),
{
    let mut writes: Vec<StimWrite> = Vec::new();
    let len = buffer.len();

    if len == 0 {
        assert(writes@ =~= spec_write_plan(addr as int, buffer@));
        return writes;
    }
    proof {
        assert(buffer@.skip(0) =~= buffer@);
    }

    let mut pos: usize = 0;
    let misalign = addr % 4;

    // 0x01 OR 0x03
    if addr % 2 == 1 {
        proof {
            lemma_plan_step(addr as int, buffer@, 0);
        }
        push_write(&mut writes, buffer, 0, 1);
        pos = 1;
    }
    assert(writes@ + spec_write_plan(addr + pos, buffer@.skip(pos as int))
        =~= spec_write_plan(addr as int, buffer@));

    // 0x02
    if (misalign + pos) % 4 == 2 {
        if len - pos > 1 {
            // at least 2 bytes
            proof {
                lemma_plan_step(addr as int, buffer@, pos as int);
            }
            push_write(&mut writes, buffer, pos, 2);
            pos = pos + 2;
            assert(writes@ + spec_write_plan(addr + pos, buffer@.skip(pos as int))
                =~= spec_write_plan(addr as int, buffer@));
        } else {
            if len - pos == 1 {
                // last byte
                proof {
                    lemma_plan_step(addr as int, buffer@, pos as int);
                }
                push_write(&mut writes, buffer, pos, 1);
                pos = pos + 1;
            }
            assert(spec_write_plan(addr + pos, buffer@.skip(pos as int)) =~= Seq::<StimWrite>::empty());
            assert(writes@ =~= spec_write_plan(addr as int, buffer@));
            return writes;
        }
    }

    // The remaining data is 4-byte aligned, but might not be a multiple of 4 bytes
    write_aligned_impl(&mut writes, buffer, pos, Ghost(addr as int));
    assert(writes@ =~= spec_write_plan(addr as int, buffer@));
    writes
}

/// The writes that put the 4-byte aligned `buffer`, which is at address `addr`, on an ITM port.
pub fn write_aligned(addr: usize, buffer: &Aligned<&[u8]>) -> (r: Vec<StimWrite>)
    requires
        addr % 4 == 0,
    ensures
        r@ == spec_write_plan(addr as int, buffer.0@),
{
    let mut writes: Vec<StimWrite> = Vec::new();
    proof {
        assert(buffer.0@.skip(0) =~= buffer.0@);
    }
    write_aligned_impl(&mut writes, buffer.0, 0, Ghost(addr as int));
    assert(writes@ =~= spec_write_plan(addr as int, buffer.0@));
    writes
}

/// The writes that put `string`, which is at address `addr`, on an ITM port
pub fn write_str(addr: usize, string: &str) -> (r: Vec<StimWrite>)
    ensures
        r@ == spec_write_plan(addr as int, string.spec_bytes()),
{
    write_all(addr, string.as_bytes())
}

} // verus!
