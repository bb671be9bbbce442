use vstd::prelude::*;

verus! {

/// Relation between the byte order of a capture container and the byte order
/// this library assumes for its own reads and writes.
///
/// One mapping governs both cursors at every width: `Identical` is decoded
/// and encoded big-endian, `Swapped` little-endian. Bytes written under a
/// selector therefore read back unchanged under the same selector.
/// `read_u16_at` and `write_u16_bytes` (and their wider siblings) are the
/// exact statements of the convention.
#[derive(Copy, Clone, Eq, PartialEq, Ord, PartialOrd, Hash, Debug, Structural)]
pub enum Endianness {
    /// Capture has the same endianness as the current machine
    Identical,
    /// Capture has the inverse of the endianness of the current machine
    Swapped,
}

/// Value of the two bytes at `i` decoded big-endian.
pub open spec fn be_u16_at(b: Seq<u8>, i: int) -> u16 {
    (b[i] * 0x100 + b[i + 1]) as u16
}

/// Value of the two bytes at `i` decoded little-endian.
pub open spec fn le_u16_at(b: Seq<u8>, i: int) -> u16 {
    (b[i + 1] * 0x100 + b[i]) as u16
}

/// Value of the four bytes at `i` decoded big-endian.
pub open spec fn be_u32_at(b: Seq<u8>, i: int) -> u32 {
    (b[i] * 0x100_0000 + b[i + 1] * 0x1_0000 + b[i + 2] * 0x100 + b[i + 3]) as u32
}

/// Value of the four bytes at `i` decoded little-endian.
pub open spec fn le_u32_at(b: Seq<u8>, i: int) -> u32 {
    (b[i + 3] * 0x100_0000 + b[i + 2] * 0x1_0000 + b[i + 1] * 0x100 + b[i]) as u32
}

/// Value of the eight bytes at `i` decoded big-endian.
pub open spec fn be_u64_at(b: Seq<u8>, i: int) -> u64 {
    (be_u32_at(b, i) * 0x1_0000_0000 + be_u32_at(b, i + 4)) as u64
}

/// Value of the eight bytes at `i` decoded little-endian.
pub open spec fn le_u64_at(b: Seq<u8>, i: int) -> u64 {
    (le_u32_at(b, i + 4) * 0x1_0000_0000 + le_u32_at(b, i)) as u64
}

/// Value of the sixteen bytes at `i` decoded big-endian.
pub open spec fn be_u128_at(b: Seq<u8>, i: int) -> u128 {
    (be_u64_at(b, i) * 0x1_0000_0000_0000_0000 + be_u64_at(b, i + 8)) as u128
}

/// Value of the sixteen bytes at `i` decoded little-endian.
pub open spec fn le_u128_at(b: Seq<u8>, i: int) -> u128 {
    (le_u64_at(b, i + 8) * 0x1_0000_0000_0000_0000 + le_u64_at(b, i)) as u128
}

/// What the read cursor yields for a 16-bit read at `i` under selector `e`.
pub open spec fn read_u16_at(e: Endianness, b: Seq<u8>, i: int) -> u16 {
    match e {
        Endianness::Identical => be_u16_at(b, i),
        Endianness::Swapped => le_u16_at(b, i),
    }
}

/// What the read cursor yields for a 32-bit read at `i` under selector `e`.
pub open spec fn read_u32_at(e: Endianness, b: Seq<u8>, i: int) -> u32 {
    match e {
        Endianness::Identical => be_u32_at(b, i),
        Endianness::Swapped => le_u32_at(b, i),
    }
}

/// What the read cursor yields for a 64-bit read at `i` under selector `e`.
pub open spec fn read_u64_at(e: Endianness, b: Seq<u8>, i: int) -> u64 {
    match e {
        Endianness::Identical => be_u64_at(b, i),
        Endianness::Swapped => le_u64_at(b, i),
    }
}

/// What the read cursor yields for a 128-bit read at `i` under selector `e`.
pub open spec fn read_u128_at(e: Endianness, b: Seq<u8>, i: int) -> u128 {
    match e {
        Endianness::Identical => be_u128_at(b, i),
        Endianness::Swapped => le_u128_at(b, i),
    }
}

/// The two bytes of `v` in little-endian order.
pub open spec fn le_u16_bytes(v: u16) -> Seq<u8> {
    seq![(v % 0x100) as u8, (v / 0x100) as u8]
}

/// The two bytes of `v` in big-endian order.
pub open spec fn be_u16_bytes(v: u16) -> Seq<u8> {
    seq![(v / 0x100) as u8, (v % 0x100) as u8]
}

/// The four bytes of `v` in little-endian order.
pub open spec fn le_u32_bytes(v: u32) -> Seq<u8> {
    seq![
        (v % 0x100) as u8,
        ((v / 0x100) % 0x100) as u8,
        ((v / 0x1_0000) % 0x100) as u8,
        (v / 0x100_0000) as u8,
    ]
}

/// The four bytes of `v` in big-endian order.
pub open spec fn be_u32_bytes(v: u32) -> Seq<u8> {
    seq![
        (v / 0x100_0000) as u8,
        ((v / 0x1_0000) % 0x100) as u8,
        ((v / 0x100) % 0x100) as u8,
        (v % 0x100) as u8,
    ]
}

/// The eight bytes of `v` in little-endian order.
pub open spec fn le_u64_bytes(v: u64) -> Seq<u8> {
    le_u32_bytes((v % 0x1_0000_0000) as u32) + le_u32_bytes((v / 0x1_0000_0000) as u32)
}

/// The eight bytes of `v` in big-endian order.
pub open spec fn be_u64_bytes(v: u64) -> Seq<u8> {
    be_u32_bytes((v / 0x1_0000_0000) as u32) + be_u32_bytes((v % 0x1_0000_0000) as u32)
}

/// The sixteen bytes of `v` in little-endian order.
pub open spec fn le_u128_bytes(v: u128) -> Seq<u8> {
    le_u64_bytes((v % 0x1_0000_0000_0000_0000) as u64)
        + le_u64_bytes((v / 0x1_0000_0000_0000_0000) as u64)
}

/// The sixteen bytes of `v` in big-endian order.
pub open spec fn be_u128_bytes(v: u128) -> Seq<u8> {
    be_u64_bytes((v / 0x1_0000_0000_0000_0000) as u64)
        + be_u64_bytes((v % 0x1_0000_0000_0000_0000) as u64)
}

/// What the write cursor emits for a 16-bit write under selector `e`.
pub open spec fn write_u16_bytes(e: Endianness, v: u16) -> Seq<u8> {
    match e {
        Endianness::Identical => be_u16_bytes(v),
        Endianness::Swapped => le_u16_bytes(v),
    }
}

/// What the write cursor emits for a 32-bit write under selector `e`.
pub open spec fn write_u32_bytes(e: Endianness, v: u32) -> Seq<u8> {
    match e {
        Endianness::Identical => be_u32_bytes(v),
        Endianness::Swapped => le_u32_bytes(v),
    }
}

/// What the write cursor emits for a 64-bit write under selector `e`.
pub open spec fn write_u64_bytes(e: Endianness, v: u64) -> Seq<u8> {
    match e {
        Endianness::Identical => be_u64_bytes(v),
        Endianness::Swapped => le_u64_bytes(v),
    }
}

/// What the write cursor emits for a 128-bit write under selector `e`.
pub open spec fn write_u128_bytes(e: Endianness, v: u128) -> Seq<u8> {
    match e {
        Endianness::Identical => be_u128_bytes(v),
        Endianness::Swapped => le_u128_bytes(v),
    }
}

/// `n` zero bytes.
pub open spec fn zero_bytes(n: int) -> Seq<u8> {
    Seq::new(n as nat, |i: int| 0u8)
}

/// A 16-bit value whose written bytes sit at offset `i` of a larger buffer
/// reads back unchanged from that offset under the same selector.
pub proof fn lemma_write_read_u16_at(e: Endianness, b: Seq<u8>, i: int, v: u16)
    requires
        0 <= i,
        i + 2 <= b.len(),
        b[i] == write_u16_bytes(e, v)[0],
        b[i + 1] == write_u16_bytes(e, v)[1],
    ensures
        read_u16_at(e, b, i) == v,
{
    assert(v == v / 0x100 * 0x100 + v % 0x100);
}

/// A 32-bit value whose written bytes sit at offset `i` of a larger buffer
/// reads back unchanged from that offset under the same selector.
pub proof fn lemma_write_read_u32_at(e: Endianness, b: Seq<u8>, i: int, v: u32)
    requires
        0 <= i,
        i + 4 <= b.len(),
        b[i] == write_u32_bytes(e, v)[0],
        b[i + 1] == write_u32_bytes(e, v)[1],
        b[i + 2] == write_u32_bytes(e, v)[2],
        b[i + 3] == write_u32_bytes(e, v)[3],
    ensures
        read_u32_at(e, b, i) == v,
{
    assert(v == v / 0x100_0000 * 0x100_0000 + (v / 0x1_0000) % 0x100 * 0x1_0000 + (v / 0x100)
        % 0x100 * 0x100 + v % 0x100) by (bit_vector);
}

/// A read-only cursor over a borrowed byte buffer that decodes fixed-width
/// unsigned integers according to a byte-order selector.
///
/// Reads never run past the end of the buffer: every operation demands that
/// enough bytes remain, so callers check lengths before reading.
pub struct ReadOnlyEndiannessAwareCursor<'a> {
    buffer: &'a [u8],
    position: usize,
    endianness: Endianness,
}

impl<'a> ReadOnlyEndiannessAwareCursor<'a> {
    /// The whole underlying buffer.
    pub closed spec fn bytes(self) -> Seq<u8> {
        self.buffer@
    }

    /// How many bytes have been consumed so far.
    pub closed spec fn pos(self) -> int {
        self.position as int
    }

    /// The current byte-order selector.
    pub closed spec fn order(self) -> Endianness {
        self.endianness
    }

    /// How many bytes are left to read.
    pub open spec fn remaining(self) -> int {
        self.bytes().len() - self.pos()
    }

    /// The cursor never points past the end of its buffer.
    pub open spec fn wf(self) -> bool {
        0 <= self.pos() <= self.bytes().len()
    }

    pub fn new(buffer: &'a [u8], endianness: Endianness) -> (r: Self)
        ensures
            r.wf(),
            r.bytes() == buffer@,
            r.pos() == 0,
            r.order() == endianness,
    {
        Self { buffer, position: 0, endianness }
    }

    pub fn set_endianness(&mut self, endianness: Endianness)
        ensures
            final(self).bytes() == old(self).bytes(),
            final(self).pos() == old(self).pos(),
            final(self).order() == endianness,
    {
        self.endianness = endianness;
    }

    /// How many bytes are left to read.
    pub fn remaining_len(&self) -> (r: usize)
        requires
            self.wf(),
        ensures
            r == self.remaining(),
    {
        self.buffer.len() - self.position
    }

    /// Skips `advancement` bytes without interpreting them.
    pub fn advance(&mut self, advancement: usize)
        requires
            old(self).wf(),
            advancement <= old(self).remaining(),
        ensures
            final(self).wf(),
            final(self).bytes() == old(self).bytes(),
            final(self).order() == old(self).order(),
            final(self).pos() == old(self).pos() + advancement,
    {
        let len: usize = self.buffer.len();
        assert(self.position + advancement <= len);
        self.position = self.position + advancement;
    }

    pub fn get_u8(&mut self) -> (r: u8)
        requires
            old(self).wf(),
            old(self).remaining() >= 1,
        ensures
            final(self).wf(),
            final(self).bytes() == old(self).bytes(),
            final(self).order() == old(self).order(),
            final(self).pos() == old(self).pos() + 1,
            r == old(self).bytes()[old(self).pos()],
    {
        let r: u8 = self.buffer[self.position];
        self.position = self.position + 1;
        r
    }

    pub fn get_u16(&mut self) -> (r: u16)
        requires
            old(self).wf(),
            old(self).remaining() >= 2,
        ensures
            final(self).wf(),
            final(self).bytes() == old(self).bytes(),
            final(self).order() == old(self).order(),
            final(self).pos() == old(self).pos() + 2,
            r == read_u16_at(old(self).order(), old(self).bytes(), old(self).pos()),
    {
        let i: usize = self.position;
        let b0: u16 = self.buffer[i] as u16;
        let b1: u16 = self.buffer[i + 1] as u16;
        self.position = i + 2;
        match self.endianness {
            Endianness::Identical => b0 * 0x100 + b1,
            Endianness::Swapped => b1 * 0x100 + b0,
        }
    }

    pub fn get_u32(&mut self) -> (r: u32)
        requires
            old(self).wf(),
            old(self).remaining() >= 4,
        ensures
            final(self).wf(),
            final(self).bytes() == old(self).bytes(),
            final(self).order() == old(self).order(),
            final(self).pos() == old(self).pos() + 4,
            r == read_u32_at(old(self).order(), old(self).bytes(), old(self).pos()),
    {
        let i: usize = self.position;
        let b0: u32 = self.buffer[i] as u32;
        let b1: u32 = self.buffer[i + 1] as u32;
        let b2: u32 = self.buffer[i + 2] as u32;
        let b3: u32 = self.buffer[i + 3] as u32;
        self.position = i + 4;
        match self.endianness {
            Endianness::Identical => b0 * 0x100_0000 + b1 * 0x1_0000 + b2 * 0x100 + b3,
            Endianness::Swapped => b3 * 0x100_0000 + b2 * 0x1_0000 + b1 * 0x100 + b0,
        }
    }

    pub fn get_u64(&mut self) -> (r: u64)
        requires
            old(self).wf(),
            old(self).remaining() >= 8,
        ensures
            final(self).wf(),
            final(self).bytes() == old(self).bytes(),
            final(self).order() == old(self).order(),
            final(self).pos() == old(self).pos() + 8,
            r == read_u64_at(old(self).order(), old(self).bytes(), old(self).pos()),
    {
        let high: u64 = self.get_u32() as u64;
        let low: u64 = self.get_u32() as u64;
        match self.endianness {
            Endianness::Identical => high * 0x1_0000_0000 + low,
            Endianness::Swapped => low * 0x1_0000_0000 + high,
        }
    }

    pub fn get_u128(&mut self) -> (r: u128)
        requires
            old(self).wf(),
            old(self).remaining() >= 16,
        ensures
            final(self).wf(),
            final(self).bytes() == old(self).bytes(),
            final(self).order() == old(self).order(),
            final(self).pos() == old(self).pos() + 16,
            r == read_u128_at(old(self).order(), old(self).bytes(), old(self).pos()),
    {
        let high: u128 = self.get_u64() as u128;
        let low: u128 = self.get_u64() as u128;
        match self.endianness {
            Endianness::Identical => high * 0x1_0000_0000_0000_0000 + low,
            Endianness::Swapped => low * 0x1_0000_0000_0000_0000 + high,
        }
    }
}

/// A write cursor over an owned, growable byte buffer that encodes
/// fixed-width unsigned integers according to a byte-order selector.
pub struct WriteOnlyEndiannessAwareCursor {
    buffer: Vec<u8>,
    endianness: Endianness,
}

impl WriteOnlyEndiannessAwareCursor {
    /// Everything written so far.
    pub closed spec fn bytes(self) -> Seq<u8> {
        self.buffer@
    }

    /// The byte-order selector the cursor was built with.
    pub closed spec fn order(self) -> Endianness {
        self.endianness
    }

    pub fn new(endianness: Endianness) -> (r: Self)
        ensures
            r.bytes() == Seq::<u8>::empty(),
            r.order() == endianness,
    {
        Self { buffer: Vec::new(), endianness }
    }

    /// Appends `advancement` zero bytes.
    pub fn advance(&mut self, advancement: usize)
        ensures
            final(self).order() == old(self).order(),
            final(self).bytes() == old(self).bytes() + zero_bytes(advancement as int),
    {
        let mut k: usize = 0;
        while k < advancement
            invariant
                k <= advancement,
                self.buffer@ == old(self).bytes() + zero_bytes(k as int),
                self.endianness == old(self).order(),
            decreases advancement - k,
        {
            self.buffer.push(0);
            k = k + 1;
            assert(self.buffer@ =~= old(self).bytes() + zero_bytes(k as int));
        }
        assert(self.buffer@ =~= old(self).bytes() + zero_bytes(advancement as int));
    }

    pub fn into_vec(self) -> (r: Vec<u8>)
        ensures
            r@ == self.bytes(),
    {
        self.buffer
    }

    pub fn put_u8(&mut self, value: u8)
        ensures
            final(self).order() == old(self).order(),
            final(self).bytes() == old(self).bytes().push(value),
    {
        self.buffer.push(value);
    }

    pub fn put_u16(&mut self, value: u16)
        ensures
            final(self).order() == old(self).order(),
            final(self).bytes() == old(self).bytes() + write_u16_bytes(old(self).order(), value),
    {
        let lo: u8 = (value % 0x100) as u8;
        let hi: u8 = (value / 0x100) as u8;
        match self.endianness {
            Endianness::Identical => {
                self.buffer.push(hi);
                self.buffer.push(lo);
            },
            Endianness::Swapped => {
                self.buffer.push(lo);
                self.buffer.push(hi);
            },
        }
        assert(self.buffer@ =~= old(self).bytes() + write_u16_bytes(old(self).order(), value));
    }

    fn push_le_u32(&mut self, value: u32)
        ensures
            final(self).order() == old(self).order(),
            final(self).bytes() == old(self).bytes() + le_u32_bytes(value),
    {
        self.buffer.push((value % 0x100) as u8);
        self.buffer.push(((value / 0x100) % 0x100) as u8);
        self.buffer.push(((value / 0x1_0000) % 0x100) as u8);
        self.buffer.push((value / 0x100_0000) as u8);
        assert(self.buffer@ =~= old(self).bytes() + le_u32_bytes(value));
    }

    fn push_be_u32(&mut self, value: u32)
        ensures
            final(self).order() == old(self).order(),
            final(self).bytes() == old(self).bytes() + be_u32_bytes(value),
    {
        self.buffer.push((value / 0x100_0000) as u8);
        self.buffer.push(((value / 0x1_0000) % 0x100) as u8);
        self.buffer.push(((value / 0x100) % 0x100) as u8);
        self.buffer.push((value % 0x100) as u8);
        assert(self.buffer@ =~= old(self).bytes() + be_u32_bytes(value));
    }

    fn push_le_u64(&mut self, value: u64)
        ensures
            final(self).order() == old(self).order(),
            final(self).bytes() == old(self).bytes() + le_u64_bytes(value),
    {
        self.push_le_u32((value % 0x1_0000_0000) as u32);
        self.push_le_u32((value / 0x1_0000_0000) as u32);
        assert(self.buffer@ =~= old(self).bytes() + le_u64_bytes(value));
    }

    fn push_be_u64(&mut self, value: u64)
        ensures
            final(self).order() == old(self).order(),
            final(self).bytes() == old(self).bytes() + be_u64_bytes(value),
    {
        self.push_be_u32((value / 0x1_0000_0000) as u32);
        self.push_be_u32((value % 0x1_0000_0000) as u32);
        assert(self.buffer@ =~= old(self).bytes() + be_u64_bytes(value));
    }

    pub fn put_u32(&mut self, value: u32)
        ensures
            final(self).order() == old(self).order(),
            final(self).bytes() == old(self).bytes() + write_u32_bytes(old(self).order(), value),
    {
        match self.endianness {
            Endianness::Identical => self.push_be_u32(value),
            Endianness::Swapped => self.push_le_u32(value),
        }
    }

    pub fn put_u64(&mut self, value: u64)
        ensures
            final(self).order() == old(self).order(),
            final(self).bytes() == old(self).bytes() + write_u64_bytes(old(self).order(), value),
    {
        match self.endianness {
            Endianness::Identical => self.push_be_u64(value),
            Endianness::Swapped => self.push_le_u64(value),
        }
    }

    pub fn put_u128(&mut self, value: u128)
        ensures
            final(self).order() == old(self).order(),
            final(self).bytes() == old(self).bytes() + write_u128_bytes(old(self).order(), value),
    {
        let lo: u64 = (value % 0x1_0000_0000_0000_0000) as u64;
        let hi: u64 = (value / 0x1_0000_0000_0000_0000) as u64;
        match self.endianness {
            Endianness::Identical => {
                self.push_be_u64(hi);
                self.push_be_u64(lo);
            },
            Endianness::Swapped => {
                self.push_le_u64(lo);
                self.push_le_u64(hi);
            },
        }
        assert(self.buffer@ =~= old(self).bytes() + write_u128_bytes(old(self).order(), value));
    }
}

} // verus!
