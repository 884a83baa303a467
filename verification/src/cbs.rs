use vstd::prelude::*;
use crate::error::CbsBufferError;

verus! {

// ---------------------------------------------------------------------------
// Little-endian byte layouts. Every multi-byte integer on the wire is
// little-endian; the one exception (the 24-bit chunk coordinate) is stated
// where it is used.
// ---------------------------------------------------------------------------

/// The 16-bit value laid out by the little-endian bytes `b0, b1`.
pub open spec fn le16(b0: u8, b1: u8) -> u16 {
    (b0 as u16) | ((b1 as u16) << 8)
}

/// The 32-bit value laid out by four little-endian bytes.
pub open spec fn le32(b0: u8, b1: u8, b2: u8, b3: u8) -> u32 {
    (b0 as u32) | ((b1 as u32) << 8) | ((b2 as u32) << 16) | ((b3 as u32) << 24)
}

/// The 64-bit value laid out by eight little-endian bytes.
pub open spec fn le64(lo: u32, hi: u32) -> u64 {
    (lo as u64) | ((hi as u64) << 32)
}

/// The two little-endian bytes of a 16-bit value.
pub open spec fn u16_le_bytes(v: u16) -> Seq<u8> {
    seq![v as u8, (v >> 8) as u8]
}

/// The four little-endian bytes of a 32-bit value.
pub open spec fn u32_le_bytes(v: u32) -> Seq<u8> {
    seq![v as u8, (v >> 8) as u8, (v >> 16) as u8, (v >> 24) as u8]
}

/// The eight little-endian bytes of a 64-bit value.
pub open spec fn u64_le_bytes(v: u64) -> Seq<u8> {
    seq![
        v as u8,
        (v >> 8) as u8,
        (v >> 16) as u8,
        (v >> 24) as u8,
        (v >> 32) as u8,
        (v >> 40) as u8,
        (v >> 48) as u8,
        (v >> 56) as u8,
    ]
}

/// The sixteen little-endian bytes of a 128-bit value.
pub open spec fn u128_le_bytes(v: u128) -> Seq<u8> {
    Seq::new(16, |i: int| (v >> (8 * i)) as u8)
}

// ---------------------------------------------------------------------------
// PacketBuf: a cursor over a fully received packet payload.
// ---------------------------------------------------------------------------

/// A read cursor over the bytes of one received packet.
pub struct PacketBuf {
    pub data: Vec<u8>,
    pub index: usize,
}

impl PacketBuf {
    /// The cursor never points past the end of the data.
    pub open spec fn wf(&self) -> bool {
        self.index <= self.data.len()
    }

    /// The bytes not yet consumed.
    pub open spec fn remaining(&self) -> Seq<u8> {
        self.data@.skip(self.index as int)
    }

    pub fn new(data: Vec<u8>) -> (r: Self)
        ensures
            r.wf(),
            r.data == data,
            r.index == 0,
    {
        Self { data, index: 0 }
    }

    pub fn available_bytes(&self) -> (r: usize)
        requires
            self.wf(),
        ensures
            r == self.remaining().len(),
    {
        self.data.len() - self.index
    }

    /// Takes the next `bytes` bytes, or reports how many were available.
    pub fn next_bytes(&mut self, bytes: usize) -> (r: Result<Vec<u8>, CbsBufferError>)
        requires
            old(self).wf(),
        ensures
            final(self).wf(),
            final(self).data == old(self).data,
            r is Ok <==> bytes <= old(self).remaining().len(),
            match r {
                Ok(v) => {
                    &&& v@ == old(self).remaining().take(bytes as int)
                    &&& final(self).index == old(self).index + bytes
                },
                Err(e) => {
                    &&& *final(self) == *old(self)
                    &&& e == CbsBufferError::NotEnoughData(bytes, old(self).remaining().len() as usize)
                },
            },
    {
        if bytes > self.data.len() - self.index {
            return Err(CbsBufferError::NotEnoughData(bytes, self.data.len() - self.index));
        }
        let mut result: Vec<u8> = Vec::new();
        let mut i: usize = 0;
        while i < bytes
            invariant
                self.wf(),
                i <= bytes,
                bytes <= self.data.len() - self.index,
                result@ == self.data@.subrange(self.index as int, self.index + i),
            decreases bytes - i,
        {
            result.push(self.data[self.index + i]);
            i += 1;
        }
        assert(result@ == self.remaining().take(bytes as int));
        self.index += bytes;
        Ok(result)
    }

    /// Takes the next byte, or reports that none is left.
    pub fn next_byte(&mut self) -> (r: Result<u8, CbsBufferError>)
        requires
            old(self).wf(),
        ensures
            final(self).wf(),
            final(self).data == old(self).data,
            r is Ok <==> old(self).remaining().len() >= 1,
            match r {
                Ok(v) => {
                    &&& v == old(self).remaining()[0]
                    &&& final(self).index == old(self).index + 1
                },
                Err(e) => {
                    &&& *final(self) == *old(self)
                    &&& e == CbsBufferError::NotEnoughData(1, old(self).remaining().len() as usize)
                },
            },
    {
        if self.index >= self.data.len() {
            return Err(CbsBufferError::NotEnoughData(1, self.data.len() - self.index));
        }
        let result = self.data[self.index];
        self.index += 1;
        Ok(result)
    }

    /// Takes the next two bytes as a little-endian 16-bit value.
    pub fn next_u16(&mut self) -> (r: Result<u16, CbsBufferError>)
        requires
            old(self).wf(),
        ensures
            final(self).wf(),
            final(self).data == old(self).data,
            r is Ok <==> old(self).remaining().len() >= 2,
            match r {
                Ok(v) => {
                    &&& v == le16(old(self).remaining()[0], old(self).remaining()[1])
                    &&& final(self).index == old(self).index + 2
                },
                Err(e) => {
                    &&& *final(self) == *old(self)
                    &&& e == CbsBufferError::NotEnoughData(2, old(self).remaining().len() as usize)
                },
            },
    {
        if self.data.len() - self.index < 2 {
            return Err(CbsBufferError::NotEnoughData(2, self.data.len() - self.index));
        }
        let b0 = self.data[self.index];
        let b1 = self.data[self.index + 1];
        self.index += 2;
        Ok((b0 as u16) | ((b1 as u16) << 8))
    }

    /// Takes the next four bytes as a little-endian 32-bit value.
    pub fn next_u32(&mut self) -> (r: Result<u32, CbsBufferError>)
        requires
            old(self).wf(),
        ensures
            final(self).wf(),
            final(self).data == old(self).data,
            r is Ok <==> old(self).remaining().len() >= 4,
            match r {
                Ok(v) => {
                    &&& v == le32(
                        old(self).remaining()[0],
                        old(self).remaining()[1],
                        old(self).remaining()[2],
                        old(self).remaining()[3],
                    )
                    &&& final(self).index == old(self).index + 4
                },
                Err(e) => {
                    &&& *final(self) == *old(self)
                    &&& e == CbsBufferError::NotEnoughData(4, old(self).remaining().len() as usize)
                },
            },
    {
        if self.data.len() - self.index < 4 {
            return Err(CbsBufferError::NotEnoughData(4, self.data.len() - self.index));
        }
        let b0 = self.data[self.index];
        let b1 = self.data[self.index + 1];
        let b2 = self.data[self.index + 2];
        let b3 = self.data[self.index + 3];
        self.index += 4;
        Ok((b0 as u32) | ((b1 as u32) << 8) | ((b2 as u32) << 16) | ((b3 as u32) << 24))
    }

    /// Takes the next eight bytes as a little-endian 64-bit value.
    pub fn next_u64(&mut self) -> (r: Result<u64, CbsBufferError>)
        requires
            old(self).wf(),
        ensures
            final(self).wf(),
            final(self).data == old(self).data,
            r is Ok <==> old(self).remaining().len() >= 8,
            match r {
                Ok(v) => {
                    &&& v == le64(
                        le32(
                            old(self).remaining()[0],
                            old(self).remaining()[1],
                            old(self).remaining()[2],
                            old(self).remaining()[3],
                        ),
                        le32(
                            old(self).remaining()[4],
                            old(self).remaining()[5],
                            old(self).remaining()[6],
                            old(self).remaining()[7],
                        ),
                    )
                    &&& final(self).index == old(self).index + 8
                },
                Err(e) => {
                    &&& *final(self) == *old(self)
                    &&& e == CbsBufferError::NotEnoughData(8, old(self).remaining().len() as usize)
                },
            },
    {
        if self.data.len() - self.index < 8 {
            return Err(CbsBufferError::NotEnoughData(8, self.data.len() - self.index));
        }
        let lo = match self.next_u32() {
            Ok(v) => v,
            Err(e) => { return Err(e); },
        };
        let hi = match self.next_u32() {
            Ok(v) => v,
            Err(e) => { return Err(e); },
        };
        Ok((lo as u64) | ((hi as u64) << 32))
    }

    /// Takes the next `bytes` bytes (at most four) as the low bytes of a
    /// little-endian 32-bit value; the missing high bytes are zero.
    pub fn next_n_bytes_as_u32(&mut self, bytes: usize) -> (r: Result<u32, CbsBufferError>)
        requires
            old(self).wf(),
            bytes <= 4,
        ensures
            final(self).wf(),
            final(self).data == old(self).data,
            r is Ok <==> bytes <= old(self).remaining().len(),
            match r {
                Ok(v) => {
                    &&& v == le32(
                        byte_or_zero(old(self).remaining(), 0, bytes as int),
                        byte_or_zero(old(self).remaining(), 1, bytes as int),
                        byte_or_zero(old(self).remaining(), 2, bytes as int),
                        byte_or_zero(old(self).remaining(), 3, bytes as int),
                    )
                    &&& final(self).index == old(self).index + bytes
                },
                Err(e) => {
                    &&& *final(self) == *old(self)
                    &&& e == CbsBufferError::NotEnoughData(bytes, old(self).remaining().len() as usize)
                },
            },
    {
        if bytes > self.data.len() - self.index {
            return Err(CbsBufferError::NotEnoughData(bytes, self.data.len() - self.index));
        }
        let mut temp = [0u8, 0u8, 0u8, 0u8];
        let mut i: usize = 0;
        while i < bytes
            invariant
                self.wf(),
                i <= bytes,
                bytes <= 4,
                bytes <= self.data.len() - self.index,
                forall|j: int| 0 <= j < i ==> temp@[j] == self.remaining()[j],
                forall|j: int| i <= j < 4 ==> temp@[j] == 0u8,
            decreases bytes - i,
        {
            temp[i] = self.data[self.index + i];
            i += 1;
        }
        self.index += bytes;
        Ok((temp[0] as u32) | ((temp[1] as u32) << 8) | ((temp[2] as u32) << 16)
            | ((temp[3] as u32) << 24))
    }
}

/// The byte at `i` of `bytes` when `i < n`, else zero: the shape of a value
/// read from fewer bytes than its full width.
pub open spec fn byte_or_zero(bytes: Seq<u8>, i: int, n: int) -> u8 {
    if i < n {
        bytes[i]
    } else {
        0u8
    }
}

// ---------------------------------------------------------------------------
// WriteExt: little-endian integer writes onto a byte sink.
// ---------------------------------------------------------------------------

/// Little-endian integer writes onto a growing byte sink. Each method
/// returns the number of bytes it appended.
pub trait WriteExt {
    /// The bytes written to the sink so far.
    spec fn sink(&self) -> Seq<u8>;

    fn write_u8(&mut self, val: u8) -> (r: usize)
        ensures
            final(self).sink() == old(self).sink().push(val),
            r == 1,
    ;

    fn write_u16(&mut self, val: u16) -> (r: usize)
        ensures
            final(self).sink() == old(self).sink() + u16_le_bytes(val),
            r == 2,
    ;

    fn write_u32(&mut self, val: u32) -> (r: usize)
        ensures
            final(self).sink() == old(self).sink() + u32_le_bytes(val),
            r == 4,
    ;

    fn write_u64(&mut self, val: u64) -> (r: usize)
        ensures
            final(self).sink() == old(self).sink() + u64_le_bytes(val),
            r == 8,
    ;

    /// Writes the low `BYTES` little-endian bytes of a 128-bit value.
    fn first_n_bytes_u128<const BYTES: usize>(&mut self, int_val: u128) -> (r: usize)
        requires
            BYTES <= 16,
        ensures
            final(self).sink() == old(self).sink() + u128_le_bytes(int_val).take(BYTES as int),
            r == BYTES,
    ;

    /// Writes the low `BYTES` little-endian bytes of a 32-bit value.
    fn first_n_bytes_u32<const BYTES: usize>(&mut self, int_val: u32) -> (r: usize)
        requires
            BYTES <= 4,
        ensures
            final(self).sink() == old(self).sink() + u32_le_bytes(int_val).take(BYTES as int),
            r == BYTES,
    ;
}

impl WriteExt for Vec<u8> {
    open spec fn sink(&self) -> Seq<u8> {
        self@
    }

    fn write_u8(&mut self, val: u8) -> (r: usize) {
        self.push(val);
        1
    }

    fn write_u16(&mut self, val: u16) -> (r: usize) {
        self.push(val as u8);
        self.push((val >> 8) as u8);
        assert(self@ =~= old(self)@ + u16_le_bytes(val));
        2
    }

    fn write_u32(&mut self, val: u32) -> (r: usize) {
        self.push(val as u8);
        self.push((val >> 8) as u8);
        self.push((val >> 16) as u8);
        self.push((val >> 24) as u8);
        assert(self@ =~= old(self)@ + u32_le_bytes(val));
        4
    }

    fn write_u64(&mut self, val: u64) -> (r: usize) {
        self.push(val as u8);
        self.push((val >> 8) as u8);
        self.push((val >> 16) as u8);
        self.push((val >> 24) as u8);
        self.push((val >> 32) as u8);
        self.push((val >> 40) as u8);
        self.push((val >> 48) as u8);
        self.push((val >> 56) as u8);
        assert(self@ =~= old(self)@ + u64_le_bytes(val));
        8
    }

    fn first_n_bytes_u128<const BYTES: usize>(&mut self, int_val: u128) -> (r: usize) {
        let mut i: usize = 0;
        while i < BYTES
            invariant
                i <= BYTES,
                BYTES <= 16,
                self@ == old(self)@ + u128_le_bytes(int_val).take(i as int),
            decreases BYTES - i,
        {
            proof {
                assert(u128_le_bytes(int_val).take(i + 1)
                    =~= u128_le_bytes(int_val).take(i as int).push((int_val >> (8 * i)) as u8));
            }
            let shift: u32 = 8 * (i as u32);
            self.push((int_val >> shift) as u8);
            i += 1;
        }
        BYTES
    }

    fn first_n_bytes_u32<const BYTES: usize>(&mut self, int_val: u32) -> (r: usize) {
        let full = [
            int_val as u8,
            (int_val >> 8) as u8,
            (int_val >> 16) as u8,
            (int_val >> 24) as u8,
        ];
        assert(full@ =~= u32_le_bytes(int_val));
        let mut i: usize = 0;
        while i < BYTES
            invariant
                i <= BYTES,
                BYTES <= 4,
                full@ =~= u32_le_bytes(int_val),
                self@ == old(self)@ + u32_le_bytes(int_val).take(i as int),
            decreases BYTES - i,
        {
            proof {
                assert(u32_le_bytes(int_val).take(i + 1)
                    =~= u32_le_bytes(int_val).take(i as int).push(u32_le_bytes(int_val)[i as int]));
            }
            self.push(full[i]);
            i += 1;
        }
        BYTES
    }
}

// ---------------------------------------------------------------------------
// Packetable: one value, one wire image.
// ---------------------------------------------------------------------------

/// A value with a fixed binary wire image. `wire` is the exact byte
/// sequence a value serializes to; `read_ok` says of a byte sequence
/// whether reading a value from its front succeeds.
pub trait Packetable: Sized {
    /// Structural well-formedness a value must have to be serialized.
    spec fn wf(&self) -> bool;

    /// The exact bytes this value serializes to.
    spec fn wire(&self) -> Seq<u8>;

    /// Whether reading a value from the front of `bytes` succeeds.
    spec fn read_ok(bytes: Seq<u8>) -> bool;

    /// Appends this value's wire image to the buffer.
    fn write_to_buffer(self, buffer: &mut Vec<u8>)
        requires
            self.wf(),
        ensures
            final(buffer)@ == old(buffer)@ + self.wire(),
    ;

    /// Reads one value from the front of the reader. Succeeds exactly on
    /// the inputs `read_ok` accepts; on success the consumed bytes are the
    /// wire image of the value read.
    fn read_from_buf(reader: &mut PacketBuf) -> (r: Result<Self, CbsBufferError>)
        requires
            old(reader).wf(),
        ensures
            final(reader).wf(),
            final(reader).data == old(reader).data,
            r is Ok <==> Self::read_ok(old(reader).remaining()),
            match r {
                Ok(v) => {
                    &&& v.wf()
                    &&& final(reader).index == old(reader).index + v.wire().len()
                    &&& v.wire() == old(reader).remaining().take(v.wire().len() as int)
                },
                Err(_) => old(reader).index <= final(reader).index,
            },
    ;
}

/// A `Packetable` whose wire image has the same length for every value.
pub trait FixedSizePacketable: Packetable {
    /// The length in bytes of every wire image of this type.
    spec fn size_in_bytes_spec() -> nat;

    /// The length in bytes of every wire image of this type.
    fn size_in_bytes() -> (r: usize)
        ensures
            r == Self::size_in_bytes_spec(),
    ;
}

/// A `Packetable` whose wire-image length varies, measured in whole units
/// (for a chunk: populated sub-chunks).
pub trait DynamicSizePacketable: Packetable {
    /// The wire-image length of a value of `units` units.
    spec fn size_in_bytes_of_units(units: u8) -> nat;

    /// How many units this value occupies.
    spec fn size_in_units_spec(&self) -> u8;

    /// The wire-image length of a value of `units` units.
    fn size_in_bytes(units: u8) -> (r: usize)
        ensures
            r == Self::size_in_bytes_of_units(units),
    ;

    /// How many units this value occupies.
    fn size_in_units(&self) -> (r: u8)
        requires
            self.wf(),
        ensures
            r == self.size_in_units_spec(),
    ;

    /// The wire-image length of this value.
    fn current_size_in_bytes(&self) -> (r: usize)
        requires
            self.wf(),
        ensures
            r == Self::size_in_bytes_of_units(self.size_in_units_spec()),
    ;
}

} // verus!
