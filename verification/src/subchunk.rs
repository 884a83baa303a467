use vstd::prelude::*;
use crate::block::BlockId;
use crate::cbs::{FixedSizePacketable, PacketBuf, Packetable, le16};
use crate::error::{CbsBufferError, InvalidSubChunkDataError};

verus! {

/// One 16 by 16 by 16 cube of blocks: a dense array of 4096 block ids in
/// linear order `(y << 8) | (z << 4) | x`.
#[derive(Debug, Clone)]
pub struct SubChunk {
    pub data: Vec<u16>,
}

/// The linear index of local coordinates inside a sub-chunk.
pub open spec fn sub_chunk_index(x: i16, y: i16, z: i16) -> int {
    (y as int) * 256 + (z as int) * 16 + (x as int)
}

/// The wire form of a sub-chunk's block array: each 16-bit id as two
/// little-endian bytes, in index order.
pub open spec fn sub_chunk_wire(data: Seq<u16>) -> Seq<u8> {
    Seq::new(
        2 * data.len(),
        |i: int|
            if i % 2 == 0 {
                data[i / 2] as u8
            } else {
                (data[i / 2] >> 8) as u8
            },
    )
}

/// Whether every block of a sub-chunk's array is the default air block.
pub open spec fn all_air(data: Seq<u16>) -> bool {
    forall|i: int| 0 <= i < data.len() ==> data[i] == 0u16
}

/// A 16-bit value is determined by its two little-endian bytes.
pub proof fn lemma_u16_from_bytes_injective(a: u16, b: u16)
    requires
        a as u8 == b as u8,
        (a >> 8) as u8 == (b >> 8) as u8,
    ensures
        a == b,
{
    assert(a as u8 == b as u8 && (a >> 8) as u8 == (b >> 8) as u8 ==> a == b) by (bit_vector);
}

/// The wire form determines the block array: two sub-chunks with the same
/// bytes hold the same blocks.
pub proof fn lemma_sub_chunk_wire_injective(d1: Seq<u16>, d2: Seq<u16>)
    requires
        d1.len() == d2.len(),
        sub_chunk_wire(d1) == sub_chunk_wire(d2),
    ensures
        d1 == d2,
{
    assert forall|i: int| 0 <= i < d1.len() implies d1[i] == d2[i] by {
        assert((2 * i) % 2 == 0 && (2 * i) / 2 == i);
        assert((2 * i + 1) % 2 == 1 && (2 * i + 1) / 2 == i);
        assert(sub_chunk_wire(d1)[2 * i] == d1[i] as u8);
        assert(sub_chunk_wire(d2)[2 * i] == d2[i] as u8);
        assert(sub_chunk_wire(d1)[2 * i + 1] == (d1[i] >> 8) as u8);
        assert(sub_chunk_wire(d2)[2 * i + 1] == (d2[i] >> 8) as u8);
        lemma_u16_from_bytes_injective(d1[i], d2[i]);
    }
    assert(d1 =~= d2);
}

impl SubChunk {
    pub const DIMENSIONS: usize = 16;

    pub const BLOCK_COUNT: usize = 16 * 16 * 16;

    pub const BYTES: usize = 16 * 16 * 16 * 2;

    /// A sub-chunk always holds exactly one id per block of the cube.
    pub open spec fn inv(&self) -> bool {
        self.data.len() == 4096
    }

    /// Wraps a block array as a sub-chunk; the array must hold exactly one
    /// id per block of the cube, else its length is reported back.
    pub fn new(data: Vec<u16>) -> (r: Result<Self, InvalidSubChunkDataError>)
        ensures
            r is Ok <==> data.len() == 4096,
            match r {
                Ok(sc) => sc.data == data && sc.inv(),
                Err(e) => e.0 == data.len(),
            },
    {
        if data.len() == Self::BLOCK_COUNT {
            Ok(SubChunk { data })
        } else {
            Err(InvalidSubChunkDataError(data.len()))
        }
    }

    /// The block id at local coordinates, each in the range 0 to 15.
    pub fn get_block(&self, x: i16, y: i16, z: i16) -> (r: BlockId)
        requires
            self.inv(),
            0 <= x < 16,
            0 <= y < 16,
            0 <= z < 16,
        ensures
            r.0 == self.data[sub_chunk_index(x, y, z)],
    {
        proof {
            assert(((y << 8) | (z << 4) | x) == y * 256 + z * 16 + x && 0 <= y * 256 + z * 16 + x
                < 4096) by (bit_vector)
                requires
                    0 <= x < 16 && 0 <= y < 16 && 0 <= z < 16,
            ;
        }
        BlockId(self.data[((y << 8u16) | (z << 4u16) | x) as usize])
    }

    /// Whether every block of this sub-chunk is the default air block; such
    /// a sub-chunk is never stored in a chunk.
    pub fn is_all_air(&self) -> (r: bool)
        ensures
            r == all_air(self.data@),
    {
        let mut i: usize = 0;
        while i < self.data.len()
            invariant
                i <= self.data.len(),
                forall|j: int| 0 <= j < i ==> self.data@[j] == 0u16,
            decreases self.data.len() - i,
        {
            if self.data[i] != 0 {
                return false;
            }
            i += 1;
        }
        true
    }

    /// An element-for-element copy of this sub-chunk.
    pub fn duplicate(&self) -> (r: SubChunk)
        ensures
            r.data@ == self.data@,
    {
        let mut data: Vec<u16> = Vec::new();
        let mut i: usize = 0;
        while i < self.data.len()
            invariant
                i <= self.data.len(),
                data@ == self.data@.take(i as int),
            decreases self.data.len() - i,
        {
            proof {
                assert(self.data@.take(i + 1) =~= self.data@.take(i as int).push(self.data@[i as int]));
            }
            data.push(self.data[i]);
            i += 1;
        }
        proof {
            assert(self.data@.take(self.data@.len() as int) =~= self.data@);
        }
        SubChunk { data }
    }

    /// Appends this sub-chunk's wire image to the buffer.
    pub fn write_bytes(&self, buffer: &mut Vec<u8>)
        requires
            self.inv(),
        ensures
            final(buffer)@ == old(buffer)@ + sub_chunk_wire(self.data@),
    {
        let ghost w = sub_chunk_wire(self.data@);
        let mut i: usize = 0;
        while i < self.data.len()
            invariant
                self.inv(),
                i <= self.data.len(),
                w == sub_chunk_wire(self.data@),
                buffer@ == old(buffer)@ + w.take(2 * i),
            decreases self.data.len() - i,
        {
            let v = self.data[i];
            buffer.push(v as u8);
            buffer.push((v >> 8u16) as u8);
            proof {
                assert(w.take(2 * (i + 1)) =~= w.take(2 * i).push(v as u8).push((v >> 8) as u8));
            }
            i += 1;
        }
        proof {
            assert(w.take(2 * 4096int) =~= w);
        }
    }
}

impl Default for SubChunk {
    /// A sub-chunk of nothing but air.
    fn default() -> (r: SubChunk)
        ensures
            r.inv(),
            all_air(r.data@),
    {
        SubChunk { data: vec![0u16; 4096] }
    }
}

impl Packetable for SubChunk {
    open spec fn wf(&self) -> bool {
        self.inv()
    }

    /// Exactly 8192 bytes: the 4096 block ids as raw little-endian 16-bit
    /// values in index order.
    open spec fn wire(&self) -> Seq<u8> {
        sub_chunk_wire(self.data@)
    }

    open spec fn read_ok(bytes: Seq<u8>) -> bool {
        bytes.len() >= 8192
    }

    fn write_to_buffer(self, buffer: &mut Vec<u8>) {
        self.write_bytes(buffer);
    }

    #[verifier::rlimit(50)]
    fn read_from_buf(reader: &mut PacketBuf) -> (r: Result<Self, CbsBufferError>) {
        let bytes = match reader.next_bytes(Self::BYTES) {
            Ok(v) => v,
            Err(e) => { return Err(e); },
        };
        let mut data: Vec<u16> = Vec::new();
        let mut i: usize = 0;
        while i < Self::BLOCK_COUNT
            invariant
                i <= 4096,
                bytes@ == old(reader).remaining().take(8192),
                bytes.len() == 8192,
                data.len() == i,
                forall|j: int| 0 <= j < i ==> data@[j] == le16(bytes@[2 * j], bytes@[2 * j + 1]),
            decreases 4096 - i,
        {
            let b0 = bytes[2 * i];
            let b1 = bytes[2 * i + 1];
            data.push((b0 as u16) | ((b1 as u16) << 8));
            i += 1;
        }
        let sc = SubChunk { data };
        proof {
            assert forall|j: int| 0 <= j < 8192 implies sub_chunk_wire(sc.data@)[j] == bytes@[j] by {
                assert(j % 2 == 0 ==> 2 * (j / 2) == j);
                assert(j % 2 == 1 ==> 2 * (j / 2) + 1 == j);
                let v = sc.data@[j / 2];
                let b0 = bytes@[2 * (j / 2)];
                let b1 = bytes@[2 * (j / 2) + 1];
                assert(v == le16(b0, b1));
                assert(((b0 as u16) | ((b1 as u16) << 8)) as u8 == b0 && (((b0 as u16) | ((b1
                    as u16) << 8)) >> 8) as u8 == b1) by (bit_vector);
            }
            assert(sc.wire() =~= bytes@);
        }
        Ok(sc)
    }
}

impl FixedSizePacketable for SubChunk {
    open spec fn size_in_bytes_spec() -> nat {
        8192
    }

    fn size_in_bytes() -> (r: usize) {
        Self::BYTES
    }
}

} // verus!
