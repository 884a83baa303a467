use vstd::prelude::*;
use crate::cbs::{FixedSizePacketable, PacketBuf, Packetable};
use crate::error::CbsBufferError;

verus! {

/// The position of a chunk column in the world, in chunk units.
#[derive(Debug, Clone, Copy, PartialEq, Eq, Structural)]
pub struct ChunkPos {
    pub x: i32,
    pub z: i32,
}

/// The 64-bit hash-map key for a chunk position: `x` in the high 32 bits,
/// `z` in the low 32 bits. Deliberately does not mask `z`, so a negative
/// `z` sign-extends into the high bits; see the note on `as_long`.
pub open spec fn chunk_key(x: i32, z: i32) -> u64 {
    ((x as u64) << 32) | (z as u64)
}

impl ChunkPos {
    /// The key used to store chunks in a map. Note: a negative `z`
    /// sign-extends over the `x` bits, so distinct positions with negative
    /// `z` can collide; the layout is kept as is because it identifies
    /// persisted chunks.
    pub fn as_long(&self) -> (r: u64)
        ensures
            r == chunk_key(self.x, self.z),
    {
        ((self.x as u64) << 32) | (self.z as u64)
    }

    pub fn new(x: i32, z: i32) -> (r: Self)
        ensures
            r.x == x,
            r.z == z,
    {
        Self { x, z }
    }

    pub fn x(&self) -> (r: i32)
        ensures
            r == self.x,
    {
        self.x
    }

    pub fn z(&self) -> (r: i32)
        ensures
            r == self.z,
    {
        self.z
    }
}

/// The wire form of one chunk coordinate: its low 24 bits, written
/// most-significant-byte first.
pub open spec fn i32_be24_bytes(v: i32) -> Seq<u8> {
    seq![(v >> 16) as u8, (v >> 8) as u8, v as u8]
}

/// The coordinate carried by three wire bytes: a 24-bit value,
/// most-significant-byte first, sign-extended to 32 bits.
pub open spec fn sign_extend_24(b0: u8, b1: u8, b2: u8) -> i32 {
    (((((b0 as u32) << 16) | ((b1 as u32) << 8) | (b2 as u32)) as i32) << 8) >> 8
}

/// Whether a coordinate fits the signed 24-bit wire form.
pub open spec fn fits_24_bits(v: i32) -> bool {
    -0x80_0000 <= v < 0x80_0000
}

/// Decoding the three wire bytes of a coordinate in the 24-bit range gives
/// back that coordinate.
pub proof fn lemma_be24_round_trip(v: i32)
    requires
        fits_24_bits(v),
    ensures
        sign_extend_24((v >> 16) as u8, (v >> 8) as u8, v as u8) == v,
{
    assert({
        let b0 = (v >> 16) as u8;
        let b1 = (v >> 8) as u8;
        let b2 = v as u8;
        (((((b0 as u32) << 16) | ((b1 as u32) << 8) | (b2 as u32)) as i32) << 8) >> 8 == v
    }) by (bit_vector)
        requires
            -0x80_0000 <= v < 0x80_0000,
    ;
}

/// A decoded coordinate always lies in the 24-bit range, and re-encoding it
/// reproduces the three bytes it was read from.
pub proof fn lemma_decoded_24_in_range(b0: u8, b1: u8, b2: u8)
    ensures
        fits_24_bits(sign_extend_24(b0, b1, b2)),
        i32_be24_bytes(sign_extend_24(b0, b1, b2)) == seq![b0, b1, b2],
{
    assert({
        let v = (((((b0 as u32) << 16) | ((b1 as u32) << 8) | (b2 as u32)) as i32) << 8) >> 8;
        &&& -0x80_0000 <= v < 0x80_0000
        &&& (v >> 16) as u8 == b0
        &&& (v >> 8) as u8 == b1
        &&& v as u8 == b2
    }) by (bit_vector);
    assert(i32_be24_bytes(sign_extend_24(b0, b1, b2)) =~= seq![b0, b1, b2]);
}

impl Packetable for ChunkPos {
    open spec fn wf(&self) -> bool {
        true
    }

    /// Six bytes: the low 24 bits of `x`, then of `z`, each written
    /// most-significant-byte first.
    open spec fn wire(&self) -> Seq<u8> {
        i32_be24_bytes(self.x) + i32_be24_bytes(self.z)
    }

    open spec fn read_ok(bytes: Seq<u8>) -> bool {
        bytes.len() >= 6
    }

    fn write_to_buffer(self, buffer: &mut Vec<u8>) {
        buffer.push((self.x >> 16u32) as u8);
        buffer.push((self.x >> 8u32) as u8);
        buffer.push(self.x as u8);
        buffer.push((self.z >> 16u32) as u8);
        buffer.push((self.z >> 8u32) as u8);
        buffer.push(self.z as u8);
        assert(buffer@ =~= old(buffer)@ + self.wire());
    }

    fn read_from_buf(reader: &mut PacketBuf) -> (r: Result<Self, CbsBufferError>) {
        let xb = match reader.next_bytes(3) {
            Ok(v) => v,
            Err(_) => {
                return Err(
                    CbsBufferError::NotEnoughData(6, reader.data.len() - reader.index),
                );
            },
        };
        let zb = match reader.next_bytes(3) {
            Ok(v) => v,
            Err(_) => {
                return Err(
                    CbsBufferError::NotEnoughData(6, reader.data.len() - reader.index),
                );
            },
        };
        let x = ((((xb[0] as u32) << 16u32) | ((xb[1] as u32) << 8u32) | (xb[2] as u32)) as i32)
            << 8u32 >> 8u32;
        let z = ((((zb[0] as u32) << 16u32) | ((zb[1] as u32) << 8u32) | (zb[2] as u32)) as i32)
            << 8u32 >> 8u32;
        let pos = ChunkPos { x, z };
        proof {
            lemma_decoded_24_in_range(
                old(reader).remaining()[0],
                old(reader).remaining()[1],
                old(reader).remaining()[2],
            );
            lemma_decoded_24_in_range(
                old(reader).remaining()[3],
                old(reader).remaining()[4],
                old(reader).remaining()[5],
            );
            assert(pos.wire() =~= old(reader).remaining().take(6));
        }
        Ok(pos)
    }
}

impl FixedSizePacketable for ChunkPos {
    open spec fn size_in_bytes_spec() -> nat {
        6
    }

    fn size_in_bytes() -> (r: usize) {
        6
    }
}

} // verus!
