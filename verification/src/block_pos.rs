use vstd::prelude::*;
use crate::cbs::{FixedSizePacketable, PacketBuf, Packetable, WriteExt, le32, le64, u64_le_bytes};
use crate::chunk_pos::ChunkPos;
use crate::error::{CbsBufferError, InvalidPositionError};

verus! {

/// A block position, packable into one 64-bit key: `x` and `z` get 27 bits
/// each, `y` gets 10, with `x` at the high end, `z` in the middle and `y`
/// at the low end.
#[derive(PartialEq, Eq, Structural, Clone, Copy, Debug)]
pub struct BlockPos {
    pub x: i32,
    pub y: i32,
    pub z: i32,
}

/// The packed 64-bit key: each coordinate masked to its bit width and
/// shifted into place.
pub open spec fn pack_block_pos(x: i32, y: i32, z: i32) -> u64 {
    (((x as u64) & 0x7ff_ffff) << 37) | (((z as u64) & 0x7ff_ffff) << 10) | ((y as u64) & 0x3ff)
}

/// The `x` coordinate of a packed key: the high 27 bits, sign-extended.
pub open spec fn unpack_x(long: u64) -> i32 {
    (((long as i64) >> 37) as i32)
}

/// The `y` coordinate of a packed key: the low 10 bits, sign-extended.
pub open spec fn unpack_y(long: u64) -> i32 {
    ((((long << 54) as i64) >> 54) as i32)
}

/// The `z` coordinate of a packed key: bits 10 to 36, sign-extended.
pub open spec fn unpack_z(long: u64) -> i32 {
    ((((long << 27) as i64) >> 37) as i32)
}

/// Whether a coordinate lies in the valid range of the `x` axis.
pub open spec fn valid_x(x: i32) -> bool {
    -0x400_0000 <= x < 0x400_0000
}

/// Whether a coordinate lies in the valid range of the `y` axis.
pub open spec fn valid_y(y: i32) -> bool {
    -512 <= y < 512
}

/// Whether a coordinate lies in the valid range of the `z` axis.
pub open spec fn valid_z(z: i32) -> bool {
    -0x400_0000 <= z < 0x400_0000
}

/// Packing is lossless on the valid ranges: unpacking a packed position
/// gives back exactly the coordinates that were packed.
pub proof fn lemma_pack_round_trip(x: i32, y: i32, z: i32)
    requires
        valid_x(x),
        valid_y(y),
        valid_z(z),
    ensures
        unpack_x(pack_block_pos(x, y, z)) == x,
        unpack_y(pack_block_pos(x, y, z)) == y,
        unpack_z(pack_block_pos(x, y, z)) == z,
{
    assert((((((x as u64) & 0x7ff_ffff) << 37) | (((z as u64) & 0x7ff_ffff) << 10) | ((y as u64)
        & 0x3ff)) as i64) >> 37 == x as i64) by (bit_vector)
        requires
            -0x400_0000 <= x < 0x400_0000,
            -512 <= y < 512,
            -0x400_0000 <= z < 0x400_0000,
    ;
    assert(((((((x as u64) & 0x7ff_ffff) << 37) | (((z as u64) & 0x7ff_ffff) << 10) | ((y as u64)
        & 0x3ff)) << 54) as i64) >> 54 == y as i64) by (bit_vector)
        requires
            -0x400_0000 <= x < 0x400_0000,
            -512 <= y < 512,
            -0x400_0000 <= z < 0x400_0000,
    ;
    assert(((((((x as u64) & 0x7ff_ffff) << 37) | (((z as u64) & 0x7ff_ffff) << 10) | ((y as u64)
        & 0x3ff)) << 27) as i64) >> 37 == z as i64) by (bit_vector)
        requires
            -0x400_0000 <= x < 0x400_0000,
            -512 <= y < 512,
            -0x400_0000 <= z < 0x400_0000,
    ;
    assert((x as i64) as i32 == x) by (bit_vector);
    assert((y as i64) as i32 == y) by (bit_vector);
    assert((z as i64) as i32 == z) by (bit_vector);
}

/// Every 64-bit key is the packing of its own unpacked coordinates: the
/// three fields cover all 64 bits exactly once.
pub proof fn lemma_unpack_pack(long: u64)
    ensures
        pack_block_pos(unpack_x(long), unpack_y(long), unpack_z(long)) == long,
{
    assert({
        let ux = ((long as i64) >> 37) as i32;
        let uy = (((long << 54) as i64) >> 54) as i32;
        let uz = (((long << 27) as i64) >> 37) as i32;
        (((ux as u64) & 0x7ff_ffff) << 37) | (((uz as u64) & 0x7ff_ffff) << 10) | ((uy as u64)
            & 0x3ff) == long
    }) by (bit_vector);
}

impl BlockPos {
    pub const X_BITS: u64 = 27;

    pub const Y_BITS: u64 = 10;

    pub const Z_BITS: u64 = 27;

    pub const X_SHIFT: u64 = 37;

    pub const Y_SHIFT: u64 = 0;

    pub const Z_SHIFT: u64 = 10;

    pub const X_MASK: u64 = 0x7ff_ffff;

    pub const Y_MASK: u64 = 0x3ff;

    pub const Z_MASK: u64 = 0x7ff_ffff;

    pub const MAX_X_DISTANCE: i32 = 0x400_0000;

    pub const MAX_Y_DISTANCE: i32 = 512;

    pub const MAX_Z_DISTANCE: i32 = 0x400_0000;

    pub fn new(x: i32, y: i32, z: i32) -> (r: BlockPos)
        requires
            valid_x(x),
            valid_y(y),
            valid_z(z),
        ensures
            r == (BlockPos { x, y, z }),
    {
        Self { x, y, z }
    }

    pub fn x(&self) -> (r: i32)
        ensures
            r == self.x,
    {
        self.x
    }

    pub fn y(&self) -> (r: i32)
        ensures
            r == self.y,
    {
        self.y
    }

    pub fn z(&self) -> (r: i32)
        ensures
            r == self.z,
    {
        self.z
    }

    /// The packed 64-bit key of this position.
    pub fn as_long(&self) -> (r: u64)
        ensures
            r == pack_block_pos(self.x, self.y, self.z),
    {
        let x = self.x as u64;
        let y = self.y as u64;
        let z = self.z as u64;
        ((x & Self::X_MASK) << Self::X_SHIFT) | ((z & Self::Z_MASK) << Self::Z_SHIFT) | (y
            & Self::Y_MASK)
    }

    /// The position packed into the given key: each field is shifted up to
    /// discard the higher fields, then arithmetically shifted back down so
    /// its sign bit is extended.
    pub fn from_long(long: u64) -> (r: Self)
        ensures
            r.x == unpack_x(long),
            r.y == unpack_y(long),
            r.z == unpack_z(long),
            valid_x(r.x),
            valid_y(r.y),
            valid_z(r.z),
    {
        let x = ((long as i64) >> 37u64) as i32;
        let y = (((long << 54u64) as i64) >> 54u64) as i32;
        let z = (((long << 27u64) as i64) >> 37u64) as i32;
        proof {
            lemma_unpack_ranges(long);
        }
        Self { x, y, z }
    }

    /// Reports the first axis, in the order `x`, `y`, `z`, whose coordinate
    /// lies outside its valid range, and `Ok` when all three are inside.
    pub fn validate(&self) -> (r: Result<(), InvalidPositionError>)
        ensures
            r is Ok <==> valid_x(self.x) && valid_y(self.y) && valid_z(self.z),
            match r {
                Ok(()) => true,
                Err(e) => match e {
                    InvalidPositionError::InvalidX(v) => v == self.x && !valid_x(self.x),
                    InvalidPositionError::InvalidY(v) => v == self.y && valid_x(self.x)
                        && !valid_y(self.y),
                    InvalidPositionError::InvalidZ(v) => v == self.z && valid_x(self.x) && valid_y(
                        self.y,
                    ) && !valid_z(self.z),
                },
            },
    {
        if !(-Self::MAX_X_DISTANCE <= self.x && self.x < Self::MAX_X_DISTANCE) {
            return Err(InvalidPositionError::InvalidX(self.x));
        }
        if !(-Self::MAX_Y_DISTANCE <= self.y && self.y < Self::MAX_Y_DISTANCE) {
            return Err(InvalidPositionError::InvalidY(self.y));
        }
        if !(-Self::MAX_Z_DISTANCE <= self.z && self.z < Self::MAX_Z_DISTANCE) {
            return Err(InvalidPositionError::InvalidZ(self.z));
        }
        Ok(())
    }

    /// The position one block above.
    pub fn offset_up(&self) -> (r: Self)
        requires
            self.y < i32::MAX,
        ensures
            r.y == self.y + 1,
            r.x == self.x,
            r.z == self.z,
    {
        Self { y: self.y + 1, ..*self }
    }

    /// The position one block below.
    pub fn offset_down(&self) -> (r: Self)
        requires
            self.y > i32::MIN,
        ensures
            r.y == self.y - 1,
            r.x == self.x,
            r.z == self.z,
    {
        Self { y: self.y - 1, ..*self }
    }

    /// The position one block to the north (negative `z`).
    pub fn offset_north(&self) -> (r: Self)
        requires
            self.z > i32::MIN,
        ensures
            r.z == self.z - 1,
            r.x == self.x,
            r.y == self.y,
    {
        Self { z: self.z - 1, ..*self }
    }

    /// The position one block to the south (positive `z`).
    pub fn offset_south(&self) -> (r: Self)
        requires
            self.z < i32::MAX,
        ensures
            r.z == self.z + 1,
            r.x == self.x,
            r.y == self.y,
    {
        Self { z: self.z + 1, ..*self }
    }

    /// The position one block to the west (negative `x`).
    pub fn offset_west(&self) -> (r: Self)
        requires
            self.x > i32::MIN,
        ensures
            r.x == self.x - 1,
            r.y == self.y,
            r.z == self.z,
    {
        Self { x: self.x - 1, ..*self }
    }

    /// The position one block to the east (positive `x`).
    pub fn offset_east(&self) -> (r: Self)
        requires
            self.x < i32::MAX,
        ensures
            r.x == self.x + 1,
            r.y == self.y,
            r.z == self.z,
    {
        Self { x: self.x + 1, ..*self }
    }

    /// The chunk column holding this position: an arithmetic shift right by
    /// four on each horizontal axis, which is the correct floor division by
    /// sixteen for negative coordinates too.
    pub fn get_chunk(&self) -> (r: ChunkPos)
        ensures
            r.x == self.x >> 4,
            r.z == self.z >> 4,
    {
        ChunkPos::new(self.x >> 4u32, self.z >> 4u32)
    }
}

/// Unpacked coordinates always lie in their axis's valid range: they are
/// sign extensions of 27-, 10- and 27-bit fields.
pub proof fn lemma_unpack_ranges(long: u64)
    ensures
        valid_x(unpack_x(long)),
        valid_y(unpack_y(long)),
        valid_z(unpack_z(long)),
{
    assert({
        let v = ((long as i64) >> 37) as i32;
        -0x400_0000 <= v < 0x400_0000
    }) by (bit_vector);
    assert({
        let v = (((long << 54) as i64) >> 54) as i32;
        -512 <= v < 512
    }) by (bit_vector);
    assert({
        let v = (((long << 27) as i64) >> 37) as i32;
        -0x400_0000 <= v < 0x400_0000
    }) by (bit_vector);
}

impl Packetable for BlockPos {
    open spec fn wf(&self) -> bool {
        true
    }

    /// The wire form is the packed key as eight little-endian bytes.
    open spec fn wire(&self) -> Seq<u8> {
        u64_le_bytes(pack_block_pos(self.x, self.y, self.z))
    }

    open spec fn read_ok(bytes: Seq<u8>) -> bool {
        bytes.len() >= 8
    }

    fn write_to_buffer(self, buffer: &mut Vec<u8>) {
        buffer.write_u64(self.as_long());
    }

    fn read_from_buf(reader: &mut PacketBuf) -> (r: Result<Self, CbsBufferError>) {
        let long = match reader.next_u64() {
            Ok(v) => v,
            Err(e) => { return Err(e); },
        };
        let pos = Self::from_long(long);
        proof {
            lemma_unpack_pack(long);
            lemma_le64_bytes_round_trip(
                old(reader).remaining()[0],
                old(reader).remaining()[1],
                old(reader).remaining()[2],
                old(reader).remaining()[3],
                old(reader).remaining()[4],
                old(reader).remaining()[5],
                old(reader).remaining()[6],
                old(reader).remaining()[7],
            );
            assert(pos.wire() =~= old(reader).remaining().take(8));
        }
        Ok(pos)
    }
}

impl FixedSizePacketable for BlockPos {
    open spec fn size_in_bytes_spec() -> nat {
        8
    }

    fn size_in_bytes() -> (r: usize) {
        8
    }
}

/// Laying a 64-bit value built from eight little-endian bytes back out as
/// bytes reproduces those bytes.
pub proof fn lemma_le64_bytes_round_trip(
    b0: u8,
    b1: u8,
    b2: u8,
    b3: u8,
    b4: u8,
    b5: u8,
    b6: u8,
    b7: u8,
)
    ensures
        u64_le_bytes(le64(le32(b0, b1, b2, b3), le32(b4, b5, b6, b7))) == seq![
            b0,
            b1,
            b2,
            b3,
            b4,
            b5,
            b6,
            b7,
        ],
{
    let l = le64(le32(b0, b1, b2, b3), le32(b4, b5, b6, b7));
    assert({
        let lo = (b0 as u32) | ((b1 as u32) << 8) | ((b2 as u32) << 16) | ((b3 as u32) << 24);
        let hi = (b4 as u32) | ((b5 as u32) << 8) | ((b6 as u32) << 16) | ((b7 as u32) << 24);
        let l = (lo as u64) | ((hi as u64) << 32);
        &&& l as u8 == b0
        &&& (l >> 8) as u8 == b1
        &&& (l >> 16) as u8 == b2
        &&& (l >> 24) as u8 == b3
        &&& (l >> 32) as u8 == b4
        &&& (l >> 40) as u8 == b5
        &&& (l >> 48) as u8 == b6
        &&& (l >> 56) as u8 == b7
    }) by (bit_vector);
    assert(u64_le_bytes(l) =~= seq![b0, b1, b2, b3, b4, b5, b6, b7]);
}

} // verus!
