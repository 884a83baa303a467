use vstd::prelude::*;
use crate::block::BlockId;
use crate::block_pos::{BlockPos, valid_x, valid_y, valid_z};
use crate::cbs::{DynamicSizePacketable, PacketBuf, Packetable, WriteExt, le16, u16_le_bytes};
use crate::error::{CbsBufferError, InvalidPositionError};
use crate::subchunk::{SubChunk, all_air, sub_chunk_index, sub_chunk_wire};

verus! {

/// A chunk column: a sparse mapping from vertical slot (0 to 15, the block
/// height divided by 16) to the sub-chunk stored there. A slot holding
/// `None` is implicitly all air; an all-air sub-chunk is never stored.
#[derive(Debug, Clone)]
pub struct Chunk {
    pub non_air_sub_chunks: Vec<Option<SubChunk>>,
}

/// Whether bit `i` of a 16-bit mask is set.
pub open spec fn bit16(m: u16, i: u16) -> bool {
    (m >> i) & 1 == 1
}

/// The presence bitmask over the first `n` slots: bit `i` is set exactly
/// when slot `i` is populated.
pub open spec fn mask_upto(c: Seq<Option<SubChunk>>, n: int) -> u16
    decreases n,
{
    if n <= 0 {
        0u16
    } else {
        mask_upto(c, n - 1) | (if c[n - 1] is Some {
            1u16 << ((n - 1) as u16)
        } else {
            0u16
        })
    }
}

/// How many of the first `n` slots are populated.
pub open spec fn count_upto(c: Seq<Option<SubChunk>>, n: int) -> int
    decreases n,
{
    if n <= 0 {
        0
    } else {
        count_upto(c, n - 1) + (if c[n - 1] is Some {
            1int
        } else {
            0int
        })
    }
}

/// How many of the low `n` bits of a mask are set.
pub open spec fn count_bits_upto(m: u16, n: int) -> int
    decreases n,
{
    if n <= 0 {
        0
    } else {
        count_bits_upto(m, n - 1) + (if bit16(m, (n - 1) as u16) {
            1int
        } else {
            0int
        })
    }
}

/// The wire bytes of one slot: the sub-chunk's image when populated,
/// nothing when empty.
pub open spec fn slot_wire(c: Seq<Option<SubChunk>>, j: int) -> Seq<u8> {
    match c[j] {
        Some(sc) => sub_chunk_wire(sc.data@),
        None => Seq::empty(),
    }
}

/// The concatenated wire bytes of the first `n` slots, in ascending slot
/// order.
pub open spec fn payload_upto(c: Seq<Option<SubChunk>>, n: int) -> Seq<u8>
    decreases n,
{
    if n <= 0 {
        Seq::empty()
    } else {
        payload_upto(c, n - 1) + slot_wire(c, n - 1)
    }
}

/// The full wire form of a chunk: the 16-bit presence mask, little-endian,
/// then each populated sub-chunk's bytes in ascending slot order.
pub open spec fn chunk_wire(c: Seq<Option<SubChunk>>) -> Seq<u8> {
    u16_le_bytes(mask_upto(c, 16)) + payload_upto(c, 16)
}

/// Whether reading a chunk from the front of `bytes` succeeds: the mask is
/// there, and the bytes after it cover one sub-chunk per set mask bit.
pub open spec fn chunk_read_ok(bytes: Seq<u8>) -> bool {
    &&& bytes.len() >= 2
    &&& bytes.len() - 2 >= 8192 * count_bits_upto(le16(bytes[0], bytes[1]), 16)
}

/// The mathematical content of a slot sequence: per slot, the stored block
/// array, or nothing. This is the value a chunk denotes; it ignores how the
/// arrays are held in memory.
pub open spec fn slots_view(c: Seq<Option<SubChunk>>) -> Seq<Option<Seq<u16>>> {
    Seq::new(c.len(), |j: int| match c[j] {
        Some(sc) => Some(sc.data@),
        None => None,
    })
}

/// The block found at valid world coordinates in a chunk: slot `y >> 4`,
/// local coordinates `(x & 15, y & 15, z & 15)`; an absent slot is air.
pub open spec fn chunk_block_at(c: Seq<Option<SubChunk>>, x: i32, y: i32, z: i32) -> u16 {
    let slot = y >> 4;
    if 0 <= slot < 16 && c[slot as int] is Some {
        c[slot as int]->Some_0.data@[sub_chunk_index((x & 15) as i16, (y & 15) as i16, (z & 15) as i16)]
    } else {
        0u16
    }
}

// ---------------------------------------------------------------------------
// Mask, count and payload lemmas.
// ---------------------------------------------------------------------------

/// Bit `i` of the presence mask over the first `n` slots is set exactly
/// when `i < n` and slot `i` is populated.
pub proof fn lemma_mask_bit(c: Seq<Option<SubChunk>>, n: int, i: u16)
    requires
        0 <= n <= 16,
        i < 16,
    ensures
        bit16(mask_upto(c, n), i) <==> (i < n && c[i as int] is Some),
    decreases n,
{
    if n <= 0 {
        assert((0u16 >> i) & 1 != 1) by (bit_vector)
            requires
                i < 16,
        ;
    } else {
        lemma_mask_bit(c, n - 1, i);
        let prev = mask_upto(c, n - 1);
        let j = (n - 1) as u16;
        if c[n - 1] is Some {
            assert(((prev | (1u16 << j)) >> i) & 1 == 1 <==> ((prev >> i) & 1 == 1 || i == j))
                by (bit_vector)
                requires
                    i < 16,
                    j < 16,
            ;
        } else {
            assert(((prev | 0u16) >> i) & 1 == 1 <==> (prev >> i) & 1 == 1) by (bit_vector);
        }
    }
}

/// A mask whose bits match a slot sequence's population pattern is that
/// sequence's presence mask.
pub proof fn lemma_mask_determined(c: Seq<Option<SubChunk>>, m: u16)
    requires
        forall|i: u16| i < 16 ==> (#[trigger] bit16(m, i) <==> c[i as int] is Some),
    ensures
        mask_upto(c, 16) == m,
{
    let m2 = mask_upto(c, 16);
    assert forall|i: u16| i < 16 implies #[trigger] bit16(m2, i) == bit16(m, i) by {
        lemma_mask_bit(c, 16, i);
    }
    assert(m == m2) by (bit_vector)
        requires
            bit16(m, 0) == bit16(m2, 0),
            bit16(m, 1) == bit16(m2, 1),
            bit16(m, 2) == bit16(m2, 2),
            bit16(m, 3) == bit16(m2, 3),
            bit16(m, 4) == bit16(m2, 4),
            bit16(m, 5) == bit16(m2, 5),
            bit16(m, 6) == bit16(m2, 6),
            bit16(m, 7) == bit16(m2, 7),
            bit16(m, 8) == bit16(m2, 8),
            bit16(m, 9) == bit16(m2, 9),
            bit16(m, 10) == bit16(m2, 10),
            bit16(m, 11) == bit16(m2, 11),
            bit16(m, 12) == bit16(m2, 12),
            bit16(m, 13) == bit16(m2, 13),
            bit16(m, 14) == bit16(m2, 14),
            bit16(m, 15) == bit16(m2, 15),
    ;
}

/// A slot sequence matching a mask's bits has as many populated slots as
/// the mask has set bits.
pub proof fn lemma_count_pointwise(c: Seq<Option<SubChunk>>, m: u16, n: int)
    requires
        0 <= n <= 16,
        forall|i: u16| i < 16 ==> (#[trigger] bit16(m, i) <==> c[i as int] is Some),
    ensures
        count_upto(c, n) == count_bits_upto(m, n),
    decreases n,
{
    if n > 0 {
        lemma_count_pointwise(c, m, n - 1);
        assert(bit16(m, (n - 1) as u16) <==> c[n - 1] is Some);
    }
}

/// Set-bit counts grow with the prefix length.
pub proof fn lemma_count_bits_monotone(m: u16, i: int, n: int)
    requires
        i <= n,
    ensures
        count_bits_upto(m, i) <= count_bits_upto(m, n),
    decreases n - i,
{
    if i < n {
        lemma_count_bits_monotone(m, i, n - 1);
    }
}

/// The populated count never exceeds the number of slots.
pub proof fn lemma_count_upto_bound(c: Seq<Option<SubChunk>>, n: int)
    requires
        n >= 0,
    ensures
        0 <= count_upto(c, n) <= n,
    decreases n,
{
    if n > 0 {
        lemma_count_upto_bound(c, n - 1);
    }
}

/// The payload over the first `n` slots is exactly 8192 bytes per
/// populated slot.
pub proof fn lemma_payload_len(c: Seq<Option<SubChunk>>, n: int)
    requires
        0 <= n <= 16,
        forall|j: int| 0 <= j < 16 && c[j] is Some ==> (#[trigger] c[j])->Some_0.data.len() == 4096,
    ensures
        payload_upto(c, n).len() == 8192 * count_upto(c, n),
    decreases n,
{
    if n > 0 {
        lemma_payload_len(c, n - 1);
    }
}

/// Equal payloads over slot sequences with the same population pattern come
/// from equal slots: the wire form determines each stored sub-chunk.
pub proof fn lemma_payload_injective(c1: Seq<Option<SubChunk>>, c2: Seq<Option<SubChunk>>, n: int)
    requires
        0 <= n <= 16,
        forall|j: int| 0 <= j < 16 && c1[j] is Some ==> (#[trigger] c1[j])->Some_0.data.len() == 4096,
        forall|j: int| 0 <= j < 16 && c2[j] is Some ==> (#[trigger] c2[j])->Some_0.data.len() == 4096,
        forall|j: int| 0 <= j < 16 ==> ((#[trigger] c1[j]) is Some <==> c2[j] is Some),
        payload_upto(c1, n) == payload_upto(c2, n),
    ensures
        forall|j: int| 0 <= j < n ==> #[trigger] slot_wire(c1, j) == slot_wire(c2, j),
    decreases n,
{
    if n > 0 {
        let p1 = payload_upto(c1, n - 1);
        let p2 = payload_upto(c2, n - 1);
        let s1 = slot_wire(c1, n - 1);
        let s2 = slot_wire(c2, n - 1);
        lemma_payload_len(c1, n - 1);
        lemma_payload_len(c2, n - 1);
        lemma_count_pointwise_eq(c1, c2, n - 1);
        assert(p1.len() == p2.len());
        assert(p1 =~= (p1 + s1).take(p1.len() as int));
        assert(p2 =~= (p2 + s2).take(p2.len() as int));
        assert(s1 =~= (p1 + s1).skip(p1.len() as int));
        assert(s2 =~= (p2 + s2).skip(p2.len() as int));
        lemma_payload_injective(c1, c2, n - 1);
        assert(slot_wire(c1, n - 1) == slot_wire(c2, n - 1));
    }
}

/// Two slot sequences with the same population pattern have the same
/// populated count.
pub proof fn lemma_count_pointwise_eq(c1: Seq<Option<SubChunk>>, c2: Seq<Option<SubChunk>>, n: int)
    requires
        0 <= n <= 16,
        forall|j: int| 0 <= j < 16 ==> ((#[trigger] c1[j]) is Some <==> c2[j] is Some),
    ensures
        count_upto(c1, n) == count_upto(c2, n),
    decreases n,
{
    if n > 0 {
        lemma_count_pointwise_eq(c1, c2, n - 1);
    }
}

/// A chunk's wire form is two mask bytes plus 8192 bytes per populated
/// slot: the size header of a chunk-data packet fully determines the
/// payload length.
pub proof fn lemma_chunk_wire_len(c: Seq<Option<SubChunk>>)
    requires
        forall|j: int| 0 <= j < 16 && c[j] is Some ==> (#[trigger] c[j])->Some_0.data.len() == 4096,
    ensures
        chunk_wire(c).len() == 2 + 8192 * count_upto(c, 16),
{
    lemma_payload_len(c, 16);
}

/// The wire form determines the chunk: two well-formed chunks with the same
/// encoding hold the same sub-chunks in the same slots, so decoding an
/// encoding gives back exactly the chunk that was encoded.
pub proof fn lemma_chunk_wire_injective(c1: Chunk, c2: Chunk)
    requires
        c1.inv(),
        c2.inv(),
        chunk_wire(c1.non_air_sub_chunks@) == chunk_wire(c2.non_air_sub_chunks@),
    ensures
        slots_view(c1.non_air_sub_chunks@) == slots_view(c2.non_air_sub_chunks@),
{
    let s1 = c1.non_air_sub_chunks@;
    let s2 = c2.non_air_sub_chunks@;
    let m1 = mask_upto(s1, 16);
    let m2 = mask_upto(s2, 16);
    assert(chunk_wire(s1)[0] == m1 as u8 && chunk_wire(s1)[1] == (m1 >> 8) as u8);
    assert(chunk_wire(s2)[0] == m2 as u8 && chunk_wire(s2)[1] == (m2 >> 8) as u8);
    crate::subchunk::lemma_u16_from_bytes_injective(m1, m2);
    assert forall|j: int| 0 <= j < 16 implies ((#[trigger] s1[j]) is Some <==> s2[j] is Some) by {
        lemma_mask_bit(s1, 16, j as u16);
        lemma_mask_bit(s2, 16, j as u16);
        assert(bit16(m1, j as u16) == bit16(m2, j as u16));
    }
    assert(payload_upto(s1, 16) =~= chunk_wire(s1).skip(2));
    assert(payload_upto(s2, 16) =~= chunk_wire(s2).skip(2));
    lemma_payload_injective(s1, s2, 16);
    assert forall|j: int| 0 <= j < 16 implies slots_view(s1)[j] == slots_view(s2)[j] by {
        assert(slot_wire(s1, j) == slot_wire(s2, j));
        if s1[j] is Some {
            crate::subchunk::lemma_sub_chunk_wire_injective(s1[j]->Some_0.data@, s2[j]->Some_0.data@);
        }
    }
    assert(slots_view(s1) =~= slots_view(s2));
}

// ---------------------------------------------------------------------------
// Chunk.
// ---------------------------------------------------------------------------

impl View for Chunk {
    type V = Seq<Option<Seq<u16>>>;

    /// A chunk denotes its slot contents: per slot, the stored block array
    /// or nothing.
    open spec fn view(&self) -> Self::V {
        slots_view(self.non_air_sub_chunks@)
    }
}

/// What the empty chunk denotes: sixteen empty slots.
pub open spec fn empty_chunk_view() -> Seq<Option<Seq<u16>>> {
    Seq::new(16, |j: int| None::<Seq<u16>>)
}

impl Chunk {
    /// A chunk always has exactly 16 slots, and every stored sub-chunk is
    /// well-formed.
    pub open spec fn inv(&self) -> bool {
        &&& self.non_air_sub_chunks.len() == 16
        &&& forall|j: int|
            0 <= j < 16 && self.non_air_sub_chunks@[j] is Some ==> (
            #[trigger] self.non_air_sub_chunks@[j])->Some_0.data.len() == 4096
    }

    /// Whether no stored sub-chunk is all air, the form every chunk built
    /// through `empty` and `set_sub_chunk` keeps.
    pub open spec fn no_stored_air(&self) -> bool {
        forall|j: int|
            0 <= j < 16 && self.non_air_sub_chunks@[j] is Some ==> !all_air(
                (#[trigger] self.non_air_sub_chunks@[j])->Some_0.data@,
            )
    }

    /// The chunk with every slot empty: all air.
    pub fn empty() -> (r: Chunk)
        ensures
            r.inv(),
            r.no_stored_air(),
            forall|j: int| 0 <= j < 16 ==> (#[trigger] r.non_air_sub_chunks@[j]) is None,
    {
        let mut slots: Vec<Option<SubChunk>> = Vec::new();
        let mut i: usize = 0;
        while i < 16
            invariant
                i <= 16,
                slots.len() == i,
                forall|j: int| 0 <= j < i ==> (#[trigger] slots@[j]) is None,
            decreases 16 - i,
        {
            slots.push(None);
            i += 1;
        }
        Chunk { non_air_sub_chunks: slots }
    }

    /// Stores a sub-chunk in a vertical slot. An all-air sub-chunk empties
    /// the slot instead, so the chunk never stores one.
    pub fn set_sub_chunk(&mut self, slot: usize, sc: SubChunk)
        requires
            old(self).inv(),
            slot < 16,
            sc.inv(),
        ensures
            final(self).inv(),
            final(self).non_air_sub_chunks@ == old(self).non_air_sub_chunks@.update(
                slot as int,
                if all_air(sc.data@) {
                    None
                } else {
                    Some(sc)
                },
            ),
            old(self).no_stored_air() ==> final(self).no_stored_air(),
    {
        let entry = if sc.is_all_air() {
            None
        } else {
            Some(sc)
        };
        self.non_air_sub_chunks.set(slot, entry);
    }

    /// A slot-for-slot copy of this chunk, denoting the same contents.
    pub fn duplicate(&self) -> (r: Chunk)
        requires
            self.inv(),
        ensures
            r.inv(),
            r@ == self@,
    {
        let mut slots: Vec<Option<SubChunk>> = Vec::new();
        let mut i: usize = 0;
        while i < 16
            invariant
                self.inv(),
                i <= 16,
                slots.len() == i,
                forall|j: int|
                    0 <= j < i ==> ((#[trigger] slots@[j]) is Some <==> self.non_air_sub_chunks@[j]
                        is Some),
                forall|j: int|
                    0 <= j < i && slots@[j] is Some ==> (#[trigger] slots@[j])->Some_0.data@
                        == self.non_air_sub_chunks@[j]->Some_0.data@,
            decreases 16 - i,
        {
            match &self.non_air_sub_chunks[i] {
                Some(sc) => {
                    slots.push(Some(sc.duplicate()));
                },
                None => {
                    slots.push(None);
                },
            }
            i += 1;
        }
        let r = Chunk { non_air_sub_chunks: slots };
        proof {
            assert(r@ =~= self@);
        }
        r
    }

    /// The presence bitmask of this chunk: bit `i` is set exactly when slot
    /// `i` is populated.
    pub fn populated_slots(&self) -> (r: u16)
        requires
            self.inv(),
        ensures
            r == mask_upto(self.non_air_sub_chunks@, 16),
    {
        let mut mask: u16 = 0;
        let mut i: usize = 0;
        while i < 16
            invariant
                self.inv(),
                i <= 16,
                mask == mask_upto(self.non_air_sub_chunks@, i as int),
            decreases 16 - i,
        {
            if self.non_air_sub_chunks[i].is_some() {
                mask = mask | (1u16 << (i as u16));
            } else {
                proof {
                    let m = mask_upto(self.non_air_sub_chunks@, i as int);
                    assert(m | 0u16 == m) by (bit_vector);
                }
            }
            i += 1;
        }
        mask
    }

    /// The block at a position: air if the position's slot is empty, else
    /// the stored sub-chunk's block at the local coordinates. A position
    /// outside the valid ranges is reported by axis, as `validate` does.
    pub fn get_block(&self, pos: BlockPos) -> (r: Result<BlockId, InvalidPositionError>)
        requires
            self.inv(),
        ensures
            r is Ok <==> valid_x(pos.x) && valid_y(pos.y) && valid_z(pos.z),
            match r {
                Ok(b) => b.0 == chunk_block_at(self.non_air_sub_chunks@, pos.x, pos.y, pos.z),
                Err(e) => match e {
                    InvalidPositionError::InvalidX(v) => v == pos.x && !valid_x(pos.x),
                    InvalidPositionError::InvalidY(v) => v == pos.y && valid_x(pos.x) && !valid_y(
                        pos.y,
                    ),
                    InvalidPositionError::InvalidZ(v) => v == pos.z && valid_x(pos.x) && valid_y(
                        pos.y,
                    ) && !valid_z(pos.z),
                },
            },
    {
        match pos.validate() {
            Ok(_) => {},
            Err(e) => { return Err(e); },
        }
        let y = pos.y();
        let slot: i32 = y >> 4u32;
        if 0 <= slot && slot < 16 {
            match &self.non_air_sub_chunks[slot as usize] {
                Some(sc) => {
                    let lx = (pos.x() & 15) as i16;
                    let ly = (y & 15) as i16;
                    let lz = (pos.z() & 15) as i16;
                    proof {
                        lemma_local_coords(pos.x, pos.y, pos.z);
                    }
                    Ok(sc.get_block(lx, ly, lz))
                },
                None => Ok(BlockId::default()),
            }
        } else {
            Ok(BlockId::default())
        }
    }
}

/// Masking world coordinates to their low four bits gives local sub-chunk
/// coordinates in range, unchanged by the narrowing cast.
pub proof fn lemma_local_coords(x: i32, y: i32, z: i32)
    ensures
        0 <= (x & 15) < 16,
        0 <= (y & 15) < 16,
        0 <= (z & 15) < 16,
        ((x & 15) as i16) == (x & 15) as int,
        ((y & 15) as i16) == (y & 15) as int,
        ((z & 15) as i16) == (z & 15) as int,
{
    assert(0 <= (x & 15) < 16 && ((x & 15) as i16) == x & 15) by (bit_vector);
    assert(0 <= (y & 15) < 16 && ((y & 15) as i16) == y & 15) by (bit_vector);
    assert(0 <= (z & 15) < 16 && ((z & 15) as i16) == z & 15) by (bit_vector);
}

impl Packetable for Chunk {
    open spec fn wf(&self) -> bool {
        self.inv()
    }

    /// A 16-bit little-endian presence mask, then each populated
    /// sub-chunk's 8192 bytes in ascending slot order.
    open spec fn wire(&self) -> Seq<u8> {
        chunk_wire(self.non_air_sub_chunks@)
    }

    /// Reading succeeds when the mask is there and the bytes after it cover
    /// one sub-chunk per set mask bit.
    open spec fn read_ok(bytes: Seq<u8>) -> bool {
        chunk_read_ok(bytes)
    }

    fn write_to_buffer(self, buffer: &mut Vec<u8>) {
        let ghost c = self.non_air_sub_chunks@;
        let mask = self.populated_slots();
        buffer.write_u16(mask);
        let mut i: usize = 0;
        while i < 16
            invariant
                self.inv(),
                i <= 16,
                c == self.non_air_sub_chunks@,
                mask == mask_upto(c, 16),
                buffer@ == old(buffer)@ + u16_le_bytes(mask) + payload_upto(c, i as int),
            decreases 16 - i,
        {
            match &self.non_air_sub_chunks[i] {
                Some(sc) => {
                    sc.write_bytes(buffer);
                },
                None => {
                    proof {
                        assert(payload_upto(c, i + 1) =~= payload_upto(c, i as int));
                    }
                },
            }
            proof {
                assert(buffer@ =~= old(buffer)@ + u16_le_bytes(mask) + payload_upto(c, i + 1));
            }
            i += 1;
        }
        assert(buffer@ =~= old(buffer)@ + self.wire());
    }

    fn read_from_buf(reader: &mut PacketBuf) -> (r: Result<Self, CbsBufferError>) {
        let ghost bytes = old(reader).remaining();
        let mask = match reader.next_u16() {
            Ok(v) => v,
            Err(e) => { return Err(e); },
        };
        let mut slots: Vec<Option<SubChunk>> = Vec::new();
        let mut i: usize = 0;
        while i < 16
            invariant
                reader.wf(),
                reader.data == old(reader).data,
                bytes == old(reader).remaining(),
                bytes.len() >= 2,
                mask == le16(bytes[0], bytes[1]),
                i <= 16,
                slots.len() == i,
                forall|j: int| 0 <= j < i ==> ((#[trigger] slots@[j]) is Some <==> bit16(mask, j as u16)),
                forall|j: int|
                    0 <= j < i && slots@[j] is Some ==> (#[trigger] slots@[j])->Some_0.data.len()
                        == 4096,
                reader.index == old(reader).index + 2 + payload_upto(slots@, i as int).len(),
                payload_upto(slots@, i as int) == bytes.subrange(
                    2,
                    2 + payload_upto(slots@, i as int).len() as int,
                ),
            decreases 16 - i,
        {
            let ghost slots_pre = slots@;
            let ghost len_pre = payload_upto(slots_pre, i as int).len();
            let populated = (mask >> (i as u16)) & 1 == 1;
            if populated {
                let sc = match SubChunk::read_from_buf(reader) {
                    Ok(v) => v,
                    Err(e) => {
                        proof {
                            lemma_decode_shortfall(bytes, mask, slots_pre, i as int);
                        }
                        return Err(e);
                    },
                };
                proof {
                    assert(sc.wire() == sub_chunk_wire(sc.data@));
                    assert(sub_chunk_wire(sc.data@).len() == 8192);
                }
                slots.push(Some(sc));
            } else {
                slots.push(None);
            }
            proof {
                assert(slots@ == slots_pre.push(slots@[i as int]));
                assert forall|j: int| 0 <= j <= i implies #[trigger] payload_upto(
                    slots@,
                    j,
                ) == payload_upto(slots_pre, j) by {
                    lemma_payload_prefix_stable(slots_pre, slots@, j);
                }
                assert(payload_upto(slots@, i + 1) == payload_upto(slots@, i as int) + slot_wire(
                    slots@,
                    i as int,
                ));
                assert(payload_upto(slots@, i + 1) =~= bytes.subrange(
                    2,
                    2 + payload_upto(slots@, i + 1).len() as int,
                ));
            }
            i += 1;
        }
        let chunk = Chunk { non_air_sub_chunks: slots };
        proof {
            let c = chunk.non_air_sub_chunks@;
            assert forall|j: u16| j < 16 implies (#[trigger] bit16(mask, j) <==> c[j as int]
                is Some) by {}
            lemma_mask_determined(c, mask);
            crate::block::lemma_le16_bytes_round_trip(bytes[0], bytes[1]);
            assert(chunk.wire() =~= bytes.take(chunk.wire().len() as int));
            lemma_count_pointwise(c, mask, 16);
            lemma_payload_len(c, 16);
        }
        Ok(chunk)
    }
}

/// Pushing a new slot onto a sequence leaves the payload of the existing
/// prefix unchanged.
pub proof fn lemma_payload_prefix_stable(
    pre: Seq<Option<SubChunk>>,
    post: Seq<Option<SubChunk>>,
    n: int,
)
    requires
        0 <= n <= pre.len(),
        post.len() == pre.len() + 1,
        forall|j: int| 0 <= j < pre.len() ==> post[j] == pre[j],
    ensures
        payload_upto(post, n) == payload_upto(pre, n),
    decreases n,
{
    if n > 0 {
        lemma_payload_prefix_stable(pre, post, n - 1);
    }
}

/// When a sub-chunk read fails mid-chunk, the whole byte sequence was too
/// short for its own mask: fewer than 8192 bytes remained for a slot whose
/// mask bit is set.
proof fn lemma_decode_shortfall(bytes: Seq<u8>, mask: u16, built: Seq<Option<SubChunk>>, i: int)
    requires
        0 <= i < 16,
        built.len() == i,
        bit16(mask, i as u16),
        forall|j: int| 0 <= j < i ==> ((#[trigger] built[j]) is Some <==> bit16(mask, j as u16)),
        forall|j: int|
            0 <= j < i && built[j] is Some ==> (#[trigger] built[j])->Some_0.data.len() == 4096,
        bytes.len() >= 2,
        bytes.len() < 2 + payload_upto(built, i).len() + 8192,
    ensures
        !(bytes.len() - 2 >= 8192 * count_bits_upto(le16(bytes[0], bytes[1]), 16)) || mask != le16(
            bytes[0],
            bytes[1],
        ),
{
    if mask == le16(bytes[0], bytes[1]) {
        lemma_payload_len_partial(built, mask, i);
        assert(payload_upto(built, i).len() == 8192 * count_bits_upto(mask, i));
        assert(count_bits_upto(mask, i + 1) == count_bits_upto(mask, i) + 1);
        lemma_count_bits_monotone(mask, i + 1, 16);
        assert(bytes.len() - 2 < 8192 * (count_bits_upto(mask, i) + 1));
    }
}

/// The payload of a partially decoded chunk is 8192 bytes per set mask bit
/// already processed.
proof fn lemma_payload_len_partial(built: Seq<Option<SubChunk>>, mask: u16, i: int)
    requires
        0 <= i <= 16,
        forall|j: int| 0 <= j < i ==> ((#[trigger] built[j]) is Some <==> bit16(mask, j as u16)),
        forall|j: int|
            0 <= j < i && built[j] is Some ==> (#[trigger] built[j])->Some_0.data.len() == 4096,
    ensures
        payload_upto(built, i).len() == 8192 * count_bits_upto(mask, i),
    decreases i,
{
    if i > 0 {
        lemma_payload_len_partial(built, mask, i - 1);
    }
}

impl DynamicSizePacketable for Chunk {
    /// The wire length of a chunk of `units` populated sub-chunks: two mask
    /// bytes plus 8192 per sub-chunk.
    open spec fn size_in_bytes_of_units(units: u8) -> nat {
        (2 + 8192 * (units as nat)) as nat
    }

    open spec fn size_in_units_spec(&self) -> u8 {
        count_upto(self.non_air_sub_chunks@, 16) as u8
    }

    fn size_in_bytes(units: u8) -> (r: usize) {
        2 + 8192 * (units as usize)
    }

    fn size_in_units(&self) -> (r: u8) {
        let mut count: u8 = 0;
        let mut i: usize = 0;
        while i < 16
            invariant
                self.wf(),
                i <= 16,
                count == count_upto(self.non_air_sub_chunks@, i as int),
                count <= i,
            decreases 16 - i,
        {
            if self.non_air_sub_chunks[i].is_some() {
                count += 1;
            }
            i += 1;
        }
        count
    }

    fn current_size_in_bytes(&self) -> (r: usize) {
        let units = self.size_in_units();
        proof {
            lemma_count_upto_bound(self.non_air_sub_chunks@, 16);
        }
        2 + 8192 * (units as usize)
    }
}

} // verus!
