use vstd::prelude::*;
use crate::block::BlockId;
use crate::block_pos::{BlockPos, pack_block_pos};
use crate::cbs::{DynamicSizePacketable, PacketBuf, Packetable, u16_le_bytes, u64_le_bytes};
use crate::chunk::{Chunk, chunk_read_ok, chunk_wire, count_upto};
use crate::chunk_pos::{ChunkPos, i32_be24_bytes};
use crate::error::CbsBufferError;

verus! {

/// The closed catalog of packet types, in wire-code order: the wire code of
/// a type is its position in this catalog.
#[derive(Debug, Clone, Copy, PartialEq, Eq, Structural)]
pub enum PacketType {
    Ping,
    BlockUpdate,
    ChunkData,
}

impl PacketType {
    /// The 16-bit wire code of this packet type.
    pub open spec fn code_spec(&self) -> u16 {
        match self {
            PacketType::Ping => 0,
            PacketType::BlockUpdate => 1,
            PacketType::ChunkData => 2,
        }
    }

    pub fn to_u16(&self) -> (r: u16)
        ensures
            r == self.code_spec(),
    {
        match self {
            PacketType::Ping => 0,
            PacketType::BlockUpdate => 1,
            PacketType::ChunkData => 2,
        }
    }

    /// The packet type of a 16-bit wire code; `None` for a code outside the
    /// catalog.
    pub fn from_u16(value: u16) -> (r: Option<PacketType>)
        ensures
            r is Some <==> value < 3,
            match r {
                Some(t) => t.code_spec() == value,
                None => value >= 3,
            },
    {
        match value {
            0 => Some(PacketType::Ping),
            1 => Some(PacketType::BlockUpdate),
            2 => Some(PacketType::ChunkData),
            _ => None,
        }
    }

    /// Whether payloads of this type vary in size, so that the wire carries
    /// a size header. Only chunk data varies: its length depends on how
    /// many sub-chunks are populated.
    pub fn size_can_vary(&self) -> (r: bool)
        ensures
            r == (self is ChunkData),
    {
        match self {
            PacketType::ChunkData => true,
            _ => false,
        }
    }

    /// The exact payload size of a packet of this type: what a receiver
    /// must read before decoding. A variable-size type derives it from the
    /// size header, which must then be given.
    pub open spec fn required_buffer_size_spec(&self, size_header: Option<u8>) -> int {
        match self {
            PacketType::Ping => 0,
            PacketType::BlockUpdate => 10,
            PacketType::ChunkData => 6 + 2 + 8192 * (size_header->Some_0 as int),
        }
    }

    /// The exact payload size of a packet of this type; see
    /// `required_buffer_size_spec`.
    pub fn get_required_buffer_size(&self, size_header: Option<u8>) -> (r: usize)
        requires
            self is ChunkData ==> size_header is Some,
        ensures
            r == self.required_buffer_size_spec(size_header),
    {
        match self {
            PacketType::Ping => 0,
            PacketType::BlockUpdate => 10,
            PacketType::ChunkData => {
                let units = match size_header {
                    Some(u) => u,
                    None => 0,
                };
                8 + 8192 * (units as usize)
            },
        }
    }
}

/// The payload of one packet.
#[derive(Debug, Clone)]
pub enum PacketData {
    Ping,
    BlockUpdate(BlockPos, BlockId),
    ChunkData(ChunkPos, Chunk),
}

/// Whether reading a payload of the given type from the front of `bytes`
/// succeeds.
pub open spec fn data_read_ok(packet_type: PacketType, bytes: Seq<u8>) -> bool {
    match packet_type {
        PacketType::Ping => true,
        PacketType::BlockUpdate => bytes.len() >= 10,
        PacketType::ChunkData => bytes.len() >= 6 && chunk_read_ok(bytes.skip(6)),
    }
}

impl PacketData {
    /// The chunk of a chunk-data payload is well-formed; other payloads
    /// carry plain values.
    pub open spec fn wf(&self) -> bool {
        match self {
            PacketData::ChunkData(_, chunk) => chunk.inv(),
            _ => true,
        }
    }

    /// The packet type this payload belongs to.
    pub open spec fn packet_type_spec(&self) -> PacketType {
        match self {
            PacketData::Ping => PacketType::Ping,
            PacketData::BlockUpdate(_, _) => PacketType::BlockUpdate,
            PacketData::ChunkData(_, _) => PacketType::ChunkData,
        }
    }

    /// The wire bytes of this payload: each component's wire image in
    /// order, and nothing else.
    pub open spec fn data_wire(&self) -> Seq<u8> {
        match self {
            PacketData::Ping => Seq::empty(),
            PacketData::BlockUpdate(pos, block) => u64_le_bytes(
                pack_block_pos(pos.x, pos.y, pos.z),
            ) + u16_le_bytes(block.0),
            PacketData::ChunkData(pos, chunk) => i32_be24_bytes(pos.x) + i32_be24_bytes(pos.z)
                + chunk_wire(chunk.non_air_sub_chunks@),
        }
    }

    /// The value of the size header for this payload: the populated
    /// sub-chunk count for chunk data, nothing for fixed-size payloads.
    pub open spec fn size_header_spec(&self) -> Option<u8> {
        match self {
            PacketData::ChunkData(_, chunk) => Some(
                count_upto(chunk.non_air_sub_chunks@, 16) as u8,
            ),
            _ => None,
        }
    }

    /// Appends this payload's wire image to the buffer.
    pub fn write_to_buffer(self, buffer: &mut Vec<u8>)
        requires
            self.wf(),
        ensures
            final(buffer)@ == old(buffer)@ + self.data_wire(),
    {
        match self {
            PacketData::Ping => {
                assert(buffer@ =~= buffer@ + Seq::<u8>::empty());
            },
            PacketData::BlockUpdate(pos, block) => {
                pos.write_to_buffer(buffer);
                block.write_to_buffer(buffer);
                assert(buffer@ =~= old(buffer)@ + (PacketData::BlockUpdate(pos, block)).data_wire());
            },
            PacketData::ChunkData(pos, chunk) => {
                let ghost d = PacketData::ChunkData(pos, chunk);
                pos.write_to_buffer(buffer);
                chunk.write_to_buffer(buffer);
                assert(buffer@ =~= old(buffer)@ + d.data_wire());
            },
        }
    }

    /// The size header to send for this payload, present exactly when the
    /// packet type's size can vary.
    pub fn size_header(&self) -> (r: Option<u8>)
        requires
            self.wf(),
        ensures
            r == self.size_header_spec(),
    {
        match self {
            PacketData::ChunkData(_, chunk) => Some(chunk.size_in_units()),
            _ => None,
        }
    }

    /// Reads one payload of the given type from the reader. Succeeds
    /// exactly when the remaining bytes start with a whole payload; the
    /// consumed bytes are then the payload's own wire image.
    pub fn read_data(packet_type: PacketType, buf: &mut PacketBuf) -> (r: Result<
        PacketData,
        CbsBufferError,
    >)
        requires
            old(buf).wf(),
        ensures
            final(buf).wf(),
            final(buf).data == old(buf).data,
            r is Ok <==> data_read_ok(packet_type, old(buf).remaining()),
            match r {
                Ok(d) => {
                    &&& d.wf()
                    &&& d.packet_type_spec() == packet_type
                    &&& final(buf).index == old(buf).index + d.data_wire().len()
                    &&& d.data_wire() == old(buf).remaining().take(d.data_wire().len() as int)
                },
                Err(_) => old(buf).index <= final(buf).index,
            },
    {
        match packet_type {
            PacketType::Ping => {
                let d = PacketData::Ping;
                assert(d.data_wire() =~= old(buf).remaining().take(0));
                Ok(d)
            },
            PacketType::BlockUpdate => {
                let pos = match BlockPos::read_from_buf(buf) {
                    Ok(v) => v,
                    Err(e) => { return Err(e); },
                };
                assert(buf.remaining() =~= old(buf).remaining().skip(8));
                let block = match BlockId::read_from_buf(buf) {
                    Ok(v) => v,
                    Err(e) => { return Err(e); },
                };
                let d = PacketData::BlockUpdate(pos, block);
                assert(d.data_wire() =~= old(buf).remaining().take(10));
                Ok(d)
            },
            PacketType::ChunkData => {
                let pos = match ChunkPos::read_from_buf(buf) {
                    Ok(v) => v,
                    Err(e) => { return Err(e); },
                };
                assert(buf.remaining() =~= old(buf).remaining().skip(6));
                let chunk = match Chunk::read_from_buf(buf) {
                    Ok(v) => v,
                    Err(e) => { return Err(e); },
                };
                let d = PacketData::ChunkData(pos, chunk);
                assert(d.data_wire() =~= old(buf).remaining().take(
                    d.data_wire().len() as int,
                ));
                Ok(d)
            },
        }
    }
}

} // verus!
