use vstd::prelude::*;
use crate::chunk_pos::ChunkPos;

verus! {

/// A block id whose type index is not in the closed variant table.
#[derive(Debug, Clone, Copy, PartialEq, Eq, Structural)]
pub struct InvalidBlockIdError(pub u8);

/// A read past the end of a packet buffer: `NotEnoughData(needed, available)`.
#[derive(Debug, Clone, Copy, PartialEq, Eq, Structural)]
pub enum CbsBufferError {
    NotEnoughData(usize, usize),
}

/// Failure of the procedural generator for the given chunk position.
#[derive(Debug, Clone, Copy, PartialEq, Eq, Structural)]
pub enum ChunkProviderError {
    ChunkGenerationFailedError(ChunkPos),
}

/// A sub-chunk blob of the wrong length; carries the length that was given.
#[derive(Debug, Clone, Copy, PartialEq, Eq, Structural)]
pub struct InvalidSubChunkDataError(pub usize);

/// Malformed chunk data: a bad presence header, or a payload whose size
/// does not match the header (`InvalidDataSize(actual, expected)`).
#[derive(Debug, Clone, Copy, PartialEq, Eq, Structural)]
pub enum InvalidChunkDataError {
    InvalidHeaderSize(usize),
    InvalidDataSize(usize, usize),
}

/// A packet that cannot be read from the wire: an unknown packet type code,
/// or fewer payload bytes than the type requires (`NotEnoughData(needed, available)`).
#[derive(Debug, Clone, Copy, PartialEq, Eq, Structural)]
pub enum PacketReadError {
    InvalidPacketType(u16),
    NotEnoughData(u32, u32),
}

/// A position that could not be deserialized for want of bytes; carries the
/// number of bits that were available.
#[derive(Debug, Clone, Copy, PartialEq, Eq, Structural)]
pub enum PositionDeserializeError {
    BlockPos(u32),
    ChunkPos(u32),
}

/// A block position with a coordinate outside its valid axis range; carries
/// the offending coordinate.
#[derive(Debug, Clone, Copy, PartialEq, Eq, Structural)]
pub enum InvalidPositionError {
    InvalidX(i32),
    InvalidY(i32),
    InvalidZ(i32),
}

/// Failure to hand a packet to a transport queue whose consumer is gone.
#[derive(Debug, Clone, Copy, PartialEq, Eq, Structural)]
pub enum PacketSendError {
    ConnectionClosed,
}

/// Failure of the client chunk cache to request a missing chunk.
#[derive(Debug, Clone, Copy, PartialEq, Eq, Structural)]
pub enum ClientChunkStorageError {
    RequestChannelClosed,
}

} // verus!
