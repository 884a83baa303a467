use voxelsync::block_pos::BlockPos;
use voxelsync::cbs::{PacketBuf, Packetable};
use voxelsync::chunk_pos::ChunkPos;
use voxelsync::error::InvalidPositionError;

#[test]
pub fn test_block_pos() {
    let pos = BlockPos::new(32, 6, 788);
    let long = pos.as_long();
    let new_pos = BlockPos::from_long(long);

    assert_eq!(pos, new_pos);
}

#[test]
fn block_pos_round_trip_negative() {
    let pos = BlockPos::new(-1, -512, -0x400_0000);
    assert_eq!(BlockPos::from_long(pos.as_long()), pos);
    let pos = BlockPos::new(0x3ff_ffff, 511, -1);
    assert_eq!(BlockPos::from_long(pos.as_long()), pos);
}

#[test]
fn block_pos_pack_layout() {
    // x in the high 27 bits, z in the middle 27, y in the low 10.
    let pos = BlockPos::new(1, 1, 1);
    assert_eq!(pos.as_long(), (1u64 << 37) | (1u64 << 10) | 1u64);
    let pos = BlockPos::new(-1, 0, 0);
    assert_eq!(pos.as_long(), 0x7ff_ffffu64 << 37);
}

#[test]
fn block_pos_getters_and_offsets() {
    let pos = BlockPos::new(3, -4, 5);
    assert_eq!(pos.x(), 3);
    assert_eq!(pos.y(), -4);
    assert_eq!(pos.z(), 5);
    assert_eq!(pos.offset_up(), BlockPos::new(3, -3, 5));
    assert_eq!(pos.offset_down(), BlockPos::new(3, -5, 5));
    assert_eq!(pos.offset_north(), BlockPos::new(3, -4, 4));
    assert_eq!(pos.offset_south(), BlockPos::new(3, -4, 6));
    assert_eq!(pos.offset_west(), BlockPos::new(2, -4, 5));
    assert_eq!(pos.offset_east(), BlockPos::new(4, -4, 5));
}

#[test]
fn block_pos_validate_reports_first_bad_axis() {
    assert!(BlockPos::new(0, 0, 0).validate().is_ok());
    let bad = BlockPos::from_long(BlockPos::new(0, 0, 0).as_long());
    assert!(bad.validate().is_ok());
    // Out-of-range coordinates come back from an unvalidated unpack only in
    // range, so build them through the public constructor's valid edge and
    // offsets.
    let mut pos = BlockPos::new(0, 511, 0);
    pos = pos.offset_up();
    assert_eq!(pos.validate(), Err(InvalidPositionError::InvalidY(512)));
    let mut pos = BlockPos::new(-0x400_0000, 0, 0);
    pos = pos.offset_west();
    assert_eq!(
        pos.validate(),
        Err(InvalidPositionError::InvalidX(-0x400_0001))
    );
    let mut pos = BlockPos::new(0, 0, 0x3ff_ffff);
    pos = pos.offset_south();
    assert_eq!(pos.validate(), Err(InvalidPositionError::InvalidZ(0x400_0000)));
}

#[test]
fn block_pos_chunk_of_negative_coordinates() {
    // An arithmetic shift right by four: floor division, also below zero.
    let chunk = BlockPos::new(-1, 0, -16).get_chunk();
    assert_eq!((chunk.x(), chunk.z()), (-1, -1));
    let chunk = BlockPos::new(17, 0, -17).get_chunk();
    assert_eq!((chunk.x(), chunk.z()), (1, -2));
}

#[test]
fn block_pos_wire_is_packed_key_little_endian() {
    let pos = BlockPos::new(1, 1, 1);
    let mut buffer: Vec<u8> = Vec::new();
    pos.write_to_buffer(&mut buffer);
    let long = (1u64 << 37) | (1u64 << 10) | 1u64;
    assert_eq!(buffer, long.to_le_bytes().to_vec());
    let mut reader = PacketBuf::new(buffer);
    let back = BlockPos::read_from_buf(&mut reader).unwrap();
    assert_eq!(back, pos);
}

#[test]
fn chunk_pos_key_layout() {
    let pos = ChunkPos::new(1, 2);
    assert_eq!(pos.as_long(), (1u64 << 32) | 2u64);
    // A negative z sign-extends over the x half: the documented collision.
    assert_eq!(ChunkPos::new(0, -1).as_long(), u64::MAX);
}

#[test]
fn chunk_pos_wire_round_trip() {
    for &(x, z) in &[(5i32, 5i32), (-1, 1), (-0x80_0000, 0x7f_ffff), (123456, -654321)] {
        let mut buffer: Vec<u8> = Vec::new();
        ChunkPos::new(x, z).write_to_buffer(&mut buffer);
        assert_eq!(buffer.len(), 6);
        let mut reader = PacketBuf::new(buffer);
        let back = ChunkPos::read_from_buf(&mut reader).unwrap();
        assert_eq!((back.x(), back.z()), (x, z));
    }
}

#[test]
fn chunk_pos_wire_is_big_endian() {
    let mut buffer: Vec<u8> = Vec::new();
    ChunkPos::new(0x0102_0304, 5).write_to_buffer(&mut buffer);
    // Only the low 24 bits go out, most significant byte first.
    assert_eq!(buffer, vec![0x02u8, 0x03, 0x04, 0x00, 0x00, 0x05]);
}
