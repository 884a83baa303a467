use voxelsync::block_pos::BlockPos;
use voxelsync::cbs::{DynamicSizePacketable, FixedSizePacketable, PacketBuf, Packetable};
use voxelsync::chunk::Chunk;
use voxelsync::error::CbsBufferError;
use voxelsync::subchunk::SubChunk;

fn sub_chunk_filled_with(id: u16) -> SubChunk {
    SubChunk::new(vec![id; 4096]).unwrap()
}

#[test]
fn sub_chunk_new_rejects_wrong_lengths() {
    let err = SubChunk::new(vec![0u16; 10]).unwrap_err();
    assert_eq!(err.0, 10);
    assert!(SubChunk::new(vec![0u16; 4096]).is_ok());
}

#[test]
fn sub_chunk_linear_index() {
    let mut data = vec![0u16; 4096];
    // index = (y << 8) | (z << 4) | x
    data[(3 << 8) | (2 << 4) | 1] = 0x0101;
    let sc = SubChunk::new(data).unwrap();
    assert_eq!(sc.get_block(1, 3, 2).0, 0x0101);
    assert_eq!(sc.get_block(2, 3, 1).0, 0);
}

#[test]
fn sub_chunk_wire_is_ids_little_endian_in_order() {
    let mut data = vec![0u16; 4096];
    data[0] = 0x1234;
    data[1] = 0x0001;
    let sc = SubChunk::new(data).unwrap();
    let mut buffer: Vec<u8> = Vec::new();
    sc.write_bytes(&mut buffer);
    assert_eq!(buffer.len(), 8192);
    assert_eq!(&buffer[0..4], &[0x34u8, 0x12, 0x01, 0x00]);
    let mut reader = PacketBuf::new(buffer);
    let back = SubChunk::read_from_buf(&mut reader).unwrap();
    assert_eq!(back.data, sc.data);
}

#[test]
fn sub_chunk_default_is_all_air() {
    let sc = SubChunk::default();
    assert!(sc.is_all_air());
    assert!(!sub_chunk_filled_with(1).is_all_air());
    assert_eq!(SubChunk::size_in_bytes(), 8192);
}

#[test]
fn chunk_stores_no_all_air_sub_chunk() {
    let mut chunk = Chunk::empty();
    chunk.set_sub_chunk(4, SubChunk::default());
    assert_eq!(chunk.populated_slots(), 0);
    chunk.set_sub_chunk(4, sub_chunk_filled_with(0x0100));
    assert_eq!(chunk.populated_slots(), 1 << 4);
    assert_eq!(chunk.size_in_units(), 1);
}

#[test]
fn chunk_get_block_uses_slot_and_local_coordinates() {
    let mut chunk = Chunk::empty();
    let mut data = vec![0u16; 4096];
    data[(5 << 8) | (6 << 4) | 7] = 0x0101;
    chunk.set_sub_chunk(2, SubChunk::new(data).unwrap());
    // Slot 2 holds y 32 to 47; y = 37 has local y 5.
    assert_eq!(chunk.get_block(BlockPos::new(7, 37, 6)).unwrap().0, 0x0101);
    assert_eq!(chunk.get_block(BlockPos::new(7, 36, 6)).unwrap().0, 0);
    // An empty slot is air, and so is any y outside the stored column.
    assert_eq!(chunk.get_block(BlockPos::new(7, 100, 6)).unwrap().0, 0);
    assert_eq!(chunk.get_block(BlockPos::new(7, -1, 6)).unwrap().0, 0);
}

#[test]
fn chunk_get_block_rejects_invalid_positions() {
    let chunk = Chunk::empty();
    let mut pos = BlockPos::new(0, 511, 0);
    pos = pos.offset_up();
    assert!(chunk.get_block(pos).is_err());
}

#[test]
fn chunk_codec_round_trip_empty() {
    let mut buffer: Vec<u8> = Vec::new();
    Chunk::empty().write_to_buffer(&mut buffer);
    assert_eq!(buffer, vec![0u8, 0]);
    let mut reader = PacketBuf::new(buffer);
    let back = Chunk::read_from_buf(&mut reader).unwrap();
    assert_eq!(back.populated_slots(), 0);
}

#[test]
fn chunk_codec_round_trip_one_sub_chunk() {
    let mut chunk = Chunk::empty();
    let mut data = vec![0u16; 4096];
    data[77] = 0x0101;
    chunk.set_sub_chunk(3, SubChunk::new(data.clone()).unwrap());
    let mask = chunk.populated_slots();
    let mut buffer: Vec<u8> = Vec::new();
    chunk.write_to_buffer(&mut buffer);
    assert_eq!(buffer.len(), 2 + 8192);
    assert_eq!(&buffer[0..2], &(mask.to_le_bytes()));
    let mut reader = PacketBuf::new(buffer);
    let back = Chunk::read_from_buf(&mut reader).unwrap();
    assert_eq!(back.populated_slots(), mask);
    assert_eq!(back.non_air_sub_chunks[3].as_ref().unwrap().data, data);
}

#[test]
fn chunk_codec_round_trip_sixteen_sub_chunks() {
    let mut chunk = Chunk::empty();
    for slot in 0..16 {
        chunk.set_sub_chunk(slot, sub_chunk_filled_with(0x0100 + slot as u16));
    }
    let mut buffer: Vec<u8> = Vec::new();
    let units = chunk.size_in_units();
    assert_eq!(units, 16);
    chunk.write_to_buffer(&mut buffer);
    assert_eq!(buffer.len(), 2 + 16 * 8192);
    let mut reader = PacketBuf::new(buffer);
    let back = Chunk::read_from_buf(&mut reader).unwrap();
    assert_eq!(back.populated_slots(), 0xffff);
    for slot in 0..16 {
        let data = &back.non_air_sub_chunks[slot].as_ref().unwrap().data;
        assert!(data.iter().all(|&id| id == 0x0100 + slot as u16));
    }
}

#[test]
fn chunk_decode_reports_missing_bytes() {
    // Mask promises two sub-chunks; only one is there.
    let mut bytes: Vec<u8> = vec![0b11u8, 0];
    bytes.extend(std::iter::repeat(0xabu8).take(8192));
    let mut reader = PacketBuf::new(bytes);
    let err = Chunk::read_from_buf(&mut reader).unwrap_err();
    assert!(matches!(err, CbsBufferError::NotEnoughData(_, _)));
}

#[test]
fn chunk_size_accounting() {
    assert_eq!(Chunk::size_in_bytes(0), 2);
    assert_eq!(Chunk::size_in_bytes(3), 2 + 3 * 8192);
    let mut chunk = Chunk::empty();
    chunk.set_sub_chunk(0, sub_chunk_filled_with(1));
    chunk.set_sub_chunk(9, sub_chunk_filled_with(2));
    assert_eq!(chunk.populated_slots(), (1 << 9) | 1);
    assert_eq!(chunk.size_in_units(), 2);
    assert_eq!(chunk.current_size_in_bytes(), 2 + 2 * 8192);
}
