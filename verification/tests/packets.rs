use voxelsync::block::BlockId;
use voxelsync::block_pos::BlockPos;
use voxelsync::cbs::Packetable;
use voxelsync::chunk::Chunk;
use voxelsync::chunk_pos::ChunkPos;
use voxelsync::error::PacketReadError;
use voxelsync::net::{SessionEvent, SessionState};
use voxelsync::packet::{ClientId, Packet, PacketDirection, PacketSource};
use voxelsync::packet_data::{PacketData, PacketType};
use voxelsync::subchunk::SubChunk;

#[test]
fn packet_type_codes_round_trip() {
    for t in [PacketType::Ping, PacketType::BlockUpdate, PacketType::ChunkData] {
        assert_eq!(PacketType::from_u16(t.to_u16()), Some(t));
    }
    assert_eq!(PacketType::from_u16(3), None);
    assert_eq!(PacketType::from_u16(0xffff), None);
}

#[test]
fn only_chunk_data_varies_in_size() {
    assert!(!PacketType::Ping.size_can_vary());
    assert!(!PacketType::BlockUpdate.size_can_vary());
    assert!(PacketType::ChunkData.size_can_vary());
}

#[test]
fn required_buffer_sizes() {
    assert_eq!(PacketType::Ping.get_required_buffer_size(None), 0);
    assert_eq!(PacketType::BlockUpdate.get_required_buffer_size(None), 10);
    assert_eq!(
        PacketType::ChunkData.get_required_buffer_size(Some(2)),
        6 + 2 + 2 * 8192
    );
}

#[test]
fn ping_frame_is_type_code_alone() {
    let packet = Packet {
        direction: PacketDirection::ToServer,
        packet_type: PacketType::Ping,
        data: PacketData::Ping,
    };
    let mut buffer: Vec<u8> = Vec::new();
    packet.write_to_buffer(&mut buffer);
    assert_eq!(buffer, vec![0u8, 0]);
}

#[test]
fn block_update_frame_layout() {
    let packet = Packet {
        direction: PacketDirection::ToServer,
        packet_type: PacketType::BlockUpdate,
        data: PacketData::BlockUpdate(BlockPos::new(1, 1, 1), BlockId(0x0101)),
    };
    let mut buffer: Vec<u8> = Vec::new();
    packet.write_to_buffer(&mut buffer);
    let mut expected: Vec<u8> = vec![1, 0];
    let long = (1u64 << 37) | (1u64 << 10) | 1u64;
    expected.extend(long.to_le_bytes());
    expected.extend([0x01u8, 0x01]);
    assert_eq!(buffer, expected);
}

#[test]
fn chunk_data_frame_has_header_and_sized_payload() {
    let mut chunk = Chunk::empty();
    for slot in [1usize, 5, 9] {
        chunk.set_sub_chunk(slot, SubChunk::new(vec![7u16; 4096]).unwrap());
    }
    let packet = Packet {
        direction: PacketDirection::FromServer,
        packet_type: PacketType::ChunkData,
        data: PacketData::ChunkData(ChunkPos::new(5, 5), chunk),
    };
    let mut buffer: Vec<u8> = Vec::new();
    packet.write_to_buffer(&mut buffer);
    // Type code, then the size header, equal to the populated count.
    assert_eq!(&buffer[0..2], &[2u8, 0]);
    assert_eq!(buffer[2], 3);
    // The payload: the position's 6 bytes, then the chunk's 2-byte mask and
    // three sub-chunks.
    assert_eq!(buffer.len() - 3, 6 + 2 + 3 * 8192);
}

#[test]
fn try_from_bytes_waits_for_a_whole_frame() {
    let empty: Vec<u8> = Vec::new();
    assert!(matches!(
        Packet::try_from_bytes(&empty, PacketSource::Server),
        Ok(None)
    ));
    // A block update announces itself but is one byte short.
    let mut bytes: Vec<u8> = vec![1, 0];
    bytes.extend([0u8; 9]);
    assert!(matches!(
        Packet::try_from_bytes(&bytes, PacketSource::Server),
        Ok(None)
    ));
    // A chunk-data frame whose size header has not arrived yet.
    let bytes: Vec<u8> = vec![2, 0];
    assert!(matches!(
        Packet::try_from_bytes(&bytes, PacketSource::Server),
        Ok(None)
    ));
}

#[test]
fn try_from_bytes_rejects_unknown_type_codes() {
    let bytes: Vec<u8> = vec![9, 0];
    assert_eq!(
        Packet::try_from_bytes(&bytes, PacketSource::Server).unwrap_err(),
        PacketReadError::InvalidPacketType(9)
    );
}

#[test]
fn try_from_bytes_decodes_a_block_update() {
    let pos = BlockPos::new(-5, 100, 77);
    let packet = Packet {
        direction: PacketDirection::ToServer,
        packet_type: PacketType::BlockUpdate,
        data: PacketData::BlockUpdate(pos, BlockId(0x0100)),
    };
    let mut bytes: Vec<u8> = Vec::new();
    packet.write_to_buffer(&mut bytes);
    // Trailing bytes of the next frame must be left alone.
    bytes.push(0xee);
    let id = ClientId::new();
    let (decoded, consumed) =
        Packet::try_from_bytes(&bytes, PacketSource::Client(id)).unwrap().unwrap();
    assert_eq!(consumed, 12);
    assert_eq!(decoded.packet_type, PacketType::BlockUpdate);
    assert_eq!(decoded.direction, PacketDirection::FromClient(id));
    match decoded.data {
        PacketData::BlockUpdate(p, b) => {
            assert_eq!(p, pos);
            assert_eq!(b, BlockId(0x0100));
        },
        _ => panic!("wrong payload kind"),
    }
}

#[test]
fn try_from_bytes_decodes_chunk_data() {
    let mut chunk = Chunk::empty();
    let mut data = vec![0u16; 4096];
    data[9] = 0x0101;
    chunk.set_sub_chunk(2, SubChunk::new(data.clone()).unwrap());
    let packet = Packet {
        direction: PacketDirection::FromServer,
        packet_type: PacketType::ChunkData,
        data: PacketData::ChunkData(ChunkPos::new(-3, 8), chunk),
    };
    let mut bytes: Vec<u8> = Vec::new();
    packet.write_to_buffer(&mut bytes);
    let (decoded, consumed) =
        Packet::try_from_bytes(&bytes, PacketSource::Server).unwrap().unwrap();
    assert_eq!(consumed, bytes.len());
    assert_eq!(decoded.direction, PacketDirection::FromServer);
    match decoded.data {
        PacketData::ChunkData(p, c) => {
            assert_eq!((p.x(), p.z()), (-3, 8));
            assert_eq!(c.populated_slots(), 1 << 2);
            assert_eq!(c.non_air_sub_chunks[2].as_ref().unwrap().data, data);
        },
        _ => panic!("wrong payload kind"),
    }
}

#[test]
fn try_from_bytes_rejects_a_lying_size_header() {
    // The header declares one sub-chunk, but the mask inside promises two.
    let mut bytes: Vec<u8> = vec![2, 0, 1];
    ChunkPos::new(0, 0).write_to_buffer(&mut bytes);
    bytes.extend([0b11u8, 0]);
    bytes.extend(std::iter::repeat(0u8).take(8192));
    assert!(matches!(
        Packet::try_from_bytes(&bytes, PacketSource::Server),
        Err(PacketReadError::NotEnoughData(_, _))
    ));
}

#[test]
fn packet_destination_is_the_addressed_client() {
    let id = ClientId::new();
    let to_client = Packet {
        direction: PacketDirection::ToClient(id),
        packet_type: PacketType::Ping,
        data: PacketData::Ping,
    };
    assert_eq!(to_client.destination(), Some(id));
    let to_server = Packet {
        direction: PacketDirection::ToServer,
        packet_type: PacketType::Ping,
        data: PacketData::Ping,
    };
    assert_eq!(to_server.destination(), None);
}

#[test]
fn client_ids_are_never_nil() {
    assert_eq!(ClientId::default().0, 0);
    assert_ne!(ClientId::new(), ClientId::default());
}

#[test]
fn packet_sources_tag_inbound_directions() {
    assert_eq!(
        PacketSource::Server.as_direction(),
        PacketDirection::FromServer
    );
    let id = ClientId::new();
    assert_eq!(
        PacketSource::Client(id).as_direction(),
        PacketDirection::FromClient(id)
    );
}

#[test]
fn session_lifecycle_never_reopens() {
    let open = SessionState::Connecting.step(SessionEvent::ConnectionEstablished);
    assert_eq!(open, SessionState::Open);
    assert_eq!(open.step(SessionEvent::PacketsExchanged), SessionState::Open);
    let closing = open.step(SessionEvent::ConsumerGone);
    assert_eq!(closing, SessionState::Closing);
    assert!(closing.needs_socket_close());
    let closed = closing.step(SessionEvent::SocketsClosed);
    assert_eq!(closed, SessionState::Closed);
    assert_eq!(
        closed.step(SessionEvent::ConnectionEstablished),
        SessionState::Closed
    );
    assert_eq!(
        open.step(SessionEvent::PeerNonConformant),
        SessionState::Closing
    );
    assert!(!closed.should_poll());
}
