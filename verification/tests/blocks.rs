use voxelsync::block::{AirState, Block, BlockHandler, BlockId, BlockRegistry, GrassState, State};
use voxelsync::block_pos::BlockPos;
use voxelsync::cbs::{PacketBuf, Packetable};

#[test]
fn block_ids_concatenate_type_and_state() {
    assert_eq!(Block::Air(AirState).to_id().0, 0x0000);
    assert_eq!(Block::Grass(GrassState { snowy: false }).to_id().0, 0x0100);
    assert_eq!(Block::Grass(GrassState { snowy: true }).to_id().0, 0x0101);
    assert_eq!(BlockId::default().0, 0);
}

#[test]
fn grass_state_round_trips_through_its_id() {
    let snowy = GrassState { snowy: true };
    assert_eq!(GrassState::from_id(snowy.id()), snowy);
    let normal = GrassState::default_state();
    assert_eq!(normal, GrassState { snowy: false });
    assert_eq!(GrassState::from_id(normal.id()), normal);
    assert_eq!(AirState::from_id(77), AirState);
}

#[test]
fn resolve_interns_valid_ids() {
    let mut registry = BlockRegistry::new();
    let block = BlockId(0x0101).resolve(&mut registry);
    assert_eq!(block, Block::Grass(GrassState { snowy: true }));
    assert_eq!(registry.map.len(), 1);
}

#[test]
fn resolve_is_idempotent() {
    let mut registry = BlockRegistry::new();
    let first = BlockId(0x0100).resolve(&mut registry);
    let second = BlockId(0x0100).resolve(&mut registry);
    assert_eq!(first, second);
    assert_eq!(registry.map.len(), 1);
}

#[test]
fn unregistered_type_index_resolves_to_air() {
    let mut registry = BlockRegistry::new();
    let block = BlockId(0xff00).resolve(&mut registry);
    assert_eq!(block, Block::Air(AirState));
    // The fallback is not interned, so the registry holds only valid ids.
    assert_eq!(registry.map.len(), 0);
    let again = BlockId(0xff00).resolve(&mut registry);
    assert_eq!(again, Block::Air(AirState));
}

#[test]
fn resolving_a_blocks_own_id_gives_the_block_back() {
    let mut registry = BlockRegistry::new();
    for block in [
        Block::Air(AirState),
        Block::Grass(GrassState { snowy: false }),
        Block::Grass(GrassState { snowy: true }),
    ] {
        assert_eq!(block.to_id().resolve(&mut registry), block);
    }
}

#[test]
fn air_is_replaceable_and_grass_is_not() {
    let pos = BlockPos::new(0, 0, 0);
    assert!(Block::Air(AirState).is_replaceable(pos));
    assert!(!Block::Grass(GrassState { snowy: false }).is_replaceable(pos));
    assert_eq!(Block::Air(AirState).map_color(), 1);
    assert_eq!(Block::Grass(GrassState { snowy: true }).map_color(), 1);
    assert_eq!(Block::default(), Block::Air(AirState));
}

#[test]
fn block_id_wire_is_little_endian() {
    let mut buffer: Vec<u8> = Vec::new();
    BlockId(0x0102).write_to_buffer(&mut buffer);
    assert_eq!(buffer, vec![0x02u8, 0x01]);
    let mut reader = PacketBuf::new(buffer);
    assert_eq!(BlockId::read_from_buf(&mut reader).unwrap(), BlockId(0x0102));
}
