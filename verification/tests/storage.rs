use voxelsync::chunk::Chunk;
use voxelsync::chunk_pos::ChunkPos;
use voxelsync::client_chunks::ClientWorldStorage;
use voxelsync::error::ChunkProviderError;
use voxelsync::server_chunks::{DiskChunkLoader, ServerChunkStorage};
use voxelsync::storage::{ChunkGenerator, ChunkLoader, ChunkStorage};
use voxelsync::subchunk::SubChunk;

fn chunk_with_marker(slot: usize, id: u16) -> Chunk {
    let mut chunk = Chunk::empty();
    chunk.set_sub_chunk(slot, SubChunk::new(vec![id; 4096]).unwrap());
    chunk
}

fn marker_of(chunk: &Chunk) -> Option<u16> {
    for slot in &chunk.non_air_sub_chunks {
        if let Some(sc) = slot {
            return Some(sc.data[0]);
        }
    }
    None
}

struct FixedLoader {
    marker: u16,
}

impl ChunkLoader for FixedLoader {
    fn get_chunk(&self, pos: &ChunkPos) -> Option<Chunk> {
        if pos.x() == 0 && pos.z() == 0 {
            Some(chunk_with_marker(0, self.marker))
        } else {
            None
        }
    }
}

struct FixedGenerator {
    marker: u16,
}

impl ChunkGenerator for FixedGenerator {
    fn try_generate(&self, _pos: &ChunkPos) -> Result<Chunk, ChunkProviderError> {
        Ok(chunk_with_marker(1, self.marker))
    }
}

struct PanickingGenerator;

impl ChunkGenerator for PanickingGenerator {
    fn try_generate(&self, _pos: &ChunkPos) -> Result<Chunk, ChunkProviderError> {
        panic!("the generator must not be consulted when the loader resolves");
    }
}

struct FailingGenerator;

impl ChunkGenerator for FailingGenerator {
    fn try_generate(&self, pos: &ChunkPos) -> Result<Chunk, ChunkProviderError> {
        Err(ChunkProviderError::ChunkGenerationFailedError(*pos))
    }
}

#[test]
fn client_cache_miss_requests_once_and_returns_empty() {
    let mut storage = ClientWorldStorage::new();
    let pos = ChunkPos::new(5, 5);
    assert!(!storage.is_chunk_cached(&pos));
    let chunk = storage.get_chunk(&pos);
    assert_eq!(chunk.populated_slots(), 0);
    let requests = storage.take_chunk_requests();
    assert_eq!(requests.len(), 1);
    assert_eq!((requests[0].x(), requests[0].z()), (5, 5));
}

#[test]
fn client_cache_returns_delivered_chunk_without_requesting_again() {
    let mut storage = ClientWorldStorage::new();
    let pos = ChunkPos::new(5, 5);
    let first = storage.get_chunk(&pos);
    assert_eq!(first.populated_slots(), 0);
    assert_eq!(storage.take_chunk_requests().len(), 1);

    storage.receive_chunk(&pos, chunk_with_marker(3, 0x0101));
    assert!(storage.is_chunk_cached(&pos));
    let delivered = storage.get_chunk(&pos);
    assert_eq!(delivered.populated_slots(), 1 << 3);
    assert_eq!(marker_of(&delivered), Some(0x0101));
    assert_eq!(storage.take_chunk_requests().len(), 0);
}

#[test]
fn server_cache_prefers_disk_over_generator() {
    let loader = FixedLoader { marker: 0x0100 };
    let mut storage = ServerChunkStorage::new(loader, PanickingGenerator);
    let pos = ChunkPos::new(0, 0);
    let chunk = storage.get_chunk(&pos);
    assert_eq!(marker_of(&chunk), Some(0x0100));
    assert!(storage.is_chunk_cached(&pos));
    // Cached now: later lookups keep resolving from memory.
    let again = storage.get_chunk(&pos);
    assert_eq!(marker_of(&again), Some(0x0100));
}

#[test]
fn server_cache_generates_when_disk_has_nothing() {
    let loader = FixedLoader { marker: 0x0100 };
    let generator = FixedGenerator { marker: 0x0101 };
    let mut storage = ServerChunkStorage::new(loader, generator);
    let pos = ChunkPos::new(7, -2);
    let chunk = storage.get_chunk(&pos);
    assert_eq!(marker_of(&chunk), Some(0x0101));
    assert!(storage.is_chunk_cached(&pos));
}

#[test]
fn server_cache_does_not_cache_generation_failures() {
    let loader = FixedLoader { marker: 0x0100 };
    let mut storage = ServerChunkStorage::new(loader, FailingGenerator);
    let pos = ChunkPos::new(9, 9);
    let chunk = storage.get_chunk(&pos);
    assert_eq!(chunk.populated_slots(), 0);
    // Not cached, so a later request may retry generation.
    assert!(!storage.is_chunk_cached(&pos));
}

#[test]
fn region_positions_truncate_toward_zero() {
    assert_eq!(DiskChunkLoader::get_region_pos(&ChunkPos::new(31, 32)), (0, 1));
    assert_eq!(DiskChunkLoader::get_region_pos(&ChunkPos::new(-31, -33)), (0, -1));
    let loader = DiskChunkLoader { save_folder: String::new() };
    assert!(loader.get_chunk(&ChunkPos::new(0, 0)).is_none());
}

#[test]
fn client_cache_records_every_miss_separately() {
    // In-flight requests are not deduplicated: a second miss for the same
    // position records a second request.
    let mut storage = ClientWorldStorage::new();
    let pos = ChunkPos::new(1, 2);
    storage.get_chunk(&pos);
    storage.get_chunk(&pos);
    assert_eq!(storage.take_chunk_requests().len(), 2);
}
