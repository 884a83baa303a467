use vstd::prelude::*;
use std::collections::HashMap;
use crate::chunk::{Chunk, empty_chunk_view};
use crate::chunk_pos::{ChunkPos, chunk_key};
use crate::storage::{ChunkGenerator, ChunkLoader, ChunkStorage};

verus! {

broadcast use vstd::std_specs::hash::group_hash_axioms;

/// A chunk loader over a save folder on disk. Reading region files is not
/// implemented yet, so it holds nothing for any position.
pub struct DiskChunkLoader {
    pub save_folder: String,
}

/// A coordinate divided by 32 and truncated toward zero, as Rust's signed
/// division computes it.
pub open spec fn region_coord(v: int) -> int {
    if v >= 0 {
        v / 32
    } else {
        -((-v) / 32)
    }
}

impl DiskChunkLoader {
    /// The region a chunk is stored under: each horizontal axis divided by
    /// 32, truncated toward zero. Regions are the persistent-storage
    /// addressing unit, 32 by 32 chunks each.
    pub fn get_region_pos(chunk: &ChunkPos) -> (r: (i32, i32))
        ensures
            r.0 == region_coord(chunk.x as int),
            r.1 == region_coord(chunk.z as int),
    {
        (chunk.x() / 32, chunk.z() / 32)
    }
}

impl ChunkLoader for DiskChunkLoader {
    open spec fn loaded(&self, pos: ChunkPos) -> Option<Seq<Option<Seq<u16>>>> {
        None
    }

    fn get_chunk(&self, pos: &ChunkPos) -> (r: Option<Chunk>) {
        None
    }
}

/// The server's chunk cache: three tiers, each consulted only when the one
/// before it misses. Memory first; then the disk loader; then the
/// generator. What the loader or generator resolves is cached at that
/// moment, so each position is resolved at most once — except a generator
/// failure, which yields the empty chunk uncached, leaving a retry
/// possible.
pub struct ServerChunkStorage<L: ChunkLoader, G: ChunkGenerator> {
    pub file_loader: L,
    pub generator: G,
    pub chunk_map: HashMap<u64, Chunk>,
}

impl<L: ChunkLoader, G: ChunkGenerator> ServerChunkStorage<L, G> {
    /// Every cached chunk is well-formed.
    pub open spec fn inv(&self) -> bool {
        forall|k: u64| self.chunk_map@.contains_key(k) ==> (#[trigger] self.chunk_map@[k]).inv()
    }

    /// A fresh cache over the given loader and generator.
    pub fn new(file_loader: L, generator: G) -> (r: Self)
        ensures
            r.inv(),
            r.file_loader == file_loader,
            r.generator == generator,
            r.chunk_map@ == Map::<u64, Chunk>::empty(),
    {
        ServerChunkStorage { file_loader, generator, chunk_map: HashMap::new() }
    }

    /// The chunk occupying the position, resolved through the tiers in
    /// order: the cached chunk if there is one; else what the disk loader
    /// holds; else what the generator produces. A loader or generator
    /// result is cached; a generator failure resolves to the empty chunk
    /// without caching it.
    pub fn resolve_chunk(&mut self, pos: &ChunkPos) -> (r: Chunk)
        requires
            old(self).inv(),
        ensures
            final(self).inv(),
            r.inv(),
            final(self).file_loader == old(self).file_loader,
            final(self).generator == old(self).generator,
            ({
                let k = chunk_key(pos.x, pos.z);
                if old(self).chunk_map@.contains_key(k) {
                    &&& r@ == old(self).chunk_map@[k]@
                    &&& final(self).chunk_map@ == old(self).chunk_map@
                } else {
                    &&& (match old(self).file_loader.loaded(*pos) {
                        Some(v) => r@ == v,
                        None => match old(self).generator.generated(*pos) {
                            Ok(v) => r@ == v,
                            Err(_) => r@ == empty_chunk_view(),
                        },
                    })
                    &&& if old(self).file_loader.loaded(*pos) is Some || old(
                        self,
                    ).generator.generated(*pos) is Ok {
                        &&& final(self).chunk_map@.contains_key(k)
                        &&& final(self).chunk_map@[k]@ == r@
                        &&& final(self).chunk_map@.remove(k) =~= old(self).chunk_map@.remove(k)
                    } else {
                        final(self).chunk_map@ == old(self).chunk_map@
                    }
                }
            }),
    {
        let id = pos.as_long();
        match self.chunk_map.get(&id) {
            Some(chunk) => { return chunk.duplicate(); },
            None => {},
        }
        match self.file_loader.get_chunk(pos) {
            Some(chunk) => {
                let out = chunk.duplicate();
                self.chunk_map.insert(id, chunk);
                proof {
                    assert(self.chunk_map@.remove(chunk_key(pos.x, pos.z)) =~= old(
                        self,
                    ).chunk_map@.remove(chunk_key(pos.x, pos.z)));
                }
                out
            },
            None => {
                match self.generator.try_generate(pos) {
                    Ok(chunk) => {
                        let out = chunk.duplicate();
                        self.chunk_map.insert(id, chunk);
                        proof {
                            assert(self.chunk_map@.remove(chunk_key(pos.x, pos.z)) =~= old(
                                self,
                            ).chunk_map@.remove(chunk_key(pos.x, pos.z)));
                        }
                        out
                    },
                    Err(_) => {
                        let empty = Chunk::empty();
                        proof {
                            assert(empty@ =~= empty_chunk_view());
                        }
                        empty
                    },
                }
            },
        }
    }
}

impl<L: ChunkLoader, G: ChunkGenerator> ChunkStorage for ServerChunkStorage<L, G> {
    open spec fn cache(&self) -> Map<u64, Chunk> {
        self.chunk_map@
    }

    open spec fn cache_inv(&self) -> bool {
        self.inv()
    }

    fn is_chunk_cached(&self, pos: &ChunkPos) -> (r: bool) {
        self.chunk_map.contains_key(&pos.as_long())
    }

    fn get_chunk(&mut self, pos: &ChunkPos) -> (r: Chunk) {
        self.resolve_chunk(pos)
    }
}

} // verus!
