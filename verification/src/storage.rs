use vstd::prelude::*;
use crate::chunk::Chunk;
use crate::chunk_pos::{ChunkPos, chunk_key};
use crate::error::ChunkProviderError;

verus! {

/// Persistent chunk storage, consulted by the server cache before the
/// generator. An implementor fixes, as `loaded`, what it holds for each
/// position, and `get_chunk` reports exactly that.
pub trait ChunkLoader {
    /// The contents this loader holds for each position, as slot contents;
    /// `None` where it holds nothing. The default says the loader holds
    /// nothing: an implementation that loads anything states here what.
    open spec fn loaded(&self, pos: ChunkPos) -> Option<Seq<Option<Seq<u16>>>> {
        None
    }

    /// The chunk this loader holds for the position, or `None`.
    fn get_chunk(&self, pos: &ChunkPos) -> (r: Option<Chunk>)
        ensures
            match r {
                Some(c) => c.inv() && self.loaded(*pos) == Some(c@),
                None => self.loaded(*pos) is None,
            },
    ;
}

/// Procedural chunk generation, the server cache's last resort. An
/// implementor fixes, as `generated`, what it produces for each position;
/// a failure signals a bug in the generator, not bad input.
pub trait ChunkGenerator {
    /// The contents this generator produces for each position, or the
    /// error it fails with. The default says generation always fails: an
    /// implementation that generates anything states here what.
    open spec fn generated(&self, pos: ChunkPos) -> Result<
        Seq<Option<Seq<u16>>>,
        ChunkProviderError,
    > {
        Err(ChunkProviderError::ChunkGenerationFailedError(pos))
    }

    /// Generates the chunk for the position, or reports the failure.
    fn try_generate(&self, pos: &ChunkPos) -> (r: Result<Chunk, ChunkProviderError>)
        ensures
            match r {
                Ok(c) => c.inv() && self.generated(*pos) == Ok::<_, ChunkProviderError>(c@),
                Err(e) => self.generated(*pos) == Err::<Seq<Option<Seq<u16>>>, _>(e),
            },
    ;
}

/// A chunk cache: what world logic reads blocks through. A cached position
/// always resolves to its cached contents without changing the cache; what
/// a miss resolves to is each implementation's policy.
pub trait ChunkStorage: Sized {
    /// The cache's contents, keyed by the position's 64-bit key.
    spec fn cache(&self) -> Map<u64, Chunk>;

    /// Every cached chunk is well-formed.
    spec fn cache_inv(&self) -> bool;

    /// Whether the position is resolved in the cache.
    fn is_chunk_cached(&self, pos: &ChunkPos) -> (r: bool)
        ensures
            r == self.cache().contains_key(chunk_key(pos.x, pos.z)),
    ;

    /// The chunk occupying the position. A cache hit returns the cached
    /// contents and changes nothing.
    fn get_chunk(&mut self, pos: &ChunkPos) -> (r: Chunk)
        requires
            old(self).cache_inv(),
        ensures
            final(self).cache_inv(),
            r.inv(),
            old(self).cache().contains_key(chunk_key(pos.x, pos.z)) ==> {
                &&& r@ == old(self).cache()[chunk_key(pos.x, pos.z)]@
                &&& final(self).cache() == old(self).cache()
            },
    ;
}

} // verus!
