use vstd::prelude::*;
use std::collections::HashMap;
use crate::chunk::{Chunk, empty_chunk_view};
use crate::chunk_pos::{ChunkPos, chunk_key};
use crate::storage::ChunkStorage;

verus! {

broadcast use vstd::std_specs::hash::group_hash_axioms;

/// The client's chunk cache. A miss never blocks: it records one fetch
/// request for the missing position and resolves to the empty chunk at
/// once; the delivered chunk is installed later through `receive_chunk`
/// by whoever drains the inbound packets.
pub struct ClientWorldStorage {
    pub chunk_map: HashMap<u64, Chunk>,
    pub requested_chunks: Vec<ChunkPos>,
}

impl ClientWorldStorage {
    /// Every cached chunk is well-formed.
    pub open spec fn inv(&self) -> bool {
        forall|k: u64| self.chunk_map@.contains_key(k) ==> (#[trigger] self.chunk_map@[k]).inv()
    }

    /// A fresh cache: nothing cached, nothing requested.
    pub fn new() -> (r: Self)
        ensures
            r.inv(),
            r.chunk_map@ == Map::<u64, Chunk>::empty(),
            r.requested_chunks@ == Seq::<ChunkPos>::empty(),
    {
        ClientWorldStorage { chunk_map: HashMap::new(), requested_chunks: Vec::new() }
    }

    /// The chunk cached for the position, or the empty chunk after
    /// recording exactly one fetch request for it. Never blocks; the cache
    /// itself is unchanged either way.
    pub fn lookup_or_request(&mut self, pos: &ChunkPos) -> (r: Chunk)
        requires
            old(self).inv(),
        ensures
            final(self).inv(),
            r.inv(),
            final(self).chunk_map@ == old(self).chunk_map@,
            ({
                let k = chunk_key(pos.x, pos.z);
                if old(self).chunk_map@.contains_key(k) {
                    &&& r@ == old(self).chunk_map@[k]@
                    &&& final(self).requested_chunks@ == old(self).requested_chunks@
                } else {
                    &&& r@ == empty_chunk_view()
                    &&& final(self).requested_chunks@ == old(self).requested_chunks@.push(*pos)
                }
            }),
    {
        let id = pos.as_long();
        match self.chunk_map.get(&id) {
            Some(chunk) => chunk.duplicate(),
            None => {
                self.requested_chunks.push(*pos);
                let empty = Chunk::empty();
                proof {
                    assert(empty@ =~= empty_chunk_view());
                }
                empty
            },
        }
    }

    /// Installs a chunk delivered for a position; later lookups of the
    /// position resolve to it.
    pub fn receive_chunk(&mut self, pos: &ChunkPos, chunk: Chunk)
        requires
            old(self).inv(),
            chunk.inv(),
        ensures
            final(self).inv(),
            final(self).chunk_map@ == old(self).chunk_map@.insert(chunk_key(pos.x, pos.z), chunk),
            final(self).requested_chunks@ == old(self).requested_chunks@,
    {
        let id = pos.as_long();
        self.chunk_map.insert(id, chunk);
    }

    /// Hands out the fetch requests recorded so far, oldest first, and
    /// forgets them; the transport layer sends each to the server.
    pub fn take_chunk_requests(&mut self) -> (r: Vec<ChunkPos>)
        requires
            old(self).inv(),
        ensures
            final(self).inv(),
            r@ == old(self).requested_chunks@,
            final(self).requested_chunks@ == Seq::<ChunkPos>::empty(),
            final(self).chunk_map@ == old(self).chunk_map@,
    {
        let mut out: Vec<ChunkPos> = Vec::new();
        let mut i: usize = 0;
        while i < self.requested_chunks.len()
            invariant
                i <= self.requested_chunks.len(),
                out@ == self.requested_chunks@.take(i as int),
            decreases self.requested_chunks.len() - i,
        {
            proof {
                assert(self.requested_chunks@.take(i + 1) =~= self.requested_chunks@.take(
                    i as int,
                ).push(self.requested_chunks@[i as int]));
            }
            out.push(self.requested_chunks[i]);
            i += 1;
        }
        proof {
            assert(self.requested_chunks@.take(self.requested_chunks@.len() as int)
                =~= self.requested_chunks@);
        }
        self.requested_chunks.clear();
        out
    }
}

impl ChunkStorage for ClientWorldStorage {
    open spec fn cache(&self) -> Map<u64, Chunk> {
        self.chunk_map@
    }

    open spec fn cache_inv(&self) -> bool {
        self.inv()
    }

    fn is_chunk_cached(&self, pos: &ChunkPos) -> (r: bool) {
        self.chunk_map.contains_key(&pos.as_long())
    }

    fn get_chunk(&mut self, pos: &ChunkPos) -> (r: Chunk) {
        self.lookup_or_request(pos)
    }
}

} // verus!
