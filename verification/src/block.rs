use vstd::prelude::*;
use std::collections::HashMap;
use crate::block_pos::BlockPos;
use crate::cbs::{FixedSizePacketable, PacketBuf, Packetable, WriteExt, le16, u16_le_bytes};
use crate::error::CbsBufferError;

verus! {

broadcast use vstd::std_specs::hash::group_hash_axioms;

// ---------------------------------------------------------------------------
// Block states: the per-variant payload of a block.
// ---------------------------------------------------------------------------

/// Shared capabilities every block (and block state) offers to world logic
/// and rendering.
pub trait BlockHandler {
    /// Whether placing a block at `pos` may overwrite this one.
    spec fn is_replaceable_spec(&self, pos: BlockPos) -> bool;

    /// The colour this block contributes to a map rendering.
    spec fn map_color_spec(&self) -> i32;

    fn is_replaceable(&self, pos: BlockPos) -> (r: bool)
        ensures
            r == self.is_replaceable_spec(pos),
    ;

    fn map_color(&self) -> (r: i32)
        ensures
            r == self.map_color_spec(),
    ;
}

/// A block state: a small payload encodable as an 8-bit state id.
pub trait State: Sized {
    /// The 8-bit id of this state.
    spec fn id_spec(&self) -> u8;

    /// The state an 8-bit id decodes to.
    spec fn from_id_spec(id: u8) -> Self;

    /// The default state of the block type.
    spec fn default_state_spec() -> Self;

    fn id(&self) -> (r: u8)
        ensures
            r == self.id_spec(),
    ;

    fn from_id(id: u8) -> (r: Self)
        ensures
            r == Self::from_id_spec(id),
    ;

    fn default_state() -> (r: Self)
        ensures
            r == Self::default_state_spec(),
    ;
}

/// The state of an air block: it has none.
#[derive(Debug, Clone, Copy, PartialEq, Eq, Structural)]
pub struct AirState;

impl State for AirState {
    open spec fn id_spec(&self) -> u8 {
        0
    }

    open spec fn from_id_spec(id: u8) -> Self {
        AirState
    }

    open spec fn default_state_spec() -> Self {
        AirState
    }

    fn id(&self) -> (r: u8) {
        0
    }

    fn from_id(id: u8) -> (r: Self) {
        AirState
    }

    fn default_state() -> (r: Self) {
        AirState
    }
}

impl BlockHandler for AirState {
    open spec fn is_replaceable_spec(&self, pos: BlockPos) -> bool {
        true
    }

    open spec fn map_color_spec(&self) -> i32 {
        1
    }

    fn is_replaceable(&self, pos: BlockPos) -> (r: bool) {
        true
    }

    fn map_color(&self) -> (r: i32) {
        1
    }
}

/// The state of a grass block: whether it is covered in snow.
#[derive(Debug, Clone, Copy, PartialEq, Eq, Structural)]
pub struct GrassState {
    pub snowy: bool,
}

impl State for GrassState {
    open spec fn id_spec(&self) -> u8 {
        if self.snowy {
            1
        } else {
            0
        }
    }

    open spec fn from_id_spec(id: u8) -> Self {
        GrassState { snowy: id == 1 }
    }

    open spec fn default_state_spec() -> Self {
        GrassState { snowy: false }
    }

    fn id(&self) -> (r: u8) {
        if self.snowy {
            1
        } else {
            0
        }
    }

    fn from_id(id: u8) -> (r: Self) {
        GrassState { snowy: id == 1 }
    }

    fn default_state() -> (r: Self) {
        GrassState { snowy: false }
    }
}

impl BlockHandler for GrassState {
    open spec fn is_replaceable_spec(&self, pos: BlockPos) -> bool {
        false
    }

    open spec fn map_color_spec(&self) -> i32 {
        1
    }

    fn is_replaceable(&self, pos: BlockPos) -> (r: bool) {
        false
    }

    fn map_color(&self) -> (r: i32) {
        1
    }
}

// ---------------------------------------------------------------------------
// Block: the closed set of block variants.
// ---------------------------------------------------------------------------

/// A fully specified block: one variant of the closed set, carrying its
/// state payload. Instances are plain values; the registry keeps one
/// canonical instance per id.
#[derive(Debug, Clone, Copy, PartialEq, Eq, Structural)]
pub enum Block {
    Air(AirState),
    Grass(GrassState),
}

impl Block {
    /// The 8-bit type index of this variant in the closed variant table.
    pub open spec fn repr_spec(&self) -> u8 {
        match self {
            Block::Air(_) => 0,
            Block::Grass(_) => 1,
        }
    }

    /// The 8-bit state id of this block's payload.
    pub open spec fn variant_id_spec(&self) -> u8 {
        match self {
            Block::Air(s) => s.id_spec(),
            Block::Grass(s) => s.id_spec(),
        }
    }

    /// The 16-bit code of this block: type index in the high byte, state id
    /// in the low byte.
    pub open spec fn code_spec(&self) -> u16 {
        ((self.repr_spec() as u16) << 8) | (self.variant_id_spec() as u16)
    }

    fn repr(&self) -> (r: u8)
        ensures
            r == self.repr_spec(),
    {
        match self {
            Block::Air(_) => 0,
            Block::Grass(_) => 1,
        }
    }

    fn variant_id(&self) -> (r: u8)
        ensures
            r == self.variant_id_spec(),
    {
        match self {
            Block::Air(s) => s.id(),
            Block::Grass(s) => s.id(),
        }
    }

    /// The block a (type index, state id) pair decodes to; `None` when the
    /// type index is not in the closed variant table.
    pub fn from_ints(repr: u8, variant: u8) -> (r: Option<Block>)
        ensures
            r is Some <==> repr < 2,
            match r {
                Some(b) => b == decoded_block(repr, variant),
                None => repr >= 2,
            },
    {
        match repr {
            0 => Some(Block::Air(AirState::from_id(variant))),
            1 => Some(Block::Grass(GrassState::from_id(variant))),
            _ => None,
        }
    }

    /// The canonical 16-bit id of this block.
    pub fn to_id(&self) -> (r: BlockId)
        ensures
            r.0 == self.code_spec(),
    {
        BlockId(((self.repr() as u16) << 8) | (self.variant_id() as u16))
    }
}

impl BlockHandler for Block {
    open spec fn is_replaceable_spec(&self, pos: BlockPos) -> bool {
        match self {
            Block::Air(s) => s.is_replaceable_spec(pos),
            Block::Grass(s) => s.is_replaceable_spec(pos),
        }
    }

    open spec fn map_color_spec(&self) -> i32 {
        match self {
            Block::Air(s) => s.map_color_spec(),
            Block::Grass(s) => s.map_color_spec(),
        }
    }

    fn is_replaceable(&self, pos: BlockPos) -> (r: bool) {
        match self {
            Block::Air(s) => s.is_replaceable(pos),
            Block::Grass(s) => s.is_replaceable(pos),
        }
    }

    fn map_color(&self) -> (r: i32) {
        match self {
            Block::Air(s) => s.map_color(),
            Block::Grass(s) => s.map_color(),
        }
    }
}

impl Default for Block {
    /// The default block is air in its default state.
    fn default() -> (r: Self)
        ensures
            r == Block::Air(AirState),
    {
        Block::Air(AirState)
    }
}

/// The block decoded from a (type index, state id) pair of the closed
/// variant table.
pub open spec fn decoded_block(repr: u8, variant: u8) -> Block {
    if repr == 0 {
        Block::Air(AirState)
    } else {
        Block::Grass(GrassState { snowy: variant == 1 })
    }
}

/// The canonical block of a 16-bit id: the decoding of its type index and
/// state id, and the default air block when the type index is unregistered.
pub open spec fn canonical_block(code: u16) -> Block {
    if valid_block_code(code) {
        decoded_block((code >> 8) as u8, (code & 0xff) as u8)
    } else {
        Block::Air(AirState)
    }
}

/// Whether a 16-bit id names a registered block type.
pub open spec fn valid_block_code(code: u16) -> bool {
    (code >> 8) < 2
}

/// Every block is the canonical block of its own id: interning a block's id
/// gives back an equal block.
pub proof fn lemma_canonical_of_code(b: Block)
    ensures
        canonical_block(b.code_spec()) == b,
{
    match b {
        Block::Air(s) => {
            assert((0u16 << 8) | (0u16 as u16) == 0u16) by (bit_vector);
            assert(valid_block_code(0)) by (bit_vector);
            assert(canonical_block(0) == Block::Air(AirState)) by {
                assert((0u16 >> 8) as u8 == 0u8) by (bit_vector);
            }
        },
        Block::Grass(s) => {
            let v = s.id_spec() as u16;
            assert(v == 0 || v == 1);
            assert({
                &&& ((1u16 << 8) | 0u16) >> 8 == 1u16
                &&& (((1u16 << 8) | 0u16) >> 8) as u8 == 1u8
                &&& (((1u16 << 8) | 0u16) & 0xff) as u8 == 0u8
                &&& ((1u16 << 8) | 1u16) >> 8 == 1u16
                &&& (((1u16 << 8) | 1u16) >> 8) as u8 == 1u8
                &&& (((1u16 << 8) | 1u16) & 0xff) as u8 == 1u8
            }) by (bit_vector);
        },
    }
}

// ---------------------------------------------------------------------------
// BlockId and the interning registry.
// ---------------------------------------------------------------------------

/// The canonical 16-bit identifier of a fully specified block: the type
/// index in the high byte, the state id in the low byte.
#[derive(Debug, Clone, Copy, PartialEq, Eq, Structural, Hash)]
pub struct BlockId(pub u16);

impl Default for BlockId {
    /// The default id is air's: zero.
    fn default() -> (r: Self)
        ensures
            r.0 == 0,
    {
        BlockId(0)
    }
}

/// The interning table from block id to its one canonical block instance,
/// populated lazily on first resolution. Construction of a block is a pure
/// function of its id, so the table only ever holds canonical entries.
pub struct BlockRegistry {
    pub map: HashMap<u16, Block>,
}

/// The registry table after one id is resolved against it: a valid id is
/// interned, an invalid one leaves the table unchanged.
pub open spec fn resolved_map(m: Map<u16, Block>, code: u16) -> Map<u16, Block> {
    if valid_block_code(code) {
        m.insert(code, canonical_block(code))
    } else {
        m
    }
}

impl BlockRegistry {
    /// Every entry is canonical for its key and keyed by a valid id.
    pub open spec fn wf(&self) -> bool {
        forall|k: u16|
            self.map@.contains_key(k) ==> valid_block_code(k) && self.map@[k] == canonical_block(k)
    }

    pub fn new() -> (r: Self)
        ensures
            r.wf(),
            r.map@ == Map::<u16, Block>::empty(),
    {
        BlockRegistry { map: HashMap::new() }
    }
}

/// Resolution is idempotent on the registry table: resolving an id a second
/// time changes nothing, and (by `BlockId::resolve`'s contract) both calls
/// return the same canonical block.
pub proof fn lemma_resolve_idempotent(m: Map<u16, Block>, code: u16)
    ensures
        resolved_map(resolved_map(m, code), code) == resolved_map(m, code),
{
    if valid_block_code(code) {
        assert(resolved_map(resolved_map(m, code), code) =~= resolved_map(m, code));
    }
}

impl BlockId {
    /// The canonical shared block instance of this id. A valid id absent
    /// from the registry is constructed and interned; an unregistered type
    /// index resolves to the default air block instead of failing, and is
    /// not interned.
    pub fn resolve(&self, registry: &mut BlockRegistry) -> (b: Block)
        requires
            old(registry).wf(),
        ensures
            final(registry).wf(),
            b == canonical_block(self.0),
            final(registry).map@ == resolved_map(old(registry).map@, self.0),
    {
        let code = self.0;
        match registry.map.get(&code) {
            Some(b) => {
                proof {
                    assert(registry.map@ =~= resolved_map(old(registry).map@, code));
                }
                *b
            },
            None => {
                let repr = (code >> 8) as u8;
                let variant = (code & 0xff) as u8;
                proof {
                    assert({
                        &&& (((code >> 8) as u8) < 2) <==> (code >> 8) < 2
                        &&& ((code >> 8) as u8) == 0 <==> (code >> 8) == 0
                        &&& (((code & 0xff) as u8) == 1) <==> (code & 0xff) == 1
                    }) by (bit_vector);
                }
                match Block::from_ints(repr, variant) {
                    Some(b) => {
                        registry.map.insert(code, b);
                        b
                    },
                    None => Block::Air(AirState),
                }
            },
        }
    }
}

impl FixedSizePacketable for BlockId {
    open spec fn size_in_bytes_spec() -> nat {
        2
    }

    fn size_in_bytes() -> (r: usize) {
        2
    }
}

impl Packetable for BlockId {
    open spec fn wf(&self) -> bool {
        true
    }

    /// Two little-endian bytes: the raw 16-bit id.
    open spec fn wire(&self) -> Seq<u8> {
        u16_le_bytes(self.0)
    }

    open spec fn read_ok(bytes: Seq<u8>) -> bool {
        bytes.len() >= 2
    }

    fn write_to_buffer(self, buffer: &mut Vec<u8>) {
        buffer.write_u16(self.0);
    }

    fn read_from_buf(reader: &mut PacketBuf) -> (r: Result<Self, CbsBufferError>) {
        let id = match reader.next_u16() {
            Ok(v) => v,
            Err(e) => { return Err(e); },
        };
        proof {
            lemma_le16_bytes_round_trip(old(reader).remaining()[0], old(reader).remaining()[1]);
            assert(BlockId(id).wire() =~= old(reader).remaining().take(2));
        }
        Ok(BlockId(id))
    }
}

/// Laying a 16-bit value built from two little-endian bytes back out as
/// bytes reproduces those bytes.
pub proof fn lemma_le16_bytes_round_trip(b0: u8, b1: u8)
    ensures
        u16_le_bytes(le16(b0, b1)) == seq![b0, b1],
{
    assert({
        let v = (b0 as u16) | ((b1 as u16) << 8);
        v as u8 == b0 && (v >> 8) as u8 == b1
    }) by (bit_vector);
    assert(u16_le_bytes(le16(b0, b1)) =~= seq![b0, b1]);
}

} // verus!
