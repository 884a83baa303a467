//! The state-synchronization core of a multiplayer voxel-world engine: a
//! binary wire protocol that carries world and block state between client
//! and server, and the layered chunk caches that resolve what occupies a
//! position from memory, persistent storage, or procedural generation.
//!
//! Every function here carries a verified contract. The socket loops that
//! feed bytes in and out, and everything floating-point, live outside the
//! library and talk to it through plain values.

pub mod block;
pub mod block_pos;
pub mod cbs;
pub mod chunk;
pub mod chunk_pos;
pub mod client_chunks;
pub mod direction;
pub mod error;
pub mod net;
pub mod packet;
pub mod packet_data;
pub mod server_chunks;
pub mod storage;
pub mod subchunk;
pub mod util;
