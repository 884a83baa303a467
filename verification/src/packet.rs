use vstd::prelude::*;
use crate::cbs::{PacketBuf, WriteExt, le16, u16_le_bytes};
use crate::error::{CbsBufferError, PacketReadError};
use crate::packet_data::{PacketData, PacketType, data_read_ok};

verus! {

/// Who sent a packet, or who it is addressed to. A packet's direction says
/// which side may legally hand it to the transport.
#[derive(Debug, Clone, PartialEq, Eq, Structural)]
pub enum PacketDirection {
    FromClient(ClientId),
    FromServer,
    ToClient(ClientId),
    ToServer,
}

/// The peer a packet arrived from.
#[derive(Debug, Clone, PartialEq, Eq, Structural)]
pub enum PacketSource {
    Server,
    Client(ClientId),
}

/// The inbound direction of a packet received from the given source.
pub open spec fn direction_of_source(source: PacketSource) -> PacketDirection {
    match source {
        PacketSource::Server => PacketDirection::FromServer,
        PacketSource::Client(id) => PacketDirection::FromClient(id),
    }
}

impl PacketSource {
    /// The inbound direction to tag a packet from this source with.
    pub fn as_direction(self) -> (r: PacketDirection)
        ensures
            r == direction_of_source(self),
    {
        match self {
            PacketSource::Server => PacketDirection::FromServer,
            PacketSource::Client(id) => PacketDirection::FromClient(id),
        }
    }
}

/// An opaque, globally unique identifier minted for each accepted
/// connection; the server's bookkeeping key for a peer.
#[derive(Debug, Hash, PartialEq, Eq, Structural, Clone, Copy)]
pub struct ClientId(pub u128);

impl Default for ClientId {
    /// The nil id: all zero, minted for no connection.
    fn default() -> (r: Self)
        ensures
            r.0 == 0,
    {
        ClientId(0)
    }
}

impl ClientId {
    /// A fresh identifier. Relies on uuid's `Uuid::new_v4`, which draws the
    /// value from the operating system's random number generator; it always
    /// sets the version and variant bits, so the result is never the nil
    /// id, but nothing else is promised of it.
    #[verifier::external_body]
    pub fn new() -> (r: ClientId)
        ensures
            r.0 != 0,
    {
        ClientId(uuid::Uuid::new_v4().as_u128())
    }
}

/// One typed packet: its direction, its type, and its payload.
#[derive(Debug, Clone)]
pub struct Packet {
    pub direction: PacketDirection,
    pub packet_type: PacketType,
    pub data: PacketData,
}

/// The packet type named by a wire code below 3.
pub open spec fn type_of_code(code: u16) -> PacketType {
    if code == 0 {
        PacketType::Ping
    } else if code == 1 {
        PacketType::BlockUpdate
    } else {
        PacketType::ChunkData
    }
}

/// How many bytes a frame spends before the payload: the 16-bit type code,
/// and one size-header byte for a variable-size type.
pub open spec fn frame_header_len(t: PacketType) -> int {
    if t is ChunkData {
        3
    } else {
        2
    }
}

/// The whole length of the frame starting at the front of `bytes`: header
/// plus the payload size the header declares.
pub open spec fn frame_len(t: PacketType, bytes: Seq<u8>) -> int {
    frame_header_len(t) + t.required_buffer_size_spec(
        if t is ChunkData {
            Some(bytes[2])
        } else {
            None
        },
    )
}

impl Packet {
    /// The payload is well-formed and the carried type matches it.
    pub open spec fn wf(&self) -> bool {
        &&& self.data.wf()
        &&& self.packet_type == self.data.packet_type_spec()
    }

    /// The full wire frame of this packet: the 16-bit type code,
    /// little-endian; the size header when the type's size can vary; then
    /// the payload's wire image.
    pub open spec fn wire(&self) -> Seq<u8> {
        u16_le_bytes(self.packet_type.code_spec()) + (match self.data.size_header_spec() {
            Some(h) => seq![h],
            None => Seq::<u8>::empty(),
        }) + self.data.data_wire()
    }

    /// The client a packet addressed to one is meant for; `None` for every
    /// other direction. Dispatching such a packet anywhere else is a
    /// programming error, so the caller decides how to fail.
    pub fn destination(&self) -> (r: Option<ClientId>)
        ensures
            r == (match self.direction {
                PacketDirection::ToClient(id) => Some(id),
                _ => None::<ClientId>,
            }),
    {
        match &self.direction {
            PacketDirection::ToClient(id) => Some(*id),
            _ => None,
        }
    }

    /// Appends this packet's full wire frame to the buffer.
    pub fn write_to_buffer(self, buffer: &mut Vec<u8>)
        requires
            self.wf(),
        ensures
            final(buffer)@ == old(buffer)@ + self.wire(),
    {
        let ghost me = self;
        buffer.write_u16(self.packet_type.to_u16());
        match self.data.size_header() {
            Some(header) => {
                buffer.write_u8(header);
            },
            None => {},
        }
        self.data.write_to_buffer(buffer);
        assert(buffer@ =~= old(buffer)@ + me.wire());
    }

    /// Reads one packet from the front of an accumulation of received
    /// bytes, tagged with the direction matching its source.
    ///
    /// Returns `Ok(None)` while the bytes do not yet hold a whole frame
    /// (more may arrive), the packet and the frame's length once they do,
    /// and an error for a type code outside the catalog or a chunk-data
    /// frame whose declared size cannot hold the chunk its own mask
    /// promises.
    pub fn try_from_bytes(bytes: &Vec<u8>, source: PacketSource) -> (r: Result<
        Option<(Packet, usize)>,
        PacketReadError,
    >)
        ensures
            bytes@.len() < 2 ==> r is Ok && r->Ok_0 is None,
            bytes@.len() >= 2 && le16(bytes@[0], bytes@[1]) >= 3 ==> r is Err && r->Err_0
                == PacketReadError::InvalidPacketType(le16(bytes@[0], bytes@[1])),
            bytes@.len() >= 2 && le16(bytes@[0], bytes@[1]) < 3 ==> (
            {
                let t = type_of_code(le16(bytes@[0], bytes@[1]));
                if t is ChunkData && bytes@.len() < 3 {
                    r is Ok && r->Ok_0 is None
                } else if bytes@.len() < frame_len(t, bytes@) {
                    r is Ok && r->Ok_0 is None
                } else if data_read_ok(
                    t,
                    bytes@.subrange(frame_header_len(t), frame_len(t, bytes@)),
                ) {
                    &&& r is Ok
                    &&& r->Ok_0 is Some
                    &&& (
                    {
                        let (p, n) = r->Ok_0->Some_0;
                        &&& n == frame_len(t, bytes@)
                        &&& p.wf()
                        &&& p.packet_type == t
                        &&& p.direction == direction_of_source(source)
                        &&& p.data.data_wire() == bytes@.subrange(
                            frame_header_len(t),
                            frame_header_len(t) + p.data.data_wire().len() as int,
                        )
                    })
                } else {
                    r is Err && r->Err_0 is NotEnoughData
                }
            }),
    {
        if bytes.len() < 2 {
            return Ok(None);
        }
        let code = (bytes[0] as u16) | ((bytes[1] as u16) << 8);
        let packet_type = match PacketType::from_u16(code) {
            Some(t) => t,
            None => { return Err(PacketReadError::InvalidPacketType(code)); },
        };
        let mut size: Option<u8> = None;
        let header_len: usize = if packet_type.size_can_vary() {
            if bytes.len() < 3 {
                return Ok(None);
            }
            size = Some(bytes[2]);
            3
        } else {
            2
        };
        let required = packet_type.get_required_buffer_size(size);
        let total = header_len + required;
        if bytes.len() < total {
            return Ok(None);
        }
        let mut payload: Vec<u8> = Vec::new();
        let mut i: usize = header_len;
        while i < total
            invariant
                header_len <= i <= total,
                total <= bytes@.len(),
                payload@ == bytes@.subrange(header_len as int, i as int),
            decreases total - i,
        {
            payload.push(bytes[i]);
            i += 1;
        }
        let mut buf = PacketBuf::new(payload);
        let data = match PacketData::read_data(packet_type, &mut buf) {
            Ok(d) => d,
            Err(e) => {
                let (needed, available) = match e {
                    CbsBufferError::NotEnoughData(n, a) => (n, a),
                };
                return Err(
                    PacketReadError::NotEnoughData(
                        #[verifier::truncate]
                        (needed as u32),
                        #[verifier::truncate]
                        (available as u32),
                    ),
                );
            },
        };
        let packet = Packet { direction: source.as_direction(), packet_type, data };
        proof {
            assert(packet.data.data_wire() =~= bytes@.subrange(
                header_len as int,
                header_len + packet.data.data_wire().len() as int,
            ));
        }
        Ok(Some((packet, total)))
    }
}

} // verus!
