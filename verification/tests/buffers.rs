use voxelsync::cbs::{PacketBuf, WriteExt};
use voxelsync::error::{CbsBufferError, ClientChunkStorageError, PacketSendError};
use voxelsync::util::Boxable;

#[test]
fn packet_buf_reads_in_sequence() {
    let mut buf = PacketBuf::new(vec![1, 2, 3, 4, 5, 6, 7, 8, 9, 10, 11]);
    assert_eq!(buf.available_bytes(), 11);
    assert_eq!(buf.next_byte().unwrap(), 1);
    assert_eq!(buf.next_u16().unwrap(), 0x0302);
    assert_eq!(buf.next_u32().unwrap(), 0x07060504);
    assert_eq!(buf.available_bytes(), 4);
    assert_eq!(buf.next_bytes(3).unwrap(), vec![8, 9, 10]);
    assert_eq!(
        buf.next_u16(),
        Err(CbsBufferError::NotEnoughData(2, 1))
    );
    assert_eq!(buf.next_byte().unwrap(), 11);
    assert_eq!(
        buf.next_byte(),
        Err(CbsBufferError::NotEnoughData(1, 0))
    );
}

#[test]
fn packet_buf_reads_u64_little_endian() {
    let mut buf = PacketBuf::new(vec![0x01, 0x02, 0x03, 0x04, 0x05, 0x06, 0x07, 0x08]);
    assert_eq!(buf.next_u64().unwrap(), 0x0807060504030201);
    let mut short = PacketBuf::new(vec![0; 7]);
    assert_eq!(short.next_u64(), Err(CbsBufferError::NotEnoughData(8, 7)));
}

#[test]
fn packet_buf_reads_partial_integers() {
    let mut buf = PacketBuf::new(vec![0xaa, 0xbb, 0xcc]);
    assert_eq!(buf.next_n_bytes_as_u32(3).unwrap(), 0x00ccbbaa);
    assert_eq!(buf.available_bytes(), 0);
    let mut short = PacketBuf::new(vec![0xaa]);
    assert_eq!(
        short.next_n_bytes_as_u32(2),
        Err(CbsBufferError::NotEnoughData(2, 1))
    );
}

#[test]
fn write_ext_lays_integers_out_little_endian() {
    let mut sink: Vec<u8> = Vec::new();
    assert_eq!(sink.write_u8(0x01), 1);
    assert_eq!(sink.write_u16(0x0302), 2);
    assert_eq!(sink.write_u32(0x07060504), 4);
    assert_eq!(sink, vec![1, 2, 3, 4, 5, 6, 7]);
    let mut sink: Vec<u8> = Vec::new();
    assert_eq!(sink.write_u64(0x0807060504030201), 8);
    assert_eq!(sink, vec![1, 2, 3, 4, 5, 6, 7, 8]);
}

#[test]
fn write_ext_writes_integer_prefixes() {
    let mut sink: Vec<u8> = Vec::new();
    assert_eq!(sink.first_n_bytes_u32::<3>(0x00ccbbaa), 3);
    assert_eq!(sink, vec![0xaa, 0xbb, 0xcc]);
    let mut sink: Vec<u8> = Vec::new();
    assert_eq!(sink.first_n_bytes_u128::<2>(0x0302), 2);
    assert_eq!(sink, vec![0x02, 0x03]);
}

#[test]
fn boxed_moves_the_value_to_the_heap() {
    let boxed = 7u32.boxed();
    assert_eq!(*boxed, 7);
}

#[test]
fn transport_error_values_compare_by_kind() {
    assert_eq!(
        PacketSendError::ConnectionClosed,
        PacketSendError::ConnectionClosed
    );
    assert_eq!(
        ClientChunkStorageError::RequestChannelClosed,
        ClientChunkStorageError::RequestChannelClosed
    );
}
