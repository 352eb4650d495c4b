use byte_buffer::{ByteBuffer, Error};

#[test]
fn with_capacity_sets_len() {
    for cap in [0usize, 1, 2, 7, 64, 1000] {
        let b = ByteBuffer::with_capacity(cap);
        assert_eq!(b.len(), cap);
        assert_eq!(b.get_rpos(), 0);
        assert_eq!(b.get_wpos(), 0);
        assert_eq!(b.to_bytes(), vec![0u8; cap]);
    }
}

#[test]
fn default_is_empty() {
    let mut b = ByteBuffer::default();
    assert_eq!(b.len(), 0);
    assert_eq!(b.get_rpos(), 0);
    assert_eq!(b.get_wpos(), 0);
    assert_eq!(b.write_u8(1), Err(Error::WriteOverflow));
    assert_eq!(b.read_u8_as_u32(), Err(Error::ReadOverflow));
}

#[test]
fn clear_resets_cursors_and_keeps_bytes() {
    let mut b = ByteBuffer::with_capacity(8);
    b.write_u32(0xdead_beef).unwrap();
    assert_eq!(b.read_u8_as_u32(), Ok(0xef));
    let before = b.to_bytes();
    b.clear();
    assert_eq!(b.get_rpos(), 0);
    assert_eq!(b.get_wpos(), 0);
    assert_eq!(b.to_bytes(), before);
}

#[test]
fn round_trip_u8_u16_u32() {
    let mut b = ByteBuffer::with_capacity(8);
    b.write_u8(0xab).unwrap();
    b.write_u16(0x1234).unwrap();
    b.write_u32(0x89ab_cdef).unwrap();
    assert_eq!(b.get_wpos(), 7);
    assert_eq!(b.read_u8_as_u32(), Ok(0xab));
    assert_eq!(b.read_u16_as_u32(), Ok(0x1234));
    assert_eq!(b.read_u32(), Ok(0x89ab_cdef));
    assert_eq!(b.get_rpos(), 7);
}

#[test]
fn round_trip_extreme_values() {
    let mut b = ByteBuffer::with_capacity(16);
    b.write_u8(u8::MAX).unwrap();
    b.write_u16(u16::MAX).unwrap();
    b.write_u32(u32::MAX).unwrap();
    b.write_u32(0).unwrap();
    assert_eq!(b.read_u8_as_u32(), Ok(255));
    assert_eq!(b.read_u16_as_u32(), Ok(65535));
    assert_eq!(b.read_u32(), Ok(u32::MAX));
    assert_eq!(b.read_u32(), Ok(0));
}

#[test]
fn write_u32_overflow_changes_nothing() {
    let mut b = ByteBuffer::with_capacity(2);
    assert_eq!(b.write_u32(1), Err(Error::WriteOverflow));
    assert_eq!(b.get_wpos(), 0);
    assert_eq!(b.to_bytes(), vec![0u8, 0]);
}

#[test]
fn read_u32_overflow_keeps_rpos() {
    let mut b = ByteBuffer::with_capacity(1);
    assert_eq!(b.read_u32(), Err(Error::ReadOverflow));
    assert_eq!(b.get_rpos(), 0);
}

#[test]
fn read_u32_ending_at_end_of_store_fails() {
    let mut b = ByteBuffer::with_capacity(4);
    b.write_u32(0x0102_0304).unwrap();
    assert_eq!(b.get_wpos(), 4);
    assert_eq!(b.read_u32(), Err(Error::ReadOverflow));
    assert_eq!(b.get_rpos(), 0);
    let mut c = ByteBuffer::with_capacity(5);
    c.write_u32(0x0102_0304).unwrap();
    assert_eq!(c.read_u32(), Ok(0x0102_0304));
}

#[test]
fn read_u16_ending_at_end_of_store_fails() {
    let mut b = ByteBuffer::with_capacity(2);
    b.write_u16(0x0102).unwrap();
    assert_eq!(b.read_u16_as_u32(), Err(Error::ReadOverflow));
    assert_eq!(b.get_rpos(), 0);
    let mut c = ByteBuffer::with_capacity(3);
    c.write_u16(0x0102).unwrap();
    assert_eq!(c.read_u16_as_u32(), Ok(0x0102));
    assert_eq!(c.get_rpos(), 2);
}

#[test]
fn inspection_changes_nothing() {
    let mut b = ByteBuffer::with_capacity(6);
    b.write_u16(0x0a0b).unwrap();
    b.read_u8_as_u32().unwrap();
    let bytes = b.to_bytes();
    for _ in 0..3 {
        assert_eq!(b.get_rpos(), 1);
        assert_eq!(b.get_wpos(), 2);
        assert_eq!(b.len(), 6);
        assert_eq!(b.to_bytes(), bytes);
    }
}

#[test]
fn empty_read_and_write_always_succeed() {
    let mut b = ByteBuffer::with_capacity(3);
    assert_eq!(b.read_bytes(0), Ok(vec![]));
    assert_eq!(b.write_bytes(&[]), Ok(()));
    assert_eq!((b.get_rpos(), b.get_wpos()), (0, 0));
    b.write_bytes(&[1, 2, 3]).unwrap();
    b.read_bytes(3).unwrap();
    assert_eq!(b.read_bytes(0), Ok(vec![]));
    assert_eq!(b.write_bytes(&[]), Ok(()));
    assert_eq!((b.get_rpos(), b.get_wpos()), (3, 3));
    let mut e = ByteBuffer::default();
    assert_eq!(e.read_bytes(0), Ok(vec![]));
    assert_eq!(e.write_bytes(&[]), Ok(()));
}

#[test]
fn write_u16_is_little_endian() {
    let mut b = ByteBuffer::with_capacity(4);
    b.write_u16(0x1234).unwrap();
    assert_eq!(b.to_bytes(), vec![0x34, 0x12, 0, 0]);
}

#[test]
fn write_u32_is_little_endian() {
    let mut b = ByteBuffer::with_capacity(5);
    b.write_u8(0xff).unwrap();
    b.write_u32(0x1234_5678).unwrap();
    assert_eq!(b.to_bytes(), vec![0xff, 0x78, 0x56, 0x34, 0x12]);
}

#[test]
fn read_u16_is_little_endian() {
    let mut b = ByteBuffer::with_capacity(3);
    b.write_bytes(&[0x34, 0x12, 0x99]).unwrap();
    assert_eq!(b.read_u16_as_u32(), Ok(0x1234));
}

#[test]
fn read_u32_is_little_endian() {
    let mut b = ByteBuffer::with_capacity(6);
    b.write_bytes(&[0x00, 0x78, 0x56, 0x34, 0x12, 0x00]).unwrap();
    b.read_u8_as_u32().unwrap();
    assert_eq!(b.read_u32(), Ok(0x1234_5678));
    assert_eq!(b.get_rpos(), 5);
}

#[test]
fn write_bytes_overflow_changes_nothing() {
    let mut b = ByteBuffer::with_capacity(4);
    b.write_bytes(&[9, 8]).unwrap();
    assert_eq!(b.write_bytes(&[1, 2, 3]), Err(Error::WriteOverflow));
    assert_eq!(b.get_wpos(), 2);
    assert_eq!(b.to_bytes(), vec![9, 8, 0, 0]);
    assert_eq!(b.write_bytes(&[1, 2]), Ok(()));
    assert_eq!(b.to_bytes(), vec![9, 8, 1, 2]);
    assert_eq!(b.write_u8(5), Err(Error::WriteOverflow));
}

#[test]
fn read_bytes_copies_and_advances() {
    let mut b = ByteBuffer::with_capacity(5);
    b.write_bytes(&[1, 2, 3, 4]).unwrap();
    assert_eq!(b.read_bytes(2), Ok(vec![1, 2]));
    assert_eq!(b.get_rpos(), 2);
    assert_eq!(b.read_remain(), 3);
    // reads are bounded by the capacity, not by the write cursor
    assert_eq!(b.read_bytes(3), Ok(vec![3, 4, 0]));
    assert_eq!(b.read_remain(), 0);
}

#[test]
fn read_bytes_overflow_keeps_rpos() {
    let mut b = ByteBuffer::with_capacity(3);
    assert_eq!(b.read_bytes(4), Err(Error::ReadOverflow));
    assert_eq!(b.get_rpos(), 0);
    b.read_bytes(1).unwrap();
    assert_eq!(b.read_bytes(usize::MAX), Err(Error::ReadOverflow));
    assert_eq!(b.get_rpos(), 1);
}

#[test]
fn read_u8_at_end_fails() {
    let mut b = ByteBuffer::with_capacity(1);
    b.write_u8(42).unwrap();
    assert_eq!(b.read_u8_as_u32(), Ok(42));
    assert_eq!(b.read_u8_as_u32(), Err(Error::ReadOverflow));
    assert_eq!(b.get_rpos(), 1);
}

#[test]
fn read_remain_counts_to_capacity() {
    let mut b = ByteBuffer::with_capacity(10);
    assert_eq!(b.read_remain(), 10);
    b.write_u32(1).unwrap();
    assert_eq!(b.read_remain(), 10);
    b.read_u16_as_u32().unwrap();
    assert_eq!(b.read_remain(), 8);
}

#[test]
fn clone_keeps_bytes_and_cursors() {
    let mut b = ByteBuffer::with_capacity(6);
    b.write_u16(0x0201).unwrap();
    b.read_u8_as_u32().unwrap();
    let mut c = b.clone();
    assert_eq!(c.get_rpos(), 1);
    assert_eq!(c.get_wpos(), 2);
    assert_eq!(c.to_bytes(), b.to_bytes());
    c.write_u8(7).unwrap();
    assert_eq!(b.get_wpos(), 2);
    assert_eq!(b.to_bytes(), vec![1, 2, 0, 0, 0, 0]);
}

#[test]
fn error_descriptions() {
    assert_eq!(Error::ReadOverflow.description(), "buffer overflow for read");
    assert_eq!(Error::WriteOverflow.description(), "buffer overflow for write");
    assert_ne!(Error::ReadOverflow, Error::WriteOverflow);
}
