use jelly_fpga_control::{AccessError, Backend, MemBuffer, Width};

#[test]
fn buffer_starts_zeroed() {
    let b = MemBuffer::new(5);
    assert_eq!(b.as_bytes(), &[0, 0, 0, 0, 0]);
    assert_eq!(b.size(), 5);
    assert_eq!(b.phys_addr(), None);
}

#[test]
fn buffer_reads_little_endian() {
    let b = MemBuffer::from_bytes(vec![0x01, 0x02, 0x03, 0x04, 0x05, 0x06, 0x07, 0x08, 0x09]);
    assert_eq!(b.read_at(0, Width::W8), Ok(0x01));
    assert_eq!(b.read_at(1, Width::W16), Ok(0x0302));
    assert_eq!(b.read_at(1, Width::W32), Ok(0x0504_0302));
    assert_eq!(b.read_at(1, Width::W64), Ok(0x0908_0706_0504_0302));
    assert_eq!(b.read_at(2, Width::W64), Err(AccessError::OutOfRange));
}

#[test]
fn buffer_writes_only_the_addressed_bytes() {
    let mut b = MemBuffer::new(6);
    assert_eq!(b.write_at(1, Width::W32, 0xaabb_ccdd), Ok(()));
    assert_eq!(b.as_bytes(), &[0, 0xdd, 0xcc, 0xbb, 0xaa, 0]);
    assert_eq!(b.write_at(3, Width::W32, 1), Err(AccessError::OutOfRange));
    assert_eq!(b.as_bytes(), &[0, 0xdd, 0xcc, 0xbb, 0xaa, 0]);
}

#[test]
fn buffer_subclone_copies_the_range() {
    let b = MemBuffer::from_bytes(vec![1, 2, 3, 4, 5]);
    let c = b.subclone(1, 3).ok().unwrap();
    assert_eq!(c.as_bytes(), &[2, 3, 4]);
    let d = b.subclone(3, 0).ok().unwrap();
    assert_eq!(d.as_bytes(), &[4, 5]);
    assert!(b.subclone(5, 0).is_err());
    assert!(b.subclone(2, 4).is_err());
}
