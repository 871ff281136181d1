use jelly_fpga_control::{AccessError, Accessor, MemBuffer};

const PTR: usize = std::mem::size_of::<usize>();

fn with_buffer(len: usize, unit: usize) -> (Accessor<MemBuffer>, u32) {
    let mut acc: Accessor<MemBuffer> = Accessor::new();
    let id = acc.open(Ok(MemBuffer::new(len)), unit).unwrap();
    (acc, id)
}

#[test]
fn register_write_lands_at_scaled_offset() {
    let (mut acc, id) = with_buffer(4096, 4);
    assert_eq!(acc.write_reg_u(id, 2, 0xdeadbeef, 4), Ok(()));
    assert_eq!(acc.read_mem_u(id, 8, 4), Ok(0xdeadbeef));
}

#[test]
fn ids_start_at_one_and_are_not_reused() {
    let mut acc: Accessor<MemBuffer> = Accessor::new();
    let first = acc.open(Ok(MemBuffer::new(16)), 0);
    assert_eq!(first, Ok(1));
    assert_eq!(acc.close(1), Ok(()));
    let second = acc.open(Ok(MemBuffer::new(16)), 0);
    assert_eq!(second, Ok(2));
    let third = acc.open(Ok(MemBuffer::new(16)), 0);
    assert_eq!(third, Ok(3));
}

#[test]
fn default_registry_issues_one_first() {
    let mut acc: Accessor<MemBuffer> = Accessor::default();
    assert_eq!(acc.open(Ok(MemBuffer::new(8)), 0), Ok(1));
}

#[test]
fn failed_open_reports_reason_and_issues_nothing() {
    let mut acc: Accessor<MemBuffer> = Accessor::new();
    let r = acc.open(Err("no such device".to_string()), 4);
    assert_eq!(r, Err(AccessError::OpenFailed("no such device".to_string())));
    assert_eq!(acc.open(Ok(MemBuffer::new(8)), 4), Ok(1));
}

fn assert_all_invalid(acc: &mut Accessor<MemBuffer>, id: u32) {
    let bad = Err(AccessError::InvalidId);
    assert_eq!(acc.read_mem_u(id, 0, 4), bad);
    assert_eq!(acc.read_mem_i(id, 0, 4), Err(AccessError::InvalidId));
    assert_eq!(acc.read_reg_u(id, 0, 4), bad);
    assert_eq!(acc.read_reg_i(id, 0, 4), Err(AccessError::InvalidId));
    assert_eq!(acc.write_mem_u(id, 0, 1, 4), Err(AccessError::InvalidId));
    assert_eq!(acc.write_mem_i(id, 0, 1, 4), Err(AccessError::InvalidId));
    assert_eq!(acc.write_reg_u(id, 0, 1, 4), Err(AccessError::InvalidId));
    assert_eq!(acc.write_reg_i(id, 0, 1, 4), Err(AccessError::InvalidId));
    assert_eq!(acc.write_mem_f32(id, 0, 0), Err(AccessError::InvalidId));
    assert_eq!(acc.write_mem_f64(id, 0, 0), Err(AccessError::InvalidId));
    assert_eq!(acc.write_reg_f32(id, 0, 0), Err(AccessError::InvalidId));
    assert_eq!(acc.write_reg_f64(id, 0, 0), Err(AccessError::InvalidId));
    assert_eq!(acc.read_mem_f32(id, 0), Err(AccessError::InvalidId));
    assert_eq!(acc.read_mem_f64(id, 0), Err(AccessError::InvalidId));
    assert_eq!(acc.read_reg_f32(id, 0), Err(AccessError::InvalidId));
    assert_eq!(acc.read_reg_f64(id, 0), Err(AccessError::InvalidId));
    assert_eq!(acc.mem_copy_to(id, 0, &[1, 2]), Err(AccessError::InvalidId));
    assert_eq!(acc.mem_copy_from(id, 0, 2), Err(AccessError::InvalidId));
    assert_eq!(acc.addr(id), Err(AccessError::InvalidId));
    assert_eq!(acc.size(id), Err(AccessError::InvalidId));
    assert_eq!(acc.phys_addr(id), Err(AccessError::InvalidId));
    assert_eq!(acc.subclone(id, 0, 0, 0), Err(AccessError::InvalidId));
    assert_eq!(acc.close(id), Err(AccessError::InvalidId));
}

#[test]
fn closed_handle_is_invalid() {
    let (mut acc, id) = with_buffer(64, 4);
    assert_eq!(acc.close(id), Ok(()));
    assert_all_invalid(&mut acc, id);
}

#[test]
fn never_issued_handles_are_invalid() {
    let (mut acc, _) = with_buffer(64, 4);
    assert_all_invalid(&mut acc, 0);
    assert_all_invalid(&mut acc, 7);
}

#[test]
fn close_all_invalidates_every_handle() {
    let mut acc: Accessor<MemBuffer> = Accessor::new();
    let a = acc.open(Ok(MemBuffer::new(32)), 4).unwrap();
    let b = acc.open(Ok(MemBuffer::new(32)), 8).unwrap();
    let c = acc.subclone(a, 4, 8, 0).unwrap();
    acc.close_all();
    assert_all_invalid(&mut acc, a);
    assert_all_invalid(&mut acc, b);
    assert_all_invalid(&mut acc, c);
    let fresh = acc.open(Ok(MemBuffer::new(32)), 4).unwrap();
    assert_eq!(fresh, 4);
    assert!(fresh != a && fresh != b && fresh != c);
}

#[test]
fn register_read_equals_scaled_memory_read() {
    let (mut acc, id) = with_buffer(256, 8);
    for i in 0..32u64 {
        acc.write_mem_u(id, (i * 8) as usize, 0x0101_0101_0101_0101 * i, 8).unwrap();
    }
    for size in [0usize, 1, 2, 4, 8, 3] {
        for reg in 0..32usize {
            assert_eq!(acc.read_reg_u(id, reg, size), acc.read_mem_u(id, reg * 8, size));
            assert_eq!(acc.read_reg_i(id, reg, size), acc.read_mem_i(id, reg * 8, size));
        }
    }
}

#[test]
fn zero_unit_defaults_to_pointer_width() {
    let (mut acc, id) = with_buffer(64, 0);
    assert_eq!(acc.write_reg_u(id, 1, 0xa5, 1), Ok(()));
    assert_eq!(acc.read_mem_u(id, PTR, 1), Ok(0xa5));
    assert_eq!(acc.read_reg_u(id, 3, 1), acc.read_mem_u(id, 3 * PTR, 1));
}

#[test]
fn write_then_read_round_trips_each_width() {
    let (mut acc, id) = with_buffer(64, 4);
    let cases: [(usize, u64); 4] = [
        (1, 0xff),
        (2, 0xbeef),
        (4, 0xdead_beef),
        (8, 0xffff_ffff_ffff_fffe),
    ];
    for (size, v) in cases {
        for off in [0usize, 3, 64 - size] {
            assert_eq!(acc.write_mem_u(id, off, v, size), Ok(()));
            assert_eq!(acc.read_mem_u(id, off, size), Ok(v));
        }
    }
    assert_eq!(acc.write_mem_u(id, 16, 0, 2), Ok(()));
    assert_eq!(acc.read_mem_u(id, 16, 2), Ok(0));
}

#[test]
fn pointer_width_selector_uses_pointer_size() {
    let (mut acc, id) = with_buffer(32, 4);
    assert_eq!(acc.write_mem_u(id, 0, u64::MAX, 0), Ok(()));
    let expected = if PTR == 8 { u64::MAX } else { 0xffff_ffff };
    assert_eq!(acc.read_mem_u(id, 0, 0), Ok(expected));
    assert_eq!(acc.read_mem_u(id, PTR, 1), Ok(0));
}

#[test]
fn oversized_value_is_truncated_on_write() {
    let (mut acc, id) = with_buffer(16, 4);
    assert_eq!(acc.write_mem_u(id, 0, 0x1122_3344_5566_7788, 2), Ok(()));
    assert_eq!(acc.read_mem_u(id, 0, 8), Ok(0x7788));
    assert_eq!(acc.write_mem_i(id, 4, -2, 2), Ok(()));
    assert_eq!(acc.read_mem_u(id, 4, 4), Ok(0xfffe));
}

#[test]
fn values_are_stored_least_significant_byte_first() {
    let (mut acc, id) = with_buffer(8, 4);
    assert_eq!(acc.write_mem_u(id, 0, 0x1122_3344, 4), Ok(()));
    assert_eq!(acc.mem_copy_from(id, 0, 4), Ok(vec![0x44, 0x33, 0x22, 0x11]));
}

#[test]
fn signed_reads_sign_extend() {
    let (mut acc, id) = with_buffer(16, 4);
    assert_eq!(acc.write_mem_u(id, 0, 0xff, 1), Ok(()));
    assert_eq!(acc.read_mem_i(id, 0, 1), Ok(-1));
    assert_eq!(acc.read_mem_u(id, 0, 1), Ok(0xff));
    assert_eq!(acc.write_mem_u(id, 0, 0x7f, 1), Ok(()));
    assert_eq!(acc.read_mem_i(id, 0, 1), Ok(127));
    assert_eq!(acc.write_mem_i(id, 4, -32768, 2), Ok(()));
    assert_eq!(acc.read_mem_i(id, 4, 2), Ok(-32768));
    assert_eq!(acc.write_mem_i(id, 8, i64::MIN, 8), Ok(()));
    assert_eq!(acc.read_mem_i(id, 8, 8), Ok(i64::MIN));
    assert_eq!(acc.write_reg_i(id, 1, -5, 4), Ok(()));
    assert_eq!(acc.read_reg_i(id, 1, 4), Ok(-5));
    assert_eq!(acc.read_reg_u(id, 1, 4), Ok(0xffff_fffb));
}

#[test]
fn copy_round_trip() {
    let (mut acc, id) = with_buffer(64, 4);
    let bytes: Vec<u8> = (1..=20).collect();
    assert_eq!(acc.mem_copy_to(id, 10, &bytes), Ok(()));
    assert_eq!(acc.mem_copy_from(id, 10, bytes.len()), Ok(bytes.clone()));
    assert_eq!(acc.mem_copy_from(id, 9, 1), Ok(vec![0]));
    assert_eq!(acc.mem_copy_to(id, 0, &[]), Ok(()));
    assert_eq!(acc.mem_copy_from(id, 64, 0), Ok(vec![]));
}

#[test]
fn float_bit_patterns_round_trip() {
    let (mut acc, id) = with_buffer(32, 8);
    assert_eq!(acc.write_mem_f32(id, 0, 1.5f32.to_bits()), Ok(()));
    assert_eq!(acc.read_mem_f32(id, 0).map(f32::from_bits), Ok(1.5));
    assert_eq!(acc.write_reg_f64(id, 2, (-0.25f64).to_bits()), Ok(()));
    assert_eq!(acc.read_mem_f64(id, 16).map(f64::from_bits), Ok(-0.25));
    assert_eq!(acc.read_reg_f64(id, 2).map(f64::from_bits), Ok(-0.25));
    assert_eq!(acc.write_reg_f32(id, 1, 2.0f32.to_bits()), Ok(()));
    assert_eq!(acc.read_reg_f32(id, 1).map(f32::from_bits), Ok(2.0));
    assert_eq!(acc.read_mem_u(id, 8, 4), Ok(2.0f32.to_bits() as u64));
}

#[test]
fn subclone_inherits_unit_and_is_independent() {
    let (mut acc, parent) = with_buffer(64, 4);
    acc.write_mem_u(parent, 16, 0x1234_5678, 4).unwrap();
    let child = acc.subclone(parent, 16, 16, 0).unwrap();
    assert_ne!(child, parent);
    assert_eq!(acc.size(child), Ok(16));
    assert_eq!(acc.read_reg_u(child, 0, 4), Ok(0x1234_5678));
    acc.write_mem_u(child, 4, 0xabcd, 2).unwrap();
    assert_eq!(acc.read_reg_u(child, 1, 2), Ok(0xabcd));
    assert_eq!(acc.close(parent), Ok(()));
    assert_eq!(acc.read_mem_u(child, 0, 4), Ok(0x1234_5678));
    let other = acc.open(Ok(MemBuffer::new(8)), 4).unwrap();
    let grandchild = acc.subclone(other, 0, 0, 2).unwrap();
    assert_eq!(acc.close(grandchild), Ok(()));
    assert_eq!(acc.size(other), Ok(8));
    assert_eq!(acc.write_reg_u(other, 1, 7, 1), Ok(()));
    assert_eq!(acc.read_mem_u(other, 4, 1), Ok(7));
}

#[test]
fn subclone_with_own_unit_and_whole_rest() {
    let (mut acc, parent) = with_buffer(32, 4);
    let child = acc.subclone(parent, 8, 0, 2).unwrap();
    assert_eq!(acc.size(child), Ok(24));
    assert_eq!(acc.write_reg_u(child, 3, 0x55, 1), Ok(()));
    assert_eq!(acc.read_mem_u(child, 6, 1), Ok(0x55));
    assert_eq!(acc.read_mem_u(parent, 14, 1), Ok(0));
}

#[test]
fn subclone_outside_parent_is_refused() {
    let (mut acc, parent) = with_buffer(32, 4);
    assert_eq!(acc.subclone(parent, 32, 0, 0), Err(AccessError::OutOfRange));
    assert_eq!(acc.subclone(parent, 16, 17, 0), Err(AccessError::OutOfRange));
    assert_eq!(acc.open(Ok(MemBuffer::new(4)), 0), Ok(2));
}

#[test]
fn invalid_width_is_rejected() {
    let (mut acc, id) = with_buffer(16, 4);
    acc.write_mem_u(id, 0, 0x0102_0304, 4).unwrap();
    for size in [3usize, 5, 6, 7, 9, 16, usize::MAX] {
        assert_eq!(acc.read_mem_u(id, 0, size), Err(AccessError::InvalidSize));
        assert_eq!(acc.read_mem_i(id, 0, size), Err(AccessError::InvalidSize));
        assert_eq!(acc.read_reg_u(id, 0, size), Err(AccessError::InvalidSize));
        assert_eq!(acc.read_reg_i(id, 0, size), Err(AccessError::InvalidSize));
        assert_eq!(acc.write_mem_u(id, 0, 0, size), Err(AccessError::InvalidSize));
        assert_eq!(acc.write_mem_i(id, 0, 0, size), Err(AccessError::InvalidSize));
        assert_eq!(acc.write_reg_u(id, 0, 0, size), Err(AccessError::InvalidSize));
        assert_eq!(acc.write_reg_i(id, 0, 0, size), Err(AccessError::InvalidSize));
    }
    assert_eq!(acc.read_mem_u(id, 0, 4), Ok(0x0102_0304));
}

#[test]
fn invalid_handle_takes_precedence_over_invalid_width() {
    let (acc, _) = with_buffer(16, 4);
    assert_eq!(acc.read_mem_u(9, 0, 3), Err(AccessError::InvalidId));
}

#[test]
fn access_past_the_end_is_out_of_range() {
    let (mut acc, id) = with_buffer(16, 4);
    assert_eq!(acc.read_mem_u(id, 13, 4), Err(AccessError::OutOfRange));
    assert_eq!(acc.write_mem_u(id, 15, 1, 2), Err(AccessError::OutOfRange));
    assert_eq!(acc.write_mem_u(id, usize::MAX, 1, 1), Err(AccessError::OutOfRange));
    assert_eq!(acc.read_reg_u(id, 4, 4), Err(AccessError::OutOfRange));
    assert_eq!(acc.mem_copy_to(id, 10, &[0; 7]), Err(AccessError::OutOfRange));
    assert_eq!(acc.mem_copy_from(id, 17, 0), Err(AccessError::OutOfRange));
    assert_eq!(acc.read_mem_u(id, 0, 8), Ok(0));
}

#[test]
fn register_offset_overflow_is_out_of_range() {
    let (mut acc, id) = with_buffer(16, 4);
    assert_eq!(acc.read_reg_u(id, usize::MAX, 1), Err(AccessError::OutOfRange));
    assert_eq!(acc.write_reg_u(id, usize::MAX / 2, 1, 1), Err(AccessError::OutOfRange));
    assert_eq!(acc.read_reg_f32(id, usize::MAX), Err(AccessError::OutOfRange));
}

#[test]
fn metadata_of_a_buffer() {
    let (acc, id) = with_buffer(100, 4);
    assert_eq!(acc.size(id), Ok(100));
    assert_eq!(acc.addr(id), Ok(0));
    assert_eq!(acc.phys_addr(id), Err(AccessError::Unsupported));
}
