use jelly_fpga_control::backend::range_fits;
use jelly_fpga_control::{AccessError, Accessor, Backend, Width};
use std::cell::Cell;
use std::rc::Rc;

/// A backend that answers every access with zero and counts how often it
/// was touched.
struct Recorder {
    touched: Rc<Cell<usize>>,
    widths: Rc<Cell<Option<(usize, Width)>>>,
}

impl Recorder {
    fn touch(&self) {
        self.touched.set(self.touched.get() + 1);
    }
}

impl Backend for Recorder {
    fn extent(&self) -> usize {
        0x1000
    }

    fn address(&self) -> usize {
        0x4000_0000
    }

    fn physical(&self) -> Option<usize> {
        Some(0x8000_0000)
    }

    fn addr(&self) -> usize {
        self.address()
    }

    fn size(&self) -> usize {
        self.extent()
    }

    fn phys_addr(&self) -> Option<usize> {
        self.physical()
    }

    fn read_at(&self, offset: usize, width: Width) -> Result<u64, AccessError> {
        self.touch();
        if !range_fits(self.extent(), offset, width.byte_len()) {
            return Err(AccessError::OutOfRange);
        }
        self.widths.set(Some((offset, width)));
        Ok(0)
    }

    fn write_at(&mut self, offset: usize, width: Width, _bits: u64) -> Result<(), AccessError> {
        self.touch();
        if !range_fits(self.extent(), offset, width.byte_len()) {
            return Err(AccessError::OutOfRange);
        }
        self.widths.set(Some((offset, width)));
        Ok(())
    }

    fn copy_in(&mut self, _offset: usize, _data: &[u8]) -> Result<(), AccessError> {
        self.touch();
        Ok(())
    }

    fn copy_out(&self, _offset: usize, len: usize) -> Result<Vec<u8>, AccessError> {
        self.touch();
        Ok(vec![0; len])
    }

    fn subclone(&self, _offset: usize, _size: usize) -> Result<Self, AccessError> {
        Ok(Recorder { touched: self.touched.clone(), widths: self.widths.clone() })
    }
}

fn recorder() -> (Recorder, Rc<Cell<usize>>, Rc<Cell<Option<(usize, Width)>>>) {
    let touched = Rc::new(Cell::new(0));
    let widths = Rc::new(Cell::new(None));
    (Recorder { touched: touched.clone(), widths: widths.clone() }, touched, widths)
}

#[test]
fn invalid_width_performs_no_access() {
    let (backend, touched, _) = recorder();
    let mut acc = Accessor::new();
    let id = acc.open(Ok(backend), 4).unwrap();
    for size in [3usize, 5, 6, 7, 9, 12, 64] {
        assert_eq!(acc.read_mem_u(id, 0, size), Err(AccessError::InvalidSize));
        assert_eq!(acc.read_mem_i(id, 0, size), Err(AccessError::InvalidSize));
        assert_eq!(acc.read_reg_u(id, 1, size), Err(AccessError::InvalidSize));
        assert_eq!(acc.read_reg_i(id, 1, size), Err(AccessError::InvalidSize));
        assert_eq!(acc.write_mem_u(id, 0, 1, size), Err(AccessError::InvalidSize));
        assert_eq!(acc.write_mem_i(id, 0, 1, size), Err(AccessError::InvalidSize));
        assert_eq!(acc.write_reg_u(id, 1, 1, size), Err(AccessError::InvalidSize));
        assert_eq!(acc.write_reg_i(id, 1, 1, size), Err(AccessError::InvalidSize));
    }
    assert_eq!(touched.get(), 0);
    assert_eq!(acc.read_mem_u(id, 0, 4), Ok(0));
    assert_eq!(touched.get(), 1);
}

#[test]
fn size_selector_picks_the_width() {
    let (backend, _, seen) = recorder();
    let mut acc = Accessor::new();
    let id = acc.open(Ok(backend), 2).unwrap();
    let cases = [
        (0usize, Width::Pointer),
        (1, Width::W8),
        (2, Width::W16),
        (4, Width::W32),
        (8, Width::W64),
    ];
    for (size, width) in cases {
        acc.read_mem_u(id, 12, size).unwrap();
        assert_eq!(seen.get(), Some((12, width)));
        acc.write_reg_i(id, 5, -1, size).unwrap();
        assert_eq!(seen.get(), Some((10, width)));
    }
    acc.write_mem_f32(id, 3, 0).unwrap();
    assert_eq!(seen.get(), Some((3, Width::W32)));
    acc.read_reg_f64(id, 4).unwrap();
    assert_eq!(seen.get(), Some((8, Width::W64)));
}

#[test]
fn device_metadata_is_passed_through() {
    let (backend, _, _) = recorder();
    let mut acc = Accessor::new();
    let id = acc.open(Ok(backend), 0).unwrap();
    assert_eq!(acc.addr(id), Ok(0x4000_0000));
    assert_eq!(acc.size(id), Ok(0x1000));
    assert_eq!(acc.phys_addr(id), Ok(0x8000_0000));
}

#[test]
fn width_selectors() {
    assert_eq!(Width::from_size(0), Some(Width::Pointer));
    assert_eq!(Width::from_size(1), Some(Width::W8));
    assert_eq!(Width::from_size(2), Some(Width::W16));
    assert_eq!(Width::from_size(4), Some(Width::W32));
    assert_eq!(Width::from_size(8), Some(Width::W64));
    assert_eq!(Width::from_size(3), None);
    assert_eq!(Width::from_size(16), None);
    assert_eq!(Width::Pointer.byte_len(), std::mem::size_of::<usize>());
    assert_eq!(Width::W16.byte_len(), 2);
}

#[test]
fn width_conversions() {
    assert_eq!(Width::W8.truncate_u(0x1ff), 0xff);
    assert_eq!(Width::W32.truncate_u(0x1_0000_0001), 1);
    assert_eq!(Width::W64.truncate_u(u64::MAX), u64::MAX);
    assert_eq!(Width::W16.truncate_i(-2), 0xfffe);
    assert_eq!(Width::W8.truncate_i(300), 44);
    assert_eq!(Width::W64.truncate_i(-1), u64::MAX);
    assert_eq!(Width::W8.sign_extend(0x80), -128);
    assert_eq!(Width::W16.sign_extend(0x7fff), 32767);
    assert_eq!(Width::W32.sign_extend(0xffff_ffff), -1);
    assert_eq!(Width::W64.sign_extend(0x8000_0000_0000_0000), i64::MIN);
}
