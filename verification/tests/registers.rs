use chip8::io::{MemoryError, Read, Write};
use chip8::registers::{I, V};

#[test]
fn new_registers_are_zero() {
    let v = V::new();
    for x in 0..16u8 {
        assert_eq!(v.read(x), Ok(0));
    }
    assert_eq!(I::new().read(), 0);
}

#[test]
fn register_write_then_read() {
    let mut v = V::new();
    for x in 0..16u8 {
        assert_eq!(v.write(x, 0xF0 | x), Ok(()));
    }
    for x in 0..16u8 {
        assert_eq!(v.read(x), Ok(0xF0 | x));
    }
}

#[test]
fn register_beyond_vf_is_out_of_bounds() {
    let mut v = V::new();
    for x in [16u8, 17, 0x80, 0xFF] {
        assert_eq!(v.read(x), Err(MemoryError::OutOfBounds));
        assert_eq!(v.write(x, 1), Err(MemoryError::OutOfBounds));
    }
}

#[test]
fn register_block_transfer() {
    let mut v = V::new();
    assert_eq!(v.write_buf(2, &[10, 20, 30]), Ok(()));
    assert_eq!(v.read_range(0, 6), Ok(&[0u8, 0, 10, 20, 30, 0][..]));
    assert_eq!(v.read_range(3, 2), Ok(&[20u8, 30][..]));
    assert_eq!(v.write_buf(0, &[1; 16]), Ok(()));
    assert_eq!(v.read_range(0, 16), Ok(&[1u8; 16][..]));
    assert_eq!(v.read_range(16, 0), Ok(&[][..]));
}

#[test]
fn register_block_beyond_vf_is_out_of_bounds() {
    let mut v = V::new();
    assert_eq!(v.read_range(0, 17), Err(MemoryError::OutOfBounds));
    assert_eq!(v.read_range(15, 2), Err(MemoryError::OutOfBounds));
    assert_eq!(v.read_range(17, 0), Err(MemoryError::OutOfBounds));
    assert_eq!(v.read_range(0xFF, 0xFF), Err(MemoryError::OutOfBounds));
    assert_eq!(v.write_buf(15, &[1, 2]), Err(MemoryError::OutOfBounds));
    assert_eq!(v.write_buf(0, &[0; 17]), Err(MemoryError::OutOfBounds));
    assert_eq!(v.write_buf(0xFF, &[1]), Err(MemoryError::OutOfBounds));
    assert_eq!(v.read(15), Ok(0));
}

#[test]
fn index_register_takes_every_value() {
    let mut i = I::new();
    for value in [0u16, 1, 0x0FFF, 0x1000, 0xFFFF] {
        i.write(value);
        assert_eq!(i.read(), value);
    }
}
