use sm83::memory::{Memory, U16Wrapper};

#[test]
fn test_get_u8() {
    let mut test_memory = Memory::new();

    test_memory.write_u8(0x0000, 69);

    assert_eq!(test_memory.read_u8(0x0000), 69);
}

#[test]
fn test_get_u16() {
    let mut test_memory = Memory::new();
    test_memory.write_u8(0, 0xFA);
    test_memory.write_u8(1, 0xAF);

    assert_eq!(test_memory.read_u16(0), 0xAFFA)
}

#[test]
fn test_write_u8() {
    let mut test_memory = Memory::new();
    test_memory.write_u8(0, 69);
    assert_eq!(test_memory.read_u8(0), 69);
}

#[test]
fn test_write_u16() {
    let mut test_memory = Memory::new();
    test_memory.write_u16(0, 0xAFFA);
    assert_eq!(test_memory.read_u8(0), 0xFA);
    assert_eq!(test_memory.read_u8(1), 0xAF);
}

#[test]
fn test_read_u16wrapper() {
    let mut test_memory = Memory::new();
    test_memory.write_u8(10, 0xF0);
    test_memory.write_u8(11, 0x0F);

    let U16Wrapper(val1, val2) = test_memory.read_u16wrapper(10);

    // sanity check values returned from function
    assert_eq!(val1, 0xF0);
    assert_eq!(val2, 0x0F);

    // mutate the pair by value and store it back
    let pair = U16Wrapper(69, 99);
    test_memory.write_u16wrapper(10, pair);
    assert_eq!(test_memory.read_u8(10), 69);
    assert_eq!(test_memory.read_u8(11), 99);
}

#[test]
fn test_u16wrapper_round_trip() {
    let mut pair = U16Wrapper(0, 0);
    pair.from_u16(0xABCD);
    assert_eq!(pair.0, 0xAB);
    assert_eq!(pair.1, 0xCD);
    assert_eq!(pair.into_u16(), 0xABCD);
}

#[test]
fn test_memory_round_trip_samples() {
    let mut m = Memory::new();
    let samples: [(u16, u8); 6] =
        [(0x0000, 1), (0x3FFF, 2), (0x8000, 0xFF), (0xC000, 0x55), (0xFF80, 0xAA), (0xFFFF, 9)];
    for (a, v) in samples {
        m.write_u8(a, v);
        assert_eq!(m.read_u8(a), v);
    }
}

#[test]
fn test_memory_round_trip16() {
    let mut m = Memory::new();
    m.write_u16(0x1234, 0xBEEF);
    assert_eq!(m.read_u16(0x1234), 0xBEEF);
    m.write_u16(0x8000, 0x0102);
    assert_eq!(m.read_u16(0x8000), 0x0102);
}

#[test]
fn test_echo_ram_mirrors_work_ram() {
    let mut m = Memory::new();
    m.write_u8(0xC000, 0x42);
    assert_eq!(m.read_u8(0xE000), 0x42);
    m.write_u8(0xC000 + 0x1DFF, 0x99);
    assert_eq!(m.read_u8(0xE000 + 0x1DFF), 0x99);
    // a write through the echo window lands in work RAM
    m.write_u8(0xE123, 0x77);
    assert_eq!(m.read_u8(0xC123), 0x77);
    assert_eq!(m.read_u8(0xE123), 0x77);
}
