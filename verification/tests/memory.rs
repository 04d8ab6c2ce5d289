use gb_cpu::fault::Fault;
use gb_cpu::memory::{MemoryBus, ADDRESS_SPACE_SIZE};

#[test]
fn new_memory_is_zeroed() {
    let bus = MemoryBus::new();
    for address in 0u16..=0xFFFF {
        assert_eq!(bus.read_byte(address), 0);
    }
}

#[test]
fn every_address_is_writable_and_readable() {
    let mut bus = MemoryBus::new();
    for address in 0u16..=0xFFFF {
        bus.write_byte(address, (address % 251) as u8 + 1);
    }
    for address in 0u16..=0xFFFF {
        assert_eq!(bus.read_byte(address), (address % 251) as u8 + 1);
    }
}

#[test]
fn write_byte_changes_one_address() {
    let mut bus = MemoryBus::new();
    bus.write_byte(0x1234, 0x56);
    assert_eq!(bus.read_byte(0x1234), 0x56);
    assert_eq!(bus.read_byte(0x1233), 0);
    assert_eq!(bus.read_byte(0x1235), 0);
}

#[test]
fn set_range_copies_the_block() {
    let mut bus = MemoryBus::new();
    bus.write_byte(0x00FF, 0xEE);
    bus.write_byte(0x0104, 0xEE);
    bus.set_range(0x0100, 4, &[1, 2, 3, 4]);
    assert_eq!(bus.read_byte(0x00FF), 0xEE);
    assert_eq!(bus.read_byte(0x0100), 1);
    assert_eq!(bus.read_byte(0x0101), 2);
    assert_eq!(bus.read_byte(0x0102), 3);
    assert_eq!(bus.read_byte(0x0103), 4);
    assert_eq!(bus.read_byte(0x0104), 0xEE);
}

#[test]
fn set_range_of_nothing_changes_nothing() {
    let mut bus = MemoryBus::new();
    bus.write_byte(0, 9);
    bus.set_range(0, 0, &[]);
    bus.set_range(ADDRESS_SPACE_SIZE, 0, &[]);
    assert_eq!(bus.read_byte(0), 9);
}

#[test]
fn set_range_fills_the_whole_space() {
    let mut bus = MemoryBus::new();
    let block = vec![0x5A; ADDRESS_SPACE_SIZE];
    bus.set_range(0, ADDRESS_SPACE_SIZE, &block);
    assert_eq!(bus.read_byte(0), 0x5A);
    assert_eq!(bus.read_byte(0xFFFF), 0x5A);
}

#[test]
fn load_places_bytes_at_the_start_address() {
    let mut bus = MemoryBus::new();
    assert_eq!(bus.load(0x8000, &[0xAA, 0xBB, 0xCC]), Ok(()));
    assert_eq!(bus.read_byte(0x7FFF), 0);
    assert_eq!(bus.read_byte(0x8000), 0xAA);
    assert_eq!(bus.read_byte(0x8001), 0xBB);
    assert_eq!(bus.read_byte(0x8002), 0xCC);
    assert_eq!(bus.read_byte(0x8003), 0);
}

#[test]
fn load_reaches_the_last_address() {
    let mut bus = MemoryBus::new();
    assert_eq!(bus.load(0xFFFD, &[1, 2, 3]), Ok(()));
    assert_eq!(bus.read_byte(0xFFFD), 1);
    assert_eq!(bus.read_byte(0xFFFE), 2);
    assert_eq!(bus.read_byte(0xFFFF), 3);
}

#[test]
fn load_past_the_end_is_refused_whole() {
    let mut bus = MemoryBus::new();
    bus.write_byte(0xFFFE, 0x11);
    bus.write_byte(0xFFFF, 0x22);
    assert_eq!(
        bus.load(0xFFFE, &[1, 2, 3]),
        Err(Fault::LoadOutOfBounds { start: 0xFFFE, len: 3 })
    );
    assert_eq!(bus.read_byte(0xFFFE), 0x11);
    assert_eq!(bus.read_byte(0xFFFF), 0x22);
}

#[test]
fn load_with_start_beyond_the_space_is_refused() {
    let mut bus = MemoryBus::new();
    assert_eq!(
        bus.load(ADDRESS_SPACE_SIZE + 1, &[]),
        Err(Fault::LoadOutOfBounds { start: ADDRESS_SPACE_SIZE + 1, len: 0 })
    );
    assert_eq!(
        bus.load(usize::MAX, &[1, 2]),
        Err(Fault::LoadOutOfBounds { start: usize::MAX, len: 2 })
    );
    assert_eq!(bus.load(ADDRESS_SPACE_SIZE, &[]), Ok(()));
    assert_eq!(
        bus.load(ADDRESS_SPACE_SIZE, &[1]),
        Err(Fault::LoadOutOfBounds { start: ADDRESS_SPACE_SIZE, len: 1 })
    );
}

#[test]
fn load_of_more_than_the_space_is_refused() {
    let mut bus = MemoryBus::new();
    let block = vec![1u8; ADDRESS_SPACE_SIZE + 1];
    assert_eq!(
        bus.load(0, &block),
        Err(Fault::LoadOutOfBounds { start: 0, len: ADDRESS_SPACE_SIZE + 1 })
    );
    assert_eq!(bus.read_byte(0), 0);
}
