use dmd_core::bus::{AccessCode, Bus};
use dmd_core::err::BusError;

#[test]
fn bus_starts_zeroed() {
    let bus = Bus::new(0x100);
    assert_eq!(0x100, bus.len());
    assert_eq!(0, bus.read_byte(0, AccessCode::AddressFetch).unwrap());
    assert_eq!(0, bus.read_word(0xfc, AccessCode::AddressFetch).unwrap());
}

#[test]
fn words_are_little_endian() {
    let mut bus = Bus::new(0x100);
    bus.load(0x10, &[0x78, 0x56, 0x34, 0x12]).unwrap();
    assert_eq!(0x12345678, bus.read_word(0x10, AccessCode::AddressFetch).unwrap());
    assert_eq!(0x5678, bus.read_half(0x10, AccessCode::AddressFetch).unwrap());
    assert_eq!(0x78, bus.read_byte(0x10, AccessCode::AddressFetch).unwrap());
}

#[test]
fn word_write_reads_back() {
    let mut bus = Bus::new(0x100);
    bus.write_word(0x20, 0xdeadbeef).unwrap();
    assert_eq!(0xdeadbeef, bus.read_word(0x20, AccessCode::AddressFetch).unwrap());
    assert_eq!(0xef, bus.read_byte(0x20, AccessCode::AddressFetch).unwrap());
    assert_eq!(0xde, bus.read_byte(0x23, AccessCode::AddressFetch).unwrap());
}

#[test]
fn half_write_reads_back() {
    let mut bus = Bus::new(0x100);
    bus.write_half(0x20, 0xbeef).unwrap();
    assert_eq!(0xbeef, bus.read_half(0x20, AccessCode::AddressFetch).unwrap());
}

#[test]
fn unaligned_reads_allow_any_address() {
    let mut bus = Bus::new(0x100);
    bus.load(0x11, &[0x78, 0x56, 0x34, 0x12]).unwrap();
    assert_eq!(
        0x12345678,
        bus.read_word_unaligned(0x11, AccessCode::OperandFetch).unwrap()
    );
    assert_eq!(
        0x5678,
        bus.read_half_unaligned(0x11, AccessCode::OperandFetch).unwrap()
    );
}

#[test]
fn aligned_access_rejects_odd_addresses() {
    let mut bus = Bus::new(0x100);
    assert_eq!(
        Err(BusError::Alignment),
        bus.read_word(0x21, AccessCode::AddressFetch)
    );
    assert_eq!(
        Err(BusError::Alignment),
        bus.read_half(0x21, AccessCode::AddressFetch)
    );
    assert_eq!(Err(BusError::Alignment), bus.write_word(0x22, 0));
    assert_eq!(Err(BusError::Alignment), bus.write_half(0x21, 0));
}

#[test]
fn access_outside_storage_finds_no_device() {
    let mut bus = Bus::new(0x100);
    assert_eq!(
        Err(BusError::NoDevice),
        bus.read_byte(0x100, AccessCode::AddressFetch)
    );
    assert_eq!(
        Err(BusError::NoDevice),
        bus.read_word(0x100, AccessCode::AddressFetch)
    );
    assert_eq!(Err(BusError::NoDevice), bus.write_byte(0x100, 0));
}

#[test]
fn load_past_end_is_a_range_error() {
    let mut bus = Bus::new(0x10);
    assert_eq!(Err(BusError::Range), bus.load(0x0e, &[1, 2, 3]));
    // The failed load left memory untouched.
    assert_eq!(0, bus.read_byte(0x0e, AccessCode::AddressFetch).unwrap());
}

#[test]
fn rom_region_rejects_writes_but_loads() {
    let mut bus = Bus::new(0x100);
    bus.load(0, &[0xaa, 0xbb]).unwrap();
    bus.set_rom(0x10);
    assert_eq!(Err(BusError::ReadOnly), bus.write_byte(0x00, 0x55));
    assert_eq!(Err(BusError::ReadOnly), bus.write_word(0x04, 0x55));
    assert_eq!(0xaa, bus.read_byte(0, AccessCode::AddressFetch).unwrap());
    // Loading a fresh image into the region is still allowed.
    bus.load(0, &[0xcc]).unwrap();
    assert_eq!(0xcc, bus.read_byte(0, AccessCode::AddressFetch).unwrap());
    // Above the region, writes succeed.
    assert!(bus.write_byte(0x10, 0x55).is_ok());
}
