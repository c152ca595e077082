use rvemu::bus::Bus;
use rvemu::dram::Dram;
use rvemu::exceptions::Exception;
use rvemu::param::{DRAM_BASE, DRAM_END};

#[test]
fn dram_round_trip_32() {
    let mut d = Dram::new();
    d.store(DRAM_BASE + 0x1000, 32, 0xDEAD_BEEF).unwrap();
    assert_eq!(d.load(DRAM_BASE + 0x1000, 32), Ok(0xDEAD_BEEF));
}

#[test]
fn dram_round_trip_16_keeps_low_bits_and_zeroes_upper() {
    let mut d = Dram::new();
    d.store(DRAM_BASE + 4, 16, 0xABCD_1234).unwrap();
    assert_eq!(d.load(DRAM_BASE + 4, 16), Ok(0x1234));
}

#[test]
fn dram_round_trip_8_keeps_low_bits_and_zeroes_upper() {
    let mut d = Dram::new();
    d.store(DRAM_BASE + 9, 8, 0xFFFF_FFAB).unwrap();
    assert_eq!(d.load(DRAM_BASE + 9, 8), Ok(0xAB));
}

#[test]
fn dram_is_little_endian() {
    let mut d = Dram::new();
    d.store(DRAM_BASE, 32, 0x0102_0304).unwrap();
    assert_eq!(d.load(DRAM_BASE, 8), Ok(0x04));
    assert_eq!(d.load(DRAM_BASE + 1, 8), Ok(0x03));
    assert_eq!(d.load(DRAM_BASE + 2, 8), Ok(0x02));
    assert_eq!(d.load(DRAM_BASE + 3, 8), Ok(0x01));
    assert_eq!(d.load(DRAM_BASE, 16), Ok(0x0304));
    assert_eq!(d.load(DRAM_BASE + 2, 16), Ok(0x0102));
}

#[test]
fn dram_unaligned_access_succeeds() {
    let mut d = Dram::new();
    d.store(DRAM_BASE + 1, 32, 0xCAFE_BABE).unwrap();
    assert_eq!(d.load(DRAM_BASE + 1, 32), Ok(0xCAFE_BABE));
}

#[test]
fn dram_rejects_invalid_size() {
    let mut d = Dram::new();
    assert_eq!(
        d.load(DRAM_BASE, 12),
        Err(Exception::LoadAccessFault(DRAM_BASE))
    );
    assert_eq!(
        d.store(DRAM_BASE, 12, 1),
        Err(Exception::StoreAMOAccessFault(DRAM_BASE))
    );
}

#[test]
fn bus_routes_dram_and_faults_elsewhere() {
    let mut b = Bus::new();
    assert_eq!(b.store(DRAM_BASE + 8, 32, 7), Ok(()));
    assert_eq!(b.load(DRAM_BASE + 8, 32), Ok(7));
    assert_eq!(b.load(0x1000_0000, 32), Err(Exception::LoadAccessFault(0x1000_0000)));
    assert_eq!(
        b.store(0x1000_0000, 32, 1),
        Err(Exception::StoreAMOAccessFault(0x1000_0000))
    );
    assert_eq!(b.load(DRAM_BASE - 1, 8), Err(Exception::LoadAccessFault(DRAM_BASE - 1)));
}

#[test]
fn bus_detects_access_past_end_of_dram() {
    let mut b = Bus::new();
    assert_eq!(b.load(DRAM_END, 8), Ok(0));
    assert_eq!(b.load(DRAM_END - 3, 32), Ok(0));
    assert_eq!(b.load(DRAM_END - 2, 32), Err(Exception::LoadAccessFault(DRAM_END - 2)));
    assert_eq!(
        b.store(DRAM_END - 1, 32, 1),
        Err(Exception::StoreAMOAccessFault(DRAM_END - 1))
    );
}

#[test]
fn load_binary_places_image_and_zero_extends() {
    let mut b = Bus::new();
    b.store(DRAM_BASE + 100, 8, 0x55).unwrap();
    b.load_binary(&vec![0x11, 0x22, 0x33]).unwrap();
    assert_eq!(b.load(DRAM_BASE, 8), Ok(0x11));
    assert_eq!(b.load(DRAM_BASE + 1, 8), Ok(0x22));
    assert_eq!(b.load(DRAM_BASE + 2, 8), Ok(0x33));
    assert_eq!(b.load(DRAM_BASE + 3, 8), Ok(0));
    // The image replaces the whole memory: earlier contents are gone.
    assert_eq!(b.load(DRAM_BASE + 100, 8), Ok(0));
}
