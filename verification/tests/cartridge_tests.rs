use lumiemu::cartridge::{Cartridge, INesHeader, Mirroring};
use lumiemu::error::EmulatorError;

#[test]
fn test_ines_header_parse() {
    let header_bytes = [
        b'N', b'E', b'S', 0x1A, // Magic
        0x02, // 2 PRG banks
        0x01, // 1 CHR bank
        0x00, // Flags 6: mapper 0, horizontal mirroring
        0x00, // Flags 7: mapper 0
        0x00, 0x00, 0x00, 0x00, // Unused
        0x00, 0x00, 0x00, 0x00, // Unused
    ];

    let header = INesHeader::parse(&header_bytes).unwrap();
    assert_eq!(header.prg_rom_banks, 2);
    assert_eq!(header.chr_rom_banks, 1);
    assert_eq!(header.mapper, 0);
    assert_eq!(header.mirroring, Mirroring::Horizontal);
    assert!(!header.has_battery);
    assert!(!header.has_trainer);
}

#[test]
fn test_ines_header_vertical_mirroring() {
    let header_bytes = [
        b'N', b'E', b'S', 0x1A, 0x01, 0x01, 0x01, // Vertical mirroring bit set
        0x00, 0x00, 0x00, 0x00, 0x00, 0x00, 0x00, 0x00, 0x00,
    ];

    let header = INesHeader::parse(&header_bytes).unwrap();
    assert_eq!(header.mirroring, Mirroring::Vertical);
}

#[test]
fn test_ines_header_mapper_number() {
    let header_bytes = [
        b'N', b'E', b'S', 0x1A, 0x01, 0x01, 0x10, // Mapper low nibble = 1
        0x20, // Mapper high nibble = 2
        0x00, 0x00, 0x00, 0x00, 0x00, 0x00, 0x00, 0x00,
    ];

    let header = INesHeader::parse(&header_bytes).unwrap();
    assert_eq!(header.mapper, 0x21); // 0x20 | 0x01
}

#[test]
fn test_invalid_magic() {
    let header_bytes = [
        b'X', b'X', b'X', 0x1A, 0x01, 0x01, 0x00, 0x00, 0x00, 0x00, 0x00, 0x00, 0x00, 0x00, 0x00,
        0x00,
    ];

    assert!(INesHeader::parse(&header_bytes).is_err());
}

#[test]
fn test_header_serialize_roundtrip() {
    let header = INesHeader {
        prg_rom_banks: 2,
        chr_rom_banks: 1,
        mapper: 66,
        mirroring: Mirroring::Vertical,
        has_battery: true,
        has_trainer: false,
    };
    let bytes = header.serialize();
    assert_eq!(bytes.len(), 16);
    let reparsed = INesHeader::parse(&bytes).unwrap();
    assert_eq!(reparsed, header);
}

#[test]
fn test_header_serialize_roundtrip_four_screen() {
    let header = INesHeader {
        prg_rom_banks: 1,
        chr_rom_banks: 0,
        mapper: 0x21,
        mirroring: Mirroring::FourScreen,
        has_battery: false,
        has_trainer: true,
    };
    let reparsed = INesHeader::parse(&header.serialize()).unwrap();
    assert_eq!(reparsed, header);
}

fn rom_image(prg_banks: u8, chr_banks: u8, flags6: u8, flags7: u8, fill: u8) -> Vec<u8> {
    let mut bytes = vec![b'N', b'E', b'S', 0x1A, prg_banks, chr_banks, flags6, flags7];
    bytes.resize(16, 0);
    let data = prg_banks as usize * 0x4000 + chr_banks as usize * 0x2000;
    bytes.resize(16 + data, fill);
    bytes
}

#[test]
fn test_from_bytes_truncated() {
    let mut bytes = rom_image(1, 1, 0, 0, 0x42);
    bytes.truncate(100);
    match Cartridge::from_bytes(&bytes) {
        Err(EmulatorError::RomLoadError(_)) => {}
        other => panic!("expected a ROM-load error, got {:?}", other.map(|_| ())),
    }
}

#[test]
fn test_from_bytes_unsupported_mapper() {
    let bytes = rom_image(1, 1, 0x10, 0x20, 0x00); // mapper 0x21
    match Cartridge::from_bytes(&bytes) {
        Err(EmulatorError::UnsupportedMapper(m)) => assert_eq!(m, 0x21),
        other => panic!("expected an unsupported-mapper error, got {:?}", other.map(|_| ())),
    }
}

#[test]
fn test_from_bytes_chr_ram() {
    let bytes = rom_image(1, 0, 0, 0, 0x11);
    let cart = Cartridge::from_bytes(&bytes).unwrap();
    assert_eq!(cart.prg_rom().len(), 0x4000);
    assert_eq!(cart.chr_rom().len(), 0x2000);
    assert!(cart.chr_rom().iter().all(|&b| b == 0));
}

#[test]
fn test_mapper66_banking() {
    // Two 32 KiB PRG banks with distinct fill bytes, two CHR banks.
    let mut bytes = vec![b'N', b'E', b'S', 0x1A, 4, 2, 0x20, 0x40]; // mapper 66
    bytes.resize(16, 0);
    bytes.resize(16 + 0x8000, 0xAA);
    bytes.resize(16 + 0x10000, 0xBB);
    bytes.resize(16 + 0x10000 + 0x2000, 0xCC);
    bytes.resize(16 + 0x10000 + 0x4000, 0xDD);
    let mut cart = Cartridge::from_bytes(&bytes).unwrap();
    assert_eq!(cart.header().mapper, 66);
    assert_eq!(cart.read_prg(0x8000), 0xAA);
    assert_eq!(cart.read_chr(0x0000), 0xCC);
    cart.write_prg(0x8000, 0x11); // PRG bank 1, CHR bank 1
    assert_eq!(cart.read_prg(0x8000), 0xBB);
    assert_eq!(cart.read_chr(0x0000), 0xDD);
}
