//! Catalog index parsing, bank payload unpacking, and part preparation.

use another_world::decompress::entry_payload;
use another_world::error::Error;
use another_world::resources::{
    bank_name, parse_memlist, GamePart, Io, MemEntryState, ResourceType, Resources,
};

/// One 20-byte index record.
fn record(
    state: u8,
    kind: u8,
    bank_id: u8,
    bank_offset: u32,
    packed_size: u16,
    size: u16,
) -> Vec<u8> {
    let mut r = vec![0u8; 20];
    r[0] = state;
    r[1] = kind;
    r[7] = bank_id;
    r[8..12].copy_from_slice(&bank_offset.to_be_bytes());
    r[14..16].copy_from_slice(&packed_size.to_be_bytes());
    r[18..20].copy_from_slice(&size.to_be_bytes());
    r
}

#[test]
fn memlist_single_record() {
    let data: Vec<u8> = vec![
        0x00, 0x05, 0x00, 0x00, 0x00, 0x00, 0x00, 0x01, 0x00, 0x00, 0x00, 0x00, 0x00, 0x00, 0x00,
        0x12, 0x00, 0x00, 0x00, 0x34, 0xFF,
    ];
    let entries = parse_memlist(&data).unwrap();
    assert_eq!(entries.len(), 1);
    let e = &entries[0];
    assert!(matches!(e.state, MemEntryState::NotNeeded));
    assert_eq!(e.kind, ResourceType::PolygonCinematic);
    assert_eq!(e.bank_id, 1);
    assert_eq!(e.bank_offset, 0);
    assert_eq!(e.packed_size, 0x12);
    assert_eq!(e.size, 0x34);
}

#[test]
fn memlist_terminates_on_sentinel() {
    let mut data = record(0, 3, 2, 0x01020304, 8, 8);
    data.extend_from_slice(&record(2, 4, 13, 5, 1, 2));
    data.push(0xFF);
    data.extend_from_slice(&[0, 1, 2, 3]);
    let entries = parse_memlist(&data).unwrap();
    assert_eq!(entries.len(), 2);
    assert!(matches!(entries[1].state, MemEntryState::Requested));
    assert_eq!(entries[1].bank_id, 13);
    assert_eq!(entries[0].bank_offset, 0x01020304);
}

#[test]
fn memlist_invalid_state_rejected() {
    let mut data = record(3, 0, 1, 0, 0, 0);
    data.push(0xFF);
    assert_eq!(parse_memlist(&data), Err(Error::InvalidMemEntryState(3)));
}

#[test]
fn memlist_invalid_bank_rejected() {
    let mut data = record(0, 0, 0x0e, 0, 0, 0);
    data.push(0xFF);
    assert_eq!(parse_memlist(&data), Err(Error::InvalidBankId(0x0e)));

    let mut data = record(0, 0, 0, 0, 0, 0);
    data.push(0xFF);
    assert_eq!(parse_memlist(&data), Err(Error::InvalidBankId(0)));
}

#[test]
fn memlist_missing_terminator_is_io_error() {
    let data = record(0, 0, 1, 0, 0, 0);
    assert_eq!(parse_memlist(&data), Err(Error::Io));
    let data: Vec<u8> = vec![0x00, 0x01, 0x02];
    assert_eq!(parse_memlist(&data), Err(Error::Io));
}

#[test]
fn memlist_fields_validated_in_read_order() {
    // A record both truncated and carrying a bad state byte fails on the
    // state byte, which a sequential reader sees first.
    let data: Vec<u8> = vec![0x07, 0x00, 0x00];
    assert_eq!(parse_memlist(&data), Err(Error::InvalidMemEntryState(7)));
    // A bad bank byte outweighs the missing record tail for the same
    // reason.
    let data: Vec<u8> = vec![0x00, 0x00, 0x00, 0x00, 0x00, 0x00, 0x00, 0x0E, 0x00];
    assert_eq!(parse_memlist(&data), Err(Error::InvalidBankId(0x0E)));
    // A record cut before the bank byte is a short read.
    let data: Vec<u8> = vec![0x00, 0x00, 0x00];
    assert_eq!(parse_memlist(&data), Err(Error::Io));
}

#[test]
fn uncompressed_entry_roundtrip() {
    let raw = vec![0xDE, 0xAD, 0xBE, 0xEF];
    assert_eq!(entry_payload(4, 4, raw.clone()), Ok(raw));
}

#[test]
fn compressed_entry_single_literal() {
    // One literal run of one byte (0x41): the bit register carries, LSB
    // first, the two zero branch bits, a three-bit zero count, the eight
    // bits of the byte high bit first, and a sentinel bit on top. The
    // checksum word equals the register word so the final register is zero.
    let packed = vec![
        0x00, 0x00, 0x30, 0x40, // bit register
        0x00, 0x00, 0x30, 0x40, // checksum
        0x00, 0x00, 0x00, 0x01, // unpacked byte count
    ];
    assert_eq!(entry_payload(12, 1, packed), Ok(vec![0x41]));
}

#[test]
fn compressed_entry_bad_checksum() {
    let packed = vec![
        0x00, 0x00, 0x30, 0x40, 0x00, 0x00, 0x30, 0x41, 0x00, 0x00, 0x00, 0x01,
    ];
    assert_eq!(entry_payload(12, 1, packed), Err(Error::CrcCheckFailed));
}

#[test]
fn compressed_entry_short_stream_drained() {
    assert_eq!(entry_payload(2, 5, vec![0, 0]), Err(Error::InputBufferDrained));
}

#[test]
fn bank_names() {
    assert_eq!(bank_name(1), "BANK01");
    assert_eq!(bank_name(0x0a), "BANK0A");
    assert_eq!(bank_name(0x0d), "BANK0D");
}

#[test]
fn game_part_ids() {
    assert_eq!(GamePart::from(0x3e80), Some(GamePart::One));
    assert_eq!(GamePart::from(0x3e89), Some(GamePart::Ten));
    assert_eq!(GamePart::from(0x1234), None);
    assert_eq!(GamePart::One.palette(), 0x14);
    assert_eq!(GamePart::One.bytecode(), 0x15);
    assert_eq!(GamePart::One.cinematic(), 0x16);
    assert_eq!(GamePart::One.alt_video(), None);
    assert_eq!(GamePart::Three.alt_video(), Some(0x11));
}

/// A bank reader over an in-memory catalog, serving each entry a payload
/// that encodes its bank and offset.
struct FakeIo {
    memlist: Vec<u8>,
}

impl Io for FakeIo {
    fn load_memlist(&mut self) -> Result<Vec<u8>, Error> {
        Ok(self.memlist.clone())
    }

    fn read_bank(&mut self, bank_id: u8, offset: u32, packed_size: u16) -> Result<Vec<u8>, Error> {
        let mut v = vec![bank_id; packed_size as usize];
        if !v.is_empty() {
            v[0] = offset as u8;
        }
        Ok(v)
    }
}

/// A catalog file whose records cover the entries of part one, each
/// uncompressed with a distinct size.
fn part_one_memlist() -> Vec<u8> {
    let mut data = Vec::new();
    for i in 0..0x17u32 {
        let size = 32 + i as u16;
        data.extend_from_slice(&record(0, 0, 1 + (i % 13) as u8, i * 100, size, size));
    }
    data.push(0xFF);
    data
}

#[test]
fn prepare_part_loads_segments() {
    let io = FakeIo { memlist: part_one_memlist() };
    let mut res = Resources::load(io).unwrap();
    res.prepare_part(GamePart::One);

    let palette = res.palette().expect("palette resident");
    let bytecode = res.bytecode().expect("bytecode resident");
    let cinematic = res.cinematic().expect("cinematic resident");
    assert_eq!(palette.len(), 32 + 0x14);
    assert_eq!(bytecode.len(), 32 + 0x15);
    assert_eq!(cinematic.len(), 32 + 0x16);
    assert!(palette.len() > 0 && bytecode.len() > 0 && cinematic.len() > 0);
    assert_eq!(res.alt_video(), None);

    // Entries outside the part stay unloaded.
    assert!(matches!(res.entries[0].state, MemEntryState::NotNeeded));

    // The payload came from the right bank range.
    assert_eq!(palette[1], 1 + (0x14 % 13) as u8);
}

#[test]
fn load_part_or_entry_latches_part_request() {
    let io = FakeIo { memlist: part_one_memlist() };
    let mut res = Resources::load(io).unwrap();
    res.load_part_or_entry(0x3e83);
    assert_eq!(res.requested_part(), Some(GamePart::Four));
    // Taking the request clears it.
    assert_eq!(res.requested_part(), None);
}

#[test]
fn load_part_or_entry_loads_single_entry() {
    let io = FakeIo { memlist: part_one_memlist() };
    let mut res = Resources::load(io).unwrap();
    res.load_part_or_entry(3);
    match &res.entries[3].state {
        MemEntryState::Loaded(d) => assert_eq!(d.len(), 32 + 3),
        other => panic!("entry not loaded: {:?}", other),
    }
    assert_eq!(res.requested_part(), None);
}

/// Pack a chunk stream for the decompressor: the first register word holds
/// up to 31 bits below a sentinel bit, every refill word 32 bits, the
/// checksum word the xor of them all, with the unpacked byte count at the
/// tail.
fn packed_stream(bits: &[u8], unpacked_len: u32) -> Vec<u8> {
    let first_len = bits.len().min(31);
    let mut w1: u32 = 1 << first_len;
    for (i, b) in bits[..first_len].iter().enumerate() {
        w1 |= (*b as u32) << i;
    }
    let mut refills: Vec<u32> = Vec::new();
    let mut rest = &bits[first_len..];
    while !rest.is_empty() {
        let n = rest.len().min(32);
        let mut w: u32 = 0;
        for (i, b) in rest[..n].iter().enumerate() {
            w |= (*b as u32) << i;
        }
        refills.push(w);
        rest = &rest[n..];
    }
    let crc = refills.iter().fold(w1, |acc, w| acc ^ w);
    let mut out = Vec::new();
    for w in refills.iter().rev() {
        out.extend_from_slice(&w.to_be_bytes());
    }
    out.extend_from_slice(&w1.to_be_bytes());
    out.extend_from_slice(&crc.to_be_bytes());
    out.extend_from_slice(&unpacked_len.to_be_bytes());
    out
}

/// The bits of one byte, drawn high bit first.
fn byte_bits(b: u8) -> Vec<u8> {
    (0..8).rev().map(|i| (b >> i) & 1).collect()
}

#[test]
fn compressed_entry_back_reference() {
    // One literal byte, then a length-2 back-reference at distance one:
    // three equal bytes come out.
    let mut bits = vec![0, 0, 0, 0, 0];
    bits.extend(byte_bits(0x41));
    bits.extend(vec![0, 1]);
    bits.extend(byte_bits(1));
    let packed = packed_stream(&bits, 3);
    let packed_size = packed.len() as u16;
    assert_eq!(entry_payload(packed_size, 3, packed), Ok(vec![0x41, 0x41, 0x41]));
}

#[test]
fn compressed_entry_register_refill() {
    // A literal run of four bytes takes 37 chunks: the register refills
    // from the next reverse word partway through, folding it into the
    // checksum. The bytes land back to front.
    let mut bits = vec![0, 0, 0, 1, 1];
    for b in [0x11u8, 0x22, 0x33, 0x44] {
        bits.extend(byte_bits(b));
    }
    let packed = packed_stream(&bits, 4);
    let packed_size = packed.len() as u16;
    assert_eq!(
        entry_payload(packed_size, 4, packed),
        Ok(vec![0x44, 0x33, 0x22, 0x11])
    );
}

#[test]
fn compressed_entry_overlong_run_drained() {
    // A run that wants five bytes with only two to fill: the decoder
    // reports the stream as bad instead of writing out of bounds.
    let mut bits = vec![0, 0, 1, 0, 0];
    for b in [0xAAu8, 0xBB, 0xCC, 0xDD, 0xEE] {
        bits.extend(byte_bits(b));
    }
    let packed = packed_stream(&bits, 5);
    let packed_size = packed.len() as u16;
    assert_eq!(entry_payload(packed_size, 2, packed), Err(Error::InputBufferDrained));
}
