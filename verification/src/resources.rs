//! The resource catalog: the parsed index of the banked archive, per-entry
//! load state, and the fixed table that maps a game part to its palette,
//! bytecode and cinematic entries.

use vstd::prelude::*;

use crate::decompress::entry_payload;
use crate::error::Error;


verus! {

/// Which polygon buffer a draw command reads from.
#[derive(Debug, Copy, Clone, PartialEq, Eq, Structural)]
pub enum PolygonSource {
    Cinematic,
    AltVideo,
}

/// A reference into a polygon buffer: a byte offset and the buffer it
/// belongs to.
#[derive(Debug, Copy, Clone, PartialEq, Eq, Structural)]
pub struct PolygonResource {
    pub buffer_offset: usize,
    pub source: PolygonSource,
}

/// One chapter of the game. Each part selects a fixed set of catalog
/// entries; the virtual machine switches parts through resource requests.
#[derive(Debug, Copy, Clone, PartialEq, Eq, Structural)]
pub enum GamePart {
    One,
    Two,
    Three,
    Four,
    Five,
    Six,
    Seven,
    Eight,
    Nine,
    Ten,
}

impl GamePart {
    /// The part selected by a resource id, if the id names one.
    pub fn from(id: u16) -> (r: Option<GamePart>)
        ensures
            r == spec_part_from(id),
    {
        match id {
            0x3e80 => Some(GamePart::One),
            0x3e81 => Some(GamePart::Two),
            0x3e82 => Some(GamePart::Three),
            0x3e83 => Some(GamePart::Four),
            0x3e84 => Some(GamePart::Five),
            0x3e85 => Some(GamePart::Six),
            0x3e86 => Some(GamePart::Seven),
            0x3e87 => Some(GamePart::Eight),
            0x3e88 => Some(GamePart::Nine),
            0x3e89 => Some(GamePart::Ten),
            _ => None,
        }
    }

    /// Catalog index of this part's palette entry.
    pub fn palette(&self) -> (r: usize)
        ensures
            r == self.spec_palette(),
    {
        match self {
            GamePart::One => 0x14,
            GamePart::Two => 0x17,
            GamePart::Three => 0x1a,
            GamePart::Four => 0x1d,
            GamePart::Five => 0x20,
            GamePart::Six => 0x23,
            GamePart::Seven => 0x26,
            GamePart::Eight => 0x29,
            GamePart::Nine => 0x7d,
            GamePart::Ten => 0x7d,
        }
    }

    /// Catalog index of this part's bytecode entry.
    pub fn bytecode(&self) -> (r: usize)
        ensures
            r == self.spec_bytecode(),
    {
        match self {
            GamePart::One => 0x15,
            GamePart::Two => 0x18,
            GamePart::Three => 0x1b,
            GamePart::Four => 0x1e,
            GamePart::Five => 0x21,
            GamePart::Six => 0x24,
            GamePart::Seven => 0x27,
            GamePart::Eight => 0x2a,
            GamePart::Nine => 0x7e,
            GamePart::Ten => 0x7e,
        }
    }

    /// Catalog index of this part's cinematic polygon entry.
    pub fn cinematic(&self) -> (r: usize)
        ensures
            r == self.spec_cinematic(),
    {
        match self {
            GamePart::One => 0x16,
            GamePart::Two => 0x19,
            GamePart::Three => 0x1c,
            GamePart::Four => 0x1f,
            GamePart::Five => 0x22,
            GamePart::Six => 0x25,
            GamePart::Seven => 0x28,
            GamePart::Eight => 0x2b,
            GamePart::Nine => 0x7f,
            GamePart::Ten => 0x7f,
        }
    }

    /// Catalog index of this part's alternate video entry, for the parts
    /// that have one. They all share a single entry.
    pub fn alt_video(&self) -> (r: Option<usize>)
        ensures
            r == self.spec_alt_video(),
    {
        match self {
            GamePart::One => None,
            GamePart::Two => None,
            GamePart::Three => Some(0x11),
            GamePart::Four => Some(0x11),
            GamePart::Five => Some(0x11),
            GamePart::Six => None,
            GamePart::Seven => Some(0x11),
            GamePart::Eight => Some(0x11),
            GamePart::Nine => None,
            GamePart::Ten => None,
        }
    }

    pub open spec fn spec_palette(self) -> usize {
        match self {
            GamePart::One => 0x14,
            GamePart::Two => 0x17,
            GamePart::Three => 0x1a,
            GamePart::Four => 0x1d,
            GamePart::Five => 0x20,
            GamePart::Six => 0x23,
            GamePart::Seven => 0x26,
            GamePart::Eight => 0x29,
            GamePart::Nine => 0x7d,
            GamePart::Ten => 0x7d,
        }
    }

    pub open spec fn spec_bytecode(self) -> usize {
        match self {
            GamePart::One => 0x15,
            GamePart::Two => 0x18,
            GamePart::Three => 0x1b,
            GamePart::Four => 0x1e,
            GamePart::Five => 0x21,
            GamePart::Six => 0x24,
            GamePart::Seven => 0x27,
            GamePart::Eight => 0x2a,
            GamePart::Nine => 0x7e,
            GamePart::Ten => 0x7e,
        }
    }

    pub open spec fn spec_cinematic(self) -> usize {
        match self {
            GamePart::One => 0x16,
            GamePart::Two => 0x19,
            GamePart::Three => 0x1c,
            GamePart::Four => 0x1f,
            GamePart::Five => 0x22,
            GamePart::Six => 0x25,
            GamePart::Seven => 0x28,
            GamePart::Eight => 0x2b,
            GamePart::Nine => 0x7f,
            GamePart::Ten => 0x7f,
        }
    }

    pub open spec fn spec_alt_video(self) -> Option<usize> {
        match self {
            GamePart::Three => Some(0x11),
            GamePart::Four => Some(0x11),
            GamePart::Five => Some(0x11),
            GamePart::Seven => Some(0x11),
            GamePart::Eight => Some(0x11),
            _ => None,
        }
    }
}

pub open spec fn spec_part_from(id: u16) -> Option<GamePart> {
    if id == 0x3e80 {
        Some(GamePart::One)
    } else if id == 0x3e81 {
        Some(GamePart::Two)
    } else if id == 0x3e82 {
        Some(GamePart::Three)
    } else if id == 0x3e83 {
        Some(GamePart::Four)
    } else if id == 0x3e84 {
        Some(GamePart::Five)
    } else if id == 0x3e85 {
        Some(GamePart::Six)
    } else if id == 0x3e86 {
        Some(GamePart::Seven)
    } else if id == 0x3e87 {
        Some(GamePart::Eight)
    } else if id == 0x3e88 {
        Some(GamePart::Nine)
    } else if id == 0x3e89 {
        Some(GamePart::Ten)
    } else {
        None
    }
}

/// What a catalog entry holds: nothing, a pending request, or its payload.
#[derive(Debug, Clone, PartialEq, Eq)]
pub enum MemEntryState {
    NotNeeded,
    Loaded(Vec<u8>),
    Requested,
}

/// What kind of payload a catalog entry names.
#[derive(Debug, Copy, Clone, PartialEq, Eq, Structural)]
pub enum ResourceType {
    Sound,
    Music,
    PolygonAnimation,
    Palette,
    Bytecode,
    PolygonCinematic,
    Unknown,
}

pub open spec fn spec_resource_type(value: u8) -> ResourceType {
    if value == 0 {
        ResourceType::Sound
    } else if value == 1 {
        ResourceType::Music
    } else if value == 2 {
        ResourceType::PolygonAnimation
    } else if value == 3 {
        ResourceType::Palette
    } else if value == 4 {
        ResourceType::Bytecode
    } else if value == 5 {
        ResourceType::PolygonCinematic
    } else {
        ResourceType::Unknown
    }
}

impl ResourceType {
    /// The payload kind named by a catalog record's kind byte.
    pub fn from_byte(value: u8) -> (r: ResourceType)
        ensures
            r == spec_resource_type(value),
    {
        match value {
            0 => ResourceType::Sound,
            1 => ResourceType::Music,
            2 => ResourceType::PolygonAnimation,
            3 => ResourceType::Palette,
            4 => ResourceType::Bytecode,
            5 => ResourceType::PolygonCinematic,
            _ => ResourceType::Unknown,
        }
    }
}

/// One record of the catalog index: where the payload sits in its bank and
/// how it is stored. `packed_size == size` means the payload is stored
/// uncompressed.
#[derive(Debug, Clone, PartialEq, Eq)]
pub struct MemEntry {
    pub state: MemEntryState,
    pub kind: ResourceType,
    pub bank_id: u8,
    pub bank_offset: u32,
    pub packed_size: u16,
    pub size: u16,
}

impl MemEntry {
    /// A well-formed entry names one of the thirteen banks.
    pub open spec fn wf(self) -> bool {
        1 <= self.bank_id <= 0x0d
    }
}

/// The file name a bank id selects: `BANK01` through `BANK0D`.
pub open spec fn spec_bank_name(bank_id: u8) -> Seq<char> {
    if bank_id == 1 {
        "BANK01"@
    } else if bank_id == 2 {
        "BANK02"@
    } else if bank_id == 3 {
        "BANK03"@
    } else if bank_id == 4 {
        "BANK04"@
    } else if bank_id == 5 {
        "BANK05"@
    } else if bank_id == 6 {
        "BANK06"@
    } else if bank_id == 7 {
        "BANK07"@
    } else if bank_id == 8 {
        "BANK08"@
    } else if bank_id == 9 {
        "BANK09"@
    } else if bank_id == 0xa {
        "BANK0A"@
    } else if bank_id == 0xb {
        "BANK0B"@
    } else if bank_id == 0xc {
        "BANK0C"@
    } else {
        "BANK0D"@
    }
}

/// The file name of a bank.
pub fn bank_name(bank_id: u8) -> (r: &'static str)
    requires
        1 <= bank_id <= 0x0d,
    ensures
        r@ == spec_bank_name(bank_id),
{
    match bank_id {
        1 => "BANK01",
        2 => "BANK02",
        3 => "BANK03",
        4 => "BANK04",
        5 => "BANK05",
        6 => "BANK06",
        7 => "BANK07",
        8 => "BANK08",
        9 => "BANK09",
        0xa => "BANK0A",
        0xb => "BANK0B",
        0xc => "BANK0C",
        _ => "BANK0D",
    }
}


/// Big-endian word at an offset of a buffer.
pub open spec fn be_u16_at(m: Seq<u8>, a: int) -> u16 {
    crate::be_u16(m[a], m[a + 1])
}

/// Relies on byteorder's `BigEndian::read_u16`: the first two bytes of the
/// slice, high byte first.
#[verifier::external_body]
fn read_u16_be(b: &[u8]) -> (r: u16)
    requires
        b@.len() >= 2,
    ensures
        r == crate::be_u16(b@[0], b@[1]),
{
    <byteorder::BigEndian as byteorder::ByteOrder>::read_u16(b)
}

/// Relies on byteorder's `BigEndian::read_u32`: the first four bytes of the
/// slice, high byte first.
#[verifier::external_body]
fn read_u32_be(b: &[u8]) -> (r: u32)
    requires
        b@.len() >= 4,
    ensures
        r == crate::decompress::be_u32(b@, 0),
{
    <byteorder::BigEndian as byteorder::ByteOrder>::read_u32(b)
}

/// Whether a parsed entry is what an index record at an offset of the
/// catalog file describes: the state and kind bytes decoded, the bank, its
/// offset and the two sizes read big-endian.
pub open spec fn entry_matches(e: MemEntry, m: Seq<u8>, a: int) -> bool {
    &&& (match e.state {
        MemEntryState::NotNeeded => m[a] == 0,
        MemEntryState::Loaded(d) => m[a] == 1 && d@ == Seq::<u8>::empty(),
        MemEntryState::Requested => m[a] == 2,
    })
    &&& e.kind == spec_resource_type(m[a + 1])
    &&& e.bank_id == m[a + 7]
    &&& e.bank_offset == crate::decompress::be_u32(m, a + 8)
    &&& e.packed_size == be_u16_at(m, a + 14)
    &&& e.size == be_u16_at(m, a + 18)
}

/// Scan of the catalog index: how many 20-byte records precede the 0xff
/// terminator, or the error the scan stops on. Fields are validated in
/// read order — the state byte, then the bank byte — so a short record
/// reads as an I/O failure only where a reader would run dry before the
/// next check.
pub open spec fn spec_scan(m: Seq<u8>, a: int) -> Result<int, Error>
    decreases m.len() - a,
{
    if a < 0 || a >= m.len() {
        Err(Error::Io)
    } else if m[a] == 0xff {
        Ok(0)
    } else if !(m[a] == 0 || m[a] == 1 || m[a] == 2) {
        Err(Error::InvalidMemEntryState(m[a]))
    } else if a + 8 > m.len() {
        Err(Error::Io)
    } else if !(1 <= m[a + 7] <= 0x0d) {
        Err(Error::InvalidBankId(m[a + 7]))
    } else if a + 20 > m.len() {
        Err(Error::Io)
    } else {
        match spec_scan(m, a + 20) {
            Ok(n) => Ok(n + 1),
            Err(e) => Err(e),
        }
    }
}

/// Parse the catalog index file: a run of 20-byte big-endian records closed
/// by a 0xff terminator byte. The result matches `spec_scan` exactly: as
/// many entries as the scan counts, each one decoding its record.
pub fn parse_memlist(data: &[u8]) -> (r: Result<Vec<MemEntry>, Error>)
    ensures
        match r {
            Ok(entries) => spec_scan(data@, 0) == Ok::<int, Error>(entries@.len() as int) && (forall|
                i: int,
            |
                0 <= i < entries@.len() ==> entry_matches(#[trigger] entries@[i], data@, 20 * i))
                && (forall|i: int| 0 <= i < entries@.len() ==> (#[trigger] entries@[i]).wf()),
            Err(e) => spec_scan(data@, 0) == Err::<int, Error>(e),
        },
{
    let mut entries: Vec<MemEntry> = Vec::new();
    let mut a: usize = 0;
    loop
        invariant
            a == 20 * entries@.len(),
            a <= data@.len() + 20,
            forall|i: int|
                0 <= i < entries@.len() ==> entry_matches(#[trigger] entries@[i], data@, 20 * i),
            forall|i: int| 0 <= i < entries@.len() ==> (#[trigger] entries@[i]).wf(),
            spec_scan(data@, 0) == (match spec_scan(data@, a as int) {
                Ok(n) => Ok::<int, Error>(n + entries@.len()),
                Err(e) => Err::<int, Error>(e),
            }),
        decreases data@.len() - a,
    {
        if a >= data.len() {
            return Err(Error::Io);
        }
        let state_byte = data[a];
        if state_byte == 0xff {
            return Ok(entries);
        }
        if !(state_byte == 0 || state_byte == 1 || state_byte == 2) {
            return Err(Error::InvalidMemEntryState(state_byte));
        }
        if data.len() - a < 8 {
            return Err(Error::Io);
        }
        let bank_id = data[a + 7];
        if !(1 <= bank_id && bank_id <= 0x0d) {
            return Err(Error::InvalidBankId(bank_id));
        }
        if data.len() - a < 20 {
            return Err(Error::Io);
        }
        let state = if state_byte == 0 {
            MemEntryState::NotNeeded
        } else if state_byte == 1 {
            MemEntryState::Loaded(Vec::new())
        } else {
            MemEntryState::Requested
        };
        let entry = MemEntry {
            state,
            kind: ResourceType::from_byte(data[a + 1]),
            bank_id,
            bank_offset: read_u32_be(&data[a + 8..a + 12]),
            packed_size: read_u16_be(&data[a + 14..a + 16]),
            size: read_u16_be(&data[a + 18..a + 20]),
        };
        entries.push(entry);
        a = a + 20;
    }
}


/// The byte-range reader over named bank files that the host implements.
/// Nothing is assumed of what it returns: the catalog checks lengths and
/// treats anything unexpected as an I/O failure.
pub trait Io {
    /// The whole catalog index file.
    fn load_memlist(&mut self) -> Result<Vec<u8>, Error>;

    /// `packed_size` bytes at `offset` of the bank named by `bank_id`
    /// (see `bank_name`).
    fn read_bank(&mut self, bank_id: u8, offset: u32, packed_size: u16) -> Result<Vec<u8>, Error>;
}

/// Fetch one entry's payload from its bank and unpack it. Whatever the
/// reader hands back, a successful result holds exactly `size` bytes.
fn load_entry<T: Io>(
    io: &mut T,
    bank_id: u8,
    bank_offset: u32,
    packed_size: u16,
    size: u16,
) -> (r: Result<Vec<u8>, Error>)
    ensures
        r matches Ok(v) ==> v@.len() == size,
{
    let raw = match io.read_bank(bank_id, bank_offset, packed_size) {
        Ok(raw) => raw,
        Err(e) => {
            return Err(e);
        },
    };
    if raw.len() != packed_size as usize {
        return Err(Error::Io);
    }
    entry_payload(packed_size, size, raw)
}

/// Two catalog entries that describe the same record: only the load state
/// may differ.
pub open spec fn same_meta(a: MemEntry, b: MemEntry) -> bool {
    &&& a.kind == b.kind
    &&& a.bank_id == b.bank_id
    &&& a.bank_offset == b.bank_offset
    &&& a.packed_size == b.packed_size
    &&& a.size == b.size
}

/// Whether an index belongs to the set of entries a part activates.
pub open spec fn part_selects(part: GamePart, i: int) -> bool {
    ||| i == part.spec_palette()
    ||| i == part.spec_bytecode()
    ||| i == part.spec_cinematic()
    ||| (match part.spec_alt_video() {
        Some(j) => i == j,
        None => false,
    })
}

/// A loaded entry holds exactly as many bytes as its record promises.
pub open spec fn entry_payload_ok(e: MemEntry) -> bool {
    match e.state {
        MemEntryState::Loaded(d) => d@.len() == e.size,
        _ => true,
    }
}

/// What one pass of the loader does to an entry: a requested entry comes
/// out resident at its promised size, or unloaded where its bank read or
/// unpacking failed; every other entry keeps its state.
pub open spec fn load_outcome(old_e: MemEntry, new_e: MemEntry) -> bool {
    same_meta(old_e, new_e) && (match old_e.state {
        MemEntryState::Requested => (new_e.state is NotNeeded || (match new_e.state {
            MemEntryState::Loaded(d) => d@.len() == old_e.size,
            _ => false,
        })),
        _ => new_e.state == old_e.state,
    })
}



/// The catalog untouched: every field as it was.
pub open spec fn sp_catalog_unchanged<T: Io>(pre: Resources<T>, post: Resources<T>) -> bool {
    &&& post.entries@ == pre.entries@
    &&& post.loaded_part == pre.loaded_part
    &&& post.requested_part == pre.requested_part
    &&& post.io == pre.io
}

/// What routing a resource id does to the catalog: an id beyond the
/// catalog latches the part change it names and touches nothing else; an
/// id of an entry that sat unloaded requests it and runs one load pass,
/// leaving nothing requested; any other id changes nothing.
pub open spec fn sp_load_route<T: Io>(pre: Resources<T>, post: Resources<T>, resource_id: u16) -> bool {
    &&& post.loaded_part == pre.loaded_part
    &&& post.entries@.len() == pre.entries@.len()
    &&& if resource_id as int > pre.entries@.len() {
        post.requested_part == spec_part_from(resource_id) && post.entries@ == pre.entries@
    } else {
        post.requested_part == pre.requested_part && (if (resource_id as int) < pre.entries@.len()
            && pre.entries@[resource_id as int].state is NotNeeded {
            (forall|i: int|
                0 <= i < post.entries@.len() ==> (if i == resource_id as int {
                    same_meta(pre.entries@[i], #[trigger] post.entries@[i]) && (
                    post.entries@[i].state is NotNeeded || entry_payload_ok(post.entries@[i]))
                } else {
                    load_outcome(pre.entries@[i], #[trigger] post.entries@[i])
                })) && (forall|i: int|
                0 <= i < post.entries@.len() ==> !((#[trigger] post.entries@[i]).state
                    is Requested))
        } else {
            post.entries@ == pre.entries@
        })
    }
}

/// What preparing a part does to the catalog: the part becomes current;
/// unless it already was, every payload outside the part is dropped, the
/// part's entries come out resident at their promised sizes or unloaded,
/// and nothing is left requested. Preparing the current part changes
/// nothing, the reader included.
pub open spec fn sp_prepare_outcome<T: Io>(pre: Resources<T>, post: Resources<T>, part: GamePart) -> bool {
    &&& post.loaded_part == Some(part)
    &&& post.requested_part == pre.requested_part
    &&& post.entries@.len() == pre.entries@.len()
    &&& (forall|i: int|
        0 <= i < post.entries@.len() ==> same_meta(pre.entries@[i], #[trigger] post.entries@[i]))
    &&& (pre.loaded_part != Some(part) ==> (forall|i: int|
        0 <= i < post.entries@.len() ==> entry_payload_ok(#[trigger] post.entries@[i])))
    &&& (pre.loaded_part != Some(part) ==> (forall|i: int|
        0 <= i < post.entries@.len() && !part_selects(part, i) ==> (
        #[trigger] post.entries@[i]).state is NotNeeded))
    &&& (pre.loaded_part != Some(part) ==> (forall|i: int|
        0 <= i < post.entries@.len() ==> !((#[trigger] post.entries@[i]).state is Requested)))
    &&& (pre.loaded_part == Some(part) ==> post.entries@ == pre.entries@ && post.io == pre.io)
}

/// The resource catalog: the parsed index, the per-entry load state, the
/// part whose entries are resident, and a latched part-change request.
pub struct Resources<T: Io> {
    pub io: T,
    pub loaded_part: Option<GamePart>,
    pub entries: Vec<MemEntry>,
    pub requested_part: Option<GamePart>,
}

impl<T: Io> Resources<T> {
    /// Every entry names a real bank.
    pub open spec fn wf(self) -> bool {
        forall|i: int| 0 <= i < self.entries@.len() ==> (#[trigger] self.entries@[i]).wf()
    }

    /// The payload of the entry at an index, when it is resident.
    pub open spec fn spec_segment(self, idx: int) -> Option<Seq<u8>> {
        if 0 <= idx < self.entries@.len() {
            match self.entries@[idx].state {
                MemEntryState::Loaded(d) => Some(d@),
                _ => None,
            }
        } else {
            None
        }
    }

    pub open spec fn spec_palette(self) -> Option<Seq<u8>> {
        match self.loaded_part {
            Some(p) => self.spec_segment(p.spec_palette() as int),
            None => None,
        }
    }

    pub open spec fn spec_bytecode(self) -> Option<Seq<u8>> {
        match self.loaded_part {
            Some(p) => self.spec_segment(p.spec_bytecode() as int),
            None => None,
        }
    }

    pub open spec fn spec_cinematic(self) -> Option<Seq<u8>> {
        match self.loaded_part {
            Some(p) => self.spec_segment(p.spec_cinematic() as int),
            None => None,
        }
    }

    pub open spec fn spec_alt_video(self) -> Option<Seq<u8>> {
        match self.loaded_part {
            Some(p) => match p.spec_alt_video() {
                Some(idx) => self.spec_segment(idx as int),
                None => None,
            },
            None => None,
        }
    }

    /// Build the catalog: fetch the index file and parse it. No payload is
    /// resident yet.
    pub fn load(io: T) -> (r: Result<Resources<T>, Error>)
        ensures
            r matches Ok(res) ==> res.wf() && res.loaded_part is None && res.requested_part
                is None,
    {
        let mut io = io;
        let mem_list = match io.load_memlist() {
            Ok(d) => d,
            Err(e) => {
                return Err(e);
            },
        };
        let entries = match parse_memlist(mem_list.as_slice()) {
            Ok(entries) => entries,
            Err(e) => {
                return Err(e);
            },
        };
        Ok(Resources { io, loaded_part: None, entries, requested_part: None })
    }

    /// Make a part's entries resident: every other payload is dropped, the
    /// part's entries are requested and loaded. An entry whose bank read or
    /// unpacking fails is left unloaded; the part still becomes current.
    /// Re-preparing the current part changes nothing.
    pub fn prepare_part(&mut self, part: GamePart)
        requires
            old(self).wf(),
        ensures
            final(self).wf(),
            sp_prepare_outcome(*old(self), *final(self), part),
            final(self).loaded_part == Some(part),
            final(self).requested_part == old(self).requested_part,
            final(self).entries@.len() == old(self).entries@.len(),
            forall|i: int|
                0 <= i < final(self).entries@.len() ==> same_meta(
                    old(self).entries@[i],
                    #[trigger] final(self).entries@[i],
                ),
            old(self).loaded_part != Some(part) ==> forall|i: int|
                0 <= i < final(self).entries@.len() ==> entry_payload_ok(
                    #[trigger] final(self).entries@[i],
                ),
            old(self).loaded_part != Some(part) ==> forall|i: int|
                0 <= i < final(self).entries@.len() && !part_selects(part, i) ==> (
                #[trigger] final(self).entries@[i]).state is NotNeeded,
            old(self).loaded_part != Some(part) ==> forall|i: int|
                0 <= i < final(self).entries@.len() ==> !((#[trigger] final(self).entries@[i]).state is Requested),
            old(self).loaded_part == Some(part) ==> final(self).entries@ == old(self).entries@
                && final(self).io == old(self).io,
    {
        let same = match self.loaded_part {
            Some(lp) => lp == part,
            None => false,
        };
        if same {
            return ;
        }

        self.unload();
        self.request_part(part);
        self.load_requested();
        self.loaded_part = Some(part);
    }

    /// Drop every payload.
    fn unload(&mut self)
        requires
            old(self).wf(),
        ensures
            final(self).wf(),
            final(self).io == old(self).io,
            final(self).requested_part == old(self).requested_part,
            final(self).loaded_part is None,
            final(self).entries@.len() == old(self).entries@.len(),
            forall|i: int|
                0 <= i < final(self).entries@.len() ==> same_meta(
                    old(self).entries@[i],
                    #[trigger] final(self).entries@[i],
                ) && final(self).entries@[i].state is NotNeeded,
    {
        let n = self.entries.len();
        let mut i: usize = 0;
        while i < n
            invariant
                n == self.entries@.len(),
                n == old(self).entries@.len(),
                i <= n,
                self.io == old(self).io,
                self.requested_part == old(self).requested_part,
                self.loaded_part == old(self).loaded_part,
                forall|j: int|
                    0 <= j < i ==> same_meta(old(self).entries@[j], #[trigger] self.entries@[j])
                        && self.entries@[j].state is NotNeeded,
                forall|j: int| i <= j < n ==> self.entries@[j] == old(self).entries@[j],
            decreases n - i,
        {
            let e = &self.entries[i];
            let cleared = MemEntry {
                state: MemEntryState::NotNeeded,
                kind: e.kind,
                bank_id: e.bank_id,
                bank_offset: e.bank_offset,
                packed_size: e.packed_size,
                size: e.size,
            };
            self.entries[i] = cleared;
            i = i + 1;
        }
        self.loaded_part = None;
        proof {
            assert forall|i: int| 0 <= i < self.entries@.len() implies (
            #[trigger] self.entries@[i]).wf() by {
                assert(same_meta(old(self).entries@[i], self.entries@[i]));
                assert(old(self).entries@[i].wf());
            }
        }
    }

    /// Take the pending part-change request, clearing it.
    pub fn requested_part(&mut self) -> (r: Option<GamePart>)
        ensures
            r == old(self).requested_part,
            final(self).requested_part is None,
            final(self).loaded_part == old(self).loaded_part,
            final(self).entries@ == old(self).entries@,
            final(self).io == old(self).io,
    {
        self.requested_part.take()
    }

    /// Mark a part's entries as requested. An index past the end of the
    /// catalog is skipped.
    fn request_part(&mut self, part: GamePart)
        requires
            old(self).wf(),
        ensures
            final(self).wf(),
            final(self).io == old(self).io,
            final(self).requested_part == old(self).requested_part,
            final(self).loaded_part == old(self).loaded_part,
            final(self).entries@.len() == old(self).entries@.len(),
            forall|i: int|
                0 <= i < final(self).entries@.len() ==> same_meta(
                    old(self).entries@[i],
                    #[trigger] final(self).entries@[i],
                ) && (if part_selects(part, i) {
                    final(self).entries@[i].state is Requested
                } else {
                    final(self).entries@[i].state == old(self).entries@[i].state
                }),
    {
        self.request_entry(part.palette());
        self.request_entry(part.bytecode());
        self.request_entry(part.cinematic());
        if let Some(idx) = part.alt_video() {
            self.request_entry(idx);
        }
        proof {
            assert forall|i: int| 0 <= i < self.entries@.len() implies (
            #[trigger] self.entries@[i]).wf() by {
                assert(same_meta(old(self).entries@[i], self.entries@[i]));
                assert(old(self).entries@[i].wf());
            }
        }
    }

    /// Mark one entry as requested, if it exists.
    fn request_entry(&mut self, idx: usize)
        ensures
            final(self).io == old(self).io,
            final(self).requested_part == old(self).requested_part,
            final(self).loaded_part == old(self).loaded_part,
            final(self).entries@.len() == old(self).entries@.len(),
            forall|i: int|
                0 <= i < final(self).entries@.len() ==> same_meta(
                    old(self).entries@[i],
                    #[trigger] final(self).entries@[i],
                ) && (if i == idx {
                    final(self).entries@[i].state is Requested
                } else {
                    final(self).entries@[i].state == old(self).entries@[i].state
                }),
    {
        if idx < self.entries.len() {
            let e = &self.entries[idx];
            let requested = MemEntry {
                state: MemEntryState::Requested,
                kind: e.kind,
                bank_id: e.bank_id,
                bank_offset: e.bank_offset,
                packed_size: e.packed_size,
                size: e.size,
            };
            self.entries[idx] = requested;
        }
    }

    /// Load every requested entry from its bank; a failure leaves its
    /// entry unloaded and the pass goes on.
    fn load_requested(&mut self)
        requires
            old(self).wf(),
        ensures
            final(self).wf(),
            final(self).requested_part == old(self).requested_part,
            final(self).loaded_part == old(self).loaded_part,
            final(self).entries@.len() == old(self).entries@.len(),
            forall|i: int|
                0 <= i < final(self).entries@.len() ==> load_outcome(
                    old(self).entries@[i],
                    #[trigger] final(self).entries@[i],
                ),
            forall|i: int|
                0 <= i < final(self).entries@.len() ==> !((#[trigger] final(self).entries@[i]).state is Requested),
    {
        let n = self.entries.len();
        let mut i: usize = 0;
        while i < n
            invariant
                n == self.entries@.len(),
                n == old(self).entries@.len(),
                i <= n,
                self.requested_part == old(self).requested_part,
                self.loaded_part == old(self).loaded_part,
                forall|j: int|
                    0 <= j < i ==> load_outcome(old(self).entries@[j], #[trigger] self.entries@[j]),
                forall|j: int| i <= j < n ==> self.entries@[j] == old(self).entries@[j],
            decreases n - i,
        {
            let requested = match self.entries[i].state {
                MemEntryState::Requested => true,
                _ => false,
            };
            if requested {
                let bank_id = self.entries[i].bank_id;
                let bank_offset = self.entries[i].bank_offset;
                let packed_size = self.entries[i].packed_size;
                let size = self.entries[i].size;
                let kind = self.entries[i].kind;
                let state = match load_entry(&mut self.io, bank_id, bank_offset, packed_size, size)
                    {
                    Ok(data) => MemEntryState::Loaded(data),
                    Err(_) => MemEntryState::NotNeeded,
                };
                self.entries[i] = MemEntry { state, kind, bank_id, bank_offset, packed_size, size };
            }
            i = i + 1;
        }
        proof {
            assert forall|i: int| 0 <= i < self.entries@.len() implies (
            #[trigger] self.entries@[i]).wf() by {
                assert(load_outcome(old(self).entries@[i], self.entries@[i]));
                assert(old(self).entries@[i].wf());
            }
        }
    }

    /// Route a resource id from the bytecode: an id beyond the catalog is a
    /// part-change request, latched for the executor; an id of an unloaded
    /// entry requests it and runs a load pass.
    pub fn load_part_or_entry(&mut self, resource_id: u16)
        requires
            old(self).wf(),
        ensures
            final(self).wf(),
            sp_load_route(*old(self), *final(self), resource_id),
    {
        if resource_id as usize > self.entries.len() {
            self.requested_part = GamePart::from(resource_id);
        } else if (resource_id as usize) < self.entries.len() {
            let idx = resource_id as usize;
            let not_needed = match self.entries[idx].state {
                MemEntryState::NotNeeded => true,
                _ => false,
            };
            if not_needed {
                self.request_entry(idx);
                self.load_requested();
            }
        }
    }

    /// The current part's palette payload, when resident.
    pub fn palette(&self) -> (r: Option<&[u8]>)
        ensures
            match r {
                Some(s) => self.spec_palette() == Some(s@),
                None => self.spec_palette() is None,
            },
    {
        let p = match self.loaded_part {
            Some(p) => p,
            None => {
                return None;
            },
        };
        self.segment(p.palette())
    }

    /// The current part's bytecode payload, when resident.
    pub fn bytecode(&self) -> (r: Option<&[u8]>)
        ensures
            match r {
                Some(s) => self.spec_bytecode() == Some(s@),
                None => self.spec_bytecode() is None,
            },
    {
        let p = match self.loaded_part {
            Some(p) => p,
            None => {
                return None;
            },
        };
        self.segment(p.bytecode())
    }

    /// The current part's cinematic polygon payload, when resident.
    pub fn cinematic(&self) -> (r: Option<&[u8]>)
        ensures
            match r {
                Some(s) => self.spec_cinematic() == Some(s@),
                None => self.spec_cinematic() is None,
            },
    {
        let p = match self.loaded_part {
            Some(p) => p,
            None => {
                return None;
            },
        };
        self.segment(p.cinematic())
    }

    /// The current part's alternate video payload, when the part has one
    /// and it is resident.
    pub fn alt_video(&self) -> (r: Option<&[u8]>)
        ensures
            match r {
                Some(s) => self.spec_alt_video() == Some(s@),
                None => self.spec_alt_video() is None,
            },
    {
        let p = match self.loaded_part {
            Some(p) => p,
            None => {
                return None;
            },
        };
        match p.alt_video() {
            Some(idx) => self.segment(idx),
            None => None,
        }
    }

    /// Once a part is prepared, each of its palette, bytecode and
    /// cinematic accessors hands back the corresponding resident payload,
    /// nonempty whenever the payload is. Residence itself rests on the
    /// host's bank reader: an entry whose read or unpacking failed is left
    /// unloaded and its accessor yields nothing.
    pub proof fn lemma_part_segments_present(self, p: GamePart)
        requires
            self.loaded_part == Some(p),
            p.spec_palette() < self.entries@.len(),
            p.spec_bytecode() < self.entries@.len(),
            p.spec_cinematic() < self.entries@.len(),
            self.entries@[p.spec_palette() as int].state matches MemEntryState::Loaded(d)
                && d@.len() > 0,
            self.entries@[p.spec_bytecode() as int].state matches MemEntryState::Loaded(d)
                && d@.len() > 0,
            self.entries@[p.spec_cinematic() as int].state matches MemEntryState::Loaded(d)
                && d@.len() > 0,
        ensures
            self.spec_palette() matches Some(s) && s.len() > 0,
            self.spec_bytecode() matches Some(s) && s.len() > 0,
            self.spec_cinematic() matches Some(s) && s.len() > 0,
    {
    }

    /// The payload of the entry at an index, when it is resident.
    fn segment(&self, idx: usize) -> (r: Option<&[u8]>)
        ensures
            match r {
                Some(s) => self.spec_segment(idx as int) == Some(s@),
                None => self.spec_segment(idx as int) is None,
            },
    {
        if idx >= self.entries.len() {
            return None;
        }
        match &self.entries[idx].state {
            MemEntryState::Loaded(d) => Some(d.as_slice()),
            _ => None,
        }
    }
}

} // verus!
