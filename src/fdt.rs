use vstd::prelude::*;

verus! {

/// The magic number that opens a flattened device tree.
pub const FDT_MAGIC: u32 = 0xd00d_feed;

/// Size in bytes of a flattened device tree header.
pub const FDT_HEADER_BYTES: usize = 40;

/// The big-endian 32-bit word stored at `at` in `bytes`.
pub open spec fn be_word(bytes: Seq<u8>, at: int) -> u32 {
    (bytes[at] * 0x100_0000 + bytes[at + 1] * 0x1_0000 + bytes[at + 2] * 0x100 + bytes[at + 3]) as u32
}

/// The ten big-endian header words at the start of `bytes`.
pub open spec fn header_words(bytes: Seq<u8>) -> Seq<u32> {
    Seq::new(10, |i: int| be_word(bytes, 4 * i))
}

fn read_be_u32(bytes: &[u8], at: usize) -> (r: u32)
    requires
        at + 4 <= bytes@.len(),
    ensures
        r == be_word(bytes@, at as int),
{
    bytes[at] as u32 * 0x100_0000 + bytes[at + 1] as u32 * 0x1_0000 + bytes[at + 2] as u32 * 0x100
        + bytes[at + 3] as u32
}

/// The header of a flattened device tree, its words decoded from big-endian.
#[derive(Debug, Clone, Copy)]
pub struct FdtHeader {
    magic: u32,
    totalsize: u32,
    off_dt_struct: u32,
    off_dt_strings: u32,
    off_mem_rsvmap: u32,
    version: u32,
    last_comp_version: u32,
    boot_cpuid_phys: u32,
    size_dt_strings: u32,
    size_dt_struct: u32,
}

impl View for FdtHeader {
    type V = Seq<u32>;

    closed spec fn view(&self) -> Seq<u32> {
        seq![
            self.magic,
            self.totalsize,
            self.off_dt_struct,
            self.off_dt_strings,
            self.off_mem_rsvmap,
            self.version,
            self.last_comp_version,
            self.boot_cpuid_phys,
            self.size_dt_strings,
            self.size_dt_struct,
        ]
    }
}

impl FdtHeader {
    /// The header at the start of `bytes`; `None` when they are too few.
    pub fn from_bytes(bytes: &[u8]) -> (r: Option<FdtHeader>)
        ensures
            r is Some <==> bytes@.len() >= FDT_HEADER_BYTES,
            r is Some ==> r->Some_0@ == header_words(bytes@),
    {
        if bytes.len() < FDT_HEADER_BYTES {
            return None;
        }
        Some(FdtHeader::parse(bytes))
    }

    /// The header at the start of `bytes`, which hold at least one.
    pub fn parse(bytes: &[u8]) -> (r: FdtHeader)
        requires
            bytes@.len() >= FDT_HEADER_BYTES,
        ensures
            r@ == header_words(bytes@),
    {
        let h = FdtHeader {
            magic: read_be_u32(bytes, 0),
            totalsize: read_be_u32(bytes, 4),
            off_dt_struct: read_be_u32(bytes, 8),
            off_dt_strings: read_be_u32(bytes, 12),
            off_mem_rsvmap: read_be_u32(bytes, 16),
            version: read_be_u32(bytes, 20),
            last_comp_version: read_be_u32(bytes, 24),
            boot_cpuid_phys: read_be_u32(bytes, 28),
            size_dt_strings: read_be_u32(bytes, 32),
            size_dt_struct: read_be_u32(bytes, 36),
        };
        assert(h@ =~= header_words(bytes@));
        h
    }

    pub fn magic(&self) -> (r: u32)
        ensures
            r == self@[0],
    {
        self.magic
    }

    /// Size in bytes of the whole device tree blob.
    pub fn totalsize(&self) -> (r: u32)
        ensures
            r == self@[1],
    {
        self.totalsize
    }

    pub fn is_valid(&self) -> (r: bool)
        ensures
            r == (self@[0] == FDT_MAGIC),
    {
        self.magic == FDT_MAGIC
    }
}

} // verus!
