//! Byte-exact layout of the ELF64 records.
//!
//! Every record is encoded little-endian at a fixed offset table. The
//! spec functions below state the encoding byte for byte; the exec
//! functions produce and read exactly those bytes.

use vstd::prelude::*;

verus! {

// ---------------------------------------------------------------------
// Little-endian field encodings
// ---------------------------------------------------------------------

/// The two little-endian bytes of a 16-bit field.
pub open spec fn u16_le(x: u16) -> Seq<u8> {
    seq![
        (x & 0xff) as u8,
        ((x >> 8) & 0xff) as u8,
    ]
}

/// The 16-bit value stored little-endian at `off` in `b`.
pub open spec fn le16_at(b: Seq<u8>, off: int) -> u16 {
    (b[off] + 0x100 * b[off + 1]) as u16
}

/// Appends the two little-endian bytes of `x`.
pub fn push_u16_le(buf: &mut Vec<u8>, x: u16)
    ensures
        final(buf)@ == old(buf)@ + u16_le(x),
{
    proof {
        assert(x & 0xff < 256 && (x >> 8) & 0xff < 256) by (bit_vector);
    }
    buf.push((x & 0xff) as u8);
    buf.push(((x >> 8) & 0xff) as u8);
    assert(buf@ =~= old(buf)@ + u16_le(x));
}

/// Reads the 16-bit field stored little-endian at `off`.
pub fn read_u16_le(buf: &Vec<u8>, off: usize) -> (r: u16)
    requires
        off + 2 <= buf@.len(),
    ensures
        r == le16_at(buf@, off as int),
{
    let _n: usize = buf.len();
    let b0: u16 = buf[off] as u16;
    let b1: u16 = buf[off + 1] as u16;
    b0 + 0x100 * b1
}

/// A 16-bit little-endian field decodes back to the value it encodes.
pub proof fn lemma_u16_le_round(x: u16)
    ensures
        le16_at(u16_le(x), 0) == x,
{
    assert((((x & 0xff) as u8) + 0x100 * (((x >> 8) & 0xff) as u8)) as u16 == x)
        by (bit_vector);
}

/// The four little-endian bytes of a 32-bit field.
pub open spec fn u32_le(x: u32) -> Seq<u8> {
    seq![
        (x & 0xff) as u8,
        ((x >> 8) & 0xff) as u8,
        ((x >> 16) & 0xff) as u8,
        ((x >> 24) & 0xff) as u8,
    ]
}

/// The 32-bit value stored little-endian at `off` in `b`.
pub open spec fn le32_at(b: Seq<u8>, off: int) -> u32 {
    (b[off] + 0x100 * b[off + 1] + 0x1_0000 * b[off + 2] + 0x100_0000 * b[off + 3]) as u32
}

/// Appends the four little-endian bytes of `x`.
pub fn push_u32_le(buf: &mut Vec<u8>, x: u32)
    ensures
        final(buf)@ == old(buf)@ + u32_le(x),
{
    proof {
        assert(x & 0xff < 256 && (x >> 8) & 0xff < 256 && (x >> 16) & 0xff < 256
            && (x >> 24) & 0xff < 256) by (bit_vector);
    }
    buf.push((x & 0xff) as u8);
    buf.push(((x >> 8) & 0xff) as u8);
    buf.push(((x >> 16) & 0xff) as u8);
    buf.push(((x >> 24) & 0xff) as u8);
    assert(buf@ =~= old(buf)@ + u32_le(x));
}

/// Reads the 32-bit field stored little-endian at `off`.
pub fn read_u32_le(buf: &Vec<u8>, off: usize) -> (r: u32)
    requires
        off + 4 <= buf@.len(),
    ensures
        r == le32_at(buf@, off as int),
{
    let _n: usize = buf.len();
    let b0: u32 = buf[off] as u32;
    let b1: u32 = buf[off + 1] as u32;
    let b2: u32 = buf[off + 2] as u32;
    let b3: u32 = buf[off + 3] as u32;
    b0 + 0x100 * b1 + 0x1_0000 * b2 + 0x100_0000 * b3
}

/// A 32-bit little-endian field decodes back to the value it encodes.
pub proof fn lemma_u32_le_round(x: u32)
    ensures
        le32_at(u32_le(x), 0) == x,
{
    assert((((x & 0xff) as u8) + 0x100 * (((x >> 8) & 0xff) as u8)
        + 0x1_0000 * (((x >> 16) & 0xff) as u8)
        + 0x100_0000 * (((x >> 24) & 0xff) as u8)) as u32 == x) by (bit_vector);
}

/// The eight little-endian bytes of a 64-bit field.
pub open spec fn u64_le(x: u64) -> Seq<u8> {
    seq![
        (x & 0xff) as u8,
        ((x >> 8) & 0xff) as u8,
        ((x >> 16) & 0xff) as u8,
        ((x >> 24) & 0xff) as u8,
        ((x >> 32) & 0xff) as u8,
        ((x >> 40) & 0xff) as u8,
        ((x >> 48) & 0xff) as u8,
        ((x >> 56) & 0xff) as u8,
    ]
}

/// The 64-bit value stored little-endian at `off` in `b`.
pub open spec fn le64_at(b: Seq<u8>, off: int) -> u64 {
    (b[off] + 0x100 * b[off + 1] + 0x1_0000 * b[off + 2] + 0x100_0000 * b[off + 3]
        + 0x1_0000_0000 * b[off + 4] + 0x100_0000_0000 * b[off + 5]
        + 0x1_0000_0000_0000 * b[off + 6] + 0x100_0000_0000_0000 * b[off + 7]) as u64
}

/// Appends the eight little-endian bytes of `x`.
pub fn push_u64_le(buf: &mut Vec<u8>, x: u64)
    ensures
        final(buf)@ == old(buf)@ + u64_le(x),
{
    proof {
        assert(x & 0xff < 256 && (x >> 8) & 0xff < 256 && (x >> 16) & 0xff < 256
            && (x >> 24) & 0xff < 256 && (x >> 32) & 0xff < 256 && (x >> 40) & 0xff < 256
            && (x >> 48) & 0xff < 256 && (x >> 56) & 0xff < 256) by (bit_vector);
    }
    buf.push((x & 0xff) as u8);
    buf.push(((x >> 8) & 0xff) as u8);
    buf.push(((x >> 16) & 0xff) as u8);
    buf.push(((x >> 24) & 0xff) as u8);
    buf.push(((x >> 32) & 0xff) as u8);
    buf.push(((x >> 40) & 0xff) as u8);
    buf.push(((x >> 48) & 0xff) as u8);
    buf.push(((x >> 56) & 0xff) as u8);
    assert(buf@ =~= old(buf)@ + u64_le(x));
}

/// Reads the 64-bit field stored little-endian at `off`.
pub fn read_u64_le(buf: &Vec<u8>, off: usize) -> (r: u64)
    requires
        off + 8 <= buf@.len(),
    ensures
        r == le64_at(buf@, off as int),
{
    let _n: usize = buf.len();
    let b0: u64 = buf[off] as u64;
    let b1: u64 = buf[off + 1] as u64;
    let b2: u64 = buf[off + 2] as u64;
    let b3: u64 = buf[off + 3] as u64;
    let b4: u64 = buf[off + 4] as u64;
    let b5: u64 = buf[off + 5] as u64;
    let b6: u64 = buf[off + 6] as u64;
    let b7: u64 = buf[off + 7] as u64;
    b0 + 0x100 * b1 + 0x1_0000 * b2 + 0x100_0000 * b3 + 0x1_0000_0000 * b4
        + 0x100_0000_0000 * b5 + 0x1_0000_0000_0000 * b6 + 0x100_0000_0000_0000 * b7
}

/// A 64-bit little-endian field decodes back to the value it encodes.
pub proof fn lemma_u64_le_round(x: u64)
    ensures
        le64_at(u64_le(x), 0) == x,
{
    assert((((x & 0xff) as u8) + 0x100 * (((x >> 8) & 0xff) as u8)
        + 0x1_0000 * (((x >> 16) & 0xff) as u8)
        + 0x100_0000 * (((x >> 24) & 0xff) as u8)
        + 0x1_0000_0000 * (((x >> 32) & 0xff) as u8)
        + 0x100_0000_0000 * (((x >> 40) & 0xff) as u8)
        + 0x1_0000_0000_0000 * (((x >> 48) & 0xff) as u8)
        + 0x100_0000_0000_0000 * (((x >> 56) & 0xff) as u8)) as u64 == x) by (bit_vector);
}

// ---------------------------------------------------------------------
// Identification block
// ---------------------------------------------------------------------

/// The ELF identification block. The magic sequence and the reserved
/// padding are fixed by the format and are written by the encoder, not
/// stored.
#[derive(Clone, Copy, Debug, PartialEq, Eq, Structural)]
pub struct ElfIdent {
    /// Word-size class; 2 means a 64-bit file.
    pub class: u8,
    /// Byte-order tag; 1 means little-endian data encoding.
    pub data: u8,
    /// Format version; always 1.
    pub version: u8,
    /// OS/ABI identifier; 0 means System V.
    pub os_abi: u8,
    /// ABI version; 0 under System V.
    pub abi_version: u8,
}

/// The 16 bytes of the identification block: magic, the five stored
/// fields, then seven bytes of reserved padding.
pub open spec fn ident_bytes(i: ElfIdent) -> Seq<u8> {
    seq![
        0x7fu8, 0x45u8, 0x4cu8, 0x46u8,
        i.class, i.data, i.version, i.os_abi, i.abi_version,
        0u8, 0u8, 0u8, 0u8, 0u8, 0u8, 0u8,
    ]
}

/// The identification block whose stored fields sit at `off` in `b`.
pub open spec fn ident_at(b: Seq<u8>, off: int) -> ElfIdent {
    ElfIdent {
        class: b[off + 4],
        data: b[off + 5],
        version: b[off + 6],
        os_abi: b[off + 7],
        abi_version: b[off + 8],
    }
}

/// The identification block is always exactly 16 bytes and always opens
/// with the magic sequence `0x7F 'E' 'L' 'F'`.
pub proof fn lemma_ident_block(i: ElfIdent)
    ensures
        ident_bytes(i).len() == 16,
        ident_bytes(i)[0] == 0x7f,
        ident_bytes(i)[1] == 0x45,
        ident_bytes(i)[2] == 0x4c,
        ident_bytes(i)[3] == 0x46,
{
}

/// Every identification block decodes back to the record it encodes.
pub proof fn lemma_ident_round_trip(i: ElfIdent)
    ensures
        ident_at(ident_bytes(i), 0) == i,
{
}

impl ElfIdent {
    /// Appends the 16-byte identification block.
    pub fn encode(&self, buf: &mut Vec<u8>)
        ensures
            final(buf)@ == old(buf)@ + ident_bytes(*self),
    {
        buf.push(0x7f);
        buf.push(0x45);
        buf.push(0x4c);
        buf.push(0x46);
        buf.push(self.class);
        buf.push(self.data);
        buf.push(self.version);
        buf.push(self.os_abi);
        buf.push(self.abi_version);
        buf.push(0);
        buf.push(0);
        buf.push(0);
        buf.push(0);
        buf.push(0);
        buf.push(0);
        buf.push(0);
        assert(buf@ =~= old(buf)@ + ident_bytes(*self));
    }

    /// Reads the identification block stored at `off`.
    pub fn decode(buf: &Vec<u8>, off: usize) -> (r: ElfIdent)
        requires
            off + 16 <= buf@.len(),
        ensures
            r == ident_at(buf@, off as int),
    {
        let _n: usize = buf.len();
        ElfIdent {
            class: buf[off + 4],
            data: buf[off + 5],
            version: buf[off + 6],
            os_abi: buf[off + 7],
            abi_version: buf[off + 8],
        }
    }
}

// ---------------------------------------------------------------------
// File header
// ---------------------------------------------------------------------

/// The ELF64 file header, 64 bytes on disk.
#[derive(Clone, Copy, Debug, PartialEq, Eq, Structural)]
pub struct ElfHeader {
    /// Identification block, the first 16 bytes.
    pub ident: ElfIdent,
    /// Object file type; 2 means an executable file.
    pub file_type: u16,
    /// Target machine; 62 means x86-64.
    pub machine: u16,
    /// Object format version; always 1.
    pub version: u32,
    /// Virtual address of the entry point.
    pub entry: u64,
    /// File offset of the program header table.
    pub phoff: u64,
    /// File offset of the section header table; 0 when none is present.
    pub shoff: u64,
    /// Processor-specific flags.
    pub flags: u32,
    /// Size of this header in bytes.
    pub ehsize: u16,
    /// Size of one program header table entry.
    pub phentsize: u16,
    /// Number of program header table entries.
    pub phnum: u16,
    /// Size of one section header table entry; 0 when none is present.
    pub shentsize: u16,
    /// Number of section header table entries.
    pub shnum: u16,
    /// Section name string table index.
    pub shstrndx: u16,
}

/// The 64 bytes of the file header, field after field, little-endian.
pub open spec fn ehdr_bytes(h: ElfHeader) -> Seq<u8> {
    ident_bytes(h.ident) + u16_le(h.file_type) + u16_le(h.machine) + u32_le(h.version)
        + u64_le(h.entry) + u64_le(h.phoff) + u64_le(h.shoff) + u32_le(h.flags)
        + u16_le(h.ehsize) + u16_le(h.phentsize) + u16_le(h.phnum) + u16_le(h.shentsize)
        + u16_le(h.shnum) + u16_le(h.shstrndx)
}

/// The file header stored at `off` in `b`, by the fixed offset table.
pub open spec fn ehdr_at(b: Seq<u8>, off: int) -> ElfHeader {
    ElfHeader {
        ident: ident_at(b, off),
        file_type: le16_at(b, off + 16),
        machine: le16_at(b, off + 18),
        version: le32_at(b, off + 20),
        entry: le64_at(b, off + 24),
        phoff: le64_at(b, off + 32),
        shoff: le64_at(b, off + 40),
        flags: le32_at(b, off + 48),
        ehsize: le16_at(b, off + 52),
        phentsize: le16_at(b, off + 54),
        phnum: le16_at(b, off + 56),
        shentsize: le16_at(b, off + 58),
        shnum: le16_at(b, off + 60),
        shstrndx: le16_at(b, off + 62),
    }
}

impl ElfHeader {
    /// Appends the 64-byte file header.
    pub fn encode(&self, buf: &mut Vec<u8>)
        ensures
            final(buf)@ == old(buf)@ + ehdr_bytes(*self),
            final(buf)@.len() == old(buf)@.len() + 64,
    {
        self.ident.encode(buf);
        push_u16_le(buf, self.file_type);
        push_u16_le(buf, self.machine);
        push_u32_le(buf, self.version);
        push_u64_le(buf, self.entry);
        push_u64_le(buf, self.phoff);
        push_u64_le(buf, self.shoff);
        push_u32_le(buf, self.flags);
        push_u16_le(buf, self.ehsize);
        push_u16_le(buf, self.phentsize);
        push_u16_le(buf, self.phnum);
        push_u16_le(buf, self.shentsize);
        push_u16_le(buf, self.shnum);
        push_u16_le(buf, self.shstrndx);
        assert(buf@ =~= old(buf)@ + ehdr_bytes(*self));
    }

    /// Reads the file header stored at `off`.
    pub fn decode(buf: &Vec<u8>, off: usize) -> (r: ElfHeader)
        requires
            off + 64 <= buf@.len(),
        ensures
            r == ehdr_at(buf@, off as int),
    {
        let _n: usize = buf.len();
        ElfHeader {
            ident: ElfIdent::decode(buf, off),
            file_type: read_u16_le(buf, off + 16),
            machine: read_u16_le(buf, off + 18),
            version: read_u32_le(buf, off + 20),
            entry: read_u64_le(buf, off + 24),
            phoff: read_u64_le(buf, off + 32),
            shoff: read_u64_le(buf, off + 40),
            flags: read_u32_le(buf, off + 48),
            ehsize: read_u16_le(buf, off + 52),
            phentsize: read_u16_le(buf, off + 54),
            phnum: read_u16_le(buf, off + 56),
            shentsize: read_u16_le(buf, off + 58),
            shnum: read_u16_le(buf, off + 60),
            shstrndx: read_u16_le(buf, off + 62),
        }
    }
}

// ---------------------------------------------------------------------
// Program header
// ---------------------------------------------------------------------

/// One ELF64 program header table entry, 56 bytes on disk.
#[derive(Clone, Copy, Debug, PartialEq, Eq, Structural)]
pub struct ProgramHeader {
    /// Segment type; 1 means a loadable segment.
    pub seg_type: u32,
    /// Permission flags; bit 0 execute, bit 1 write, bit 2 read.
    pub flags: u32,
    /// File offset of the segment's first byte.
    pub offset: u64,
    /// Virtual address of the segment's first byte.
    pub vaddr: u64,
    /// Physical address; ignored by the loader, mirrors `vaddr`.
    pub paddr: u64,
    /// Number of segment bytes present in the file.
    pub filesz: u64,
    /// Number of segment bytes in the memory image.
    pub memsz: u64,
    /// Required alignment of the segment.
    pub align: u64,
}

/// The 56 bytes of a program header, field after field, little-endian.
pub open spec fn phdr_bytes(p: ProgramHeader) -> Seq<u8> {
    u32_le(p.seg_type) + u32_le(p.flags) + u64_le(p.offset) + u64_le(p.vaddr)
        + u64_le(p.paddr) + u64_le(p.filesz) + u64_le(p.memsz) + u64_le(p.align)
}

/// The program header stored at `off` in `b`, by the fixed offset table.
pub open spec fn phdr_at(b: Seq<u8>, off: int) -> ProgramHeader {
    ProgramHeader {
        seg_type: le32_at(b, off),
        flags: le32_at(b, off + 4),
        offset: le64_at(b, off + 8),
        vaddr: le64_at(b, off + 16),
        paddr: le64_at(b, off + 24),
        filesz: le64_at(b, off + 32),
        memsz: le64_at(b, off + 40),
        align: le64_at(b, off + 48),
    }
}

impl ProgramHeader {
    /// Appends the 56-byte program header.
    pub fn encode(&self, buf: &mut Vec<u8>)
        ensures
            final(buf)@ == old(buf)@ + phdr_bytes(*self),
            final(buf)@.len() == old(buf)@.len() + 56,
    {
        push_u32_le(buf, self.seg_type);
        push_u32_le(buf, self.flags);
        push_u64_le(buf, self.offset);
        push_u64_le(buf, self.vaddr);
        push_u64_le(buf, self.paddr);
        push_u64_le(buf, self.filesz);
        push_u64_le(buf, self.memsz);
        push_u64_le(buf, self.align);
        assert(buf@ =~= old(buf)@ + phdr_bytes(*self));
    }

    /// Reads the program header stored at `off`.
    pub fn decode(buf: &Vec<u8>, off: usize) -> (r: ProgramHeader)
        requires
            off + 56 <= buf@.len(),
        ensures
            r == phdr_at(buf@, off as int),
    {
        let _n: usize = buf.len();
        ProgramHeader {
            seg_type: read_u32_le(buf, off),
            flags: read_u32_le(buf, off + 4),
            offset: read_u64_le(buf, off + 8),
            vaddr: read_u64_le(buf, off + 16),
            paddr: read_u64_le(buf, off + 24),
            filesz: read_u64_le(buf, off + 32),
            memsz: read_u64_le(buf, off + 40),
            align: read_u64_le(buf, off + 48),
        }
    }
}

/// The two headers are the architecture-fixed 64 and 56 bytes long.
pub proof fn lemma_header_sizes(h: ElfHeader, p: ProgramHeader)
    ensures
        ehdr_bytes(h).len() == 64,
        phdr_bytes(p).len() == 56,
{
}

// ---------------------------------------------------------------------
// Round trips
// ---------------------------------------------------------------------

/// Decoding an encoded file header reproduces every field: the encoding
/// is lossless.
#[verifier::rlimit(100)]
pub proof fn lemma_ehdr_round_trip(h: ElfHeader)
    ensures
        ehdr_at(ehdr_bytes(h), 0) == h,
{
    lemma_u16_le_round(h.file_type);
    lemma_u16_le_round(h.machine);
    lemma_u32_le_round(h.version);
    lemma_u64_le_round(h.entry);
    lemma_u64_le_round(h.phoff);
    lemma_u64_le_round(h.shoff);
    lemma_u32_le_round(h.flags);
    lemma_u16_le_round(h.ehsize);
    lemma_u16_le_round(h.phentsize);
    lemma_u16_le_round(h.phnum);
    lemma_u16_le_round(h.shentsize);
    lemma_u16_le_round(h.shnum);
    lemma_u16_le_round(h.shstrndx);
}

/// Decoding an encoded program header reproduces every field: the
/// encoding is lossless.
pub proof fn lemma_phdr_round_trip(p: ProgramHeader)
    ensures
        phdr_at(phdr_bytes(p), 0) == p,
{
    lemma_u32_le_round(p.seg_type);
    lemma_u32_le_round(p.flags);
    lemma_u64_le_round(p.offset);
    lemma_u64_le_round(p.vaddr);
    lemma_u64_le_round(p.paddr);
    lemma_u64_le_round(p.filesz);
    lemma_u64_le_round(p.memsz);
    lemma_u64_le_round(p.align);
}

/// Parsing the first 120 bytes of an assembled image — file header at
/// offset 0, program header at offset 64 — reproduces the records it
/// was built from, whatever payload follows them.
pub proof fn lemma_image_round_trip(h: ElfHeader, p: ProgramHeader, payload: Seq<u8>)
    ensures
        ehdr_at(ehdr_bytes(h) + phdr_bytes(p) + payload, 0) == h,
        phdr_at(ehdr_bytes(h) + phdr_bytes(p) + payload, 64) == p,
{
    let b = ehdr_bytes(h) + phdr_bytes(p) + payload;
    assert forall|k: int| 0 <= k < 64 implies b[k] == ehdr_bytes(h)[k] by {}
    assert forall|k: int| 0 <= k < 56 implies b[64 + k] == phdr_bytes(p)[k] by {}
    lemma_ehdr_round_trip(h);
    lemma_phdr_round_trip(p);
}

} // verus!
