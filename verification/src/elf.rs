//! File assembler.
//!
//! Computes the interdependent offsets and addresses, populates the two
//! header records, and concatenates header, program header and payload
//! into the final image: `[file header][program header][payload]`.

use vstd::prelude::*;

use crate::codegen::create_program;
use crate::codegen::exit_payload_at;
use crate::layout::ElfHeader;
use crate::layout::ElfIdent;
use crate::layout::ProgramHeader;
use crate::layout::ehdr_at;
use crate::layout::ehdr_bytes;
use crate::layout::ident_bytes;
use crate::layout::phdr_at;
use crate::layout::phdr_bytes;

verus! {

/// Virtual address at which the image's first byte is loaded: the
/// conventional base of a static x86-64 executable.
pub const VADDR: u64 = 0x400000;

/// On-disk size of the file header.
pub const EHDR_SIZE: u64 = 64;

/// On-disk size of one program header table entry.
pub const PHDR_SIZE: u64 = 56;

/// File offset of the payload: it follows the two headers directly.
pub const PROGRAM_OFFSET: u64 = EHDR_SIZE + PHDR_SIZE;

/// The identification block of the produced image: a 64-bit,
/// little-endian, System V class file.
pub open spec fn exit_ident() -> ElfIdent {
    ElfIdent { class: 2, data: 1, version: 1, os_abi: 0, abi_version: 0 }
}

/// The file header of the produced image: an x86-64 executable whose
/// entry point follows the two headers in the mapped image, with one
/// program header directly after the file header on disk and no
/// section headers at all.
pub open spec fn exit_file_header() -> ElfHeader {
    ElfHeader {
        ident: exit_ident(),
        file_type: 2,
        machine: 62,
        version: 1,
        entry: (VADDR + PROGRAM_OFFSET) as u64,
        phoff: EHDR_SIZE,
        shoff: 0,
        flags: 0,
        ehsize: EHDR_SIZE as u16,
        phentsize: PHDR_SIZE as u16,
        phnum: 1,
        shentsize: 0,
        shnum: 0,
        shstrndx: 0,
    }
}

/// The program header of the produced image: one loadable,
/// read-write-execute segment of `size` bytes that starts right after
/// the two headers, both in the file and in the mapped image.
pub open spec fn load_program_header(size: u64) -> ProgramHeader {
    ProgramHeader {
        seg_type: 1,
        flags: 7,
        offset: PROGRAM_OFFSET,
        vaddr: (VADDR + PROGRAM_OFFSET) as u64,
        paddr: (VADDR + PROGRAM_OFFSET) as u64,
        filesz: size,
        memsz: size,
        align: 4096,
    }
}

/// The bytes of the whole image for a given payload.
pub open spec fn elf_file_bytes(payload: Seq<u8>) -> Seq<u8> {
    ehdr_bytes(exit_file_header()) + phdr_bytes(load_program_header(payload.len() as u64))
        + payload
}

/// Appends the identification block of the produced image.
pub fn set_ident(buf: &mut Vec<u8>)
    ensures
        final(buf)@ == old(buf)@ + ident_bytes(exit_ident()),
{
    let ident = ElfIdent { class: 2, data: 1, version: 1, os_abi: 0, abi_version: 0 };
    ident.encode(buf);
}

/// Appends the 64-byte file header of the produced image.
pub fn set_elf64_hdr(buf: &mut Vec<u8>)
    ensures
        final(buf)@ == old(buf)@ + ehdr_bytes(exit_file_header()),
        final(buf)@.len() == old(buf)@.len() + 64,
{
    let hdr = ElfHeader {
        ident: ElfIdent { class: 2, data: 1, version: 1, os_abi: 0, abi_version: 0 },
        file_type: 2,
        machine: 62,
        version: 1,
        entry: VADDR + PROGRAM_OFFSET,
        phoff: EHDR_SIZE,
        shoff: 0,
        flags: 0,
        ehsize: EHDR_SIZE as u16,
        phentsize: PHDR_SIZE as u16,
        phnum: 1,
        shentsize: 0,
        shnum: 0,
        shstrndx: 0,
    };
    hdr.encode(buf);
}

/// Appends the 56-byte program header for a payload of `program_size`
/// bytes.
pub fn set_elf64_phdr(buf: &mut Vec<u8>, program_size: u64)
    ensures
        final(buf)@ == old(buf)@ + phdr_bytes(load_program_header(program_size)),
        final(buf)@.len() == old(buf)@.len() + 56,
{
    let phdr = ProgramHeader {
        seg_type: 1,
        flags: 7,
        offset: PROGRAM_OFFSET,
        vaddr: VADDR + PROGRAM_OFFSET,
        paddr: VADDR + PROGRAM_OFFSET,
        filesz: program_size,
        memsz: program_size,
        align: 4096,
    };
    phdr.encode(buf);
}

/// Assembles the whole image for the given payload: the two headers,
/// then the payload bytes verbatim.
pub fn create_elf(program: &[u8]) -> (r: Vec<u8>)
    requires
        program@.len() + 120 <= usize::MAX,
    ensures
        r@ == elf_file_bytes(program@),
        r@.len() == 120 + program@.len(),
{
    let mut buf: Vec<u8> = Vec::new();
    set_elf64_hdr(&mut buf);
    let len: usize = program.len();
    set_elf64_phdr(&mut buf, len as u64);
    let mut i: usize = 0;
    while i < len
        invariant
            i <= len,
            len == program@.len(),
            buf@ == ehdr_bytes(exit_file_header())
                + phdr_bytes(load_program_header(len as u64)) + program@.take(i as int),
        decreases len - i,
    {
        buf.push(program[i]);
        i = i + 1;
        assert(buf@ =~= ehdr_bytes(exit_file_header())
            + phdr_bytes(load_program_header(len as u64)) + program@.take(i as int));
    }
    assert(buf@ =~= elf_file_bytes(program@));
    buf
}

/// Builds the complete executable image: exit payload, headers, all in
/// one buffer. Nothing about the construction depends on an input, so
/// it always succeeds and always yields the same bytes.
pub fn create_exit_elf() -> (r: Vec<u8>)
    ensures
        r@ == elf_file_bytes(exit_payload_at(VADDR)),
        r@.len() == 120 + exit_payload_at(VADDR).len(),
{
    let program = create_program();
    create_elf(program.as_slice())
}

// ---------------------------------------------------------------------
// Laws of the layout
// ---------------------------------------------------------------------

/// For every payload length, the segment starts at file offset 120 —
/// right after the two headers — and its file size and memory size both
/// equal the payload length.
pub proof fn lemma_segment_layout(size: u64)
    ensures
        load_program_header(size).offset == 120,
        load_program_header(size).filesz == size,
        load_program_header(size).memsz == size,
{
}

/// The entry point is always `VADDR + 120`, independent of the payload:
/// execution starts at the payload's first byte.
pub proof fn lemma_entry_address()
    ensures
        exit_file_header().entry == VADDR + 120,
        exit_file_header().phoff == 64,
{
}

/// The image is always exactly 120 bytes of headers plus the payload.
pub proof fn lemma_image_length(payload: Seq<u8>)
    ensures
        elf_file_bytes(payload).len() == 120 + payload.len(),
{
}

/// Every produced image is structurally valid, whatever the payload —
/// an empty one too: parsing its first 120 bytes yields exactly
/// the two records the image was built from, and those records agree
/// on the interdependent fields the loader checks — the entry point
/// and the segment's virtual address both sit one header pair past the
/// load base, the program header table follows the file header, and
/// the segment mirrors the payload's length in file and in memory.
pub proof fn lemma_image_well_formed(payload: Seq<u8>)
    requires
        payload.len() <= u64::MAX,
    ensures
        ({
            let h = ehdr_at(elf_file_bytes(payload), 0);
            let p = phdr_at(elf_file_bytes(payload), 64);
            &&& h == exit_file_header()
            &&& p == load_program_header(payload.len() as u64)
            &&& h.entry == VADDR + p.offset
            &&& h.phoff == h.ehsize
            &&& p.offset == h.ehsize + h.phentsize
            &&& p.vaddr == h.entry
            &&& p.filesz == payload.len()
            &&& p.memsz == p.filesz
        }),
{
    crate::layout::lemma_image_round_trip(
        exit_file_header(),
        load_program_header(payload.len() as u64),
        payload,
    );
}

/// The construction is deterministic: two images built from the same
/// payload are byte-for-byte identical.
pub proof fn lemma_deterministic(r1: Seq<u8>, r2: Seq<u8>, payload: Seq<u8>)
    requires
        r1 == elf_file_bytes(payload),
        r2 == elf_file_bytes(payload),
    ensures
        r1 == r2,
{
}

} // verus!
