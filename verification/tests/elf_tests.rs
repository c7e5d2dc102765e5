use minimal_elf::codegen::create_program;
use minimal_elf::elf::create_elf;
use minimal_elf::elf::create_exit_elf;
use minimal_elf::elf::set_ident;
use minimal_elf::elf::VADDR;
use minimal_elf::layout::ElfHeader;
use minimal_elf::layout::ElfIdent;
use minimal_elf::layout::ProgramHeader;

#[test]
fn ident_size_ok() {
    let mut buf: Vec<u8> = Vec::new();
    set_ident(&mut buf);
    assert_eq!(16, buf.len());
}

#[test]
fn lib_test_create_program() {
    let program = create_program();
    assert_eq!(7, program.len());
}

#[test]
fn main_test_create_program() {
    let program = create_program();
    assert_eq!(7, program.len());
}

#[test]
fn ident_block_magic() {
    let mut buf: Vec<u8> = Vec::new();
    set_ident(&mut buf);
    assert_eq!(&buf[0..4], &[0x7f, 0x45, 0x4c, 0x46]);
    assert_eq!(&buf[9..16], &[0, 0, 0, 0, 0, 0, 0]);
}

#[test]
fn header_sizes_fixed() {
    let mut buf: Vec<u8> = Vec::new();
    let hdr = ElfHeader {
        ident: ElfIdent { class: 2, data: 1, version: 1, os_abi: 0, abi_version: 0 },
        file_type: 2,
        machine: 62,
        version: 1,
        entry: 0x400078,
        phoff: 64,
        shoff: 0,
        flags: 0,
        ehsize: 64,
        phentsize: 56,
        phnum: 1,
        shentsize: 0,
        shnum: 0,
        shstrndx: 0,
    };
    hdr.encode(&mut buf);
    assert_eq!(64, buf.len());
    let phdr = ProgramHeader {
        seg_type: 1,
        flags: 7,
        offset: 120,
        vaddr: 0x400078,
        paddr: 0x400078,
        filesz: 9,
        memsz: 9,
        align: 4096,
    };
    let mut pbuf: Vec<u8> = Vec::new();
    phdr.encode(&mut pbuf);
    assert_eq!(56, pbuf.len());
}

#[test]
fn segment_layout_tracks_payload_length() {
    let payload = vec![0x90u8; 33];
    let image = create_elf(&payload);
    let phdr = ProgramHeader::decode(&image, 64);
    assert_eq!(120, phdr.offset);
    assert_eq!(33, phdr.filesz);
    assert_eq!(33, phdr.memsz);
    assert_eq!(1, phdr.seg_type);
    assert_eq!(7, phdr.flags);
    assert_eq!(4096, phdr.align);
    assert_eq!(VADDR + 120, phdr.vaddr);
    assert_eq!(VADDR + 120, phdr.paddr);
}

#[test]
fn entry_follows_the_headers() {
    let image = create_elf(&[1, 2, 3]);
    let hdr = ElfHeader::decode(&image, 0);
    assert_eq!(VADDR + 120, hdr.entry);
    assert_eq!(64, hdr.phoff);
}

#[test]
fn round_trip_of_produced_image() {
    let payload = vec![0xccu8; 5];
    let image = create_elf(&payload);
    let hdr = ElfHeader::decode(&image, 0);
    assert_eq!(
        hdr,
        ElfHeader {
            ident: ElfIdent { class: 2, data: 1, version: 1, os_abi: 0, abi_version: 0 },
            file_type: 2,
            machine: 62,
            version: 1,
            entry: VADDR + 120,
            phoff: 64,
            shoff: 0,
            flags: 0,
            ehsize: 64,
            phentsize: 56,
            phnum: 1,
            shentsize: 0,
            shnum: 0,
            shstrndx: 0,
        }
    );
    let phdr = ProgramHeader::decode(&image, 64);
    assert_eq!(
        phdr,
        ProgramHeader {
            seg_type: 1,
            flags: 7,
            offset: 120,
            vaddr: VADDR + 120,
            paddr: VADDR + 120,
            filesz: 5,
            memsz: 5,
            align: 4096,
        }
    );
    let mut again: Vec<u8> = Vec::new();
    hdr.encode(&mut again);
    phdr.encode(&mut again);
    assert_eq!(&image[0..120], &again[..]);
}

#[test]
fn image_length_is_headers_plus_payload() {
    let payload = vec![0u8; 11];
    let image = create_elf(&payload);
    assert_eq!(120 + 11, image.len());
    assert_eq!(&image[120..], &payload[..]);
}

#[test]
fn repeated_builds_are_identical() {
    let first = create_exit_elf();
    let second = create_exit_elf();
    assert_eq!(first, second);
}

#[test]
fn empty_payload_is_still_a_valid_image() {
    let image = create_elf(&[]);
    assert_eq!(120, image.len());
    assert_eq!(&image[0..4], &[0x7f, 0x45, 0x4c, 0x46]);
    let hdr = ElfHeader::decode(&image, 0);
    assert_eq!(2, hdr.file_type);
    assert_eq!(62, hdr.machine);
    assert_eq!(VADDR + 120, hdr.entry);
    let phdr = ProgramHeader::decode(&image, 64);
    assert_eq!(120, phdr.offset);
    assert_eq!(0, phdr.filesz);
    assert_eq!(0, phdr.memsz);
}

#[test]
fn full_image_carries_the_payload() {
    let image = create_exit_elf();
    let program = create_program();
    assert_eq!(120 + program.len(), image.len());
    assert_eq!(&image[120..], &program[..]);
    let hdr = ElfHeader::decode(&image, 0);
    assert_eq!(VADDR + 120, hdr.entry);
    let phdr = ProgramHeader::decode(&image, 64);
    assert_eq!(program.len() as u64, phdr.filesz);
}
