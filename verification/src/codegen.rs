//! Generator of the payload machine code.
//!
//! The payload is the fixed x86-64 instruction sequence
//! `push 60; pop rax; xor edi, edi; syscall`: it puts the `exit` system
//! call number in `rax`, a zero exit status in `edi`, and traps into
//! the kernel. The instruction encoding itself is done by the
//! `iced_x86` assembler.

use vstd::prelude::*;

use crate::elf::VADDR;

verus! {

#[verifier::external_type_specification]
#[verifier::external_body]
pub struct ExIcedError(iced_x86::IcedError);

/// The machine code that assembling the fixed exit sequence at a given
/// base address yields. The sequence holds no address-relative operand,
/// so the bytes are a function of the base address alone.
pub uninterp spec fn exit_payload_at(base: u64) -> Seq<u8>;

/// Relies on iced_x86's `CodeAssembler` (`new`, `push`, `pop`, `xor`,
/// `syscall`, `assemble`): the body assembles the fixed instruction
/// sequence `push 60; pop rax; xor edi, edi; syscall` at `base`, and
/// nothing but `base` varies between calls. `new` accepts bitness 64;
/// the four instructions are valid and carry no label and no
/// address-relative operand, so `assemble` succeeds for every `base`
/// and encodes them in 2 + 1 + 2 + 2 = 7 bytes.
#[verifier::external_body]
fn assemble_exit_code(base: u64) -> (r: Result<Vec<u8>, iced_x86::IcedError>)
    ensures
        r is Ok,
        r matches Ok(v) ==> v@ == exit_payload_at(base) && v@.len() == 7,
{
    let mut a = iced_x86::code_asm::CodeAssembler::new(64)?;
    a.push(60)?;
    a.pop(iced_x86::code_asm::rax)?;
    a.xor(iced_x86::code_asm::edi, iced_x86::code_asm::edi)?;
    a.syscall()?;
    a.assemble(base)
}

/// Produces the payload machine code for an image loaded at `VADDR`:
/// the seven bytes that perform the exit system call with status zero.
/// The assembler accepts the fixed sequence, so construction cannot
/// fail.
pub fn create_program() -> (r: Vec<u8>)
    ensures
        r@ == exit_payload_at(VADDR),
        r@.len() == 7,
{
    match assemble_exit_code(VADDR) {
        Ok(v) => v,
        Err(_) => unreached(),
    }
}

} // verus!
