//! Executes the generated payload under a tiny x86-64 interpreter that
//! understands just the handful of encodings an exit-stub can use, and
//! checks that the first system call it issues is `exit(0)`.

use minimal_elf::codegen::create_program;

/// Interprets `code` until its first `syscall` instruction and returns
/// the system call number and first argument at that point.
fn run_until_syscall(code: &[u8]) -> (u64, u64) {
    let mut rax: u64 = 0;
    let mut rdi: u64 = 0;
    let mut stack: Vec<u64> = Vec::new();
    let mut ip: usize = 0;
    loop {
        assert!(ip < code.len(), "ran off the end of the payload");
        match code[ip] {
            0x6a => {
                // push imm8 (sign-extended)
                let imm = code[ip + 1] as i8 as i64 as u64;
                stack.push(imm);
                ip += 2;
            }
            0x68 => {
                // push imm32 (sign-extended)
                let imm = i32::from_le_bytes(code[ip + 1..ip + 5].try_into().unwrap());
                stack.push(imm as i64 as u64);
                ip += 5;
            }
            0x58 => {
                // pop rax
                rax = stack.pop().expect("pop from an empty stack");
                ip += 1;
            }
            0x5f => {
                // pop rdi
                rdi = stack.pop().expect("pop from an empty stack");
                ip += 1;
            }
            0x31 => {
                // xor r/m32, r32; writing a 32-bit register zeroes the
                // upper half of the 64-bit register
                match code[ip + 1] {
                    0xff => rdi = 0,
                    0xc0 => rax = 0,
                    other => panic!("unexpected xor operand byte {other:#04x}"),
                }
                ip += 2;
            }
            0x48 => {
                // REX.W prefix: xor r/m64, r64
                assert_eq!(0x31, code[ip + 1], "unexpected REX-prefixed opcode");
                match code[ip + 2] {
                    0xff => rdi = 0,
                    0xc0 => rax = 0,
                    other => panic!("unexpected xor operand byte {other:#04x}"),
                }
                ip += 3;
            }
            0xb8 => {
                // mov eax, imm32
                let imm = u32::from_le_bytes(code[ip + 1..ip + 5].try_into().unwrap());
                rax = imm as u64;
                ip += 5;
            }
            0xbf => {
                // mov edi, imm32
                let imm = u32::from_le_bytes(code[ip + 1..ip + 5].try_into().unwrap());
                rdi = imm as u64;
                ip += 5;
            }
            0x0f => {
                // syscall
                assert_eq!(0x05, code[ip + 1], "unexpected two-byte opcode");
                return (rax, rdi);
            }
            other => panic!("unexpected opcode {other:#04x}"),
        }
    }
}

#[test]
fn payload_exits_with_status_zero() {
    let program = create_program();
    let (number, arg0) = run_until_syscall(&program);
    assert_eq!(60, number, "system call number must be exit");
    assert_eq!(0, arg0, "exit status must be zero");
}
