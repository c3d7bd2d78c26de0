//! What the guest programs do: a small model of the instructions they use,
//! and the programs' behaviour under it.

use vstd::prelude::*;
use crate::loader::{
    boot_image, guest_code_spec, guest_message_bytes, lemma_boot_image_entries, mov_dx_com1,
    out_bytes_code, CODE_ADDR, COM1_PORT,
};

verus! {

/// Target of a `jmp rel8` at `pc` with displacement byte `rel`.
pub open spec fn jump_target(pc: int, rel: u8) -> int {
    pc + 2 + if rel < 128 {
        rel as int
    } else {
        rel - 256
    }
}

/// Runs guest `code` from byte offset `pc` with registers `dx` and `al` for
/// at most `fuel` instructions, the port reads answered from `input` in
/// order. The result is the `(port, byte)` writes, the ports read, and
/// whether the program executed `hlt`. A run stops without halting when the
/// fuel is spent or when an `in` finds `input` exhausted (the guest waits
/// for input). `None` when the program leaves `code` or meets an instruction
/// outside `mov dx, imm16` / `mov al, imm8` / `in al, dx` / `out dx, al` /
/// `jmp rel8` / `hlt`.
pub open spec fn guest_run(code: Seq<u8>, pc: int, dx: u16, al: u8, input: Seq<u8>, fuel: nat) -> Option<
    (Seq<(u16, u8)>, Seq<u16>, bool),
>
    decreases fuel,
{
    if pc < 0 || pc >= code.len() {
        None
    } else if fuel == 0 {
        Some((seq![], seq![], false))
    } else if code[pc] == 0xF4 {
        Some((seq![], seq![], true))
    } else if code[pc] == 0xEE {
        match guest_run(code, pc + 1, dx, al, input, (fuel - 1) as nat) {
            Some((w, r, h)) => Some((seq![(dx, al)] + w, r, h)),
            None => None,
        }
    } else if code[pc] == 0xEC {
        if input.len() == 0 {
            Some((seq![], seq![], false))
        } else {
            match guest_run(code, pc + 1, dx, input[0], input.drop_first(), (fuel - 1) as nat) {
                Some((w, r, h)) => Some((w, seq![dx] + r, h)),
                None => None,
            }
        }
    } else if code[pc] == 0xB0 && pc + 1 < code.len() {
        guest_run(code, pc + 2, dx, code[pc + 1], input, (fuel - 1) as nat)
    } else if code[pc] == 0x66 && pc + 3 < code.len() && code[pc + 1] == 0xBA {
        guest_run(code, pc + 4, (code[pc + 2] + 256 * code[pc + 3]) as u16, al, input, (fuel - 1) as nat)
    } else if code[pc] == 0xEB && pc + 1 < code.len() {
        guest_run(code, jump_target(pc, code[pc + 1]), dx, al, input, (fuel - 1) as nat)
    } else {
        None
    }
}

/// Each byte of `msg` written to COM1, in order.
pub open spec fn com1_writes(msg: Seq<u8>) -> Seq<(u16, u8)> {
    Seq::new(msg.len(), |i: int| (COM1_PORT, msg[i]))
}

/// `n` reads from COM1.
pub open spec fn com1_reads(n: nat) -> Seq<u16> {
    Seq::new(n, |i: int| COM1_PORT)
}

proof fn lemma_guest_code_loop(msg: Seq<u8>, k: int, al: u8, input: Seq<u8>)
    requires
        0 <= k <= msg.len(),
    ensures
        guest_run(guest_code_spec(msg), 4 + 3 * k, COM1_PORT, al, input, (2 * (msg.len() - k) + 1) as nat)
            == Some((com1_writes(msg.subrange(k, msg.len() as int)), Seq::<u16>::empty(), true)),
    decreases msg.len() - k,
{
    let code = guest_code_spec(msg);
    assert(code.len() == 3 * msg.len() + 5);
    if k == msg.len() {
        assert(code[4 + 3 * k] == 0xF4);
        assert(com1_writes(msg.subrange(k, msg.len() as int)) =~= seq![]);
    } else {
        let pc = 4 + 3 * k;
        assert(code[pc] == out_bytes_code(msg)[3 * k]);
        assert((3 * k) % 3 == 0);
        assert(code[pc] == 0xB0);
        assert((3 * k + 1) % 3 == 1 && (3 * k + 1) / 3 == k);
        assert(code[pc + 1] == msg[k]);
        assert((3 * k + 2) % 3 == 2);
        assert(code[pc + 2] == 0xEE);
        lemma_guest_code_loop(msg, k + 1, msg[k], input);
        let f = (2 * (msg.len() - k) + 1) as nat;
        assert(guest_run(code, pc, COM1_PORT, al, input, f)
            == guest_run(code, pc + 2, COM1_PORT, msg[k], input, (f - 1) as nat));
        assert(com1_writes(msg.subrange(k, msg.len() as int)) =~= seq![(COM1_PORT, msg[k])]
            + com1_writes(msg.subrange(k + 1, msg.len() as int)));
    }
}

/// The printing program, run from its first byte, writes every byte of
/// `msg` to COM1 in order, reads nothing, and halts.
pub proof fn lemma_guest_code_prints(msg: Seq<u8>, dx: u16, al: u8, input: Seq<u8>)
    ensures
        guest_run(guest_code_spec(msg), 0, dx, al, input, (2 * msg.len() + 2) as nat)
            == Some((com1_writes(msg), Seq::<u16>::empty(), true)),
{
    let code = guest_code_spec(msg);
    assert(code[0] == 0x66 && code[1] == 0xBA && code[2] == 0xF8 && code[3] == 0x03);
    assert((code[2] + 256 * code[3]) as u16 == COM1_PORT);
    lemma_guest_code_loop(msg, 0, al, input);
    assert(msg.subrange(0, msg.len() as int) =~= msg);
}

/// The code that `load` places at `CODE_ADDR`, run from its first byte,
/// writes `GUEST_MESSAGE` to COM1 byte by byte and halts.
pub proof fn lemma_loaded_guest_prints_message(mem: Seq<u8>, dx: u16, al: u8, input: Seq<u8>)
    requires
        CODE_ADDR + guest_code_spec(guest_message_bytes()).len() <= mem.len(),
    ensures
        ({
            let code = guest_code_spec(guest_message_bytes());
            let img = boot_image(mem, code);
            guest_run(img.subrange(CODE_ADDR as int, CODE_ADDR + code.len()), 0, dx, al, input,
                (2 * guest_message_bytes().len() + 2) as nat)
                == Some((com1_writes(guest_message_bytes()), Seq::<u16>::empty(), true))
        }),
{
    let code = guest_code_spec(guest_message_bytes());
    lemma_boot_image_entries(mem, code);
    lemma_guest_code_prints(guest_message_bytes(), dx, al, input);
}

/// The echo program: `mov dx, 0x3f8`, then forever `in al, dx; out dx, al`.
pub open spec fn echo_code_spec() -> Seq<u8> {
    mov_dx_com1() + seq![0xECu8, 0xEEu8, 0xEBu8, 0xFCu8]
}

/// Builds the echo program, which writes back to COM1 every byte it reads
/// from COM1.
pub fn echo_code() -> (code: Vec<u8>)
    ensures
        code@ == echo_code_spec(),
{
    let mut code: Vec<u8> = Vec::new();
    // mov dx, 0x3f8
    code.push(0x66);
    code.push(0xBA);
    code.push(0xF8);
    code.push(0x03);
    // loop: in al, dx
    code.push(0xEC);
    // out dx, al
    code.push(0xEE);
    // jmp loop
    code.push(0xEB);
    code.push(0xFC);
    assert(code@ =~= echo_code_spec());
    code
}

/// The echo program, run from its first byte on any `input`, reads each
/// input byte from COM1 and writes it back to COM1, in order; it never
/// halts, and once the input is used up it waits for more.
pub proof fn lemma_echo_code_echoes(input: Seq<u8>, dx: u16, al: u8)
    ensures
        guest_run(echo_code_spec(), 0, dx, al, input, (3 * input.len() + 2) as nat)
            == Some((com1_writes(input), com1_reads(input.len()), false)),
{
    let code = echo_code_spec();
    assert(code[0] == 0x66 && code[1] == 0xBA && code[2] == 0xF8 && code[3] == 0x03);
    assert((code[2] + 256 * code[3]) as u16 == COM1_PORT);
    lemma_echo_waits(input, al);
}

/// From the loop head with `input` and fuel to spare beyond it, the echo
/// program echoes all of `input` and then waits at its next `in`.
proof fn lemma_echo_waits(input: Seq<u8>, al: u8)
    ensures
        guest_run(echo_code_spec(), 4, COM1_PORT, al, input, (3 * input.len() + 1) as nat)
            == Some((com1_writes(input), com1_reads(input.len()), false)),
    decreases input.len(),
{
    let code = echo_code_spec();
    if input.len() == 0 {
        assert(com1_writes(input) =~= seq![]);
        assert(com1_reads(0) =~= seq![]);
    } else {
        let rest = input.drop_first();
        lemma_echo_waits(rest, input[0]);
        assert(code[4] == 0xEC && code[5] == 0xEE && code[6] == 0xEB && code[7] == 0xFC);
        assert(jump_target(6, 0xFC) == 4);
        let f = (3 * input.len() + 1) as nat;
        let tail = guest_run(code, 4, COM1_PORT, input[0], rest, (f - 3) as nat);
        assert(guest_run(code, 6, COM1_PORT, input[0], rest, (f - 2) as nat) == tail);
        let (w, r, h) = tail.unwrap();
        assert(guest_run(code, 5, COM1_PORT, input[0], rest, (f - 1) as nat)
            == Some((seq![(COM1_PORT, input[0])] + w, r, h)));
        assert(input.drop_first() == rest);
        assert(guest_run(code, 4, COM1_PORT, al, input, f)
            == Some((seq![(COM1_PORT, input[0])] + w, seq![COM1_PORT] + r, h)));
        assert(com1_writes(input) =~= seq![(COM1_PORT, input[0])] + com1_writes(rest));
        assert(com1_reads(input.len()) =~= seq![COM1_PORT] + com1_reads(rest.len()));
    }
}

} // verus!
