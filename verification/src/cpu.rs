//! Processor state and the fetch-decode-execute cycle.

use crate::isa::DecodeError;
use crate::isa::Opcode;
use crate::isa::spec_decode;
use vstd::prelude::*;

verus! {

/// The processor's registers: program counter, the accumulators A and B,
/// and the carry flag (stored as 0 or 1).
#[derive(Copy, Clone, Debug, PartialEq, Eq, Structural)]
pub struct Register {
    pub pc: u8,
    pub a: u8,
    pub b: u8,
    pub c: u8,
}

/// The single I/O port: an input latch the core only reads, and an
/// output latch the core only writes.
#[derive(Copy, Clone, Debug, PartialEq, Eq, Structural)]
pub struct Port {
    pub i: u8,
    pub o: u8,
}

/// Instruction memory: an immutable byte sequence addressed by the
/// program counter.
pub struct Rom {
    pub vec: Vec<u8>,
}

impl Register {
    /// The register-file invariant: the accumulators hold 4-bit values
    /// and the carry flag is a single bit. Every instruction handler
    /// preserves it.
    pub open spec fn wf(self) -> bool {
        self.a <= 0x0f && self.b <= 0x0f && self.c <= 1
    }
}

impl Port {
    /// The input latch holds a 4-bit value, as the accumulators it is
    /// read into do.
    pub open spec fn wf(self) -> bool {
        self.i <= 0x0f
    }
}

/// The program counter after an advance: one more, wrapping at the
/// 8-bit boundary.
pub open spec fn wrap_inc(pc: u8) -> u8 {
    if pc == 0xff {
        0
    } else {
        (pc + 1) as u8
    }
}

/// What a fetch yields: the byte read and the register file afterwards.
///
/// The bounds policy is deliberately lopsided, and kept so: only
/// `rom.len() < pc` returns the sentinel 0 without advancing. At
/// `pc == rom.len()`, one past the last valid index, the read degrades
/// to 0 but the counter still advances.
pub open spec fn fetch_result(reg: Register, rom: Seq<u8>) -> (u8, Register) {
    if rom.len() < reg.pc as int {
        (0, reg)
    } else {
        let code = if (reg.pc as int) < rom.len() {
            rom[reg.pc as int]
        } else {
            0
        };
        (code, Register { pc: wrap_inc(reg.pc), ..reg })
    }
}

/// Reads the byte at the program counter and advances the counter.
///
/// Out-of-range counters degrade to a sentinel value of 0 instead of
/// failing; see [`fetch_result`] for the exact boundary behaviour.
pub fn fetch(register: &mut Register, rom: Rom) -> (code: u8)
    ensures
        (code, *final(register)) == fetch_result(*old(register), rom.vec@),
{
    let pc: usize = register.pc as usize;
    if rom.vec.len() < pc {
        return 0;
    }
    let code: u8 = if pc < rom.vec.len() {
        rom.vec[pc]
    } else {
        0
    };
    register.pc = if register.pc == 0xff {
        0
    } else {
        register.pc + 1
    };
    code
}

/// 4-bit addition: the sum truncated to its low nibble.
pub open spec fn add4(x: u8, y: u8) -> u8 {
    ((x + y) as u8) & 0x0f
}

/// The carry flag after an addition: set when the untruncated sum
/// exceeds 15, otherwise left as it was. Addition never clears carry.
pub open spec fn add_carry(x: u8, y: u8, c: u8) -> u8 {
    if x + y > 0x0f {
        1u8
    } else {
        c
    }
}

/// The semantics of one decoded instruction: the register file and port
/// after executing `op` with immediate `im` on `reg` and `port`.
pub open spec fn exec_op(op: Opcode, im: u8, reg: Register, port: Port) -> (Register, Port) {
    match op {
        Opcode::AddA => (
            Register { a: add4(reg.a, im), c: add_carry(reg.a, im, reg.c), ..reg },
            port,
        ),
        Opcode::AddB => (
            Register { b: add4(reg.b, im), c: add_carry(reg.b, im, reg.c), ..reg },
            port,
        ),
        Opcode::MovA => (Register { a: im, c: 0, ..reg }, port),
        Opcode::MovB => (Register { b: im, c: 0, ..reg }, port),
        Opcode::MovAB => (Register { a: reg.b, c: 0, ..reg }, port),
        Opcode::MovBA => (Register { b: reg.a, c: 0, ..reg }, port),
        Opcode::Jmp => (Register { pc: im, c: 0, ..reg }, port),
        Opcode::Jnc => (
            Register { pc: if reg.c == 0 { im } else { reg.pc }, c: 0, ..reg },
            port,
        ),
        Opcode::InA => (Register { a: port.i, c: 0, ..reg }, port),
        Opcode::InB => (Register { b: port.i, c: 0, ..reg }, port),
        Opcode::Out => (Register { c: 0, ..reg }, Port { o: im, ..port }),
        Opcode::OutB => (Register { c: 0, ..reg }, Port { o: reg.b, ..port }),
    }
}

/// Truncating to the low nibble is reduction mod 16.
pub proof fn lemma_add4_mod(x: u8, y: u8)
    requires
        x <= 0x0f,
        y <= 0x0f,
    ensures
        add4(x, y) == (x + y) % 16,
        add4(x, y) <= 0x0f,
{
    assert(x <= 0x0f && y <= 0x0f ==> ((x + y) as u8) & 0x0f == (x + y) % 16
        && ((x + y) as u8) & 0x0f <= 0x0f) by (bit_vector);
}

/// Shared tail of the two arithmetic instructions: adds two 4-bit
/// values, sets the carry flag on overflow of the nibble (and only
/// then), and returns the truncated sum.
pub fn add(register: &mut Register, l: u8, m: u8) -> (r: u8)
    requires
        l <= 0x0f,
        m <= 0x0f,
    ensures
        r == add4(l, m),
        r <= 0x0f,
        final(register).c == add_carry(l, m, old(register).c),
        final(register).a == old(register).a,
        final(register).b == old(register).b,
        final(register).pc == old(register).pc,
{
    let n: u8 = l + m;
    if n > 0x0f {
        register.c = 1;
    }
    proof {
        lemma_add4_mod(l, m);
    }
    n & 0x0f
}

/// ADD A, Im: A gets the truncated sum; carry set on nibble overflow,
/// untouched otherwise.
pub fn add_a(register: &mut Register, im: u8)
    requires
        old(register).a <= 0x0f,
        im <= 0x0f,
    ensures
        final(register).a == add4(old(register).a, im),
        final(register).c == add_carry(old(register).a, im, old(register).c),
        final(register).b == old(register).b,
        final(register).pc == old(register).pc,
{
    let l: u8 = register.a;
    register.a = crate::cpu::add(register, l, im);
}

/// ADD B, Im: B gets the truncated sum; carry set on nibble overflow,
/// untouched otherwise.
pub fn add_b(register: &mut Register, im: u8)
    requires
        old(register).b <= 0x0f,
        im <= 0x0f,
    ensures
        final(register).b == add4(old(register).b, im),
        final(register).c == add_carry(old(register).b, im, old(register).c),
        final(register).a == old(register).a,
        final(register).pc == old(register).pc,
{
    let l: u8 = register.b;
    register.b = crate::cpu::add(register, l, im);
}

/// MOV A, Im: carry cleared.
pub fn mov_a(register: &mut Register, im: u8)
    ensures
        *final(register) == (Register { a: im, c: 0, ..*old(register) }),
{
    register.a = im;
    register.c = 0;
}

/// MOV B, Im: carry cleared.
pub fn mov_b(register: &mut Register, im: u8)
    ensures
        *final(register) == (Register { b: im, c: 0, ..*old(register) }),
{
    register.b = im;
    register.c = 0;
}

/// MOV A, B: carry cleared.
pub fn mov_ab(register: &mut Register)
    ensures
        *final(register) == (Register { a: old(register).b, c: 0, ..*old(register) }),
{
    register.a = register.b;
    register.c = 0;
}

/// MOV B, A: carry cleared.
pub fn mov_ba(register: &mut Register)
    ensures
        *final(register) == (Register { b: old(register).a, c: 0, ..*old(register) }),
{
    register.b = register.a;
    register.c = 0;
}

/// JMP Im: unconditional jump; carry cleared.
pub fn jmp(register: &mut Register, im: u8)
    ensures
        *final(register) == (Register { pc: im, c: 0, ..*old(register) }),
{
    register.pc = im;
    register.c = 0;
}

/// JNC Im: jump taken only when carry is 0; carry cleared either way.
pub fn jmc(register: &mut Register, im: u8)
    ensures
        old(register).c == 0 ==> final(register).pc == im,
        old(register).c != 0 ==> final(register).pc == old(register).pc,
        final(register).c == 0,
        final(register).a == old(register).a,
        final(register).b == old(register).b,
{
    if register.c == 0 {
        register.pc = im;
    }
    register.c = 0;
}

/// IN A: A gets the input latch; carry cleared.
pub fn in_a(register: &mut Register, port: &mut Port)
    ensures
        (*final(register), *final(port)) == exec_op(Opcode::InA, 0, *old(register), *old(port)),
{
    register.a = port.i;
    register.c = 0;
}

/// IN B: B gets the input latch; carry cleared.
pub fn in_b(register: &mut Register, port: &mut Port)
    ensures
        (*final(register), *final(port)) == exec_op(Opcode::InB, 0, *old(register), *old(port)),
{
    register.b = port.i;
    register.c = 0;
}

/// OUT Im: the output latch gets the immediate; carry cleared.
pub fn out(register: &mut Register, port: &mut Port, im: u8)
    ensures
        (*final(register), *final(port)) == exec_op(Opcode::Out, im, *old(register), *old(port)),
{
    port.o = im;
    register.c = 0;
}

/// OUT B: the output latch gets B; carry cleared.
pub fn out_b(register: &mut Register, port: &mut Port)
    ensures
        (*final(register), *final(port)) == exec_op(Opcode::OutB, 0, *old(register), *old(port)),
{
    port.o = register.b;
    register.c = 0;
}

/// One whole instruction cycle: fetch, decode, execute. Yields the
/// decode outcome and the register file and port afterwards. On a
/// decode failure the fetch has still happened: the counter stands
/// advanced (unless the fetch itself was out of range) and nothing else
/// changes.
pub open spec fn cycle(reg: Register, port: Port, rom: Seq<u8>) -> (Result<
    (),
    DecodeError,
>, Register, Port) {
    let fetched = fetch_result(reg, rom);
    let code = fetched.0;
    let reg1 = fetched.1;
    match spec_decode(code) {
        Ok(p) => {
            let stepped = exec_op(p.0, p.1, reg1, port);
            (Ok(()), stepped.0, stepped.1)
        },
        Err(e) => (Err(e), reg1, port),
    }
}

/// Executing any instruction preserves the register-file invariant,
/// provided the immediate and the input latch are 4-bit values.
pub proof fn lemma_exec_op_wf(op: Opcode, im: u8, reg: Register, port: Port)
    requires
        reg.wf(),
        port.wf(),
        im <= 0x0f,
    ensures
        exec_op(op, im, reg, port).0.wf(),
{
    match op {
        Opcode::AddA => lemma_add4_mod(reg.a, im),
        Opcode::AddB => lemma_add4_mod(reg.b, im),
        _ => (),
    }
}

/// Every instruction but the two additions clears the carry flag,
/// whatever it was before — the conditional jump included, whether or
/// not its branch is taken.
pub proof fn lemma_non_arith_clears_carry(op: Opcode, im: u8, reg: Register, port: Port)
    requires
        op != Opcode::AddA,
        op != Opcode::AddB,
    ensures
        exec_op(op, im, reg, port).0.c == 0,
{
}

/// The two additions never clear the carry flag: they set it on nibble
/// overflow and leave it alone otherwise.
pub proof fn lemma_arith_only_sets_carry(op: Opcode, im: u8, reg: Register, port: Port)
    requires
        op == Opcode::AddA || op == Opcode::AddB,
    ensures
        exec_op(op, im, reg, port).0.c == 1 || exec_op(op, im, reg, port).0.c == reg.c,
{
}

/// A fetch with the counter one past the last valid index reads the
/// sentinel 0 — and still advances the counter, since only
/// `rom.len() < pc` is guarded against.
pub proof fn lemma_fetch_one_past_end(reg: Register, rom: Seq<u8>)
    requires
        reg.pc as int == rom.len(),
    ensures
        fetch_result(reg, rom).0 == 0,
        fetch_result(reg, rom).1.pc == wrap_inc(reg.pc),
{
}

/// Performs one instruction cycle: one fetch, one decode, one dispatch
/// to the matching instruction handler.
///
/// The caller observes the results through the register file and port
/// it passed in; the relation to their prior values is exactly
/// [`cycle`]. A byte whose high nibble matches no opcode is reported as
/// `UnsupportedOpcode`; the fetch's advance of the program counter has
/// happened by then.
pub fn execute(register: &mut Register, port: &mut Port, rom: Rom) -> (r: Result<(), DecodeError>)
    requires
        old(register).wf(),
        old(port).wf(),
    ensures
        (r, *final(register), *final(port)) == cycle(*old(register), *old(port), rom.vec@),
        final(register).wf(),
        final(port).i == old(port).i,
{
    let code: u8 = fetch(register, rom);
    let (op, im) = match crate::isa::decode(code) {
        Ok(p) => p,
        Err(e) => {
            return Err(e);
        },
    };
    proof {
        lemma_exec_op_wf(op, im, *register, *port);
    }
    match op {
        Opcode::AddA => add_a(register, im),
        Opcode::AddB => add_b(register, im),
        Opcode::MovA => mov_a(register, im),
        Opcode::MovB => mov_b(register, im),
        Opcode::MovAB => mov_ab(register),
        Opcode::MovBA => mov_ba(register),
        Opcode::Jmp => jmp(register, im),
        Opcode::Jnc => jmc(register, im),
        Opcode::InA => in_a(register, port),
        Opcode::InB => in_b(register, port),
        Opcode::Out => out(register, port, im),
        Opcode::OutB => out_b(register, port),
    };
    Ok(())
}

} // verus!
