//! The instruction set: opcode table and instruction decoding.

use vstd::prelude::*;

verus! {

/// The twelve instructions of the processor, each bound to a unique
/// 4-bit code by [`opcode_of`].
#[derive(Copy, Clone, Debug, PartialEq, Eq, Structural)]
pub enum Opcode {
    /// `0000`: A <- (A + Im) mod 16, carry set on overflow.
    AddA,
    /// `0101`: B <- (B + Im) mod 16, carry set on overflow.
    AddB,
    /// `0011`: A <- Im, carry cleared.
    MovA,
    /// `0111`: B <- Im, carry cleared.
    MovB,
    /// `0001`: A <- B, carry cleared.
    MovAB,
    /// `0100`: B <- A, carry cleared.
    MovBA,
    /// `1111`: pc <- Im, carry cleared.
    Jmp,
    /// `1110`: pc <- Im if carry is 0; carry cleared unconditionally.
    Jnc,
    /// `0010`: A <- input latch, carry cleared.
    InA,
    /// `0110`: B <- input latch, carry cleared.
    InB,
    /// `1011`: output latch <- Im, carry cleared.
    Out,
    /// `1001`: output latch <- B, carry cleared.
    OutB,
}

/// Decoding failure: the high nibble of the fetched byte matches no
/// entry of the opcode table. The offending 4-bit value is attached.
#[derive(Copy, Clone, Debug, PartialEq, Eq, Structural)]
pub enum DecodeError {
    UnsupportedOpcode(u8),
}

/// The opcode table: which instruction, if any, a 4-bit code names.
/// Codes 8, 10, 12 and 13 (and anything above 15) name none.
pub open spec fn opcode_of(bits: u8) -> Option<Opcode> {
    if bits == 0b0000 {
        Some(Opcode::AddA)
    } else if bits == 0b0101 {
        Some(Opcode::AddB)
    } else if bits == 0b0011 {
        Some(Opcode::MovA)
    } else if bits == 0b0111 {
        Some(Opcode::MovB)
    } else if bits == 0b0001 {
        Some(Opcode::MovAB)
    } else if bits == 0b0100 {
        Some(Opcode::MovBA)
    } else if bits == 0b1111 {
        Some(Opcode::Jmp)
    } else if bits == 0b1110 {
        Some(Opcode::Jnc)
    } else if bits == 0b0010 {
        Some(Opcode::InA)
    } else if bits == 0b0110 {
        Some(Opcode::InB)
    } else if bits == 0b1011 {
        Some(Opcode::Out)
    } else if bits == 0b1001 {
        Some(Opcode::OutB)
    } else {
        None
    }
}

/// What decoding an instruction byte yields: the opcode named by the high
/// nibble together with the low nibble as immediate, or the unsupported
/// high nibble as an error.
pub open spec fn spec_decode(code: u8) -> Result<(Opcode, u8), DecodeError> {
    match opcode_of(code >> 4) {
        Some(op) => Ok((op, code & 0x0f)),
        None => Err(DecodeError::UnsupportedOpcode(code >> 4)),
    }
}

impl Opcode {
    /// Resolves a 4-bit code against the opcode table.
    pub fn from_bits(bits: u8) -> (r: Option<Opcode>)
        ensures
            r == opcode_of(bits),
    {
        match bits {
            0b0000 => Some(Opcode::AddA),
            0b0101 => Some(Opcode::AddB),
            0b0011 => Some(Opcode::MovA),
            0b0111 => Some(Opcode::MovB),
            0b0001 => Some(Opcode::MovAB),
            0b0100 => Some(Opcode::MovBA),
            0b1111 => Some(Opcode::Jmp),
            0b1110 => Some(Opcode::Jnc),
            0b0010 => Some(Opcode::InA),
            0b0110 => Some(Opcode::InB),
            0b1011 => Some(Opcode::Out),
            0b1001 => Some(Opcode::OutB),
            _ => None,
        }
    }
}

/// Splits an instruction byte into opcode and 4-bit immediate.
///
/// The high nibble is resolved against the opcode table; an unlisted
/// code is reported as `UnsupportedOpcode` carrying that nibble.
pub fn decode(code: u8) -> (r: Result<(Opcode, u8), DecodeError>)
    ensures
        r == spec_decode(code),
        r matches Ok(p) ==> p.1 == code & 0x0f && p.1 <= 0x0f,
        r is Err <==> opcode_of(code >> 4) is None,
{
    let op_bits: u8 = code >> 4;
    let im: u8 = code & 0x0f;
    proof {
        assert(code & 0x0f <= 0x0f) by (bit_vector);
    }
    match Opcode::from_bits(op_bits) {
        Some(op) => Ok((op, im)),
        None => Err(DecodeError::UnsupportedOpcode(op_bits)),
    }
}

/// The opcode table is total over exactly twelve of the sixteen 4-bit
/// codes: resolution fails precisely on 8, 10, 12 and 13. Together with
/// the contract of [`decode`], this pins down decoding for every byte:
/// it returns the table's opcode and `code & 0x0f`, or fails with
/// `UnsupportedOpcode(code >> 4)` exactly when the high nibble is one of
/// those four codes.
pub proof fn lemma_decode_classifies(code: u8)
    ensures
        opcode_of(code >> 4) is None <==> (code >> 4 == 8 || code >> 4 == 10 || code >> 4 == 12
            || code >> 4 == 13),
{
    assert(code >> 4 <= 0x0f) by (bit_vector);
}

} // verus!
