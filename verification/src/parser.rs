//! A standalone entry to the decoder with its own error type, for callers
//! that only parse instruction words and do not run the machine.

use vstd::prelude::*;
use crate::inst::{spec_decode, Instruction};

verus! {

/// Why an instruction word could not be parsed.
#[derive(Clone, Copy, Debug, PartialEq, Eq, Structural)]
pub enum ParserError {
    /// The word matches no defined instruction pattern.
    UnknownInstruction,
}

/// The instruction word starting at byte `2 * k` of a program image: two
/// consecutive bytes big-endian, a missing trailing low byte read as zero.
pub open spec fn spec_rom_word(data: Seq<u8>, k: int) -> u16 {
    (data[2 * k] * 256 + if 2 * k + 1 < data.len() {
        data[2 * k + 1] as int
    } else {
        0int
    }) as u16
}

/// Decodes a whole program image, one entry per 2-byte-aligned word; a
/// word that matches no defined pattern is reported as unknown, and the
/// next word is still decoded.
pub fn parse_rom(data: &Vec<u8>) -> (r: Vec<Result<Instruction, ParserError>>)
    ensures
        2 * r@.len() == data@.len() + (data@.len() % 2),
        forall|k: int|
            0 <= k < r@.len() ==> r@[k] == (match spec_decode(spec_rom_word(data@, k)) {
                Ok(inst) => Ok::<Instruction, ParserError>(inst),
                Err(_) => Err::<Instruction, ParserError>(ParserError::UnknownInstruction),
            }),
{
    let mut r: Vec<Result<Instruction, ParserError>> = Vec::new();
    let n = data.len();
    let words = n / 2 + n % 2;
    let mut k: usize = 0;
    while k < words
        invariant
            k <= words,
            n == data@.len(),
            words == n / 2 + n % 2,
            r@.len() == k,
            forall|j: int|
                0 <= j < r@.len() ==> r@[j] == (match spec_decode(spec_rom_word(data@, j)) {
                    Ok(inst) => Ok::<Instruction, ParserError>(inst),
                    Err(_) => Err::<Instruction, ParserError>(ParserError::UnknownInstruction),
                }),
        decreases words - k,
    {
        assert(2 * k < n);
        let pos = 2 * k;
        let high = data[pos] as u16;
        let low = if pos + 1 < data.len() {
            data[pos + 1] as u16
        } else {
            0u16
        };
        r.push(parse_binary(high * 256 + low));
        k = k + 1;
    }
    r
}

/// Decodes a 16-bit instruction word, reporting any word that matches no
/// defined pattern as unknown.
pub fn parse_binary(i: u16) -> (r: Result<Instruction, ParserError>)
    ensures
        match spec_decode(i) {
            Ok(inst) => r == Ok::<Instruction, ParserError>(inst),
            Err(_) => r == Err::<Instruction, ParserError>(ParserError::UnknownInstruction),
        },
        r matches Ok(inst) ==> inst.wf(),
{
    match Instruction::from_binary(i) {
        Ok(inst) => Ok(inst),
        Err(_) => Err(ParserError::UnknownInstruction),
    }
}

} // verus!
