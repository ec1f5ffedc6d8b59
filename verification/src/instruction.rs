//! The instruction word: how its sixteen bits split into an opcode and an
//! argument, which opcodes name an operation, and how an argument packs two
//! register positions.

use crate::fault::Fault;
use crate::register::Register;
use vstd::prelude::*;

verus! {

/// The opcode (high byte) and the argument (low byte) of a word.
pub open spec fn spec_decode(word: u16) -> (u8, u8) {
    ((word >> 8) as u8, (word & 0xFF) as u8)
}

/// Splits a word into its opcode and its argument. Every word decodes.
pub fn decode(word: u16) -> (result: (u8, u8))
    ensures
        result == spec_decode(word),
        result.0 as u16 == word >> 8,
        result.1 as u16 == word & 0xFF,
        word == result.0 * 256 + result.1,
{
    let high: u16 = word >> 8;
    let low: u16 = word & 0xFF;
    assert(high < 256 && low < 256 && word == high * 256 + low) by (bit_vector)
        requires
            high == word >> 8,
            low == word & 0xFF,
    ;
    (high as u8, low as u8)
}

/// How an operation reads its argument byte.
#[derive(Clone, Copy, Debug, PartialEq, Eq, Structural)]
pub enum ArgumentForm {
    /// The byte is an unsigned immediate value.
    Immediate,
    /// The high nibble is the destination's position in the register file,
    /// the low nibble the source's.
    RegisterPair,
}

/// The operations that the processor implements. Every other opcode is
/// unimplemented: it is reported and changes nothing.
#[derive(Clone, Copy, Debug, PartialEq, Eq, Structural)]
pub enum Operation {
    /// `A := argument`
    MovAImm,
    /// `B := argument`
    MovBImm,
    /// `C := argument`
    MovCImm,
    /// `D := argument`
    MovDImm,
    /// `destination := source`
    MovRegReg,
    /// `A := A - argument`, wrapping
    SubAImm,
    /// `destination := destination - source`, wrapping
    SubRegReg,
}

impl Operation {
    /// The opcode that selects this operation.
    pub open spec fn spec_code(self) -> u8 {
        match self {
            Operation::MovAImm => 0x02,
            Operation::MovBImm => 0x03,
            Operation::MovCImm => 0x04,
            Operation::MovDImm => 0x05,
            Operation::MovRegReg => 0x06,
            Operation::SubAImm => 0x1A,
            Operation::SubRegReg => 0x1B,
        }
    }

    /// The operation that an opcode selects, if it is implemented.
    pub open spec fn spec_from_code(code: u8) -> Option<Operation> {
        if code == 0x02 {
            Some(Operation::MovAImm)
        } else if code == 0x03 {
            Some(Operation::MovBImm)
        } else if code == 0x04 {
            Some(Operation::MovCImm)
        } else if code == 0x05 {
            Some(Operation::MovDImm)
        } else if code == 0x06 {
            Some(Operation::MovRegReg)
        } else if code == 0x1A {
            Some(Operation::SubAImm)
        } else if code == 0x1B {
            Some(Operation::SubRegReg)
        } else {
            None
        }
    }

    /// How this operation reads its argument.
    pub open spec fn spec_form(self) -> ArgumentForm {
        match self {
            Operation::MovRegReg | Operation::SubRegReg => ArgumentForm::RegisterPair,
            _ => ArgumentForm::Immediate,
        }
    }

    /// The operation's mnemonic.
    pub open spec fn spec_mnemonic(self) -> Seq<char> {
        match self {
            Operation::MovAImm => "MOV_A_IMM"@,
            Operation::MovBImm => "MOV_B_IMM"@,
            Operation::MovCImm => "MOV_C_IMM"@,
            Operation::MovDImm => "MOV_D_IMM"@,
            Operation::MovRegReg => "MOV_REG_REG"@,
            Operation::SubAImm => "SUB_A_IMM"@,
            Operation::SubRegReg => "SUB_REG_REG"@,
        }
    }

    /// The opcode that selects this operation.
    pub fn code(self) -> (result: u8)
        ensures
            result == self.spec_code(),
    {
        match self {
            Operation::MovAImm => 0x02,
            Operation::MovBImm => 0x03,
            Operation::MovCImm => 0x04,
            Operation::MovDImm => 0x05,
            Operation::MovRegReg => 0x06,
            Operation::SubAImm => 0x1A,
            Operation::SubRegReg => 0x1B,
        }
    }

    /// The operation that an opcode selects: `None` for an opcode that is
    /// not implemented.
    pub fn from_code(code: u8) -> (result: Option<Operation>)
        ensures
            result == Operation::spec_from_code(code),
    {
        if code == 0x02 {
            Some(Operation::MovAImm)
        } else if code == 0x03 {
            Some(Operation::MovBImm)
        } else if code == 0x04 {
            Some(Operation::MovCImm)
        } else if code == 0x05 {
            Some(Operation::MovDImm)
        } else if code == 0x06 {
            Some(Operation::MovRegReg)
        } else if code == 0x1A {
            Some(Operation::SubAImm)
        } else if code == 0x1B {
            Some(Operation::SubRegReg)
        } else {
            None
        }
    }

    /// How this operation reads its argument.
    pub fn form(self) -> (result: ArgumentForm)
        ensures
            result == self.spec_form(),
    {
        match self {
            Operation::MovRegReg | Operation::SubRegReg => ArgumentForm::RegisterPair,
            _ => ArgumentForm::Immediate,
        }
    }

    /// The operation's mnemonic, for diagnostics.
    pub fn mnemonic(self) -> (result: &'static str)
        ensures
            result@ == self.spec_mnemonic(),
    {
        match self {
            Operation::MovAImm => "MOV_A_IMM",
            Operation::MovBImm => "MOV_B_IMM",
            Operation::MovCImm => "MOV_C_IMM",
            Operation::MovDImm => "MOV_D_IMM",
            Operation::MovRegReg => "MOV_REG_REG",
            Operation::SubAImm => "SUB_A_IMM",
            Operation::SubRegReg => "SUB_REG_REG",
        }
    }
}

/// The destination and source registers that an argument byte packs: the
/// high nibble and the low nibble, each a position in the register file.
/// `None` where either nibble is eight or more.
pub open spec fn spec_register_pair(argument: u8) -> Option<(Register, Register)> {
    match (
        Register::spec_from_index((argument >> 4) as int),
        Register::spec_from_index((argument & 0x0F) as int),
    ) {
        (Some(destination), Some(source)) => Some((destination, source)),
        _ => None,
    }
}

/// Unpacks the destination and source registers of a two-register
/// argument. A nibble that names no register is `UnknownRegister`.
pub fn register_pair(argument: u8) -> (result: Result<(Register, Register), Fault>)
    ensures
        result == (match spec_register_pair(argument) {
            Some(pair) => Ok::<(Register, Register), Fault>(pair),
            None => Err::<(Register, Register), Fault>(Fault::UnknownRegister),
        }),
{
    let high: u8 = argument >> 4;
    let low: u8 = argument & 0x0F;
    match (Register::from_index(high as usize), Register::from_index(low as usize)) {
        (Some(destination), Some(source)) => Ok((destination, source)),
        _ => Err(Fault::UnknownRegister),
    }
}

/// Decoding loses nothing: the opcode and the argument are the word's two
/// base-256 digits, so two words with the same decoding are the same word.
pub proof fn lemma_decode_is_injective(first: u16, second: u16)
    ensures
        first == spec_decode(first).0 * 256 + spec_decode(first).1,
        spec_decode(first).0 == first / 256,
        spec_decode(first).1 == first % 256,
        spec_decode(first) == spec_decode(second) ==> first == second,
{
    lemma_decode_digits(first);
    lemma_decode_digits(second);
}

/// The opcode is the word divided by 256, the argument the remainder.
pub proof fn lemma_decode_digits(word: u16)
    ensures
        spec_decode(word).0 == word / 256,
        spec_decode(word).1 == word % 256,
        word == spec_decode(word).0 * 256 + spec_decode(word).1,
{
    let high: u16 = word >> 8;
    let low: u16 = word & 0xFF;
    assert(high < 256 && low < 256 && high == word / 256 && low == word % 256) by (bit_vector)
        requires
            high == word >> 8,
            low == word & 0xFF,
    ;
}

/// Every opcode and argument is the decoding of exactly one word.
pub proof fn lemma_decode_is_onto(opcode: u8, argument: u8)
    ensures
        spec_decode((opcode * 256 + argument) as u16) == (opcode, argument),
{
    let word: u16 = (opcode * 256 + argument) as u16;
    assert((word >> 8) as u8 == opcode && (word & 0xFF) as u8 == argument) by (bit_vector)
        requires
            word == (opcode as u16) * 256 + (argument as u16),
    ;
}

/// The opcode table is one to one: an operation's own opcode selects it, and
/// an opcode that selects an operation is that operation's opcode.
pub proof fn lemma_opcode_table(operation: Operation, code: u8)
    ensures
        Operation::spec_from_code(operation.spec_code()) == Some(operation),
        Operation::spec_from_code(code) == Some(operation) ==> operation.spec_code() == code,
{
}

/// The nibbles of a two-register argument: the pair is defined exactly when
/// both are below eight, and then names the registers at those positions.
pub proof fn lemma_register_pair_nibbles(argument: u8)
    ensures
        spec_register_pair(argument) is Some <==> argument / 16 < 8 && argument % 16 < 8,
        spec_register_pair(argument) is Some ==> {
            let pair = spec_register_pair(argument)->Some_0;
            pair.0.spec_index() == argument / 16 && pair.1.spec_index() == argument % 16
        },
{
    let high: u8 = argument >> 4;
    let low: u8 = argument & 0x0F;
    assert(high == argument / 16 && low == argument % 16) by (bit_vector)
        requires
            high == argument >> 4,
            low == argument & 0x0F,
    ;
}

} // verus!
