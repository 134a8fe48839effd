//! Decoding of source characters into symbols.

use vstd::prelude::*;

verus! {

/// One of the eight instructions of the language.
#[derive(Clone, Copy, Debug, PartialEq, Eq, Structural)]
pub enum InterpreterInstruction {
    MovePtrRight,
    MovePtrLeft,
    IncrementPtr,
    DecrementPtr,
    PrintPtr,
    ReadPtr,
    LoopStart,
    LoopEnd,
}

/// What stands at one position of the source: an instruction, the end of
/// the source, or any other character.
#[derive(Clone, Copy, Debug, PartialEq, Eq, Structural)]
pub enum InterpreterSymbol {
    Instruction(InterpreterInstruction),
    EOF,
    Other(char),
}

/// The symbol that an optional source character stands for.
pub open spec fn decode(c: Option<char>) -> InterpreterSymbol {
    match c {
        None => InterpreterSymbol::EOF,
        Some(c) => if c == '>' {
            InterpreterSymbol::Instruction(InterpreterInstruction::MovePtrRight)
        } else if c == '<' {
            InterpreterSymbol::Instruction(InterpreterInstruction::MovePtrLeft)
        } else if c == '+' {
            InterpreterSymbol::Instruction(InterpreterInstruction::IncrementPtr)
        } else if c == '-' {
            InterpreterSymbol::Instruction(InterpreterInstruction::DecrementPtr)
        } else if c == '.' {
            InterpreterSymbol::Instruction(InterpreterInstruction::PrintPtr)
        } else if c == ',' {
            InterpreterSymbol::Instruction(InterpreterInstruction::ReadPtr)
        } else if c == '[' {
            InterpreterSymbol::Instruction(InterpreterInstruction::LoopStart)
        } else if c == ']' {
            InterpreterSymbol::Instruction(InterpreterInstruction::LoopEnd)
        } else {
            InterpreterSymbol::Other(c)
        },
    }
}

impl InterpreterSymbol {
    /// Decodes one optional source character.
    pub fn from_char(c: Option<&char>) -> (symbol: Self)
        ensures
            symbol == decode(
                match c {
                    Some(r) => Some(*r),
                    None => None,
                },
            ),
    {
        match c {
            Some(c) => match *c {
                '>' => InterpreterSymbol::Instruction(InterpreterInstruction::MovePtrRight),
                '<' => InterpreterSymbol::Instruction(InterpreterInstruction::MovePtrLeft),
                '+' => InterpreterSymbol::Instruction(InterpreterInstruction::IncrementPtr),
                '-' => InterpreterSymbol::Instruction(InterpreterInstruction::DecrementPtr),
                '.' => InterpreterSymbol::Instruction(InterpreterInstruction::PrintPtr),
                ',' => InterpreterSymbol::Instruction(InterpreterInstruction::ReadPtr),
                '[' => InterpreterSymbol::Instruction(InterpreterInstruction::LoopStart),
                ']' => InterpreterSymbol::Instruction(InterpreterInstruction::LoopEnd),
                any_c => InterpreterSymbol::Other(any_c),
            },
            None => InterpreterSymbol::EOF,
        }
    }
}

} // verus!
