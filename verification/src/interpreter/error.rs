//! The faults of the engine, as the values that its callers get.

use crate::interpreter::model::Fault;
use crate::interpreter::{Interpreter, InterpreterResult, InterpreterState};
use vstd::pervasive::unreached;
use vstd::prelude::*;

verus! {

/// Where the source ended inside a loop that was being skipped, and how
/// many loop ends were still due.
#[derive(Clone, Copy, Debug, PartialEq, Eq, Structural)]
pub struct InterpreterMismatchedBracketsError {
    pub instruction_ptr: usize,
    pub missing_brackets: usize,
}

/// The kinds of fault, each with what it was about.
#[derive(Clone, Copy, Debug, PartialEq, Eq, Structural)]
pub enum InterpreterErrorReason {
    /// The data pointer, at this value, cannot move further.
    PtrOutOfBounds(usize),
    /// The cell at `address` cannot change by `delta`.
    ValOutOfBounds { address: usize, delta: i8 },
    /// No byte of input was to be had.
    InvalidChar,
    /// A loop end with no loop open.
    StackUnderflow,
    /// A symbol for a machine that has halted.
    HaltedMachine,
    /// The source ended inside a loop that was being skipped.
    MismatchedBrackets(InterpreterMismatchedBracketsError),
    /// The byte is no character on its own.
    UnprintableByte(u8),
}

/// A fault of the engine.
#[derive(Clone, Copy, Debug, PartialEq, Eq, Structural)]
pub struct InterpreterError {
    pub reason: InterpreterErrorReason,
}

impl View for InterpreterError {
    type V = Fault;

    open spec fn view(&self) -> Fault {
        match self.reason {
            InterpreterErrorReason::PtrOutOfBounds(ptr) => Fault::PtrOutOfBounds(ptr as nat),
            InterpreterErrorReason::ValOutOfBounds { address, delta } => Fault::ValOutOfBounds {
                address: address as nat,
                delta: delta as int,
            },
            InterpreterErrorReason::InvalidChar => Fault::InvalidChar,
            InterpreterErrorReason::StackUnderflow => Fault::StackUnderflow,
            InterpreterErrorReason::HaltedMachine => Fault::HaltedMachine,
            InterpreterErrorReason::MismatchedBrackets(brackets) => Fault::MismatchedBrackets {
                instruction_ptr: brackets.instruction_ptr as nat,
                missing_brackets: brackets.missing_brackets as nat,
            },
            InterpreterErrorReason::UnprintableByte(byte) => Fault::UnprintableByte(byte),
        }
    }
}

/// What a result of the engine says in the model.
pub open spec fn result_view(result: InterpreterResult) -> Result<Option<u8>, Fault> {
    match result {
        Ok(emitted) => Ok(emitted),
        Err(error) => Err(error@),
    }
}

/// The failed result that carries `fault`.
pub open spec fn failed(result: InterpreterResult, fault: Fault) -> bool {
    result matches Err(error) && error@ == fault
}

impl InterpreterError {
    /// The data pointer of `interpreter` cannot move further.
    pub fn ptr_out_of_bounds(interpreter: &Interpreter) -> (result: InterpreterResult)
        ensures
            failed(result, Fault::PtrOutOfBounds(interpreter@.data_ptr)),
    {
        let ptr: usize = interpreter.get_data_ptr();
        Err(InterpreterError { reason: InterpreterErrorReason::PtrOutOfBounds(ptr) })
    }

    /// The current cell of `interpreter` cannot change by `delta`.
    pub fn val_out_of_bounds(interpreter: &Interpreter, delta: i8) -> (result: InterpreterResult)
        ensures
            failed(
                result,
                Fault::ValOutOfBounds { address: interpreter@.data_ptr, delta: delta as int },
            ),
    {
        let address: usize = interpreter.get_data_ptr();
        Err(InterpreterError { reason: InterpreterErrorReason::ValOutOfBounds { address, delta } })
    }

    /// No byte of input was to be had.
    pub fn invalid_char() -> (result: InterpreterResult)
        ensures
            failed(result, Fault::InvalidChar),
    {
        Err(InterpreterError { reason: InterpreterErrorReason::InvalidChar })
    }

    /// A loop end with no loop open.
    pub fn stack_underflow() -> (result: InterpreterResult)
        ensures
            failed(result, Fault::StackUnderflow),
    {
        Err(InterpreterError { reason: InterpreterErrorReason::StackUnderflow })
    }

    /// A symbol for a machine that has halted.
    pub fn halted_machine() -> (result: InterpreterResult)
        ensures
            failed(result, Fault::HaltedMachine),
    {
        Err(InterpreterError { reason: InterpreterErrorReason::HaltedMachine })
    }

    /// The source ended while `interpreter` was skipping a loop.
    pub fn mismatched_brackets(interpreter: &Interpreter) -> (result: InterpreterResult)
        requires
            interpreter@.state is Skipping,
        ensures
            failed(
                result,
                Fault::MismatchedBrackets {
                    instruction_ptr: interpreter@.instruction_ptr,
                    missing_brackets: interpreter@.state->Skipping_0,
                },
            ),
    {
        let instruction_ptr: usize = interpreter.get_instruction_ptr();
        match interpreter.get_state() {
            InterpreterState::Skipping(missing_brackets) => Err(
                InterpreterError {
                    reason: InterpreterErrorReason::MismatchedBrackets(
                        InterpreterMismatchedBracketsError { instruction_ptr, missing_brackets },
                    ),
                },
            ),
            _ => unreached(),
        }
    }

    /// `byte` is no character on its own.
    pub fn unprintable_byte(byte: u8) -> (result: InterpreterResult)
        ensures
            failed(result, Fault::UnprintableByte(byte)),
    {
        Err(InterpreterError { reason: InterpreterErrorReason::UnprintableByte(byte) })
    }
}

} // verus!
