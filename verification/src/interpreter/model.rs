//! The mathematical model of the engine: the machine as a value, and one
//! step of it as a function.

use crate::interpreter::math_utils::delta_fits;
use crate::interpreter::text::is_printable;
use crate::symbol::{InterpreterInstruction, InterpreterSymbol};
use vstd::prelude::*;

verus! {

/// The state of the machine, with an unbounded skip depth.
pub enum MachineState {
    /// Instructions are executed.
    Running,
    /// The body of a loop is passed over; the number counts the loop starts
    /// seen that still miss their loop end.
    Skipping(nat),
    /// The end of the source was reached while running.
    Halted,
}

/// Why a step failed.
pub enum Fault {
    /// The data pointer, at this value, cannot move further.
    PtrOutOfBounds(nat),
    /// The cell at `address` cannot change by `delta`.
    ValOutOfBounds { address: nat, delta: int },
    /// No byte of input was to be had.
    InvalidChar,
    /// A loop end with no loop open.
    StackUnderflow,
    /// A symbol for a machine that has halted.
    HaltedMachine,
    /// The source ended while `missing_brackets` loop ends were still due.
    MismatchedBrackets { instruction_ptr: nat, missing_brackets: nat },
    /// The byte is no character on its own.
    UnprintableByte(u8),
}

/// The machine: tape, the two pointers, the loop-return stack and the state.
pub struct Machine {
    pub tape: Seq<u8>,
    pub data_ptr: nat,
    pub instruction_ptr: nat,
    pub stack: Seq<nat>,
    pub state: MachineState,
}

/// What one step gives: the machine after it, and either the byte to emit,
/// if there is one, or the fault.
pub struct Transition {
    pub next: Machine,
    pub result: Result<Option<u8>, Fault>,
}

impl Machine {
    /// The machine before the first step, over a tape of `capacity` zeros.
    pub open spec fn fresh(capacity: nat) -> Machine {
        Machine {
            tape: Seq::new(capacity, |i: int| 0u8),
            data_ptr: 0,
            instruction_ptr: 0,
            stack: Seq::empty(),
            state: MachineState::Running,
        }
    }

    /// The data pointer is on the tape, and a skip depth is at least 1 and
    /// at most the instruction pointer: every loop start that it counts
    /// has moved the instruction pointer on.
    pub open spec fn wf(self) -> bool {
        &&& self.data_ptr < self.tape.len()
        &&& self.state matches MachineState::Skipping(depth) ==> 1 <= depth
            <= self.instruction_ptr
    }

    /// The cell under the data pointer.
    pub open spec fn cell(self) -> u8 {
        self.tape[self.data_ptr as int]
    }

    /// The same machine at the next symbol.
    pub open spec fn advance(self) -> Machine {
        Machine { instruction_ptr: self.instruction_ptr + 1, ..self }
    }

    /// A step that succeeds, emits nothing and leaves `self`.
    pub open spec fn done(self) -> Transition {
        Transition { next: self, result: Ok(None) }
    }

    /// A step that fails and leaves `self`.
    pub open spec fn fault(self, fault: Fault) -> Transition {
        Transition { next: self, result: Err(fault) }
    }

    /// Moves the data pointer one cell up, unless it is on the last cell.
    pub open spec fn move_right(self) -> Transition {
        if self.data_ptr + 1 < self.tape.len() {
            Machine { data_ptr: self.data_ptr + 1, ..self }.done()
        } else {
            self.fault(Fault::PtrOutOfBounds(self.data_ptr))
        }
    }

    /// Moves the data pointer one cell down, unless it is on the first cell.
    pub open spec fn move_left(self) -> Transition {
        if self.data_ptr > 0 {
            Machine { data_ptr: (self.data_ptr - 1) as nat, ..self }.done()
        } else {
            self.fault(Fault::PtrOutOfBounds(self.data_ptr))
        }
    }

    /// Changes the current cell by `delta`, unless it would leave `0..=255`.
    pub open spec fn delta_data_cell(self, delta: int) -> Transition {
        if delta_fits(self.cell(), delta) {
            Machine {
                tape: self.tape.update(self.data_ptr as int, (self.cell() + delta) as u8),
                ..self
            }.done()
        } else {
            self.fault(Fault::ValOutOfBounds { address: self.data_ptr, delta })
        }
    }

    /// Emits the current cell, unless it is no character on its own.
    pub open spec fn print_ptr(self) -> Transition {
        if is_printable(self.cell()) {
            Transition { next: self, result: Ok(Some(self.cell())) }
        } else {
            self.fault(Fault::UnprintableByte(self.cell()))
        }
    }

    /// Stores the byte of input in the current cell, unless there is none.
    pub open spec fn read_ptr(self, input: Option<u8>) -> Transition {
        match input {
            Some(byte) => Machine { tape: self.tape.update(self.data_ptr as int, byte), ..self }.done(),
            None => self.fault(Fault::InvalidChar),
        }
    }

    /// Enters the loop that starts here, remembering where it starts, or,
    /// on a zero cell, begins to skip it.
    pub open spec fn enter_loop(self) -> Transition {
        if self.cell() != 0 {
            Machine { stack: self.stack.push(self.instruction_ptr), ..self }.done()
        } else {
            Machine { state: MachineState::Skipping(1), ..self }.done()
        }
    }

    /// Goes back to the start of the innermost open loop, and closes it.
    pub open spec fn exit_loop(self) -> Transition {
        if self.stack.len() > 0 {
            Machine {
                instruction_ptr: self.stack.last(),
                stack: self.stack.drop_last(),
                ..self
            }.done()
        } else {
            self.fault(Fault::StackUnderflow)
        }
    }

    /// Executes one instruction while running. After a success the machine
    /// is at the next symbol, except after a loop end, which has set the
    /// instruction pointer itself.
    pub open spec fn run_instruction(
        self,
        instruction: InterpreterInstruction,
        input: Option<u8>,
    ) -> Transition {
        let executed = match instruction {
            InterpreterInstruction::MovePtrRight => self.move_right(),
            InterpreterInstruction::MovePtrLeft => self.move_left(),
            InterpreterInstruction::IncrementPtr => self.delta_data_cell(1),
            InterpreterInstruction::DecrementPtr => self.delta_data_cell(-1),
            InterpreterInstruction::PrintPtr => self.print_ptr(),
            InterpreterInstruction::ReadPtr => self.read_ptr(input),
            InterpreterInstruction::LoopStart => self.enter_loop(),
            InterpreterInstruction::LoopEnd => self.exit_loop(),
        };
        if instruction != InterpreterInstruction::LoopEnd && executed.result is Ok {
            Transition { next: executed.next.advance(), ..executed }
        } else {
            executed
        }
    }

    /// Passes over one symbol at skip depth `depth`.
    pub open spec fn skip(self, depth: nat, symbol: InterpreterSymbol) -> Transition {
        match symbol {
            InterpreterSymbol::Instruction(InterpreterInstruction::LoopEnd) => Machine {
                state: if depth > 1 {
                    MachineState::Skipping((depth - 1) as nat)
                } else {
                    MachineState::Running
                },
                ..self
            }.advance().done(),
            InterpreterSymbol::EOF => self.fault(
                Fault::MismatchedBrackets {
                    instruction_ptr: self.instruction_ptr,
                    missing_brackets: depth,
                },
            ),
            InterpreterSymbol::Instruction(InterpreterInstruction::LoopStart) => Machine {
                state: MachineState::Skipping(depth + 1),
                ..self
            }.advance().done(),
            _ => self.advance().done(),
        }
    }

    /// One step: what the machine does with the symbol at its instruction
    /// pointer. `input` is the answer of the input collaborator, which only
    /// a step that `wants_input` looks at.
    pub open spec fn step(self, symbol: InterpreterSymbol, input: Option<u8>) -> Transition {
        match self.state {
            MachineState::Halted => self.fault(Fault::HaltedMachine),
            MachineState::Skipping(depth) => self.skip(depth, symbol),
            MachineState::Running => match symbol {
                InterpreterSymbol::EOF => Machine { state: MachineState::Halted, ..self }.done(),
                InterpreterSymbol::Other(_) => self.advance().done(),
                InterpreterSymbol::Instruction(instruction) => self.run_instruction(
                    instruction,
                    input,
                ),
            },
        }
    }

    /// A step keeps a well-formed machine well-formed.
    pub proof fn lemma_step_keeps_wf(self, symbol: InterpreterSymbol, input: Option<u8>)
        requires
            self.wf(),
        ensures
            self.step(symbol, input).next.wf(),
            self.step(symbol, input).next.tape.len() == self.tape.len(),
    {
    }

    /// A step that fails leaves the machine as it was.
    pub proof fn lemma_fault_changes_nothing(self, symbol: InterpreterSymbol, input: Option<u8>)
        ensures
            self.step(symbol, input).result is Err ==> self.step(symbol, input).next == self,
    {
    }

    /// Whether the step on `symbol` asks the input collaborator for a byte.
    pub open spec fn wants_input(self, symbol: InterpreterSymbol) -> bool {
        &&& self.state is Running
        &&& symbol == InterpreterSymbol::Instruction(InterpreterInstruction::ReadPtr)
    }
}

} // verus!
