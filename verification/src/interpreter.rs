//! The execution engine: it takes one symbol at a time, changes its own
//! state and says what came of it.
//!
//! The engine does no input or output itself. A step that prints hands the
//! byte back to the caller, and a step that reads takes the byte that the
//! caller got for it.

pub mod error;
pub mod history;
pub mod math_utils;
pub mod memory;
pub mod model;
pub mod text;

use crate::symbol::{InterpreterInstruction, InterpreterSymbol};
use error::{result_view, InterpreterError, InterpreterErrorReason};
use math_utils::safe_delta_u8;
use memory::{InterpreterMemory, MEMORY_SIZE};
use model::{Machine, MachineState};
use text::printable_char;
use vstd::prelude::*;

verus! {

/// What a step of the engine yields: the byte to emit, if the step printed
/// one, or the fault that stopped it.
pub type InterpreterResult = Result<Option<u8>, InterpreterError>;

/// The state of the engine.
#[derive(Clone, Copy, Debug, PartialEq, Eq, Structural)]
pub enum InterpreterState {
    /// Instructions are executed.
    Running,
    /// The body of a loop is passed over; the number counts the loop starts
    /// seen that still miss their loop end.
    Skipping(usize),
    /// The end of the source was reached while running.
    Halted,
}

impl View for InterpreterState {
    type V = MachineState;

    open spec fn view(&self) -> MachineState {
        match *self {
            InterpreterState::Running => MachineState::Running,
            InterpreterState::Skipping(depth) => MachineState::Skipping(depth as nat),
            InterpreterState::Halted => MachineState::Halted,
        }
    }
}

/// The engine: it owns the tape, the data pointer, the instruction pointer,
/// the loop-return stack and the state. Its view is the `Machine` of the
/// model, and every method says what it does as a function on that view.
#[derive(Debug)]
pub struct Interpreter {
    memory: InterpreterMemory,
    data_ptr: usize,
    instruction_ptr: usize,
    stack: Vec<usize>,
    state: InterpreterState,
}

impl View for Interpreter {
    type V = Machine;

    closed spec fn view(&self) -> Machine {
        Machine {
            tape: self.memory@,
            data_ptr: self.data_ptr as nat,
            instruction_ptr: self.instruction_ptr as nat,
            stack: self.stack@.map_values(|ptr: usize| ptr as nat),
            state: self.state@,
        }
    }
}

impl Interpreter {
    /// An engine before its first step: a tape of zeros, both pointers at 0,
    /// no loop open, running.
    pub fn new() -> (interpreter: Self)
        ensures
            interpreter@ == Machine::fresh(MEMORY_SIZE as nat),
            interpreter@.wf(),
            interpreter@.data_ptr < MEMORY_SIZE,
    {
        let interpreter = Interpreter {
            memory: InterpreterMemory::new(),
            data_ptr: 0usize,
            instruction_ptr: 0usize,
            stack: Vec::new(),
            state: InterpreterState::Running,
        };
        assert(interpreter@.stack =~= Seq::<nat>::empty());
        interpreter
    }

    /// The tape of the engine has `MEMORY_SIZE` cells at all times.
    pub proof fn lemma_capacity(&self)
        ensures
            self@.tape.len() == MEMORY_SIZE,
    {
        self.memory.lemma_capacity();
    }

    /// The instruction pointer and the loop starts on the stack fit in a
    /// `usize`.
    pub proof fn lemma_pointers_fit(&self)
        ensures
            self@.instruction_ptr <= usize::MAX,
            forall|i: int| 0 <= i < self@.stack.len() ==> self@.stack[i] <= usize::MAX,
    {
    }

    /// The position in the source of the symbol that the engine takes next.
    pub fn get_instruction_ptr(&self) -> (ptr: usize)
        ensures
            ptr as nat == self@.instruction_ptr,
    {
        self.instruction_ptr
    }

    /// The address of the current cell.
    pub fn get_data_ptr(&self) -> (ptr: usize)
        ensures
            ptr as nat == self@.data_ptr,
    {
        self.data_ptr
    }

    /// The state of the engine.
    pub fn get_state(&self) -> (state: InterpreterState)
        ensures
            state@ == self@.state,
    {
        self.state
    }

    /// The number of loops that are open.
    pub fn get_loop_depth(&self) -> (depth: usize)
        ensures
            depth as nat == self@.stack.len(),
    {
        self.stack.len()
    }

    /// Whether the engine has halted.
    pub fn is_halted(&self) -> (halted: bool)
        ensures
            halted == (self@.state is Halted),
    {
        matches!(self.state, InterpreterState::Halted)
    }

    /// Whether the step on `symbol` takes a byte of input.
    pub fn wants_input(&self, symbol: &InterpreterSymbol) -> (wanted: bool)
        ensures
            wanted == self@.wants_input(*symbol),
    {
        match (self.state, *symbol) {
            (
                InterpreterState::Running,
                InterpreterSymbol::Instruction(InterpreterInstruction::ReadPtr),
            ) => true,
            _ => false,
        }
    }

    /// The current cell.
    pub fn read_memory(&self) -> (cell: Result<u8, InterpreterError>)
        requires
            self@.wf(),
        ensures
            cell == Ok::<u8, InterpreterError>(self@.cell()),
    {
        proof {
            self.memory.lemma_capacity();
        }
        match self.memory.read(self.data_ptr) {
            Ok(value) => Ok(value),
            Err(_) => Err(
                InterpreterError { reason: InterpreterErrorReason::PtrOutOfBounds(self.data_ptr) },
            ),
        }
    }

    /// Stores `value` in the current cell.
    fn write_memory(&mut self, value: u8) -> (result: InterpreterResult)
        requires
            old(self)@.wf(),
        ensures
            result == Ok::<Option<u8>, InterpreterError>(None),
            final(self)@ == (Machine {
                tape: old(self)@.tape.update(old(self)@.data_ptr as int, value),
                ..old(self)@
            }),
    {
        proof {
            self.memory.lemma_capacity();
        }
        match self.memory.write(self.data_ptr, value) {
            Ok(_) => Ok(None),
            Err(_) => InterpreterError::ptr_out_of_bounds(self),
        }
    }

    /// Selects the next cell up, unless the current one is the last.
    fn move_right(&mut self) -> (result: InterpreterResult)
        requires
            old(self)@.wf(),
        ensures
            final(self)@ == old(self)@.move_right().next,
            result_view(result) == old(self)@.move_right().result,
    {
        proof {
            self.memory.lemma_capacity();
        }
        if self.data_ptr + 1 < MEMORY_SIZE {
            self.data_ptr += 1;
            Ok(None)
        } else {
            InterpreterError::ptr_out_of_bounds(self)
        }
    }

    /// Selects the next cell down, unless the current one is the first.
    fn move_left(&mut self) -> (result: InterpreterResult)
        requires
            old(self)@.wf(),
        ensures
            final(self)@ == old(self)@.move_left().next,
            result_view(result) == old(self)@.move_left().result,
    {
        if self.data_ptr > 0 {
            self.data_ptr -= 1;
            Ok(None)
        } else {
            InterpreterError::ptr_out_of_bounds(self)
        }
    }

    /// Changes the current cell by `delta`, unless it would leave `0..=255`.
    fn delta_data_cell(&mut self, delta: i8) -> (result: InterpreterResult)
        requires
            old(self)@.wf(),
        ensures
            final(self)@ == old(self)@.delta_data_cell(delta as int).next,
            result_view(result) == old(self)@.delta_data_cell(delta as int).result,
    {
        match self.read_memory() {
            Ok(val) => match safe_delta_u8(val, delta) {
                Ok(new_val) => self.write_memory(new_val),
                Err(delta_error) => InterpreterError::val_out_of_bounds(self, delta_error.right),
            },
            Err(error) => Err(error),
        }
    }

    /// Adds one to the current cell, unless it holds 255.
    fn increment_cell(&mut self) -> (result: InterpreterResult)
        requires
            old(self)@.wf(),
        ensures
            final(self)@ == old(self)@.delta_data_cell(1).next,
            result_view(result) == old(self)@.delta_data_cell(1).result,
    {
        self.delta_data_cell(1)
    }

    /// Takes one from the current cell, unless it holds 0.
    fn decrement_cell(&mut self) -> (result: InterpreterResult)
        requires
            old(self)@.wf(),
        ensures
            final(self)@ == old(self)@.delta_data_cell(-1).next,
            result_view(result) == old(self)@.delta_data_cell(-1).result,
    {
        self.delta_data_cell(-1)
    }

    /// Hands out the current cell for printing, unless it is no character
    /// on its own.
    fn print_ptr(&mut self) -> (result: InterpreterResult)
        requires
            old(self)@.wf(),
        ensures
            final(self)@ == old(self)@.print_ptr().next,
            result_view(result) == old(self)@.print_ptr().result,
    {
        match self.read_memory() {
            Ok(val) => match printable_char(val) {
                Some(_printed_char) => Ok(Some(val)),
                None => InterpreterError::unprintable_byte(val),
            },
            Err(_) => InterpreterError::ptr_out_of_bounds(self),
        }
    }

    /// Stores the byte of input in the current cell, unless there is none.
    fn read_ptr(&mut self, input: Option<u8>) -> (result: InterpreterResult)
        requires
            old(self)@.wf(),
        ensures
            final(self)@ == old(self)@.read_ptr(input).next,
            result_view(result) == old(self)@.read_ptr(input).result,
    {
        match input {
            Some(byte) => self.write_memory(byte),
            None => InterpreterError::invalid_char(),
        }
    }

    /// At a loop start: on a cell that is not zero, opens the loop and
    /// remembers the position of its start; on a zero cell, begins to skip
    /// the loop.
    fn enter_loop(&mut self) -> (result: InterpreterResult)
        requires
            old(self)@.wf(),
            old(self)@.state is Running,
        ensures
            final(self)@ == old(self)@.enter_loop().next,
            result_view(result) == old(self)@.enter_loop().result,
    {
        match self.read_memory() {
            Ok(val) => {
                let next_state = if val != 0 {
                    self.stack.push(self.instruction_ptr);
                    InterpreterState::Running
                } else {
                    InterpreterState::Skipping(1)
                };
                self.state = next_state;
                assert(self@.stack =~= old(self)@.enter_loop().next.stack);
                Ok(None)
            },
            Err(_) => InterpreterError::ptr_out_of_bounds(self),
        }
    }

    /// At a loop end: goes back to the start of the innermost open loop and
    /// closes it, so that its start is taken again and decides anew.
    fn exit_loop(&mut self) -> (result: InterpreterResult)
        ensures
            final(self)@ == old(self)@.exit_loop().next,
            result_view(result) == old(self)@.exit_loop().result,
    {
        match self.stack.pop() {
            Some(loop_ptr) => {
                self.instruction_ptr = loop_ptr;
                assert(self@.stack =~= old(self)@.stack.drop_last());
                Ok(None)
            },
            None => InterpreterError::stack_underflow(),
        }
    }

    /// Moves on to the next symbol.
    fn next_instruction(&mut self)
        requires
            old(self)@.instruction_ptr < usize::MAX,
        ensures
            final(self)@ == old(self)@.advance(),
    {
        self.instruction_ptr += 1;
    }

    /// Halts the engine.
    fn halt(&mut self)
        ensures
            final(self)@ == (Machine { state: MachineState::Halted, ..old(self)@ }),
    {
        self.state = InterpreterState::Halted;
    }

    /// Executes one instruction while running, and moves on to the next
    /// symbol if it succeeded and was no loop end.
    fn run_instruction(&mut self, instruction: &InterpreterInstruction, input: Option<u8>) -> (result:
        InterpreterResult)
        requires
            old(self)@.wf(),
            old(self)@.state is Running,
            old(self)@.run_instruction(*instruction, input).next.instruction_ptr <= usize::MAX,
        ensures
            final(self)@ == old(self)@.run_instruction(*instruction, input).next,
            result_view(result) == old(self)@.run_instruction(*instruction, input).result,
    {
        let (advance, result) = match instruction {
            InterpreterInstruction::MovePtrRight => (true, self.move_right()),
            InterpreterInstruction::MovePtrLeft => (true, self.move_left()),
            InterpreterInstruction::IncrementPtr => (true, self.increment_cell()),
            InterpreterInstruction::DecrementPtr => (true, self.decrement_cell()),
            InterpreterInstruction::PrintPtr => (true, self.print_ptr()),
            InterpreterInstruction::ReadPtr => (true, self.read_ptr(input)),
            InterpreterInstruction::LoopStart => (true, self.enter_loop()),
            InterpreterInstruction::LoopEnd => (false, self.exit_loop()),
        };
        if advance && result.is_ok() {
            self.next_instruction();
        }
        result
    }

    /// Takes the symbol at the instruction pointer and makes one step with
    /// it. `input` is what the input collaborator gave for this step; only a
    /// step that `wants_input` looks at it. A byte in the result is to be
    /// handed to the output collaborator. A step that fails changes nothing.
    ///
    /// The instruction pointer after the step has to fit in a `usize`. It
    /// does wherever the pointer before the step is below `usize::MAX`, and
    /// at the end of the source.
    pub fn interpret_symbol(&mut self, symbol: &InterpreterSymbol, input: Option<u8>) -> (result:
        InterpreterResult)
        requires
            old(self)@.wf(),
            old(self)@.step(*symbol, input).next.instruction_ptr <= usize::MAX,
        ensures
            final(self)@.wf(),
            final(self)@.data_ptr < MEMORY_SIZE,
            final(self)@ == old(self)@.step(*symbol, input).next,
            result_view(result) == old(self)@.step(*symbol, input).result,
            result is Err ==> final(self)@ == old(self)@,
    {
        proof {
            self.lemma_capacity();
            old(self)@.lemma_step_keeps_wf(*symbol, input);
            old(self)@.lemma_fault_changes_nothing(*symbol, input);
        }
        match (self.state, symbol) {
            (InterpreterState::Halted, _) => InterpreterError::halted_machine(),
            (
                InterpreterState::Skipping(skip),
                InterpreterSymbol::Instruction(InterpreterInstruction::LoopEnd),
            ) => {
                let skip: usize = skip - 1;
                if skip > 0 {
                    self.state = InterpreterState::Skipping(skip);
                } else {
                    self.state = InterpreterState::Running;
                }
                self.next_instruction();
                Ok(None)
            },
            (InterpreterState::Skipping(_), InterpreterSymbol::EOF) => {
                InterpreterError::mismatched_brackets(self)
            },
            (
                InterpreterState::Skipping(skip),
                InterpreterSymbol::Instruction(InterpreterInstruction::LoopStart),
            ) => {
                self.state = InterpreterState::Skipping(skip + 1);
                self.next_instruction();
                Ok(None)
            },
            (InterpreterState::Skipping(_), _) => {
                self.next_instruction();
                Ok(None)
            },
            (InterpreterState::Running, InterpreterSymbol::EOF) => {
                self.halt();
                Ok(None)
            },
            (InterpreterState::Running, InterpreterSymbol::Instruction(instruction)) => {
                self.run_instruction(instruction, input)
            },
            (InterpreterState::Running, InterpreterSymbol::Other(_)) => {
                self.next_instruction();
                Ok(None)
            },
        }
    }
}

} // verus!
