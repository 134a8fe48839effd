//! Running a whole program: decode the symbol at the instruction pointer,
//! feed it to the engine, and go on until the engine halts or fails.
//!
//! The run here takes its input as a prepared sequence of bytes and
//! collects what the program prints, so that it is a function of its
//! arguments.

use crate::interpreter::error::InterpreterError;
use crate::interpreter::memory::MEMORY_SIZE;
use crate::interpreter::model::{Fault, Machine};
use crate::interpreter::Interpreter;
use crate::symbol::{decode, InterpreterSymbol};
use vstd::prelude::*;

verus! {

/// The symbol at `position` of `program`: the end of the source from its
/// length on.
pub open spec fn symbol_at(program: Seq<char>, position: nat) -> InterpreterSymbol {
    decode(
        if position < program.len() {
            Some(program[position as int])
        } else {
            None
        },
    )
}

/// A run at some moment: the machine, what was printed so far, how many
/// bytes of the input were taken, and the fault if a step has failed.
pub struct RunView {
    pub machine: Machine,
    pub output: Seq<u8>,
    pub consumed: nat,
    pub fault: Option<Fault>,
}

impl RunView {
    /// A run before its first step, on a tape of `capacity` cells.
    pub open spec fn start(capacity: nat) -> RunView {
        RunView {
            machine: Machine::fresh(capacity),
            output: Seq::empty(),
            consumed: 0,
            fault: None,
        }
    }

    /// Whether the run is over: the machine has halted, or a step failed.
    pub open spec fn finished(self) -> bool {
        self.fault is Some || self.machine.state is Halted
    }

    /// The byte that the next step gets as its input: the next byte of
    /// `input` if the step reads and a byte is left, else none.
    pub open spec fn next_input(self, program: Seq<char>, input: Seq<u8>) -> Option<u8> {
        let symbol = symbol_at(program, self.machine.instruction_ptr);
        if self.machine.wants_input(symbol) && self.consumed < input.len() {
            Some(input[self.consumed as int])
        } else {
            None
        }
    }

    /// The run one step on.
    pub open spec fn step(self, program: Seq<char>, input: Seq<u8>) -> RunView {
        let symbol = symbol_at(program, self.machine.instruction_ptr);
        let given = self.next_input(program, input);
        let transition = self.machine.step(symbol, given);
        RunView {
            machine: transition.next,
            output: match transition.result {
                Ok(Some(byte)) => self.output.push(byte),
                _ => self.output,
            },
            consumed: if given is Some {
                self.consumed + 1
            } else {
                self.consumed
            },
            fault: match transition.result {
                Ok(_) => None,
                Err(fault) => Some(fault),
            },
        }
    }

    /// The run after at most `steps` more steps: it stops before that
    /// where it is over.
    pub open spec fn run(self, program: Seq<char>, input: Seq<u8>, steps: nat) -> RunView
        decreases steps,
    {
        if self.finished() || steps == 0 {
            self
        } else {
            self.step(program, input).run(program, input, (steps - 1) as nat)
        }
    }

    /// A run that is over after `steps` steps is the same after any number
    /// of steps beyond them.
    pub proof fn lemma_run_stays_finished(
        self,
        program: Seq<char>,
        input: Seq<u8>,
        steps: nat,
        more: nat,
    )
        requires
            self.run(program, input, steps).finished(),
        ensures
            self.run(program, input, steps + more) == self.run(program, input, steps),
        decreases steps,
    {
        if self.finished() {
        } else if steps == 0 {
        } else {
            self.step(program, input).lemma_run_stays_finished(
                program,
                input,
                (steps - 1) as nat,
                more,
            );
        }
    }
}

/// The run of `program` on `input` from a fresh machine, for at most
/// `steps` steps.
pub open spec fn run_program(program: Seq<char>, input: Seq<u8>, steps: nat) -> RunView {
    RunView::start(MEMORY_SIZE as nat).run(program, input, steps)
}

/// A program and its input decide how a run ends: two runs that are both
/// over, by halting or by a fault, have the same tape and pointers, the
/// same output and the same fault or none, however many steps each was
/// allowed.
pub proof fn lemma_run_deterministic(
    program: Seq<char>,
    input: Seq<u8>,
    steps_a: nat,
    steps_b: nat,
)
    requires
        run_program(program, input, steps_a).finished(),
        run_program(program, input, steps_b).finished(),
    ensures
        run_program(program, input, steps_a) == run_program(program, input, steps_b),
{
    let start = RunView::start(MEMORY_SIZE as nat);
    if steps_a <= steps_b {
        start.lemma_run_stays_finished(program, input, steps_a, (steps_b - steps_a) as nat);
    } else {
        start.lemma_run_stays_finished(program, input, steps_b, (steps_a - steps_b) as nat);
    }
}

/// How a run ended: the engine as the run left it, the bytes that were
/// printed, the number of input bytes that were taken, and the fault if a
/// step failed. A run without a fault whose engine has not halted was
/// stopped by its step limit.
#[derive(Debug)]
pub struct InterpreterRun {
    pub interpreter: Interpreter,
    pub output: Vec<u8>,
    pub consumed: usize,
    pub result: Result<(), InterpreterError>,
}

impl View for InterpreterRun {
    type V = RunView;

    open spec fn view(&self) -> RunView {
        RunView {
            machine: self.interpreter@,
            output: self.output@,
            consumed: self.consumed as nat,
            fault: match self.result {
                Ok(_) => None,
                Err(error) => Some(error@),
            },
        }
    }
}

/// The symbol at the instruction pointer of the engine. Where it is not
/// the end of the source, the instruction pointer is below the length of
/// the source, and so can still grow.
pub fn read_instruction(characters: &Vec<char>, bf_interpreter: &Interpreter) -> (symbol:
    InterpreterSymbol)
    ensures
        symbol == symbol_at(characters@, bf_interpreter@.instruction_ptr),
        symbol != InterpreterSymbol::EOF ==> bf_interpreter@.instruction_ptr < usize::MAX,
{
    let position: usize = bf_interpreter.get_instruction_ptr();
    if position < characters.len() {
        InterpreterSymbol::from_char(Some(&characters[position]))
    } else {
        InterpreterSymbol::from_char(None)
    }
}

/// Runs the program `characters` on a fresh engine until it halts, a step
/// fails, or `max_steps` steps are done. Each step that reads takes the
/// next byte of `input`; when none is left, the read fails.
pub fn run_interpreter(characters: &Vec<char>, input: &Vec<u8>, max_steps: usize) -> (run:
    InterpreterRun)
    ensures
        run@ == run_program(characters@, input@, max_steps as nat),
        run@.machine.wf(),
{
    let mut bf_interpreter = Interpreter::new();
    let mut output: Vec<u8> = Vec::new();
    let mut consumed: usize = 0;
    let mut steps: usize = 0;
    loop
        invariant
            bf_interpreter@.wf(),
            consumed <= input.len(),
            steps <= max_steps,
            (RunView {
                machine: bf_interpreter@,
                output: output@,
                consumed: consumed as nat,
                fault: None,
            }).run(characters@, input@, (max_steps - steps) as nat) == run_program(
                characters@,
                input@,
                max_steps as nat,
            ),
        decreases max_steps - steps,
    {
        if steps >= max_steps || bf_interpreter.is_halted() {
            return InterpreterRun { interpreter: bf_interpreter, output, consumed, result: Ok(()) };
        }
        let ghost before = RunView {
            machine: bf_interpreter@,
            output: output@,
            consumed: consumed as nat,
            fault: None,
        };
        let ghost left = (max_steps - steps) as nat;
        let symbol = read_instruction(characters, &bf_interpreter);
        let given = if bf_interpreter.wants_input(&symbol) && consumed < input.len() {
            let byte: u8 = input[consumed];
            consumed += 1;
            Some(byte)
        } else {
            None
        };
        assert(given == before.next_input(characters@, input@));
        proof {
            bf_interpreter.lemma_pointers_fit();
        }
        assert(before.run(characters@, input@, left) == before.step(characters@, input@).run(
            characters@,
            input@,
            (left - 1) as nat,
        ));
        match bf_interpreter.interpret_symbol(&symbol, given) {
            Ok(Some(byte)) => {
                output.push(byte);
            },
            Ok(None) => {},
            Err(error) => {
                let run = InterpreterRun {
                    interpreter: bf_interpreter,
                    output,
                    consumed,
                    result: Err(error),
                };
                assert(run@ == before.step(characters@, input@));
                return run;
            },
        }
        steps += 1;
    }
}

} // verus!
