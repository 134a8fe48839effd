//! What holds of every state that the machine can reach, whatever symbols
//! and inputs it is given.

use crate::interpreter::model::Machine;
use crate::symbol::{InterpreterInstruction, InterpreterSymbol};
use vstd::prelude::*;

verus! {

/// One call of the engine: the symbol it was given, and the answer of the
/// input collaborator that came with it.
pub struct Event {
    pub symbol: InterpreterSymbol,
    pub input: Option<u8>,
}

impl Machine {
    /// One step with the symbol and the input of `event`.
    pub open spec fn on(self, event: Event) -> Machine {
        self.step(event.symbol, event.input).next
    }

    /// The machine after the steps of `events`, in their order. A step that
    /// fails leaves the machine where it was, and the next one goes on
    /// from there.
    pub open spec fn after(self, events: Seq<Event>) -> Machine
        decreases events.len(),
    {
        if events.len() == 0 {
            self
        } else {
            self.after(events.drop_last()).on(events.last())
        }
    }

    /// Whether the step on `event` enters a loop: a loop start, taken while
    /// running on a cell that is not zero.
    pub open spec fn enters_loop(self, event: Event) -> bool {
        &&& self.state is Running
        &&& event.symbol == InterpreterSymbol::Instruction(InterpreterInstruction::LoopStart)
        &&& self.cell() != 0
    }

    /// Whether the step on `event` exits a loop: a loop end, taken while
    /// running, that does not fail.
    pub open spec fn exits_loop(self, event: Event) -> bool {
        &&& self.state is Running
        &&& event.symbol == InterpreterSymbol::Instruction(InterpreterInstruction::LoopEnd)
        &&& self.step(event.symbol, event.input).result is Ok
    }

    /// The number of steps of `events` that enter a loop.
    pub open spec fn loops_entered(self, events: Seq<Event>) -> nat
        decreases events.len(),
    {
        if events.len() == 0 {
            0
        } else {
            let before = events.drop_last();
            self.loops_entered(before) + if self.after(before).enters_loop(events.last()) {
                1nat
            } else {
                0nat
            }
        }
    }

    /// The number of steps of `events` that exit a loop.
    pub open spec fn loops_exited(self, events: Seq<Event>) -> nat
        decreases events.len(),
    {
        if events.len() == 0 {
            0
        } else {
            let before = events.drop_last();
            self.loops_exited(before) + if self.after(before).exits_loop(events.last()) {
                1nat
            } else {
                0nat
            }
        }
    }

    /// Steps keep a well-formed machine well-formed, and its tape at its
    /// length.
    pub proof fn lemma_after_keeps_wf(self, events: Seq<Event>)
        requires
            self.wf(),
        ensures
            self.after(events).wf(),
            self.after(events).tape.len() == self.tape.len(),
        decreases events.len(),
    {
        if events.len() > 0 {
            let before = events.drop_last();
            self.lemma_after_keeps_wf(before);
            self.after(before).lemma_step_keeps_wf(events.last().symbol, events.last().input);
        }
    }

    /// The loop-return stack grows by one with each loop entered and
    /// shrinks by one with each loop exited, and changes at no other step.
    pub proof fn lemma_after_loop_depth(self, events: Seq<Event>)
        requires
            self.wf(),
        ensures
            self.after(events).stack.len() == self.stack.len() + self.loops_entered(events)
                - self.loops_exited(events),
        decreases events.len(),
    {
        if events.len() > 0 {
            let before = events.drop_last();
            self.lemma_after_loop_depth(before);
            self.lemma_after_keeps_wf(before);
        }
    }
}

/// In every state that a machine over a tape of `capacity` cells reaches
/// from its start, the data pointer is on the tape.
pub proof fn lemma_data_ptr_in_bounds(capacity: nat, events: Seq<Event>)
    requires
        capacity >= 1,
    ensures
        0 <= Machine::fresh(capacity).after(events).data_ptr < capacity,
{
    Machine::fresh(capacity).lemma_after_keeps_wf(events);
}

/// In every state that a machine reaches from its start, the loop-return
/// stack is as long as the number of loops that were entered and have not
/// been exited since.
pub proof fn lemma_loop_depth_counts_open_loops(capacity: nat, events: Seq<Event>)
    requires
        capacity >= 1,
    ensures
        Machine::fresh(capacity).after(events).stack.len() == Machine::fresh(
            capacity,
        ).loops_entered(events) - Machine::fresh(capacity).loops_exited(events),
{
    Machine::fresh(capacity).lemma_after_loop_depth(events);
}

} // verus!
