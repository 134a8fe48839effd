//! The tape: a fixed number of byte cells behind checked accessors.

use vstd::prelude::*;
use vstd::string::StringExecFns;

verus! {

/// The number of cells of the tape.
pub const MEMORY_SIZE: usize = 30_000;

/// The upper-case hexadecimal digit of a value below 16.
pub open spec fn hex_digit(value: int) -> char {
    if value < 10 {
        ('0' as int + value) as char
    } else {
        ('A' as int + value - 10) as char
    }
}

/// One cell in a dump: its two hexadecimal digits and a dot.
pub open spec fn hex_cell(byte: u8) -> Seq<char> {
    seq![hex_digit(byte as int / 16), hex_digit(byte as int % 16), '.']
}

/// The cells of a dump, one after the other.
pub open spec fn hex_cells(cells: Seq<u8>) -> Seq<char>
    decreases cells.len(),
{
    if cells.len() == 0 {
        Seq::empty()
    } else {
        hex_cells(cells.drop_last()) + hex_cell(cells.last())
    }
}

/// The dump of `cells`: the cells between square brackets.
pub open spec fn dump_text(cells: Seq<u8>) -> Seq<char> {
    seq!['['] + hex_cells(cells) + seq![']']
}

/// The hexadecimal digit of `value` as text.
fn hex_digit_str(value: u8) -> (digit: &'static str)
    requires
        value < 16,
    ensures
        digit@ == seq![hex_digit(value as int)],
{
    proof {
        reveal_strlit("0");
        reveal_strlit("1");
        reveal_strlit("2");
        reveal_strlit("3");
        reveal_strlit("4");
        reveal_strlit("5");
        reveal_strlit("6");
        reveal_strlit("7");
        reveal_strlit("8");
        reveal_strlit("9");
        reveal_strlit("A");
        reveal_strlit("B");
        reveal_strlit("C");
        reveal_strlit("D");
        reveal_strlit("E");
        reveal_strlit("F");
    }
    let digit = match value {
        0 => "0",
        1 => "1",
        2 => "2",
        3 => "3",
        4 => "4",
        5 => "5",
        6 => "6",
        7 => "7",
        8 => "8",
        9 => "9",
        10 => "A",
        11 => "B",
        12 => "C",
        13 => "D",
        14 => "E",
        _ => "F",
    };
    assert(digit@ =~= seq![hex_digit(value as int)]);
    digit
}

/// A tape of `MEMORY_SIZE` cells, all zero at first. It never grows.
///
/// Its view is the sequence of its cells. Beside the cells it remembers the
/// highest address written so far, which only serves diagnostic dumps.
#[derive(Debug)]
pub struct InterpreterMemory {
    memory: [u8; MEMORY_SIZE],
    highest_written: usize,
}

impl View for InterpreterMemory {
    type V = Seq<u8>;

    closed spec fn view(&self) -> Seq<u8> {
        self.memory@
    }
}

impl InterpreterMemory {
    #[verifier::type_invariant]
    spec fn inv(self) -> bool {
        self.highest_written < MEMORY_SIZE
    }

    /// The highest address that was written, 0 while none was.
    pub closed spec fn highest_written(&self) -> nat {
        self.highest_written as nat
    }

    /// The tape has `MEMORY_SIZE` cells at all times.
    pub proof fn lemma_capacity(&self)
        ensures
            self@.len() == MEMORY_SIZE,
    {
    }

    /// A tape of zeros.
    pub fn new() -> (memory: Self)
        ensures
            memory@ == Seq::new(MEMORY_SIZE as nat, |i: int| 0u8),
            memory.highest_written() == 0,
    {
        InterpreterMemory { memory: [0u8; MEMORY_SIZE], highest_written: 0 }
    }

    /// The byte at `address`, or an error when the address is not on the tape.
    pub fn read(&self, address: usize) -> (result: Result<u8, ()>)
        ensures
            address < MEMORY_SIZE ==> result == Ok::<u8, ()>(self@[address as int]),
            address >= MEMORY_SIZE ==> result == Err::<u8, ()>(()),
    {
        if address < MEMORY_SIZE {
            Ok(self.memory[address])
        } else {
            Err(())
        }
    }

    /// Stores `value` at `address`, or fails as `read` does and leaves the
    /// tape as it was.
    pub fn write(&mut self, address: usize, value: u8) -> (result: Result<(), ()>)
        ensures
            address < MEMORY_SIZE ==> {
                &&& result == Ok::<(), ()>(())
                &&& final(self)@ == old(self)@.update(address as int, value)
                &&& final(self).highest_written() == if address > old(self).highest_written() {
                    address as nat
                } else {
                    old(self).highest_written()
                }
            },
            address >= MEMORY_SIZE ==> {
                &&& result == Err::<(), ()>(())
                &&& final(self)@ == old(self)@
                &&& final(self).highest_written() == old(self).highest_written()
            },
    {
        proof {
            use_type_invariant(&*self);
        }
        if address < MEMORY_SIZE {
            self.memory[address] = value;
            if address > self.highest_written {
                self.highest_written = address;
            }
            Ok(())
        } else {
            Err(())
        }
    }

    /// The cells below the highest address written, in hexadecimal, for
    /// diagnostics.
    pub fn dump(&self) -> (text: String)
        ensures
            text@ == dump_text(self@.subrange(0, self.highest_written() as int)),
    {
        proof {
            use_type_invariant(self);
            reveal_strlit("[");
            reveal_strlit("]");
        }
        let mut text = String::from_str("[");
        let mut idx: usize = 0;
        assert(self@.subrange(0, 0) =~= Seq::<u8>::empty());
        assert(text@ =~= seq!['['] + hex_cells(self@.subrange(0, 0)));
        while idx < self.highest_written
            invariant
                idx <= self.highest_written < MEMORY_SIZE,
                text@ == seq!['['] + hex_cells(self@.subrange(0, idx as int)),
            decreases self.highest_written - idx,
        {
            let byte: u8 = self.memory[idx];
            let ghost written = text@;
            text.append(hex_digit_str(byte / 16));
            text.append(hex_digit_str(byte % 16));
            text.append(".");
            proof {
                reveal_strlit(".");
                let cells = self@.subrange(0, idx + 1);
                assert(cells.drop_last() =~= self@.subrange(0, idx as int));
                assert(cells.last() == byte);
                assert(text@ =~= written + hex_cell(byte));
                assert(text@ =~= seq!['['] + hex_cells(cells));
            }
            idx += 1;
        }
        text.append("]");
        text
    }
}

} // verus!
