use bf_interpreter::interpreter::math_utils::{safe_delta_u8, DeltaError};
use bf_interpreter::interpreter::memory::{InterpreterMemory, MEMORY_SIZE};

#[test]
fn tape_has_thirty_thousand_zero_cells() {
    assert_eq!(MEMORY_SIZE, 30_000);
    let memory = InterpreterMemory::new();
    assert_eq!(memory.read(0), Ok(0));
    assert_eq!(memory.read(14_999), Ok(0));
    assert_eq!(memory.read(29_999), Ok(0));
}

#[test]
fn read_fails_from_the_capacity_on() {
    let memory = InterpreterMemory::new();
    assert_eq!(memory.read(30_000), Err(()));
    assert_eq!(memory.read(30_001), Err(()));
    assert_eq!(memory.read(usize::MAX), Err(()));
}

#[test]
fn write_stores_one_cell_and_no_other() {
    let mut memory = InterpreterMemory::new();
    assert_eq!(memory.write(7, 200), Ok(()));
    assert_eq!(memory.read(7), Ok(200));
    assert_eq!(memory.read(6), Ok(0));
    assert_eq!(memory.read(8), Ok(0));
    assert_eq!(memory.write(29_999, 1), Ok(()));
    assert_eq!(memory.read(29_999), Ok(1));
    assert_eq!(memory.write(7, 3), Ok(()));
    assert_eq!(memory.read(7), Ok(3));
}

#[test]
fn write_fails_from_the_capacity_on_and_changes_nothing() {
    let mut memory = InterpreterMemory::new();
    assert_eq!(memory.write(3, 9), Ok(()));
    assert_eq!(memory.write(30_000, 5), Err(()));
    assert_eq!(memory.write(usize::MAX, 5), Err(()));
    assert_eq!(memory.read(3), Ok(9));
    assert_eq!(memory.read(29_999), Ok(0));
    assert_eq!(memory.dump(), "[00.00.00.]");
}

#[test]
fn dump_of_a_fresh_tape_is_empty() {
    assert_eq!(InterpreterMemory::new().dump(), "[]");
}

#[test]
fn dump_shows_the_cells_below_the_highest_written() {
    let mut memory = InterpreterMemory::new();
    assert_eq!(memory.write(0, 0xAB), Ok(()));
    assert_eq!(memory.dump(), "[]");
    assert_eq!(memory.write(3, 0xFF), Ok(()));
    assert_eq!(memory.write(1, 0x0C), Ok(()));
    assert_eq!(memory.write(2, 0x90), Ok(()));
    assert_eq!(memory.dump(), "[AB.0C.90.]");
    assert_eq!(memory.write(4, 1), Ok(()));
    assert_eq!(memory.dump(), "[AB.0C.90.FF.]");
}

#[test]
fn delta_of_one_up_and_down() {
    assert_eq!(safe_delta_u8(0, 1), Ok(1));
    assert_eq!(safe_delta_u8(254, 1), Ok(255));
    assert_eq!(safe_delta_u8(255, -1), Ok(254));
    assert_eq!(safe_delta_u8(1, -1), Ok(0));
    assert_eq!(safe_delta_u8(100, 0), Ok(100));
}

#[test]
fn delta_does_not_wrap_around() {
    assert_eq!(safe_delta_u8(255, 1), Err(DeltaError { right: 1 }));
    assert_eq!(safe_delta_u8(0, -1), Err(DeltaError { right: -1 }));
}

#[test]
fn delta_of_any_size() {
    assert_eq!(safe_delta_u8(128, 127), Ok(255));
    assert_eq!(safe_delta_u8(129, 127), Err(DeltaError { right: 127 }));
    assert_eq!(safe_delta_u8(128, -128), Ok(0));
    assert_eq!(safe_delta_u8(127, -128), Err(DeltaError { right: -128 }));
    assert_eq!(safe_delta_u8(200, -128), Ok(72));
}
