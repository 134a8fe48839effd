use bf_interpreter::symbol::{InterpreterInstruction, InterpreterSymbol};

#[test]
fn decodes_the_eight_instructions() {
    let table = [
        ('>', InterpreterInstruction::MovePtrRight),
        ('<', InterpreterInstruction::MovePtrLeft),
        ('+', InterpreterInstruction::IncrementPtr),
        ('-', InterpreterInstruction::DecrementPtr),
        ('.', InterpreterInstruction::PrintPtr),
        (',', InterpreterInstruction::ReadPtr),
        ('[', InterpreterInstruction::LoopStart),
        (']', InterpreterInstruction::LoopEnd),
    ];
    for (character, instruction) in table {
        assert_eq!(
            InterpreterSymbol::from_char(Some(&character)),
            InterpreterSymbol::Instruction(instruction)
        );
    }
}

#[test]
fn decodes_absence_as_end_of_source() {
    assert_eq!(InterpreterSymbol::from_char(None), InterpreterSymbol::EOF);
}

#[test]
fn decodes_any_other_character_as_other() {
    for character in ['a', ' ', '\n', '0', '{', '\u{e9}', '\u{1f600}'] {
        assert_eq!(
            InterpreterSymbol::from_char(Some(&character)),
            InterpreterSymbol::Other(character)
        );
    }
}
