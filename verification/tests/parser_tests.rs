use vm_translator::instr::MemorySegment;
use vm_translator::instr::ParsedVMInstruction;
use vm_translator::instr::VmError;
use vm_translator::parser::parse_instruction;

#[test]
fn test_parse_valid_instruction() {
    let test_cases = vec![
        (
            "push constant 10",
            ParsedVMInstruction::Push {
                segment: MemorySegment::Constant,
                idx: 10,
            },
        ),
        (
            "pop argument 2",
            ParsedVMInstruction::Pop {
                segment: MemorySegment::Argument,
                idx: 2,
            },
        ),
        ("add", ParsedVMInstruction::Add),
        ("sub", ParsedVMInstruction::Sub),
    ];

    for test in test_cases {
        let parsed_instruction = parse_instruction(test.0).unwrap();
        assert_eq!(parsed_instruction, test.1);
    }
}

#[test]
fn test_parse_invalid_instruction() {
    assert_eq!(parse_instruction("gte"), Err(VmError::UnknownMnemonic));
}

#[test]
fn test_parse_invalid_push_instruction() {
    assert_eq!(parse_instruction("push constant"), Err(VmError::BadOperand));
}

#[test]
fn test_parse_all_zero_operand_mnemonics() {
    assert_eq!(parse_instruction("add"), Ok(ParsedVMInstruction::Add));
    assert_eq!(parse_instruction("sub"), Ok(ParsedVMInstruction::Sub));
    assert_eq!(parse_instruction("neg"), Ok(ParsedVMInstruction::Neg));
    assert_eq!(parse_instruction("eq"), Ok(ParsedVMInstruction::Eq));
    assert_eq!(parse_instruction("gt"), Ok(ParsedVMInstruction::Gt));
    assert_eq!(parse_instruction("lt"), Ok(ParsedVMInstruction::Lt));
    assert_eq!(parse_instruction("and"), Ok(ParsedVMInstruction::And));
    assert_eq!(parse_instruction("or"), Ok(ParsedVMInstruction::Or));
    assert_eq!(parse_instruction("not"), Ok(ParsedVMInstruction::Not));
    assert_eq!(parse_instruction("return"), Ok(ParsedVMInstruction::Return));
}

#[test]
fn test_parse_every_segment() {
    let cases = vec![
        ("local", MemorySegment::Local),
        ("argument", MemorySegment::Argument),
        ("this", MemorySegment::This),
        ("that", MemorySegment::That),
        ("static", MemorySegment::Static),
        ("pointer", MemorySegment::Pointer),
        ("temp", MemorySegment::Temp),
    ];
    for (name, seg) in cases {
        let push = parse_instruction(&format!("push {} 3", name)).unwrap();
        assert_eq!(
            push,
            ParsedVMInstruction::Push {
                segment: seg,
                idx: 3
            }
        );
        let pop = parse_instruction(&format!("pop {} 3", name)).unwrap();
        assert_eq!(
            pop,
            ParsedVMInstruction::Pop {
                segment: seg,
                idx: 3
            }
        );
    }
    assert_eq!(
        parse_instruction("push constant 0"),
        Ok(ParsedVMInstruction::Push {
            segment: MemorySegment::Constant,
            idx: 0
        })
    );
}

#[test]
fn test_pop_constant_rejected_for_every_index() {
    for idx in ["0", "1", "7", "65535", "99999", "x"] {
        let line = format!("pop constant {}", idx);
        assert_eq!(parse_instruction(&line), Err(VmError::ConstantPop));
    }
    assert_eq!(parse_instruction("pop constant"), Err(VmError::ConstantPop));
}

#[test]
fn test_parse_branching_and_functions() {
    assert_eq!(
        parse_instruction("label LOOP"),
        Ok(ParsedVMInstruction::Label {
            label: String::from("LOOP")
        })
    );
    assert_eq!(
        parse_instruction("goto LOOP"),
        Ok(ParsedVMInstruction::Goto {
            label: String::from("LOOP")
        })
    );
    assert_eq!(
        parse_instruction("if-goto LOOP"),
        Ok(ParsedVMInstruction::IfGoto {
            label: String::from("LOOP")
        })
    );
    assert_eq!(
        parse_instruction("function Main.fib 2"),
        Ok(ParsedVMInstruction::Function {
            name: String::from("Main.fib"),
            num_local_vars: 2
        })
    );
    assert_eq!(
        parse_instruction("call Main.fib 1"),
        Ok(ParsedVMInstruction::Call {
            name: String::from("Main.fib"),
            num_args: 1
        })
    );
}

#[test]
fn test_parse_error_taxonomy() {
    assert_eq!(parse_instruction(""), Err(VmError::UnknownMnemonic));
    assert_eq!(parse_instruction("pop bogus 1"), Err(VmError::UnknownSegment));
    assert_eq!(parse_instruction("push bogus 1"), Err(VmError::UnknownSegment));
    assert_eq!(parse_instruction("pop local"), Err(VmError::BadOperand));
    assert_eq!(parse_instruction("push local x"), Err(VmError::BadOperand));
    assert_eq!(parse_instruction("push local 65536"), Err(VmError::BadOperand));
    assert_eq!(parse_instruction("push local -1"), Err(VmError::BadOperand));
    assert_eq!(parse_instruction("label"), Err(VmError::BadOperand));
    assert_eq!(parse_instruction("goto"), Err(VmError::BadOperand));
    assert_eq!(parse_instruction("if-goto"), Err(VmError::BadOperand));
    assert_eq!(parse_instruction("function f"), Err(VmError::BadOperand));
    assert_eq!(parse_instruction("call f"), Err(VmError::BadOperand));
    assert_eq!(parse_instruction("function f x"), Err(VmError::BadOperand));
    assert_eq!(parse_instruction("call f 70000"), Err(VmError::BadOperand));
}

#[test]
fn test_parse_numeric_operand_bounds() {
    assert_eq!(
        parse_instruction("push constant 65535"),
        Ok(ParsedVMInstruction::Push {
            segment: MemorySegment::Constant,
            idx: 65535
        })
    );
    assert_eq!(
        parse_instruction("push constant +12"),
        Ok(ParsedVMInstruction::Push {
            segment: MemorySegment::Constant,
            idx: 12
        })
    );
    assert_eq!(parse_instruction("push constant +"), Err(VmError::BadOperand));
}
