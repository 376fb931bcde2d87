use vm_translator::instr::MemorySegment;
use vm_translator::instr::ParsedVMInstruction;
use vm_translator::instr::VmError;
use vm_translator::program::TranslationUnit;
use vm_translator::program::translate_directory;
use vm_translator::program::translate_file;
use vm_translator::translator::Translator;

fn lines_of(v: &[&str]) -> Vec<String> {
    v.iter().map(|s| s.to_string()).collect()
}

#[test]
fn test_translate_add() {
    let mut t = Translator::new(String::from("T"));
    t.translate(&ParsedVMInstruction::Add).unwrap();
    assert_eq!(t.output, lines_of(&["@SP", "AM=M-1", "D=M", "A=A-1", "M=M+D"]));
}

#[test]
fn test_translate_fixed_blocks() {
    let cases: Vec<(ParsedVMInstruction, Vec<&str>)> = vec![
        (ParsedVMInstruction::Sub, vec!["@SP", "AM=M-1", "D=M", "A=A-1", "M=M-D"]),
        (ParsedVMInstruction::And, vec!["@SP", "AM=M-1", "D=M", "A=A-1", "M=D&M"]),
        (ParsedVMInstruction::Or, vec!["@SP", "AM=M-1", "D=M", "A=A-1", "M=D|M"]),
        (ParsedVMInstruction::Neg, vec!["@SP", "A=M-1", "M=-M"]),
        (ParsedVMInstruction::Not, vec!["@SP", "A=M-1", "M=!M"]),
    ];
    for (instr, expected) in cases {
        let mut t = Translator::new(String::from("T"));
        t.translate(&instr).unwrap();
        assert_eq!(t.output, lines_of(&expected));
    }
}

#[test]
fn test_translate_comparison_jump_target() {
    let mut t = Translator::new(String::from("T"));
    t.translate(&ParsedVMInstruction::Eq).unwrap();
    assert_eq!(
        t.output,
        lines_of(&[
            "@SP", "AM=M-1", "D=M", "A=A-1", "D=M-D", "M=-1", "@11", "D;JEQ", "@SP", "A=M-1",
            "M=0"
        ])
    );
    // the skip target tracks the emitted-instruction count
    t.translate(&ParsedVMInstruction::Lt).unwrap();
    assert_eq!(t.output[17], "@22");
    assert_eq!(t.output[18], "D;JLT");
}

#[test]
fn test_translate_push_constant() {
    let mut t = Translator::new(String::from("T"));
    t.translate(&ParsedVMInstruction::Push { segment: MemorySegment::Constant, idx: 7 })
        .unwrap();
    assert_eq!(t.output, lines_of(&["@7", "D=A", "@SP", "M=M+1", "A=M-1", "M=D"]));
}

#[test]
fn test_translate_segment_access() {
    let mut t = Translator::new(String::from("Foo"));
    t.translate(&ParsedVMInstruction::Pop { segment: MemorySegment::Argument, idx: 2 })
        .unwrap();
    assert_eq!(
        t.output,
        lines_of(&["@2", "D=A", "@ARG", "D=D+M", "@SP", "AM=M-1", "D=D+M", "A=D-M", "M=D-A"])
    );
    let n = t.output.len();
    t.translate(&ParsedVMInstruction::Push { segment: MemorySegment::Local, idx: 1 })
        .unwrap();
    assert_eq!(
        t.output[n..],
        lines_of(&["@1", "D=A", "@LCL", "A=D+M", "D=M", "@SP", "M=M+1", "A=M-1", "M=D"])[..]
    );
    let n = t.output.len();
    t.translate(&ParsedVMInstruction::Push { segment: MemorySegment::Temp, idx: 3 })
        .unwrap();
    assert_eq!(t.output[n], "@8");
    let n = t.output.len();
    t.translate(&ParsedVMInstruction::Pop { segment: MemorySegment::Static, idx: 5 })
        .unwrap();
    assert_eq!(t.output[n + 3], "@Foo.5");
    let n = t.output.len();
    t.translate(&ParsedVMInstruction::Push { segment: MemorySegment::Pointer, idx: 1 })
        .unwrap();
    assert_eq!(t.output[n], "@THAT");
    let n = t.output.len();
    t.translate(&ParsedVMInstruction::Pop { segment: MemorySegment::Pointer, idx: 0 })
        .unwrap();
    assert_eq!(t.output[n + 3], "@THIS");
}

#[test]
fn test_translate_semantic_errors_leave_generator_unchanged() {
    let mut t = Translator::new(String::from("T"));
    t.translate(&ParsedVMInstruction::Push { segment: MemorySegment::Constant, idx: 1 })
        .unwrap();
    let before = t.output.clone();
    assert_eq!(
        t.translate(&ParsedVMInstruction::Pop { segment: MemorySegment::Constant, idx: 0 }),
        Err(VmError::ConstantPop)
    );
    assert_eq!(
        t.translate(&ParsedVMInstruction::Pop { segment: MemorySegment::Pointer, idx: 2 }),
        Err(VmError::BadPointerIndex)
    );
    assert_eq!(
        t.translate(&ParsedVMInstruction::Push { segment: MemorySegment::Pointer, idx: 9 }),
        Err(VmError::BadPointerIndex)
    );
    assert_eq!(t.output, before);
}

#[test]
fn test_translate_branching() {
    let mut t = Translator::new(String::from("T"));
    t.translate(&ParsedVMInstruction::Label { label: String::from("LOOP") }).unwrap();
    assert_eq!(t.output, lines_of(&["(LOOP)"]));
    t.translate(&ParsedVMInstruction::Goto { label: String::from("LOOP") }).unwrap();
    assert_eq!(t.output[1..], lines_of(&["@LOOP", "0;JMP"])[..]);
    t.translate(&ParsedVMInstruction::IfGoto { label: String::from("END") }).unwrap();
    assert_eq!(t.output[3..], lines_of(&["@SP", "AM=M-1", "D=M", "@END", "D;JNE"])[..]);
}

#[test]
fn test_translate_function_grows_stack() {
    let mut t = Translator::new(String::from("T"));
    t.translate(&ParsedVMInstruction::Function {
        name: String::from("Main.fib"),
        num_local_vars: 2,
    })
    .unwrap();
    assert_eq!(
        t.output,
        lines_of(&[
            "(Main.fib)",
            "@SP",
            "M=M+1",
            "A=M-1",
            "M=0",
            "@SP",
            "M=M+1",
            "A=M-1",
            "M=0"
        ])
    );
}

#[test]
fn test_translate_return_block() {
    let mut t = Translator::new(String::from("T"));
    t.translate(&ParsedVMInstruction::Return).unwrap();
    assert_eq!(t.output.len(), 44);
    assert_eq!(t.output[0], "@LCL");
    assert_eq!(t.output[43], "0;JMP");
}

#[test]
fn test_sequential_calls_get_distinct_return_labels() {
    let mut t = Translator::new(String::from("T"));
    t.translate(&ParsedVMInstruction::Call { name: String::from("Foo.bar"), num_args: 0 })
        .unwrap();
    let first = t.output.last().unwrap().clone();
    let n = t.output.len();
    t.translate(&ParsedVMInstruction::Call { name: String::from("Foo.bar"), num_args: 0 })
        .unwrap();
    let second = t.output.last().unwrap().clone();
    assert_eq!(first, "(Foo.bar$ret.0)");
    assert_eq!(second, "(Foo.bar$ret.1)");
    assert_ne!(first, second);
    assert_eq!(t.output[0], "@Foo.bar$ret.0");
    assert_eq!(t.output[n], "@Foo.bar$ret.1");
}

#[test]
fn test_call_block_shape() {
    let mut t = Translator::new(String::from("T"));
    t.translate(&ParsedVMInstruction::Call { name: String::from("F.g"), num_args: 2 })
        .unwrap();
    assert_eq!(t.output.len(), 43);
    assert_eq!(t.output[0], "@F.g$ret.0");
    // the saved frame: return address, then LCL, ARG, THIS, THAT
    assert_eq!(t.output[6], "@LCL");
    assert_eq!(t.output[12], "@ARG");
    assert_eq!(t.output[18], "@THIS");
    assert_eq!(t.output[24], "@THAT");
    // the new Argument pointer skips the five saved cells plus the arguments
    assert_eq!(t.output[30], "@7");
    assert_eq!(t.output[40], "@F.g");
    assert_eq!(t.output[41], "0;JMP");
    assert_eq!(t.output[42], "(F.g$ret.0)");
}

#[test]
fn test_translate_file_success_and_errors() {
    let out = translate_file("Unit", &lines_of(&["push constant 7", "push constant 8", "add"]))
        .unwrap();
    assert_eq!(out.len(), 17);
    assert_eq!(out[0], "@7");
    assert_eq!(
        translate_file("Unit", &lines_of(&["bogus"])),
        Err(VmError::UnknownMnemonic)
    );
    assert_eq!(
        translate_file("Unit", &lines_of(&["push constant 1", "pop constant 5"])),
        Err(VmError::ConstantPop)
    );
    assert_eq!(
        translate_file("Unit", &lines_of(&["pop pointer 3"])),
        Err(VmError::BadPointerIndex)
    );
}

#[test]
fn test_translate_file_namespaces_static_cells() {
    let a = translate_file("A", &lines_of(&["pop static 1"])).unwrap();
    let b = translate_file("B", &lines_of(&["pop static 1"])).unwrap();
    assert_eq!(a[3], "@A.1");
    assert_eq!(b[3], "@B.1");
}

#[test]
fn test_directory_bootstrap_once_at_start() {
    let units = vec![
        TranslationUnit {
            name: String::from("Sys"),
            lines: lines_of(&["function Sys.init 0", "call Main.main 0"]),
        },
        TranslationUnit {
            name: String::from("Main"),
            lines: lines_of(&["function Main.main 0", "push constant 1", "call Main.main 1"]),
        },
    ];
    let out = translate_directory(&units).unwrap();
    // the bootstrap prologue stands exactly once, at the very start
    assert_eq!(out[0], "@256");
    assert_eq!(out[1], "D=A");
    assert_eq!(out[2], "@SP");
    assert_eq!(out[3], "M=D");
    assert_eq!(out[4], "@Sys.init$ret.0");
    assert_eq!(out.iter().filter(|l| l.as_str() == "@256").count(), 1);
    // exactly one call site jumps to the entry function
    let entry_calls = (0..out.len() - 1)
        .filter(|&i| out[i] == "@Sys.init" && out[i + 1] == "0;JMP")
        .count();
    assert_eq!(entry_calls, 1);
    // call-site counters stay global across units: every synthesized
    // return-address label is unique program-wide
    let mut ret_labels: Vec<&String> = out
        .iter()
        .filter(|l| l.starts_with('(') && l.contains("$ret."))
        .collect();
    let total = ret_labels.len();
    ret_labels.sort();
    ret_labels.dedup();
    assert_eq!(ret_labels.len(), total);
    assert_eq!(total, 3);
}

#[test]
fn test_directory_renames_static_namespace_between_units() {
    let units = vec![
        TranslationUnit {
            name: String::from("One"),
            lines: lines_of(&["push static 0"]),
        },
        TranslationUnit {
            name: String::from("Two"),
            lines: lines_of(&["push static 0"]),
        },
    ];
    let out = translate_directory(&units).unwrap();
    assert!(out.contains(&String::from("@One.0")));
    assert!(out.contains(&String::from("@Two.0")));
}

#[test]
fn test_directory_propagates_errors() {
    let units = vec![TranslationUnit {
        name: String::from("Sys"),
        lines: lines_of(&["function Sys.init 0", "pop constant 1"]),
    }];
    assert_eq!(translate_directory(&units), Err(VmError::ConstantPop));
}
