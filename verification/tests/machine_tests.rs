//! End-to-end checks: the generated instruction lines are executed on a
//! small interpreter of the target machine (an accumulator, one data
//! register, one address register, 16-bit words, memory-mapped pointers).

use std::collections::HashMap;

use vm_translator::program::TranslationUnit;
use vm_translator::program::translate_directory;
use vm_translator::program::translate_file;

enum Code {
    At(i16),
    Compute { dest: String, comp: String, jump: String },
}

fn assemble(lines: &[String]) -> Vec<Code> {
    let mut symbols: HashMap<String, i16> = HashMap::new();
    symbols.insert("SP".to_string(), 0);
    symbols.insert("LCL".to_string(), 1);
    symbols.insert("ARG".to_string(), 2);
    symbols.insert("THIS".to_string(), 3);
    symbols.insert("THAT".to_string(), 4);
    for r in 0..16 {
        symbols.insert(format!("R{}", r), r);
    }
    symbols.insert("SCREEN".to_string(), 16384);
    symbols.insert("KBD".to_string(), 24576);
    // first pass: label definitions name instruction indices
    let mut index: i16 = 0;
    for line in lines {
        if let Some(rest) = line.strip_prefix('(') {
            let name = rest.strip_suffix(')').expect("unclosed label line");
            assert!(
                symbols.insert(name.to_string(), index).is_none(),
                "duplicate label {}",
                name
            );
        } else {
            index += 1;
        }
    }
    // second pass: translate, allocating variables from address 16 up
    let mut next_var: i16 = 16;
    let mut code = Vec::new();
    for line in lines {
        if line.starts_with('(') {
            continue;
        }
        if let Some(sym) = line.strip_prefix('@') {
            let value = if sym.chars().all(|c| c.is_ascii_digit()) {
                sym.parse::<i16>().expect("address literal out of range")
            } else if let Some(v) = symbols.get(sym) {
                *v
            } else {
                symbols.insert(sym.to_string(), next_var);
                next_var += 1;
                next_var - 1
            };
            code.push(Code::At(value));
        } else {
            let (dest, rest) = match line.split_once('=') {
                Some((d, r)) => (d.to_string(), r),
                None => (String::new(), line.as_str()),
            };
            let (comp, jump) = match rest.split_once(';') {
                Some((c, j)) => (c.to_string(), j.to_string()),
                None => (rest.to_string(), String::new()),
            };
            code.push(Code::Compute { dest, comp, jump });
        }
    }
    code
}

fn eval_comp(comp: &str, a: i16, d: i16, m: i16) -> i16 {
    match comp {
        "0" => 0,
        "1" => 1,
        "-1" => -1,
        "D" => d,
        "A" => a,
        "M" => m,
        "!D" => !d,
        "!A" => !a,
        "!M" => !m,
        "-D" => d.wrapping_neg(),
        "-A" => a.wrapping_neg(),
        "-M" => m.wrapping_neg(),
        "D+1" => d.wrapping_add(1),
        "A+1" => a.wrapping_add(1),
        "M+1" => m.wrapping_add(1),
        "D-1" => d.wrapping_sub(1),
        "A-1" => a.wrapping_sub(1),
        "M-1" => m.wrapping_sub(1),
        "D+A" => d.wrapping_add(a),
        "D+M" => d.wrapping_add(m),
        "M+D" => m.wrapping_add(d),
        "D-A" => d.wrapping_sub(a),
        "D-M" => d.wrapping_sub(m),
        "A-D" => a.wrapping_sub(d),
        "M-D" => m.wrapping_sub(d),
        "D&A" => d & a,
        "D&M" => d & m,
        "D|A" => d | a,
        "D|M" => d | m,
        other => panic!("unknown computation {}", other),
    }
}

fn jumps(jump: &str, value: i16) -> bool {
    match jump {
        "" => false,
        "JGT" => value > 0,
        "JEQ" => value == 0,
        "JGE" => value >= 0,
        "JLT" => value < 0,
        "JNE" => value != 0,
        "JLE" => value <= 0,
        "JMP" => true,
        other => panic!("unknown jump {}", other),
    }
}

/// Runs the assembled program until it falls off the end or the step budget
/// runs out (programs that end in a tight loop use up the budget).
fn run(lines: &[String], mem_init: &[(usize, i16)], max_steps: usize) -> Vec<i16> {
    let code = assemble(lines);
    let mut mem = vec![0i16; 32768];
    for &(addr, value) in mem_init {
        mem[addr] = value;
    }
    let mut a: i16 = 0;
    let mut d: i16 = 0;
    let mut pc: usize = 0;
    let mut steps: usize = 0;
    while pc < code.len() && steps < max_steps {
        steps += 1;
        match &code[pc] {
            Code::At(v) => {
                a = *v;
                pc += 1;
            }
            Code::Compute { dest, comp, jump } => {
                let m = mem[a as u16 as usize % 32768];
                let value = eval_comp(comp, a, d, m);
                if dest.contains('M') {
                    mem[a as u16 as usize % 32768] = value;
                }
                if dest.contains('D') {
                    d = value;
                }
                if dest.contains('A') {
                    a = value;
                }
                if jumps(jump, value) {
                    pc = a as u16 as usize;
                } else {
                    pc += 1;
                }
            }
        }
    }
    mem
}

fn lines_of(v: &[&str]) -> Vec<String> {
    v.iter().map(|s| s.to_string()).collect()
}

#[test]
fn test_push_constant_grows_stack_by_one() {
    for n in [0i16, 1, 7, 255, 12345] {
        let src = vec![format!("push constant {}", n)];
        let out = translate_file("T", &src).unwrap();
        let mem = run(&out, &[(0, 256)], 10_000);
        assert_eq!(mem[0], 257, "stack depth must grow by exactly one");
        assert_eq!(mem[256], n, "the new top of stack must hold the constant");
    }
}

#[test]
fn test_push_pop_round_trip_restores_depth_and_cell() {
    // (segment pointer cell, its base, cell offset, index, value)
    let cases: Vec<(&str, usize, usize, u16, i16)> = vec![
        ("local", 1, 302, 2, 42),
        ("argument", 2, 403, 3, -7),
        ("this", 3, 505, 5, 9),
        ("that", 4, 600, 0, 3),
    ];
    for (seg, ptr_cell, cell, idx, value) in cases {
        let base = (cell - idx as usize) as i16;
        let src = lines_of(&[
            &format!("push {} {}", seg, idx),
            &format!("pop {} {}", seg, idx),
        ]);
        let out = translate_file("T", &src).unwrap();
        let mem = run(&out, &[(0, 256), (ptr_cell, base), (cell, value)], 10_000);
        assert_eq!(mem[0], 256, "stack depth must be restored for {}", seg);
        assert_eq!(mem[cell], value, "the {} cell must be unchanged", seg);
    }
    // temp: fixed offset five
    let out = translate_file("T", &lines_of(&["push temp 3", "pop temp 3"])).unwrap();
    let mem = run(&out, &[(0, 256), (8, 77)], 10_000);
    assert_eq!(mem[0], 256);
    assert_eq!(mem[8], 77);
    // pointer: the This cell itself
    let out = translate_file("T", &lines_of(&["push pointer 0", "pop pointer 0"])).unwrap();
    let mem = run(&out, &[(0, 256), (3, 123)], 10_000);
    assert_eq!(mem[0], 256);
    assert_eq!(mem[3], 123);
}

#[test]
fn test_static_cell_round_trip() {
    let src = lines_of(&["push constant 55", "pop static 2", "push static 2"]);
    let out = translate_file("T", &src).unwrap();
    let mem = run(&out, &[(0, 256)], 10_000);
    assert_eq!(mem[0], 257);
    assert_eq!(mem[256], 55);
}

#[test]
fn test_seven_plus_eight_leaves_fifteen() {
    let src = lines_of(&["push constant 7", "push constant 8", "add"]);
    let out = translate_file("T", &src).unwrap();
    let mem = run(&out, &[(0, 256)], 10_000);
    assert_eq!(mem[0], 257, "exactly one value must remain on the stack");
    assert_eq!(mem[256], 15);
}

#[test]
fn test_comparisons_leave_true_or_false() {
    for (op, l, r, expected) in [
        ("eq", 4, 4, -1i16),
        ("eq", 4, 5, 0),
        ("gt", 9, 2, -1),
        ("gt", 2, 9, 0),
        ("lt", 2, 9, -1),
        ("lt", 9, 2, 0),
    ] {
        let src = lines_of(&[
            &format!("push constant {}", l),
            &format!("push constant {}", r),
            op,
        ]);
        let out = translate_file("T", &src).unwrap();
        let mem = run(&out, &[(0, 256)], 10_000);
        assert_eq!(mem[0], 257);
        assert_eq!(mem[256], expected, "{} {} {}", l, op, r);
    }
}

#[test]
fn test_recursive_function_preserves_frames() {
    let sys = TranslationUnit {
        name: "Sys".to_string(),
        lines: lines_of(&[
            "function Sys.init 0",
            "push constant 7",
            "call Main.fib 1",
            "label END",
            "goto END",
        ]),
    };
    let main = TranslationUnit {
        name: "Main".to_string(),
        lines: lines_of(&[
            "function Main.fib 0",
            "push argument 0",
            "push constant 2",
            "lt",
            "if-goto BASE",
            "push argument 0",
            "push constant 2",
            "sub",
            "call Main.fib 1",
            "push argument 0",
            "push constant 1",
            "sub",
            "call Main.fib 1",
            "add",
            "return",
            "label BASE",
            "push argument 0",
            "return",
        ]),
    };
    let out = translate_directory(&vec![sys, main]).unwrap();
    let mem = run(&out, &[], 2_000_000);
    let sp = mem[0] as usize;
    // fib(7) with fib(0)=0 and fib(1)=1
    assert_eq!(mem[sp - 1], 13, "the return value must sit on top of the stack");
}
