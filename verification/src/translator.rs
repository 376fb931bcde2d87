//! The code generator: turns parsed instructions into target-machine
//! instruction lines, keeping the counters that make comparison jump
//! targets and call-site return labels unique, and the namespace that
//! qualifies static-segment addresses.

use vstd::prelude::*;
use vstd::string::StrSliceExecFns;
use vstd::string::StringExecFns;
use crate::instr::InstrView;
use crate::instr::MemorySegment;
use crate::instr::ParsedVMInstruction;
use crate::instr::VmError;
use crate::numeral::dec_string;
use crate::numeral::spec_dec;

verus! {

/// A label-definition line, which defines an address and does not advance
/// the instruction counter.
pub open spec fn is_label_line(l: Seq<char>) -> bool {
    l.len() > 0 && l[0] == '('
}

/// How many plain (non-label) instruction lines a sequence holds.
pub open spec fn code_count(lines: Seq<Seq<char>>) -> nat
    decreases lines.len(),
{
    if lines.len() == 0 {
        0
    } else {
        code_count(lines.drop_last()) + if is_label_line(lines.last()) {
            0nat
        } else {
            1nat
        }
    }
}

pub proof fn lemma_code_count_le_len(lines: Seq<Seq<char>>)
    ensures
        code_count(lines) <= lines.len(),
    decreases lines.len(),
{
    if lines.len() > 0 {
        lemma_code_count_le_len(lines.drop_last());
    }
}

pub proof fn lemma_code_count_push(lines: Seq<Seq<char>>, l: Seq<char>)
    ensures
        code_count(lines.push(l)) == code_count(lines) + if is_label_line(l) {
            0nat
        } else {
            1nat
        },
{
    assert(lines.push(l).drop_last() =~= lines);
    assert(lines.push(l).last() == l);
}

/// The generator's observable state: the namespace for static addresses,
/// the count of emitted non-label instructions, and the call-site counter.
#[verifier::ext_equal]
pub struct GenState {
    pub static_base: Seq<char>,
    pub next_instr: nat,
    pub call_counter: nat,
}

/// An addressing line for a symbol.
pub open spec fn addr_of(s: Seq<char>) -> Seq<char> {
    seq!['@'] + s
}

/// An addressing line for a numeric address or immediate value.
pub open spec fn addr_of_num(n: nat) -> Seq<char> {
    seq!['@'] + spec_dec(n)
}

/// A label-definition line for `s`.
pub open spec fn label_line_of(s: Seq<char>) -> Seq<char> {
    seq!['('] + s + seq![')']
}

/// The namespaced symbolic address of a static-segment cell.
pub open spec fn static_addr(base: Seq<char>, idx: u16) -> Seq<char> {
    seq!['@'] + base + seq!['.'] + spec_dec(idx as nat)
}

/// The synthesized return-address label of the call site numbered `cc`.
pub open spec fn ret_label(name: Seq<char>, cc: nat) -> Seq<char> {
    name + "$ret."@ + spec_dec(cc)
}

/// Pop two values, combine them with `op_line`, leave the result on top.
pub open spec fn binary_op_lines(op_line: Seq<char>) -> Seq<Seq<char>> {
    seq!["@SP"@, "AM=M-1"@, "D=M"@, "A=A-1"@, op_line]
}

/// Rewrite the top of the stack in place with `op_line`.
pub open spec fn unary_op_lines(op_line: Seq<char>) -> Seq<Seq<char>> {
    seq!["@SP"@, "A=M-1"@, op_line]
}

/// Pop two values and compare their difference: write true (-1)
/// unconditionally, then skip the corrective write of false (0) when the
/// jump condition holds. The skip target is the absolute index of the first
/// instruction after this block: eleven past the block's start.
pub open spec fn comparison_lines(jmp: Seq<char>, next_instr: nat) -> Seq<Seq<char>> {
    seq![
        "@SP"@,
        "AM=M-1"@,
        "D=M"@,
        "A=A-1"@,
        "D=M-D"@,
        "M=-1"@,
        addr_of_num(next_instr + 11),
        "D;"@ + jmp,
        "@SP"@,
        "A=M-1"@,
        "M=0"@,
    ]
}

/// Pop into a direct segment: address = segment pointer + idx.
pub open spec fn basic_pop_lines(segment: MemorySegment, idx: u16) -> Seq<Seq<char>> {
    seq![
        addr_of_num(idx as nat),
        "D=A"@,
        addr_of(segment.spec_seg_ptr()),
        "D=D+M"@,
        "@SP"@,
        "AM=M-1"@,
        "D=D+M"@,
        "A=D-M"@,
        "M=D-A"@,
    ]
}

/// Pop into the fixed-offset temp segment.
pub open spec fn pop_temp_lines(idx: u16) -> Seq<Seq<char>> {
    seq!["@SP"@, "AM=M-1"@, "D=M"@, addr_of_num(5 + idx as nat), "M=D"@]
}

/// Pop into one of the two object-reference pointer cells.
pub open spec fn pop_ptr_lines(idx: u16) -> Seq<Seq<char>> {
    seq![
        "@SP"@,
        "AM=M-1"@,
        "D=M"@,
        if idx == 0 {
            "@THIS"@
        } else {
            "@THAT"@
        },
        "M=D"@,
    ]
}

/// Pop into a namespaced static cell.
pub open spec fn pop_static_lines(base: Seq<char>, idx: u16) -> Seq<Seq<char>> {
    seq!["@SP"@, "AM=M-1"@, "D=M"@, static_addr(base, idx), "M=D"@]
}

/// Push an immediate constant.
pub open spec fn push_const_lines(idx: u16) -> Seq<Seq<char>> {
    seq![addr_of_num(idx as nat), "D=A"@, "@SP"@, "M=M+1"@, "A=M-1"@, "M=D"@]
}

/// Push from a direct segment: read memory at segment pointer + idx.
pub open spec fn basic_push_lines(segment: MemorySegment, idx: u16) -> Seq<Seq<char>> {
    seq![
        addr_of_num(idx as nat),
        "D=A"@,
        addr_of(segment.spec_seg_ptr()),
        "A=D+M"@,
        "D=M"@,
        "@SP"@,
        "M=M+1"@,
        "A=M-1"@,
        "M=D"@,
    ]
}

/// Push from the fixed-offset temp segment.
pub open spec fn push_temp_lines(idx: u16) -> Seq<Seq<char>> {
    seq![addr_of_num(5 + idx as nat), "D=M"@, "@SP"@, "M=M+1"@, "A=M-1"@, "M=D"@]
}

/// Push one of the two object-reference pointer cells.
pub open spec fn push_ptr_lines(idx: u16) -> Seq<Seq<char>> {
    seq![
        if idx == 0 {
            "@THIS"@
        } else {
            "@THAT"@
        },
        "D=M"@,
        "@SP"@,
        "M=M+1"@,
        "A=M-1"@,
        "M=D"@,
    ]
}

/// Push a namespaced static cell.
pub open spec fn push_static_lines(base: Seq<char>, idx: u16) -> Seq<Seq<char>> {
    seq![static_addr(base, idx), "D=M"@, "@SP"@, "M=M+1"@, "A=M-1"@, "M=D"@]
}

/// An unconditional jump to a label.
pub open spec fn goto_lines(label: Seq<char>) -> Seq<Seq<char>> {
    seq![addr_of(label), "0;JMP"@]
}

/// Pop the top of the stack and jump to the label if it is non-zero.
pub open spec fn if_goto_lines(label: Seq<char>) -> Seq<Seq<char>> {
    seq!["@SP"@, "AM=M-1"@, "D=M"@, addr_of(label), "D;JNE"@]
}

/// `n` repetitions of the block that grows the stack by one zero cell.
pub open spec fn local_init_lines(n: nat) -> Seq<Seq<char>>
    decreases n,
{
    if n == 0 {
        Seq::<Seq<char>>::empty()
    } else {
        local_init_lines((n - 1) as nat) + seq!["@SP"@, "M=M+1"@, "A=M-1"@, "M=0"@]
    }
}

/// A function entry: its label, then one zero-initialized stack cell per
/// local variable.
pub open spec fn function_lines(name: Seq<char>, num_local_vars: u16) -> Seq<Seq<char>> {
    seq![label_line_of(name)] + local_init_lines(num_local_vars as nat)
}

/// Push the value of the pointer cell addressed by `p`.
pub open spec fn save_ptr_lines(p: Seq<char>) -> Seq<Seq<char>> {
    seq![p, "D=M"@, "@SP"@, "M=M+1"@, "A=M-1"@, "M=D"@]
}

/// A call site: push the synthesized return address, save the caller's
/// Local, Argument, This and That pointers, point Argument at the first
/// argument (five cells and the arguments below the new stack top), point
/// Local at the stack top, jump to the callee, and define the return-address
/// label right after the jump.
pub open spec fn call_lines(name: Seq<char>, num_args: u16, cc: nat) -> Seq<Seq<char>> {
    seq![addr_of(ret_label(name, cc)), "D=A"@, "@SP"@, "M=M+1"@, "A=M-1"@, "M=D"@]
        + save_ptr_lines("@LCL"@) + save_ptr_lines("@ARG"@) + save_ptr_lines("@THIS"@)
        + save_ptr_lines("@THAT"@) + seq![
        addr_of_num(5 + num_args as nat),
        "D=A"@,
        "@SP"@,
        "D=M-D"@,
        "@ARG"@,
        "M=D"@,
        "@SP"@,
        "D=M"@,
        "@LCL"@,
        "M=D"@,
        addr_of(name),
        "0;JMP"@,
        label_line_of(ret_label(name, cc)),
    ]
}

/// A return: stash the frame base and the saved return address, move the
/// return value into the caller's Argument[0] slot, rewind the stack
/// pointer, restore the four saved pointers, and jump to the return
/// address.
pub open spec fn return_lines() -> Seq<Seq<char>> {
    seq![
        "@LCL"@,
        "D=M"@,
        "@7"@,
        "M=D"@,
        "@5"@,
        "D=A"@,
        "@7"@,
        "A=M-D"@,
        "D=M"@,
        "@8"@,
        "M=D"@,
        "@SP"@,
        "A=M-1"@,
        "D=M"@,
        "@ARG"@,
        "A=M"@,
        "M=D"@,
        "@ARG"@,
        "D=M+1"@,
        "@SP"@,
        "M=D"@,
        "@7"@,
        "AM=M-1"@,
        "D=M"@,
        "@THAT"@,
        "M=D"@,
        "@7"@,
        "AM=M-1"@,
        "D=M"@,
        "@THIS"@,
        "M=D"@,
        "@7"@,
        "AM=M-1"@,
        "D=M"@,
        "@ARG"@,
        "M=D"@,
        "@7"@,
        "AM=M-1"@,
        "D=M"@,
        "@LCL"@,
        "M=D"@,
        "@8"@,
        "A=M"@,
        "0;JMP"@,
    ]
}

/// The bootstrap prologue: set the stack pointer to its base address, then
/// call the program's entry function with no arguments.
pub open spec fn bootstrap_lines(st: GenState) -> Seq<Seq<char>> {
    seq!["@256"@, "D=A"@, "@SP"@, "M=D"@] + call_lines("Sys.init"@, 0, st.call_counter)
}

/// The lines one instruction emits from the given generator state.
pub open spec fn spec_lines(i: InstrView, st: GenState) -> Seq<Seq<char>> {
    match i {
        InstrView::Add => binary_op_lines("M=M+D"@),
        InstrView::Sub => binary_op_lines("M=M-D"@),
        InstrView::And => binary_op_lines("M=D&M"@),
        InstrView::Or => binary_op_lines("M=D|M"@),
        InstrView::Neg => unary_op_lines("M=-M"@),
        InstrView::Not => unary_op_lines("M=!M"@),
        InstrView::Eq => comparison_lines("JEQ"@, st.next_instr),
        InstrView::Gt => comparison_lines("JGT"@, st.next_instr),
        InstrView::Lt => comparison_lines("JLT"@, st.next_instr),
        InstrView::Pop { segment, idx } => match segment {
            MemorySegment::Local => basic_pop_lines(segment, idx),
            MemorySegment::Argument => basic_pop_lines(segment, idx),
            MemorySegment::This => basic_pop_lines(segment, idx),
            MemorySegment::That => basic_pop_lines(segment, idx),
            MemorySegment::Constant => Seq::<Seq<char>>::empty(),
            MemorySegment::Static => pop_static_lines(st.static_base, idx),
            MemorySegment::Pointer => pop_ptr_lines(idx),
            MemorySegment::Temp => pop_temp_lines(idx),
        },
        InstrView::Push { segment, idx } => match segment {
            MemorySegment::Local => basic_push_lines(segment, idx),
            MemorySegment::Argument => basic_push_lines(segment, idx),
            MemorySegment::This => basic_push_lines(segment, idx),
            MemorySegment::That => basic_push_lines(segment, idx),
            MemorySegment::Constant => push_const_lines(idx),
            MemorySegment::Static => push_static_lines(st.static_base, idx),
            MemorySegment::Pointer => push_ptr_lines(idx),
            MemorySegment::Temp => push_temp_lines(idx),
        },
        InstrView::Label { label } => seq![label_line_of(label)],
        InstrView::Goto { label } => goto_lines(label),
        InstrView::IfGoto { label } => if_goto_lines(label),
        InstrView::Function { name, num_local_vars } => function_lines(name, num_local_vars),
        InstrView::Call { name, num_args } => call_lines(name, num_args, st.call_counter),
        InstrView::Return => return_lines(),
    }
}

/// How many non-label lines one instruction emits.
pub open spec fn code_delta(i: InstrView) -> nat {
    match i {
        InstrView::Add => 5,
        InstrView::Sub => 5,
        InstrView::And => 5,
        InstrView::Or => 5,
        InstrView::Neg => 3,
        InstrView::Not => 3,
        InstrView::Eq => 11,
        InstrView::Gt => 11,
        InstrView::Lt => 11,
        InstrView::Pop { segment, .. } => match segment {
            MemorySegment::Constant => 0,
            MemorySegment::Static => 5,
            MemorySegment::Pointer => 5,
            MemorySegment::Temp => 5,
            _ => 9,
        },
        InstrView::Push { segment, .. } => match segment {
            MemorySegment::Constant => 6,
            MemorySegment::Static => 6,
            MemorySegment::Pointer => 6,
            MemorySegment::Temp => 6,
            _ => 9,
        },
        InstrView::Label { .. } => 0,
        InstrView::Goto { .. } => 2,
        InstrView::IfGoto { .. } => 5,
        InstrView::Function { num_local_vars, .. } => 4 * num_local_vars as nat,
        InstrView::Call { .. } => 42,
        InstrView::Return => 44,
    }
}

/// The generator state after one instruction: the emitted-instruction count
/// grows by the instruction's non-label line count, the call-site counter
/// grows on a call, and the namespace never changes mid-instruction.
pub open spec fn spec_step(i: InstrView, st: GenState) -> GenState {
    GenState {
        static_base: st.static_base,
        next_instr: st.next_instr + code_delta(i),
        call_counter: st.call_counter + if i is Call {
            1nat
        } else {
            0nat
        },
    }
}

/// The shape of every fixed line the generator emits: non-empty, and a
/// label-definition line only where one is meant.
proof fn lemma_line_shapes()
    ensures
        !is_label_line("@SP"@) && "@SP"@.len() > 0,
        !is_label_line("AM=M-1"@) && "AM=M-1"@.len() > 0,
        !is_label_line("D=M"@) && "D=M"@.len() > 0,
        !is_label_line("A=A-1"@) && "A=A-1"@.len() > 0,
        !is_label_line("M=M+D"@) && "M=M+D"@.len() > 0,
        !is_label_line("M=M-D"@) && "M=M-D"@.len() > 0,
        !is_label_line("M=D&M"@) && "M=D&M"@.len() > 0,
        !is_label_line("M=D|M"@) && "M=D|M"@.len() > 0,
        !is_label_line("A=M-1"@) && "A=M-1"@.len() > 0,
        !is_label_line("M=-M"@) && "M=-M"@.len() > 0,
        !is_label_line("M=!M"@) && "M=!M"@.len() > 0,
        !is_label_line("D=M-D"@) && "D=M-D"@.len() > 0,
        !is_label_line("M=-1"@) && "M=-1"@.len() > 0,
        !is_label_line("M=0"@) && "M=0"@.len() > 0,
        !is_label_line("D=A"@) && "D=A"@.len() > 0,
        !is_label_line("M=M+1"@) && "M=M+1"@.len() > 0,
        !is_label_line("M=D"@) && "M=D"@.len() > 0,
        !is_label_line("D=D+M"@) && "D=D+M"@.len() > 0,
        !is_label_line("A=D-M"@) && "A=D-M"@.len() > 0,
        !is_label_line("M=D-A"@) && "M=D-A"@.len() > 0,
        !is_label_line("A=D+M"@) && "A=D+M"@.len() > 0,
        !is_label_line("0;JMP"@) && "0;JMP"@.len() > 0,
        !is_label_line("D;JNE"@) && "D;JNE"@.len() > 0,
        !is_label_line("@LCL"@) && "@LCL"@.len() > 0,
        !is_label_line("@ARG"@) && "@ARG"@.len() > 0,
        !is_label_line("@THIS"@) && "@THIS"@.len() > 0,
        !is_label_line("@THAT"@) && "@THAT"@.len() > 0,
        !is_label_line("@7"@) && "@7"@.len() > 0,
        !is_label_line("@5"@) && "@5"@.len() > 0,
        !is_label_line("@8"@) && "@8"@.len() > 0,
        !is_label_line("A=M-D"@) && "A=M-D"@.len() > 0,
        !is_label_line("D=M+1"@) && "D=M+1"@.len() > 0,
        !is_label_line("A=M"@) && "A=M"@.len() > 0,
        !is_label_line("@256"@) && "@256"@.len() > 0,
        "D;"@.len() == 2 && "D;"@[0] == 'D',
        "@"@.len() == 1 && "@"@[0] == '@',
        "("@.len() == 1 && "("@[0] == '(',
        ")"@.len() == 1 && ")"@[0] == ')',
{
    reveal_strlit("@SP");
    reveal_strlit("AM=M-1");
    reveal_strlit("D=M");
    reveal_strlit("A=A-1");
    reveal_strlit("M=M+D");
    reveal_strlit("M=M-D");
    reveal_strlit("M=D&M");
    reveal_strlit("M=D|M");
    reveal_strlit("A=M-1");
    reveal_strlit("M=-M");
    reveal_strlit("M=!M");
    reveal_strlit("D=M-D");
    reveal_strlit("M=-1");
    reveal_strlit("M=0");
    reveal_strlit("D=A");
    reveal_strlit("M=M+1");
    reveal_strlit("M=D");
    reveal_strlit("D=D+M");
    reveal_strlit("A=D-M");
    reveal_strlit("M=D-A");
    reveal_strlit("A=D+M");
    reveal_strlit("0;JMP");
    reveal_strlit("D;JNE");
    reveal_strlit("@LCL");
    reveal_strlit("@ARG");
    reveal_strlit("@THIS");
    reveal_strlit("@THAT");
    reveal_strlit("@7");
    reveal_strlit("@5");
    reveal_strlit("@8");
    reveal_strlit("A=M-D");
    reveal_strlit("D=M+1");
    reveal_strlit("A=M");
    reveal_strlit("@256");
    reveal_strlit("D;");
    reveal_strlit("@");
    reveal_strlit("(");
    reveal_strlit(")");
}

/// An addressing line for a symbol.
fn at_str(t: &str) -> (s: String)
    ensures
        s@ == addr_of(t@),
        !is_label_line(s@),
        s@.len() > 0,
{
    let mut s = String::from_str("@");
    s.append(t);
    proof {
        lemma_line_shapes();
        assert(s@ =~= addr_of(t@));
        assert(s@[0] == '@');
    }
    s
}

/// An addressing line for a numeric address or immediate value.
fn at_num(n: u128) -> (s: String)
    ensures
        s@ == addr_of_num(n as nat),
        !is_label_line(s@),
        s@.len() > 0,
{
    let d = dec_string(n);
    let mut s = String::from_str("@");
    s.append(d.as_str());
    proof {
        lemma_line_shapes();
        assert(s@ =~= addr_of_num(n as nat));
        assert(s@[0] == '@');
    }
    s
}

/// A label-definition line.
fn paren(t: &str) -> (s: String)
    ensures
        s@ == label_line_of(t@),
        is_label_line(s@),
{
    let mut s = String::from_str("(");
    s.append(t);
    s.append(")");
    proof {
        lemma_line_shapes();
        assert(s@ =~= label_line_of(t@));
        assert(s@[0] == '(');
    }
    s
}

/// The code generator. One instance owns one full program translation; its
/// counters never reset, so synthesized labels and computed jump targets
/// stay unique program-wide.
pub struct Translator {
    /// The namespace qualifying static-segment addresses; set per
    /// translation unit, never mid-unit.
    pub static_base: String,
    /// The generated instruction lines, append-only.
    pub output: Vec<String>,
    /// The count of emitted non-label instructions, program-wide.
    pub next_instr: usize,
    /// The call-site counter, program-wide.
    pub call_counter: usize,
}

impl Translator {
    /// The generator's observable state.
    pub open spec fn st(&self) -> GenState {
        GenState {
            static_base: self.static_base@,
            next_instr: self.next_instr as nat,
            call_counter: self.call_counter as nat,
        }
    }

    /// The generator's invariant: the emitted-instruction counter counts
    /// exactly the non-label lines, and call sites never outnumber lines.
    pub open spec fn wf(&self) -> bool {
        &&& self.next_instr == code_count(self.output.deep_view())
        &&& self.call_counter <= self.output@.len()
    }

    /// A fresh generator for the given static-address namespace.
    pub fn new(static_base: String) -> (t: Translator)
        ensures
            t.wf(),
            t.output@ =~= Seq::<String>::empty(),
            t.output.deep_view() =~= Seq::<Seq<char>>::empty(),
            t.st() == (GenState { static_base: static_base@, next_instr: 0nat, call_counter: 0nat }),
    {
        let t = Translator { next_instr: 0, call_counter: 0, static_base, output: Vec::new() };
        proof {
            assert(t.output.deep_view() =~= Seq::<Seq<char>>::empty());
        }
        t
    }

    /// Appends one line; a non-label line advances the instruction counter.
    fn add_instr(&mut self, instr: &str)
        requires
            old(self).wf(),
            instr@.len() > 0,
        ensures
            final(self).wf(),
            final(self).output.deep_view() == old(self).output.deep_view().push(instr@),
            final(self).output@.len() == old(self).output@.len() + 1,
            final(self).static_base == old(self).static_base,
            final(self).st() == (GenState {
                next_instr: old(self).st().next_instr + if is_label_line(instr@) {
                    0nat
                } else {
                    1nat
                },
                ..old(self).st()
            }),
    {
        proof {
            lemma_code_count_le_len(old(self).output.deep_view());
        }
        self.output.push(instr.to_owned());
        let n = self.output.len();
        proof {
            assert(self.output.deep_view() =~= old(self).output.deep_view().push(instr@));
            lemma_code_count_push(old(self).output.deep_view(), instr@);
        }
        let c = instr.get_char(0);
        if c != '(' {
            self.next_instr = self.next_instr + 1;
        }
    }

    /// Pop two values, combine them in place with `op_line`.
    fn binary_op(&mut self, op_line: &str)
        requires
            old(self).wf(),
            !is_label_line(op_line@),
            op_line@.len() > 0,
        ensures
            final(self).wf(),
            final(self).output.deep_view() == old(self).output.deep_view() + binary_op_lines(op_line@),
            final(self).st() == (GenState {
                next_instr: old(self).st().next_instr + 5,
                ..old(self).st()
            }),
    {
        proof {
            lemma_line_shapes();
        }
        self.add_instr("@SP");
        self.add_instr("AM=M-1");
        self.add_instr("D=M");
        self.add_instr("A=A-1");
        self.add_instr(op_line);
        proof {
            assert(self.output.deep_view() =~= old(self).output.deep_view() + binary_op_lines(
                op_line@,
            ));
        }
    }

    /// Rewrite the top of the stack in place with `op_line`.
    fn unary_op(&mut self, op_line: &str)
        requires
            old(self).wf(),
            !is_label_line(op_line@),
            op_line@.len() > 0,
        ensures
            final(self).wf(),
            final(self).output.deep_view() == old(self).output.deep_view() + unary_op_lines(op_line@),
            final(self).st() == (GenState {
                next_instr: old(self).st().next_instr + 3,
                ..old(self).st()
            }),
    {
        proof {
            lemma_line_shapes();
        }
        self.add_instr("@SP");
        self.add_instr("A=M-1");
        self.add_instr(op_line);
        proof {
            assert(self.output.deep_view() =~= old(self).output.deep_view() + unary_op_lines(op_line@));
        }
    }

    /// Pop two values and leave true or false from comparing them under the
    /// given jump condition.
    fn logical_comp(&mut self, jmp_instr: &str)
        requires
            old(self).wf(),
        ensures
            final(self).wf(),
            final(self).output.deep_view() == old(self).output.deep_view() + comparison_lines(
                jmp_instr@,
                old(self).st().next_instr,
            ),
            final(self).st() == (GenState {
                next_instr: old(self).st().next_instr + 11,
                ..old(self).st()
            }),
    {
        proof {
            lemma_line_shapes();
        }
        self.add_instr("@SP");
        self.add_instr("AM=M-1");
        self.add_instr("D=M");
        self.add_instr("A=A-1");
        self.add_instr("D=M-D");
        self.add_instr("M=-1");
        let target = at_num(self.next_instr as u128 + 5);
        self.add_instr(target.as_str());
        let mut j = String::from_str("D;");
        j.append(jmp_instr);
        proof {
            assert(j@ == "D;"@ + jmp_instr@);
            assert(j@[0] == 'D');
        }
        self.add_instr(j.as_str());
        self.add_instr("@SP");
        self.add_instr("A=M-1");
        self.add_instr("M=0");
        proof {
            assert(self.output.deep_view() =~= old(self).output.deep_view() + comparison_lines(
                jmp_instr@,
                old(self).st().next_instr,
            ));
        }
    }

    /// Pop into a direct segment.
    fn basic_pop(&mut self, segment: &MemorySegment, idx: &u16)
        requires
            old(self).wf(),
            segment.is_direct(),
        ensures
            final(self).wf(),
            final(self).output.deep_view() == old(self).output.deep_view() + basic_pop_lines(*segment, *idx),
            final(self).st() == (GenState {
                next_instr: old(self).st().next_instr + 9,
                ..old(self).st()
            }),
    {
        proof {
            lemma_line_shapes();
        }
        let seg_ptr = segment.seg_ptr();
        let idx_line = at_num(*idx as u128);
        self.add_instr(idx_line.as_str());
        self.add_instr("D=A");
        let ptr_line = at_str(seg_ptr);
        self.add_instr(ptr_line.as_str());
        self.add_instr("D=D+M");
        self.add_instr("@SP");
        self.add_instr("AM=M-1");
        self.add_instr("D=D+M");
        self.add_instr("A=D-M");
        self.add_instr("M=D-A");
        proof {
            assert(self.output.deep_view() =~= old(self).output.deep_view() + basic_pop_lines(
                *segment,
                *idx,
            ));
        }
    }

    /// Pop into the fixed-offset temp segment.
    fn pop_temp(&mut self, idx: &u16)
        requires
            old(self).wf(),
        ensures
            final(self).wf(),
            final(self).output.deep_view() == old(self).output.deep_view() + pop_temp_lines(*idx),
            final(self).st() == (GenState {
                next_instr: old(self).st().next_instr + 5,
                ..old(self).st()
            }),
    {
        proof {
            lemma_line_shapes();
        }
        let mem_addr = 5u32 + *idx as u32;
        self.add_instr("@SP");
        self.add_instr("AM=M-1");
        self.add_instr("D=M");
        let addr_line = at_num(mem_addr as u128);
        self.add_instr(addr_line.as_str());
        self.add_instr("M=D");
        proof {
            assert(self.output.deep_view() =~= old(self).output.deep_view() + pop_temp_lines(*idx));
        }
    }

    /// Pop into one of the two object-reference pointer cells.
    fn pop_ptr(&mut self, idx: &u16)
        requires
            old(self).wf(),
            *idx < 2,
        ensures
            final(self).wf(),
            final(self).output.deep_view() == old(self).output.deep_view() + pop_ptr_lines(*idx),
            final(self).st() == (GenState {
                next_instr: old(self).st().next_instr + 5,
                ..old(self).st()
            }),
    {
        proof {
            lemma_line_shapes();
        }
        self.add_instr("@SP");
        self.add_instr("AM=M-1");
        self.add_instr("D=M");
        if *idx == 0 {
            self.add_instr("@THIS");
        } else {
            self.add_instr("@THAT");
        }
        self.add_instr("M=D");
        proof {
            assert(self.output.deep_view() =~= old(self).output.deep_view() + pop_ptr_lines(*idx));
        }
    }

    /// Pop into a namespaced static cell.
    fn pop_static(&mut self, idx: &u16)
        requires
            old(self).wf(),
        ensures
            final(self).wf(),
            final(self).output.deep_view() == old(self).output.deep_view() + pop_static_lines(
                old(self).st().static_base,
                *idx,
            ),
            final(self).st() == (GenState {
                next_instr: old(self).st().next_instr + 5,
                ..old(self).st()
            }),
    {
        proof {
            lemma_line_shapes();
        }
        self.add_instr("@SP");
        self.add_instr("AM=M-1");
        self.add_instr("D=M");
        let addr_line = self.static_line(idx);
        self.add_instr(addr_line.as_str());
        self.add_instr("M=D");
        proof {
            assert(self.output.deep_view() =~= old(self).output.deep_view() + pop_static_lines(
                old(self).st().static_base,
                *idx,
            ));
        }
    }

    /// The namespaced symbolic address of a static cell.
    fn static_line(&self, idx: &u16) -> (s: String)
        ensures
            s@ == static_addr(self.st().static_base, *idx),
            !is_label_line(s@),
            s@.len() > 0,
    {
        proof {
            lemma_line_shapes();
        }
        let mut s = String::from_str("@");
        s.append(self.static_base.as_str());
        s.append(".");
        let d = dec_string(*idx as u128);
        s.append(d.as_str());
        proof {
            reveal_strlit(".");
            assert(s@ =~= static_addr(self.static_base@, *idx));
            assert(s@[0] == '@');
        }
        s
    }

    /// Push an immediate constant.
    fn push_const(&mut self, idx: &u16)
        requires
            old(self).wf(),
        ensures
            final(self).wf(),
            final(self).output.deep_view() == old(self).output.deep_view() + push_const_lines(*idx),
            final(self).st() == (GenState {
                next_instr: old(self).st().next_instr + 6,
                ..old(self).st()
            }),
    {
        proof {
            lemma_line_shapes();
        }
        let idx_line = at_num(*idx as u128);
        self.add_instr(idx_line.as_str());
        self.add_instr("D=A");
        self.add_instr("@SP");
        self.add_instr("M=M+1");
        self.add_instr("A=M-1");
        self.add_instr("M=D");
        proof {
            assert(self.output.deep_view() =~= old(self).output.deep_view() + push_const_lines(*idx));
        }
    }

    /// Push from a direct segment.
    fn basic_push(&mut self, segment: &MemorySegment, idx: &u16)
        requires
            old(self).wf(),
            segment.is_direct(),
        ensures
            final(self).wf(),
            final(self).output.deep_view() == old(self).output.deep_view() + basic_push_lines(*segment, *idx),
            final(self).st() == (GenState {
                next_instr: old(self).st().next_instr + 9,
                ..old(self).st()
            }),
    {
        proof {
            lemma_line_shapes();
        }
        let seg_ptr = segment.seg_ptr();
        let idx_line = at_num(*idx as u128);
        self.add_instr(idx_line.as_str());
        self.add_instr("D=A");
        let ptr_line = at_str(seg_ptr);
        self.add_instr(ptr_line.as_str());
        self.add_instr("A=D+M");
        self.add_instr("D=M");
        self.add_instr("@SP");
        self.add_instr("M=M+1");
        self.add_instr("A=M-1");
        self.add_instr("M=D");
        proof {
            assert(self.output.deep_view() =~= old(self).output.deep_view() + basic_push_lines(
                *segment,
                *idx,
            ));
        }
    }

    /// Push from the fixed-offset temp segment.
    fn push_temp(&mut self, idx: &u16)
        requires
            old(self).wf(),
        ensures
            final(self).wf(),
            final(self).output.deep_view() == old(self).output.deep_view() + push_temp_lines(*idx),
            final(self).st() == (GenState {
                next_instr: old(self).st().next_instr + 6,
                ..old(self).st()
            }),
    {
        proof {
            lemma_line_shapes();
        }
        let mem_addr = 5u32 + *idx as u32;
        let addr_line = at_num(mem_addr as u128);
        self.add_instr(addr_line.as_str());
        self.add_instr("D=M");
        self.add_instr("@SP");
        self.add_instr("M=M+1");
        self.add_instr("A=M-1");
        self.add_instr("M=D");
        proof {
            assert(self.output.deep_view() =~= old(self).output.deep_view() + push_temp_lines(*idx));
        }
    }

    /// Push one of the two object-reference pointer cells.
    fn push_ptr(&mut self, idx: &u16)
        requires
            old(self).wf(),
            *idx < 2,
        ensures
            final(self).wf(),
            final(self).output.deep_view() == old(self).output.deep_view() + push_ptr_lines(*idx),
            final(self).st() == (GenState {
                next_instr: old(self).st().next_instr + 6,
                ..old(self).st()
            }),
    {
        proof {
            lemma_line_shapes();
        }
        if *idx == 0 {
            self.add_instr("@THIS");
        } else {
            self.add_instr("@THAT");
        }
        self.add_instr("D=M");
        self.add_instr("@SP");
        self.add_instr("M=M+1");
        self.add_instr("A=M-1");
        self.add_instr("M=D");
        proof {
            assert(self.output.deep_view() =~= old(self).output.deep_view() + push_ptr_lines(*idx));
        }
    }

    /// Push a namespaced static cell.
    fn push_static(&mut self, idx: &u16)
        requires
            old(self).wf(),
        ensures
            final(self).wf(),
            final(self).output.deep_view() == old(self).output.deep_view() + push_static_lines(
                old(self).st().static_base,
                *idx,
            ),
            final(self).st() == (GenState {
                next_instr: old(self).st().next_instr + 6,
                ..old(self).st()
            }),
    {
        proof {
            lemma_line_shapes();
        }
        let addr_line = self.static_line(idx);
        self.add_instr(addr_line.as_str());
        self.add_instr("D=M");
        self.add_instr("@SP");
        self.add_instr("M=M+1");
        self.add_instr("A=M-1");
        self.add_instr("M=D");
        proof {
            assert(self.output.deep_view() =~= old(self).output.deep_view() + push_static_lines(
                old(self).st().static_base,
                *idx,
            ));
        }
    }

    /// Emit a label-definition line.
    fn label_fn(&mut self, label: &str)
        requires
            old(self).wf(),
        ensures
            final(self).wf(),
            final(self).output.deep_view() == old(self).output.deep_view() + seq![label_line_of(label@)],
            final(self).st() == old(self).st(),
    {
        let l = paren(label);
        self.add_instr(l.as_str());
        proof {
            assert(self.output.deep_view() =~= old(self).output.deep_view() + seq![
                label_line_of(label@),
            ]);
            assert(self.st() =~~= old(self).st());
        }
    }

    /// Emit an unconditional jump to a label.
    fn goto(&mut self, label: &str)
        requires
            old(self).wf(),
        ensures
            final(self).wf(),
            final(self).output.deep_view() == old(self).output.deep_view() + goto_lines(label@),
            final(self).st() == (GenState {
                next_instr: old(self).st().next_instr + 2,
                ..old(self).st()
            }),
    {
        proof {
            lemma_line_shapes();
        }
        let l = at_str(label);
        self.add_instr(l.as_str());
        self.add_instr("0;JMP");
        proof {
            assert(self.output.deep_view() =~= old(self).output.deep_view() + goto_lines(label@));
        }
    }

    /// Emit a conditional jump: pop, jump if non-zero.
    fn if_goto(&mut self, label: &str)
        requires
            old(self).wf(),
        ensures
            final(self).wf(),
            final(self).output.deep_view() == old(self).output.deep_view() + if_goto_lines(label@),
            final(self).st() == (GenState {
                next_instr: old(self).st().next_instr + 5,
                ..old(self).st()
            }),
    {
        proof {
            lemma_line_shapes();
        }
        self.add_instr("@SP");
        self.add_instr("AM=M-1");
        self.add_instr("D=M");
        let l = at_str(label);
        self.add_instr(l.as_str());
        self.add_instr("D;JNE");
        proof {
            assert(self.output.deep_view() =~= old(self).output.deep_view() + if_goto_lines(label@));
        }
    }

    /// Emit a function entry: its label, then one zero-initialized stack
    /// cell per local variable.
    fn function(&mut self, name: &str, num_local_vars: u16)
        requires
            old(self).wf(),
        ensures
            final(self).wf(),
            final(self).output.deep_view() == old(self).output.deep_view() + function_lines(
                name@,
                num_local_vars,
            ),
            final(self).st() == (GenState {
                next_instr: old(self).st().next_instr + 4 * num_local_vars as nat,
                ..old(self).st()
            }),
    {
        proof {
            lemma_line_shapes();
        }
        let l = paren(name);
        self.add_instr(l.as_str());
        let mut k: u16 = 0;
        while k < num_local_vars
            invariant
                k <= num_local_vars,
                self.wf(),
                self.output.deep_view() == old(self).output.deep_view() + seq![label_line_of(name@)]
                    + local_init_lines(k as nat),
                self.st() == (GenState {
                    next_instr: old(self).st().next_instr + 4 * k as nat,
                    ..old(self).st()
                }),
            decreases num_local_vars - k,
        {
            proof {
                lemma_line_shapes();
            }
            self.add_instr("@SP");
            self.add_instr("M=M+1");
            self.add_instr("A=M-1");
            self.add_instr("M=0");
            k = k + 1;
            proof {
                assert(local_init_lines(k as nat) == local_init_lines((k - 1) as nat) + seq![
                    "@SP"@,
                    "M=M+1"@,
                    "A=M-1"@,
                    "M=0"@,
                ]);
                assert(self.output.deep_view() =~= old(self).output.deep_view() + seq![
                    label_line_of(name@),
                ] + local_init_lines(k as nat));
            }
        }
        proof {
            assert(self.output.deep_view() =~= old(self).output.deep_view() + function_lines(
                name@,
                num_local_vars,
            ));
        }
    }

    /// Emit a call site with a fresh synthesized return-address label, and
    /// advance the call-site counter.
    #[verifier::rlimit(100)]
    fn call(&mut self, name: &str, num_args: u16)
        requires
            old(self).wf(),
        ensures
            final(self).wf(),
            final(self).output.deep_view() == old(self).output.deep_view() + call_lines(
                name@,
                num_args,
                old(self).st().call_counter,
            ),
            final(self).st() == (GenState {
                static_base: old(self).st().static_base,
                next_instr: old(self).st().next_instr + 42,
                call_counter: old(self).st().call_counter + 1,
            }),
    {
        proof {
            lemma_line_shapes();
        }
        let mut rl = name.to_owned();
        rl.append("$ret.");
        let cc = dec_string(self.call_counter as u128);
        rl.append(cc.as_str());
        proof {
            assert(rl@ == ret_label(name@, old(self).st().call_counter));
        }
        let l = at_str(rl.as_str());
        self.add_instr(l.as_str());
        self.add_instr("D=A");
        self.add_instr("@SP");
        self.add_instr("M=M+1");
        self.add_instr("A=M-1");
        self.add_instr("M=D");
        self.add_instr("@LCL");
        self.add_instr("D=M");
        self.add_instr("@SP");
        self.add_instr("M=M+1");
        self.add_instr("A=M-1");
        self.add_instr("M=D");
        self.add_instr("@ARG");
        self.add_instr("D=M");
        self.add_instr("@SP");
        self.add_instr("M=M+1");
        self.add_instr("A=M-1");
        self.add_instr("M=D");
        self.add_instr("@THIS");
        self.add_instr("D=M");
        self.add_instr("@SP");
        self.add_instr("M=M+1");
        self.add_instr("A=M-1");
        self.add_instr("M=D");
        self.add_instr("@THAT");
        self.add_instr("D=M");
        self.add_instr("@SP");
        self.add_instr("M=M+1");
        self.add_instr("A=M-1");
        self.add_instr("M=D");
        let arg_offset = 5u32 + num_args as u32;
        let ao = at_num(arg_offset as u128);
        self.add_instr(ao.as_str());
        self.add_instr("D=A");
        self.add_instr("@SP");
        self.add_instr("D=M-D");
        self.add_instr("@ARG");
        self.add_instr("M=D");
        self.add_instr("@SP");
        self.add_instr("D=M");
        self.add_instr("@LCL");
        self.add_instr("M=D");
        let n = at_str(name);
        self.add_instr(n.as_str());
        self.add_instr("0;JMP");
        let rldef = paren(rl.as_str());
        self.add_instr(rldef.as_str());
        let n = self.output.len();
        proof {
            assert(old(self).call_counter <= n - 43);
            assert(self.call_counter < usize::MAX);
        }
        self.call_counter = self.call_counter + 1;
        proof {
            assert(self.output.deep_view() =~= old(self).output.deep_view() + call_lines(
                name@,
                num_args,
                old(self).st().call_counter,
            ));
        }
    }

    /// Emit the fixed return sequence.
    #[verifier::rlimit(60)]
    fn emit_return(&mut self)
        requires
            old(self).wf(),
        ensures
            final(self).wf(),
            final(self).output.deep_view() == old(self).output.deep_view() + return_lines(),
            final(self).st() == (GenState {
                next_instr: old(self).st().next_instr + 44,
                ..old(self).st()
            }),
    {
        proof {
            lemma_line_shapes();
        }
        self.add_instr("@LCL");
        self.add_instr("D=M");
        self.add_instr("@7");
        self.add_instr("M=D");
        self.add_instr("@5");
        self.add_instr("D=A");
        self.add_instr("@7");
        self.add_instr("A=M-D");
        self.add_instr("D=M");
        self.add_instr("@8");
        self.add_instr("M=D");
        self.add_instr("@SP");
        self.add_instr("A=M-1");
        self.add_instr("D=M");
        self.add_instr("@ARG");
        self.add_instr("A=M");
        self.add_instr("M=D");
        self.add_instr("@ARG");
        self.add_instr("D=M+1");
        self.add_instr("@SP");
        self.add_instr("M=D");
        self.add_instr("@7");
        self.add_instr("AM=M-1");
        self.add_instr("D=M");
        self.add_instr("@THAT");
        self.add_instr("M=D");
        self.add_instr("@7");
        self.add_instr("AM=M-1");
        self.add_instr("D=M");
        self.add_instr("@THIS");
        self.add_instr("M=D");
        self.add_instr("@7");
        self.add_instr("AM=M-1");
        self.add_instr("D=M");
        self.add_instr("@ARG");
        self.add_instr("M=D");
        self.add_instr("@7");
        self.add_instr("AM=M-1");
        self.add_instr("D=M");
        self.add_instr("@LCL");
        self.add_instr("M=D");
        self.add_instr("@8");
        self.add_instr("A=M");
        self.add_instr("0;JMP");
        proof {
            assert(self.output.deep_view() =~= old(self).output.deep_view() + return_lines());
        }
    }

    /// Translates one instruction, appending its lines and advancing the
    /// counters; refuses a pop of the constant segment and a pointer access
    /// with an index other than 0 or 1, leaving the generator unchanged.
    pub fn translate(&mut self, instruction: &ParsedVMInstruction) -> (r: Result<(), VmError>)
        requires
            old(self).wf(),
        ensures
            final(self).wf(),
            match r {
                Ok(()) => instruction@.gen_ok() && final(self).output.deep_view() == old(
                    self,
                ).output.deep_view() + spec_lines(instruction@, old(self).st()) && final(self).st()
                    == spec_step(instruction@, old(self).st()),
                Err(e) => !instruction@.gen_ok() && e == instruction@.gen_err() && *final(self) == *old(
                    self,
                ),
            },
    {
        proof {
            lemma_line_shapes();
        }
        match instruction {
            ParsedVMInstruction::Add => self.binary_op("M=M+D"),
            ParsedVMInstruction::Sub => self.binary_op("M=M-D"),
            ParsedVMInstruction::And => self.binary_op("M=D&M"),
            ParsedVMInstruction::Or => self.binary_op("M=D|M"),
            ParsedVMInstruction::Neg => self.unary_op("M=-M"),
            ParsedVMInstruction::Not => self.unary_op("M=!M"),
            ParsedVMInstruction::Eq => self.logical_comp("JEQ"),
            ParsedVMInstruction::Gt => self.logical_comp("JGT"),
            ParsedVMInstruction::Lt => self.logical_comp("JLT"),
            ParsedVMInstruction::Pop { segment, idx } => {
                match segment {
                    MemorySegment::Local => self.basic_pop(segment, idx),
                    MemorySegment::Argument => self.basic_pop(segment, idx),
                    MemorySegment::This => self.basic_pop(segment, idx),
                    MemorySegment::That => self.basic_pop(segment, idx),
                    MemorySegment::Constant => {
                        return Err(VmError::ConstantPop);
                    },
                    MemorySegment::Static => self.pop_static(idx),
                    MemorySegment::Pointer => {
                        if *idx >= 2 {
                            return Err(VmError::BadPointerIndex);
                        }
                        self.pop_ptr(idx)
                    },
                    MemorySegment::Temp => self.pop_temp(idx),
                }
            },
            ParsedVMInstruction::Push { segment, idx } => {
                match segment {
                    MemorySegment::Local => self.basic_push(segment, idx),
                    MemorySegment::Argument => self.basic_push(segment, idx),
                    MemorySegment::This => self.basic_push(segment, idx),
                    MemorySegment::That => self.basic_push(segment, idx),
                    MemorySegment::Constant => self.push_const(idx),
                    MemorySegment::Static => self.push_static(idx),
                    MemorySegment::Pointer => {
                        if *idx >= 2 {
                            return Err(VmError::BadPointerIndex);
                        }
                        self.push_ptr(idx)
                    },
                    MemorySegment::Temp => self.push_temp(idx),
                }
            },
            ParsedVMInstruction::Label { label } => self.label_fn(label.as_str()),
            ParsedVMInstruction::Goto { label } => self.goto(label.as_str()),
            ParsedVMInstruction::IfGoto { label } => self.if_goto(label.as_str()),
            ParsedVMInstruction::Function { name, num_local_vars } => self.function(
                name.as_str(),
                *num_local_vars,
            ),
            ParsedVMInstruction::Call { name, num_args } => self.call(name.as_str(), *num_args),
            ParsedVMInstruction::Return => self.emit_return(),
        }
        Ok(())
    }

    /// Emits the bootstrap prologue: point the stack pointer at its base
    /// address, then call the program's entry function.
    pub fn set_bootstrap(&mut self)
        requires
            old(self).wf(),
        ensures
            final(self).wf(),
            final(self).output.deep_view() == old(self).output.deep_view() + bootstrap_lines(old(self).st()),
            final(self).st() == (GenState {
                static_base: old(self).st().static_base,
                next_instr: old(self).st().next_instr + 46,
                call_counter: old(self).st().call_counter + 1,
            }),
    {
        proof {
            lemma_line_shapes();
        }
        self.add_instr("@256");
        self.add_instr("D=A");
        self.add_instr("@SP");
        self.add_instr("M=D");
        self.call("Sys.init", 0);
        proof {
            assert(self.output.deep_view() =~= old(self).output.deep_view() + bootstrap_lines(
                old(self).st(),
            ));
        }
    }
}

} // verus!
