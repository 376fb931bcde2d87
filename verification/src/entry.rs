//! The entry-call law: a directory-level program holds exactly one call
//! site that jumps to the entry function — the one the bootstrap
//! synthesizes — as long as no unit itself calls or jumps to that function.

use vstd::prelude::*;
use crate::instr::InstrView;
use crate::parser::spec_parse;
use crate::program::TranslationUnit;
use crate::program::init_state;
use crate::program::spec_run;
use crate::program::spec_run_units;
use crate::program::spec_translate_directory;
use crate::translator::GenState;
use crate::translator::addr_of;
use crate::translator::bootstrap_lines;
use crate::translator::call_lines;
use crate::translator::goto_lines;
use crate::translator::label_line_of;
use crate::translator::local_init_lines;
use crate::translator::ret_label;
use crate::translator::return_lines;
use crate::translator::spec_lines;
use crate::translator::spec_step;

verus! {

/// How many call-site jumps to `name` a line sequence holds: positions
/// whose line addresses `name` and whose next line is the unconditional
/// jump.
pub open spec fn jump_count(lines: Seq<Seq<char>>, name: Seq<char>) -> nat
    decreases lines.len(),
{
    if lines.len() < 2 {
        0
    } else {
        jump_count(lines.drop_last(), name) + if lines[lines.len() - 2] == addr_of(name)
            && lines.last() == "0;JMP"@ {
            1nat
        } else {
            0nat
        }
    }
}

/// The jump pair that spans the seam of a concatenation.
pub open spec fn seam_count(a: Seq<Seq<char>>, b: Seq<Seq<char>>, name: Seq<char>) -> nat {
    if a.len() > 0 && b.len() > 0 && a.last() == addr_of(name) && b[0] == "0;JMP"@ {
        1nat
    } else {
        0nat
    }
}

/// Jump counting distributes over concatenation, up to the one pair that
/// can span the seam.
pub proof fn lemma_jump_count_concat(a: Seq<Seq<char>>, b: Seq<Seq<char>>, name: Seq<char>)
    ensures
        jump_count(a + b, name) == jump_count(a, name) + jump_count(b, name) + seam_count(
            a,
            b,
            name,
        ),
    decreases b.len(),
{
    if b.len() == 0 {
        assert(a + b =~= a);
    } else if b.len() == 1 {
        assert((a + b).drop_last() =~= a);
        if a.len() > 0 {
            assert((a + b)[(a + b).len() - 2] == a.last());
            assert((a + b).last() == b[0]);
        }
    } else {
        lemma_jump_count_concat(a, b.drop_last(), name);
        assert((a + b).drop_last() =~= a + b.drop_last());
        assert((a + b)[(a + b).len() - 2] == b[b.len() - 2]);
        assert((a + b).last() == b.last());
        assert(b.drop_last()[0] == b[0]);
    }
}

/// An addressing line determines the symbol it addresses.
pub proof fn lemma_addr_of_injective(x: Seq<char>, y: Seq<char>)
    requires
        addr_of(x) == addr_of(y),
    ensures
        x == y,
{
    assert(addr_of(x).len() == x.len() + 1);
    assert(addr_of(y).len() == y.len() + 1);
    assert forall|i: int| 0 <= i < x.len() implies x[i] == y[i] by {
        assert(addr_of(x)[i + 1] == x[i]);
        assert(addr_of(y)[i + 1] == y[i]);
    }
    assert(x =~= y);
}

/// A sequence without the unconditional-jump line holds no jump pair.
pub proof fn lemma_no_jump_line(lines: Seq<Seq<char>>, name: Seq<char>)
    requires
        forall|j: int| 0 <= j < lines.len() ==> lines[j] != "0;JMP"@,
    ensures
        jump_count(lines, name) == 0,
    decreases lines.len(),
{
    if lines.len() >= 2 {
        assert(forall|j: int|
            0 <= j < lines.drop_last().len() ==> lines.drop_last()[j] != "0;JMP"@);
        lemma_no_jump_line(lines.drop_last(), name);
    }
}

/// None of the generator's fixed lines is the unconditional jump, except
/// the jump itself.
proof fn lemma_fixed_lines_not_jump()
    ensures
        "@SP"@ != "0;JMP"@,
        "AM=M-1"@ != "0;JMP"@,
        "D=M"@ != "0;JMP"@,
        "A=A-1"@ != "0;JMP"@,
        "M=M+D"@ != "0;JMP"@,
        "M=M-D"@ != "0;JMP"@,
        "M=D&M"@ != "0;JMP"@,
        "M=D|M"@ != "0;JMP"@,
        "A=M-1"@ != "0;JMP"@,
        "M=-M"@ != "0;JMP"@,
        "M=!M"@ != "0;JMP"@,
        "D=M-D"@ != "0;JMP"@,
        "M=-1"@ != "0;JMP"@,
        "M=0"@ != "0;JMP"@,
        "D=A"@ != "0;JMP"@,
        "M=M+1"@ != "0;JMP"@,
        "M=D"@ != "0;JMP"@,
        "D=D+M"@ != "0;JMP"@,
        "A=D-M"@ != "0;JMP"@,
        "M=D-A"@ != "0;JMP"@,
        "A=D+M"@ != "0;JMP"@,
        "D;JNE"@ != "0;JMP"@,
        "@LCL"@ != "0;JMP"@,
        "@ARG"@ != "0;JMP"@,
        "@THIS"@ != "0;JMP"@,
        "@THAT"@ != "0;JMP"@,
        "@7"@ != "0;JMP"@,
        "@5"@ != "0;JMP"@,
        "@8"@ != "0;JMP"@,
        "A=M-D"@ != "0;JMP"@,
        "D=M+1"@ != "0;JMP"@,
        "A=M"@ != "0;JMP"@,
        "@256"@ != "0;JMP"@,
        "0;JMP"@.len() == 5 && "0;JMP"@[0] == '0',
        "M=M+D"@.len() > 0 && "M=M+D"@[0] == 'M',
        "M=M-D"@.len() > 0 && "M=M-D"@[0] == 'M',
        "M=D&M"@.len() > 0 && "M=D&M"@[0] == 'M',
        "M=D|M"@.len() > 0 && "M=D|M"@[0] == 'M',
        "M=-M"@.len() > 0 && "M=-M"@[0] == 'M',
        "M=!M"@.len() > 0 && "M=!M"@[0] == 'M',
        "M=0"@.len() > 0 && "M=0"@[0] == 'M',
        "M=D"@.len() > 0 && "M=D"@[0] == 'M',
        "M=D-A"@.len() > 0 && "M=D-A"@[0] == 'M',
        "D;JNE"@.len() > 0 && "D;JNE"@[0] == 'D',
        "A=M"@.len() > 0 && "A=M"@[0] == 'A',
        "D;"@.len() == 2 && "D;"@[0] == 'D',
{
    reveal_strlit("@SP");
    reveal_strlit("AM=M-1");
    reveal_strlit("D=M");
    reveal_strlit("A=A-1");
    reveal_strlit("M=M+D");
    reveal_strlit("M=M-D");
    reveal_strlit("M=D&M");
    reveal_strlit("M=D|M");
    reveal_strlit("A=M-1");
    reveal_strlit("M=-M");
    reveal_strlit("M=!M");
    reveal_strlit("D=M-D");
    reveal_strlit("M=-1");
    reveal_strlit("M=0");
    reveal_strlit("D=A");
    reveal_strlit("M=M+1");
    reveal_strlit("M=D");
    reveal_strlit("D=D+M");
    reveal_strlit("A=D-M");
    reveal_strlit("M=D-A");
    reveal_strlit("A=D+M");
    reveal_strlit("D;JNE");
    reveal_strlit("@LCL");
    reveal_strlit("@ARG");
    reveal_strlit("@THIS");
    reveal_strlit("@THAT");
    reveal_strlit("@7");
    reveal_strlit("@5");
    reveal_strlit("@8");
    reveal_strlit("A=M-D");
    reveal_strlit("D=M+1");
    reveal_strlit("A=M");
    reveal_strlit("@256");
    reveal_strlit("0;JMP");
    reveal_strlit("D;");
    assert("M=M+D"@[0] != "0;JMP"@[0]);
    assert("M=M-D"@[0] != "0;JMP"@[0]);
    assert("M=D&M"@[0] != "0;JMP"@[0]);
    assert("M=D|M"@[0] != "0;JMP"@[0]);
    assert("A=M-1"@[0] != "0;JMP"@[0]);
    assert("D=M-D"@[0] != "0;JMP"@[0]);
    assert("A=A-1"@[0] != "0;JMP"@[0]);
    assert("M=M+1"@[0] != "0;JMP"@[0]);
    assert("D=D+M"@[0] != "0;JMP"@[0]);
    assert("A=D-M"@[0] != "0;JMP"@[0]);
    assert("M=D-A"@[0] != "0;JMP"@[0]);
    assert("A=D+M"@[0] != "0;JMP"@[0]);
    assert("D;JNE"@[0] != "0;JMP"@[0]);
    assert("A=M-D"@[0] != "0;JMP"@[0]);
    assert("D=M+1"@[0] != "0;JMP"@[0]);
}

/// Whether an instruction jumps unconditionally to `name`: a plain jump to
/// that label, or a call of that function.
pub open spec fn jumps_to(i: InstrView, name: Seq<char>) -> bool {
    match i {
        InstrView::Goto { label } => label == name,
        InstrView::Call { name: callee, .. } => callee == name,
        _ => false,
    }
}

/// The zero-initialization lines of a function entry hold no jump line.
proof fn lemma_local_init_no_jump(n: nat)
    ensures
        forall|j: int| 0 <= j < local_init_lines(n).len() ==> local_init_lines(n)[j] != "0;JMP"@,
    decreases n,
{
    lemma_fixed_lines_not_jump();
    if n > 0 {
        lemma_local_init_no_jump((n - 1) as nat);
        assert forall|j: int| 0 <= j < local_init_lines(n).len() implies local_init_lines(n)[j]
            != "0;JMP"@ by {
            if j < local_init_lines((n - 1) as nat).len() {
                assert(local_init_lines(n)[j] == local_init_lines((n - 1) as nat)[j]);
            }
        }
    }
}

/// One instruction's block holds exactly one jump pair to `name` when the
/// instruction jumps to `name`, and none otherwise; the block is never
/// empty and never ends in a line addressing `name`.
proof fn lemma_block_jump_count(i: InstrView, st: GenState, name: Seq<char>)
    requires
        i.gen_ok(),
    ensures
        jump_count(spec_lines(i, st), name) == if jumps_to(i, name) {
            1nat
        } else {
            0nat
        },
        spec_lines(i, st).len() > 0,
        spec_lines(i, st).last() != addr_of(name),
{
    lemma_fixed_lines_not_jump();
    assert(addr_of(name)[0] == '@');
    reveal_strlit("(");
    let b = spec_lines(i, st);
    match i {
        InstrView::Eq | InstrView::Gt | InstrView::Lt => {
            let jl = if i is Eq {
                "D;"@ + "JEQ"@
            } else if i is Gt {
                "D;"@ + "JGT"@
            } else {
                "D;"@ + "JLT"@
            };
            assert(b[6] == crate::translator::addr_of_num(st.next_instr + 11));
            assert(b[6][0] == '@');
            assert(b[7] == jl);
            assert(jl[0] == 'D');
            assert(forall|j: int| 0 <= j < b.len() ==> b[j] != "0;JMP"@);
            lemma_no_jump_line(b, name);
            assert(b.last()[0] != addr_of(name)[0]);
        },
        InstrView::Pop { segment, idx } => {
            match segment {
                crate::instr::MemorySegment::Static => {
                    assert(b[3] == crate::translator::static_addr(st.static_base, idx));
                    assert(b[3][0] == '@');
                },
                crate::instr::MemorySegment::Pointer => {},
                crate::instr::MemorySegment::Temp => {
                    assert(b[3] == crate::translator::addr_of_num(5 + idx as nat));
                    assert(b[3][0] == '@');
                },
                _ => {
                    assert(b[0] == crate::translator::addr_of_num(idx as nat));
                    assert(b[0][0] == '@');
                    assert(b[2] == addr_of(segment.spec_seg_ptr()));
                    assert(b[2][0] == '@');
                },
            }
            assert(forall|j: int| 0 <= j < b.len() ==> b[j] != "0;JMP"@);
            lemma_no_jump_line(b, name);
            assert(b.last()[0] != addr_of(name)[0]);
        },
        InstrView::Push { segment, idx } => {
            match segment {
                crate::instr::MemorySegment::Static => {
                    assert(b[0] == crate::translator::static_addr(st.static_base, idx));
                    assert(b[0][0] == '@');
                },
                crate::instr::MemorySegment::Pointer => {},
                crate::instr::MemorySegment::Temp => {
                    assert(b[0] == crate::translator::addr_of_num(5 + idx as nat));
                    assert(b[0][0] == '@');
                },
                crate::instr::MemorySegment::Constant => {
                    assert(b[0] == crate::translator::addr_of_num(idx as nat));
                    assert(b[0][0] == '@');
                },
                _ => {
                    assert(b[0] == crate::translator::addr_of_num(idx as nat));
                    assert(b[0][0] == '@');
                    assert(b[2] == addr_of(segment.spec_seg_ptr()));
                    assert(b[2][0] == '@');
                },
            }
            assert(forall|j: int| 0 <= j < b.len() ==> b[j] != "0;JMP"@);
            lemma_no_jump_line(b, name);
            assert(b.last()[0] != addr_of(name)[0]);
        },
        InstrView::IfGoto { label } => {
            assert(b[3] == addr_of(label));
            assert(b[3][0] == '@');
            assert(forall|j: int| 0 <= j < b.len() ==> b[j] != "0;JMP"@);
            lemma_no_jump_line(b, name);
            assert(b.last()[0] != addr_of(name)[0]);
        },
        InstrView::Goto { label } => {
            assert(b =~= goto_lines(label));
            assert(b.drop_last() =~= seq![addr_of(label)]);
            if addr_of(label) == addr_of(name) {
                lemma_addr_of_injective(label, name);
            }
            assert(jump_count(b.drop_last(), name) == 0);
            assert(jump_count(b, name) == if label == name {
                1nat
            } else {
                0nat
            });
            assert(b.last()[0] != addr_of(name)[0]);
        },
        InstrView::Call { name: callee, num_args } => {
            let cc = st.call_counter;
            let pre = seq![
                addr_of(ret_label(callee, cc)),
                "D=A"@,
                "@SP"@,
                "M=M+1"@,
                "A=M-1"@,
                "M=D"@,
                "@LCL"@,
                "D=M"@,
                "@SP"@,
                "M=M+1"@,
                "A=M-1"@,
                "M=D"@,
                "@ARG"@,
                "D=M"@,
                "@SP"@,
                "M=M+1"@,
                "A=M-1"@,
                "M=D"@,
                "@THIS"@,
                "D=M"@,
                "@SP"@,
                "M=M+1"@,
                "A=M-1"@,
                "M=D"@,
                "@THAT"@,
                "D=M"@,
                "@SP"@,
                "M=M+1"@,
                "A=M-1"@,
                "M=D"@,
                crate::translator::addr_of_num(5 + num_args as nat),
                "D=A"@,
                "@SP"@,
                "D=M-D"@,
                "@ARG"@,
                "M=D"@,
                "@SP"@,
                "D=M"@,
                "@LCL"@,
                "M=D"@,
            ];
            let tail = seq![addr_of(callee), "0;JMP"@, label_line_of(ret_label(callee, cc))];
            assert(b =~= pre + tail);
            assert(addr_of(ret_label(callee, cc))[0] == '@');
            assert(crate::translator::addr_of_num(5 + num_args as nat)[0] == '@');
            assert(forall|j: int| 0 <= j < pre.len() ==> pre[j] != "0;JMP"@);
            lemma_no_jump_line(pre, name);
            assert(tail.drop_last() =~= seq![addr_of(callee), "0;JMP"@]);
            assert(tail.drop_last().drop_last() =~= seq![addr_of(callee)]);
            assert(label_line_of(ret_label(callee, cc))[0] == '(');
            if addr_of(callee) == addr_of(name) {
                lemma_addr_of_injective(callee, name);
            }
            assert(jump_count(tail.drop_last().drop_last(), name) == 0);
            assert(jump_count(tail.drop_last(), name) == if callee == name {
                1nat
            } else {
                0nat
            });
            assert(jump_count(tail, name) == if callee == name {
                1nat
            } else {
                0nat
            });
            lemma_jump_count_concat(pre, tail, name);
            assert(seam_count(pre, tail, name) == 0);
            assert(b.last() == label_line_of(ret_label(callee, cc)));
            assert(b.last()[0] != addr_of(name)[0]);
        },
        InstrView::Return => {
            let pre = return_lines().drop_last().drop_last();
            let tail = seq!["A=M"@, "0;JMP"@];
            assert(return_lines() =~= pre + tail);
            assert(forall|j: int| 0 <= j < pre.len() ==> pre[j] != "0;JMP"@);
            lemma_no_jump_line(pre, name);
            assert(tail.drop_last() =~= seq!["A=M"@]);
            assert(jump_count(tail.drop_last(), name) == 0);
            assert("A=M"@[0] != addr_of(name)[0]);
            assert(jump_count(tail, name) == 0);
            lemma_jump_count_concat(pre, tail, name);
            assert(seam_count(pre, tail, name) == 0);
            assert(b.last() == "0;JMP"@);
            assert(b.last()[0] != addr_of(name)[0]);
        },
        InstrView::Function { name: fname, num_local_vars } => {
            lemma_local_init_no_jump(num_local_vars as nat);
            assert(label_line_of(fname)[0] == '(');
            assert forall|j: int| 0 <= j < b.len() implies b[j] != "0;JMP"@ by {
                if j == 0 {
                    assert(b[0] == label_line_of(fname));
                } else {
                    assert(b[j] == local_init_lines(num_local_vars as nat)[j - 1]);
                }
            }
            lemma_no_jump_line(b, name);
            if num_local_vars == 0 {
                assert(b.last() == label_line_of(fname));
                assert(b.last()[0] != addr_of(name)[0]);
            } else {
                assert(local_init_lines(num_local_vars as nat).last() == "M=0"@);
                assert(b.last() == "M=0"@);
                assert(b.last()[0] != addr_of(name)[0]);
            }
        },
        InstrView::Label { label } => {
            assert(b =~= seq![label_line_of(label)]);
            assert(b.last()[0] == '(');
            assert(b.last()[0] != addr_of(name)[0]);
        },
        _ => {
            assert(forall|j: int| 0 <= j < b.len() ==> b[j] != "0;JMP"@);
            lemma_no_jump_line(b, name);
            assert(b.last()[0] != addr_of(name)[0]);
        },
    }
}

/// Whether no line of a unit parses to an instruction that jumps to `name`.
pub open spec fn no_jumps_to(lines: Seq<Seq<char>>, name: Seq<char>) -> bool {
    forall|k: int|
        0 <= k < lines.len() ==> match spec_parse(#[trigger] lines[k]) {
            Ok(i) => !jumps_to(i, name),
            Err(_) => true,
        }
}

/// A unit whose instructions never jump to `name` generates lines without
/// a single jump pair to `name`, and never ends in a line addressing it.
proof fn lemma_run_jump_count(lines: Seq<Seq<char>>, st: GenState, name: Seq<char>)
    requires
        spec_run(lines, st) is Ok,
        no_jumps_to(lines, name),
    ensures
        jump_count(spec_run(lines, st)->Ok_0.0, name) == 0,
        spec_run(lines, st)->Ok_0.0.len() > 0 ==> spec_run(lines, st)->Ok_0.0.last() != addr_of(
            name,
        ),
    decreases lines.len(),
{
    if lines.len() > 0 {
        let i = spec_parse(lines[0])->Ok_0;
        let block = spec_lines(i, st);
        let rest = spec_run(lines.drop_first(), spec_step(i, st))->Ok_0.0;
        assert(no_jumps_to(lines.drop_first(), name)) by {
            assert(forall|k: int|
                0 <= k < lines.drop_first().len() ==> lines.drop_first()[k] == lines[k + 1]);
        }
        lemma_run_jump_count(lines.drop_first(), spec_step(i, st), name);
        lemma_block_jump_count(i, st, name);
        lemma_jump_count_concat(block, rest, name);
        assert(seam_count(block, rest, name) == 0);
        assert(spec_run(lines, st)->Ok_0.0 == block + rest);
        if rest.len() > 0 {
            assert((block + rest).last() == rest.last());
        } else {
            assert((block + rest).last() == block.last());
        }
    }
}

/// Whether no instruction of any unit jumps to `name`.
pub open spec fn units_no_jumps_to(units: Seq<TranslationUnit>, name: Seq<char>) -> bool {
    forall|u: int| 0 <= u < units.len() ==> no_jumps_to(#[trigger] units[u].lines.deep_view(), name)
}

/// Units whose instructions never jump to `name` generate lines without a
/// single jump pair to `name`.
proof fn lemma_run_units_jump_count(units: Seq<TranslationUnit>, st: GenState, name: Seq<char>)
    requires
        spec_run_units(units, st) is Ok,
        units_no_jumps_to(units, name),
    ensures
        jump_count(spec_run_units(units, st)->Ok_0.0, name) == 0,
        spec_run_units(units, st)->Ok_0.0.len() > 0 ==> spec_run_units(units, st)->Ok_0.0.last()
            != addr_of(name),
    decreases units.len(),
{
    if units.len() > 0 {
        let st0 = GenState { static_base: units[0].name@, ..st };
        let first = spec_run(units[0].lines.deep_view(), st0)->Ok_0;
        let rest = spec_run_units(units.drop_first(), first.1)->Ok_0.0;
        assert(units_no_jumps_to(units.drop_first(), name)) by {
            assert(forall|u: int|
                0 <= u < units.drop_first().len() ==> units.drop_first()[u] == units[u + 1]);
        }
        lemma_run_jump_count(units[0].lines.deep_view(), st0, name);
        lemma_run_units_jump_count(units.drop_first(), first.1, name);
        lemma_jump_count_concat(first.0, rest, name);
        assert(seam_count(first.0, rest, name) == 0);
        if rest.len() > 0 {
            assert((first.0 + rest).last() == rest.last());
        } else if first.0.len() > 0 {
            assert((first.0 + rest).last() == first.0.last());
        }
    }
}

/// The bootstrap prologue holds exactly one jump pair to the entry
/// function, and ends in its synthesized return-address label.
proof fn lemma_bootstrap_jump_count(st: GenState)
    ensures
        jump_count(bootstrap_lines(st), "Sys.init"@) == 1,
        bootstrap_lines(st).last() != addr_of("Sys.init"@),
{
    lemma_fixed_lines_not_jump();
    let name = "Sys.init"@;
    assert(addr_of(name)[0] == '@');
    reveal_strlit("(");
    let pre = seq!["@256"@, "D=A"@, "@SP"@, "M=D"@];
    let callb = call_lines(name, 0, st.call_counter);
    assert(bootstrap_lines(st) == pre + callb);
    assert(forall|j: int| 0 <= j < pre.len() ==> pre[j] != "0;JMP"@);
    lemma_no_jump_line(pre, name);
    lemma_block_jump_count(
        InstrView::Call { name, num_args: 0 },
        GenState { static_base: st.static_base, next_instr: st.next_instr + 4, call_counter: st.call_counter },
        name,
    );
    assert(spec_lines(
        InstrView::Call { name, num_args: 0 },
        GenState { static_base: st.static_base, next_instr: st.next_instr + 4, call_counter: st.call_counter },
    ) == callb);
    assert(jumps_to(InstrView::Call { name, num_args: 0 }, name));
    lemma_jump_count_concat(pre, callb, name);
    assert(callb[0] == addr_of(ret_label(name, st.call_counter)));
    assert(callb[0][0] == '@');
    assert(seam_count(pre, callb, name) == 0);
    assert((pre + callb).last() == callb.last());
    assert(callb.last() == label_line_of(ret_label(name, st.call_counter)));
    assert(callb.last()[0] == '(');
}

/// A translated directory-level program holds the bootstrap's call to the
/// entry function as its single entry call site: exactly one place in the
/// whole output addresses `Sys.init` and jumps there unconditionally, as
/// long as no unit itself calls or jumps to it.
pub proof fn lemma_single_entry_call(units: Seq<TranslationUnit>)
    requires
        spec_translate_directory(units) is Ok,
        units_no_jumps_to(units, "Sys.init"@),
    ensures
        jump_count(spec_translate_directory(units)->Ok_0, "Sys.init"@) == 1,
{
    let name = "Sys.init"@;
    let st0 = init_state(Seq::<char>::empty());
    let st1 = GenState {
        static_base: st0.static_base,
        next_instr: st0.next_instr + 46,
        call_counter: st0.call_counter + 1,
    };
    let boot = bootstrap_lines(st0);
    let rest = spec_run_units(units, st1)->Ok_0.0;
    lemma_bootstrap_jump_count(st0);
    lemma_run_units_jump_count(units, st1, name);
    lemma_jump_count_concat(boot, rest, name);
    assert(seam_count(boot, rest, name) == 0);
    assert(spec_translate_directory(units)->Ok_0 == boot + rest);
}

} // verus!
