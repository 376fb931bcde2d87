//! Laws relating the parser and the code generator: what holds of every
//! input, stated over the spec functions that the executable contracts use.

use vstd::prelude::*;
use crate::instr::InstrView;
use crate::instr::VmError;
use crate::numeral::lemma_dec_injective;
use crate::numeral::spec_dec;
use crate::parser::spec_parse;
use crate::tokens::lemma_first_space_at;
use crate::tokens::spec_split;
use crate::translator::GenState;
use crate::translator::label_line_of;
use crate::translator::ret_label;
use crate::translator::spec_lines;
use crate::translator::spec_step;

verus! {

/// A line without spaces is one single token.
pub proof fn lemma_single_token(s: Seq<char>)
    requires
        forall|j: int| 0 <= j < s.len() ==> s[j] != ' ',
    ensures
        spec_split(s) == seq![s],
{
    lemma_first_space_at(s, s.len() as int);
}

/// The nine zero-operand instructions: each bare mnemonic line parses to
/// exactly its own tagged value.
pub proof fn lemma_parse_mnemonics()
    ensures
        spec_parse("add"@) == Ok::<InstrView, VmError>(InstrView::Add),
        spec_parse("sub"@) == Ok::<InstrView, VmError>(InstrView::Sub),
        spec_parse("neg"@) == Ok::<InstrView, VmError>(InstrView::Neg),
        spec_parse("eq"@) == Ok::<InstrView, VmError>(InstrView::Eq),
        spec_parse("gt"@) == Ok::<InstrView, VmError>(InstrView::Gt),
        spec_parse("lt"@) == Ok::<InstrView, VmError>(InstrView::Lt),
        spec_parse("and"@) == Ok::<InstrView, VmError>(InstrView::And),
        spec_parse("or"@) == Ok::<InstrView, VmError>(InstrView::Or),
        spec_parse("not"@) == Ok::<InstrView, VmError>(InstrView::Not),
{
    reveal_strlit("add");
    reveal_strlit("sub");
    reveal_strlit("neg");
    reveal_strlit("eq");
    reveal_strlit("gt");
    reveal_strlit("lt");
    reveal_strlit("and");
    reveal_strlit("or");
    reveal_strlit("not");
    lemma_single_token("add"@);
    lemma_single_token("sub"@);
    lemma_single_token("neg"@);
    lemma_single_token("eq"@);
    lemma_single_token("gt"@);
    lemma_single_token("lt"@);
    lemma_single_token("and"@);
    lemma_single_token("or"@);
    lemma_single_token("not"@);
    assert("and"@[1] != "add"@[1]);
    assert("and"@[0] != "sub"@[0]);
    assert("and"@[0] != "neg"@[0]);
    assert("or"@[0] != "eq"@[0]);
    assert("or"@[0] != "gt"@[0]);
    assert("or"@[0] != "lt"@[0]);
    assert("not"@[0] != "add"@[0]);
    assert("not"@[0] != "sub"@[0]);
    assert("not"@[1] != "neg"@[1]);
    assert("not"@[0] != "and"@[0]);
}

/// Whether an instruction is one of the nine zero-operand stack operators.
pub open spec fn is_stack_op(i: InstrView) -> bool {
    ||| i is Add
    ||| i is Sub
    ||| i is Neg
    ||| i is Eq
    ||| i is Gt
    ||| i is Lt
    ||| i is And
    ||| i is Or
    ||| i is Not
}

/// Each zero-operand instruction emits a non-empty, statically fixed-length
/// block, independent of the surrounding context — except the three
/// comparisons, whose block depends only on the emitted-instruction count.
pub proof fn lemma_stack_op_shape(i: InstrView, st1: GenState, st2: GenState)
    requires
        is_stack_op(i),
    ensures
        spec_lines(i, st1).len() > 0,
        spec_lines(i, st1).len() == spec_lines(i, st2).len(),
        st1.next_instr == st2.next_instr ==> spec_lines(i, st1) == spec_lines(i, st2),
        !(i is Eq || i is Gt || i is Lt) ==> spec_lines(i, st1) == spec_lines(i, st2),
{
}

/// A pop of the constant segment is rejected by the parser, whatever its
/// index token holds.
pub proof fn lemma_pop_constant_rejected(line: Seq<char>)
    requires
        spec_split(line).len() >= 2,
        spec_split(line)[0] == "pop"@,
        spec_split(line)[1] == "constant"@,
    ensures
        spec_parse(line) == Err::<InstrView, VmError>(VmError::ConstantPop),
{
    reveal_strlit("add");
    reveal_strlit("sub");
    reveal_strlit("neg");
    reveal_strlit("eq");
    reveal_strlit("gt");
    reveal_strlit("lt");
    reveal_strlit("and");
    reveal_strlit("or");
    reveal_strlit("not");
    reveal_strlit("pop");
    reveal_strlit("local");
    reveal_strlit("argument");
    reveal_strlit("this");
    reveal_strlit("that");
    reveal_strlit("constant");
    assert("pop"@[0] != "add"@[0]);
    assert("pop"@[0] != "sub"@[0]);
    assert("pop"@[0] != "neg"@[0]);
    assert("pop"@[0] != "and"@[0]);
    assert("pop"@[0] != "not"@[0]);
    assert("constant"@[0] != "argument"@[0]);
}

/// A label-definition line determines its label.
pub proof fn lemma_label_line_injective(x: Seq<char>, y: Seq<char>)
    requires
        label_line_of(x) == label_line_of(y),
    ensures
        x == y,
{
    assert(label_line_of(x).len() == x.len() + 2);
    assert(label_line_of(y).len() == y.len() + 2);
    assert(x.len() == y.len());
    assert forall|i: int| 0 <= i < x.len() implies x[i] == y[i] by {
        assert(label_line_of(x)[i + 1] == x[i]);
        assert(label_line_of(y)[i + 1] == y[i]);
    }
    assert(x =~= y);
}

/// Distinct call-site counters synthesize distinct return-address labels,
/// even for the same function name.
pub proof fn lemma_call_labels_distinct(name: Seq<char>, c1: nat, c2: nat)
    requires
        c1 != c2,
    ensures
        ret_label(name, c1) != ret_label(name, c2),
{
    reveal_strlit("$ret.");
    if ret_label(name, c1) == ret_label(name, c2) {
        let p = name.len() + "$ret."@.len();
        assert(ret_label(name, c1).len() == name.len() + 5 + spec_dec(c1).len());
        assert(ret_label(name, c2).len() == name.len() + 5 + spec_dec(c2).len());
        assert(spec_dec(c1).len() == spec_dec(c2).len());
        assert forall|i: int| 0 <= i < spec_dec(c1).len() implies spec_dec(c1)[i] == spec_dec(
            c2,
        )[i] by {
            assert(ret_label(name, c1)[p + i] == spec_dec(c1)[i]);
            assert(ret_label(name, c2)[p + i] == spec_dec(c2)[i]);
        }
        assert(spec_dec(c1) =~= spec_dec(c2));
        lemma_dec_injective(c1, c2);
    }
}

/// Two sequential calls to the same function within one generator emit call
/// sites whose synthesized return-address labels differ: the call-site
/// counter strictly grows and is never reused.
pub proof fn lemma_sequential_call_labels(name: Seq<char>, a1: u16, a2: u16, st: GenState)
    ensures
        spec_lines(InstrView::Call { name, num_args: a1 }, st).last() != spec_lines(
            InstrView::Call { name, num_args: a2 },
            spec_step(InstrView::Call { name, num_args: a1 }, st),
        ).last(),
{
    let st2 = spec_step(InstrView::Call { name, num_args: a1 }, st);
    assert(st2.call_counter == st.call_counter + 1);
    assert(spec_lines(InstrView::Call { name, num_args: a1 }, st).last() == label_line_of(
        ret_label(name, st.call_counter),
    ));
    assert(spec_lines(InstrView::Call { name, num_args: a2 }, st2).last() == label_line_of(
        ret_label(name, st2.call_counter),
    ));
    lemma_call_labels_distinct(name, st.call_counter, st2.call_counter);
    if label_line_of(ret_label(name, st.call_counter)) == label_line_of(
        ret_label(name, st2.call_counter),
    ) {
        lemma_label_line_injective(
            ret_label(name, st.call_counter),
            ret_label(name, st2.call_counter),
        );
    }
}

} // verus!
