//! The instruction parser: one trimmed, comment-free source line becomes a
//! tagged instruction value, or a syntax error.

use vstd::prelude::*;
use crate::instr::InstrView;
use crate::instr::MemorySegment;
use crate::instr::ParsedVMInstruction;
use crate::instr::VmError;
use crate::numeral::spec_parse_u16;
use crate::numeral::parse_u16;
use crate::tokens::spec_split;
use crate::tokens::split_spaces;
use crate::tokens::str_eq;

verus! {

/// The segment a segment token names, if any.
pub open spec fn spec_segment(tok: Seq<char>) -> Option<MemorySegment> {
    if tok == "local"@ {
        Some(MemorySegment::Local)
    } else if tok == "argument"@ {
        Some(MemorySegment::Argument)
    } else if tok == "this"@ {
        Some(MemorySegment::This)
    } else if tok == "that"@ {
        Some(MemorySegment::That)
    } else if tok == "constant"@ {
        Some(MemorySegment::Constant)
    } else if tok == "static"@ {
        Some(MemorySegment::Static)
    } else if tok == "pointer"@ {
        Some(MemorySegment::Pointer)
    } else if tok == "temp"@ {
        Some(MemorySegment::Temp)
    } else {
        None
    }
}

/// What parsing one line yields: the tokens are the line split on spaces;
/// the first token picks the instruction; push and pop read a segment token
/// and an index token; branching and function instructions read their
/// operands. Each failure names its error: an unknown mnemonic, an unknown
/// segment token, a pop of the push-only constant segment, or a missing or
/// non-numeric operand.
pub open spec fn spec_parse(line: Seq<char>) -> Result<InstrView, VmError> {
    let toks = spec_split(line);
    let t0 = toks[0];
    if t0 == "add"@ {
        Ok(InstrView::Add)
    } else if t0 == "sub"@ {
        Ok(InstrView::Sub)
    } else if t0 == "neg"@ {
        Ok(InstrView::Neg)
    } else if t0 == "eq"@ {
        Ok(InstrView::Eq)
    } else if t0 == "gt"@ {
        Ok(InstrView::Gt)
    } else if t0 == "lt"@ {
        Ok(InstrView::Lt)
    } else if t0 == "and"@ {
        Ok(InstrView::And)
    } else if t0 == "or"@ {
        Ok(InstrView::Or)
    } else if t0 == "not"@ {
        Ok(InstrView::Not)
    } else if t0 == "pop"@ || t0 == "push"@ {
        if toks.len() < 2 {
            Err(VmError::BadOperand)
        } else {
            match spec_segment(toks[1]) {
                None => Err(VmError::UnknownSegment),
                Some(seg) => {
                    if t0 == "pop"@ && seg is Constant {
                        Err(VmError::ConstantPop)
                    } else if toks.len() < 3 {
                        Err(VmError::BadOperand)
                    } else {
                        match spec_parse_u16(toks[2]) {
                            None => Err(VmError::BadOperand),
                            Some(idx) => {
                                if t0 == "pop"@ {
                                    Ok(InstrView::Pop { segment: seg, idx })
                                } else {
                                    Ok(InstrView::Push { segment: seg, idx })
                                }
                            },
                        }
                    }
                },
            }
        }
    } else if t0 == "label"@ {
        if toks.len() < 2 {
            Err(VmError::BadOperand)
        } else {
            Ok(InstrView::Label { label: toks[1] })
        }
    } else if t0 == "goto"@ {
        if toks.len() < 2 {
            Err(VmError::BadOperand)
        } else {
            Ok(InstrView::Goto { label: toks[1] })
        }
    } else if t0 == "if-goto"@ {
        if toks.len() < 2 {
            Err(VmError::BadOperand)
        } else {
            Ok(InstrView::IfGoto { label: toks[1] })
        }
    } else if t0 == "function"@ {
        if toks.len() < 3 {
            Err(VmError::BadOperand)
        } else {
            match spec_parse_u16(toks[2]) {
                None => Err(VmError::BadOperand),
                Some(n) => Ok(InstrView::Function { name: toks[1], num_local_vars: n }),
            }
        }
    } else if t0 == "call"@ {
        if toks.len() < 3 {
            Err(VmError::BadOperand)
        } else {
            match spec_parse_u16(toks[2]) {
                None => Err(VmError::BadOperand),
                Some(n) => Ok(InstrView::Call { name: toks[1], num_args: n }),
            }
        }
    } else if t0 == "return"@ {
        Ok(InstrView::Return)
    } else {
        Err(VmError::UnknownMnemonic)
    }
}

/// The view of a parse result.
pub open spec fn parse_result_view(r: Result<ParsedVMInstruction, VmError>) -> Result<
    InstrView,
    VmError,
> {
    match r {
        Ok(i) => Ok(i@),
        Err(e) => Err(e),
    }
}

/// The segment a segment token names, if any.
fn parse_segment(tok: &str) -> (r: Option<MemorySegment>)
    ensures
        r == spec_segment(tok@),
{
    if str_eq(tok, "local") {
        Some(MemorySegment::Local)
    } else if str_eq(tok, "argument") {
        Some(MemorySegment::Argument)
    } else if str_eq(tok, "this") {
        Some(MemorySegment::This)
    } else if str_eq(tok, "that") {
        Some(MemorySegment::That)
    } else if str_eq(tok, "constant") {
        Some(MemorySegment::Constant)
    } else if str_eq(tok, "static") {
        Some(MemorySegment::Static)
    } else if str_eq(tok, "pointer") {
        Some(MemorySegment::Pointer)
    } else if str_eq(tok, "temp") {
        Some(MemorySegment::Temp)
    } else {
        None
    }
}

/// Parses one non-empty, comment-free, whitespace-trimmed source line into
/// its tagged instruction value, or the syntax error the line holds.
pub fn parse_instruction(instruction: &str) -> (r: Result<ParsedVMInstruction, VmError>)
    ensures
        parse_result_view(r) == spec_parse(instruction@),
{
    let toks = split_spaces(instruction);
    proof {
        crate::tokens::lemma_split_len(instruction@);
        assert(toks@.len() == spec_split(instruction@).len());
        assert forall|k: int| 0 <= k < toks@.len() implies toks@[k]@ == spec_split(
            instruction@,
        )[k] by {
            assert(toks.deep_view()[k] == spec_split(instruction@)[k]);
        }
    }
    let t0 = toks[0].as_str();
    if str_eq(t0, "add") {
        Ok(ParsedVMInstruction::Add)
    } else if str_eq(t0, "sub") {
        Ok(ParsedVMInstruction::Sub)
    } else if str_eq(t0, "neg") {
        Ok(ParsedVMInstruction::Neg)
    } else if str_eq(t0, "eq") {
        Ok(ParsedVMInstruction::Eq)
    } else if str_eq(t0, "gt") {
        Ok(ParsedVMInstruction::Gt)
    } else if str_eq(t0, "lt") {
        Ok(ParsedVMInstruction::Lt)
    } else if str_eq(t0, "and") {
        Ok(ParsedVMInstruction::And)
    } else if str_eq(t0, "or") {
        Ok(ParsedVMInstruction::Or)
    } else if str_eq(t0, "not") {
        Ok(ParsedVMInstruction::Not)
    } else if str_eq(t0, "pop") || str_eq(t0, "push") {
        let is_pop = str_eq(t0, "pop");
        if toks.len() < 2 {
            Err(VmError::BadOperand)
        } else {
            match parse_segment(toks[1].as_str()) {
                None => Err(VmError::UnknownSegment),
                Some(seg) => {
                    if is_pop && matches!(seg, MemorySegment::Constant) {
                        Err(VmError::ConstantPop)
                    } else if toks.len() < 3 {
                        Err(VmError::BadOperand)
                    } else {
                        match parse_u16(toks[2].as_str()) {
                            None => Err(VmError::BadOperand),
                            Some(idx) => {
                                if is_pop {
                                    Ok(ParsedVMInstruction::Pop { segment: seg, idx })
                                } else {
                                    Ok(ParsedVMInstruction::Push { segment: seg, idx })
                                }
                            },
                        }
                    }
                },
            }
        }
    } else if str_eq(t0, "label") {
        if toks.len() < 2 {
            Err(VmError::BadOperand)
        } else {
            Ok(ParsedVMInstruction::Label { label: toks[1].clone() })
        }
    } else if str_eq(t0, "goto") {
        if toks.len() < 2 {
            Err(VmError::BadOperand)
        } else {
            Ok(ParsedVMInstruction::Goto { label: toks[1].clone() })
        }
    } else if str_eq(t0, "if-goto") {
        if toks.len() < 2 {
            Err(VmError::BadOperand)
        } else {
            Ok(ParsedVMInstruction::IfGoto { label: toks[1].clone() })
        }
    } else if str_eq(t0, "function") {
        if toks.len() < 3 {
            Err(VmError::BadOperand)
        } else {
            match parse_u16(toks[2].as_str()) {
                None => Err(VmError::BadOperand),
                Some(n) => Ok(
                    ParsedVMInstruction::Function {
                        name: toks[1].clone(),
                        num_local_vars: n,
                    },
                ),
            }
        }
    } else if str_eq(t0, "call") {
        if toks.len() < 3 {
            Err(VmError::BadOperand)
        } else {
            match parse_u16(toks[2].as_str()) {
                None => Err(VmError::BadOperand),
                Some(n) => Ok(ParsedVMInstruction::Call { name: toks[1].clone(), num_args: n }),
            }
        }
    } else if str_eq(t0, "return") {
        Ok(ParsedVMInstruction::Return)
    } else {
        Err(VmError::UnknownMnemonic)
    }
}

} // verus!
