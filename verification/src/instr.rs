//! The instruction data model: memory segments, parsed instructions, the
//! ghost view of an instruction, and the error taxonomy.

use vstd::prelude::*;

verus! {

/// A named category of stack-machine memory, each with its own addressing
/// rule.
#[derive(Debug, PartialEq, Eq, Structural, Clone, Copy)]
pub enum MemorySegment {
    Local,
    Argument,
    This,
    That,
    Constant,
    Static,
    Pointer,
    Temp,
}

/// The errors a translation can signal: the syntax errors of the parser and
/// the semantic errors of the code generator.
#[derive(Debug, PartialEq, Eq, Structural, Clone, Copy)]
pub enum VmError {
    /// The first token of a line names no known instruction.
    UnknownMnemonic,
    /// The segment token of a push or pop names no known segment.
    UnknownSegment,
    /// A pop names the constant segment, which is push-only.
    ConstantPop,
    /// A required operand token is missing or is not a valid non-negative
    /// integer within range.
    BadOperand,
    /// A pointer access names an index other than 0 or 1.
    BadPointerIndex,
}

/// One parsed stack-machine instruction.
#[derive(Debug, PartialEq)]
pub enum ParsedVMInstruction {
    Add,
    Sub,
    Neg,
    Eq,
    Gt,
    Lt,
    And,
    Or,
    Not,
    Pop { segment: MemorySegment, idx: u16 },
    Push { segment: MemorySegment, idx: u16 },
    Label { label: String },
    Goto { label: String },
    IfGoto { label: String },
    Function { name: String, num_local_vars: u16 },
    Call { name: String, num_args: u16 },
    Return,
}

/// The ghost view of a parsed instruction: the same shape, with textual
/// fields as character sequences.
pub enum InstrView {
    Add,
    Sub,
    Neg,
    Eq,
    Gt,
    Lt,
    And,
    Or,
    Not,
    Pop { segment: MemorySegment, idx: u16 },
    Push { segment: MemorySegment, idx: u16 },
    Label { label: Seq<char> },
    Goto { label: Seq<char> },
    IfGoto { label: Seq<char> },
    Function { name: Seq<char>, num_local_vars: u16 },
    Call { name: Seq<char>, num_args: u16 },
    Return,
}

impl View for ParsedVMInstruction {
    type V = InstrView;

    open spec fn view(&self) -> InstrView {
        match self {
            ParsedVMInstruction::Add => InstrView::Add,
            ParsedVMInstruction::Sub => InstrView::Sub,
            ParsedVMInstruction::Neg => InstrView::Neg,
            ParsedVMInstruction::Eq => InstrView::Eq,
            ParsedVMInstruction::Gt => InstrView::Gt,
            ParsedVMInstruction::Lt => InstrView::Lt,
            ParsedVMInstruction::And => InstrView::And,
            ParsedVMInstruction::Or => InstrView::Or,
            ParsedVMInstruction::Not => InstrView::Not,
            ParsedVMInstruction::Pop { segment, idx } => InstrView::Pop {
                segment: *segment,
                idx: *idx,
            },
            ParsedVMInstruction::Push { segment, idx } => InstrView::Push {
                segment: *segment,
                idx: *idx,
            },
            ParsedVMInstruction::Label { label } => InstrView::Label { label: label@ },
            ParsedVMInstruction::Goto { label } => InstrView::Goto { label: label@ },
            ParsedVMInstruction::IfGoto { label } => InstrView::IfGoto { label: label@ },
            ParsedVMInstruction::Function { name, num_local_vars } => InstrView::Function {
                name: name@,
                num_local_vars: *num_local_vars,
            },
            ParsedVMInstruction::Call { name, num_args } => InstrView::Call {
                name: name@,
                num_args: *num_args,
            },
            ParsedVMInstruction::Return => InstrView::Return,
        }
    }
}

impl MemorySegment {
    /// Whether this segment is addressed through a dedicated pointer cell.
    pub open spec fn is_direct(&self) -> bool {
        self is Local || self is Argument || self is This || self is That
    }

    /// The pointer name of a direct segment.
    pub open spec fn spec_seg_ptr(&self) -> Seq<char> {
        match *self {
            MemorySegment::Local => "LCL"@,
            MemorySegment::Argument => "ARG"@,
            MemorySegment::This => "THIS"@,
            MemorySegment::That => "THAT"@,
            _ => Seq::<char>::empty(),
        }
    }

    /// The name of the pointer cell through which a direct segment is
    /// addressed.
    pub fn seg_ptr(&self) -> (r: &str)
        requires
            self.is_direct(),
        ensures
            r@ == self.spec_seg_ptr(),
    {
        match *self {
            MemorySegment::Local => "LCL",
            MemorySegment::Argument => "ARG",
            MemorySegment::This => "THIS",
            MemorySegment::That => "THAT",
            _ => {
                proof {
                    assert(false);
                }
                "LCL"
            },
        }
    }
}

impl InstrView {
    /// Whether the code generator accepts this instruction: a pop must not
    /// name the constant segment, and a pointer access must use index 0
    /// or 1.
    pub open spec fn gen_ok(self) -> bool {
        &&& !(self matches InstrView::Pop { segment: MemorySegment::Constant, .. })
        &&& (self matches InstrView::Pop { segment: MemorySegment::Pointer, idx } ==> idx < 2)
        &&& (self matches InstrView::Push { segment: MemorySegment::Pointer, idx } ==> idx < 2)
    }

    /// The error the code generator signals on an instruction it refuses.
    pub open spec fn gen_err(self) -> VmError {
        if self matches InstrView::Pop { segment: MemorySegment::Constant, .. } {
            VmError::ConstantPop
        } else {
            VmError::BadPointerIndex
        }
    }
}

} // verus!
