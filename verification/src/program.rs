//! Program artifacts: the flat word-sequence form the machine loads, and the
//! intermediate shapes an assembler produces on the way there (instructions
//! with unresolved labels, and labelled static data).

use vstd::prelude::*;

verus! {

/// A loadable program: an ordered sequence of encoded instruction words and
/// an ordered sequence of static-data words.  Labels are resolved before this
/// boundary; no other metadata crosses it.
pub struct Program {
    /// The encoded instruction words, in text order.
    pub instructions: Vec<u32>,
    /// The static-data words, in region order.
    pub data: Vec<u32>,
}

impl Program {
    /// An empty program.
    pub fn new() -> (r: Program)
        ensures
            r.instructions@ == Seq::<u32>::empty(),
            r.data@ == Seq::<u32>::empty(),
    {
        Program { instructions: Vec::new(), data: Vec::new() }
    }
}

/// An assembler's intermediate form of a program: instructions and static
/// data with their labels still attached.
pub struct Protogram {
    /// The instructions of the text section.
    pub text: Vec<Instruction>,
    /// The labelled words of the data section.
    pub data: Vec<StaticData>,
}

/// The format of one parsed instruction.
pub enum Instruction {
    /// A register-format instruction.
    RInstruction,
    /// An immediate-format instruction.
    IInstruction,
    /// A jump-format instruction.
    JInstruction,
}

/// A register-format instruction before encoding.
pub struct RInstruction {
    /// The instruction's own label, possibly empty.
    pub label: String,
    /// The opcode (0 for this format).
    pub opcode: u8,
    /// The first source register.
    pub rs: u8,
    /// The second source register.
    pub rt: u8,
    /// The destination register.
    pub rd: u8,
    /// The shift amount.
    pub shamt: u8,
    /// The function selector.
    pub func: u8,
}

/// An immediate-format instruction before encoding.
pub struct IInstruction {
    /// The instruction's own label, possibly empty.
    pub label: String,
    /// The opcode.
    pub opcode: u8,
    /// The source register.
    pub rs: u8,
    /// The target register.
    pub rt: u8,
    /// The immediate operand.
    pub immediate: i16,
    /// The label this operand refers to, if not yet resolved.
    pub lbl_op: String,
}

/// A jump-format instruction before encoding.
pub struct JInstruction {
    /// The instruction's own label, possibly empty.
    pub label: String,
    /// The opcode.
    pub opcode: u8,
    /// The jump target field.
    pub address: u32,
    /// The label this target refers to, if not yet resolved.
    pub lbl_op: String,
}

/// A labelled run of static-data words.
pub struct StaticData {
    /// The label the data is addressed by.
    pub label: String,
    /// The words of the run.
    pub value: Vec<i32>,
}

} // verus!
