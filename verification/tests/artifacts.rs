// The program artifacts an assembler produces: the loadable word form and the
// labelled intermediate forms.

use mips_sim::program::IInstruction;
use mips_sim::program::Instruction;
use mips_sim::program::JInstruction;
use mips_sim::program::Program;
use mips_sim::program::Protogram;
use mips_sim::program::RInstruction;
use mips_sim::program::StaticData;

#[test]
fn a_new_program_is_empty() {
    let program = Program::new();
    assert_eq!(program.instructions.len(), 0);
    assert_eq!(program.data.len(), 0);
}

#[test]
fn intermediate_forms_carry_their_fields() {
    let r = RInstruction {
        label: String::from("start"),
        opcode: 0,
        rs: 1,
        rt: 2,
        rd: 3,
        shamt: 0,
        func: 0x20,
    };
    assert_eq!(r.func, 0x20);
    let i = IInstruction {
        label: String::new(),
        opcode: 0x08,
        rs: 0,
        rt: 1,
        immediate: -5,
        lbl_op: String::new(),
    };
    assert_eq!(i.immediate, -5);
    let j = JInstruction {
        label: String::new(),
        opcode: 0x02,
        address: 0x12,
        lbl_op: String::from("loop_head"),
    };
    assert_eq!(j.address, 0x12);
    let d = StaticData {
        label: String::from("table"),
        value: vec![1, 2, 3],
    };
    assert_eq!(d.value.len(), 3);
    let proto = Protogram {
        text: vec![Instruction::RInstruction, Instruction::IInstruction, Instruction::JInstruction],
        data: vec![d],
    };
    assert_eq!(proto.text.len(), 3);
    assert_eq!(proto.data[0].label, "table");
}
