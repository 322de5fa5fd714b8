//! Architectural definitions: the memory map, the register count, the halt
//! sentinel, the error taxonomy, and the two interfaces a machine offers —
//! `Computer` (load and run) and `MipsIsa` (the per-instruction semantics).

use vstd::prelude::*;

use crate::model::MachineState;
use crate::model::add_eff;
use crate::model::addi_eff;
use crate::model::addiu_eff;
use crate::model::addu_eff;
use crate::model::and_eff;
use crate::model::andi_eff;
use crate::model::beq_eff;
use crate::model::bne_eff;
use crate::model::exec_word;
use crate::model::j_eff;
use crate::model::jal_eff;
use crate::model::jr_eff;
use crate::model::lbu_eff;
use crate::model::lhu_eff;
use crate::model::load_eff;
use crate::model::lui_eff;
use crate::model::lw_eff;
use crate::model::nor_eff;
use crate::model::or_eff;
use crate::model::ori_eff;
use crate::model::run_n;
use crate::model::run_phase;
use crate::model::sb_eff;
use crate::model::sh_eff;
use crate::model::sll_eff;
use crate::model::slt_eff;
use crate::model::slti_eff;
use crate::model::sltiu_eff;
use crate::model::sltu_eff;
use crate::model::srl_eff;
use crate::model::sub_eff;
use crate::model::subu_eff;
use crate::model::sw_eff;
use crate::program::Program;

verus! {

/// Number of general-purpose registers.
pub const REG_NUM: u32 = 32;

/// First address of the instruction (text) region, and the initial program
/// counter.
pub const PC_START: u32 = 0x0040;

/// First address of the static-data region; the text region ends here, and a
/// machine whose program counter reaches this address halts.
pub const STATIC_DATA: u32 = 0x1000;

/// First address of the dynamic region; the static-data region ends here.
pub const DYNAMIC_DATA: u32 = 0x4000;

/// Last valid byte address.
pub const END_MEM: u32 = 0x8000;

/// Size of the byte-addressable memory: addresses `0 ..= END_MEM` are valid.
pub const MEM_SIZE: u32 = END_MEM + 1;

/// The all-ones word: fetched in place of an instruction, it halts the
/// machine.
pub const HALT_WORD: u32 = 0xFFFF_FFFF;

/// Failure of a single memory access.
#[derive(Clone, Copy, Debug, PartialEq, Eq, Structural)]
pub enum MemError {
    /// The address is not a multiple of the access width.
    Misaligned(u32),
    /// Some byte of the access lies outside the memory array.
    OutOfBounds(u32),
}

/// Failure of a program load.
#[derive(Clone, Copy, Debug, PartialEq, Eq, Structural)]
pub enum LoadError {
    /// The instruction or data sequence does not fit its region.
    ProgramTooLarge,
}

/// Why a running machine faulted.
#[derive(Clone, Copy, Debug, PartialEq, Eq, Structural)]
pub enum FaultReason {
    /// A memory access at this address was not aligned to the access width.
    Misaligned(u32),
    /// A memory access at this address fell outside the memory array.
    OutOfBounds(u32),
    /// A signed operation's true result does not fit in 32 bits.
    ArithmeticOverflow,
}

/// What one cycle of the fetch-decode-execute loop did.
#[derive(Clone, Copy, Debug, PartialEq, Eq, Structural)]
pub enum StepOutcome {
    /// The machine executed one instruction and can continue.
    Running,
    /// The machine reached the halt sentinel or left the text region.
    Halted,
    /// The cycle failed; the state is unchanged from the start of the cycle.
    Faulted(FaultReason),
}

/// How a bounded run ended.
#[derive(Clone, Copy, Debug, PartialEq, Eq, Structural)]
pub enum RunOutcome {
    /// The machine halted normally.
    Halted,
    /// The machine faulted and stopped at the faulting cycle.
    Faulted(FaultReason),
}

/// The load-and-run interface of a machine.
pub trait Computer {
    /// The architectural state (registers, memory, program counter) as a
    /// mathematical value.
    spec fn arch_state(&self) -> MachineState;

    /// Well-formedness of the implementation's state representation.
    spec fn arch_inv(&self) -> bool;

    /// Validates the program's region bounds, then writes its instruction
    /// words at `PC_START` and its data words at `STATIC_DATA`; a program
    /// that does not fit is rejected with no partial effect.
    fn load_program(&mut self, program: &Program) -> (r: Result<(), LoadError>)
        requires
            old(self).arch_inv(),
        ensures
            final(self).arch_inv(),
            (final(self).arch_state(), r) == load_eff(
                old(self).arch_state(),
                program.instructions@,
                program.data@,
            ),
    ;

    /// Runs the fetch-decode-execute loop for at most `max_cycles` cycles.
    /// `Some` outcome is a terminal state reached within the budget; `None`
    /// means the budget ran out with the machine still running.
    fn start(&mut self, max_cycles: u32) -> (r: Option<RunOutcome>)
        requires
            old(self).arch_inv(),
        ensures
            final(self).arch_inv(),
            match r {
                Some(outcome) => exists|n: nat|
                    n <= max_cycles && run_n(old(self).arch_state(), n) == (
                        final(self).arch_state(),
                        run_phase(outcome),
                    ),
                None => run_n(old(self).arch_state(), max_cycles as nat) == (
                    final(self).arch_state(),
                    StepOutcome::Running,
                ),
            },
    ;
}

/// The per-instruction semantics of the instruction set.  Each method's
/// contract ties the implementation to the corresponding effect function of
/// the mathematical model; `Ok(true)` reports that the instruction itself set
/// the program counter, so the outer loop must not advance it again.
pub trait MipsIsa {
    /// The architectural state as a mathematical value.
    spec fn arch_state(&self) -> MachineState;

    /// Well-formedness of the implementation's state representation.
    spec fn arch_inv(&self) -> bool;

    fn add(&mut self, rs: u32, rt: u32, rd: u32) -> (r: Result<bool, FaultReason>)
        requires
            old(self).arch_inv(),
            rs < REG_NUM,
            rt < REG_NUM,
            rd < REG_NUM,
        ensures
            final(self).arch_inv(),
            (final(self).arch_state(), r) == add_eff(old(self).arch_state(), rs, rt, rd),
    ;

    fn addu(&mut self, rs: u32, rt: u32, rd: u32) -> (r: Result<bool, FaultReason>)
        requires
            old(self).arch_inv(),
            rs < REG_NUM,
            rt < REG_NUM,
            rd < REG_NUM,
        ensures
            final(self).arch_inv(),
            (final(self).arch_state(), r) == addu_eff(old(self).arch_state(), rs, rt, rd),
    ;

    fn and(&mut self, rs: u32, rt: u32, rd: u32) -> (r: Result<bool, FaultReason>)
        requires
            old(self).arch_inv(),
            rs < REG_NUM,
            rt < REG_NUM,
            rd < REG_NUM,
        ensures
            final(self).arch_inv(),
            (final(self).arch_state(), r) == and_eff(old(self).arch_state(), rs, rt, rd),
    ;

    fn jr(&mut self, rs: u32) -> (r: Result<bool, FaultReason>)
        requires
            old(self).arch_inv(),
            rs < REG_NUM,
        ensures
            final(self).arch_inv(),
            (final(self).arch_state(), r) == jr_eff(old(self).arch_state(), rs),
    ;

    fn nor(&mut self, rs: u32, rt: u32, rd: u32) -> (r: Result<bool, FaultReason>)
        requires
            old(self).arch_inv(),
            rs < REG_NUM,
            rt < REG_NUM,
            rd < REG_NUM,
        ensures
            final(self).arch_inv(),
            (final(self).arch_state(), r) == nor_eff(old(self).arch_state(), rs, rt, rd),
    ;

    fn or(&mut self, rs: u32, rt: u32, rd: u32) -> (r: Result<bool, FaultReason>)
        requires
            old(self).arch_inv(),
            rs < REG_NUM,
            rt < REG_NUM,
            rd < REG_NUM,
        ensures
            final(self).arch_inv(),
            (final(self).arch_state(), r) == or_eff(old(self).arch_state(), rs, rt, rd),
    ;

    fn slt(&mut self, rs: u32, rt: u32, rd: u32) -> (r: Result<bool, FaultReason>)
        requires
            old(self).arch_inv(),
            rs < REG_NUM,
            rt < REG_NUM,
            rd < REG_NUM,
        ensures
            final(self).arch_inv(),
            (final(self).arch_state(), r) == slt_eff(old(self).arch_state(), rs, rt, rd),
    ;

    fn sltu(&mut self, rs: u32, rt: u32, rd: u32) -> (r: Result<bool, FaultReason>)
        requires
            old(self).arch_inv(),
            rs < REG_NUM,
            rt < REG_NUM,
            rd < REG_NUM,
        ensures
            final(self).arch_inv(),
            (final(self).arch_state(), r) == sltu_eff(old(self).arch_state(), rs, rt, rd),
    ;

    fn sll(&mut self, rs: u32, rt: u32, shamt: u32) -> (r: Result<bool, FaultReason>)
        requires
            old(self).arch_inv(),
            rs < REG_NUM,
            rt < REG_NUM,
            shamt < 32,
        ensures
            final(self).arch_inv(),
            (final(self).arch_state(), r) == sll_eff(old(self).arch_state(), rs, rt, shamt),
    ;

    fn srl(&mut self, rs: u32, rt: u32, shamt: u32) -> (r: Result<bool, FaultReason>)
        requires
            old(self).arch_inv(),
            rs < REG_NUM,
            rt < REG_NUM,
            shamt < 32,
        ensures
            final(self).arch_inv(),
            (final(self).arch_state(), r) == srl_eff(old(self).arch_state(), rs, rt, shamt),
    ;

    fn sub(&mut self, rs: u32, rt: u32, rd: u32) -> (r: Result<bool, FaultReason>)
        requires
            old(self).arch_inv(),
            rs < REG_NUM,
            rt < REG_NUM,
            rd < REG_NUM,
        ensures
            final(self).arch_inv(),
            (final(self).arch_state(), r) == sub_eff(old(self).arch_state(), rs, rt, rd),
    ;

    fn subu(&mut self, rs: u32, rt: u32, rd: u32) -> (r: Result<bool, FaultReason>)
        requires
            old(self).arch_inv(),
            rs < REG_NUM,
            rt < REG_NUM,
            rd < REG_NUM,
        ensures
            final(self).arch_inv(),
            (final(self).arch_state(), r) == subu_eff(old(self).arch_state(), rs, rt, rd),
    ;

    fn addi(&mut self, rs: u32, rt: u32, immediate: u16) -> (r: Result<bool, FaultReason>)
        requires
            old(self).arch_inv(),
            rs < REG_NUM,
            rt < REG_NUM,
        ensures
            final(self).arch_inv(),
            (final(self).arch_state(), r) == addi_eff(old(self).arch_state(), rs, rt, immediate),
    ;

    fn addiu(&mut self, rs: u32, rt: u32, immediate: u16) -> (r: Result<bool, FaultReason>)
        requires
            old(self).arch_inv(),
            rs < REG_NUM,
            rt < REG_NUM,
        ensures
            final(self).arch_inv(),
            (final(self).arch_state(), r) == addiu_eff(old(self).arch_state(), rs, rt, immediate),
    ;

    fn andi(&mut self, rs: u32, rt: u32, immediate: u16) -> (r: Result<bool, FaultReason>)
        requires
            old(self).arch_inv(),
            rs < REG_NUM,
            rt < REG_NUM,
        ensures
            final(self).arch_inv(),
            (final(self).arch_state(), r) == andi_eff(old(self).arch_state(), rs, rt, immediate),
    ;

    fn ori(&mut self, rs: u32, rt: u32, immediate: u16) -> (r: Result<bool, FaultReason>)
        requires
            old(self).arch_inv(),
            rs < REG_NUM,
            rt < REG_NUM,
        ensures
            final(self).arch_inv(),
            (final(self).arch_state(), r) == ori_eff(old(self).arch_state(), rs, rt, immediate),
    ;

    fn beq(&mut self, rs: u32, rt: u32, immediate: u16) -> (r: Result<bool, FaultReason>)
        requires
            old(self).arch_inv(),
            rs < REG_NUM,
            rt < REG_NUM,
        ensures
            final(self).arch_inv(),
            (final(self).arch_state(), r) == beq_eff(old(self).arch_state(), rs, rt, immediate),
    ;

    fn bne(&mut self, rs: u32, rt: u32, immediate: u16) -> (r: Result<bool, FaultReason>)
        requires
            old(self).arch_inv(),
            rs < REG_NUM,
            rt < REG_NUM,
        ensures
            final(self).arch_inv(),
            (final(self).arch_state(), r) == bne_eff(old(self).arch_state(), rs, rt, immediate),
    ;

    fn lbu(&mut self, rs: u32, rt: u32, immediate: u16) -> (r: Result<bool, FaultReason>)
        requires
            old(self).arch_inv(),
            rs < REG_NUM,
            rt < REG_NUM,
        ensures
            final(self).arch_inv(),
            (final(self).arch_state(), r) == lbu_eff(old(self).arch_state(), rs, rt, immediate),
    ;

    fn lhu(&mut self, rs: u32, rt: u32, immediate: u16) -> (r: Result<bool, FaultReason>)
        requires
            old(self).arch_inv(),
            rs < REG_NUM,
            rt < REG_NUM,
        ensures
            final(self).arch_inv(),
            (final(self).arch_state(), r) == lhu_eff(old(self).arch_state(), rs, rt, immediate),
    ;

    fn lui(&mut self, rt: u32, immediate: u16) -> (r: Result<bool, FaultReason>)
        requires
            old(self).arch_inv(),
            rt < REG_NUM,
        ensures
            final(self).arch_inv(),
            (final(self).arch_state(), r) == lui_eff(old(self).arch_state(), rt, immediate),
    ;

    fn lw(&mut self, rs: u32, rt: u32, immediate: u16) -> (r: Result<bool, FaultReason>)
        requires
            old(self).arch_inv(),
            rs < REG_NUM,
            rt < REG_NUM,
        ensures
            final(self).arch_inv(),
            (final(self).arch_state(), r) == lw_eff(old(self).arch_state(), rs, rt, immediate),
    ;

    fn sb(&mut self, rs: u32, rt: u32, immediate: u16) -> (r: Result<bool, FaultReason>)
        requires
            old(self).arch_inv(),
            rs < REG_NUM,
            rt < REG_NUM,
        ensures
            final(self).arch_inv(),
            (final(self).arch_state(), r) == sb_eff(old(self).arch_state(), rs, rt, immediate),
    ;

    fn sh(&mut self, rs: u32, rt: u32, immediate: u16) -> (r: Result<bool, FaultReason>)
        requires
            old(self).arch_inv(),
            rs < REG_NUM,
            rt < REG_NUM,
        ensures
            final(self).arch_inv(),
            (final(self).arch_state(), r) == sh_eff(old(self).arch_state(), rs, rt, immediate),
    ;

    fn sw(&mut self, rs: u32, rt: u32, immediate: u16) -> (r: Result<bool, FaultReason>)
        requires
            old(self).arch_inv(),
            rs < REG_NUM,
            rt < REG_NUM,
        ensures
            final(self).arch_inv(),
            (final(self).arch_state(), r) == sw_eff(old(self).arch_state(), rs, rt, immediate),
    ;

    fn slti(&mut self, rs: u32, rt: u32, immediate: u16) -> (r: Result<bool, FaultReason>)
        requires
            old(self).arch_inv(),
            rs < REG_NUM,
            rt < REG_NUM,
        ensures
            final(self).arch_inv(),
            (final(self).arch_state(), r) == slti_eff(old(self).arch_state(), rs, rt, immediate),
    ;

    fn sltiu(&mut self, rs: u32, rt: u32, immediate: u16) -> (r: Result<bool, FaultReason>)
        requires
            old(self).arch_inv(),
            rs < REG_NUM,
            rt < REG_NUM,
        ensures
            final(self).arch_inv(),
            (final(self).arch_state(), r) == sltiu_eff(old(self).arch_state(), rs, rt, immediate),
    ;

    fn j(&mut self, address: u32) -> (r: Result<bool, FaultReason>)
        requires
            old(self).arch_inv(),
            address < 0x400_0000,
        ensures
            final(self).arch_inv(),
            (final(self).arch_state(), r) == j_eff(old(self).arch_state(), address),
    ;

    fn jal(&mut self, address: u32) -> (r: Result<bool, FaultReason>)
        requires
            old(self).arch_inv(),
            address < 0x400_0000,
        ensures
            final(self).arch_inv(),
            (final(self).arch_state(), r) == jal_eff(old(self).arch_state(), address),
    ;

    /// Extracts the fixed-width fields of one fetched word and executes the
    /// operation they select; a word that selects no operation is a no-op.
    fn decode_execute(&mut self, instruction: u32) -> (r: Result<bool, FaultReason>)
        requires
            old(self).arch_inv(),
        ensures
            final(self).arch_inv(),
            (final(self).arch_state(), r) == exec_word(old(self).arch_state(), instruction),
    ;
}

} // verus!
