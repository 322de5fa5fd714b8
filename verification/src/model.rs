//! The mathematical model of the machine.
//!
//! `MachineState` is the architectural state as ghost data: the register
//! file as a sequence of 32 signed words, the memory as a sequence of bytes,
//! and the program counter.  Every executable operation of the machine is
//! specified against an *effect function* defined here: a total spec function
//! from the old state (and the decoded operand fields) to the new state and
//! the operation's result.  `exec_word` composes the field extraction and the
//! dispatch, `cycle` adds the fetch, the halt sentinel and the program-counter
//! advance, and `run_n` iterates `cycle` a given number of times.

use vstd::prelude::*;

use crate::arch::FaultReason;
use crate::arch::HALT_WORD;
use crate::arch::LoadError;
use crate::arch::MEM_SIZE;
use crate::arch::PC_START;
use crate::arch::DYNAMIC_DATA;
use crate::arch::RunOutcome;
use crate::arch::STATIC_DATA;
use crate::arch::StepOutcome;

verus! {

/// The architectural state: register file, byte memory, program counter.
#[verifier::ext_equal]
pub struct MachineState {
    /// The 32 general-purpose registers; index 0 is hardwired to zero.
    pub regs: Seq<i32>,
    /// The byte-addressable memory; words are stored big-endian.
    pub mem: Seq<u8>,
    /// The program counter.
    pub pc: u32,
}

impl MachineState {
    /// Well-formedness: the register file has its fixed size, the memory has
    /// its fixed size, and the zero register reads as zero.
    pub open spec fn wf(self) -> bool {
        &&& self.regs.len() == 32
        &&& self.mem.len() == MEM_SIZE
        &&& self.regs[0] == 0
    }

    /// The state of a freshly constructed machine: everything zeroed, the
    /// program counter at the start of the text region.
    pub open spec fn initial() -> MachineState {
        MachineState {
            regs: Seq::new(32, |i: int| 0i32),
            mem: Seq::new(MEM_SIZE as nat, |i: int| 0u8),
            pc: PC_START,
        }
    }

    /// The state with register `rd` set to `v`; a write to register 0 is
    /// discarded.
    pub open spec fn with_reg(self, rd: u32, v: i32) -> MachineState {
        if rd == 0 {
            self
        } else {
            MachineState { regs: self.regs.update(rd as int, v), mem: self.mem, pc: self.pc }
        }
    }

    /// The state with the program counter set to `pc`.
    pub open spec fn with_pc(self, pc: u32) -> MachineState {
        MachineState { regs: self.regs, mem: self.mem, pc: pc }
    }

    /// The state with the memory replaced by `mem`.
    pub open spec fn with_mem(self, mem: Seq<u8>) -> MachineState {
        MachineState { regs: self.regs, mem: mem, pc: self.pc }
    }
}

// ---------------------------------------------------------------------------
// 32-bit value helpers
// ---------------------------------------------------------------------------

/// The unsigned reading of a register value (two's complement).
pub open spec fn as_unsigned(x: i32) -> u32 {
    if x >= 0 {
        x as u32
    } else {
        (x + 0x1_0000_0000) as u32
    }
}

/// The signed reading of a 32-bit word (two's complement).
pub open spec fn as_signed(x: u32) -> i32 {
    if x <= 0x7FFF_FFFF {
        x as i32
    } else {
        (x - 0x1_0000_0000) as i32
    }
}

/// `x` reduced modulo 2^32 into an unsigned word, for `x` within one wrap of
/// the 32-bit range.
pub open spec fn wrap_u32(x: int) -> u32
    recommends
        -0x1_0000_0000 <= x < 0x2_0000_0000,
{
    if x < 0 {
        (x + 0x1_0000_0000) as u32
    } else if x > 0xFFFF_FFFF {
        (x - 0x1_0000_0000) as u32
    } else {
        x as u32
    }
}

/// `x` reduced modulo 2^32 into a signed word, for `x` within one wrap of the
/// 32-bit range.
pub open spec fn wrap_i32(x: int) -> i32
    recommends
        -0x1_0000_0000 <= x < 0x1_0000_0000,
{
    if x > i32::MAX {
        (x - 0x1_0000_0000) as i32
    } else if x < i32::MIN {
        (x + 0x1_0000_0000) as i32
    } else {
        x as i32
    }
}

/// A 16-bit immediate widened to 32 bits by replicating its sign bit.
pub open spec fn sign_extend16(x: u16) -> i32 {
    if x < 0x8000 {
        x as i32
    } else {
        (x - 0x1_0000) as i32
    }
}

// ---------------------------------------------------------------------------
// Instruction-word fields (§ decode): fixed bit positions, format-independent
// ---------------------------------------------------------------------------

/// Bits 31–26: the opcode.
pub open spec fn op_field(w: u32) -> u32 {
    w / 0x400_0000
}

/// Bits 25–21: the first source register.
pub open spec fn rs_field(w: u32) -> u32 {
    (w / 0x20_0000) % 32
}

/// Bits 20–16: the second source (or destination) register.
pub open spec fn rt_field(w: u32) -> u32 {
    (w / 0x1_0000) % 32
}

/// Bits 15–11: the destination register of a register-format operation.
pub open spec fn rd_field(w: u32) -> u32 {
    (w / 0x800) % 32
}

/// Bits 10–6: the shift amount.
pub open spec fn shamt_field(w: u32) -> u32 {
    (w / 0x40) % 32
}

/// Bits 5–0: the function selector of a register-format operation.
pub open spec fn func_field(w: u32) -> u32 {
    w % 0x40
}

/// Bits 15–0: the immediate operand, as raw bits.
pub open spec fn imm_field(w: u32) -> u16 {
    (w % 0x1_0000) as u16
}

/// Bits 25–0: the target field of a jump-format operation.
pub open spec fn addr_field(w: u32) -> u32 {
    w % 0x400_0000
}

// ---------------------------------------------------------------------------
// Memory as big-endian words
// ---------------------------------------------------------------------------

/// The word stored big-endian at byte address `a`.
pub open spec fn word_at(mem: Seq<u8>, a: int) -> u32
    recommends
        0 <= a,
        a + 4 <= mem.len(),
{
    (mem[a] * 0x100_0000 + mem[a + 1] * 0x1_0000 + mem[a + 2] * 0x100 + mem[a + 3]) as u32
}

/// The half-word stored big-endian at byte address `a`.
pub open spec fn half_at(mem: Seq<u8>, a: int) -> u16
    recommends
        0 <= a,
        a + 2 <= mem.len(),
{
    (mem[a] * 0x100 + mem[a + 1]) as u16
}

/// Big-endian byte `k` (0 = most significant) of the word `v`.
pub open spec fn word_byte(v: u32, k: int) -> u8
    recommends
        0 <= k < 4,
{
    if k == 0 {
        (v / 0x100_0000) as u8
    } else if k == 1 {
        ((v / 0x1_0000) % 0x100) as u8
    } else if k == 2 {
        ((v / 0x100) % 0x100) as u8
    } else {
        (v % 0x100) as u8
    }
}

/// The memory with the word `v` stored big-endian at byte address `a`.
pub open spec fn store_word(mem: Seq<u8>, a: int, v: u32) -> Seq<u8>
    recommends
        0 <= a,
        a + 4 <= mem.len(),
{
    mem.update(a, word_byte(v, 0)).update(a + 1, word_byte(v, 1)).update(a + 2, word_byte(v, 2))
        .update(a + 3, word_byte(v, 3))
}

/// The memory with the half-word `v` stored big-endian at byte address `a`.
pub open spec fn store_half(mem: Seq<u8>, a: int, v: u16) -> Seq<u8>
    recommends
        0 <= a,
        a + 2 <= mem.len(),
{
    mem.update(a, (v / 0x100) as u8).update(a + 1, (v % 0x100) as u8)
}

/// The memory with the words `ws` stored at consecutive word addresses from
/// `a` upward.
pub open spec fn store_words(mem: Seq<u8>, a: int, ws: Seq<u32>) -> Seq<u8>
    decreases ws.len(),
{
    if ws.len() == 0 {
        mem
    } else {
        store_word(store_words(mem, a, ws.drop_last()), a + 4 * (ws.len() - 1), ws.last())
    }
}

// ---------------------------------------------------------------------------
// Per-instruction effects
// ---------------------------------------------------------------------------

/// The effect of an executed instruction: the next state, and either the
/// fault that aborted it (the state is then unchanged) or whether it set the
/// program counter itself.
pub type Effect = (MachineState, Result<bool, FaultReason>);

/// Signed addition; faults on 32-bit overflow instead of wrapping.
pub open spec fn add_eff(s: MachineState, rs: u32, rt: u32, rd: u32) -> Effect {
    let sum = s.regs[rs as int] + s.regs[rt as int];
    if i32::MIN <= sum <= i32::MAX {
        (s.with_reg(rd, sum as i32), Ok(false))
    } else {
        (s, Err(FaultReason::ArithmeticOverflow))
    }
}

/// Unsigned (wrap-around) addition.
pub open spec fn addu_eff(s: MachineState, rs: u32, rt: u32, rd: u32) -> Effect {
    (s.with_reg(rd, wrap_i32(s.regs[rs as int] + s.regs[rt as int])), Ok(false))
}

/// Bitwise and.
pub open spec fn and_eff(s: MachineState, rs: u32, rt: u32, rd: u32) -> Effect {
    (s.with_reg(rd, s.regs[rs as int] & s.regs[rt as int]), Ok(false))
}

/// Jump to the address held in the named register.
pub open spec fn jr_eff(s: MachineState, rs: u32) -> Effect {
    (s.with_pc(as_unsigned(s.regs[rs as int])), Ok(true))
}

/// Bitwise not, written in two's-complement arithmetic: flipping every bit of
/// `x` yields `-1 - x`.
pub open spec fn not32(x: i32) -> i32 {
    (-1 - x) as i32
}

/// Bitwise nor.
pub open spec fn nor_eff(s: MachineState, rs: u32, rt: u32, rd: u32) -> Effect {
    (s.with_reg(rd, not32(s.regs[rs as int] | s.regs[rt as int])), Ok(false))
}

/// Bitwise or.
pub open spec fn or_eff(s: MachineState, rs: u32, rt: u32, rd: u32) -> Effect {
    (s.with_reg(rd, s.regs[rs as int] | s.regs[rt as int]), Ok(false))
}

/// Signed less-than: writes 1 or 0.
pub open spec fn slt_eff(s: MachineState, rs: u32, rt: u32, rd: u32) -> Effect {
    (
        s.with_reg(rd, if s.regs[rs as int] < s.regs[rt as int] { 1i32 } else { 0i32 }),
        Ok(false),
    )
}

/// Unsigned less-than: writes 1 or 0.
pub open spec fn sltu_eff(s: MachineState, rs: u32, rt: u32, rd: u32) -> Effect {
    (
        s.with_reg(
            rd,
            if as_unsigned(s.regs[rs as int]) < as_unsigned(s.regs[rt as int]) {
                1i32
            } else {
                0i32
            },
        ),
        Ok(false),
    )
}

/// Logical shift left of `rs` by `shamt`, written to `rt`.
pub open spec fn sll_eff(s: MachineState, rs: u32, rt: u32, shamt: u32) -> Effect {
    (s.with_reg(rt, as_signed(as_unsigned(s.regs[rs as int]) << shamt)), Ok(false))
}

/// Logical (zero-fill) shift right of `rs` by `shamt`, written to `rt`.
pub open spec fn srl_eff(s: MachineState, rs: u32, rt: u32, shamt: u32) -> Effect {
    (s.with_reg(rt, as_signed(as_unsigned(s.regs[rs as int]) >> shamt)), Ok(false))
}

/// Signed subtraction; faults on 32-bit overflow instead of wrapping.
pub open spec fn sub_eff(s: MachineState, rs: u32, rt: u32, rd: u32) -> Effect {
    let diff = s.regs[rs as int] - s.regs[rt as int];
    if i32::MIN <= diff <= i32::MAX {
        (s.with_reg(rd, diff as i32), Ok(false))
    } else {
        (s, Err(FaultReason::ArithmeticOverflow))
    }
}

/// Unsigned (wrap-around) subtraction.
pub open spec fn subu_eff(s: MachineState, rs: u32, rt: u32, rd: u32) -> Effect {
    (s.with_reg(rd, wrap_i32(s.regs[rs as int] - s.regs[rt as int])), Ok(false))
}

/// Signed addition of a sign-extended immediate; faults on overflow.
pub open spec fn addi_eff(s: MachineState, rs: u32, rt: u32, imm: u16) -> Effect {
    let sum = s.regs[rs as int] + sign_extend16(imm);
    if i32::MIN <= sum <= i32::MAX {
        (s.with_reg(rt, sum as i32), Ok(false))
    } else {
        (s, Err(FaultReason::ArithmeticOverflow))
    }
}

/// Wrap-around addition of a sign-extended immediate.
pub open spec fn addiu_eff(s: MachineState, rs: u32, rt: u32, imm: u16) -> Effect {
    (s.with_reg(rt, wrap_i32(s.regs[rs as int] + sign_extend16(imm))), Ok(false))
}

/// Bitwise and with a sign-extended immediate.
pub open spec fn andi_eff(s: MachineState, rs: u32, rt: u32, imm: u16) -> Effect {
    (s.with_reg(rt, s.regs[rs as int] & sign_extend16(imm)), Ok(false))
}

/// Bitwise or with a sign-extended immediate.
pub open spec fn ori_eff(s: MachineState, rs: u32, rt: u32, imm: u16) -> Effect {
    (s.with_reg(rt, s.regs[rs as int] | sign_extend16(imm)), Ok(false))
}

/// The target of a taken branch at address `pc`: the following instruction's
/// address plus the sign-extended immediate in words.
pub open spec fn branch_target(pc: u32, imm: u16) -> u32 {
    wrap_u32(pc + 4 + 4 * sign_extend16(imm))
}

/// Branch if the two registers are equal; a branch not taken leaves the
/// program counter to the loop's ordinary advance.
pub open spec fn beq_eff(s: MachineState, rs: u32, rt: u32, imm: u16) -> Effect {
    if s.regs[rs as int] == s.regs[rt as int] {
        (s.with_pc(branch_target(s.pc, imm)), Ok(true))
    } else {
        (s, Ok(false))
    }
}

/// Branch if the two registers differ.
pub open spec fn bne_eff(s: MachineState, rs: u32, rt: u32, imm: u16) -> Effect {
    if s.regs[rs as int] != s.regs[rt as int] {
        (s.with_pc(branch_target(s.pc, imm)), Ok(true))
    } else {
        (s, Ok(false))
    }
}

/// The effective address of a load or store: base register plus sign-extended
/// offset, modulo 2^32.
pub open spec fn effective_address(s: MachineState, rs: u32, imm: u16) -> u32 {
    wrap_u32(s.regs[rs as int] + sign_extend16(imm))
}

/// Load byte unsigned: one byte, zero-extended into `rt`.
pub open spec fn lbu_eff(s: MachineState, rs: u32, rt: u32, imm: u16) -> Effect {
    let ea = effective_address(s, rs, imm);
    if ea < s.mem.len() {
        (s.with_reg(rt, s.mem[ea as int] as i32), Ok(false))
    } else {
        (s, Err(FaultReason::OutOfBounds(ea)))
    }
}

/// Load half-word unsigned: two bytes big-endian, zero-extended into `rt`;
/// the address must be 2-byte aligned.
pub open spec fn lhu_eff(s: MachineState, rs: u32, rt: u32, imm: u16) -> Effect {
    let ea = effective_address(s, rs, imm);
    if ea % 2 != 0 {
        (s, Err(FaultReason::Misaligned(ea)))
    } else if ea + 2 <= s.mem.len() {
        (s.with_reg(rt, half_at(s.mem, ea as int) as i32), Ok(false))
    } else {
        (s, Err(FaultReason::OutOfBounds(ea)))
    }
}

/// Load upper immediate: the immediate shifted into the high half-word.
pub open spec fn lui_eff(s: MachineState, rt: u32, imm: u16) -> Effect {
    (s.with_reg(rt, wrap_i32(imm * 0x1_0000)), Ok(false))
}

/// Load word: four bytes big-endian into `rt`; the address must be 4-byte
/// aligned.
pub open spec fn lw_eff(s: MachineState, rs: u32, rt: u32, imm: u16) -> Effect {
    let ea = effective_address(s, rs, imm);
    if ea % 4 != 0 {
        (s, Err(FaultReason::Misaligned(ea)))
    } else if ea + 4 <= s.mem.len() {
        (s.with_reg(rt, as_signed(word_at(s.mem, ea as int))), Ok(false))
    } else {
        (s, Err(FaultReason::OutOfBounds(ea)))
    }
}

/// Store byte: the low 8 bits of `rt`'s value at the effective address.
pub open spec fn sb_eff(s: MachineState, rs: u32, rt: u32, imm: u16) -> Effect {
    let ea = effective_address(s, rs, imm);
    if ea < s.mem.len() {
        (
            s.with_mem(s.mem.update(ea as int, (as_unsigned(s.regs[rt as int]) % 0x100) as u8)),
            Ok(false),
        )
    } else {
        (s, Err(FaultReason::OutOfBounds(ea)))
    }
}

/// Store half-word: the low 16 bits of `rt`'s value, big-endian, 2-byte
/// aligned.
pub open spec fn sh_eff(s: MachineState, rs: u32, rt: u32, imm: u16) -> Effect {
    let ea = effective_address(s, rs, imm);
    if ea % 2 != 0 {
        (s, Err(FaultReason::Misaligned(ea)))
    } else if ea + 2 <= s.mem.len() {
        (
            s.with_mem(
                store_half(s.mem, ea as int, (as_unsigned(s.regs[rt as int]) % 0x1_0000) as u16),
            ),
            Ok(false),
        )
    } else {
        (s, Err(FaultReason::OutOfBounds(ea)))
    }
}

/// Store word: `rt`'s value, big-endian, 4-byte aligned.
pub open spec fn sw_eff(s: MachineState, rs: u32, rt: u32, imm: u16) -> Effect {
    let ea = effective_address(s, rs, imm);
    if ea % 4 != 0 {
        (s, Err(FaultReason::Misaligned(ea)))
    } else if ea + 4 <= s.mem.len() {
        (s.with_mem(store_word(s.mem, ea as int, as_unsigned(s.regs[rt as int]))), Ok(false))
    } else {
        (s, Err(FaultReason::OutOfBounds(ea)))
    }
}

/// Signed less-than against the sign-extended immediate: writes 1 or 0.
pub open spec fn slti_eff(s: MachineState, rs: u32, rt: u32, imm: u16) -> Effect {
    (
        s.with_reg(rt, if s.regs[rs as int] < sign_extend16(imm) { 1i32 } else { 0i32 }),
        Ok(false),
    )
}

/// Unsigned less-than against the zero-extended immediate: writes 1 or 0.
pub open spec fn sltiu_eff(s: MachineState, rs: u32, rt: u32, imm: u16) -> Effect {
    (
        s.with_reg(rt, if as_unsigned(s.regs[rs as int]) < imm as u32 { 1i32 } else { 0i32 }),
        Ok(false),
    )
}

/// The target of a jump at address `pc`: the 26-bit field in words, within
/// the current 256 MB segment.
pub open spec fn jump_target(pc: u32, address: u32) -> u32
    recommends
        address < 0x400_0000,
{
    ((pc / 0x1000_0000) * 0x1000_0000 + address * 4) as u32
}

/// Unconditional jump.
pub open spec fn j_eff(s: MachineState, address: u32) -> Effect {
    (s.with_pc(jump_target(s.pc, address)), Ok(true))
}

/// Jump and link: the address of the following instruction goes to register
/// 31, then the jump is taken.
pub open spec fn jal_eff(s: MachineState, address: u32) -> Effect {
    (
        s.with_reg(31, as_signed(wrap_u32(s.pc + 4))).with_pc(jump_target(s.pc, address)),
        Ok(true),
    )
}

// ---------------------------------------------------------------------------
// Decode dispatch, the cycle, and iterated cycles
// ---------------------------------------------------------------------------

/// The effect of executing one already-fetched word: field extraction plus
/// dispatch on opcode and function selector.  A word whose opcode or function
/// selector maps to no operation is, uniformly, a no-op.
pub open spec fn exec_word(s: MachineState, w: u32) -> Effect {
    let rs = rs_field(w);
    let rt = rt_field(w);
    let rd = rd_field(w);
    let shamt = shamt_field(w);
    let imm = imm_field(w);
    let op = op_field(w);
    if op == 0x00 {
        let func = func_field(w);
        if func == 0x20 {
            add_eff(s, rs, rt, rd)
        } else if func == 0x21 {
            addu_eff(s, rs, rt, rd)
        } else if func == 0x24 {
            and_eff(s, rs, rt, rd)
        } else if func == 0x08 {
            jr_eff(s, rs)
        } else if func == 0x27 {
            nor_eff(s, rs, rt, rd)
        } else if func == 0x25 {
            or_eff(s, rs, rt, rd)
        } else if func == 0x2A {
            slt_eff(s, rs, rt, rd)
        } else if func == 0x2B {
            sltu_eff(s, rs, rt, rd)
        } else if func == 0x00 {
            sll_eff(s, rs, rt, shamt)
        } else if func == 0x02 {
            srl_eff(s, rs, rt, shamt)
        } else if func == 0x22 {
            sub_eff(s, rs, rt, rd)
        } else if func == 0x23 {
            subu_eff(s, rs, rt, rd)
        } else {
            (s, Ok(false))
        }
    } else if op == 0x02 {
        j_eff(s, addr_field(w))
    } else if op == 0x03 {
        jal_eff(s, addr_field(w))
    } else if op == 0x08 {
        addi_eff(s, rs, rt, imm)
    } else if op == 0x09 {
        addiu_eff(s, rs, rt, imm)
    } else if op == 0x0C {
        andi_eff(s, rs, rt, imm)
    } else if op == 0x04 {
        beq_eff(s, rs, rt, imm)
    } else if op == 0x05 {
        bne_eff(s, rs, rt, imm)
    } else if op == 0x0F {
        lui_eff(s, rt, imm)
    } else if op == 0x23 {
        lw_eff(s, rs, rt, imm)
    } else if op == 0x0D {
        ori_eff(s, rs, rt, imm)
    } else if op == 0x0A {
        slti_eff(s, rs, rt, imm)
    } else if op == 0x0B {
        sltiu_eff(s, rs, rt, imm)
    } else if op == 0x2B {
        sw_eff(s, rs, rt, imm)
    } else if op == 0x24 {
        lbu_eff(s, rs, rt, imm)
    } else if op == 0x25 {
        lhu_eff(s, rs, rt, imm)
    } else if op == 0x28 {
        sb_eff(s, rs, rt, imm)
    } else if op == 0x29 {
        sh_eff(s, rs, rt, imm)
    } else {
        (s, Ok(false))
    }
}

/// One cycle of the fetch-decode-execute loop: halt when the program counter
/// has left the text region; fetch (faulting on a misaligned or out-of-range
/// counter); halt on the sentinel word; execute, keeping the old state on a
/// fault; advance the counter by 4 unless the instruction set it.
pub open spec fn cycle(s: MachineState) -> (MachineState, StepOutcome) {
    if s.pc >= STATIC_DATA {
        (s, StepOutcome::Halted)
    } else if s.pc % 4 != 0 {
        (s, StepOutcome::Faulted(FaultReason::Misaligned(s.pc)))
    } else if s.pc + 4 > s.mem.len() {
        (s, StepOutcome::Faulted(FaultReason::OutOfBounds(s.pc)))
    } else {
        let w = word_at(s.mem, s.pc as int);
        if w == HALT_WORD {
            (s, StepOutcome::Halted)
        } else {
            let effect = exec_word(s, w);
            match effect.1 {
                Err(f) => (s, StepOutcome::Faulted(f)),
                Ok(pc_set) => (
                    if pc_set {
                        effect.0
                    } else {
                        effect.0.with_pc(wrap_u32(effect.0.pc + 4))
                    },
                    StepOutcome::Running,
                ),
            }
        }
    }
}

/// The machine after `n` cycles from `s`, with its phase; a terminal phase
/// (halted or faulted) is absorbing.
pub open spec fn run_n(s: MachineState, n: nat) -> (MachineState, StepOutcome)
    decreases n,
{
    if n == 0 {
        (s, StepOutcome::Running)
    } else {
        let prev = run_n(s, (n - 1) as nat);
        if prev.1 == StepOutcome::Running {
            cycle(prev.0)
        } else {
            prev
        }
    }
}

/// Frame facts about one executed word: a faulting instruction leaves the
/// state exactly as it was, and an instruction that does not report setting
/// the program counter indeed leaves it unchanged.
pub proof fn lemma_exec_word_frame(s: MachineState, w: u32)
    ensures
        exec_word(s, w).1 is Err ==> exec_word(s, w).0 == s,
        exec_word(s, w).1 == Ok::<bool, FaultReason>(false) ==> exec_word(s, w).0.pc == s.pc,
{
}

/// The phase a terminal run outcome stands for.
pub open spec fn run_phase(outcome: RunOutcome) -> StepOutcome {
    match outcome {
        RunOutcome::Halted => StepOutcome::Halted,
        RunOutcome::Faulted(f) => StepOutcome::Faulted(f),
    }
}

/// The effect of loading a program: both regions are bounds-checked first,
/// and a program that does not fit is rejected with no partial effect.
pub open spec fn load_eff(s: MachineState, instructions: Seq<u32>, data: Seq<u32>) -> (
    MachineState,
    Result<(), LoadError>,
) {
    if instructions.len() * 4 <= STATIC_DATA - PC_START && data.len() * 4 <= DYNAMIC_DATA
        - STATIC_DATA {
        (
            s.with_mem(
                store_words(
                    store_words(s.mem, PC_START as int, instructions),
                    STATIC_DATA as int,
                    data,
                ),
            ),
            Ok(()),
        )
    } else {
        (s, Err(LoadError::ProgramTooLarge))
    }
}

} // verus!
