//! The laws the machine obeys, proved over the model: memory round-trips,
//! alignment, wrap-around arithmetic, the zero-register invariant, and
//! branch displacement.

use vstd::prelude::*;

use crate::arch::FaultReason;
use crate::arch::HALT_WORD;
use crate::arch::STATIC_DATA;
use crate::arch::StepOutcome;
use crate::model::MachineState;
use crate::model::add_eff;
use crate::model::addu_eff;
use crate::model::and_eff;
use crate::model::jr_eff;
use crate::model::nor_eff;
use crate::model::or_eff;
use crate::model::as_unsigned;
use crate::model::cycle;
use crate::model::exec_word;
use crate::model::func_field;
use crate::model::half_at;
use crate::model::imm_field;
use crate::model::op_field;
use crate::model::rd_field;
use crate::model::rs_field;
use crate::model::rt_field;
use crate::model::run_n;
use crate::model::shamt_field;
use crate::model::sign_extend16;
use crate::model::store_half;
use crate::model::store_word;
use crate::model::word_at;
use crate::model::wrap_i32;
use crate::model::wrap_u32;

verus! {

/// Law: storing a word and reading it back at the same in-bounds aligned
/// address returns the stored value, and the store touches no byte outside
/// its own four.
pub proof fn lemma_word_round_trip(mem: Seq<u8>, a: int, v: u32)
    requires
        0 <= a,
        a % 4 == 0,
        a + 4 <= mem.len(),
    ensures
        store_word(mem, a, v).len() == mem.len(),
        word_at(store_word(mem, a, v), a) == v,
        forall|i: int|
            0 <= i < mem.len() && !(a <= i < a + 4) ==> store_word(mem, a, v)[i] == mem[i],
{
    assert((v / 0x100_0000) * 0x100_0000 + ((v / 0x1_0000) % 0x100) * 0x1_0000 + ((v / 0x100)
        % 0x100) * 0x100 + (v % 0x100) == v) by (bit_vector);
}

/// Law: storing a half-word and reading it back at the same in-bounds
/// 2-byte-aligned address returns the stored value.
pub proof fn lemma_half_round_trip(mem: Seq<u8>, a: int, v: u16)
    requires
        0 <= a,
        a % 2 == 0,
        a + 2 <= mem.len(),
    ensures
        store_half(mem, a, v).len() == mem.len(),
        half_at(store_half(mem, a, v), a) == v,
        forall|i: int|
            0 <= i < mem.len() && !(a <= i < a + 2) ==> store_half(mem, a, v)[i] == mem[i],
{
    assert((v / 0x100) * 0x100 + (v % 0x100) == v) by (bit_vector);
}

/// Law: storing a byte and reading it back at the same in-bounds address
/// returns the stored value.
pub proof fn lemma_byte_round_trip(mem: Seq<u8>, a: int, v: u8)
    requires
        0 <= a < mem.len(),
    ensures
        mem.update(a, v).len() == mem.len(),
        mem.update(a, v)[a] == v,
        forall|i: int| 0 <= i < mem.len() && i != a ==> mem.update(a, v)[i] == mem[i],
{
}

/// Law: an odd address is aligned neither to words nor to half-words, so the
/// word and half-word accesses at it fail (their contracts then leave the
/// state unchanged).
pub proof fn lemma_odd_address_misaligned(address: u32)
    requires
        address % 2 == 1,
    ensures
        address % 4 != 0,
        address % 2 != 0,
{
    assert(address % 4 != 0) by (bit_vector)
        requires
            address % 2 == 1,
    ;
}

/// Law: unsigned addition is addition modulo 2^32 on the unsigned readings of
/// the operands.
pub proof fn lemma_addu_modular(a: i32, b: i32)
    ensures
        as_unsigned(wrap_i32(a + b)) == (as_unsigned(a) + as_unsigned(b)) % 0x1_0000_0000,
{
    assert((as_unsigned(a) + as_unsigned(b)) % 0x1_0000_0000 == as_unsigned(a) + as_unsigned(b)
        - if as_unsigned(a) + as_unsigned(b) >= 0x1_0000_0000 {
            0x1_0000_0000int
        } else {
            0int
        });
}

/// Law: the unsigned-add instruction writes, to a destination other than the
/// zero register, exactly the sum modulo 2^32 of the unsigned readings of its
/// operands, and never faults.
pub proof fn lemma_addu_effect_modular(s: MachineState, rs: u32, rt: u32, rd: u32)
    requires
        s.wf(),
        rs < 32,
        rt < 32,
        0 < rd < 32,
    ensures
        addu_eff(s, rs, rt, rd).1 == Ok::<bool, FaultReason>(false),
        as_unsigned(addu_eff(s, rs, rt, rd).0.regs[rd as int]) == (as_unsigned(
            s.regs[rs as int],
        ) + as_unsigned(s.regs[rt as int])) % 0x1_0000_0000,
{
    lemma_addu_modular(s.regs[rs as int], s.regs[rt as int]);
}

/// Law: the signed-add instruction faults exactly when the mathematical sum
/// of its operands leaves the signed 32-bit range, and a fault leaves the
/// state unchanged.
pub proof fn lemma_add_faults_exactly_on_overflow(s: MachineState, rs: u32, rt: u32, rd: u32)
    requires
        s.wf(),
        rs < 32,
        rt < 32,
        rd < 32,
    ensures
        add_eff(s, rs, rt, rd).1 is Err <==> !(i32::MIN <= s.regs[rs as int] + s.regs[rt as int]
            <= i32::MAX),
        add_eff(s, rs, rt, rd).1 is Err ==> add_eff(s, rs, rt, rd) == (
            s,
            Err::<bool, FaultReason>(FaultReason::ArithmeticOverflow),
        ),
        add_eff(s, rs, rt, rd).1 is Ok ==> add_eff(s, rs, rt, rd).0 == s.with_reg(
            rd,
            (s.regs[rs as int] + s.regs[rt as int]) as i32,
        ),
{
}

/// The zero-register goals for the first half of the register-format
/// operations.
#[verifier::rlimit(100)]
#[verifier::spinoff_prover]
proof fn lemma_zero_r_format_a(s: MachineState, w: u32)
    requires
        s.wf(),
        op_field(w) == 0x00,
        func_field(w) == 0x20 || func_field(w) == 0x21 || func_field(w) == 0x24 || func_field(w)
            == 0x08 || func_field(w) == 0x27 || func_field(w) == 0x25,
    ensures
        exec_word(s, w).0.wf(),
        exec_word(s, w).0.regs[0] == 0,
{
    assert(rs_field(w) < 32 && rt_field(w) < 32 && rd_field(w) < 32 && shamt_field(w) < 32);
    let rs = rs_field(w);
    let rt = rt_field(w);
    let rd = rd_field(w);
    let func = func_field(w);
    if func == 0x20 {
        assert(exec_word(s, w) == add_eff(s, rs, rt, rd));
        assert(exec_word(s, w).0.wf() && exec_word(s, w).0.regs[0] == 0);
    } else if func == 0x21 {
        assert(exec_word(s, w) == addu_eff(s, rs, rt, rd));
        assert(exec_word(s, w).0.wf() && exec_word(s, w).0.regs[0] == 0);
    } else if func == 0x24 {
        assert(exec_word(s, w) == and_eff(s, rs, rt, rd));
        assert(exec_word(s, w).0.wf() && exec_word(s, w).0.regs[0] == 0);
    } else if func == 0x08 {
        assert(exec_word(s, w) == jr_eff(s, rs));
        assert(exec_word(s, w).0.wf() && exec_word(s, w).0.regs[0] == 0);
    } else if func == 0x27 {
        assert(exec_word(s, w) == nor_eff(s, rs, rt, rd));
        assert(exec_word(s, w).0.wf() && exec_word(s, w).0.regs[0] == 0);
    } else if func == 0x25 {
        assert(exec_word(s, w) == or_eff(s, rs, rt, rd));
        assert(exec_word(s, w).0.wf() && exec_word(s, w).0.regs[0] == 0);
    }
}

/// The zero-register goals for the second half of the register-format
/// operations.
#[verifier::rlimit(100)]
#[verifier::spinoff_prover]
proof fn lemma_zero_r_format_b(s: MachineState, w: u32)
    requires
        s.wf(),
        op_field(w) == 0x00,
        func_field(w) == 0x2A || func_field(w) == 0x2B || func_field(w) == 0x00 || func_field(w)
            == 0x02 || func_field(w) == 0x22 || func_field(w) == 0x23,
    ensures
        exec_word(s, w).0.wf(),
        exec_word(s, w).0.regs[0] == 0,
{
    assert(rs_field(w) < 32 && rt_field(w) < 32 && rd_field(w) < 32 && shamt_field(w) < 32);
}

/// The zero-register goals for register-format words.
#[verifier::rlimit(100)]
#[verifier::spinoff_prover]
proof fn lemma_zero_r_format(s: MachineState, w: u32)
    requires
        s.wf(),
        op_field(w) == 0x00,
    ensures
        exec_word(s, w).0.wf(),
        exec_word(s, w).0.regs[0] == 0,
{
    let func = func_field(w);
    if func == 0x20 || func == 0x21 || func == 0x24 || func == 0x08 || func == 0x27 || func
        == 0x25 {
        lemma_zero_r_format_a(s, w);
    } else if func == 0x2A || func == 0x2B || func == 0x00 || func == 0x02 || func == 0x22 || func
        == 0x23 {
        lemma_zero_r_format_b(s, w);
    } else {
        assert(exec_word(s, w).0 == s);
    }
}

/// The zero-register goals for jump-format words.
#[verifier::rlimit(100)]
#[verifier::spinoff_prover]
proof fn lemma_zero_j_format(s: MachineState, w: u32)
    requires
        s.wf(),
        op_field(w) == 0x02 || op_field(w) == 0x03,
    ensures
        exec_word(s, w).0.wf(),
        exec_word(s, w).0.regs[0] == 0,
{
    assert(rs_field(w) < 32 && rt_field(w) < 32 && rd_field(w) < 32 && shamt_field(w) < 32);
}

/// The zero-register goals for immediate arithmetic, comparison and branch
/// words.
#[verifier::rlimit(100)]
#[verifier::spinoff_prover]
proof fn lemma_zero_i_alu(s: MachineState, w: u32)
    requires
        s.wf(),
        op_field(w) == 0x08 || op_field(w) == 0x09 || op_field(w) == 0x0C || op_field(w) == 0x04
            || op_field(w) == 0x05 || op_field(w) == 0x0F || op_field(w) == 0x0D || op_field(w)
            == 0x0A || op_field(w) == 0x0B,
    ensures
        exec_word(s, w).0.wf(),
        exec_word(s, w).0.regs[0] == 0,
{
    assert(rs_field(w) < 32 && rt_field(w) < 32 && rd_field(w) < 32 && shamt_field(w) < 32);
}

/// The zero-register goals for load and store words.
#[verifier::rlimit(100)]
#[verifier::spinoff_prover]
proof fn lemma_zero_i_mem(s: MachineState, w: u32)
    requires
        s.wf(),
        op_field(w) == 0x23 || op_field(w) == 0x2B || op_field(w) == 0x24 || op_field(w) == 0x25
            || op_field(w) == 0x28 || op_field(w) == 0x29,
    ensures
        exec_word(s, w).0.wf(),
        exec_word(s, w).0.regs[0] == 0,
{
    assert(rs_field(w) < 32 && rt_field(w) < 32 && rd_field(w) < 32 && shamt_field(w) < 32);
}

/// Law: the zero register reads as zero, and the state stays well-formed,
/// after any single executed instruction word, including words that name
/// register 0 as their destination.
pub proof fn lemma_zero_register_invariant(s: MachineState, w: u32)
    requires
        s.wf(),
    ensures
        exec_word(s, w).0.wf(),
        exec_word(s, w).0.regs[0] == 0,
{
    let op = op_field(w);
    if op == 0x00 {
        lemma_zero_r_format(s, w);
    } else if op == 0x02 || op == 0x03 {
        lemma_zero_j_format(s, w);
    } else if op == 0x08 || op == 0x09 || op == 0x0C || op == 0x04 || op == 0x05 || op == 0x0F
        || op == 0x0D || op == 0x0A || op == 0x0B {
        lemma_zero_i_alu(s, w);
    } else if op == 0x23 || op == 0x2B || op == 0x24 || op == 0x25 || op == 0x28 || op == 0x29 {
        lemma_zero_i_mem(s, w);
    } else {
        assert(exec_word(s, w).0 == s);
    }
}

/// Law: the zero register reads as zero, and the state stays well-formed,
/// after every cycle of the fetch-decode-execute loop.
pub proof fn lemma_cycle_preserves_invariant(s: MachineState)
    requires
        s.wf(),
    ensures
        cycle(s).0.wf(),
        cycle(s).0.regs[0] == 0,
{
    if s.pc < STATIC_DATA && s.pc % 4 == 0 && s.pc + 4 <= s.mem.len() {
        let w = word_at(s.mem, s.pc as int);
        if w != HALT_WORD {
            lemma_zero_register_invariant(s, w);
        }
    }
}

/// Law: a run that has halted or faulted stays exactly there: iterating the
/// cycle further changes neither the state nor the phase.
pub proof fn lemma_terminal_phase_is_absorbing(s: MachineState, n: nat, m: nat)
    requires
        n <= m,
        run_n(s, n).1 != StepOutcome::Running,
    ensures
        run_n(s, m) == run_n(s, n),
    decreases m,
{
    if m > n {
        lemma_terminal_phase_is_absorbing(s, n, (m - 1) as nat);
    }
}

/// Law: an instruction that neither sets the program counter itself nor
/// faults leaves the loop's ordinary advance as the only change of control:
/// the counter moves by exactly 4.
pub proof fn lemma_plain_instruction_advances_by_four(s: MachineState, w: u32)
    requires
        s.wf(),
        s.pc < STATIC_DATA,
        s.pc % 4 == 0,
        word_at(s.mem, s.pc as int) == w,
        w != HALT_WORD,
        exec_word(s, w).1 == Ok::<bool, FaultReason>(false),
    ensures
        cycle(s).1 == StepOutcome::Running,
        cycle(s).0.pc == s.pc + 4,
{
    crate::model::lemma_exec_word_frame(s, w);
}

/// Law: a machine whose next fetch, inside the text region, is the halt
/// sentinel halts in that cycle with every register, every memory byte and
/// the program counter untouched.
pub proof fn lemma_sentinel_halts(s: MachineState)
    requires
        s.wf(),
        s.pc < STATIC_DATA,
        s.pc % 4 == 0,
        word_at(s.mem, s.pc as int) == HALT_WORD,
    ensures
        cycle(s) == (s, StepOutcome::Halted),
{
}

/// Law: a branch-if-equal instruction fetched at the program counter moves
/// the counter, when its operands are equal, to exactly the following
/// instruction's address plus four times the sign-extended immediate (modulo
/// 2^32); with unequal operands the counter advances by exactly 4.
pub proof fn lemma_branch_displacement(s: MachineState, w: u32)
    requires
        s.wf(),
        s.pc < STATIC_DATA,
        s.pc % 4 == 0,
        word_at(s.mem, s.pc as int) == w,
        w != HALT_WORD,
        op_field(w) == 0x04,
    ensures
        cycle(s).1 == StepOutcome::Running,
        s.regs[rs_field(w) as int] == s.regs[rt_field(w) as int] ==> cycle(s).0.pc == wrap_u32(
            s.pc + 4 + 4 * sign_extend16(imm_field(w)),
        ),
        s.regs[rs_field(w) as int] != s.regs[rt_field(w) as int] ==> cycle(s).0.pc == s.pc + 4,
{
}

} // verus!
