//! The machine: architectural state, the aligned memory-access primitives,
//! and the fetch-decode-execute engine, all verified against the model in
//! `crate::model`.

use vstd::prelude::*;

use crate::arch::Computer;
use crate::arch::DYNAMIC_DATA;
use crate::arch::END_MEM;
use crate::arch::FaultReason;
use crate::arch::HALT_WORD;
use crate::arch::LoadError;
use crate::arch::MEM_SIZE;
use crate::arch::MemError;
use crate::arch::MipsIsa;
use crate::arch::PC_START;
use crate::arch::REG_NUM;
use crate::arch::RunOutcome;
use crate::arch::STATIC_DATA;
use crate::arch::StepOutcome;
use crate::model::MachineState;
use crate::model::as_signed;
use crate::model::as_unsigned;
use crate::model::branch_target;
use crate::model::cycle;
use crate::model::effective_address;
use crate::model::half_at;
use crate::model::jump_target;
use crate::model::run_n;
use crate::model::run_phase;
use crate::model::sign_extend16;
use crate::model::store_half;
use crate::model::store_word;
use crate::model::store_words;
use crate::model::word_at;
use crate::program::Program;

verus! {

/// A vector of `n` zeroed registers.
fn zeroed_registers(n: usize) -> (v: Vec<i32>)
    ensures
        v@.len() == n,
        forall|i: int| 0 <= i < n ==> v@[i] == 0i32,
{
    let mut v: Vec<i32> = Vec::new();
    while v.len() < n
        invariant
            v@.len() <= n,
            forall|i: int| 0 <= i < v@.len() ==> v@[i] == 0i32,
        decreases n - v@.len(),
    {
        v.push(0);
    }
    v
}

/// A vector of `n` zeroed bytes.
fn zeroed_bytes(n: usize) -> (v: Vec<u8>)
    ensures
        v@.len() == n,
        forall|i: int| 0 <= i < n ==> v@[i] == 0u8,
{
    let mut v: Vec<u8> = Vec::new();
    while v.len() < n
        invariant
            v@.len() <= n,
            forall|i: int| 0 <= i < v@.len() ==> v@[i] == 0u8,
        decreases n - v@.len(),
    {
        v.push(0);
    }
    v
}

/// The immediate operand widened to 32 bits by replicating its sign bit.
fn sign_extend_16(x: u16) -> (r: i32)
    ensures
        r == sign_extend16(x),
{
    if x < 0x8000 {
        x as i32
    } else {
        (x as i32) - 0x1_0000
    }
}

/// The unsigned reading of a register value.
fn to_unsigned(x: i32) -> (r: u32)
    ensures
        r == as_unsigned(x),
{
    if x >= 0 {
        x as u32
    } else {
        ((x as i64) + 0x1_0000_0000i64) as u32
    }
}

/// The signed reading of a 32-bit word.
fn to_signed(x: u32) -> (r: i32)
    ensures
        r == as_signed(x),
{
    if x <= 0x7FFF_FFFF {
        x as i32
    } else {
        ((x as i64) - 0x1_0000_0000i64) as i32
    }
}

/// The target of a taken branch at `pc` with word offset `imm`.
fn branch_target_exec(pc: u32, imm: u16) -> (r: u32)
    ensures
        r == branch_target(pc, imm),
{
    let offset = sign_extend_16(imm);
    let t: i64 = (pc as i64) + 4i64 + 4i64 * (offset as i64);
    if t < 0 {
        (t + 0x1_0000_0000i64) as u32
    } else if t > 0xFFFF_FFFFi64 {
        (t - 0x1_0000_0000i64) as u32
    } else {
        t as u32
    }
}

/// The target of a jump at `pc` with 26-bit word field `address`.
fn jump_target_exec(pc: u32, address: u32) -> (r: u32)
    requires
        address < 0x400_0000,
    ensures
        r == jump_target(pc, address),
{
    (pc / 0x1000_0000) * 0x1000_0000 + address * 4
}

/// The machine: register file, byte-addressable memory, program counter.
pub struct CPU {
    registers: Vec<i32>,
    memory: Vec<u8>,
    program_counter: u32,
}

impl View for CPU {
    type V = MachineState;

    closed spec fn view(&self) -> MachineState {
        MachineState { regs: self.registers@, mem: self.memory@, pc: self.program_counter }
    }
}

impl CPU {
    /// Well-formedness of the representation: fixed register-file and memory
    /// sizes, zero register hardwired to zero.
    pub open spec fn wf(&self) -> bool {
        self@.wf()
    }

    /// A fresh machine: registers and memory zero-filled, program counter at
    /// the start of the text region.
    pub fn new() -> (r: CPU)
        ensures
            r.wf(),
            r@ == MachineState::initial(),
    {
        let r = CPU {
            registers: zeroed_registers(REG_NUM as usize),
            memory: zeroed_bytes(MEM_SIZE as usize),
            program_counter: PC_START,
        };
        proof {
            assert(r@.regs =~= MachineState::initial().regs);
            assert(r@.mem =~= MachineState::initial().mem);
            assert(r@ =~= MachineState::initial());
        }
        r
    }

    /// The program counter.
    pub fn pc(&self) -> (r: u32)
        ensures
            r == self@.pc,
    {
        self.program_counter
    }

    /// The value of one register.
    pub fn register(&self, idx: u32) -> (r: i32)
        requires
            self.wf(),
            idx < REG_NUM,
        ensures
            r == self@.regs[idx as int],
    {
        self.registers[idx as usize]
    }

    /// One byte of memory.
    pub fn memory_byte(&self, address: u32) -> (r: u8)
        requires
            self.wf(),
            address < MEM_SIZE,
        ensures
            r == self@.mem[address as int],
    {
        self.memory[address as usize]
    }

    /// Writes one register; a write to register 0 is discarded, keeping the
    /// zero register hardwired.
    fn set_reg(&mut self, idx: u32, val: i32)
        requires
            old(self).wf(),
            idx < REG_NUM,
        ensures
            final(self).wf(),
            final(self)@ == old(self)@.with_reg(idx, val),
    {
        if idx != 0 {
            self.registers[idx as usize] = val;
        }
    }

    /// Stores a word's four bytes big-endian; the bounds are the caller's
    /// obligation.
    fn store_word_at(&mut self, address: u32, value: u32)
        requires
            old(self).wf(),
            address + 4 <= MEM_SIZE,
        ensures
            final(self).wf(),
            final(self)@ == old(self)@.with_mem(store_word(old(self)@.mem, address as int, value)),
    {
        let base = address as usize;
        self.memory[base] = (value / 0x100_0000) as u8;
        self.memory[base + 1] = ((value / 0x1_0000) % 0x100) as u8;
        self.memory[base + 2] = ((value / 0x100) % 0x100) as u8;
        self.memory[base + 3] = (value % 0x100) as u8;
        proof {
            assert(self@.mem =~= store_word(old(self)@.mem, address as int, value));
        }
    }

    /// Reads the big-endian word at `address`; the bounds are the caller's
    /// obligation.
    fn fetch_word_at(&self, address: u32) -> (r: u32)
        requires
            self.wf(),
            address + 4 <= MEM_SIZE,
        ensures
            r == word_at(self@.mem, address as int),
    {
        let base = address as usize;
        let b0 = self.memory[base] as u32;
        let b1 = self.memory[base + 1] as u32;
        let b2 = self.memory[base + 2] as u32;
        let b3 = self.memory[base + 3] as u32;
        b0 * 0x100_0000 + b1 * 0x1_0000 + b2 * 0x100 + b3
    }

    /// Reads the big-endian word at a 4-byte-aligned address.
    pub fn read_word_from_mem(&self, address: u32) -> (r: Result<u32, MemError>)
        requires
            self.wf(),
        ensures
            address % 4 != 0 ==> r == Err::<u32, MemError>(MemError::Misaligned(address)),
            address % 4 == 0 && address + 4 > MEM_SIZE ==> r == Err::<u32, MemError>(
                MemError::OutOfBounds(address),
            ),
            address % 4 == 0 && address + 4 <= MEM_SIZE ==> r == Ok::<u32, MemError>(
                word_at(self@.mem, address as int),
            ),
    {
        if address % 4 != 0 {
            Err(MemError::Misaligned(address))
        } else if address > END_MEM - 3 {
            Err(MemError::OutOfBounds(address))
        } else {
            Ok(self.fetch_word_at(address))
        }
    }

    /// Stores a word big-endian at a 4-byte-aligned address; a misaligned or
    /// out-of-range access fails with no partial write.
    pub fn write_word_to_mem(&mut self, address: u32, value: u32) -> (r: Result<(), MemError>)
        requires
            old(self).wf(),
        ensures
            final(self).wf(),
            address % 4 != 0 ==> r == Err::<(), MemError>(MemError::Misaligned(address)) && final(self)@ == old(self)@,
            address % 4 == 0 && address + 4 > MEM_SIZE ==> r == Err::<(), MemError>(
                MemError::OutOfBounds(address),
            ) && final(self)@ == old(self)@,
            address % 4 == 0 && address + 4 <= MEM_SIZE ==> r == Ok::<(), MemError>(()) && final(self)@ == old(self)@.with_mem(store_word(old(self)@.mem, address as int, value)),
    {
        if address % 4 != 0 {
            Err(MemError::Misaligned(address))
        } else if address > END_MEM - 3 {
            Err(MemError::OutOfBounds(address))
        } else {
            self.store_word_at(address, value);
            Ok(())
        }
    }

    /// Reads the big-endian half-word at a 2-byte-aligned address.
    pub fn read_half_from_mem(&self, address: u32) -> (r: Result<u16, MemError>)
        requires
            self.wf(),
        ensures
            address % 2 != 0 ==> r == Err::<u16, MemError>(MemError::Misaligned(address)),
            address % 2 == 0 && address + 2 > MEM_SIZE ==> r == Err::<u16, MemError>(
                MemError::OutOfBounds(address),
            ),
            address % 2 == 0 && address + 2 <= MEM_SIZE ==> r == Ok::<u16, MemError>(
                half_at(self@.mem, address as int),
            ),
    {
        if address % 2 != 0 {
            Err(MemError::Misaligned(address))
        } else if address > END_MEM - 1 {
            Err(MemError::OutOfBounds(address))
        } else {
            let base = address as usize;
            let b0 = self.memory[base] as u16;
            let b1 = self.memory[base + 1] as u16;
            Ok(b0 * 0x100 + b1)
        }
    }

    /// Stores a half-word big-endian at a 2-byte-aligned address; a
    /// misaligned or out-of-range access fails with no partial write.
    pub fn write_half_to_mem(&mut self, address: u32, value: u16) -> (r: Result<(), MemError>)
        requires
            old(self).wf(),
        ensures
            final(self).wf(),
            address % 2 != 0 ==> r == Err::<(), MemError>(MemError::Misaligned(address)) && final(self)@ == old(self)@,
            address % 2 == 0 && address + 2 > MEM_SIZE ==> r == Err::<(), MemError>(
                MemError::OutOfBounds(address),
            ) && final(self)@ == old(self)@,
            address % 2 == 0 && address + 2 <= MEM_SIZE ==> r == Ok::<(), MemError>(()) && final(self)@ == old(self)@.with_mem(store_half(old(self)@.mem, address as int, value)),
    {
        if address % 2 != 0 {
            Err(MemError::Misaligned(address))
        } else if address > END_MEM - 1 {
            Err(MemError::OutOfBounds(address))
        } else {
            let base = address as usize;
            self.memory[base] = (value / 0x100) as u8;
            self.memory[base + 1] = (value % 0x100) as u8;
            proof {
                assert(self@.mem =~= store_half(old(self)@.mem, address as int, value));
            }
            Ok(())
        }
    }

    /// Reads the byte at an address.
    pub fn read_byte_from_mem(&self, address: u32) -> (r: Result<u8, MemError>)
        requires
            self.wf(),
        ensures
            address < MEM_SIZE ==> r == Ok::<u8, MemError>(self@.mem[address as int]),
            address >= MEM_SIZE ==> r == Err::<u8, MemError>(MemError::OutOfBounds(address)),
    {
        if address <= END_MEM {
            Ok(self.memory[address as usize])
        } else {
            Err(MemError::OutOfBounds(address))
        }
    }

    /// Stores one byte; an out-of-range access fails with no effect.
    pub fn write_byte_to_mem(&mut self, address: u32, value: u8) -> (r: Result<(), MemError>)
        requires
            old(self).wf(),
        ensures
            final(self).wf(),
            address < MEM_SIZE ==> r == Ok::<(), MemError>(()) && final(self)@ == old(
                self,
            )@.with_mem(old(self)@.mem.update(address as int, value)),
            address >= MEM_SIZE ==> r == Err::<(), MemError>(MemError::OutOfBounds(address))
                && final(self)@ == old(self)@,
    {
        if address <= END_MEM {
            self.memory[address as usize] = value;
            Ok(())
        } else {
            Err(MemError::OutOfBounds(address))
        }
    }

    /// Writes the words of `payload` at consecutive word addresses from
    /// `address`; a misaligned start or a run past the last valid address
    /// fails before any write.
    pub fn load_memory(&mut self, address: u32, payload: &Vec<u32>) -> (r: Result<(), MemError>)
        requires
            old(self).wf(),
        ensures
            final(self).wf(),
            address % 4 != 0 ==> r == Err::<(), MemError>(MemError::Misaligned(address)) && final(self)@ == old(self)@,
            address % 4 == 0 && address + 4 * payload@.len() > END_MEM ==> r == Err::<(
            ), MemError>(MemError::OutOfBounds(address)) && final(self)@ == old(self)@,
            address % 4 == 0 && address + 4 * payload@.len() <= END_MEM ==> r == Ok::<(
            ), MemError>(()) && final(self)@ == old(self)@.with_mem(
                store_words(old(self)@.mem, address as int, payload@),
            ),
    {
        if address % 4 != 0 {
            return Err(MemError::Misaligned(address));
        }
        let len = payload.len();
        if len > 0x2000 {
            return Err(MemError::OutOfBounds(address));
        }
        if (address as u64) + 4u64 * (len as u64) > END_MEM as u64 {
            return Err(MemError::OutOfBounds(address));
        }
        let mut i: usize = 0;
        while i < len
            invariant
                self.wf(),
                i <= len,
                len == payload@.len(),
                len <= 0x2000,
                address % 4 == 0,
                address + 4 * len <= END_MEM,
                self@.regs == old(self)@.regs,
                self@.pc == old(self)@.pc,
                self@.mem == store_words(old(self)@.mem, address as int, payload@.take(i as int)),
            decreases len - i,
        {
            self.store_word_at(address + 4 * (i as u32), payload[i]);
            proof {
                assert(payload@.take(i + 1).drop_last() =~= payload@.take(i as int));
                assert(payload@.take(i + 1).last() == payload@[i as int]);
            }
            i = i + 1;
        }
        proof {
            assert(payload@.take(len as int) =~= payload@);
            assert(self@ =~= old(self)@.with_mem(
                store_words(old(self)@.mem, address as int, payload@),
            ));
        }
        Ok(())
    }

    /// The effective address of a load or store: base register plus
    /// sign-extended offset, modulo 2^32.
    fn effective_addr(&self, rs: u32, imm: u16) -> (r: u32)
        requires
            self.wf(),
            rs < REG_NUM,
        ensures
            r == effective_address(self@, rs, imm),
    {
        let base = self.register(rs);
        let offset = sign_extend_16(imm);
        let t: i64 = (base as i64) + (offset as i64);
        if t < 0 {
            (t + 0x1_0000_0000i64) as u32
        } else {
            t as u32
        }
    }

    /// One cycle of the fetch-decode-execute loop: halt when the counter has
    /// left the text region or the sentinel word is fetched; otherwise decode
    /// and execute one instruction, advancing the counter by 4 unless the
    /// instruction set it.  A fault leaves the state exactly as the cycle
    /// found it.
    pub fn step(&mut self) -> (r: StepOutcome)
        requires
            old(self).wf(),
        ensures
            final(self).wf(),
            (final(self)@, r) == cycle(old(self)@),
    {
        if self.program_counter >= STATIC_DATA {
            return StepOutcome::Halted;
        }
        let fetched = self.read_word_from_mem(self.program_counter);
        match fetched {
            Err(MemError::Misaligned(a)) => StepOutcome::Faulted(FaultReason::Misaligned(a)),
            Err(MemError::OutOfBounds(a)) => StepOutcome::Faulted(FaultReason::OutOfBounds(a)),
            Ok(w) => {
                if w == HALT_WORD {
                    StepOutcome::Halted
                } else {
                    let executed = self.decode_execute(w);
                    proof {
                        crate::model::lemma_exec_word_frame(old(self)@, w);
                    }
                    match executed {
                        Err(f) => StepOutcome::Faulted(f),
                        Ok(pc_set) => {
                            if !pc_set {
                                self.program_counter = self.program_counter + 4;
                            }
                            StepOutcome::Running
                        },
                    }
                }
            },
        }
    }

    /// Runs the fetch-decode-execute loop for at most `max_cycles` cycles:
    /// `Some` outcome is a terminal state reached within the budget, `None`
    /// means the budget ran out with the machine still running.
    pub fn run(&mut self, max_cycles: u32) -> (r: Option<RunOutcome>)
        requires
            old(self).wf(),
        ensures
            final(self).wf(),
            match r {
                Some(outcome) => exists|n: nat|
                    n <= max_cycles && run_n(old(self)@, n) == (final(self)@, run_phase(outcome)),
                None => run_n(old(self)@, max_cycles as nat) == (
                    final(self)@,
                    StepOutcome::Running,
                ),
            },
    {
        let ghost s0 = self@;
        let mut i: u32 = 0;
        while i < max_cycles
            invariant
                self.wf(),
                i <= max_cycles,
                s0 == old(self)@,
                run_n(s0, i as nat) == (self@, StepOutcome::Running),
            decreases max_cycles - i,
        {
            let out = self.step();
            proof {
                assert(run_n(s0, (i + 1) as nat) == (self@, out));
            }
            i = i + 1;
            match out {
                StepOutcome::Running => {},
                StepOutcome::Halted => {
                    proof {
                        assert(run_n(s0, i as nat) == (self@, run_phase(RunOutcome::Halted)));
                    }
                    return Some(RunOutcome::Halted);
                },
                StepOutcome::Faulted(f) => {
                    proof {
                        assert(run_n(s0, i as nat) == (self@, run_phase(RunOutcome::Faulted(f))));
                    }
                    return Some(RunOutcome::Faulted(f));
                },
            }
        }
        None
    }
}

impl Computer for CPU {
    open spec fn arch_state(&self) -> MachineState {
        self@
    }

    open spec fn arch_inv(&self) -> bool {
        self.wf()
    }

    fn load_program(&mut self, program: &Program) -> (r: Result<(), LoadError>) {
        let ilen = program.instructions.len();
        let dlen = program.data.len();
        if ilen > ((STATIC_DATA - PC_START) / 4) as usize || dlen > ((DYNAMIC_DATA - STATIC_DATA)
            / 4) as usize {
            return Err(LoadError::ProgramTooLarge);
        }
        match self.load_memory(PC_START, &program.instructions) {
            Ok(()) => {},
            Err(_) => {},
        }
        match self.load_memory(STATIC_DATA, &program.data) {
            Ok(()) => {},
            Err(_) => {},
        }
        Ok(())
    }

    fn start(&mut self, max_cycles: u32) -> (r: Option<RunOutcome>) {
        let outcome = self.run(max_cycles);
        proof {
            match outcome {
                Some(o) => {
                    let n = choose|n: nat|
                        n <= max_cycles && run_n(old(self)@, n) == (self@, run_phase(o));
                    assert(n <= max_cycles && run_n(
                        <CPU as Computer>::arch_state(old(self)),
                        n,
                    ) == (<CPU as Computer>::arch_state(self), run_phase(o)));
                },
                None => {
                    assert(run_n(<CPU as Computer>::arch_state(old(self)), max_cycles as nat) == (
                        <CPU as Computer>::arch_state(self),
                        StepOutcome::Running,
                    ));
                },
            }
        }
        outcome
    }
}

impl MipsIsa for CPU {
    open spec fn arch_state(&self) -> MachineState {
        self@
    }

    open spec fn arch_inv(&self) -> bool {
        self.wf()
    }

    fn add(&mut self, rs: u32, rt: u32, rd: u32) -> (r: Result<bool, FaultReason>) {
        let a = self.register(rs);
        let b = self.register(rt);
        match a.checked_add(b) {
            Some(v) => {
                self.set_reg(rd, v);
                Ok(false)
            },
            None => Err(FaultReason::ArithmeticOverflow),
        }
    }

    fn addu(&mut self, rs: u32, rt: u32, rd: u32) -> (r: Result<bool, FaultReason>) {
        let a = self.register(rs);
        let b = self.register(rt);
        self.set_reg(rd, a.wrapping_add(b));
        Ok(false)
    }

    fn and(&mut self, rs: u32, rt: u32, rd: u32) -> (r: Result<bool, FaultReason>) {
        let a = self.register(rs);
        let b = self.register(rt);
        self.set_reg(rd, a & b);
        Ok(false)
    }

    fn jr(&mut self, rs: u32) -> (r: Result<bool, FaultReason>) {
        let target = to_unsigned(self.register(rs));
        self.program_counter = target;
        Ok(true)
    }

    fn nor(&mut self, rs: u32, rt: u32, rd: u32) -> (r: Result<bool, FaultReason>) {
        let a = self.register(rs);
        let b = self.register(rt);
        let or_value = a | b;
        // Two's complement: flipping every bit of a word negates it minus one.
        self.set_reg(rd, -1 - or_value);
        Ok(false)
    }

    fn or(&mut self, rs: u32, rt: u32, rd: u32) -> (r: Result<bool, FaultReason>) {
        let a = self.register(rs);
        let b = self.register(rt);
        self.set_reg(rd, a | b);
        Ok(false)
    }

    fn slt(&mut self, rs: u32, rt: u32, rd: u32) -> (r: Result<bool, FaultReason>) {
        let a = self.register(rs);
        let b = self.register(rt);
        let v: i32 = if a < b {
            1
        } else {
            0
        };
        self.set_reg(rd, v);
        Ok(false)
    }

    fn sltu(&mut self, rs: u32, rt: u32, rd: u32) -> (r: Result<bool, FaultReason>) {
        let a = to_unsigned(self.register(rs));
        let b = to_unsigned(self.register(rt));
        let v: i32 = if a < b {
            1
        } else {
            0
        };
        self.set_reg(rd, v);
        Ok(false)
    }

    fn sll(&mut self, rs: u32, rt: u32, shamt: u32) -> (r: Result<bool, FaultReason>) {
        let u = to_unsigned(self.register(rs));
        self.set_reg(rt, to_signed(u << shamt));
        Ok(false)
    }

    fn srl(&mut self, rs: u32, rt: u32, shamt: u32) -> (r: Result<bool, FaultReason>) {
        let u = to_unsigned(self.register(rs));
        self.set_reg(rt, to_signed(u >> shamt));
        Ok(false)
    }

    fn sub(&mut self, rs: u32, rt: u32, rd: u32) -> (r: Result<bool, FaultReason>) {
        let a = self.register(rs);
        let b = self.register(rt);
        match a.checked_sub(b) {
            Some(v) => {
                self.set_reg(rd, v);
                Ok(false)
            },
            None => Err(FaultReason::ArithmeticOverflow),
        }
    }

    fn subu(&mut self, rs: u32, rt: u32, rd: u32) -> (r: Result<bool, FaultReason>) {
        let a = self.register(rs);
        let b = self.register(rt);
        self.set_reg(rd, a.wrapping_sub(b));
        Ok(false)
    }

    fn addi(&mut self, rs: u32, rt: u32, immediate: u16) -> (r: Result<bool, FaultReason>) {
        let a = self.register(rs);
        let b = sign_extend_16(immediate);
        match a.checked_add(b) {
            Some(v) => {
                self.set_reg(rt, v);
                Ok(false)
            },
            None => Err(FaultReason::ArithmeticOverflow),
        }
    }

    fn addiu(&mut self, rs: u32, rt: u32, immediate: u16) -> (r: Result<bool, FaultReason>) {
        let a = self.register(rs);
        let b = sign_extend_16(immediate);
        self.set_reg(rt, a.wrapping_add(b));
        Ok(false)
    }

    fn andi(&mut self, rs: u32, rt: u32, immediate: u16) -> (r: Result<bool, FaultReason>) {
        let a = self.register(rs);
        let b = sign_extend_16(immediate);
        self.set_reg(rt, a & b);
        Ok(false)
    }

    fn ori(&mut self, rs: u32, rt: u32, immediate: u16) -> (r: Result<bool, FaultReason>) {
        let a = self.register(rs);
        let b = sign_extend_16(immediate);
        self.set_reg(rt, a | b);
        Ok(false)
    }

    fn beq(&mut self, rs: u32, rt: u32, immediate: u16) -> (r: Result<bool, FaultReason>) {
        let a = self.register(rs);
        let b = self.register(rt);
        if a == b {
            let target = branch_target_exec(self.program_counter, immediate);
            self.program_counter = target;
            Ok(true)
        } else {
            Ok(false)
        }
    }

    fn bne(&mut self, rs: u32, rt: u32, immediate: u16) -> (r: Result<bool, FaultReason>) {
        let a = self.register(rs);
        let b = self.register(rt);
        if a != b {
            let target = branch_target_exec(self.program_counter, immediate);
            self.program_counter = target;
            Ok(true)
        } else {
            Ok(false)
        }
    }

    fn lbu(&mut self, rs: u32, rt: u32, immediate: u16) -> (r: Result<bool, FaultReason>) {
        let ea = self.effective_addr(rs, immediate);
        match self.read_byte_from_mem(ea) {
            Ok(b) => {
                self.set_reg(rt, b as i32);
                Ok(false)
            },
            Err(MemError::Misaligned(a)) => Err(FaultReason::Misaligned(a)),
            Err(MemError::OutOfBounds(a)) => Err(FaultReason::OutOfBounds(a)),
        }
    }

    fn lhu(&mut self, rs: u32, rt: u32, immediate: u16) -> (r: Result<bool, FaultReason>) {
        let ea = self.effective_addr(rs, immediate);
        match self.read_half_from_mem(ea) {
            Ok(h) => {
                self.set_reg(rt, h as i32);
                Ok(false)
            },
            Err(MemError::Misaligned(a)) => Err(FaultReason::Misaligned(a)),
            Err(MemError::OutOfBounds(a)) => Err(FaultReason::OutOfBounds(a)),
        }
    }

    fn lui(&mut self, rt: u32, immediate: u16) -> (r: Result<bool, FaultReason>) {
        let v = (immediate as u32) * 0x1_0000;
        self.set_reg(rt, to_signed(v));
        Ok(false)
    }

    fn lw(&mut self, rs: u32, rt: u32, immediate: u16) -> (r: Result<bool, FaultReason>) {
        let ea = self.effective_addr(rs, immediate);
        match self.read_word_from_mem(ea) {
            Ok(w) => {
                self.set_reg(rt, to_signed(w));
                Ok(false)
            },
            Err(MemError::Misaligned(a)) => Err(FaultReason::Misaligned(a)),
            Err(MemError::OutOfBounds(a)) => Err(FaultReason::OutOfBounds(a)),
        }
    }

    fn sb(&mut self, rs: u32, rt: u32, immediate: u16) -> (r: Result<bool, FaultReason>) {
        let ea = self.effective_addr(rs, immediate);
        let v = (to_unsigned(self.register(rt)) % 0x100) as u8;
        match self.write_byte_to_mem(ea, v) {
            Ok(()) => Ok(false),
            Err(MemError::Misaligned(a)) => Err(FaultReason::Misaligned(a)),
            Err(MemError::OutOfBounds(a)) => Err(FaultReason::OutOfBounds(a)),
        }
    }

    fn sh(&mut self, rs: u32, rt: u32, immediate: u16) -> (r: Result<bool, FaultReason>) {
        let ea = self.effective_addr(rs, immediate);
        let v = (to_unsigned(self.register(rt)) % 0x1_0000) as u16;
        match self.write_half_to_mem(ea, v) {
            Ok(()) => Ok(false),
            Err(MemError::Misaligned(a)) => Err(FaultReason::Misaligned(a)),
            Err(MemError::OutOfBounds(a)) => Err(FaultReason::OutOfBounds(a)),
        }
    }

    fn sw(&mut self, rs: u32, rt: u32, immediate: u16) -> (r: Result<bool, FaultReason>) {
        let ea = self.effective_addr(rs, immediate);
        let v = to_unsigned(self.register(rt));
        match self.write_word_to_mem(ea, v) {
            Ok(()) => Ok(false),
            Err(MemError::Misaligned(a)) => Err(FaultReason::Misaligned(a)),
            Err(MemError::OutOfBounds(a)) => Err(FaultReason::OutOfBounds(a)),
        }
    }

    fn slti(&mut self, rs: u32, rt: u32, immediate: u16) -> (r: Result<bool, FaultReason>) {
        let a = self.register(rs);
        let b = sign_extend_16(immediate);
        let v: i32 = if a < b {
            1
        } else {
            0
        };
        self.set_reg(rt, v);
        Ok(false)
    }

    fn sltiu(&mut self, rs: u32, rt: u32, immediate: u16) -> (r: Result<bool, FaultReason>) {
        let a = to_unsigned(self.register(rs));
        let v: i32 = if a < (immediate as u32) {
            1
        } else {
            0
        };
        self.set_reg(rt, v);
        Ok(false)
    }

    fn j(&mut self, address: u32) -> (r: Result<bool, FaultReason>) {
        let target = jump_target_exec(self.program_counter, address);
        self.program_counter = target;
        Ok(true)
    }

    fn jal(&mut self, address: u32) -> (r: Result<bool, FaultReason>) {
        let target = jump_target_exec(self.program_counter, address);
        let ra = self.program_counter.wrapping_add(4);
        self.set_reg(31, to_signed(ra));
        self.program_counter = target;
        Ok(true)
    }

    fn decode_execute(&mut self, instruction: u32) -> (r: Result<bool, FaultReason>) {
        let opcode = instruction / 0x400_0000;
        let rs = (instruction / 0x20_0000) % 32;
        let rt = (instruction / 0x1_0000) % 32;
        let rd = (instruction / 0x800) % 32;
        let shamt = (instruction / 0x40) % 32;
        let func = instruction % 0x40;
        let immediate = (instruction % 0x1_0000) as u16;
        let address = instruction % 0x400_0000;
        if opcode == 0x00 {
            if func == 0x20 {
                self.add(rs, rt, rd)
            } else if func == 0x21 {
                self.addu(rs, rt, rd)
            } else if func == 0x24 {
                self.and(rs, rt, rd)
            } else if func == 0x08 {
                self.jr(rs)
            } else if func == 0x27 {
                self.nor(rs, rt, rd)
            } else if func == 0x25 {
                self.or(rs, rt, rd)
            } else if func == 0x2A {
                self.slt(rs, rt, rd)
            } else if func == 0x2B {
                self.sltu(rs, rt, rd)
            } else if func == 0x00 {
                self.sll(rs, rt, shamt)
            } else if func == 0x02 {
                self.srl(rs, rt, shamt)
            } else if func == 0x22 {
                self.sub(rs, rt, rd)
            } else if func == 0x23 {
                self.subu(rs, rt, rd)
            } else {
                Ok(false)
            }
        } else if opcode == 0x02 {
            self.j(address)
        } else if opcode == 0x03 {
            self.jal(address)
        } else if opcode == 0x08 {
            self.addi(rs, rt, immediate)
        } else if opcode == 0x09 {
            self.addiu(rs, rt, immediate)
        } else if opcode == 0x0C {
            self.andi(rs, rt, immediate)
        } else if opcode == 0x04 {
            self.beq(rs, rt, immediate)
        } else if opcode == 0x05 {
            self.bne(rs, rt, immediate)
        } else if opcode == 0x0F {
            self.lui(rt, immediate)
        } else if opcode == 0x23 {
            self.lw(rs, rt, immediate)
        } else if opcode == 0x0D {
            self.ori(rs, rt, immediate)
        } else if opcode == 0x0A {
            self.slti(rs, rt, immediate)
        } else if opcode == 0x0B {
            self.sltiu(rs, rt, immediate)
        } else if opcode == 0x2B {
            self.sw(rs, rt, immediate)
        } else if opcode == 0x24 {
            self.lbu(rs, rt, immediate)
        } else if opcode == 0x25 {
            self.lhu(rs, rt, immediate)
        } else if opcode == 0x28 {
            self.sb(rs, rt, immediate)
        } else if opcode == 0x29 {
            self.sh(rs, rt, immediate)
        } else {
            Ok(false)
        }
    }
}

} // verus!
