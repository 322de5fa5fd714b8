// End-to-end scenarios for the fetch-decode-execute engine.

use mips_sim::arch::Computer;
use mips_sim::arch::FaultReason;
use mips_sim::arch::RunOutcome;
use mips_sim::arch::StepOutcome;
use mips_sim::arch::END_MEM;
use mips_sim::arch::PC_START;
use mips_sim::arch::STATIC_DATA;
use mips_sim::cpu::CPU;
use mips_sim::program::Program;

fn program_of(words: &[u32]) -> Program {
    let mut program = Program::new();
    for w in words {
        program.instructions.push(*w);
    }
    program
}

#[test]
fn sentinel_halts_after_zero_instructions() {
    let program = program_of(&[0xFFFF_FFFF]);
    let mut cpu = CPU::new();
    assert_eq!(cpu.load_program(&program), Ok(()));
    assert_eq!(cpu.run(10), Some(RunOutcome::Halted));
    assert_eq!(cpu.pc(), PC_START);
    for i in 0..32 {
        assert_eq!(cpu.register(i), 0);
    }
}

#[test]
fn add_two_immediates_end_to_end() {
    // addi r1, r0, 5 ; addi r2, r0, 7 ; add r3, r1, r2 ; halt
    let program = program_of(&[0x2401_0005, 0x2402_0007, 0x0022_1820, 0xFFFF_FFFF]);
    let mut cpu = CPU::new();
    assert_eq!(cpu.load_program(&program), Ok(()));
    assert_eq!(cpu.run(100), Some(RunOutcome::Halted));
    assert_eq!(cpu.register(1), 5);
    assert_eq!(cpu.register(2), 7);
    assert_eq!(cpu.register(3), 12);
}

#[test]
fn oversized_program_is_rejected_and_memory_stays_zero() {
    let mut program = Program::new();
    // One word more than the text region holds.
    let max_words = ((STATIC_DATA - PC_START) / 4) as usize;
    for _ in 0..max_words + 1 {
        program.instructions.push(0x2401_0005);
    }
    let mut cpu = CPU::new();
    assert_eq!(
        cpu.load_program(&program),
        Err(mips_sim::arch::LoadError::ProgramTooLarge)
    );
    for address in 0..=END_MEM {
        assert_eq!(cpu.memory_byte(address), 0);
    }
    assert_eq!(cpu.pc(), PC_START);
}

#[test]
fn oversized_data_is_rejected() {
    let mut program = Program::new();
    let max_words = ((mips_sim::arch::DYNAMIC_DATA - STATIC_DATA) / 4) as usize;
    for _ in 0..max_words + 1 {
        program.data.push(1);
    }
    let mut cpu = CPU::new();
    assert_eq!(
        cpu.load_program(&program),
        Err(mips_sim::arch::LoadError::ProgramTooLarge)
    );
    assert_eq!(cpu.memory_byte(STATIC_DATA), 0);
}

#[test]
fn writes_to_register_zero_are_discarded() {
    // addi r0, r0, 5 ; halt — the zero register must still read 0.
    let program = program_of(&[0x2400_0005, 0xFFFF_FFFF]);
    let mut cpu = CPU::new();
    assert_eq!(cpu.load_program(&program), Ok(()));
    assert_eq!(cpu.run(10), Some(RunOutcome::Halted));
    assert_eq!(cpu.register(0), 0);
}

#[test]
fn taken_branch_skips_one_instruction() {
    // beq r0, r0, 1 ; addi r1, r0, 99 ; halt
    let program = program_of(&[0x1000_0001, 0x2401_0063, 0xFFFF_FFFF]);
    let mut cpu = CPU::new();
    assert_eq!(cpu.load_program(&program), Ok(()));
    assert_eq!(cpu.run(10), Some(RunOutcome::Halted));
    assert_eq!(cpu.register(1), 0);
}

#[test]
fn untaken_branch_advances_by_four() {
    // bne r0, r0, 1 ; addi r1, r0, 99 ; halt
    let program = program_of(&[0x1400_0001, 0x2401_0063, 0xFFFF_FFFF]);
    let mut cpu = CPU::new();
    assert_eq!(cpu.load_program(&program), Ok(()));
    assert_eq!(cpu.run(10), Some(RunOutcome::Halted));
    assert_eq!(cpu.register(1), 99);
}

#[test]
fn jal_links_return_address_and_jumps() {
    // jal 0x12 (target 0x48) ; halt at 0x44 ; halt at 0x48
    let program = program_of(&[0x0C00_0012, 0xFFFF_FFFF, 0xFFFF_FFFF]);
    let mut cpu = CPU::new();
    assert_eq!(cpu.load_program(&program), Ok(()));
    let first = cpu.step();
    assert_eq!(first, StepOutcome::Running);
    assert_eq!(cpu.pc(), 0x48);
    assert_eq!(cpu.register(31), 0x44);
    assert_eq!(cpu.step(), StepOutcome::Halted);
}

#[test]
fn step_advances_pc_by_four_on_plain_instruction() {
    let program = program_of(&[0x2401_0005, 0xFFFF_FFFF]);
    let mut cpu = CPU::new();
    assert_eq!(cpu.load_program(&program), Ok(()));
    assert_eq!(cpu.step(), StepOutcome::Running);
    assert_eq!(cpu.pc(), PC_START + 4);
    assert_eq!(cpu.register(1), 5);
}

#[test]
fn unmapped_opcode_is_a_no_op() {
    // Opcode 0x1C maps to no operation: the word executes as a no-op.
    let program = program_of(&[0x7000_0000, 0xFFFF_FFFF]);
    let mut cpu = CPU::new();
    assert_eq!(cpu.load_program(&program), Ok(()));
    assert_eq!(cpu.step(), StepOutcome::Running);
    assert_eq!(cpu.pc(), PC_START + 4);
    for i in 0..32 {
        assert_eq!(cpu.register(i), 0);
    }
    assert_eq!(cpu.run(10), Some(RunOutcome::Halted));
}

#[test]
fn unmapped_function_selector_is_a_no_op() {
    // Opcode 0 with function selector 0x3F maps to no operation.
    let program = program_of(&[0x0000_003F, 0xFFFF_FFFF]);
    let mut cpu = CPU::new();
    assert_eq!(cpu.load_program(&program), Ok(()));
    assert_eq!(cpu.step(), StepOutcome::Running);
    for i in 0..32 {
        assert_eq!(cpu.register(i), 0);
    }
}

#[test]
fn misaligned_load_faults_and_preserves_state() {
    // addi r1, r0, 3 ; lw r2, 1(r0) — effective address 1 is misaligned.
    let program = program_of(&[0x2401_0003, 0x8C02_0001, 0xFFFF_FFFF]);
    let mut cpu = CPU::new();
    assert_eq!(cpu.load_program(&program), Ok(()));
    assert_eq!(
        cpu.run(10),
        Some(RunOutcome::Faulted(FaultReason::Misaligned(1)))
    );
    // The faulting cycle left the machine at the faulting instruction.
    assert_eq!(cpu.pc(), PC_START + 4);
    assert_eq!(cpu.register(1), 3);
    assert_eq!(cpu.register(2), 0);
}

#[test]
fn signed_add_overflow_faults() {
    // lui r1, 0x7FFF ; ori r1, r1, 0x7FFF ; add r2, r1, r1 — overflows.
    let program = program_of(&[0x3C01_7FFF, 0x3421_7FFF, 0x0021_1020, 0xFFFF_FFFF]);
    let mut cpu = CPU::new();
    assert_eq!(cpu.load_program(&program), Ok(()));
    assert_eq!(
        cpu.run(10),
        Some(RunOutcome::Faulted(FaultReason::ArithmeticOverflow))
    );
    assert_eq!(cpu.register(1), 0x7FFF_7FFF);
    assert_eq!(cpu.register(2), 0);
    assert_eq!(cpu.pc(), PC_START + 8);
}

#[test]
fn unsigned_add_wraps_instead_of_faulting() {
    // lui r1, 0x7FFF ; ori r1, r1, 0x7FFF ; addu r2, r1, r1 ; halt
    let program = program_of(&[0x3C01_7FFF, 0x3421_7FFF, 0x0021_1021, 0xFFFF_FFFF]);
    let mut cpu = CPU::new();
    assert_eq!(cpu.load_program(&program), Ok(()));
    assert_eq!(cpu.run(10), Some(RunOutcome::Halted));
    // 0x7FFF7FFF + 0x7FFF7FFF = 0xFFFEFFFE, read back signed.
    assert_eq!(cpu.register(2) as u32, 0xFFFE_FFFE);
}

#[test]
fn store_and_load_word_through_a_program() {
    // addi r1, r0, 0x1234 ; sw r1, 0x2000(r0) ; lw r2, 0x2000(r0) ; halt
    let program = program_of(&[0x2401_1234, 0xAC01_2000, 0x8C02_2000, 0xFFFF_FFFF]);
    let mut cpu = CPU::new();
    assert_eq!(cpu.load_program(&program), Ok(()));
    assert_eq!(cpu.run(10), Some(RunOutcome::Halted));
    assert_eq!(cpu.register(2), 0x1234);
    assert_eq!(cpu.read_word_from_mem(0x2000), Ok(0x1234));
}

#[test]
fn empty_program_runs_to_region_end() {
    let program = Program::new();
    let mut cpu = CPU::new();
    assert_eq!(cpu.load_program(&program), Ok(()));
    // Every word in the text region is 0 (a no-op shift); the machine walks
    // the whole region and halts when the counter reaches its end.
    let cycles = (STATIC_DATA - PC_START) / 4;
    assert_eq!(cpu.run(cycles + 10), Some(RunOutcome::Halted));
    assert_eq!(cpu.pc(), STATIC_DATA);
}

#[test]
fn run_budget_exhaustion_returns_none() {
    let program = Program::new();
    let mut cpu = CPU::new();
    assert_eq!(cpu.load_program(&program), Ok(()));
    assert_eq!(cpu.run(1), None);
    assert_eq!(cpu.pc(), PC_START + 4);
}

#[test]
fn start_runs_like_run() {
    let program = program_of(&[0x2401_0005, 0xFFFF_FFFF]);
    let mut cpu = CPU::new();
    assert_eq!(cpu.load_program(&program), Ok(()));
    assert_eq!(cpu.start(10), Some(RunOutcome::Halted));
    assert_eq!(cpu.register(1), 5);
}

#[test]
fn data_words_are_loaded_at_static_data() {
    let mut program = Program::new();
    program.instructions.push(0xFFFF_FFFF);
    program.data.push(0xCAFE_F00D);
    program.data.push(0x0000_0042);
    let mut cpu = CPU::new();
    assert_eq!(cpu.load_program(&program), Ok(()));
    assert_eq!(cpu.read_word_from_mem(STATIC_DATA), Ok(0xCAFE_F00D));
    assert_eq!(cpu.read_word_from_mem(STATIC_DATA + 4), Ok(0x0000_0042));
}

#[test]
fn jr_jumps_to_register_value() {
    // addi r1, r0, 0x4C ; jr r1 ; addi r2, r0, 7 (skipped) ; halt
    let program = program_of(&[0x2401_004C, 0x0020_0008, 0x2402_0007, 0xFFFF_FFFF]);
    let mut cpu = CPU::new();
    assert_eq!(cpu.load_program(&program), Ok(()));
    assert_eq!(cpu.run(10), Some(RunOutcome::Halted));
    assert_eq!(cpu.register(2), 0);
}

#[test]
fn j_jumps_within_the_current_segment() {
    // j 0x12 (target 0x48) ; halt at 0x44 ; halt at 0x48
    let program = program_of(&[0x0800_0012, 0xFFFF_FFFF, 0xFFFF_FFFF]);
    let mut cpu = CPU::new();
    assert_eq!(cpu.load_program(&program), Ok(()));
    assert_eq!(cpu.step(), StepOutcome::Running);
    assert_eq!(cpu.pc(), 0x48);
    assert_eq!(cpu.register(31), 0);
    assert_eq!(cpu.run(10), Some(RunOutcome::Halted));
}
