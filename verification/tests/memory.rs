// The memory interface: round trips, alignment failures, bounds failures.

use mips_sim::arch::MemError;
use mips_sim::arch::END_MEM;
use mips_sim::cpu::CPU;

#[test]
fn word_round_trip() {
    let mut cpu = CPU::new();
    assert_eq!(cpu.write_word_to_mem(0x2000, 0xDEAD_BEEF), Ok(()));
    assert_eq!(cpu.read_word_from_mem(0x2000), Ok(0xDEAD_BEEF));
}

#[test]
fn words_are_stored_big_endian() {
    let mut cpu = CPU::new();
    assert_eq!(cpu.write_word_to_mem(0x2000, 0x1122_3344), Ok(()));
    assert_eq!(cpu.memory_byte(0x2000), 0x11);
    assert_eq!(cpu.memory_byte(0x2001), 0x22);
    assert_eq!(cpu.memory_byte(0x2002), 0x33);
    assert_eq!(cpu.memory_byte(0x2003), 0x44);
}

#[test]
fn half_round_trip() {
    let mut cpu = CPU::new();
    assert_eq!(cpu.write_half_to_mem(0x2002, 0xBEEF), Ok(()));
    assert_eq!(cpu.read_half_from_mem(0x2002), Ok(0xBEEF));
    assert_eq!(cpu.memory_byte(0x2002), 0xBE);
    assert_eq!(cpu.memory_byte(0x2003), 0xEF);
}

#[test]
fn byte_round_trip() {
    let mut cpu = CPU::new();
    assert_eq!(cpu.write_byte_to_mem(0x2001, 0xA5), Ok(()));
    assert_eq!(cpu.read_byte_from_mem(0x2001), Ok(0xA5));
}

#[test]
fn odd_address_word_access_fails_without_effect() {
    let mut cpu = CPU::new();
    assert_eq!(
        cpu.read_word_from_mem(0x2001),
        Err(MemError::Misaligned(0x2001))
    );
    assert_eq!(
        cpu.write_word_to_mem(0x2001, 0xDEAD_BEEF),
        Err(MemError::Misaligned(0x2001))
    );
    // No partial write happened.
    for address in 0x2000..0x2008 {
        assert_eq!(cpu.memory_byte(address), 0);
    }
}

#[test]
fn odd_address_half_access_fails_without_effect() {
    let mut cpu = CPU::new();
    assert_eq!(
        cpu.read_half_from_mem(0x2003),
        Err(MemError::Misaligned(0x2003))
    );
    assert_eq!(
        cpu.write_half_to_mem(0x2003, 0xBEEF),
        Err(MemError::Misaligned(0x2003))
    );
    for address in 0x2000..0x2008 {
        assert_eq!(cpu.memory_byte(address), 0);
    }
}

#[test]
fn half_aligned_but_not_word_aligned_word_access_fails() {
    let mut cpu = CPU::new();
    assert_eq!(
        cpu.read_word_from_mem(0x2002),
        Err(MemError::Misaligned(0x2002))
    );
}

#[test]
fn word_access_past_the_last_address_fails() {
    let mut cpu = CPU::new();
    // Aligned, but the four bytes would run past the last valid address.
    assert_eq!(
        cpu.read_word_from_mem(0x8000),
        Err(MemError::OutOfBounds(0x8000))
    );
    assert_eq!(
        cpu.write_word_to_mem(0x8000, 1),
        Err(MemError::OutOfBounds(0x8000))
    );
    assert_eq!(cpu.memory_byte(0x8000), 0);
}

#[test]
fn byte_access_past_the_last_address_fails() {
    let mut cpu = CPU::new();
    assert_eq!(cpu.read_byte_from_mem(END_MEM), Ok(0));
    assert_eq!(
        cpu.read_byte_from_mem(END_MEM + 1),
        Err(MemError::OutOfBounds(END_MEM + 1))
    );
    assert_eq!(
        cpu.write_byte_to_mem(END_MEM + 1, 7),
        Err(MemError::OutOfBounds(END_MEM + 1))
    );
}

#[test]
fn load_memory_writes_consecutive_words() {
    let mut cpu = CPU::new();
    let payload = vec![0x0000_0001, 0x0000_0002, 0x0000_0003];
    assert_eq!(cpu.load_memory(0x3000, &payload), Ok(()));
    assert_eq!(cpu.read_word_from_mem(0x3000), Ok(1));
    assert_eq!(cpu.read_word_from_mem(0x3004), Ok(2));
    assert_eq!(cpu.read_word_from_mem(0x3008), Ok(3));
}

#[test]
fn load_memory_rejects_misaligned_start() {
    let mut cpu = CPU::new();
    let payload = vec![1];
    assert_eq!(
        cpu.load_memory(0x3002, &payload),
        Err(MemError::Misaligned(0x3002))
    );
    assert_eq!(cpu.memory_byte(0x3002), 0);
}

#[test]
fn load_memory_rejects_a_run_past_the_end() {
    let mut cpu = CPU::new();
    let payload = vec![1, 2];
    assert_eq!(
        cpu.load_memory(END_MEM - 4, &payload),
        Err(MemError::OutOfBounds(END_MEM - 4))
    );
    assert_eq!(cpu.memory_byte(END_MEM - 4), 0);
}
