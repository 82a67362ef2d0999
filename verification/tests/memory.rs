use valida_cpu::field::{Fp, ORDER};
use valida_cpu::memory::{MemoryChip, MemoryOperation};
use valida_cpu::word::Word;

fn word(limbs: [u32; 4]) -> Word<Fp> {
    Word::<Fp>::from(limbs)
}

fn logged(memory: &MemoryChip, clk: u32) -> Vec<(bool, u32, [u32; 4])> {
    match memory.operations_at(Fp::new(clk)) {
        None => Vec::new(),
        Some(ops) => ops
            .iter()
            .map(|op| match *op {
                MemoryOperation::Read(addr, value) => (true, addr.as_canonical_u32(), value.into()),
                MemoryOperation::Write(addr, value) => {
                    (false, addr.as_canonical_u32(), value.into())
                }
            })
            .collect(),
    }
}

#[test]
fn an_unwritten_cell_reads_as_zero() {
    let mut memory = MemoryChip::new();
    assert!(memory.read(Fp::new(0), Fp::new(42), false) == word([0, 0, 0, 0]));
    assert!(memory.read(Fp::new(0), Fp::new(ORDER - 1), true) == word([0, 0, 0, 0]));
}

#[test]
fn a_written_cell_reads_back() {
    let mut memory = MemoryChip::new();
    memory.write(Fp::new(0), Fp::new(10), word([1, 2, 3, 4]), true);
    memory.write(Fp::new(0), Fp::new(11), word([5, 6, 7, 8]), true);
    assert!(memory.read(Fp::new(1), Fp::new(10), true) == word([1, 2, 3, 4]));
    assert!(memory.read(Fp::new(1), Fp::new(11), true) == word([5, 6, 7, 8]));
    assert!(memory.read(Fp::new(1), Fp::new(12), true) == word([0, 0, 0, 0]));
}

#[test]
fn a_later_write_replaces_an_earlier_one() {
    let mut memory = MemoryChip::new();
    memory.write(Fp::new(0), Fp::new(10), word([1, 2, 3, 4]), true);
    memory.write(Fp::new(1), Fp::new(10), word([9, 9, 9, 9]), true);
    assert!(memory.read(Fp::new(2), Fp::new(10), true) == word([9, 9, 9, 9]));
}

#[test]
fn real_accesses_are_logged_in_call_order() {
    let mut memory = MemoryChip::new();
    memory.write(Fp::new(3), Fp::new(10), word([0, 0, 0, 5]), true);
    memory.read(Fp::new(3), Fp::new(10), true);
    memory.read(Fp::new(3), Fp::new(20), true);
    assert_eq!(
        logged(&memory, 3),
        vec![
            (false, 10, [0, 0, 0, 5]),
            (true, 10, [0, 0, 0, 5]),
            (true, 20, [0, 0, 0, 0]),
        ]
    );
}

#[test]
fn the_log_is_kept_by_clock() {
    let mut memory = MemoryChip::new();
    memory.write(Fp::new(0), Fp::new(1), word([0, 0, 0, 1]), true);
    memory.write(Fp::new(1), Fp::new(2), word([0, 0, 0, 2]), true);
    memory.read(Fp::new(0), Fp::new(2), true);
    assert_eq!(logged(&memory, 0), vec![(false, 1, [0, 0, 0, 1]), (true, 2, [0, 0, 0, 2])]);
    assert_eq!(logged(&memory, 1), vec![(false, 2, [0, 0, 0, 2])]);
    assert_eq!(logged(&memory, 2), vec![]);
}

#[test]
fn accesses_that_are_not_real_leave_no_log() {
    let mut memory = MemoryChip::new();
    memory.write(Fp::new(0), Fp::new(1), word([0, 0, 0, 1]), false);
    assert!(memory.read(Fp::new(0), Fp::new(1), false) == word([0, 0, 0, 1]));
    assert!(memory.operations_at(Fp::new(0)).is_none());
}

#[test]
fn the_default_memory_is_empty() {
    let mut memory = MemoryChip::default();
    assert!(memory.operations_at(Fp::new(0)).is_none());
    assert!(memory.read(Fp::new(0), Fp::new(0), false) == word([0, 0, 0, 0]));
}
