use p3_field::PrimeField32;
use valida_cpu::columns::{
    CpuCols, MemoryChannelCols, OpcodeFlagCols, CHIP_CHANNEL_OPCODE_COL, CPU_MEMORY_CHANNELS, FP_COL, IS_BEQ_COL, IS_BNE_COL,
    IS_BUS_OP_COL, IS_IMM32_COL, IS_JALV_COL, IS_JAL_COL, IS_LOAD32_COL, IS_STORE32_COL,
    MEM_ADDR_OFFSET, MEM_CHANNELS_COL, MEM_CHANNEL_WIDTH, MEM_USED_OFFSET, MEM_VALUE_OFFSET,
    NUM_CPU_COLS, NUM_OPCODE_FLAGS, OPCODE_FLAGS_COL, PC_COL,
};
use valida_cpu::cpu::{BasicMachine, Operation, Registers};
use valida_cpu::field::{Fp, ORDER};
use valida_cpu::instructions::{
    BeqInstruction, Imm32Instruction, JalInstruction, Load32Instruction, Store32Instruction,
};
use valida_cpu::program::Operands;
use valida_cpu::trace::TraceError;
use valida_cpu::word::Word;

fn word(limbs: [u32; 4]) -> Word<Fp> {
    Word::<Fp>::from(limbs)
}

fn canonical(row: &[Fp]) -> Vec<u32> {
    row.iter().map(|f| f.as_canonical_u32()).collect()
}

fn channel(row: &[u32], k: usize) -> Vec<u32> {
    let base = MEM_CHANNELS_COL + k * MEM_CHANNEL_WIDTH;
    row[base..base + MEM_CHANNEL_WIDTH].to_vec()
}

fn flags(row: &[u32]) -> Vec<u32> {
    row[OPCODE_FLAGS_COL..OPCODE_FLAGS_COL + NUM_OPCODE_FLAGS].to_vec()
}

fn machine_with_one_cycle(pc: u32, fp: u32) -> BasicMachine {
    let mut machine = BasicMachine::new();
    machine.cpu.registers.push(Registers { pc: Fp::new(pc), fp: Fp::new(fp) });
    machine
}

#[test]
fn the_layout_has_no_gap_and_no_overlap() {
    assert_eq!(PC_COL, 0);
    assert_eq!(FP_COL, 1);
    assert_eq!(OPCODE_FLAGS_COL, 2);
    assert_eq!(
        [
            IS_LOAD32_COL,
            IS_STORE32_COL,
            IS_JAL_COL,
            IS_JALV_COL,
            IS_BEQ_COL,
            IS_BNE_COL,
            IS_IMM32_COL,
            IS_BUS_OP_COL
        ],
        [2, 3, 4, 5, 6, 7, 8, 9]
    );
    assert_eq!(MEM_CHANNELS_COL, OPCODE_FLAGS_COL + NUM_OPCODE_FLAGS);
    assert_eq!(CPU_MEMORY_CHANNELS, 3);
    assert_eq!(MEM_CHANNEL_WIDTH, 6);
    assert_eq!((MEM_USED_OFFSET, MEM_ADDR_OFFSET, MEM_VALUE_OFFSET), (0, 1, 2));
    assert_eq!(
        CHIP_CHANNEL_OPCODE_COL,
        MEM_CHANNELS_COL + CPU_MEMORY_CHANNELS * MEM_CHANNEL_WIDTH
    );
    assert_eq!(NUM_CPU_COLS, CHIP_CHANNEL_OPCODE_COL + 1);
    assert_eq!(NUM_CPU_COLS, 29);
}

#[test]
fn the_default_row_is_zero() {
    let row = CpuCols::default().to_row();
    assert_eq!(canonical(&row), vec![0; NUM_CPU_COLS]);
}

#[test]
fn the_default_channel_and_selectors_are_zero() {
    let channel = MemoryChannelCols::default();
    assert_eq!(channel.used.as_canonical_u32(), 0);
    assert_eq!(channel.addr.as_canonical_u32(), 0);
    assert!(channel.value == word([0, 0, 0, 0]));
    let flags = OpcodeFlagCols::default();
    assert_eq!(flags.is_load32.as_canonical_u32(), 0);
    assert_eq!(flags.is_bus_op.as_canonical_u32(), 0);
}

#[test]
fn to_row_writes_every_value_to_its_column() {
    let mut cols = CpuCols::default();
    cols.pc = Fp::new(101);
    cols.fp = Fp::new(102);
    cols.opcode_flags.is_load32 = Fp::new(103);
    cols.opcode_flags.is_store32 = Fp::new(104);
    cols.opcode_flags.is_jal = Fp::new(105);
    cols.opcode_flags.is_jalv = Fp::new(106);
    cols.opcode_flags.is_beq = Fp::new(107);
    cols.opcode_flags.is_bne = Fp::new(108);
    cols.opcode_flags.is_imm32 = Fp::new(109);
    cols.opcode_flags.is_bus_op = Fp::new(110);
    for k in 0..3u32 {
        let channel = &mut cols.mem_channels[k as usize];
        channel.used = Fp::new(200 + 10 * k);
        channel.addr = Fp::new(201 + 10 * k);
        channel.value = word([202 + 10 * k, 203 + 10 * k, 204 + 10 * k, 205 + 10 * k]);
    }
    cols.chip_channel.opcode = Fp::new(300);

    let row = canonical(&cols.to_row());

    assert_eq!(
        row,
        vec![
            101, 102, 103, 104, 105, 106, 107, 108, 109, 110, 200, 201, 202, 203, 204, 205, 210,
            211, 212, 213, 214, 215, 220, 221, 222, 223, 224, 225, 300
        ]
    );
    assert_eq!(row[PC_COL], 101);
    assert_eq!(row[FP_COL], 102);
    assert_eq!(row[IS_BEQ_COL], 107);
    assert_eq!(row[MEM_CHANNELS_COL + MEM_CHANNEL_WIDTH + MEM_ADDR_OFFSET], 211);
    assert_eq!(row[MEM_CHANNELS_COL + 2 * MEM_CHANNEL_WIDTH + MEM_VALUE_OFFSET + 3], 225);
    assert_eq!(row[CHIP_CHANNEL_OPCODE_COL], 300);
}

#[test]
fn two_reads_and_a_write_fill_the_three_channels() {
    let mut machine = machine_with_one_cycle(1, 2);
    machine.mem.write(Fp::zero(), Fp::new(10), Word::from(Fp::new(5)), false);
    machine.mem.write(Fp::zero(), Fp::new(20), Word::from(Fp::new(7)), false);
    machine.mem.read(Fp::zero(), Fp::new(10), true);
    machine.mem.read(Fp::zero(), Fp::new(20), true);
    machine.mem.write(Fp::zero(), Fp::new(30), Word::from(Fp::new(12)), true);

    let row = canonical(&machine.cpu.op_to_row(0, Operation::Load32, &machine));

    assert_eq!(channel(&row, 0), vec![1, 10, 0, 0, 0, 5]);
    assert_eq!(channel(&row, 1), vec![1, 20, 0, 0, 0, 7]);
    assert_eq!(channel(&row, 2), vec![1, 30, 0, 0, 0, 12]);
}

#[test]
fn channels_without_an_access_stay_zero() {
    let mut machine = machine_with_one_cycle(1, 2);
    machine.mem.read(Fp::zero(), Fp::new(10), true);

    let row = canonical(&machine.cpu.op_to_row(0, Operation::Beq, &machine));

    assert_eq!(channel(&row, 0), vec![1, 10, 0, 0, 0, 0]);
    assert_eq!(channel(&row, 1), vec![0; 6]);
    assert_eq!(channel(&row, 2), vec![0; 6]);

    let idle = machine_with_one_cycle(1, 2);
    let row = canonical(&idle.cpu.op_to_row(0, Operation::Beq, &idle));
    assert_eq!(channel(&row, 0), vec![0; 6]);
    assert_eq!(channel(&row, 1), vec![0; 6]);
    assert_eq!(channel(&row, 2), vec![0; 6]);
}

#[test]
fn a_write_before_the_reads_still_goes_to_the_third_channel() {
    let mut machine = machine_with_one_cycle(1, 2);
    machine.mem.write(Fp::zero(), Fp::new(30), word([1, 2, 3, 4]), true);
    machine.mem.read(Fp::zero(), Fp::new(30), true);
    machine.mem.read(Fp::zero(), Fp::new(31), true);

    let row = canonical(&machine.cpu.op_to_row(0, Operation::Jalv, &machine));

    assert_eq!(channel(&row, 0), vec![1, 30, 1, 2, 3, 4]);
    assert_eq!(channel(&row, 1), vec![1, 31, 0, 0, 0, 0]);
    assert_eq!(channel(&row, 2), vec![1, 30, 1, 2, 3, 4]);
}

#[test]
fn beyond_two_reads_and_one_write_the_last_ones_stay() {
    let mut machine = machine_with_one_cycle(1, 2);
    for addr in [10u32, 20, 30, 40] {
        machine.mem.read(Fp::zero(), Fp::new(addr), true);
    }
    machine.mem.write(Fp::zero(), Fp::new(50), word([0, 0, 0, 1]), true);
    machine.mem.write(Fp::zero(), Fp::new(60), word([0, 0, 0, 2]), true);

    let row = canonical(&machine.cpu.op_to_row(0, Operation::Load32, &machine));

    assert_eq!(channel(&row, 0), vec![1, 10, 0, 0, 0, 0]);
    assert_eq!(channel(&row, 1), vec![1, 40, 0, 0, 0, 0]);
    assert_eq!(channel(&row, 2), vec![1, 60, 0, 0, 0, 2]);
}

#[test]
fn a_row_reads_only_the_log_of_its_own_cycle() {
    let mut machine = machine_with_one_cycle(1, 2);
    machine.cpu.registers.push(Registers { pc: Fp::new(3), fp: Fp::new(4) });
    machine.mem.read(Fp::new(0), Fp::new(10), true);
    machine.mem.write(Fp::new(1), Fp::new(20), word([0, 0, 0, 9]), true);

    let first = canonical(&machine.cpu.op_to_row(0, Operation::Beq, &machine));
    let second = canonical(&machine.cpu.op_to_row(1, Operation::Imm32, &machine));

    assert_eq!(channel(&first, 0), vec![1, 10, 0, 0, 0, 0]);
    assert_eq!(channel(&first, 2), vec![0; 6]);
    assert_eq!(channel(&second, 0), vec![0; 6]);
    assert_eq!(channel(&second, 2), vec![1, 20, 0, 0, 0, 9]);
    assert_eq!((second[PC_COL], second[FP_COL]), (3, 4));
}

#[test]
fn set_memory_trace_values_leaves_the_rest_of_the_row() {
    let mut machine = machine_with_one_cycle(1, 2);
    machine.mem.read(Fp::zero(), Fp::new(10), true);
    let mut cols = CpuCols::default();
    cols.pc = Fp::new(77);
    cols.opcode_flags.is_jal = Fp::one();
    cols.mem_channels[2].addr = Fp::new(5);

    machine.cpu.set_memory_trace_values(0, &mut cols, &machine);

    let row = canonical(&cols.to_row());
    assert_eq!(row[PC_COL], 77);
    assert_eq!(row[IS_JAL_COL], 1);
    assert_eq!(channel(&row, 0), vec![1, 10, 0, 0, 0, 0]);
    assert_eq!(channel(&row, 2), vec![0, 5, 0, 0, 0, 0]);
}

#[test]
fn every_operation_sets_its_own_selector_and_no_other() {
    let machine = machine_with_one_cycle(8, 9);
    let cases = [
        (Operation::Load32, IS_LOAD32_COL),
        (Operation::Store32, IS_STORE32_COL),
        (Operation::Jal, IS_JAL_COL),
        (Operation::Jalv, IS_JALV_COL),
        (Operation::Beq, IS_BEQ_COL),
        (Operation::Bne, IS_BNE_COL),
        (Operation::Imm32, IS_IMM32_COL),
        (Operation::Bus(99), IS_BUS_OP_COL),
    ];
    for (op, column) in cases {
        let row = canonical(&machine.cpu.op_to_row(0, op, &machine));
        assert_eq!(row.len(), NUM_CPU_COLS);
        assert_eq!((row[PC_COL], row[FP_COL]), (8, 9));
        for j in OPCODE_FLAGS_COL..OPCODE_FLAGS_COL + NUM_OPCODE_FLAGS {
            assert_eq!(row[j], if j == column { 1 } else { 0 });
        }
        assert_eq!(flags(&row).iter().sum::<u32>(), 1);
    }
}

#[test]
fn a_bus_operation_records_the_opcode_it_is_dispatched_to() {
    let machine = machine_with_one_cycle(8, 9);

    let row = canonical(&machine.cpu.op_to_row(0, Operation::Bus(1234), &machine));
    assert_eq!(row[IS_BUS_OP_COL], 1);
    assert_eq!(row[CHIP_CHANNEL_OPCODE_COL], 1234);

    let row = canonical(&machine.cpu.op_to_row(0, Operation::Bus(ORDER + 6), &machine));
    assert_eq!(row[CHIP_CHANNEL_OPCODE_COL], 6);

    let row = canonical(&machine.cpu.op_to_row(0, Operation::Imm32, &machine));
    assert_eq!(row[CHIP_CHANNEL_OPCODE_COL], 0);
}

#[test]
fn the_trace_of_no_cycle_is_empty() {
    let machine = BasicMachine::new();
    let trace = machine.cpu.generate_trace(&machine);
    assert_eq!(trace.width, NUM_CPU_COLS);
    assert!(trace.values.is_empty());
    assert!(machine.cpu.trace_values(&machine).is_empty());
}

#[test]
fn the_trace_is_row_major_in_clock_order() {
    let mut machine = BasicMachine::new();
    machine.cpu.fp = Fp::new(100);
    machine.mem.write(Fp::zero(), Fp::new(103), word([0, 0, 0, 3]), false);
    Imm32Instruction::execute(&mut machine, Operands::from_i32_slice(&[2, 0, 0, 1, 0]));
    Load32Instruction::execute(&mut machine, Operands::from_i32_slice(&[4, 0, 2, 0, 0]));
    Store32Instruction::execute(&mut machine, Operands::from_i32_slice(&[0, 5, 4, 0, 0]));
    BeqInstruction::execute(&mut machine, Operands::from_i32_slice(&[10, 5, 0, 0, 1]));
    JalInstruction::execute(&mut machine, Operands::from_i32_slice(&[6, 500, 16, 0, 0]));

    let trace = machine.cpu.generate_trace(&machine);

    assert_eq!(trace.width, NUM_CPU_COLS);
    assert_eq!(trace.values.len(), 5 * NUM_CPU_COLS);
    let values: Vec<u32> = trace.values.iter().map(|v| v.as_canonical_u32()).collect();
    let rows: Vec<&[u32]> = values.chunks(NUM_CPU_COLS).collect();

    // cycle 0: imm32 writes the word (0, 0, 1, 0) = 256 to fp + 2
    assert_eq!(
        rows[0],
        [1, 100, 0, 0, 0, 0, 0, 0, 1, 0, 0, 0, 0, 0, 0, 0, 0, 0, 0, 0, 0, 0, 1, 102, 0, 0, 1, 0, 0]
    );
    // cycle 1: load32 reads the pointer at fp + 2, then the cell at 256, and writes it to fp + 4
    assert_eq!(
        rows[1],
        [
            2, 100, 1, 0, 0, 0, 0, 0, 0, 0, 1, 102, 0, 0, 1, 0, 1, 256, 0, 0, 0, 0, 1, 104, 0, 0,
            0, 0, 0
        ]
    );
    // cycle 2: store32 copies fp + 4 to fp + 5
    assert_eq!(
        rows[2],
        [
            3, 100, 0, 1, 0, 0, 0, 0, 0, 0, 1, 104, 0, 0, 0, 0, 0, 0, 0, 0, 0, 0, 1, 105, 0, 0,
            0, 0, 0
        ]
    );
    // cycle 3: beq finds zero at fp + 5 equal to the immediate zero, and jumps by ten
    assert_eq!(
        rows[3],
        [
            13, 100, 0, 0, 0, 0, 1, 0, 0, 0, 1, 105, 0, 0, 0, 0, 0, 0, 0, 0, 0, 0, 0, 0, 0, 0, 0,
            0, 0
        ]
    );
    // cycle 4: jal links 14 at fp + 6 and jumps to 500 with the frame moved by 16
    assert_eq!(
        rows[4],
        [
            500, 116, 0, 0, 1, 0, 0, 0, 0, 0, 0, 0, 0, 0, 0, 0, 0, 0, 0, 0, 0, 0, 1, 106, 0, 0,
            0, 14, 0
        ]
    );

    for (n, row) in rows.iter().enumerate() {
        let expected = canonical(&machine.cpu.op_to_row(n, machine.cpu.operations[n], &machine));
        assert_eq!(row.to_vec(), expected);
        assert_eq!(flags(row).iter().sum::<u32>(), 1);
    }
    assert_eq!(canonical(&machine.cpu.trace_values(&machine)), values);
}

#[test]
fn the_trace_goes_by_the_operation_history() {
    let mut machine = machine_with_one_cycle(8, 9);
    machine.cpu.registers.push(Registers { pc: Fp::new(10), fp: Fp::new(11) });
    machine.cpu.operations.push(Operation::Bus(42));

    let trace = machine.cpu.generate_trace(&machine);

    assert_eq!(trace.width, NUM_CPU_COLS);
    assert_eq!(trace.values.len(), NUM_CPU_COLS);
    assert_eq!(trace.values[PC_COL].as_canonical_u32(), 8);
    assert_eq!(trace.values[FP_COL].as_canonical_u32(), 9);
    assert_eq!(trace.values[IS_BUS_OP_COL].as_canonical_u32(), 1);
    assert_eq!(trace.values[CHIP_CHANNEL_OPCODE_COL].as_canonical_u32(), 42);
}

#[test]
fn the_permutation_trace_is_not_implemented() {
    let mut machine = BasicMachine::new();
    Imm32Instruction::execute(&mut machine, Operands::from_i32_slice(&[0, 0, 0, 0, 1]));
    let main_trace = machine.cpu.generate_trace(&machine);

    let result =
        machine.cpu.generate_permutation_trace(&machine, main_trace, vec![Fp::new(3), Fp::new(5)]);

    assert_eq!(result.err(), Some(TraceError::NotImplemented));
}
