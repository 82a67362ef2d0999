//! The trace of the CPU: one row per executed cycle, built from the
//! histories of the CPU and the log of the memory.

use crate::columns::{
    values, Channel, CpuCols, MemoryChannelCols, Row, IS_BEQ_COL, IS_BNE_COL, IS_BUS_OP_COL,
    IS_IMM32_COL, IS_JALV_COL, IS_JAL_COL, IS_LOAD32_COL, IS_STORE32_COL, NUM_CPU_COLS,
    NUM_OPCODE_FLAGS, OPCODE_FLAGS_COL,
};
use crate::cpu::{CpuChip, CpuState, MachineWithCpuChip, Operation};
use crate::field::{reduce, Fp, ORDER};
use crate::matrix::{matrix_values, matrix_width, row_major_matrix};
use crate::memory::{accesses, Access, MemoryOperation, MemoryState};
use p3_matrix::dense::RowMajorMatrix;
use p3_mersenne_31::Mersenne31;
use vstd::arithmetic::div_mod::lemma_mod_multiples_basic;
use vstd::prelude::*;

verus! {

/// The reads of a log, in order.
pub open spec fn reads(log: Seq<Access>) -> Seq<Access> {
    log.filter(|a: Access| a is Read)
}

/// The writes of a log, in order.
pub open spec fn writes(log: Seq<Access>) -> Seq<Access> {
    log.filter(|a: Access| a is Write)
}

/// The channel that records an access.
pub open spec fn channel_of(access: Access) -> Channel {
    match access {
        Access::Read { addr, value } => Channel { used: 1, addr, value },
        Access::Write { addr, value } => Channel { used: 1, addr, value },
    }
}

/// The three memory channels of a cycle, given its log and the channels as
/// they were before.
///
/// The first channel records the first read and the second channel the
/// second read, or the last one when there are more than two. The third
/// channel records the write, or the last one when there are several. A
/// channel for which the log has nothing stays as it was.
pub open spec fn memory_channels(log: Seq<Access>, before: Seq<Channel>) -> Seq<Channel> {
    let r = reads(log);
    let w = writes(log);
    seq![
        if r.len() >= 1 {
            channel_of(r[0])
        } else {
            before[0]
        },
        if r.len() >= 2 {
            channel_of(r.last())
        } else {
            before[1]
        },
        if w.len() >= 1 {
            channel_of(w.last())
        } else {
            before[2]
        },
    ]
}

/// The column of an operation's selector.
pub open spec fn flag_column(op: Operation) -> int {
    match op {
        Operation::Load32 => IS_LOAD32_COL as int,
        Operation::Store32 => IS_STORE32_COL as int,
        Operation::Jal => IS_JAL_COL as int,
        Operation::Jalv => IS_JALV_COL as int,
        Operation::Beq => IS_BEQ_COL as int,
        Operation::Bne => IS_BNE_COL as int,
        Operation::Imm32 => IS_IMM32_COL as int,
        Operation::Bus(_) => IS_BUS_OP_COL as int,
    }
}

/// The opcode selectors of a cycle, in column order: one for the operation,
/// zero for the others.
pub open spec fn opcode_flags(op: Operation) -> Seq<nat> {
    Seq::new(
        NUM_OPCODE_FLAGS as nat,
        |i: int|
            if OPCODE_FLAGS_COL + i == flag_column(op) {
                1nat
            } else {
                0nat
            },
    )
}

/// The opcode on the chip channel: that of a bus operation, as a field
/// element, and zero for the instructions of the CPU itself.
pub open spec fn chip_opcode(op: Operation) -> nat {
    match op {
        Operation::Bus(opcode) => reduce(opcode as int),
        _ => 0,
    }
}

/// The clock value of the cycle with the given index.
pub open spec fn cycle_clock(n: int) -> nat {
    reduce(n)
}

/// The row of a cycle, given the registers it left, what it executed and
/// the memory accesses logged for it.
pub open spec fn trace_row(registers: (nat, nat), op: Operation, log: Seq<Access>) -> Row {
    Row {
        pc: registers.0,
        fp: registers.1,
        opcode_flags: opcode_flags(op),
        mem_channels: memory_channels(
            log,
            seq![Channel::unused(), Channel::unused(), Channel::unused()],
        ),
        chip_opcode: chip_opcode(op),
    }
}

/// The rows of the trace: one per executed cycle, in clock order. The row
/// of cycle `n` is made of the registers and the operation that the
/// histories hold at `n`, and of the accesses that the memory logged for
/// the clock value of `n`.
pub open spec fn trace(cpu: CpuState, mem: MemoryState) -> Seq<Seq<nat>> {
    Seq::new(
        cpu.operations.len(),
        |n: int| trace_row(cpu.registers[n], cpu.operations[n], mem.log_at(cycle_clock(n))).flat(),
    )
}

/// Whether a run of values holds the given rows one after the other, each
/// [`NUM_CPU_COLS`] wide.
pub open spec fn is_row_major(flat: Seq<nat>, rows: Seq<Seq<nat>>) -> bool {
    &&& flat.len() == rows.len() * NUM_CPU_COLS
    &&& forall|n: int|
        0 <= n < rows.len() ==> flat.subrange(n * NUM_CPU_COLS, n * NUM_CPU_COLS + NUM_CPU_COLS)
            == #[trigger] rows[n]
}

/// Why the permutation trace cannot be had.
#[derive(Copy, Clone, Debug, PartialEq, Eq, Structural)]
pub enum TraceError {
    /// The accumulators of the lookup relations are not defined yet.
    NotImplemented,
}

/// Every row of the trace has exactly one opcode selector set: the one of
/// the operation that the history holds for the cycle.
pub proof fn lemma_row_selects_its_operation(cpu: CpuState, mem: MemoryState, n: int)
    requires
        0 <= n < cpu.operations.len(),
    ensures
        OPCODE_FLAGS_COL <= flag_column(cpu.operations[n]) < OPCODE_FLAGS_COL + NUM_OPCODE_FLAGS,
        forall|j: int|
            OPCODE_FLAGS_COL <= j < OPCODE_FLAGS_COL + NUM_OPCODE_FLAGS ==> #[trigger] trace(
                cpu,
                mem,
            )[n][j] == if j == flag_column(cpu.operations[n]) {
                1nat
            } else {
                0nat
            },
{
    let op = cpu.operations[n];
    let row = trace_row(cpu.registers[n], op, mem.log_at(cycle_clock(n)));
    assert forall|j: int|
        OPCODE_FLAGS_COL <= j < OPCODE_FLAGS_COL + NUM_OPCODE_FLAGS implies #[trigger] row.flat()[j]
        == if j == flag_column(op) {
        1nat
    } else {
        0nat
    } by {
        assert(row.flat()[j] == row.opcode_flags[j - OPCODE_FLAGS_COL]);
    }
}

/// Filtering a log that grew by one access: the access is kept or not.
proof fn lemma_filter_push(log: Seq<Access>, access: Access)
    ensures
        reads(log.push(access)) == if access is Read {
            reads(log).push(access)
        } else {
            reads(log)
        },
        writes(log.push(access)) == if access is Write {
            writes(log).push(access)
        } else {
            writes(log)
        },
{
    reveal(Seq::filter);
    assert(log.push(access).drop_last() =~= log);
}

impl CpuChip {
    /// The trace of the executed cycles as a matrix of [`NUM_CPU_COLS`]
    /// columns: see [`trace`].
    ///
    /// The register history must reach as far as the operation history,
    /// and the trace must fit in memory.
    pub fn generate_trace<M: MachineWithCpuChip>(&self, machine: &M) -> (matrix: RowMajorMatrix<
        Mersenne31,
    >)
        requires
            self.operations.len() <= self.registers.len(),
            self.operations.len() * NUM_CPU_COLS <= usize::MAX,
        ensures
            matrix_width(matrix) == NUM_CPU_COLS,
            is_row_major(matrix_values(matrix), trace(self@, machine.spec_mem()@)),
    {
        let flat = self.trace_values(machine);
        assert(flat@.len() % (NUM_CPU_COLS as nat) == 0) by {
            assert(flat@.len() == self.operations.len() * NUM_CPU_COLS);
            lemma_mod_multiples_basic(self.operations.len() as int, NUM_CPU_COLS as int);
        }
        row_major_matrix(flat, NUM_CPU_COLS)
    }

    /// The permutation trace is not defined yet: every call is answered
    /// with [`TraceError::NotImplemented`].
    pub fn generate_permutation_trace<M: MachineWithCpuChip>(
        &self,
        machine: &M,
        main_trace: RowMajorMatrix<Mersenne31>,
        random_elements: Vec<Fp>,
    ) -> (result: Result<RowMajorMatrix<Mersenne31>, TraceError>)
        ensures
            result is Err,
            result->Err_0 == TraceError::NotImplemented,
    {
        Err(TraceError::NotImplemented)
    }

    /// The values of the trace, row after row: see [`trace`].
    pub fn trace_values<M: MachineWithCpuChip>(&self, machine: &M) -> (flat: Vec<Fp>)
        requires
            self.operations.len() <= self.registers.len(),
            self.operations.len() * NUM_CPU_COLS <= usize::MAX,
        ensures
            is_row_major(values(flat@), trace(self@, machine.spec_mem()@)),
    {
        let rows = self.operations.len();
        let ghost expected = trace(self@, machine.spec_mem()@);
        let mut flat: Vec<Fp> = Vec::new();
        let mut n: usize = 0;
        while n < rows
            invariant
                n <= rows,
                rows == self.operations.len(),
                rows <= self.registers.len(),
                rows * NUM_CPU_COLS <= usize::MAX,
                expected == trace(self@, machine.spec_mem()@),
                flat@.len() == n * NUM_CPU_COLS,
                forall|m: int|
                    0 <= m < n ==> values(flat@).subrange(
                        m * NUM_CPU_COLS,
                        m * NUM_CPU_COLS + NUM_CPU_COLS,
                    ) == #[trigger] expected[m],
            decreases rows - n,
        {
            let row = self.op_to_row(n, self.operations[n], machine);
            let ghost before = flat@;
            let mut j: usize = 0;
            while j < NUM_CPU_COLS
                invariant
                    j <= NUM_CPU_COLS,
                    n < rows,
                    rows * NUM_CPU_COLS <= usize::MAX,
                    before.len() == n * NUM_CPU_COLS,
                    flat@ == before + row@.take(j as int),
                decreases NUM_CPU_COLS - j,
            {
                flat.push(row[j]);
                assert(flat@ =~= before + row@.take(j + 1));
                j += 1;
            }
            proof {
                assert(row@.take(NUM_CPU_COLS as int) =~= row@);
                assert(values(row@) == expected[n as int]);
                assert forall|m: int| 0 <= m < n + 1 implies values(flat@).subrange(
                    m * NUM_CPU_COLS,
                    m * NUM_CPU_COLS + NUM_CPU_COLS,
                ) == #[trigger] expected[m] by {
                    if m < n {
                        assert(values(flat@).subrange(
                            m * NUM_CPU_COLS,
                            m * NUM_CPU_COLS + NUM_CPU_COLS,
                        ) =~= values(before).subrange(
                            m * NUM_CPU_COLS,
                            m * NUM_CPU_COLS + NUM_CPU_COLS,
                        ));
                    } else {
                        assert(values(flat@).subrange(
                            m * NUM_CPU_COLS,
                            m * NUM_CPU_COLS + NUM_CPU_COLS,
                        ) =~= values(row@));
                    }
                }
            }
            n += 1;
        }
        flat
    }

    /// The row of the cycle `clk`, for the operation `op`: see [`trace_row`].
    ///
    /// The register history must hold the cycle.
    pub fn op_to_row<M: MachineWithCpuChip>(&self, clk: usize, op: Operation, machine: &M) -> (row:
        [Fp; NUM_CPU_COLS])
        requires
            clk < self.registers.len(),
        ensures
            values(row@) == trace_row(
                self@.registers[clk as int],
                op,
                machine.spec_mem()@.log_at(cycle_clock(clk as int)),
            ).flat(),
    {
        let mut cols = CpuCols::default();
        cols.pc = self.registers[clk].pc;
        cols.fp = self.registers[clk].fp;

        self.set_memory_trace_values(clk, &mut cols, machine);

        let one = Fp::one();
        match op {
            Operation::Store32 => {
                cols.opcode_flags.is_store32 = one;
            },
            Operation::Load32 => {
                cols.opcode_flags.is_load32 = one;
            },
            Operation::Jal => {
                cols.opcode_flags.is_jal = one;
            },
            Operation::Jalv => {
                cols.opcode_flags.is_jalv = one;
            },
            Operation::Beq => {
                cols.opcode_flags.is_beq = one;
            },
            Operation::Bne => {
                cols.opcode_flags.is_bne = one;
            },
            Operation::Imm32 => {
                cols.opcode_flags.is_imm32 = one;
            },
            Operation::Bus(opcode) => {
                cols.opcode_flags.is_bus_op = one;
                cols.chip_channel.opcode = Fp::new(opcode);
            },
        }
        proof {
            let expected = trace_row(
                self@.registers[clk as int],
                op,
                machine.spec_mem()@.log_at(cycle_clock(clk as int)),
            );
            assert(cols@.opcode_flags =~= expected.opcode_flags);
            assert(cols@.mem_channels =~= expected.mem_channels);
        }
        cols.to_row()
    }

    /// Fills the memory channels of a row from the accesses that the memory
    /// logged for the cycle `clk`: see [`memory_channels`]. The rest of the
    /// row stays as it was.
    pub fn set_memory_trace_values<M: MachineWithCpuChip>(
        &self,
        clk: usize,
        cols: &mut CpuCols,
        machine: &M,
    )
        ensures
            final(cols)@.pc == old(cols)@.pc,
            final(cols)@.fp == old(cols)@.fp,
            final(cols)@.opcode_flags == old(cols)@.opcode_flags,
            final(cols)@.chip_opcode == old(cols)@.chip_opcode,
            final(cols)@.mem_channels == memory_channels(
                machine.spec_mem()@.log_at(cycle_clock(clk as int)),
                old(cols)@.mem_channels,
            ),
    {
        let memory = machine.mem();
        let clock = Fp::new((clk % (ORDER as usize)) as u32);
        let ghost log = memory@.log_at(cycle_clock(clk as int));
        let ghost before = cols@.mem_channels;
        assert(reads(Seq::<Access>::empty()) =~= Seq::<Access>::empty()
            && writes(Seq::<Access>::empty()) =~= Seq::<Access>::empty()) by {
            reveal(Seq::filter);
        }
        assert(cols@.mem_channels =~= memory_channels(Seq::<Access>::empty(), before));
        if let Some(ops) = memory.operations_at(clock) {
            let mut is_first_read = true;
            let mut i: usize = 0;
            assert(log.take(0) =~= Seq::<Access>::empty());
            while i < ops.len()
                invariant
                    i <= ops.len(),
                    accesses(ops@) == log,
                    is_first_read == (reads(log.take(i as int)).len() == 0),
                    cols@.pc == old(cols)@.pc,
                    cols@.fp == old(cols)@.fp,
                    cols@.opcode_flags == old(cols)@.opcode_flags,
                    cols@.chip_opcode == old(cols)@.chip_opcode,
                    cols@.mem_channels == memory_channels(log.take(i as int), before),
                decreases ops.len() - i,
            {
                proof {
                    lemma_filter_push(log.take(i as int), log[i as int]);
                    assert(log.take(i as int).push(log[i as int]) =~= log.take(i + 1));
                }
                match ops[i] {
                    MemoryOperation::Read(addr, value) => {
                        if is_first_read {
                            cols.mem_channels[0] = MemoryChannelCols {
                                used: Fp::one(),
                                addr,
                                value,
                            };
                            is_first_read = false;
                        } else {
                            cols.mem_channels[1] = MemoryChannelCols {
                                used: Fp::one(),
                                addr,
                                value,
                            };
                        }
                    },
                    MemoryOperation::Write(addr, value) => {
                        cols.mem_channels[2] = MemoryChannelCols { used: Fp::one(), addr, value };
                    },
                }
                i += 1;
                assert(cols@.mem_channels =~= memory_channels(log.take(i as int), before));
            }
            assert(log.take(i as int) =~= log);
        }
    }
}

} // verus!
