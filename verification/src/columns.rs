//! The layout of a trace row of the CPU: which column holds what.
//!
//! A row is a flat run of field elements. The constants below give, for
//! every named value of a row, the column that holds it; [`CpuCols::to_row`]
//! writes a row through them.

use crate::field::Fp;
use crate::word::Word;
use vstd::prelude::*;

verus! {

/// The number of memory channels of a row: two for reads, one for the write.
pub const CPU_MEMORY_CHANNELS: usize = 3;

/// The column of the program counter.
pub const PC_COL: usize = 0;

/// The column of the frame pointer.
pub const FP_COL: usize = 1;

/// The column of the first opcode selector.
pub const OPCODE_FLAGS_COL: usize = 2;

/// The number of opcode selectors.
pub const NUM_OPCODE_FLAGS: usize = 8;

/// The column of the selector of `Load32`.
pub const IS_LOAD32_COL: usize = 2;

/// The column of the selector of `Store32`.
pub const IS_STORE32_COL: usize = 3;

/// The column of the selector of `Jal`.
pub const IS_JAL_COL: usize = 4;

/// The column of the selector of `Jalv`.
pub const IS_JALV_COL: usize = 5;

/// The column of the selector of `Beq`.
pub const IS_BEQ_COL: usize = 6;

/// The column of the selector of `Bne`.
pub const IS_BNE_COL: usize = 7;

/// The column of the selector of `Imm32`.
pub const IS_IMM32_COL: usize = 8;

/// The column of the selector of a bus operation.
pub const IS_BUS_OP_COL: usize = 9;

/// The column at which the first memory channel starts.
pub const MEM_CHANNELS_COL: usize = 10;

/// The number of columns of one memory channel.
pub const MEM_CHANNEL_WIDTH: usize = 6;

/// Within a memory channel, the offset of the flag that marks it as used.
pub const MEM_USED_OFFSET: usize = 0;

/// Within a memory channel, the offset of the address.
pub const MEM_ADDR_OFFSET: usize = 1;

/// Within a memory channel, the offset of the first limb of the value.
pub const MEM_VALUE_OFFSET: usize = 2;

/// The column of the opcode that a bus operation is dispatched to.
pub const CHIP_CHANNEL_OPCODE_COL: usize = 28;

/// The number of columns of a row.
pub const NUM_CPU_COLS: usize = 29;

/// One memory channel of a row.
#[derive(Copy, Clone, Debug)]
pub struct MemoryChannelCols {
    /// One if the channel records an access, else zero.
    pub used: Fp,
    pub addr: Fp,
    pub value: Word<Fp>,
}

/// One memory channel as plain values.
pub struct Channel {
    pub used: nat,
    pub addr: nat,
    pub value: Seq<nat>,
}

impl Channel {
    /// The channel that records nothing.
    pub open spec fn unused() -> Channel {
        Channel { used: 0, addr: 0, value: seq![0, 0, 0, 0] }
    }

    /// The columns of the channel: the flag, the address, the limbs.
    pub open spec fn flat(self) -> Seq<nat> {
        seq![self.used, self.addr] + self.value
    }
}

impl View for MemoryChannelCols {
    type V = Channel;

    open spec fn view(&self) -> Channel {
        Channel { used: self.used@, addr: self.addr@, value: self.value@ }
    }
}

impl Default for MemoryChannelCols {
    fn default() -> (channel: MemoryChannelCols)
        ensures
            channel@ == Channel::unused(),
    {
        let channel = MemoryChannelCols {
            used: Fp::zero(),
            addr: Fp::zero(),
            value: Word([Fp::zero(), Fp::zero(), Fp::zero(), Fp::zero()]),
        };
        assert(channel@.value =~= seq![0, 0, 0, 0]);
        channel
    }
}

/// The opcode selectors of a row: one per operation, each zero or one.
#[derive(Copy, Clone, Debug)]
pub struct OpcodeFlagCols {
    pub is_load32: Fp,
    pub is_store32: Fp,
    pub is_jal: Fp,
    pub is_jalv: Fp,
    pub is_beq: Fp,
    pub is_bne: Fp,
    pub is_imm32: Fp,
    pub is_bus_op: Fp,
}

impl View for OpcodeFlagCols {
    type V = Seq<nat>;

    /// The selectors in column order.
    open spec fn view(&self) -> Seq<nat> {
        seq![
            self.is_load32@,
            self.is_store32@,
            self.is_jal@,
            self.is_jalv@,
            self.is_beq@,
            self.is_bne@,
            self.is_imm32@,
            self.is_bus_op@,
        ]
    }
}

impl Default for OpcodeFlagCols {
    fn default() -> (flags: OpcodeFlagCols)
        ensures
            flags@ == seq![0nat, 0, 0, 0, 0, 0, 0, 0],
    {
        let flags = OpcodeFlagCols {
            is_load32: Fp::zero(),
            is_store32: Fp::zero(),
            is_jal: Fp::zero(),
            is_jalv: Fp::zero(),
            is_beq: Fp::zero(),
            is_bne: Fp::zero(),
            is_imm32: Fp::zero(),
            is_bus_op: Fp::zero(),
        };
        assert(flags@ =~= seq![0nat, 0, 0, 0, 0, 0, 0, 0]);
        flags
    }
}

/// The channel that the CPU shares with the chips on the bus.
#[derive(Copy, Clone, Debug)]
pub struct ChipChannelCols {
    /// The opcode that a bus operation is dispatched to.
    pub opcode: Fp,
}

/// A row of the trace under the names of its values.
#[derive(Copy, Clone, Debug)]
pub struct CpuCols {
    pub pc: Fp,
    pub fp: Fp,
    pub opcode_flags: OpcodeFlagCols,
    pub mem_channels: [MemoryChannelCols; CPU_MEMORY_CHANNELS],
    pub chip_channel: ChipChannelCols,
}

/// A row of the trace as plain values.
pub struct Row {
    pub pc: nat,
    pub fp: nat,
    pub opcode_flags: Seq<nat>,
    pub mem_channels: Seq<Channel>,
    pub chip_opcode: nat,
}

impl Row {
    /// The columns of the row, in order: the program counter, the frame
    /// pointer, the opcode selectors, the three memory channels, the
    /// opcode of the chip channel.
    pub open spec fn flat(self) -> Seq<nat> {
        seq![self.pc, self.fp] + self.opcode_flags + self.mem_channels[0].flat()
            + self.mem_channels[1].flat() + self.mem_channels[2].flat() + seq![self.chip_opcode]
    }
}

/// Whether a row has its eight selectors and its three channels, each with
/// a value of four limbs.
pub open spec fn well_shaped(row: Row) -> bool {
    &&& row.opcode_flags.len() == NUM_OPCODE_FLAGS
    &&& row.mem_channels.len() == CPU_MEMORY_CHANNELS
    &&& forall|k: int|
        0 <= k < CPU_MEMORY_CHANNELS ==> (#[trigger] row.mem_channels[k]).value.len() == 4
}

/// The flat form of a row holds every named value at the column that the
/// layout gives it, and is [`NUM_CPU_COLS`] long.
pub proof fn lemma_row_layout(row: Row)
    requires
        well_shaped(row),
    ensures
        row.flat().len() == NUM_CPU_COLS,
        row.flat()[PC_COL as int] == row.pc,
        row.flat()[FP_COL as int] == row.fp,
        forall|i: int|
            0 <= i < NUM_OPCODE_FLAGS ==> #[trigger] row.flat()[OPCODE_FLAGS_COL + i]
                == row.opcode_flags[i],
        forall|k: int|
            #![trigger row.mem_channels[k]]
            0 <= k < CPU_MEMORY_CHANNELS ==> {
                let base = MEM_CHANNELS_COL + k * MEM_CHANNEL_WIDTH;
                let channel = row.mem_channels[k];
                &&& row.flat()[base + MEM_USED_OFFSET] == channel.used
                &&& row.flat()[base + MEM_ADDR_OFFSET] == channel.addr
                &&& row.flat()[base + MEM_VALUE_OFFSET] == channel.value[0]
                &&& row.flat()[base + MEM_VALUE_OFFSET + 1] == channel.value[1]
                &&& row.flat()[base + MEM_VALUE_OFFSET + 2] == channel.value[2]
                &&& row.flat()[base + MEM_VALUE_OFFSET + 3] == channel.value[3]
            },
        row.flat()[CHIP_CHANNEL_OPCODE_COL as int] == row.chip_opcode,
{
    let flat = row.flat();
    assert(row.mem_channels[0].flat().len() == 6);
    assert(row.mem_channels[1].flat().len() == 6);
    assert(row.mem_channels[2].flat().len() == 6);
    assert forall|j: int| 10 <= j < 16 implies flat[j] == row.mem_channels[0].flat()[j - 10] by {}
    assert forall|j: int| 16 <= j < 22 implies flat[j] == row.mem_channels[1].flat()[j - 16] by {}
    assert forall|j: int| 22 <= j < 28 implies flat[j] == row.mem_channels[2].flat()[j - 22] by {}
    assert forall|k: int|
        #![trigger row.mem_channels[k]]
        0 <= k < CPU_MEMORY_CHANNELS implies {
        let base = MEM_CHANNELS_COL + k * MEM_CHANNEL_WIDTH;
        let channel = row.mem_channels[k];
        &&& flat[base + MEM_USED_OFFSET] == channel.used
        &&& flat[base + MEM_ADDR_OFFSET] == channel.addr
        &&& flat[base + MEM_VALUE_OFFSET] == channel.value[0]
        &&& flat[base + MEM_VALUE_OFFSET + 1] == channel.value[1]
        &&& flat[base + MEM_VALUE_OFFSET + 2] == channel.value[2]
        &&& flat[base + MEM_VALUE_OFFSET + 3] == channel.value[3]
    } by {
        assert(k == 0 || k == 1 || k == 2);
    }
}

impl View for CpuCols {
    type V = Row;

    open spec fn view(&self) -> Row {
        Row {
            pc: self.pc@,
            fp: self.fp@,
            opcode_flags: self.opcode_flags@,
            mem_channels: self.mem_channels@.map_values(|c: MemoryChannelCols| c@),
            chip_opcode: self.chip_channel.opcode@,
        }
    }
}

/// The canonical representatives of a run of field elements.
pub open spec fn values(elements: Seq<Fp>) -> Seq<nat> {
    elements.map_values(|f: Fp| f@)
}

/// Whether the six columns from `base` on hold the channel.
pub open spec fn holds_channel(row: Seq<Fp>, base: int, channel: Channel) -> bool {
    &&& row[base]@ == channel.used
    &&& row[base + 1]@ == channel.addr
    &&& row[base + 2]@ == channel.value[0]
    &&& row[base + 3]@ == channel.value[1]
    &&& row[base + 4]@ == channel.value[2]
    &&& row[base + 5]@ == channel.value[3]
}

impl Default for CpuCols {
    /// The row of zeros.
    fn default() -> (cols: CpuCols)
        ensures
            cols@.pc == 0,
            cols@.fp == 0,
            cols@.opcode_flags == seq![0nat, 0, 0, 0, 0, 0, 0, 0],
            cols@.mem_channels == seq![Channel::unused(), Channel::unused(), Channel::unused()],
            cols@.chip_opcode == 0,
    {
        let channel = MemoryChannelCols::default();
        let cols = CpuCols {
            pc: Fp::zero(),
            fp: Fp::zero(),
            opcode_flags: OpcodeFlagCols::default(),
            mem_channels: [channel, channel, channel],
            chip_channel: ChipChannelCols { opcode: Fp::zero() },
        };
        assert(cols@.mem_channels =~= seq![
            Channel::unused(),
            Channel::unused(),
            Channel::unused(),
        ]);
        cols
    }
}

impl CpuCols {
    /// The flat row: every named value written to the column that the
    /// layout gives it.
    pub fn to_row(&self) -> (row: [Fp; NUM_CPU_COLS])
        ensures
            values(row@) == self@.flat(),
    {
        let mut row = [Fp::zero();NUM_CPU_COLS];
        row[PC_COL] = self.pc;
        row[FP_COL] = self.fp;
        row[IS_LOAD32_COL] = self.opcode_flags.is_load32;
        row[IS_STORE32_COL] = self.opcode_flags.is_store32;
        row[IS_JAL_COL] = self.opcode_flags.is_jal;
        row[IS_JALV_COL] = self.opcode_flags.is_jalv;
        row[IS_BEQ_COL] = self.opcode_flags.is_beq;
        row[IS_BNE_COL] = self.opcode_flags.is_bne;
        row[IS_IMM32_COL] = self.opcode_flags.is_imm32;
        row[IS_BUS_OP_COL] = self.opcode_flags.is_bus_op;
        let mut k: usize = 0;
        while k < CPU_MEMORY_CHANNELS
            invariant
                k <= CPU_MEMORY_CHANNELS,
                row@[0] == self.pc,
                row@[1] == self.fp,
                row@[2] == self.opcode_flags.is_load32,
                row@[3] == self.opcode_flags.is_store32,
                row@[4] == self.opcode_flags.is_jal,
                row@[5] == self.opcode_flags.is_jalv,
                row@[6] == self.opcode_flags.is_beq,
                row@[7] == self.opcode_flags.is_bne,
                row@[8] == self.opcode_flags.is_imm32,
                row@[9] == self.opcode_flags.is_bus_op,
                k > 0 ==> holds_channel(row@, 10, self.mem_channels@[0]@),
                k > 1 ==> holds_channel(row@, 16, self.mem_channels@[1]@),
                k > 2 ==> holds_channel(row@, 22, self.mem_channels@[2]@),
            decreases CPU_MEMORY_CHANNELS - k,
        {
            let channel = self.mem_channels[k];
            let base = MEM_CHANNELS_COL + k * MEM_CHANNEL_WIDTH;
            row[base + MEM_USED_OFFSET] = channel.used;
            row[base + MEM_ADDR_OFFSET] = channel.addr;
            row[base + MEM_VALUE_OFFSET] = channel.value.0[0];
            row[base + MEM_VALUE_OFFSET + 1] = channel.value.0[1];
            row[base + MEM_VALUE_OFFSET + 2] = channel.value.0[2];
            row[base + MEM_VALUE_OFFSET + 3] = channel.value.0[3];
            k += 1;
        }
        row[CHIP_CHANNEL_OPCODE_COL] = self.chip_channel.opcode;
        proof {
            let flat = self@.flat();
            assert(self@.opcode_flags.len() == 8);
            assert(self@.mem_channels[0].flat().len() == 6);
            assert(self@.mem_channels[1].flat().len() == 6);
            assert(self@.mem_channels[2].flat().len() == 6);
            assert(flat.len() == 29);
            assert forall|j: int| 0 <= j < 29 implies values(row@)[j] == flat[j] by {
                if j < 2 {
                } else if j < 10 {
                    assert(flat[j] == self@.opcode_flags[j - 2]);
                } else if j < 16 {
                    assert(flat[j] == self@.mem_channels[0].flat()[j - 10]);
                } else if j < 22 {
                    assert(flat[j] == self@.mem_channels[1].flat()[j - 16]);
                } else if j < 28 {
                    assert(flat[j] == self@.mem_channels[2].flat()[j - 22]);
                } else {
                }
            }
            assert(values(row@) =~= flat);
        }
        row
    }
}

} // verus!
