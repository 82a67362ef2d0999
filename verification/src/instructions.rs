//! The seven instructions of the CPU, each a transition of the machine state.
//!
//! Every instruction takes one cycle: after its memory accesses and its
//! register update it advances the clock by one and appends to the histories
//! the operation and the registers that it leaves.

use crate::cpu::{
    machine_state, one_cycle_later, MachineState, MachineWithCpuChip, Operation, Registers,
};
use crate::field::{add_mod, Fp};
use crate::program::Operands;
use crate::word::{compose, single_limb, Word};
use vstd::prelude::*;

verus! {

/// The machine after `Load32`.
///
/// The word at `fp + c` is read and composed into an address; the word at
/// that address is read and written to `fp + a`. The program counter moves
/// by one.
pub open spec fn load32(s: MachineState, ops: Seq<nat>) -> MachineState {
    let clk = s.cpu.clock;
    let pointer_addr = add_mod(s.cpu.fp, ops[2]);
    let source_addr = compose(s.mem.value_at(pointer_addr));
    let target_addr = add_mod(s.cpu.fp, ops[0]);
    let value = s.mem.value_at(source_addr);
    let mem = s.mem.read(clk, pointer_addr, true).read(clk, source_addr, true).write(
        clk,
        target_addr,
        value,
        true,
    );
    MachineState { cpu: s.cpu.finish_cycle(add_mod(s.cpu.pc, 1), s.cpu.fp, Operation::Load32), mem }
}

/// The machine after `Store32`.
///
/// The word at `fp + c` is read and written to `fp + b`. The program counter
/// moves by one.
pub open spec fn store32(s: MachineState, ops: Seq<nat>) -> MachineState {
    let clk = s.cpu.clock;
    let source_addr = add_mod(s.cpu.fp, ops[2]);
    let target_addr = add_mod(s.cpu.fp, ops[1]);
    let value = s.mem.value_at(source_addr);
    let mem = s.mem.read(clk, source_addr, true).write(clk, target_addr, value, true);
    MachineState {
        cpu: s.cpu.finish_cycle(add_mod(s.cpu.pc, 1), s.cpu.fp, Operation::Store32),
        mem,
    }
}

/// The machine after `Jal`.
///
/// The program counter plus one is written to `fp + a` as a word of one limb.
/// The program counter becomes `b`, and the frame pointer moves by `c`.
pub open spec fn jal(s: MachineState, ops: Seq<nat>) -> MachineState {
    let clk = s.cpu.clock;
    let link = single_limb(add_mod(s.cpu.pc, 1));
    let mem = s.mem.write(clk, add_mod(s.cpu.fp, ops[0]), link, true);
    MachineState {
        cpu: s.cpu.finish_cycle(ops[1], add_mod(s.cpu.fp, ops[2]), Operation::Jal),
        mem,
    }
}

/// The machine after `Jalv`.
///
/// The program counter plus one is written to `fp + a` as a word of one limb.
/// Then the word at `fp + b` is read and composed into the new program
/// counter, and the word at `fp + c` into the new frame pointer; both
/// addresses go by the frame pointer before the instruction.
pub open spec fn jalv(s: MachineState, ops: Seq<nat>) -> MachineState {
    let clk = s.cpu.clock;
    let link = single_limb(add_mod(s.cpu.pc, 1));
    let linked = s.mem.write(clk, add_mod(s.cpu.fp, ops[0]), link, true);
    let pc_addr = add_mod(s.cpu.fp, ops[1]);
    let fp_addr = add_mod(s.cpu.fp, ops[2]);
    let pc = compose(linked.value_at(pc_addr));
    let fp = compose(linked.value_at(fp_addr));
    let mem = linked.read(clk, pc_addr, true).read(clk, fp_addr, true);
    MachineState { cpu: s.cpu.finish_cycle(pc, fp, Operation::Jalv), mem }
}

/// The machine after `Imm32`.
///
/// The word of the limbs `(b, c, d, e)` is written to `fp + a`. The program
/// counter moves by one.
pub open spec fn imm32(s: MachineState, ops: Seq<nat>) -> MachineState {
    let clk = s.cpu.clock;
    let value = seq![ops[1], ops[2], ops[3], ops[4]];
    let mem = s.mem.write(clk, add_mod(s.cpu.fp, ops[0]), value, true);
    MachineState { cpu: s.cpu.finish_cycle(add_mod(s.cpu.pc, 1), s.cpu.fp, Operation::Imm32), mem }
}

/// The machine after a conditional branch.
///
/// The first value is the word at `fp + b`; the second is the operand `c`
/// itself when the flag `e` is one, else the word at `fp + c`. Each word that
/// is read from memory is logged. When the equality of the two values is
/// `on_equal` the program counter moves by `a`, else by one.
pub open spec fn branch(s: MachineState, ops: Seq<nat>, on_equal: bool) -> MachineState {
    let clk = s.cpu.clock;
    let first_addr = add_mod(s.cpu.fp, ops[1]);
    let second_addr = add_mod(s.cpu.fp, ops[2]);
    let immediate = ops[4] == 1;
    let first = s.mem.value_at(first_addr);
    let second = if immediate {
        single_limb(ops[2])
    } else {
        s.mem.value_at(second_addr)
    };
    let mem = if immediate {
        s.mem.read(clk, first_addr, true)
    } else {
        s.mem.read(clk, first_addr, true).read(clk, second_addr, true)
    };
    let pc = if (first == second) == on_equal {
        add_mod(s.cpu.pc, ops[0])
    } else {
        add_mod(s.cpu.pc, 1)
    };
    let op = if on_equal {
        Operation::Beq
    } else {
        Operation::Bne
    };
    MachineState { cpu: s.cpu.finish_cycle(pc, s.cpu.fp, op), mem }
}

/// The machine after `Beq`: see [`branch`].
pub open spec fn beq(s: MachineState, ops: Seq<nat>) -> MachineState {
    branch(s, ops, true)
}

/// The machine after `Bne`: see [`branch`].
pub open spec fn bne(s: MachineState, ops: Seq<nat>) -> MachineState {
    branch(s, ops, false)
}

/// Each of the seven instructions takes exactly one cycle of the CPU.
pub proof fn lemma_instructions_take_one_cycle(s: MachineState, ops: Seq<nat>)
    ensures
        one_cycle_later(s.cpu, load32(s, ops).cpu),
        one_cycle_later(s.cpu, store32(s, ops).cpu),
        one_cycle_later(s.cpu, jal(s, ops).cpu),
        one_cycle_later(s.cpu, jalv(s, ops).cpu),
        one_cycle_later(s.cpu, beq(s, ops).cpu),
        one_cycle_later(s.cpu, bne(s, ops).cpu),
        one_cycle_later(s.cpu, imm32(s, ops).cpu),
{
    let next = add_mod(s.cpu.pc, 1);
    assert(load32(s, ops).cpu == s.cpu.finish_cycle(next, s.cpu.fp, Operation::Load32));
    assert(store32(s, ops).cpu == s.cpu.finish_cycle(next, s.cpu.fp, Operation::Store32));
    assert(jal(s, ops).cpu == s.cpu.finish_cycle(
        ops[1],
        add_mod(s.cpu.fp, ops[2]),
        Operation::Jal,
    ));
    let after_jalv = jalv(s, ops).cpu;
    assert(after_jalv == s.cpu.finish_cycle(after_jalv.pc, after_jalv.fp, Operation::Jalv));
    let after_beq = beq(s, ops).cpu;
    assert(after_beq == s.cpu.finish_cycle(after_beq.pc, s.cpu.fp, Operation::Beq));
    let after_bne = bne(s, ops).cpu;
    assert(after_bne == s.cpu.finish_cycle(after_bne.pc, s.cpu.fp, Operation::Bne));
    assert(imm32(s, ops).cpu == s.cpu.finish_cycle(next, s.cpu.fp, Operation::Imm32));
}

/// Appends the current registers to the history of the CPU.
fn set_pc_and_fp<M: MachineWithCpuChip>(state: &mut M)
    ensures
        final(state).spec_mem() == old(state).spec_mem(),
        final(state).spec_cpu()@.clock == old(state).spec_cpu()@.clock,
        final(state).spec_cpu()@.pc == old(state).spec_cpu()@.pc,
        final(state).spec_cpu()@.fp == old(state).spec_cpu()@.fp,
        final(state).spec_cpu()@.operations == old(state).spec_cpu()@.operations,
        final(state).spec_cpu()@.registers == old(state).spec_cpu()@.registers.push(
            (old(state).spec_cpu()@.pc, old(state).spec_cpu()@.fp),
        ),
{
    let registers = Registers { pc: state.cpu().pc, fp: state.cpu().fp };
    let ghost before = state.spec_cpu();
    state.cpu_mut().registers.push(registers);
    assert(state.spec_cpu()@.registers =~= before@.registers.push(registers@));
}

/// Loads through a pointer: the word at the address held at `fp + c` goes to `fp + a`.
pub struct Load32Instruction;

impl Load32Instruction {
    /// The opcode of the instruction.
    pub const OPCODE: u32 = 1;

    /// Executes the instruction on the machine, in one cycle: see [`load32`].
    pub fn execute<M: MachineWithCpuChip>(state: &mut M, ops: Operands<Fp>)
        ensures
            machine_state(final(state)) == load32(machine_state(old(state)), ops@),
    {
        let clk = state.cpu().clock;
        let read_addr_1 = state.cpu().fp.add(ops.c());
        let read_addr_2 = Fp::from(state.mem_mut().read(clk, read_addr_1, true));
        let write_addr = state.cpu().fp.add(ops.a());
        let cell = state.mem_mut().read(clk, read_addr_2, true);
        state.mem_mut().write(clk, write_addr, cell, true);
        let pc = state.cpu().pc;
        state.cpu_mut().pc = pc.add(Fp::one());
        let clock = state.cpu().clock;
        state.cpu_mut().clock = clock.add(Fp::one());
        state.cpu_mut().operations.push(Operation::Load32);
        set_pc_and_fp(state);
        assert(machine_state(state).cpu =~= load32(machine_state(old(state)), ops@).cpu);
    }
}

/// Copies the word at `fp + c` to `fp + b`.
pub struct Store32Instruction;

impl Store32Instruction {
    /// The opcode of the instruction.
    pub const OPCODE: u32 = 2;

    /// Executes the instruction on the machine, in one cycle: see [`store32`].
    pub fn execute<M: MachineWithCpuChip>(state: &mut M, ops: Operands<Fp>)
        ensures
            machine_state(final(state)) == store32(machine_state(old(state)), ops@),
    {
        let clk = state.cpu().clock;
        let read_addr = state.cpu().fp.add(ops.c());
        let write_addr = state.cpu().fp.add(ops.b());
        let cell = state.mem_mut().read(clk, read_addr, true);
        state.mem_mut().write(clk, write_addr, cell, true);
        let pc = state.cpu().pc;
        state.cpu_mut().pc = pc.add(Fp::one());
        let clock = state.cpu().clock;
        state.cpu_mut().clock = clock.add(Fp::one());
        state.cpu_mut().operations.push(Operation::Store32);
        set_pc_and_fp(state);
        assert(machine_state(state).cpu =~= store32(machine_state(old(state)), ops@).cpu);
    }
}

/// Jumps to `b`, moves the frame by `c` and leaves the return address at `fp + a`.
pub struct JalInstruction;

impl JalInstruction {
    /// The opcode of the instruction.
    pub const OPCODE: u32 = 3;

    /// Executes the instruction on the machine, in one cycle: see [`jal`].
    pub fn execute<M: MachineWithCpuChip>(state: &mut M, ops: Operands<Fp>)
        ensures
            machine_state(final(state)) == jal(machine_state(old(state)), ops@),
    {
        let clk = state.cpu().clock;
        // Store pc + 1 to the local stack variable at offset a.
        let write_addr = state.cpu().fp.add(ops.a());
        let next_pc = state.cpu().pc.add(Fp::one());
        state.mem_mut().write(clk, write_addr, Word::from(next_pc), true);
        // Set pc to the field element b.
        state.cpu_mut().pc = ops.b();
        // Set fp to fp + c.
        let fp = state.cpu().fp;
        state.cpu_mut().fp = fp.add(ops.c());
        let clock = state.cpu().clock;
        state.cpu_mut().clock = clock.add(Fp::one());
        state.cpu_mut().operations.push(Operation::Jal);
        set_pc_and_fp(state);
        assert(machine_state(state).cpu =~= jal(machine_state(old(state)), ops@).cpu);
    }
}

/// Jumps to the address held at `fp + b`, takes the frame pointer held at `fp + c` and
/// leaves the return address at `fp + a`.
pub struct JalvInstruction;

impl JalvInstruction {
    /// The opcode of the instruction.
    pub const OPCODE: u32 = 4;

    /// Executes the instruction on the machine, in one cycle: see [`jalv`].
    pub fn execute<M: MachineWithCpuChip>(state: &mut M, ops: Operands<Fp>)
        ensures
            machine_state(final(state)) == jalv(machine_state(old(state)), ops@),
    {
        let clk = state.cpu().clock;
        // Store pc + 1 to the local stack variable at offset a.
        let write_addr = state.cpu().fp.add(ops.a());
        let next_pc = state.cpu().pc.add(Fp::one());
        state.mem_mut().write(clk, write_addr, Word::from(next_pc), true);
        // Set pc to the field element [b].
        let read_addr = state.cpu().fp.add(ops.b());
        let pc = Fp::from(state.mem_mut().read(clk, read_addr, true));
        state.cpu_mut().pc = pc;
        // Set fp to [c].
        let read_addr = state.cpu().fp.add(ops.c());
        let fp = Fp::from(state.mem_mut().read(clk, read_addr, true));
        state.cpu_mut().fp = fp;
        let clock = state.cpu().clock;
        state.cpu_mut().clock = clock.add(Fp::one());
        state.cpu_mut().operations.push(Operation::Jalv);
        set_pc_and_fp(state);
        assert(machine_state(state).cpu =~= jalv(machine_state(old(state)), ops@).cpu);
    }
}

/// Branches by `a` when two values are equal.
pub struct BeqInstruction;

impl BeqInstruction {
    /// The opcode of the instruction.
    pub const OPCODE: u32 = 5;

    /// Executes the instruction on the machine, in one cycle: see [`beq`].
    pub fn execute<M: MachineWithCpuChip>(state: &mut M, ops: Operands<Fp>)
        ensures
            machine_state(final(state)) == beq(machine_state(old(state)), ops@),
    {
        let clk = state.cpu().clock;
        let read_addr_1 = state.cpu().fp.add(ops.b());
        let cell_1 = state.mem_mut().read(clk, read_addr_1, true);
        let one = Fp::one();
        proof {
            Fp::lemma_view_injective(ops.slot(4), one);
        }
        let cell_2 = if ops.is_imm() == one {
            Word::from(ops.c())
        } else {
            let read_addr_2 = state.cpu().fp.add(ops.c());
            state.mem_mut().read(clk, read_addr_2, true)
        };
        let pc = state.cpu().pc;
        if cell_1 == cell_2 {
            state.cpu_mut().pc = pc.add(ops.a());
        } else {
            state.cpu_mut().pc = pc.add(one);
        }
        let clock = state.cpu().clock;
        state.cpu_mut().clock = clock.add(one);
        state.cpu_mut().operations.push(Operation::Beq);
        set_pc_and_fp(state);
        assert(machine_state(state).cpu =~= beq(machine_state(old(state)), ops@).cpu);
    }
}

/// Branches by `a` when two values differ.
pub struct BneInstruction;

impl BneInstruction {
    /// The opcode of the instruction.
    pub const OPCODE: u32 = 6;

    /// Executes the instruction on the machine, in one cycle: see [`bne`].
    pub fn execute<M: MachineWithCpuChip>(state: &mut M, ops: Operands<Fp>)
        ensures
            machine_state(final(state)) == bne(machine_state(old(state)), ops@),
    {
        let clk = state.cpu().clock;
        let read_addr_1 = state.cpu().fp.add(ops.b());
        let cell_1 = state.mem_mut().read(clk, read_addr_1, true);
        let one = Fp::one();
        proof {
            Fp::lemma_view_injective(ops.slot(4), one);
        }
        let cell_2 = if ops.is_imm() == one {
            Word::from(ops.c())
        } else {
            let read_addr_2 = state.cpu().fp.add(ops.c());
            state.mem_mut().read(clk, read_addr_2, true)
        };
        let pc = state.cpu().pc;
        if cell_1 != cell_2 {
            state.cpu_mut().pc = pc.add(ops.a());
        } else {
            state.cpu_mut().pc = pc.add(one);
        }
        let clock = state.cpu().clock;
        state.cpu_mut().clock = clock.add(one);
        state.cpu_mut().operations.push(Operation::Bne);
        set_pc_and_fp(state);
        assert(machine_state(state).cpu =~= bne(machine_state(old(state)), ops@).cpu);
    }
}

/// Writes the word of the limbs `(b, c, d, e)` to `fp + a`.
pub struct Imm32Instruction;

impl Imm32Instruction {
    /// The opcode of the instruction.
    pub const OPCODE: u32 = 7;

    /// Executes the instruction on the machine, in one cycle: see [`imm32`].
    pub fn execute<M: MachineWithCpuChip>(state: &mut M, ops: Operands<Fp>)
        ensures
            machine_state(final(state)) == imm32(machine_state(old(state)), ops@),
    {
        let clk = state.cpu().clock;
        let write_addr = state.cpu().fp.add(ops.a());
        let value = Word::from([ops.b(), ops.c(), ops.d(), ops.e()]);
        assert(value@ =~= seq![ops@[1], ops@[2], ops@[3], ops@[4]]);
        state.mem_mut().write(clk, write_addr, value, true);
        let pc = state.cpu().pc;
        state.cpu_mut().pc = pc.add(Fp::one());
        let clock = state.cpu().clock;
        state.cpu_mut().clock = clock.add(Fp::one());
        state.cpu_mut().operations.push(Operation::Imm32);
        set_pc_and_fp(state);
        assert(machine_state(state).cpu =~= imm32(machine_state(old(state)), ops@).cpu);
    }
}

} // verus!
