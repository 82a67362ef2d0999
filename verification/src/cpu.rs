//! The CPU chip: its registers, its clock, and the history of what it executed.

use crate::field::{add_mod, Fp, ORDER};
use crate::memory::{MemoryChip, MemoryState};
use vstd::arithmetic::div_mod::{lemma_add_mod_noop, lemma_small_mod};
use vstd::prelude::*;

verus! {

/// What a cycle executed: one of the seven instructions of the CPU, or an
/// instruction delegated over the bus to the chip that answers to the opcode.
#[derive(Copy, Clone, Debug, PartialEq, Eq, Structural)]
pub enum Operation {
    Store32,
    Load32,
    Jal,
    Jalv,
    Beq,
    Bne,
    Imm32,
    Bus(u32),
}

/// The program counter and the frame pointer at the end of a cycle.
#[derive(Copy, Clone, Debug)]
pub struct Registers {
    pub pc: Fp,
    pub fp: Fp,
}

impl View for Registers {
    type V = (nat, nat);

    /// The program counter, then the frame pointer.
    open spec fn view(&self) -> (nat, nat) {
        (self.pc@, self.fp@)
    }
}

impl Default for Registers {
    fn default() -> (r: Registers)
        ensures
            r@ == (0nat, 0nat),
    {
        Registers { pc: Fp::zero(), fp: Fp::zero() }
    }
}

/// The CPU as plain values.
#[verifier::ext_equal]
pub struct CpuState {
    pub clock: nat,
    pub pc: nat,
    pub fp: nat,
    /// The registers at the end of each executed cycle.
    pub registers: Seq<(nat, nat)>,
    /// What each executed cycle did.
    pub operations: Seq<Operation>,
}

impl CpuState {
    /// The CPU before the first cycle.
    pub open spec fn initial() -> CpuState {
        CpuState { clock: 0, pc: 0, fp: 0, registers: Seq::empty(), operations: Seq::empty() }
    }

    /// The CPU at the end of a cycle that leaves the given registers: the
    /// clock has advanced by one, and the histories have grown by the
    /// operation and by the new registers.
    pub open spec fn finish_cycle(self, pc: nat, fp: nat, op: Operation) -> CpuState {
        CpuState {
            clock: add_mod(self.clock, 1),
            pc,
            fp,
            registers: self.registers.push((pc, fp)),
            operations: self.operations.push(op),
        }
    }

    /// The histories are as long as the number of cycles the clock counts.
    pub open spec fn consistent(self) -> bool {
        &&& self.registers.len() == self.operations.len()
        &&& self.clock == self.operations.len() % (ORDER as nat)
    }
}

/// Whether `post` is the CPU one executed cycle after `pre`: the registers
/// are whatever the cycle left, the clock has advanced by one, and the
/// histories have grown by one entry each.
pub open spec fn one_cycle_later(pre: CpuState, post: CpuState) -> bool {
    exists|pc: nat, fp: nat, op: Operation| post == #[trigger] pre.finish_cycle(pc, fp, op)
}

/// A cycle keeps the histories and the clock consistent.
pub proof fn lemma_cycle_keeps_consistency(pre: CpuState, post: CpuState)
    requires
        pre.consistent(),
        one_cycle_later(pre, post),
    ensures
        post.consistent(),
        post.operations.len() == pre.operations.len() + 1,
        post.registers.len() == pre.registers.len() + 1,
{
    lemma_add_mod_noop(pre.operations.len() as int, 1, ORDER as int);
    lemma_small_mod(1, ORDER as nat);
}

/// After any run of cycles from the initial state, the register history
/// and the operation history are as long as the number of cycles, and the
/// clock holds that number as a field element: the number itself as long
/// as it is below the order of the field.
pub proof fn lemma_histories_count_cycles(run: Seq<CpuState>, cycles: int)
    requires
        0 <= cycles < run.len(),
        run[0] == CpuState::initial(),
        forall|i: int| 0 <= i < run.len() - 1 ==> one_cycle_later(#[trigger] run[i], run[i + 1]),
    ensures
        run[cycles].registers.len() == cycles,
        run[cycles].operations.len() == cycles,
        run[cycles].clock == cycles % (ORDER as int),
        cycles < ORDER ==> run[cycles].clock == cycles,
        run[cycles].consistent(),
    decreases cycles,
{
    if cycles == 0 {
        lemma_small_mod(0, ORDER as nat);
    } else {
        lemma_histories_count_cycles(run, cycles - 1);
        let pre = run[cycles - 1];
        assert(one_cycle_later(pre, run[cycles - 1 + 1]));
        lemma_cycle_keeps_consistency(pre, run[cycles]);
        if cycles < ORDER {
            lemma_small_mod(cycles as nat, ORDER as nat);
        }
    }
}

/// The state of the CPU: the clock, the registers, and one history entry per
/// executed cycle for the registers and for the operation.
pub struct CpuChip {
    pub clock: Fp,
    pub pc: Fp,
    pub fp: Fp,
    pub registers: Vec<Registers>,
    pub operations: Vec<Operation>,
}

impl View for CpuChip {
    type V = CpuState;

    open spec fn view(&self) -> CpuState {
        CpuState {
            clock: self.clock@,
            pc: self.pc@,
            fp: self.fp@,
            registers: self.registers@.map_values(|r: Registers| r@),
            operations: self.operations@,
        }
    }
}

impl Default for CpuChip {
    fn default() -> (cpu: CpuChip)
        ensures
            cpu@ == CpuState::initial(),
    {
        let cpu = CpuChip {
            clock: Fp::zero(),
            pc: Fp::zero(),
            fp: Fp::zero(),
            registers: Vec::new(),
            operations: Vec::new(),
        };
        assert(cpu@.registers =~= Seq::empty());
        cpu
    }
}

/// The CPU and the memory of a machine, as plain values.
#[verifier::ext_equal]
pub struct MachineState {
    pub cpu: CpuState,
    pub mem: MemoryState,
}

/// A machine that has a CPU chip and a memory chip.
///
/// Borrowing one chip mutably leaves the other as it was.
pub trait MachineWithCpuChip {
    /// The CPU chip of the machine.
    spec fn spec_cpu(&self) -> CpuChip;

    /// The memory chip of the machine.
    spec fn spec_mem(&self) -> MemoryChip;

    fn cpu(&self) -> (cpu: &CpuChip)
        ensures
            *cpu == self.spec_cpu(),
    ;

    fn cpu_mut(&mut self) -> (cpu: &mut CpuChip)
        ensures
            *cpu == old(self).spec_cpu(),
            final(self).spec_cpu() == *final(cpu),
            final(self).spec_mem() == old(self).spec_mem(),
    ;

    fn mem(&self) -> (mem: &MemoryChip)
        ensures
            *mem == self.spec_mem(),
    ;

    fn mem_mut(&mut self) -> (mem: &mut MemoryChip)
        ensures
            *mem == old(self).spec_mem(),
            final(self).spec_mem() == *final(mem),
            final(self).spec_cpu() == old(self).spec_cpu(),
    ;
}

/// The CPU and the memory of a machine, as plain values.
pub open spec fn machine_state<M: MachineWithCpuChip>(machine: &M) -> MachineState {
    MachineState { cpu: machine.spec_cpu()@, mem: machine.spec_mem()@ }
}

/// The machine that is a CPU chip and a memory chip, and nothing else.
pub struct BasicMachine {
    pub cpu: CpuChip,
    pub mem: MemoryChip,
}

impl BasicMachine {
    /// The machine before the first cycle, with an empty memory.
    pub fn new() -> (machine: BasicMachine)
        ensures
            machine.cpu@ == CpuState::initial(),
            machine.mem@ == MemoryState::empty(),
    {
        BasicMachine { cpu: CpuChip::default(), mem: MemoryChip::new() }
    }
}

impl MachineWithCpuChip for BasicMachine {
    open spec fn spec_cpu(&self) -> CpuChip {
        self.cpu
    }

    open spec fn spec_mem(&self) -> MemoryChip {
        self.mem
    }

    fn cpu(&self) -> (cpu: &CpuChip) {
        &self.cpu
    }

    fn cpu_mut(&mut self) -> (cpu: &mut CpuChip) {
        &mut self.cpu
    }

    fn mem(&self) -> (mem: &MemoryChip) {
        &self.mem
    }

    fn mem_mut(&mut self) -> (mem: &mut MemoryChip) {
        &mut self.mem
    }
}

} // verus!
