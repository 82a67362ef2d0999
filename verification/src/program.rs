//! Program storage: instruction words and the read-only memory that holds them.

use crate::field::{lemma_neg_mod_of_reduced, reduce, Fp};
use vstd::prelude::*;

verus! {

/// The number of operands of an instruction.
pub const OPERAND_ELEMENTS: usize = 5;

/// The number of field elements of an instruction: the opcode and its operands.
pub const INSTRUCTION_ELEMENTS: usize = 6;

/// The five operands `(a, b, c, d, e)` of an instruction.
///
/// What each stands for depends on the opcode; for the branches, `e` tells
/// whether `c` is an immediate value.
#[derive(Copy, Clone)]
pub struct Operands<F>([F; OPERAND_ELEMENTS]);

impl<F> Operands<F> {
    /// The operand in the given slot, counted from zero.
    pub closed spec fn slot(&self, i: int) -> F {
        self.0[i]
    }
}

impl View for Operands<Fp> {
    type V = Seq<nat>;

    /// The five operands as canonical representatives.
    open spec fn view(&self) -> Seq<nat> {
        Seq::new(OPERAND_ELEMENTS as nat, |i: int| self.slot(i)@)
    }
}

impl Default for Operands<Fp> {
    /// Five zero operands.
    fn default() -> (operands: Operands<Fp>)
        ensures
            operands@ == seq![0nat, 0, 0, 0, 0],
    {
        let operands = Operands([Fp::zero();OPERAND_ELEMENTS]);
        assert(operands@ =~= seq![0nat, 0, 0, 0, 0]);
        operands
    }
}

impl<F: Copy> Operands<F> {
    /// The first operand.
    pub fn a(&self) -> (r: F)
        ensures
            r == self.slot(0),
    {
        self.0[0]
    }

    /// The second operand.
    pub fn b(&self) -> (r: F)
        ensures
            r == self.slot(1),
    {
        self.0[1]
    }

    /// The third operand.
    pub fn c(&self) -> (r: F)
        ensures
            r == self.slot(2),
    {
        self.0[2]
    }

    /// The fourth operand.
    pub fn d(&self) -> (r: F)
        ensures
            r == self.slot(3),
    {
        self.0[3]
    }

    /// The fifth operand.
    pub fn e(&self) -> (r: F)
        ensures
            r == self.slot(4),
    {
        self.0[4]
    }

    /// The last operand, read as the flag that marks `c` as an immediate value.
    pub fn is_imm(&self) -> (r: F)
        ensures
            r == self.slot(4),
    {
        self.0[4]
    }
}

impl Operands<Fp> {
    /// The operands that the given integers stand for, each taken modulo
    /// the order of the field; slots beyond the slice hold zero.
    ///
    /// The slice holds at most [`OPERAND_ELEMENTS`] integers.
    pub fn from_i32_slice(slice: &[i32]) -> (operands: Operands<Fp>)
        requires
            slice@.len() <= OPERAND_ELEMENTS,
        ensures
            forall|i: int|
                0 <= i < OPERAND_ELEMENTS ==> #[trigger] operands@[i] == if i < slice@.len() {
                    reduce(slice@[i] as int)
                } else {
                    0
                },
    {
        let mut operands = [Fp::zero();OPERAND_ELEMENTS];
        let mut i: usize = 0;
        while i < slice.len()
            invariant
                i <= slice@.len() <= OPERAND_ELEMENTS,
                forall|k: int|
                    0 <= k < OPERAND_ELEMENTS ==> (#[trigger] operands@[k])@ == if k < i {
                        reduce(slice@[k] as int)
                    } else {
                        0
                    },
            decreases slice.len() - i,
        {
            let operand = slice[i];
            let magnitude: u32 = if operand < 0 {
                (-(operand as i64)) as u32
            } else {
                operand as u32
            };
            let abs = Fp::new(magnitude);
            let element = if operand < 0 {
                proof {
                    lemma_neg_mod_of_reduced(magnitude as nat);
                }
                abs.neg()
            } else {
                abs
            };
            operands[i] = element;
            i += 1;
        }
        Operands(operands)
    }
}

/// One instruction: an opcode and its operands.
pub struct InstructionWord<F> {
    /// The number that selects the instruction.
    pub opcode: u32,
    pub operands: Operands<F>,
}

/// The program: instructions addressed from zero by the program counter.
pub struct ProgramROM<F>(Vec<InstructionWord<F>>);

impl<F> View for ProgramROM<F> {
    type V = Seq<InstructionWord<F>>;

    closed spec fn view(&self) -> Seq<InstructionWord<F>> {
        self.0@
    }
}

impl<F> ProgramROM<F> {
    /// The program of the given instructions, in order.
    pub fn new(instructions: Vec<InstructionWord<F>>) -> (rom: Self)
        ensures
            rom@ == instructions@,
    {
        Self(instructions)
    }
}

impl ProgramROM<Fp> {
    /// The instruction that the program counter addresses.
    ///
    /// A program counter outside the program has no instruction: callers rule
    /// it out, or ask [`ProgramROM::try_get_instruction`].
    pub fn get_instruction(&self, pc: Fp) -> (instruction: &InstructionWord<Fp>)
        requires
            pc@ < self@.len(),
        ensures
            *instruction == self@[pc@ as int],
    {
        &self.0[pc.as_canonical_u64() as usize]
    }

    /// The instruction that the program counter addresses, or `None` when the
    /// counter lies outside the program.
    pub fn try_get_instruction(&self, pc: Fp) -> (instruction: Option<&InstructionWord<Fp>>)
        ensures
            pc@ < self@.len() ==> instruction == Some(&self@[pc@ as int]),
            pc@ >= self@.len() ==> instruction is None,
    {
        if (pc.as_canonical_u64() as usize) < self.0.len() {
            Some(self.get_instruction(pc))
        } else {
            None
        }
    }
}

} // verus!
