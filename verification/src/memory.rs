//! Word-addressed memory that keeps, for every clock cycle, the ordered log
//! of the reads and writes made in it.

use crate::field::Fp;
use crate::word::Word;
use std::collections::BTreeMap;
use vstd::prelude::*;

verus! {

broadcast use vstd::std_specs::btree::group_btree_axioms;

/// One logged access: the address and the word read or written.
#[derive(Copy, Clone, Debug)]
pub enum MemoryOperation {
    Read(Fp, Word<Fp>),
    Write(Fp, Word<Fp>),
}

/// A logged access as plain values: the address and the four limbs.
pub enum Access {
    Read { addr: nat, value: Seq<nat> },
    Write { addr: nat, value: Seq<nat> },
}

impl View for MemoryOperation {
    type V = Access;

    open spec fn view(&self) -> Access {
        match *self {
            MemoryOperation::Read(addr, value) => Access::Read { addr: addr@, value: value@ },
            MemoryOperation::Write(addr, value) => Access::Write { addr: addr@, value: value@ },
        }
    }
}

/// The accesses of a log as plain values, in order.
pub open spec fn accesses(ops: Seq<MemoryOperation>) -> Seq<Access> {
    ops.map_values(|op: MemoryOperation| op@)
}

/// The limbs of a cell that was never written.
pub open spec fn zero_word() -> Seq<nat> {
    seq![0, 0, 0, 0]
}

/// Memory as plain values: the written cells by address, and the log by clock.
///
/// An address that is no key holds the zero word; a clock that is no key has
/// an empty log.
#[verifier::ext_equal]
pub struct MemoryState {
    pub cells: Map<nat, Seq<nat>>,
    pub log: Map<nat, Seq<Access>>,
}

impl MemoryState {
    /// The memory in which no cell was written and nothing is logged.
    pub open spec fn empty() -> MemoryState {
        MemoryState { cells: Map::empty(), log: Map::empty() }
    }

    /// The limbs of the word at an address.
    pub open spec fn value_at(self, addr: nat) -> Seq<nat> {
        if self.cells.contains_key(addr) {
            self.cells[addr]
        } else {
            zero_word()
        }
    }

    /// The accesses logged for a clock cycle, in call order.
    pub open spec fn log_at(self, clk: nat) -> Seq<Access> {
        if self.log.contains_key(clk) {
            self.log[clk]
        } else {
            Seq::empty()
        }
    }

    /// The memory after one more access is logged for a clock cycle.
    pub open spec fn record(self, clk: nat, access: Access) -> MemoryState {
        MemoryState { cells: self.cells, log: self.log.insert(clk, self.log_at(clk).push(access)) }
    }

    /// The memory after a read: unchanged but for the log, which grows by the
    /// read when it is real.
    pub open spec fn read(self, clk: nat, addr: nat, is_real: bool) -> MemoryState {
        if is_real {
            self.record(clk, Access::Read { addr, value: self.value_at(addr) })
        } else {
            self
        }
    }

    /// The memory after a write: the cell holds the value, and the log grows
    /// by the write when it is real.
    pub open spec fn write(self, clk: nat, addr: nat, value: Seq<nat>, is_real: bool) -> MemoryState {
        let logged = if is_real {
            self.record(clk, Access::Write { addr, value })
        } else {
            self
        };
        MemoryState { cells: logged.cells.insert(addr, value), log: logged.log }
    }
}

/// The memory of the machine.
pub struct MemoryChip {
    cells: BTreeMap<u32, Word<Fp>>,
    operations: BTreeMap<u32, Vec<MemoryOperation>>,
}

impl View for MemoryChip {
    type V = MemoryState;

    closed spec fn view(&self) -> MemoryState {
        MemoryState {
            cells: Map::new(
                |a: nat| a <= u32::MAX && self.cells@.contains_key(a as u32),
                |a: nat| self.cells@[a as u32]@,
            ),
            log: Map::new(
                |c: nat| c <= u32::MAX && self.operations@.contains_key(c as u32),
                |c: nat| accesses(self.operations@[c as u32]@),
            ),
        }
    }
}

impl MemoryChip {
    /// A memory in which every cell holds the zero word and nothing is logged.
    pub fn new() -> (mem: MemoryChip)
        ensures
            mem@ == MemoryState::empty(),
    {
        let mem = MemoryChip { cells: BTreeMap::new(), operations: BTreeMap::new() };
        assert(mem@.cells =~= Map::<nat, Seq<nat>>::empty());
        assert(mem@.log =~= Map::<nat, Seq<Access>>::empty());
        mem
    }

    /// Appends an access to the log of a clock cycle.
    fn record(&mut self, clk: Fp, op: MemoryOperation)
        ensures
            final(self)@ == old(self)@.record(clk@, op@),
    {
        let key = clk.as_canonical_u32();
        let mut ops = match self.operations.remove(&key) {
            Some(ops) => ops,
            None => Vec::new(),
        };
        let ghost before = ops@;
        assert(accesses(before) =~= old(self)@.log_at(clk@));
        ops.push(op);
        assert(accesses(ops@) =~= accesses(before).push(op@));
        self.operations.insert(key, ops);
        assert(self@.log =~= old(self)@.record(clk@, op@).log);
        assert(self@.cells =~= old(self)@.cells);
    }

    /// The word at an address; the zero word if the cell was never written.
    /// A real read is appended to the log of the clock cycle.
    pub fn read(&mut self, clk: Fp, address: Fp, is_real: bool) -> (value: Word<Fp>)
        ensures
            value@ == old(self)@.value_at(address@),
            final(self)@ == old(self)@.read(clk@, address@, is_real),
    {
        let key = address.as_canonical_u32();
        let value = match self.cells.get(&key) {
            Some(word) => *word,
            None => Word([Fp::zero(), Fp::zero(), Fp::zero(), Fp::zero()]),
        };
        assert(value@ =~= old(self)@.value_at(address@));
        if is_real {
            self.record(clk, MemoryOperation::Read(address, value));
        }
        value
    }

    /// Stores a word at an address. A real write is appended to the log of
    /// the clock cycle.
    pub fn write(&mut self, clk: Fp, address: Fp, value: Word<Fp>, is_real: bool)
        ensures
            final(self)@ == old(self)@.write(clk@, address@, value@, is_real),
    {
        if is_real {
            self.record(clk, MemoryOperation::Write(address, value));
        }
        let ghost logged = self@;
        self.cells.insert(address.as_canonical_u32(), value);
        assert(self@.cells =~= logged.cells.insert(address@, value@));
        assert(self@.log =~= logged.log);
    }

    /// The accesses logged for a clock cycle, in call order; `None` stands
    /// for an empty log.
    pub fn operations_at(&self, clk: Fp) -> (ops: Option<&Vec<MemoryOperation>>)
        ensures
            match ops {
                Some(ops) => accesses(ops@) == self@.log_at(clk@),
                None => self@.log_at(clk@) == Seq::<Access>::empty(),
            },
    {
        let key = clk.as_canonical_u32();
        self.operations.get(&key)
    }
}

impl Default for MemoryChip {
    /// The empty memory.
    fn default() -> (mem: MemoryChip)
        ensures
            mem@ == MemoryState::empty(),
    {
        MemoryChip::new()
    }
}

} // verus!
