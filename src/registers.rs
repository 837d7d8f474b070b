use vstd::prelude::*;
use std::collections::HashMap;
use crate::cell::{CellModel, HeapCell};

verus! {

broadcast use vstd::std_specs::hash::group_hash_axioms;

/// A sparse file of registers, each holding at most one cell.
pub struct Registers {
    registers: HashMap<usize, HeapCell>,
}

impl View for Registers {
    type V = Map<usize, CellModel>;

    /// The written registers, each with the content of its cell.
    closed spec fn view(&self) -> Map<usize, CellModel> {
        Map::new(|k: usize| self.registers@.contains_key(k), |k: usize| self.registers@[k]@)
    }
}

impl Registers {
    /// An empty register file.
    pub fn new() -> (r: Registers)
        ensures
            r@ == Map::<usize, CellModel>::empty(),
    {
        let r = Registers { registers: HashMap::new() };
        assert(r@ =~= Map::<usize, CellModel>::empty());
        r
    }

    /// Overwrites register `index` with `value`.
    pub fn set(&mut self, index: usize, value: HeapCell)
        ensures
            final(self)@ == old(self)@.insert(index, value@),
    {
        let ghost v = value@;
        self.registers.insert(index, value);
        assert(self@ =~= old(self)@.insert(index, v));
    }

    /// The cell in register `index`, if it was ever written.
    pub fn get(&self, index: usize) -> (r: Option<&HeapCell>)
        ensures
            r is Some <==> self@.contains_key(index),
            r matches Some(c) ==> c@ == self@[index],
    {
        self.registers.get(&index)
    }
}

/// Writing `v` into register `index` and then reading that register gives back
/// a cell with the content of `v`: `after` is the register file that `set`
/// leaves, and `get` on it returns `Some` of `after@[index]`.
pub proof fn lemma_set_then_get(before: Registers, after: Registers, index: usize, v: HeapCell)
    requires
        after@ == before@.insert(index, v@),
    ensures
        after@.contains_key(index),
        after@[index] == v@,
{
}

} // verus!
