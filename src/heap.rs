use vstd::prelude::*;
use crate::cell::{CellModel, HeapCell, HeapError};
use crate::registers::Registers;

verus! {

/// The cells that structure allocation appends when the heap's top is `base`:
/// the functor at `base`, the structure cell at `base + 1` pointing back at it,
/// then `arity` unbound variables, each referring to its own address.
pub open spec fn structure_block(name: Seq<char>, arity: nat, base: nat) -> Seq<CellModel> {
    seq![
        CellModel::Functor { name, arity },
        CellModel::Structure { functor_address: base },
    ] + Seq::new(arity, |j: int| CellModel::Variable { address: (base + 2 + j) as nat })
}

/// The heap after committing register `reg`: the register's cell appended on
/// top, or nothing when that register was never written.
pub open spec fn commit_model(
    heap: Seq<CellModel>,
    regs: Map<usize, CellModel>,
    reg: usize,
) -> Option<Seq<CellModel>> {
    if regs.contains_key(reg) {
        Some(heap.push(regs[reg]))
    } else {
        None
    }
}

/// The functor that the structure cell at `address` refers to, with the
/// failure that reading it meets otherwise.
pub open spec fn functor_model(heap: Seq<CellModel>, address: nat) -> Result<
    (Seq<char>, nat),
    HeapError,
> {
    if address >= heap.len() {
        Err(HeapError::OutOfRange)
    } else {
        match heap[address as int] {
            CellModel::Structure { functor_address } => {
                if functor_address >= heap.len() {
                    Err(HeapError::OutOfRange)
                } else {
                    match heap[functor_address as int] {
                        CellModel::Functor { name, arity } => Ok((name, arity)),
                        _ => Err(HeapError::TypeMismatch),
                    }
                }
            },
            _ => Err(HeapError::TypeMismatch),
        }
    }
}

/// An append-only heap of cells; a cell's index is its address.
pub struct Heap {
    cells: Vec<HeapCell>,
}

impl View for Heap {
    type V = Seq<CellModel>;

    /// The content of each cell, in address order.
    closed spec fn view(&self) -> Seq<CellModel> {
        self.cells@.map_values(|c: HeapCell| c@)
    }
}

impl Heap {
    /// An empty heap.
    pub fn new() -> (r: Heap)
        ensures
            r@ == Seq::<CellModel>::empty(),
    {
        let r = Heap { cells: Vec::new() };
        assert(r@ =~= Seq::<CellModel>::empty());
        r
    }

    /// Number of cells, which is also the address of the next cell appended.
    pub fn len(&self) -> (r: usize)
        ensures
            r == self@.len(),
    {
        self.cells.len()
    }

    fn push_cell(&mut self, cell: HeapCell)
        ensures
            final(self)@ == old(self)@.push(cell@),
    {
        let ghost c = cell@;
        self.cells.push(cell);
        assert(self@ =~= old(self)@.push(c));
    }

    /// Appends an unbound variable and returns its address.
    pub fn add_variable(&mut self) -> (r: usize)
        ensures
            r == old(self)@.len(),
            final(self)@ == old(self)@.push(CellModel::Variable { address: r as nat }),
    {
        let address = self.cells.len();
        self.push_cell(HeapCell::Variable { address });
        address
    }

    /// Appends the functor `functor`/`arity`, a structure cell pointing at it and
    /// `arity` unbound argument variables; returns the structure cell's address.
    pub fn define_functor_structure(&mut self, functor: String, arity: usize) -> (r: usize)
        ensures
            r == old(self)@.len() + 1,
            final(self)@ == old(self)@ + structure_block(functor@, arity as nat, old(self)@.len()),
    {
        let ghost name = functor@;
        let ghost base = old(self)@.len();
        let functor_address = self.cells.len();
        self.push_cell(HeapCell::Functor { name: functor, arity });
        let str_address = self.cells.len();
        self.push_cell(HeapCell::Structure { functor_address });
        assert(self@ =~= old(self)@ + structure_block(name, arity as nat, base).take(2));
        let mut i: usize = 0;
        while i < arity
            invariant
                i <= arity,
                str_address == base + 1,
                self@.len() == base + 2 + i,
                self@ == old(self)@ + structure_block(name, arity as nat, base).take(2 + i),
            decreases arity - i,
        {
            self.add_variable();
            assert(self@ =~= old(self)@ + structure_block(name, arity as nat, base).take(
                2 + i + 1,
            ));
            i = i + 1;
        }
        assert(structure_block(name, arity as nat, base).take(2 + arity) =~= structure_block(
            name,
            arity as nat,
            base,
        ));
        str_address
    }

    /// Allocates a structure as `define_functor_structure` does and writes a
    /// reference to its functor into register `reg_index`; returns the
    /// structure cell's address.
    pub fn init_structure_in_register(
        &mut self,
        registers: &mut Registers,
        functor: String,
        arity: usize,
        reg_index: usize,
    ) -> (r: usize)
        ensures
            r == old(self)@.len() + 1,
            final(self)@ == old(self)@ + structure_block(functor@, arity as nat, old(self)@.len()),
            final(registers)@ == old(registers)@.insert(
                reg_index,
                CellModel::Structure { functor_address: old(self)@.len() },
            ),
    {
        let address = self.define_functor_structure(functor, arity);
        registers.set(reg_index, HeapCell::Structure { functor_address: address - 1 });
        address
    }

    /// Allocates an unbound variable and writes a reference to it into
    /// register `reg_index`; returns the variable's address.
    pub fn init_variable_in_register(&mut self, registers: &mut Registers, reg_index: usize) -> (r:
        usize)
        ensures
            r == old(self)@.len(),
            final(self)@ == old(self)@.push(CellModel::Variable { address: r as nat }),
            final(registers)@ == old(registers)@.insert(
                reg_index,
                CellModel::Variable { address: r as nat },
            ),
    {
        let address = self.add_variable();
        registers.set(reg_index, HeapCell::Variable { address });
        address
    }

    /// Appends a copy of the cell in register `reg_index` and returns its
    /// address; fails with `RegisterNotSet`, leaving the heap as it was, when
    /// that register was never written.
    pub fn assign_value_from_register(&mut self, registers: &Registers, reg_index: usize) -> (r:
        Result<usize, HeapError>)
        ensures
            r is Ok <==> registers@.contains_key(reg_index),
            r matches Ok(a) ==> a == old(self)@.len() && commit_model(
                old(self)@,
                registers@,
                reg_index,
            ) == Some(final(self)@),
            r matches Err(e) ==> e == HeapError::RegisterNotSet && final(self)@ == old(self)@,
    {
        match registers.get(reg_index) {
            Some(value) => {
                let address = self.cells.len();
                self.push_cell(value.copy_cell());
                Ok(address)
            },
            None => Err(HeapError::RegisterNotSet),
        }
    }

    /// The cell at `address`; fails with `OutOfRange` at or beyond the top.
    pub fn cell_at(&self, address: usize) -> (r: Result<&HeapCell, HeapError>)
        ensures
            r is Ok <==> address < self@.len(),
            r matches Ok(c) ==> c@ == self@[address as int],
            r matches Err(e) ==> e == HeapError::OutOfRange,
    {
        if address < self.cells.len() {
            Ok(&self.cells[address])
        } else {
            Err(HeapError::OutOfRange)
        }
    }

    /// The name and arity of the functor that the structure cell at `address`
    /// refers to. Fails with `OutOfRange` when either address is past the top,
    /// and with `TypeMismatch` when the cell at `address` is not a structure
    /// cell or the cell it refers to is not a functor.
    pub fn functor_of(&self, address: usize) -> (r: Result<(String, usize), HeapError>)
        ensures
            r is Ok <==> functor_model(self@, address as nat) is Ok,
            r matches Ok((name, arity)) ==> functor_model(self@, address as nat) == Ok::<
                (Seq<char>, nat),
                HeapError,
            >((name@, arity as nat)),
            r matches Err(e) ==> functor_model(self@, address as nat) == Err::<
                (Seq<char>, nat),
                HeapError,
            >(e),
    {
        match self.cell_at(address) {
            Err(e) => Err(e),
            Ok(HeapCell::Structure { functor_address }) => match self.cell_at(*functor_address) {
                Err(e) => Err(e),
                Ok(HeapCell::Functor { name, arity }) => Ok((name.clone(), *arity)),
                Ok(_) => Err(HeapError::TypeMismatch),
            },
            Ok(_) => Err(HeapError::TypeMismatch),
        }
    }

    /// Every cell with its address, in address order, as independent copies.
    pub fn snapshot(&self) -> (r: Vec<(usize, HeapCell)>)
        ensures
            r@.len() == self@.len(),
            forall|i: int| 0 <= i < r@.len() ==> #[trigger] r@[i].0 == i && r@[i].1@ == self@[i],
    {
        let mut out: Vec<(usize, HeapCell)> = Vec::new();
        let mut i: usize = 0;
        while i < self.cells.len()
            invariant
                i <= self@.len(),
                out@.len() == i,
                forall|j: int| 0 <= j < i ==> #[trigger] out@[j].0 == j && out@[j].1@ == self@[j],
            decreases self@.len() - i,
        {
            out.push((i, self.cells[i].copy_cell()));
            i = i + 1;
        }
        out
    }
}

/// Allocating a structure of any arity on any heap grows it by two cells plus
/// one per argument, and each argument slot, at the addresses just after the
/// structure cell, is a variable that refers to its own address.
pub proof fn lemma_structure_arguments_unbound(heap: Seq<CellModel>, name: Seq<char>, arity: nat)
    ensures
        ({
            let after = heap + structure_block(name, arity, heap.len());
            let s: int = heap.len() as int + 1;
            &&& after.len() == heap.len() + 2 + arity
            &&& forall|k: int|
                1 <= k <= arity ==> #[trigger] after[s + k] == CellModel::Variable {
                    address: (s + k) as nat,
                }
        }),
{
    let after = heap + structure_block(name, arity, heap.len());
    let s: int = heap.len() as int + 1;
    assert forall|k: int| 1 <= k <= arity implies #[trigger] after[s + k] == CellModel::Variable {
        address: (s + k) as nat,
    } by {
        assert(after[s + k] == structure_block(name, arity, heap.len())[k + 1]);
    }
}

/// A structure cell made by structure allocation refers to the address just
/// below its own, where the functor with the given name and arity stands.
pub proof fn lemma_structure_refers_to_functor(heap: Seq<CellModel>, name: Seq<char>, arity: nat)
    ensures
        ({
            let after = heap + structure_block(name, arity, heap.len());
            let s: int = heap.len() as int + 1;
            &&& after[s] == CellModel::Structure { functor_address: (s - 1) as nat }
            &&& after[s - 1] == CellModel::Functor { name, arity }
        }),
{
}

/// The variable that variable allocation appends at address `heap.len()`
/// stores that same address.
pub proof fn lemma_fresh_variable_refers_to_itself(heap: Seq<CellModel>)
    ensures
        ({
            let a = heap.len();
            let after = heap.push(CellModel::Variable { address: a });
            &&& after.len() == a + 1
            &&& after[a as int] == CellModel::Variable { address: a }
        }),
{
}

/// Committing a register right after writing `v` into it appends a cell with
/// the content of `v` at the old top of the heap, and nothing else.
pub proof fn lemma_commit_after_set(
    heap: Seq<CellModel>,
    regs: Map<usize, CellModel>,
    reg: usize,
    v: CellModel,
)
    ensures
        commit_model(heap, regs.insert(reg, v), reg) == Some(heap.push(v)),
        heap.push(v).len() == heap.len() + 1,
        heap.push(v)[heap.len() as int] == v,
        heap.push(v).take(heap.len() as int) == heap,
{
    assert(heap.push(v).take(heap.len() as int) =~= heap);
}

/// Committing a register that was never written fails whatever the heap holds;
/// as a failed commit leaves heap and registers as they were, every repeated
/// attempt fails the same way.
pub proof fn lemma_commit_unset_register(regs: Map<usize, CellModel>, reg: usize)
    requires
        !regs.contains_key(reg),
    ensures
        forall|heap: Seq<CellModel>| #[trigger] commit_model(heap, regs, reg) is None,
{
}

} // verus!
