use vstd::prelude::*;

verus! {

/// One cell of the heap, or a value staged in a register.
#[derive(Debug, PartialEq, Eq)]
pub enum HeapCell {
    /// A logic variable; unbound when it refers to its own address.
    Variable { address: usize },
    /// A compound term; `functor_address` locates its functor cell.
    Structure { functor_address: usize },
    /// The head symbol of a compound term, with its number of arguments.
    Functor { name: String, arity: usize },
}

/// The mathematical content of a cell.
pub enum CellModel {
    Variable { address: nat },
    Structure { functor_address: nat },
    Functor { name: Seq<char>, arity: nat },
}

/// Conditions under which an operation on the heap or the registers fails.
#[derive(Debug, Clone, Copy, PartialEq, Eq, Structural)]
pub enum HeapError {
    /// A register was read that was never written.
    RegisterNotSet,
    /// An address lies at or beyond the top of the heap.
    OutOfRange,
    /// A cell is not of the variant that the operation expects.
    TypeMismatch,
}

impl View for HeapCell {
    type V = CellModel;

    open spec fn view(&self) -> CellModel {
        match self {
            HeapCell::Variable { address } => CellModel::Variable { address: *address as nat },
            HeapCell::Structure { functor_address } => CellModel::Structure {
                functor_address: *functor_address as nat,
            },
            HeapCell::Functor { name, arity } => CellModel::Functor {
                name: name@,
                arity: *arity as nat,
            },
        }
    }
}

impl HeapCell {
    /// An independent copy with the same content.
    pub fn copy_cell(&self) -> (r: HeapCell)
        ensures
            r@ == self@,
    {
        match self {
            HeapCell::Variable { address } => HeapCell::Variable { address: *address },
            HeapCell::Structure { functor_address } => HeapCell::Structure {
                functor_address: *functor_address,
            },
            HeapCell::Functor { name, arity } => HeapCell::Functor {
                name: name.clone(),
                arity: *arity,
            },
        }
    }
}

} // verus!
