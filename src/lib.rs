//! Term store of a register-and-heap logic engine: an append-only heap of
//! tagged cells and a register file that stages cells before they are
//! committed to the heap.

pub mod cell;
pub mod heap;
pub mod registers;
