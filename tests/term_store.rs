use wam_heap::cell::{HeapCell, HeapError};
use wam_heap::heap::Heap;
use wam_heap::registers::Registers;

fn var(address: usize) -> HeapCell {
    HeapCell::Variable { address }
}

fn functor(name: &str, arity: usize) -> HeapCell {
    HeapCell::Functor { name: name.to_string(), arity }
}

fn cells(heap: &Heap) -> Vec<HeapCell> {
    heap.snapshot().into_iter().map(|(_, c)| c).collect()
}

#[test]
fn new_heap_and_registers_are_empty() {
    let heap = Heap::new();
    assert_eq!(heap.len(), 0);
    assert!(heap.snapshot().is_empty());
    let regs = Registers::new();
    assert!(regs.get(0).is_none());
}

#[test]
fn scenario_variable_then_structure() {
    let mut heap = Heap::new();
    assert_eq!(heap.add_variable(), 0);
    assert_eq!(heap.cell_at(0), Ok(&var(0)));
    assert_eq!(heap.define_functor_structure("f".to_string(), 2), 2);
    assert_eq!(heap.len(), 5);
    assert_eq!(
        cells(&heap),
        vec![var(0), functor("f", 2), HeapCell::Structure { functor_address: 1 }, var(3), var(4)]
    );
}

#[test]
fn scenario_stage_structure_into_register() {
    let mut heap = Heap::new();
    let mut regs = Registers::new();
    assert_eq!(heap.init_structure_in_register(&mut regs, "f".to_string(), 2, 1), 1);
    assert_eq!(heap.len(), 4);
    assert_eq!(
        cells(&heap),
        vec![functor("f", 2), HeapCell::Structure { functor_address: 0 }, var(2), var(3)]
    );
    assert_eq!(regs.get(1), Some(&HeapCell::Structure { functor_address: 0 }));
}

#[test]
fn scenario_stage_variable_then_commit() {
    let mut heap = Heap::new();
    let mut regs = Registers::new();
    heap.init_structure_in_register(&mut regs, "f".to_string(), 2, 1);
    assert_eq!(heap.init_variable_in_register(&mut regs, 2), 4);
    assert_eq!(heap.len(), 5);
    assert_eq!(regs.get(2), Some(&var(4)));
    assert_eq!(heap.assign_value_from_register(&regs, 2), Ok(5));
    assert_eq!(heap.len(), 6);
    assert_eq!(heap.cell_at(5), Ok(&var(4)));
    assert_eq!(heap.cell_at(4), Ok(&var(4)));
}

#[test]
fn structure_of_arity_zero_has_no_arguments() {
    let mut heap = Heap::new();
    heap.add_variable();
    assert_eq!(heap.define_functor_structure("nil".to_string(), 0), 2);
    assert_eq!(heap.len(), 3);
    assert_eq!(heap.functor_of(2), Ok(("nil".to_string(), 0)));
}

#[test]
fn structure_arguments_refer_to_themselves() {
    let mut heap = Heap::new();
    heap.add_variable();
    heap.add_variable();
    let s = heap.define_functor_structure("g".to_string(), 3);
    assert_eq!(s, 3);
    assert_eq!(heap.len(), 2 + 2 + 3);
    for k in 1..=3 {
        assert_eq!(heap.cell_at(s + k), Ok(&var(s + k)));
    }
    assert_eq!(heap.cell_at(s), Ok(&HeapCell::Structure { functor_address: s - 1 }));
    assert_eq!(heap.cell_at(s - 1), Ok(&functor("g", 3)));
}

#[test]
fn fresh_variable_stores_own_address() {
    let mut heap = Heap::new();
    heap.define_functor_structure("h".to_string(), 1);
    let a = heap.add_variable();
    assert_eq!(a, 3);
    assert_eq!(heap.cell_at(a), Ok(&var(a)));
}

#[test]
fn set_then_get_round_trip() {
    let mut regs = Registers::new();
    regs.set(7, functor("p", 4));
    assert_eq!(regs.get(7), Some(&functor("p", 4)));
    regs.set(7, var(9));
    assert_eq!(regs.get(7), Some(&var(9)));
    regs.set(0, HeapCell::Structure { functor_address: 11 });
    assert_eq!(regs.get(0), Some(&HeapCell::Structure { functor_address: 11 }));
    assert_eq!(regs.get(7), Some(&var(9)));
    assert!(regs.get(1).is_none());
}

#[test]
fn commit_after_set_appends_copy_at_top() {
    let mut heap = Heap::new();
    heap.add_variable();
    heap.add_variable();
    let mut regs = Registers::new();
    regs.set(3, functor("q", 2));
    assert_eq!(heap.assign_value_from_register(&regs, 3), Ok(2));
    assert_eq!(heap.len(), 3);
    assert_eq!(cells(&heap), vec![var(0), var(1), functor("q", 2)]);
    assert_eq!(regs.get(3), Some(&functor("q", 2)));
}

#[test]
fn commit_unset_register_fails_every_time() {
    let mut heap = Heap::new();
    heap.add_variable();
    let mut regs = Registers::new();
    regs.set(1, var(0));
    for _ in 0..3 {
        assert_eq!(heap.assign_value_from_register(&regs, 2), Err(HeapError::RegisterNotSet));
        assert_eq!(heap.len(), 1);
        assert!(regs.get(2).is_none());
    }
}

#[test]
fn cell_at_past_top_is_out_of_range() {
    let mut heap = Heap::new();
    assert_eq!(heap.cell_at(0), Err(HeapError::OutOfRange));
    heap.add_variable();
    assert_eq!(heap.cell_at(1), Err(HeapError::OutOfRange));
    assert_eq!(heap.cell_at(usize::MAX), Err(HeapError::OutOfRange));
}

#[test]
fn functor_of_checks_range_and_variants() {
    let mut heap = Heap::new();
    let mut regs = Registers::new();
    let s = heap.init_structure_in_register(&mut regs, "f".to_string(), 1, 0);
    assert_eq!(heap.functor_of(s), Ok(("f".to_string(), 1)));
    assert_eq!(heap.functor_of(9), Err(HeapError::OutOfRange));
    assert_eq!(heap.functor_of(2), Err(HeapError::TypeMismatch));
    assert_eq!(heap.functor_of(0), Err(HeapError::TypeMismatch));
    regs.set(1, HeapCell::Structure { functor_address: 40 });
    regs.set(2, HeapCell::Structure { functor_address: 2 });
    let dangling = heap.assign_value_from_register(&regs, 1).unwrap();
    assert_eq!(heap.functor_of(dangling), Err(HeapError::OutOfRange));
    let wrong = heap.assign_value_from_register(&regs, 2).unwrap();
    assert_eq!(heap.functor_of(wrong), Err(HeapError::TypeMismatch));
}

#[test]
fn snapshot_lists_addresses_in_order() {
    let mut heap = Heap::new();
    heap.define_functor_structure("k".to_string(), 1);
    let snap = heap.snapshot();
    let addresses: Vec<usize> = snap.iter().map(|(a, _)| *a).collect();
    assert_eq!(addresses, vec![0, 1, 2]);
    assert_eq!(snap[2].1, var(2));
    assert_eq!(heap.snapshot(), snap);
}

#[test]
fn copy_cell_keeps_content() {
    let c = functor("abc", 5);
    assert_eq!(c.copy_cell(), c);
    assert_eq!(var(8).copy_cell(), var(8));
}
