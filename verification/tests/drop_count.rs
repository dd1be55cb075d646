use parallel_vec::ParallelVec;
use std::cell::Cell;
use std::rc::Rc;

struct Counted {
    hits: Rc<Cell<usize>>,
}

impl Drop for Counted {
    fn drop(&mut self) {
        self.hits.set(self.hits.get() + 1);
    }
}

fn counted(hits: &Rc<Cell<usize>>) -> Counted {
    Counted { hits: Rc::clone(hits) }
}

#[test]
fn dropping_the_container_destroys_each_element_once() {
    let hits = Rc::new(Cell::new(0usize));
    let mut pv: ParallelVec<(Counted, u32)> = ParallelVec::new();
    for i in 0..5u32 {
        pv.push((counted(&hits), i));
    }
    assert_eq!(hits.get(), 0);
    drop(pv);
    assert_eq!(hits.get(), 5);
}

#[test]
fn truncate_destroys_exactly_the_tail() {
    let hits = Rc::new(Cell::new(0usize));
    let mut pv: ParallelVec<(Counted, u32)> = ParallelVec::new();
    for i in 0..6u32 {
        pv.push((counted(&hits), i));
    }
    pv.truncate(2);
    assert_eq!(hits.get(), 4);
    drop(pv);
    assert_eq!(hits.get(), 6);
}

#[test]
fn moved_out_elements_are_not_destroyed_by_the_container() {
    let hits = Rc::new(Cell::new(0usize));
    let mut pv: ParallelVec<(Counted, u32)> = ParallelVec::new();
    pv.push((counted(&hits), 1));
    pv.push((counted(&hits), 2));
    let taken = pv.pop().unwrap();
    assert_eq!(hits.get(), 0);
    drop(taken);
    assert_eq!(hits.get(), 1);
    drop(pv);
    assert_eq!(hits.get(), 2);
}

#[test]
fn append_moves_without_destroying() {
    let hits = Rc::new(Cell::new(0usize));
    let mut a: ParallelVec<(Counted, u32)> = ParallelVec::new();
    let mut b: ParallelVec<(Counted, u32)> = ParallelVec::new();
    a.push((counted(&hits), 1));
    b.push((counted(&hits), 2));
    b.push((counted(&hits), 3));
    a.append(&mut b);
    assert_eq!(hits.get(), 0);
    assert_eq!(a.len(), 3);
    drop(b);
    assert_eq!(hits.get(), 0);
    drop(a);
    assert_eq!(hits.get(), 3);
}
