use std::cell::Cell;
use std::rc::Rc;

use memlab::active::{ActiveSet, ActiveSetError};
use memlab::catalog::{Catalog, Descriptor, Strategy};
use memlab::handle::AllocationHandle;
use memlab::worker::{event_of, next_phase, teardown_step, TeardownStep, WorkerEvent, WorkerPhase};

fn heap(name: &'static str) -> AllocationHandle<()> {
    AllocationHandle::construct(Descriptor { name, strategy: Strategy::HeapZeroed, size: 16 }).unwrap()
}

fn names<W>(s: &ActiveSet<W>) -> Vec<(usize, &'static str)> {
    s.list()
}

#[test]
fn append_returns_new_length() {
    let mut s = ActiveSet::new();
    assert!(s.is_empty());
    assert_eq!(s.append(heap("a")), 1);
    assert_eq!(s.append(heap("b")), 2);
    assert_eq!(s.len(), 2);
    assert_eq!(names(&s), vec![(1, "a"), (2, "b")]);
}

#[test]
fn remove_shifts_later_indices_down() {
    let mut s = ActiveSet::new();
    for n in ["a", "b", "c"] {
        s.append(heap(n));
    }
    assert_eq!(s.remove_at(2), Ok(()));
    assert_eq!(names(&s), vec![(1, "a"), (2, "c")]);
    assert_eq!(s.get(2).unwrap().name(), "c");
    assert!(s.get(3).is_none());
}

#[test]
fn remove_out_of_range_changes_nothing() {
    let mut s: ActiveSet<()> = ActiveSet::new();
    assert_eq!(s.remove_at(1), Err(ActiveSetError::IndexOutOfRange));
    s.append(heap("a"));
    assert_eq!(s.remove_at(0), Err(ActiveSetError::IndexOutOfRange));
    assert_eq!(s.remove_at(2), Err(ActiveSetError::IndexOutOfRange));
    assert_eq!(names(&s), vec![(1, "a")]);
}

#[test]
fn construct_then_remove_restores_the_set() {
    let catalog = Catalog::standard();
    let mut s = ActiveSet::new();
    s.append(heap("kept"));
    for i in 1..=catalog.len() {
        let d = catalog.get(i).unwrap();
        if matches!(d.strategy, Strategy::FileMapped | Strategy::StackResident) {
            continue;
        }
        let h = AllocationHandle::construct(d).unwrap();
        let at = s.append(h);
        assert_eq!(s.remove_at(at), Ok(()));
        assert_eq!(names(&s), vec![(1, "kept")]);
    }
}

#[test]
fn size_counts_constructs_minus_removes() {
    let mut s = ActiveSet::new();
    let mut constructs = 0;
    let mut removes = 0;
    for (k, op) in [1i32, 1, -2, 1, -1, -5, 1, -1, -1, -1].iter().enumerate() {
        if *op > 0 {
            s.append(heap("x"));
            constructs += 1;
        } else if s.remove_at((-op) as usize).is_ok() {
            removes += 1;
        }
        assert_eq!(s.len(), constructs - removes, "after op {}", k);
        let listed: Vec<usize> = names(&s).iter().map(|p| p.0).collect();
        assert_eq!(listed, (1..=s.len()).collect::<Vec<_>>());
    }
    assert_eq!((constructs, removes), (4, 4));
}

struct Probe(Rc<Cell<bool>>);

impl Drop for Probe {
    fn drop(&mut self) {
        self.0.set(true);
    }
}

#[test]
fn removing_a_stack_handle_releases_its_token_before_returning() {
    let released = Rc::new(Cell::new(false));
    let d = Descriptor { name: "stack", strategy: Strategy::StackResident, size: 1 };
    let mut s = ActiveSet::new();
    let at = s.append(AllocationHandle::from_worker(d, Probe(released.clone())).unwrap());
    assert!(!released.get());
    assert_eq!(s.remove_at(at), Ok(()));
    assert!(released.get());
    assert!(s.is_empty());
}

#[test]
fn teardown_releases_then_joins() {
    let mut phase = next_phase(WorkerPhase::Created, WorkerEvent::Spawned).unwrap();
    assert_eq!(phase, WorkerPhase::Running);
    let mut steps = Vec::new();
    while let Some(step) = teardown_step(phase) {
        steps.push(step);
        phase = next_phase(phase, event_of(step)).unwrap();
    }
    assert_eq!(steps, vec![TeardownStep::Rendezvous, TeardownStep::Join]);
    assert_eq!(phase, WorkerPhase::Terminated);
}

#[test]
fn protocol_refuses_out_of_order_events() {
    assert_eq!(next_phase(WorkerPhase::Running, WorkerEvent::Joined), None);
    assert_eq!(next_phase(WorkerPhase::Created, WorkerEvent::Released), None);
    assert_eq!(next_phase(WorkerPhase::Terminated, WorkerEvent::Joined), None);
    assert_eq!(teardown_step(WorkerPhase::Created), None);
}
