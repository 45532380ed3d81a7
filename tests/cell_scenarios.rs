use turbo_cell::cell::{Cell, CellEffects, RecomputingCell};
use turbo_cell::content::CellContent;
use turbo_cell::task::TaskId;

fn value(s: &str) -> CellContent {
    CellContent::from_string(s.to_string())
}

fn read(cell: &mut Cell, reader: u32) -> Result<CellContent, RecomputingCell> {
    cell.read_content(TaskId(reader), || "cell".to_string(), || "reader".to_string())
}

fn ticket(r: Result<CellContent, RecomputingCell>) -> RecomputingCell {
    match r {
        Ok(c) => panic!("expected a ticket, got {:?}", c),
        Err(t) => t,
    }
}

fn hit(r: Result<CellContent, RecomputingCell>) -> CellContent {
    match r {
        Ok(c) => c,
        Err(t) => panic!("expected a value, got {:?}", t),
    }
}

fn sorted(mut v: Vec<TaskId>) -> Vec<u32> {
    v.sort_by_key(|t| t.0);
    v.into_iter().map(|t| t.0).collect()
}

fn quiet(e: &CellEffects) -> bool {
    e.notify.is_none() && e.schedule.is_empty()
}

#[test]
fn first_read_triggers_recomputation() {
    let mut cell = Cell::new();
    let t = ticket(read(&mut cell, 1));
    assert!(t.schedule);
    assert_eq!(t.listener.position, 0);
    assert_eq!(t.listener.note, "reader");
    let e = cell.assign(value("v1"));
    let ev = e.notify.expect("the waiting reader must be released");
    assert_eq!(ev.listener_count(), 1);
    assert_eq!(ev.description(), "cell");
    assert!(e.schedule.is_empty());
    assert!(matches!(cell, Cell::InitialValue { .. }));
    assert!(!cell.has_dependent_tasks());
}

#[test]
fn concurrent_readers_share_one_event() {
    let mut cell = Cell::new();
    let t1 = ticket(read(&mut cell, 1));
    let t2 = ticket(read(&mut cell, 2));
    assert!(t1.schedule);
    assert!(!t2.schedule);
    assert_eq!(t1.listener.position, 0);
    assert_eq!(t2.listener.position, 1);
    let e = cell.assign(value("v1"));
    assert_eq!(e.notify.expect("one event").listener_count(), 2);
    assert!(e.schedule.is_empty());
}

#[test]
fn overwrite_invalidates_dependents() {
    let mut cell = Cell::new();
    assert!(quiet(&cell.assign(value("v1"))));
    assert!(hit(read(&mut cell, 1)) == value("v1"));
    assert!(quiet(&cell.assign(value("v1"))));
    let e = cell.assign(value("v2"));
    assert!(e.notify.is_none());
    assert_eq!(sorted(e.schedule), vec![1]);
    match &cell {
        Cell::UpdatedValue { content, updates, .. } => {
            assert!(*content == value("v2"));
            assert_eq!(*updates, 2);
        }
        other => panic!("unexpected state {:?}", other),
    }
    assert!(cell.dependent_tasks().is_empty());
}

#[test]
fn eviction_preserves_tracking() {
    let mut cell = Cell::new();
    cell.assign(value("v1"));
    hit(read(&mut cell, 1));
    let evicted = cell.gc_content().expect("the value comes back");
    assert!(evicted == value("v1"));
    match &cell {
        Cell::TrackedValueless { updates, .. } => assert_eq!(*updates, 1),
        other => panic!("unexpected state {:?}", other),
    }
    assert_eq!(sorted(cell.dependent_tasks()), vec![1]);
    let e = cell.assign(value("v1"));
    assert!(e.notify.is_none());
    assert_eq!(sorted(e.schedule), vec![1]);
    assert!(matches!(cell, Cell::InitialValue { .. }));
    assert!(!cell.has_dependent_tasks());
}

#[test]
fn recomputation_after_eviction() {
    let mut cell = Cell::new();
    cell.assign(value("v1"));
    hit(read(&mut cell, 1));
    cell.gc_content();
    let t = ticket(read(&mut cell, 2));
    assert!(t.schedule);
    match &cell {
        Cell::Recomputing { updates, .. } => assert_eq!(*updates, 1),
        other => panic!("unexpected state {:?}", other),
    }
    assert_eq!(sorted(cell.dependent_tasks()), vec![1]);
    let e = cell.assign(value("v2"));
    assert_eq!(e.notify.expect("released").listener_count(), 1);
    assert_eq!(sorted(e.schedule), vec![1]);
    assert!(cell.read_own_content_untracked() == value("v2"));
}

#[test]
fn teardown_invalidates_dependents() {
    let mut cell = Cell::new();
    cell.assign(value("v1"));
    hit(read(&mut cell, 1));
    let mut sibling = Cell::new();
    ticket(read(&mut sibling, 2));
    let e = cell.gc_drop();
    assert!(e.notify.is_none());
    assert_eq!(sorted(e.schedule), vec![1]);
}

#[test]
fn teardown_wakes_waiters() {
    let mut cell = Cell::new();
    cell.assign(value("v1"));
    hit(read(&mut cell, 1));
    cell.gc_content();
    ticket(read(&mut cell, 2));
    ticket(read(&mut cell, 3));
    let e = cell.gc_drop();
    assert_eq!(e.notify.expect("waiters released").listener_count(), 2);
    assert_eq!(sorted(e.schedule), vec![1]);
}

#[test]
fn empty_cell_teardown_does_nothing() {
    assert!(quiet(&Cell::new().gc_drop()));
    assert!(quiet(&Cell::default().gc_drop()));
}
