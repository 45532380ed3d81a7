use turbo_cell::cell::{Cell, RecomputingCell};
use turbo_cell::content::CellContent;
use turbo_cell::task::{DependentTasks, TaskId};

fn value(s: &str) -> CellContent {
    CellContent::from_string(s.to_string())
}

fn read(cell: &mut Cell, reader: u32) -> Result<CellContent, RecomputingCell> {
    cell.read_content(TaskId(reader), || "cell".to_string(), || "reader".to_string())
}

fn ids(v: Vec<TaskId>) -> Vec<u32> {
    let mut r: Vec<u32> = v.into_iter().map(|t| t.0).collect();
    r.sort();
    r
}

#[test]
fn availability_follows_assign_and_eviction() {
    let mut cell = Cell::new();
    assert!(!cell.is_available());
    let _ = read(&mut cell, 1);
    assert!(!cell.is_available());
    cell.assign(value("a"));
    assert!(cell.is_available());
    let _ = read(&mut cell, 1);
    assert!(cell.is_available());
    cell.gc_content();
    assert!(!cell.is_available());
    cell.assign(value("b"));
    assert!(cell.is_available());
}

#[test]
fn read_returns_last_assigned_value() {
    let mut cell = Cell::new();
    cell.assign(value("a"));
    assert!(read(&mut cell, 1).unwrap() == value("a"));
    cell.assign(value("b"));
    assert!(read(&mut cell, 1).unwrap() == value("b"));
    cell.assign(value("c"));
    match &cell {
        Cell::UpdatedValue { updates, .. } => assert_eq!(*updates, 3),
        other => panic!("unexpected state {:?}", other),
    }
    cell.gc_content();
    let _ = read(&mut cell, 2);
    cell.assign(value("d"));
    match &cell {
        Cell::UpdatedValue { updates, .. } => assert_eq!(*updates, 3),
        other => panic!("unexpected state {:?}", other),
    }
}

#[test]
fn only_first_miss_schedules() {
    let mut cell = Cell::new();
    assert!(read(&mut cell, 1).unwrap_err().schedule);
    cell.remove_dependent_task(TaskId(1));
    cell.shrink_to_fit();
    let t = cell
        .read_content_untracked(|| "d".to_string(), || "n".to_string())
        .unwrap_err();
    assert!(!t.schedule);
    assert_eq!(t.listener.position, 1);
    assert_eq!(cell.gc_content().map(|_| ()), None);
    assert!(!read(&mut cell, 3).unwrap_err().schedule);
    assert_eq!(cell.assign(value("x")).notify.unwrap().listener_count(), 3);
}

#[test]
fn change_schedules_all_dependents_once() {
    let mut cell = Cell::new();
    cell.assign(value("a"));
    let _ = read(&mut cell, 1);
    let _ = read(&mut cell, 2);
    let _ = read(&mut cell, 1);
    assert_eq!(ids(cell.dependent_tasks()), vec![1, 2]);
    let e = cell.assign(value("b"));
    assert_eq!(ids(e.schedule), vec![1, 2]);
    assert!(cell.assign(value("c")).schedule.is_empty());
}

#[test]
fn equal_assign_twice_is_quiet() {
    let mut cell = Cell::new();
    cell.assign(value("a"));
    let _ = read(&mut cell, 1);
    assert_eq!(ids(cell.assign(value("b")).schedule), vec![1]);
    let _ = read(&mut cell, 1);
    assert!(cell.assign(value("b")).schedule.is_empty());
    assert!(cell.assign(value("b")).schedule.is_empty());
    assert!(cell.has_dependent_tasks());
}

#[test]
fn read_after_eviction_schedules_and_invalidates() {
    let mut cell = Cell::new();
    cell.assign(value("a"));
    let _ = read(&mut cell, 7);
    cell.gc_content();
    let t = cell
        .read_content_untracked(|| "d".to_string(), || "n".to_string())
        .unwrap_err();
    assert!(t.schedule);
    assert_eq!(ids(cell.assign(value("a")).schedule), vec![7]);
}

#[test]
fn removed_dependent_is_never_scheduled() {
    let mut cell = Cell::new();
    cell.assign(value("a"));
    let _ = read(&mut cell, 1);
    let _ = read(&mut cell, 2);
    cell.remove_dependent_task(TaskId(1));
    cell.remove_dependent_task(TaskId(9));
    assert_eq!(ids(cell.dependent_tasks()), vec![2]);
    assert_eq!(ids(cell.assign(value("b")).schedule), vec![2]);
    let _ = read(&mut cell, 2);
    cell.gc_content();
    cell.remove_dependent_task(TaskId(2));
    assert!(!cell.has_dependent_tasks());
    assert!(cell.gc_drop().schedule.is_empty());
}

#[test]
fn untracked_read_records_nothing() {
    let mut cell = Cell::new();
    cell.assign(value("a"));
    let c = cell
        .read_content_untracked(|| "d".to_string(), || "n".to_string())
        .unwrap();
    assert!(c == value("a"));
    assert!(!cell.has_dependent_tasks());
    assert!(cell.assign(value("b")).schedule.is_empty());
}

#[test]
fn own_snapshot_is_empty_without_value() {
    let mut cell = Cell::new();
    assert!(cell.read_own_content_untracked() == CellContent::empty());
    cell.assign(value("a"));
    assert!(cell.read_own_content_untracked() == value("a"));
    assert!(!cell.has_dependent_tasks());
    cell.gc_content();
    assert!(cell.read_own_content_untracked() == CellContent::empty());
}

#[test]
fn empty_content_is_a_value_too() {
    let mut cell = Cell::new();
    cell.assign(CellContent::empty());
    assert!(cell.is_available());
    assert!(read(&mut cell, 1).unwrap() == CellContent::empty());
    assert!(cell.assign(CellContent::empty()).schedule.is_empty());
    assert_eq!(ids(cell.assign(value("a")).schedule), vec![1]);
}

#[test]
fn dependent_set_operations() {
    let mut d = DependentTasks::new();
    assert!(d.is_empty());
    d.insert(TaskId(3));
    d.insert(TaskId(3));
    d.insert(TaskId(4));
    assert_eq!(ids(d.to_vec()), vec![3, 4]);
    assert!(d.contains(TaskId(4)));
    d.remove(TaskId(3));
    assert!(!d.contains(TaskId(3)));
    d.shrink_to_fit();
    let taken = d.take();
    assert!(d.is_empty());
    assert_eq!(ids(taken.to_vec()), vec![4]);
}

#[test]
fn content_equality() {
    assert!(value("a").same_as(&value("a")));
    assert!(!value("a").same_as(&value("b")));
    assert!(!value("a").same_as(&CellContent::empty()));
    assert!(value("a").snapshot() == value("a"));
}
