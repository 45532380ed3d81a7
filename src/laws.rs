//! Properties of the cell that hold over sequences of operations, stated on
//! the abstract state that the operations' contracts speak of.
use vstd::prelude::*;

use crate::cell::{CellView, ReadView};
use crate::task::TaskId;

verus! {

/// A cell holds a value exactly from an assignment up to the next eviction:
/// an assignment always leaves a value, an eviction never does, and reads and
/// removals of dependent tasks do not change whether a value is held.
pub proof fn lemma_available_until_evicted(
    s: CellView,
    content: Option<Seq<char>>,
    reader: Option<TaskId>,
    task: TaskId,
)
    ensures
        !CellView::Empty.has_value(),
        s.assign_next(content).has_value(),
        !s.gc_next().has_value(),
        s.read_next(reader).has_value() == s.has_value(),
        s.remove_next(task).has_value() == s.has_value(),
{
}

/// After `assign(v)` the next read returns `v`, and no operation lowers the
/// update counter.
pub proof fn lemma_read_after_assign(
    s: CellView,
    content: Option<Seq<char>>,
    reader: Option<TaskId>,
    task: TaskId,
)
    ensures
        s.assign_next(content).read_result() == ReadView::Hit(content),
        s.assign_next(content).updates() >= s.updates(),
        s.read_next(reader).updates() >= s.updates(),
        s.remove_next(task).updates() == s.updates(),
        s.gc_next().updates() == s.updates(),
{
}

/// A read that must schedule the producer creates one event with one
/// listener. While the recomputation lasts, every further read joins that
/// event without scheduling, removals and evictions keep it, and the
/// assignment that ends it, or a teardown, hands that event back to be
/// notified.
pub proof fn lemma_recomputation_event(
    s: CellView,
    reader: Option<TaskId>,
    next_reader: Option<TaskId>,
    content: Option<Seq<char>>,
    task: TaskId,
)
    requires
        s.read_result() matches ReadView::Ticket { schedule, .. } && schedule,
    ensures
        s.read_next(reader) is Recomputing,
        s.read_next(reader).event_listeners() == Some(1nat),
        s.read_next(reader).read_result() == (ReadView::Ticket { position: 1, schedule: false }),
        s.read_next(reader).read_next(next_reader).event_listeners() == Some(2nat),
        s.read_next(reader).remove_next(task).event_listeners() == Some(1nat),
        s.read_next(reader).gc_next().event_listeners() == Some(1nat),
        s.read_next(reader).assign_next(content).event_listeners() is None,
{
}

/// An assignment of a value different from the one held schedules exactly
/// the dependent tasks, and leaves none behind.
pub proof fn lemma_change_schedules_dependents(s: CellView, content: Option<Seq<char>>)
    requires
        s.has_value(),
        s.value() != Some(content),
    ensures
        s.assign_scheduled(content) == s.deps(),
        s.assign_next(content).deps() == Set::<TaskId>::empty(),
{
}

/// Assigning an equal value a second time schedules nothing and changes
/// nothing.
pub proof fn lemma_repeated_assign_is_quiet(s: CellView, content: Option<Seq<char>>)
    ensures
        s.assign_next(content).assign_scheduled(content) == Set::<TaskId>::empty(),
        s.assign_next(content).assign_next(content) == s.assign_next(content),
{
}

/// After a value is evicted, the next read must schedule the producer, and
/// the assignment that ends the recomputation schedules the dependent tasks
/// that the value had, even when it writes the same value again.
pub proof fn lemma_eviction_keeps_tracking(
    s: CellView,
    reader: Option<TaskId>,
    content: Option<Seq<char>>,
)
    requires
        s.has_value(),
    ensures
        s.gc_next().read_result() == (ReadView::Ticket { position: 0, schedule: true }),
        s.gc_next().read_next(reader).assign_scheduled(content) == s.deps(),
        s.gc_next().assign_scheduled(content) == s.deps(),
{
}

/// Once a task is removed as a dependent, no operation schedules it, nor
/// records it again, other than a tracked read by that task itself.
pub proof fn lemma_removed_task_stays_out(
    s: CellView,
    task: TaskId,
    content: Option<Seq<char>>,
    reader: Option<TaskId>,
    other: TaskId,
)
    requires
        reader != Some(task),
    ensures
        !s.remove_next(task).deps().contains(task),
        !s.deps().contains(task) ==> {
            &&& !s.assign_scheduled(content).contains(task)
            &&& !s.assign_next(content).deps().contains(task)
            &&& !s.read_next(reader).deps().contains(task)
            &&& !s.gc_next().deps().contains(task)
            &&& !s.remove_next(other).deps().contains(task)
        },
{
}

} // verus!
