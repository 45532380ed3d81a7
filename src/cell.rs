use vstd::prelude::*;

use crate::content::CellContent;
use crate::event::{Event, EventListener};
use crate::task::{DependentTasks, TaskId};

verus! {

/// The abstract state of a cell.
///
/// `listeners` counts the listeners handed out on the recomputation event;
/// `updates` counts the assignments the cell has seen; `deps` are the tasks
/// to schedule again when the value changes.
pub enum CellView {
    Empty,
    TrackedValueless { deps: Set<TaskId>, updates: nat },
    Recomputing { listeners: nat, updates: nat, deps: Set<TaskId> },
    InitialValue { content: Option<Seq<char>>, deps: Set<TaskId> },
    UpdatedValue { content: Option<Seq<char>>, updates: nat, deps: Set<TaskId> },
}

/// What a read hands back: the content on a hit, or on a miss the position
/// of the new listener and whether this reader must schedule the producer.
pub enum ReadView {
    Hit(Option<Seq<char>>),
    Ticket { position: nat, schedule: bool },
}

impl CellView {
    /// The cell holds a value.
    pub open spec fn has_value(self) -> bool {
        self is InitialValue || self is UpdatedValue
    }

    /// The value held, if any.
    pub open spec fn value(self) -> Option<Option<Seq<char>>> {
        match self {
            CellView::InitialValue { content, .. } => Some(content),
            CellView::UpdatedValue { content, .. } => Some(content),
            _ => None,
        }
    }

    /// The dependent tasks; empty where the state keeps none.
    pub open spec fn deps(self) -> Set<TaskId> {
        match self {
            CellView::Empty => Set::empty(),
            CellView::TrackedValueless { deps, .. } => deps,
            CellView::Recomputing { deps, .. } => deps,
            CellView::InitialValue { deps, .. } => deps,
            CellView::UpdatedValue { deps, .. } => deps,
        }
    }

    /// How many assignments the cell has seen (an empty cell none).
    pub open spec fn updates(self) -> nat {
        match self {
            CellView::Empty => 0,
            CellView::TrackedValueless { updates, .. } => updates,
            CellView::Recomputing { updates, .. } => updates,
            CellView::InitialValue { .. } => 1,
            CellView::UpdatedValue { updates, .. } => updates,
        }
    }

    /// The state after `assign(content)`.
    pub open spec fn assign_next(self, content: Option<Seq<char>>) -> CellView {
        match self {
            CellView::Empty => CellView::InitialValue { content, deps: Set::empty() },
            CellView::TrackedValueless { updates, .. } | CellView::Recomputing { updates, .. } => {
                if updates == 1 {
                    CellView::InitialValue { content, deps: Set::empty() }
                } else {
                    CellView::UpdatedValue { content, updates, deps: Set::empty() }
                }
            },
            CellView::InitialValue { content: old, .. } => {
                if old == content {
                    self
                } else {
                    CellView::UpdatedValue { content, updates: 2, deps: Set::empty() }
                }
            },
            CellView::UpdatedValue { content: old, updates, .. } => {
                if old == content {
                    self
                } else {
                    CellView::UpdatedValue { content, updates: updates + 1, deps: Set::empty() }
                }
            },
        }
    }

    /// The tasks that `assign(content)` schedules again: the dependents,
    /// unless the cell already holds an equal value.
    pub open spec fn assign_scheduled(self, content: Option<Seq<char>>) -> Set<TaskId> {
        if self.value() == Some(content) {
            Set::empty()
        } else {
            self.deps()
        }
    }

    /// The listener count of the event that a recomputing cell holds.
    pub open spec fn event_listeners(self) -> Option<nat> {
        match self {
            CellView::Recomputing { listeners, .. } => Some(listeners),
            _ => None,
        }
    }

    /// The state after a read; `reader` is `None` for an untracked read.
    pub open spec fn read_next(self, reader: Option<TaskId>) -> CellView {
        match self {
            CellView::Empty => CellView::Recomputing { listeners: 1, updates: 1, deps: Set::empty() },
            CellView::TrackedValueless { deps, updates } => CellView::Recomputing {
                listeners: 1,
                updates,
                deps,
            },
            CellView::Recomputing { listeners, updates, deps } => CellView::Recomputing {
                listeners: listeners + 1,
                updates,
                deps,
            },
            CellView::InitialValue { content, deps } => CellView::InitialValue {
                content,
                deps: match reader {
                    Some(t) => deps.insert(t),
                    None => deps,
                },
            },
            CellView::UpdatedValue { content, updates, deps } => CellView::UpdatedValue {
                content,
                updates,
                deps: match reader {
                    Some(t) => deps.insert(t),
                    None => deps,
                },
            },
        }
    }

    /// What a read returns.
    pub open spec fn read_result(self) -> ReadView {
        match self {
            CellView::Recomputing { listeners, .. } => ReadView::Ticket {
                position: listeners,
                schedule: false,
            },
            CellView::InitialValue { content, .. } => ReadView::Hit(content),
            CellView::UpdatedValue { content, .. } => ReadView::Hit(content),
            _ => ReadView::Ticket { position: 0, schedule: true },
        }
    }

    /// The state after `remove_dependent_task(task)`.
    pub open spec fn remove_next(self, task: TaskId) -> CellView {
        match self {
            CellView::Empty => CellView::Empty,
            CellView::TrackedValueless { deps, updates } => CellView::TrackedValueless {
                deps: deps.remove(task),
                updates,
            },
            CellView::Recomputing { listeners, updates, deps } => CellView::Recomputing {
                listeners,
                updates,
                deps: deps.remove(task),
            },
            CellView::InitialValue { content, deps } => CellView::InitialValue {
                content,
                deps: deps.remove(task),
            },
            CellView::UpdatedValue { content, updates, deps } => CellView::UpdatedValue {
                content,
                updates,
                deps: deps.remove(task),
            },
        }
    }

    /// The state after `gc_content`: the value goes, the tracking stays.
    pub open spec fn gc_next(self) -> CellView {
        match self {
            CellView::InitialValue { deps, .. } => CellView::TrackedValueless { deps, updates: 1 },
            CellView::UpdatedValue { deps, updates, .. } => CellView::TrackedValueless {
                deps,
                updates,
            },
            _ => self,
        }
    }
}

/// The state of one cell. See `CellView` for its meaning.
#[derive(Debug)]
pub enum Cell {
    /// No content has been set yet, or it was removed.
    Empty,
    /// The content was removed to free memory; the tracking stays, so the
    /// next write still schedules the dependent tasks.
    TrackedValueless { dependent_tasks: DependentTasks, updates: u32 },
    /// A reader found no content; readers wait on `event` until the value is
    /// written again.
    Recomputing { event: Event, updates: u32, dependent_tasks: DependentTasks },
    /// The content was written once.
    InitialValue { content: CellContent, dependent_tasks: DependentTasks },
    /// The content was written `updates` times, at least twice.
    UpdatedValue { content: CellContent, updates: u32, dependent_tasks: DependentTasks },
}

/// A reader's ticket when the content is not available: the listener to
/// wait on, and whether this reader must schedule the producing task.
#[derive(Debug)]
pub struct RecomputingCell {
    pub listener: EventListener,
    pub schedule: bool,
}

/// The work that an operation leaves to the caller: the event whose
/// listeners must all be released, and the tasks to schedule again (none
/// when empty).
#[derive(Debug)]
pub struct CellEffects {
    pub notify: Option<Event>,
    pub schedule: Vec<TaskId>,
}

impl CellEffects {
    /// The listener count of the event to release, if any.
    pub open spec fn notified(&self) -> Option<nat> {
        match self.notify {
            Some(e) => Some(e@),
            None => None,
        }
    }

    /// The tasks to schedule, each once.
    pub open spec fn scheduled(&self) -> Set<TaskId> {
        self.schedule@.to_set()
    }

    fn new(notify: Option<Event>, dependent_tasks: &DependentTasks) -> (r: CellEffects)
        requires
            dependent_tasks.wf(),
        ensures
            r.notify == notify,
            r.scheduled() == dependent_tasks@,
            r.schedule@.no_duplicates(),
    {
        let schedule = dependent_tasks.to_vec();
        proof {
            dependent_tasks.lemma_view_is_members();
        }
        CellEffects { notify, schedule }
    }

    fn none() -> (r: CellEffects)
        ensures
            r.notify is None,
            r.scheduled() == Set::<TaskId>::empty(),
            r.schedule@.no_duplicates(),
    {
        let r = CellEffects { notify: None, schedule: Vec::new() };
        assert(r.scheduled() =~= Set::<TaskId>::empty());
        r
    }
}

impl Default for Cell {
    fn default() -> (r: Cell)
        ensures
            r.wf(),
            r@ == CellView::Empty,
    {
        Cell::Empty
    }
}

impl View for Cell {
    type V = CellView;

    open spec fn view(&self) -> CellView {
        match self {
            Cell::Empty => CellView::Empty,
            Cell::TrackedValueless { dependent_tasks, updates } => CellView::TrackedValueless {
                deps: dependent_tasks@,
                updates: *updates as nat,
            },
            Cell::Recomputing { event, updates, dependent_tasks } => CellView::Recomputing {
                listeners: event@,
                updates: *updates as nat,
                deps: dependent_tasks@,
            },
            Cell::InitialValue { content, dependent_tasks } => CellView::InitialValue {
                content: content@,
                deps: dependent_tasks@,
            },
            Cell::UpdatedValue { content, updates, dependent_tasks } => CellView::UpdatedValue {
                content: content@,
                updates: *updates as nat,
                deps: dependent_tasks@,
            },
        }
    }
}

impl Cell {
    /// The dependent sets list each task once, and the update counters agree
    /// with the state: at least one once anything was requested or written,
    /// at least two in `UpdatedValue`.
    pub open spec fn wf(&self) -> bool {
        match self {
            Cell::Empty => true,
            Cell::TrackedValueless { dependent_tasks, updates } => dependent_tasks.wf() && *updates >= 1,
            Cell::Recomputing { dependent_tasks, updates, .. } => dependent_tasks.wf() && *updates >= 1,
            Cell::InitialValue { dependent_tasks, .. } => dependent_tasks.wf(),
            Cell::UpdatedValue { dependent_tasks, updates, .. } => dependent_tasks.wf() && *updates >= 2,
        }
    }

    /// A cell that holds nothing.
    pub fn new() -> (r: Cell)
        ensures
            r.wf(),
            r@ == CellView::Empty,
    {
        Cell::Empty
    }

    /// Whether the cell holds a value.
    pub fn is_available(&self) -> (r: bool)
        ensures
            r == self@.has_value(),
    {
        match self {
            Cell::InitialValue { .. } | Cell::UpdatedValue { .. } => true,
            _ => false,
        }
    }

    /// Writes a new value.
    ///
    /// Readers waiting on a recomputation are released through the returned
    /// event. The dependent tasks are scheduled again, and forgotten, unless
    /// the cell already holds an equal value, in which case nothing changes.
    pub fn assign(&mut self, content: CellContent) -> (r: CellEffects)
        requires
            old(self).wf(),
            old(self)@.updates() < u32::MAX,
        ensures
            final(self).wf(),
            final(self)@ == old(self)@.assign_next(content@),
            r.scheduled() == old(self)@.assign_scheduled(content@),
            r.schedule@.no_duplicates(),
            r.notified() == old(self)@.event_listeners(),
    {
        let mut state = Cell::Empty;
        core::mem::swap(self, &mut state);
        match state {
            Cell::Empty => {
                *self = Cell::InitialValue { content, dependent_tasks: DependentTasks::new() };
                CellEffects::none()
            },
            Cell::Recomputing { event, updates, dependent_tasks } => {
                *self = Cell::written(content, updates);
                CellEffects::new(Some(event), &dependent_tasks)
            },
            Cell::TrackedValueless { dependent_tasks, updates } => {
                *self = Cell::written(content, updates);
                CellEffects::new(None, &dependent_tasks)
            },
            Cell::InitialValue { content: old_content, dependent_tasks } => {
                if content.same_as(&old_content) {
                    *self = Cell::InitialValue { content: old_content, dependent_tasks };
                    CellEffects::none()
                } else {
                    let effects = CellEffects::new(None, &dependent_tasks);
                    *self = Cell::UpdatedValue {
                        content,
                        updates: 2,
                        dependent_tasks: DependentTasks::new(),
                    };
                    effects
                }
            },
            Cell::UpdatedValue { content: old_content, updates, dependent_tasks } => {
                if content.same_as(&old_content) {
                    *self = Cell::UpdatedValue { content: old_content, updates, dependent_tasks };
                    CellEffects::none()
                } else {
                    let effects = CellEffects::new(None, &dependent_tasks);
                    *self = Cell::UpdatedValue {
                        content,
                        updates: updates + 1,
                        dependent_tasks: DependentTasks::new(),
                    };
                    effects
                }
            },
        }
    }

    /// The state that a write of `content` leaves in a cell without a value:
    /// the compact one for a first write, the counted one otherwise.
    fn written(content: CellContent, updates: u32) -> (r: Cell)
        requires
            updates >= 1,
        ensures
            r.wf(),
            r@ == (if updates == 1 {
                CellView::InitialValue { content: content@, deps: Set::empty() }
            } else {
                CellView::UpdatedValue { content: content@, updates: updates as nat, deps: Set::empty() }
            }),
    {
        if updates == 1 {
            Cell::InitialValue { content, dependent_tasks: DependentTasks::new() }
        } else {
            Cell::UpdatedValue { content, updates, dependent_tasks: DependentTasks::new() }
        }
    }

    /// Starts a recomputation: a new event with its first listener.
    fn recompute<D: Fn() -> String, N: Fn() -> String>(
        &mut self,
        updates: u32,
        dependent_tasks: DependentTasks,
        description: D,
        note: N,
    ) -> (r: EventListener)
        requires
            updates >= 1,
            dependent_tasks.wf(),
            description.requires(()),
            note.requires(()),
        ensures
            final(self).wf(),
            final(self)@ == (CellView::Recomputing { listeners: 1, updates: updates as nat, deps: dependent_tasks@ }),
            r.position == 0,
    {
        let mut event = Event::new(description());
        let listener = event.listen_with_note(note());
        *self = Cell::Recomputing { event, updates, dependent_tasks };
        listener
    }

    /// The common part of tracked and untracked reads.
    fn read_inner<D: Fn() -> String, N: Fn() -> String>(
        &mut self,
        reader: Option<TaskId>,
        description: D,
        note: N,
    ) -> (r: Result<CellContent, RecomputingCell>)
        requires
            old(self).wf(),
            description.requires(()),
            note.requires(()),
        ensures
            final(self).wf(),
            final(self)@ == old(self)@.read_next(reader),
            match r {
                Ok(c) => old(self)@.read_result() == ReadView::Hit(c@),
                Err(t) => old(self)@.read_result() == (ReadView::Ticket {
                    position: t.listener.position as nat,
                    schedule: t.schedule,
                }),
            },
    {
        let mut state = Cell::Empty;
        core::mem::swap(self, &mut state);
        match state {
            Cell::Empty => {
                let listener = self.recompute(1, DependentTasks::new(), description, note);
                Err(RecomputingCell { listener, schedule: true })
            },
            Cell::Recomputing { mut event, updates, dependent_tasks } => {
                let listener = event.listen_with_note(note());
                *self = Cell::Recomputing { event, updates, dependent_tasks };
                Err(RecomputingCell { listener, schedule: false })
            },
            Cell::TrackedValueless { dependent_tasks, updates } => {
                let listener = self.recompute(updates, dependent_tasks, description, note);
                Err(RecomputingCell { listener, schedule: true })
            },
            Cell::InitialValue { content, mut dependent_tasks } => {
                if let Some(t) = reader {
                    dependent_tasks.insert(t);
                }
                let r = content.snapshot();
                *self = Cell::InitialValue { content, dependent_tasks };
                Ok(r)
            },
            Cell::UpdatedValue { content, updates, mut dependent_tasks } => {
                if let Some(t) = reader {
                    dependent_tasks.insert(t);
                }
                let r = content.snapshot();
                *self = Cell::UpdatedValue { content, updates, dependent_tasks };
                Ok(r)
            },
        }
    }

    /// Reads the content for `reader`, which becomes a dependent task on a
    /// hit. On a miss the reader gets a listener; the first reader of a
    /// recomputation is told to schedule the producing task.
    pub fn read_content<D: Fn() -> String, N: Fn() -> String>(
        &mut self,
        reader: TaskId,
        description: D,
        note: N,
    ) -> (r: Result<CellContent, RecomputingCell>)
        requires
            old(self).wf(),
            description.requires(()),
            note.requires(()),
        ensures
            final(self).wf(),
            final(self)@ == old(self)@.read_next(Some(reader)),
            match r {
                Ok(c) => old(self)@.read_result() == ReadView::Hit(c@),
                Err(t) => old(self)@.read_result() == (ReadView::Ticket {
                    position: t.listener.position as nat,
                    schedule: t.schedule,
                }),
            },
    {
        self.read_inner(Some(reader), description, note)
    }

    /// Reads the content like `read_content`, but records no dependent task,
    /// so a later change of the value will not schedule the reader.
    pub fn read_content_untracked<D: Fn() -> String, N: Fn() -> String>(
        &mut self,
        description: D,
        note: N,
    ) -> (r: Result<CellContent, RecomputingCell>)
        requires
            old(self).wf(),
            description.requires(()),
            note.requires(()),
        ensures
            final(self).wf(),
            final(self)@ == old(self)@.read_next(None),
            match r {
                Ok(c) => old(self)@.read_result() == ReadView::Hit(c@),
                Err(t) => old(self)@.read_result() == (ReadView::Ticket {
                    position: t.listener.position as nat,
                    schedule: t.schedule,
                }),
            },
    {
        self.read_inner(None, description, note)
    }

    /// A snapshot of the content, or the empty sentinel when the cell holds
    /// no value. Records nothing.
    pub fn read_own_content_untracked(&self) -> (r: CellContent)
        ensures
            r@ == (match self@.value() {
                Some(c) => c,
                None => None,
            }),
    {
        match self {
            Cell::InitialValue { content, .. } | Cell::UpdatedValue { content, .. } => content.snapshot(),
            _ => CellContent::empty(),
        }
    }

    /// Forgets `task` as a dependent task, so that no later change of this
    /// cell schedules it (until it reads the cell again).
    pub fn remove_dependent_task(&mut self, task: TaskId)
        requires
            old(self).wf(),
        ensures
            final(self).wf(),
            final(self)@ == old(self)@.remove_next(task),
    {
        match self {
            Cell::Empty => {},
            Cell::TrackedValueless { dependent_tasks, .. } => dependent_tasks.remove(task),
            Cell::Recomputing { dependent_tasks, .. } => dependent_tasks.remove(task),
            Cell::InitialValue { dependent_tasks, .. } => dependent_tasks.remove(task),
            Cell::UpdatedValue { dependent_tasks, .. } => dependent_tasks.remove(task),
        }
    }

    /// Whether any task depends on this cell.
    pub fn has_dependent_tasks(&self) -> (r: bool)
        requires
            self.wf(),
        ensures
            r == (self@.deps() != Set::<TaskId>::empty()),
    {
        match self {
            Cell::Empty => false,
            Cell::TrackedValueless { dependent_tasks, .. }
            | Cell::Recomputing { dependent_tasks, .. }
            | Cell::InitialValue { dependent_tasks, .. }
            | Cell::UpdatedValue { dependent_tasks, .. } => !dependent_tasks.is_empty(),
        }
    }

    /// The tasks that depend on this cell, each once.
    pub fn dependent_tasks(&self) -> (r: Vec<TaskId>)
        requires
            self.wf(),
        ensures
            r@.to_set() == self@.deps(),
            r@.no_duplicates(),
    {
        match self {
            Cell::Empty => {
                let r: Vec<TaskId> = Vec::new();
                assert(r@.to_set() =~= Set::<TaskId>::empty());
                r
            },
            Cell::TrackedValueless { dependent_tasks, .. }
            | Cell::Recomputing { dependent_tasks, .. }
            | Cell::InitialValue { dependent_tasks, .. }
            | Cell::UpdatedValue { dependent_tasks, .. } => {
                proof {
                    dependent_tasks.lemma_view_is_members();
                }
                dependent_tasks.to_vec()
            },
        }
    }

    /// Releases the spare capacity of the dependent set; the state stays.
    pub fn shrink_to_fit(&mut self)
        requires
            old(self).wf(),
        ensures
            final(self).wf(),
            final(self)@ == old(self)@,
    {
        match self {
            Cell::Empty => {},
            Cell::TrackedValueless { dependent_tasks, .. } => dependent_tasks.shrink_to_fit(),
            Cell::Recomputing { dependent_tasks, .. } => dependent_tasks.shrink_to_fit(),
            Cell::InitialValue { dependent_tasks, .. } => dependent_tasks.shrink_to_fit(),
            Cell::UpdatedValue { dependent_tasks, .. } => dependent_tasks.shrink_to_fit(),
        }
    }

    /// Takes the value out of the cell and keeps the tracking, so the next
    /// write still schedules the dependent tasks. The caller drops the value,
    /// outside any lock it holds.
    pub fn gc_content(&mut self) -> (r: Option<CellContent>)
        requires
            old(self).wf(),
        ensures
            final(self).wf(),
            final(self)@ == old(self)@.gc_next(),
            match r {
                Some(c) => old(self)@.value() == Some(c@),
                None => old(self)@.value() is None,
            },
    {
        let mut state = Cell::Empty;
        core::mem::swap(self, &mut state);
        match state {
            Cell::InitialValue { content, dependent_tasks } => {
                *self = Cell::TrackedValueless { dependent_tasks, updates: 1 };
                Some(content)
            },
            Cell::UpdatedValue { content, updates, dependent_tasks } => {
                *self = Cell::TrackedValueless { dependent_tasks, updates };
                Some(content)
            },
            other => {
                *self = other;
                None
            },
        }
    }

    /// Tears the cell down: waiting readers are released and the dependent
    /// tasks scheduled, since their input is gone.
    pub fn gc_drop(self) -> (r: CellEffects)
        requires
            self.wf(),
        ensures
            r.notified() == self@.event_listeners(),
            r.scheduled() == self@.deps(),
            r.schedule@.no_duplicates(),
    {
        match self {
            Cell::Empty => CellEffects::none(),
            Cell::Recomputing { event, dependent_tasks, .. } => CellEffects::new(Some(event), &dependent_tasks),
            Cell::TrackedValueless { dependent_tasks, .. }
            | Cell::InitialValue { dependent_tasks, .. }
            | Cell::UpdatedValue { dependent_tasks, .. } => CellEffects::new(None, &dependent_tasks),
        }
    }
}

} // verus!
