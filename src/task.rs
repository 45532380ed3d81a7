use vstd::prelude::*;

verus! {

/// Identifies one task instance of the engine.
#[derive(PartialEq, Eq, Structural, Clone, Copy, Debug, Hash)]
pub struct TaskId(pub u32);

/// The tasks that read a cell's current value, each listed once.
///
/// Zero or one member is by far the common case; a vector without spare
/// capacity keeps that case small.
#[derive(Debug)]
pub struct DependentTasks {
    tasks: Vec<TaskId>,
}

/// Relies on `Vec::shrink_to_fit`: it only lowers the capacity, the elements stay.
#[verifier::external_body]
fn shrink_vec(v: &mut Vec<TaskId>)
    ensures
        final(v)@ == old(v)@,
{
    v.shrink_to_fit();
}

impl View for DependentTasks {
    type V = Set<TaskId>;

    closed spec fn view(&self) -> Set<TaskId> {
        self.tasks@.to_set()
    }
}

/// Removing the one occurrence of a value from a sequence without duplicates
/// removes exactly that value from its set of members.
proof fn lemma_remove_unique(s: Seq<TaskId>, i: int)
    requires
        s.no_duplicates(),
        0 <= i < s.len(),
    ensures
        s.remove(i).no_duplicates(),
        s.remove(i).to_set() =~= s.to_set().remove(s[i]),
{
    s.remove_ensures(i);
    let r = s.remove(i);
    assert forall|a: int, b: int| 0 <= a < r.len() && 0 <= b < r.len() && a != b implies r[a] != r[b] by {
        let a2 = if a < i { a } else { a + 1 };
        let b2 = if b < i { b } else { b + 1 };
        assert(r[a] == s[a2]);
        assert(r[b] == s[b2]);
    }
    assert forall|t: TaskId| r.contains(t) implies s.to_set().remove(s[i]).contains(t) by {
        let j = choose|j: int| 0 <= j < r.len() && r[j] == t;
        let j2 = if j < i { j } else { j + 1 };
        assert(r[j] == s[j2]);
        assert(s.contains(t));
    }
    assert forall|t: TaskId| s.to_set().remove(s[i]).contains(t) implies r.contains(t) by {
        let j = choose|j: int| 0 <= j < s.len() && s[j] == t;
        assert(j != i);
        if j < i {
            assert(r[j] == t);
        } else {
            assert(r[j - 1] == t);
        }
    }
}

impl DependentTasks {
    /// Each task is listed at most once.
    pub open spec fn wf(&self) -> bool {
        self.members().no_duplicates()
    }

    /// The tasks in the order in which they were first added.
    pub closed spec fn members(&self) -> Seq<TaskId> {
        self.tasks@
    }

    pub proof fn lemma_view_is_members(&self)
        ensures
            self@ == self.members().to_set(),
    {
    }

    pub fn new() -> (r: DependentTasks)
        ensures
            r.wf(),
            r@ == Set::<TaskId>::empty(),
            r.members() == Seq::<TaskId>::empty(),
    {
        let r = DependentTasks { tasks: Vec::new() };
        assert(r@ =~= Set::<TaskId>::empty());
        r
    }

    pub fn is_empty(&self) -> (r: bool)
        requires
            self.wf(),
        ensures
            r == (self@ == Set::<TaskId>::empty()),
    {
        let r = self.tasks.len() == 0;
        if !r {
            assert(self@.contains(self.tasks@[0]));
        } else {
            assert(self@ =~= Set::<TaskId>::empty());
        }
        r
    }

    pub fn contains(&self, task: TaskId) -> (r: bool)
        ensures
            r == self@.contains(task),
    {
        let mut i: usize = 0;
        while i < self.tasks.len()
            invariant
                i <= self.tasks@.len(),
                forall|j: int| 0 <= j < i ==> self.tasks@[j] != task,
            decreases self.tasks@.len() - i,
        {
            if self.tasks[i] == task {
                assert(self.tasks@.contains(task));
                return true;
            }
            i = i + 1;
        }
        false
    }

    /// Adds `task` unless it is already a member.
    pub fn insert(&mut self, task: TaskId)
        requires
            old(self).wf(),
        ensures
            final(self).wf(),
            final(self)@ == old(self)@.insert(task),
    {
        if !self.contains(task) {
            let ghost before = self.tasks@;
            self.tasks.push(task);
            proof {
                before.lemma_push_to_set_commute(task);
                assert forall|x: int, y: int|
                    0 <= x < self.tasks@.len() && 0 <= y < self.tasks@.len() && x != y
                    implies self.tasks@[x] != self.tasks@[y] by {
                    if x == before.len() {
                        assert(before.contains(self.tasks@[y]));
                    } else if y == before.len() {
                        assert(before.contains(self.tasks@[x]));
                    }
                }
            }
        } else {
            assert(self@ =~= old(self)@.insert(task));
        }
    }

    /// Removes `task` if it is a member.
    pub fn remove(&mut self, task: TaskId)
        requires
            old(self).wf(),
        ensures
            final(self).wf(),
            final(self)@ == old(self)@.remove(task),
    {
        let mut i: usize = 0;
        while i < self.tasks.len()
            invariant
                i <= self.tasks@.len(),
                self.tasks@ == old(self).tasks@,
                old(self).wf(),
                forall|j: int| 0 <= j < i ==> self.tasks@[j] != task,
            decreases self.tasks@.len() - i,
        {
            if self.tasks[i] == task {
                let ghost before = self.tasks@;
                self.tasks.remove(i);
                proof {
                    lemma_remove_unique(before, i as int);
                }
                return;
            }
            i = i + 1;
        }
        assert(self@ =~= old(self)@.remove(task));
    }

    /// Moves the members out, leaving this set empty.
    pub fn take(&mut self) -> (r: DependentTasks)
        requires
            old(self).wf(),
        ensures
            r.wf(),
            final(self).wf(),
            r@ == old(self)@,
            r.members() == old(self).members(),
            final(self)@ == Set::<TaskId>::empty(),
    {
        let mut r = DependentTasks::new();
        core::mem::swap(self, &mut r);
        r
    }

    /// The members, each once, in the order in which they were first added.
    pub fn to_vec(&self) -> (r: Vec<TaskId>)
        ensures
            r@ == self.members(),
    {
        self.tasks.clone()
    }

    /// Releases spare capacity; the members stay.
    pub fn shrink_to_fit(&mut self)
        ensures
            final(self).members() == old(self).members(),
            final(self)@ == old(self)@,
    {
        shrink_vec(&mut self.tasks);
    }
}

} // verus!
