//! A pool of running tasks, each kept under the id it was given when added.

use vstd::prelude::*;

verus! {

/// A task: its name, its id in the pool, and its handle.
pub struct Task<H> {
    pub name: String,
    pub id: usize,
    pub handle: H,
}

/// Tasks in the order they were added, with the counter their ids come from.
pub struct TaskPool<H> {
    data: Vec<Task<H>>,
    index: usize,
}

impl<H> TaskPool<H> {
    /// The tasks in the pool, in the order they were added.
    pub closed spec fn tasks(&self) -> Seq<Task<H>> {
        self.data@
    }

    /// The id that the last added task was given (0 before any).
    pub closed spec fn last_id(&self) -> usize {
        self.index
    }

    /// Ids increase strictly along the pool, so no two tasks share one, and
    /// none exceeds the counter.
    pub open spec fn wf(&self) -> bool {
        &&& forall|i: int, j: int|
            0 <= i < j < self.tasks().len() ==> self.tasks()[i].id < self.tasks()[j].id
        &&& forall|i: int|
            0 <= i < self.tasks().len() ==> 1 <= #[trigger] self.tasks()[i].id <= self.last_id()
    }

    pub fn new() -> (r: Self)
        ensures
            r.wf(),
            r.tasks().len() == 0,
            r.last_id() == 0,
    {
        TaskPool { data: Vec::new(), index: 0 }
    }

    /// The id that the last added task was given (0 before any).
    pub fn last_task_id(&self) -> (r: usize)
        ensures
            r == self.last_id(),
    {
        self.index
    }

    /// Adds a task under id `last_id() + 1`, which it returns.
    pub fn add_task(&mut self, name: String, handle: H) -> (r: usize)
        requires
            old(self).wf(),
            old(self).last_id() < usize::MAX,
        ensures
            final(self).wf(),
            r == old(self).last_id() + 1,
            final(self).last_id() == r,
            final(self).tasks() == old(self).tasks().push(Task { name, id: r, handle }),
            final(self).tasks()[old(self).tasks().len() as int] == (Task { name, id: r, handle }),
    {
        self.index = self.index + 1;
        let task = Task { name, id: self.index, handle };
        let ghost before = self.data@;
        self.data.push(task);
        proof {
            assert forall|i: int| 0 <= i < before.len() implies #[trigger] self.data@[i] == before[i] by {}
            assert(self.tasks() == self.data@);
            assert(old(self).tasks() == before);
        }
        self.index
    }

    /// The task with id `id`, if the pool holds one.
    pub fn get_task(&self, id: usize) -> (r: Option<&Task<H>>)
        requires
            self.wf(),
        ensures
            match r {
                Some(t) => t.id == id && exists|i: int|
                    0 <= i < self.tasks().len() && self.tasks()[i] == *t,
                None => forall|i: int| 0 <= i < self.tasks().len() ==> (#[trigger] self.tasks()[i]).id != id,
            },
    {
        let mut i: usize = 0;
        while i < self.data.len()
            invariant
                i <= self.data@.len(),
                forall|m: int| 0 <= m < i ==> #[trigger] self.data@[m].id != id,
            decreases self.data@.len() - i,
        {
            if self.data[i].id == id {
                assert(self.tasks()[i as int] == self.data@[i as int]);
                return Some(&self.data[i]);
            }
            i = i + 1;
        }
        None
    }

    /// Takes the task with id `id` out of the pool, if it holds one; the
    /// others keep their order.
    pub fn pop_task(&mut self, id: usize) -> (r: Option<Task<H>>)
        requires
            old(self).wf(),
        ensures
            final(self).wf(),
            final(self).last_id() == old(self).last_id(),
            match r {
                Some(t) => t.id == id && exists|i: int|
                    0 <= i < old(self).tasks().len() && old(self).tasks()[i] == t
                        && final(self).tasks() == old(self).tasks().remove(i)
                        && forall|j: int|
                        0 <= j < final(self).tasks().len() ==> (#[trigger] final(self).tasks()[j]).id != id,
                None => {
                    &&& forall|i: int|
                        0 <= i < old(self).tasks().len() ==> (#[trigger] old(self).tasks()[i]).id != id
                    &&& final(self).tasks() == old(self).tasks()
                },
            },
    {
        let mut i: usize = 0;
        while i < self.data.len()
            invariant
                i <= self.data@.len(),
                old(self).wf(),
                self.data@ == old(self).data@,
                self.index == old(self).index,
                forall|m: int| 0 <= m < i ==> #[trigger] self.data@[m].id != id,
            decreases self.data@.len() - i,
        {
            if self.data[i].id == id {
                let ghost s = old(self).data@;
                let t = self.data.remove(i);
                proof {
                    s.remove_ensures(i as int);
                    assert(self.tasks() == s.remove(i as int));
                    assert(old(self).tasks()[i as int] == t);
                    assert forall|a: int, b: int|
                        0 <= a < b < self.data@.len() implies self.data@[a].id < self.data@[b].id by {
                        let oa = if a < i { a } else { a + 1 };
                        let ob = if b < i { b } else { b + 1 };
                        assert(self.data@[a] == s.remove(i as int)[a]);
                        assert(self.data@[b] == s.remove(i as int)[b]);
                        assert(self.data@[a] == s[oa]);
                        assert(self.data@[b] == s[ob]);
                        assert(s[oa].id < s[ob].id);
                    }
                    assert forall|a: int| 0 <= a < self.data@.len() implies 1 <= #[trigger] self.data@[a].id <= self.index by {
                        let oa = if a < i { a } else { a + 1 };
                        assert(self.data@[a] == s.remove(i as int)[a]);
                        assert(self.data@[a] == s[oa]);
                        assert(1 <= s[oa].id <= old(self).index);
                    }
                }
                return Some(t);
            }
            i = i + 1;
        }
        None
    }
}

} // verus!
