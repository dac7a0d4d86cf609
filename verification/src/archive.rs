//! The completed tasks of one account: a sequence with a fixed bound.

use vstd::prelude::*;
use crate::types::{same_id, Digest, Error};

verus! {

/// Position of the first occurrence of `task` in `tasks`, or the length of
/// `tasks` where it does not occur.
pub open spec fn first_position(tasks: Seq<Digest>, task: Digest) -> int
    decreases tasks.len(),
{
    if tasks.len() == 0 || tasks[0] == task {
        0
    } else {
        1 + first_position(tasks.drop_first(), task)
    }
}

/// `first_position` is the least index that holds `task`.
pub proof fn lemma_first_position(tasks: Seq<Digest>, task: Digest, i: int)
    requires
        0 <= i <= tasks.len(),
        i < tasks.len() ==> tasks[i] == task,
        forall|j: int| 0 <= j < i ==> tasks[j] != task,
    ensures
        first_position(tasks, task) == i,
    decreases i,
{
    if i > 0 {
        let rest = tasks.drop_first();
        assert forall|j: int| 0 <= j < i - 1 implies rest[j] != task by {
            assert(rest[j] == tasks[j + 1]);
        }
        if i < tasks.len() {
            assert(rest[i - 1] == tasks[i]);
        }
        lemma_first_position(rest, task, i - 1);
    }
}

/// `first_position` stays within the sequence exactly when `task` occurs.
pub proof fn lemma_first_position_found(tasks: Seq<Digest>, task: Digest)
    ensures
        0 <= first_position(tasks, task) <= tasks.len(),
        tasks.contains(task) <==> first_position(tasks, task) < tasks.len(),
        tasks.contains(task) ==> tasks[first_position(tasks, task)] == task,
    decreases tasks.len(),
{
    if tasks.len() == 0 {
    } else if tasks[0] == task {
        assert(tasks.contains(task));
    } else {
        let rest = tasks.drop_first();
        lemma_first_position_found(rest, task);
        if rest.contains(task) {
            let j = choose|j: int| 0 <= j < rest.len() && rest[j] == task;
            assert(tasks[j + 1] == task);
            assert(rest[first_position(rest, task)] == tasks[first_position(rest, task) + 1]);
        }
        if tasks.contains(task) {
            let j = choose|j: int| 0 <= j < tasks.len() && tasks[j] == task;
            assert(rest[j - 1] == task);
        }
    }
}

/// Completed tasks of one account, oldest first, never more than a bound
/// fixed at creation.
#[derive(Debug, PartialEq, Eq)]
pub struct CompletedTasks {
    tasks: Vec<Digest>,
    bound: u32,
}

impl View for CompletedTasks {
    type V = Seq<Digest>;

    closed spec fn view(&self) -> Seq<Digest> {
        self.tasks@
    }
}

impl Clone for CompletedTasks {
    /// A copy with the same tasks and the same bound.
    fn clone(&self) -> (copy: Self)
        ensures
            copy@ == self@,
            copy.limit() == self.limit(),
    {
        proof {
            use_type_invariant(self);
        }
        let mut tasks: Vec<Digest> = Vec::new();
        let mut i: usize = 0;
        while i < self.tasks.len()
            invariant
                i <= self.tasks@.len(),
                tasks@ == self.tasks@.take(i as int),
            decreases self.tasks@.len() - i,
        {
            tasks.push(self.tasks[i]);
            assert(self.tasks@.take(i + 1) =~= self.tasks@.take(i as int).push(self.tasks@[i as int]));
            i += 1;
        }
        assert(self.tasks@.take(self.tasks@.len() as int) =~= self.tasks@);
        CompletedTasks { tasks, bound: self.bound }
    }
}

impl CompletedTasks {
    #[verifier::type_invariant]
    spec fn within_bound(self) -> bool {
        self.tasks@.len() <= self.bound
    }

    /// The largest number of tasks the sequence may hold.
    pub closed spec fn limit(&self) -> nat {
        self.bound as nat
    }

    /// The empty sequence with the given bound.
    pub fn new(bound: u32) -> (tasks: Self)
        ensures
            tasks@ == Seq::<Digest>::empty(),
            tasks.limit() == bound,
    {
        CompletedTasks { tasks: Vec::new(), bound }
    }

    /// The bound the sequence was created with.
    pub fn bound(&self) -> (bound: u32)
        ensures
            bound == self.limit(),
    {
        self.bound
    }

    /// The number of tasks held, which never exceeds the bound.
    pub fn len(&self) -> (len: usize)
        ensures
            len == self@.len(),
            len <= self.limit(),
    {
        proof {
            use_type_invariant(self);
        }
        self.tasks.len()
    }

    /// Tells whether the sequence has reached its bound.
    pub fn is_full(&self) -> (full: bool)
        ensures
            full == (self@.len() >= self.limit()),
    {
        proof {
            use_type_invariant(self);
        }
        self.tasks.len() >= self.bound as usize
    }

    /// The tasks held, oldest first.
    pub fn tasks(&self) -> (tasks: &Vec<Digest>)
        ensures
            tasks@ == self@,
    {
        &self.tasks
    }

    /// Position of the first occurrence of `task`.
    fn position(&self, task: &Digest) -> (at: Option<usize>)
        ensures
            match at {
                Some(i) => i < self@.len() && i == first_position(self@, *task),
                None => !self@.contains(*task),
            },
    {
        let mut i: usize = 0;
        while i < self.tasks.len()
            invariant
                i <= self.tasks@.len(),
                forall|j: int| 0 <= j < i ==> self.tasks@[j] != *task,
            decreases self.tasks@.len() - i,
        {
            if same_id(&self.tasks[i], task) {
                proof {
                    lemma_first_position(self.tasks@, *task, i as int);
                }
                return Some(i);
            }
            i += 1;
        }
        None
    }

    /// Tells whether `task` is among the tasks held.
    pub fn contains(&self, task: &Digest) -> (found: bool)
        ensures
            found == self@.contains(*task),
    {
        let at = self.position(task);
        proof {
            if at is Some {
                lemma_first_position_found(self@, *task);
            }
        }
        at.is_some()
    }

    /// Adds `task` at the end, unless the bound is reached: then the
    /// sequence stays as it is and `CompletedTasksStorageFull` is returned.
    pub fn try_push(&mut self, task: Digest) -> (outcome: Result<(), Error>)
        ensures
            final(self).limit() == old(self).limit(),
            final(self)@.len() <= final(self).limit(),
            old(self)@.len() < old(self).limit() ==> outcome == Ok::<(), Error>(()) && final(self)@
                == old(self)@.push(task),
            old(self)@.len() >= old(self).limit() ==> outcome == Err::<(), Error>(
                Error::CompletedTasksStorageFull,
            ) && final(self)@ == old(self)@,
    {
        proof {
            use_type_invariant(&*self);
        }
        if self.tasks.len() >= self.bound as usize {
            return Err(Error::CompletedTasksStorageFull);
        }
        let mut tasks: Vec<Digest> = Vec::new();
        std::mem::swap(&mut tasks, &mut self.tasks);
        tasks.push(task);
        self.tasks = tasks;
        Ok(())
    }

    /// Takes the first occurrence of `task` out of the sequence. Where
    /// `task` does not occur the sequence stays as it is and
    /// `NoProfileCreated` is returned.
    pub fn remove(&mut self, task: &Digest) -> (outcome: Result<(), Error>)
        ensures
            final(self).limit() == old(self).limit(),
            final(self)@.len() <= final(self).limit(),
            old(self)@.contains(*task) ==> outcome == Ok::<(), Error>(()) && final(self)@ == old(self)@.remove(first_position(old(self)@, *task)),
            !old(self)@.contains(*task) ==> outcome == Err::<(), Error>(Error::NoProfileCreated)
                && final(self)@ == old(self)@,
    {
        proof {
            use_type_invariant(&*self);
        }
        match self.position(task) {
            Some(i) => {
                proof {
                    lemma_first_position_found(self@, *task);
                }
                let mut tasks: Vec<Digest> = Vec::new();
                std::mem::swap(&mut tasks, &mut self.tasks);
                tasks.remove(i);
                self.tasks = tasks;
                Ok(())
            },
            None => Err(Error::NoProfileCreated),
        }
    }
}

} // verus!
