//! A keyed todo list. Entries carry an auto-incrementing identifier and are
//! kept ordered by recency (newest creation timestamp first, earlier entries
//! first among equal timestamps), so listing them is a plain copy.

use vstd::prelude::*;

verus! {

/// One todo entry.
#[derive(Debug)]
pub struct Todo {
    pub id: u32,
    pub title: String,
    pub completed: bool,
    pub created_at: i64,
}

/// Newest first: creation timestamps never increase along the sequence.
pub open spec fn sorted_by_recency(s: Seq<Todo>) -> bool {
    forall|i: int, j: int| 0 <= i <= j < s.len() ==> s[i].created_at >= s[j].created_at
}

/// How many entries of `s` are completed.
pub open spec fn count_completed(s: Seq<Todo>) -> nat
    decreases s.len(),
{
    if s.len() == 0 {
        0
    } else {
        count_completed(s.drop_last()) + if s.last().completed {
            1nat
        } else {
            0nat
        }
    }
}

/// How many entries of `s` are still pending.
pub open spec fn count_pending(s: Seq<Todo>) -> nat
    decreases s.len(),
{
    if s.len() == 0 {
        0
    } else {
        count_pending(s.drop_last()) + if s.last().completed {
            0nat
        } else {
            1nat
        }
    }
}

/// The todo list: entries ordered by recency, with unique identifiers all
/// below the next one to hand out.
pub struct TodoList {
    pub todos: Vec<Todo>,
    pub next_id: u32,
}

impl TodoList {
    pub open spec fn wf(self) -> bool {
        &&& sorted_by_recency(self.todos@)
        &&& forall|i: int, j: int|
            0 <= i < j < self.todos@.len() ==> self.todos@[i].id != self.todos@[j].id
        &&& forall|i: int| 0 <= i < self.todos@.len() ==> self.todos@[i].id < self.next_id
    }

    pub fn new() -> (r: Self)
        ensures
            r.wf(),
            r.todos@.len() == 0,
            r.next_id == 1,
    {
        TodoList { todos: Vec::new(), next_id: 1 }
    }

    /// Add an entry created at the given timestamp: it gets the next
    /// identifier and goes in at its recency position, after any entry that
    /// is at least as recent.
    pub fn add_at(&mut self, title: String, created_at: i64)
        requires
            old(self).wf(),
            old(self).next_id < u32::MAX,
        ensures
            final(self).wf(),
            final(self).next_id == old(self).next_id + 1,
            exists|k: int|
                0 <= k <= old(self).todos@.len() && final(self).todos@ =~= old(self).todos@.insert(
                    k,
                    (Todo { id: old(self).next_id, title: title, completed: false, created_at }),
                ),
    {
        let mut k: usize = 0;
        while k < self.todos.len() && self.todos[k].created_at >= created_at
            invariant
                0 <= k <= self.todos@.len(),
                forall|i: int| 0 <= i < k ==> self.todos@[i].created_at >= created_at,
            decreases self.todos@.len() - k,
        {
            k += 1;
        }
        let todo = Todo { id: self.next_id, title, completed: false, created_at };
        self.todos.insert(k, todo);
        self.next_id += 1;
        proof {
            assert forall|i: int, j: int| 0 <= i <= j < self.todos@.len() implies self.todos@[i]
                .created_at >= self.todos@[j].created_at by {
                if i < k && j > k {
                    assert(old(self).todos@[i] == self.todos@[i]);
                }
            }
        }
    }

    /// Flip the completion flag of the entry with the given identifier;
    /// everything else, including the order, stays as it was. Without such
    /// an entry this is a no-op.
    pub fn toggle(&mut self, id: u32)
        requires
            old(self).wf(),
        ensures
            final(self).wf(),
            final(self).next_id == old(self).next_id,
            final(self).todos@.len() == old(self).todos@.len(),
            forall|i: int|
                0 <= i < old(self).todos@.len() && old(self).todos@[i].id != id ==> final(self).todos@[i] == old(self).todos@[i],
            forall|i: int|
                0 <= i < old(self).todos@.len() && old(self).todos@[i].id == id ==> {
                    &&& final(self).todos@[i].id == id
                    &&& final(self).todos@[i].completed == !old(self).todos@[i].completed
                    &&& final(self).todos@[i].title == old(self).todos@[i].title
                    &&& final(self).todos@[i].created_at == old(self).todos@[i].created_at
                },
    {
        let mut k: usize = 0;
        while k < self.todos.len()
            invariant
                0 <= k <= self.todos@.len(),
                *self == *old(self),
                old(self).wf(),
                forall|i: int| 0 <= i < k ==> self.todos@[i].id != id,
            decreases self.todos@.len() - k,
        {
            if self.todos[k].id == id {
                let mut t = self.todos.remove(k);
                t.completed = !t.completed;
                self.todos.insert(k, t);
                proof {
                    assert(self.todos@ =~= old(self).todos@.update(
                        k as int,
                        (Todo {
                            completed: !old(self).todos@[k as int].completed,
                            ..old(self).todos@[k as int]
                        }),
                    ));
                }
                return ;
            }
            k += 1;
        }
    }

    /// Remove the entry with the given identifier, if there is one;
    /// everything else keeps its relative order.
    pub fn delete(&mut self, id: u32)
        requires
            old(self).wf(),
        ensures
            final(self).wf(),
            final(self).next_id == old(self).next_id,
            (forall|i: int| 0 <= i < old(self).todos@.len() ==> old(self).todos@[i].id != id)
                ==> final(self).todos@ =~= old(self).todos@,
            (exists|i: int| 0 <= i < old(self).todos@.len() && old(self).todos@[i].id == id)
                ==> exists|k: int|
                0 <= k < old(self).todos@.len() && old(self).todos@[k].id == id && final(self).todos@ =~= old(self).todos@.remove(k),
    {
        let mut k: usize = 0;
        while k < self.todos.len()
            invariant
                0 <= k <= self.todos@.len(),
                *self == *old(self),
                old(self).wf(),
                forall|i: int| 0 <= i < k ==> self.todos@[i].id != id,
            decreases self.todos@.len() - k,
        {
            if self.todos[k].id == id {
                self.todos.remove(k);
                return ;
            }
            k += 1;
        }
    }

    /// All entries, newest first (the stored order).
    pub fn get_all(&self) -> (r: Vec<Todo>)
        requires
            self.wf(),
        ensures
            r@ =~= self.todos@,
            sorted_by_recency(r@),
    {
        let mut r: Vec<Todo> = Vec::new();
        let mut k: usize = 0;
        while k < self.todos.len()
            invariant
                0 <= k <= self.todos@.len(),
                r@ =~= self.todos@.subrange(0, k as int),
            decreases self.todos@.len() - k,
        {
            let t = &self.todos[k];
            r.push(Todo {
                id: t.id,
                title: t.title.clone(),
                completed: t.completed,
                created_at: t.created_at,
            });
            k += 1;
            proof {
                assert(r@ =~= self.todos@.subrange(0, k as int));
            }
        }
        proof {
            assert(r@ =~= self.todos@);
        }
        r
    }

    /// How many entries are completed.
    pub fn get_completed_count(&self) -> (r: usize)
        ensures
            r == count_completed(self.todos@),
    {
        let mut c: usize = 0;
        let mut k: usize = 0;
        while k < self.todos.len()
            invariant
                0 <= k <= self.todos@.len(),
                c == count_completed(self.todos@.subrange(0, k as int)),
                c <= k,
            decreases self.todos@.len() - k,
        {
            proof {
                assert(self.todos@.subrange(0, k as int + 1).drop_last() =~= self.todos@.subrange(
                    0,
                    k as int,
                ));
            }
            if self.todos[k].completed {
                c += 1;
            }
            k += 1;
        }
        proof {
            assert(self.todos@.subrange(0, self.todos@.len() as int) =~= self.todos@);
        }
        c
    }

    /// How many entries are still pending.
    pub fn get_pending_count(&self) -> (r: usize)
        ensures
            r == count_pending(self.todos@),
    {
        let mut c: usize = 0;
        let mut k: usize = 0;
        while k < self.todos.len()
            invariant
                0 <= k <= self.todos@.len(),
                c == count_pending(self.todos@.subrange(0, k as int)),
                c <= k,
            decreases self.todos@.len() - k,
        {
            proof {
                assert(self.todos@.subrange(0, k as int + 1).drop_last() =~= self.todos@.subrange(
                    0,
                    k as int,
                ));
            }
            if !self.todos[k].completed {
                c += 1;
            }
            k += 1;
        }
        proof {
            assert(self.todos@.subrange(0, self.todos@.len() as int) =~= self.todos@);
        }
        c
    }

    /// `add_at` at the wall clock's current time.
    pub fn add(&mut self, title: String)
        requires
            old(self).wf(),
            old(self).next_id < u32::MAX,
        ensures
            final(self).wf(),
            final(self).next_id == old(self).next_id + 1,
            exists|k: int, t: i64|
                0 <= k <= old(self).todos@.len() && final(self).todos@ =~= old(self).todos@.insert(
                    k,
                    (Todo { id: old(self).next_id, title: title, completed: false, created_at: t }),
                ),
    {
        let t = crate::clock::now_timestamp();
        self.add_at(title, t);
    }
}

} // verus!
