//! Tasks, and the file that keeps them.

use std::collections::{HashMap, HashSet};
use vstd::prelude::*;
use vstd::std_specs::iter::IteratorSpec;
use vstd::string::*;

use crate::todo::enums::{Day, Priority};

verus! {

/// One thing to do.
#[derive(Debug, PartialEq, Eq)]
pub struct Task {
    pub id: i16,
    pub title: String,
    pub description: String,
    pub start: String,
    pub end: String,
    pub priority: Priority,
    pub done: bool,
    pub days: Vec<Day>,
    pub after: Option<i16>,
}

/// A [`Task`] as plain values.
pub struct TaskView {
    pub id: i16,
    pub title: Seq<char>,
    pub description: Seq<char>,
    pub start: Seq<char>,
    pub end: Seq<char>,
    pub priority: Priority,
    pub done: bool,
    pub days: Seq<Day>,
    pub after: Option<i16>,
}

impl View for Task {
    type V = TaskView;

    open spec fn view(&self) -> TaskView {
        TaskView {
            id: self.id,
            title: self.title@,
            description: self.description@,
            start: self.start@,
            end: self.end@,
            priority: self.priority,
            done: self.done,
            days: self.days@,
            after: self.after,
        }
    }
}

impl TaskView {
    /// The task that nothing has been said about.
    pub open spec fn empty() -> TaskView {
        TaskView {
            id: 0,
            title: Seq::empty(),
            description: Seq::empty(),
            start: Seq::empty(),
            end: Seq::empty(),
            priority: Priority::Low,
            done: false,
            days: Seq::empty(),
            after: None,
        }
    }

    /// The first line of the notification of the task: its title and when it
    /// is due, which is its start where it has one and its end otherwise.
    pub open spec fn summary(&self) -> Seq<char> {
        "The task "@ + self.title + " is due "@ + (if self.start.len() == 0 {
            self.end
        } else {
            self.start
        })
    }
}

/// A copy of a run of days.
fn clone_days(days: &Vec<Day>) -> (r: Vec<Day>)
    ensures
        r@ == days@,
{
    let mut r: Vec<Day> = Vec::new();
    let mut i: usize = 0;
    while i < days.len()
        invariant
            i <= days.len(),
            r@ == days@.take(i as int),
        decreases days.len() - i,
    {
        r.push(days[i]);
        assert(days@.take(i + 1) =~= days@.take(i as int).push(days@[i as int]));
        i = i + 1;
    }
    assert(days@.take(i as int) =~= days@);
    r
}

impl Clone for Task {
    fn clone(&self) -> (r: Self)
        ensures
            r@ == self@,
    {
        Task {
            id: self.id,
            title: self.title.clone(),
            description: self.description.clone(),
            start: self.start.clone(),
            end: self.end.clone(),
            priority: self.priority,
            done: self.done,
            days: clone_days(&self.days),
            after: self.after,
        }
    }
}

impl Default for Task {
    fn default() -> (r: Self)
        ensures
            r@ == TaskView::empty(),
    {
        Task {
            id: 0,
            title: String::new(),
            description: String::new(),
            start: String::new(),
            end: String::new(),
            priority: Priority::Low,
            done: false,
            days: Vec::new(),
            after: None,
        }
    }
}

impl Task {
    /// A task that is not done and has no number yet.
    pub fn new(
        title: String,
        description: String,
        start: String,
        end: String,
        priority: Priority,
        after: Option<i16>,
        days: Vec<Day>,
    ) -> (r: Self)
        ensures
            r@ == (TaskView {
                id: 0,
                title: title@,
                description: description@,
                start: start@,
                end: end@,
                priority,
                done: false,
                days: days@,
                after,
            }),
    {
        Task { id: 0, title, description, start, end, priority, after, done: false, days }
    }

    /// Gives the task its number.
    pub fn set_id(&mut self, id: i16)
        ensures
            final(self)@ == (TaskView { id, ..old(self)@ }),
    {
        self.id = id;
    }

    /// Whether the task is done once rather than on days of the week.
    pub fn is_one_off(&self) -> (r: bool)
        ensures
            r == (self@.days.len() == 0),
    {
        self.days.len() == 0
    }

    /// The first line of the notification of the task.
    pub fn summary(&self) -> (r: String)
        ensures
            r@ == self@.summary(),
    {
        let head = String::from_str("The task ").concat(self.title.as_str()).concat(" is due ");
        if self.start.as_str().unicode_len() == 0 {
            head.concat(self.end.as_str())
        } else {
            head.concat(self.start.as_str())
        }
    }
}

/// The tasks of a file as plain values, by number.
pub open spec fn spec_objects(objects: Map<i16, Task>) -> Map<i16, TaskView> {
    Map::new(|id: i16| objects.dom().contains(id), |id: i16| objects[id]@)
}

/// Whether `r` is the number for the next task: one more than the greatest
/// number in use, or 1 where none is in use. The greatest number there is
/// stands for itself.
pub open spec fn spec_is_latest(ids: Set<i16>, r: i16) -> bool {
    if ids.len() == 0 {
        r == 1
    } else {
        exists|k: i16|
            ids.contains(k) && (forall|j: i16| ids.contains(j) ==> j <= k) && r == (if k
                == i16::MAX {
                i16::MAX
            } else {
                (k + 1) as i16
            })
    }
}

/// The number for the next task; see [`spec_is_latest`].
pub open spec fn spec_latest_id(ids: Set<i16>) -> i16 {
    choose|r: i16| spec_is_latest(ids, r)
}

/// There is one number for the next task.
pub proof fn lemma_latest_is_one(ids: Set<i16>, a: i16, b: i16)
    requires
        spec_is_latest(ids, a),
        spec_is_latest(ids, b),
    ensures
        a == b,
        a == spec_latest_id(ids),
{
    if ids.len() != 0 {
        let k = choose|k: i16|
            ids.contains(k) && (forall|j: i16| ids.contains(j) ==> j <= k) && a == (if k
                == i16::MAX {
                i16::MAX
            } else {
                (k + 1) as i16
            });
        let l = choose|k: i16|
            ids.contains(k) && (forall|j: i16| ids.contains(j) ==> j <= k) && b == (if k
                == i16::MAX {
                i16::MAX
            } else {
                (k + 1) as i16
            });
        assert(k <= l && l <= k);
    }
    let c = spec_latest_id(ids);
    if ids.len() != 0 {
        let k = choose|k: i16|
            ids.contains(k) && (forall|j: i16| ids.contains(j) ==> j <= k) && a == (if k
                == i16::MAX {
                i16::MAX
            } else {
                (k + 1) as i16
            });
        let m = choose|k: i16|
            ids.contains(k) && (forall|j: i16| ids.contains(j) ==> j <= k) && c == (if k
                == i16::MAX {
                i16::MAX
            } else {
                (k + 1) as i16
            });
        assert(k <= m && m <= k);
    }
}

/// The tasks after `task` has been added: it takes the next number, and is
/// kept unless that number is in use.
pub open spec fn spec_add(objects: Map<i16, TaskView>, task: TaskView) -> Map<i16, TaskView> {
    let id = spec_latest_id(objects.dom());
    if objects.dom().contains(id) {
        objects
    } else {
        objects.insert(id, TaskView { id, ..task })
    }
}

/// The tasks after `incoming` have been added in order; see [`spec_add`].
pub open spec fn spec_add_many(objects: Map<i16, TaskView>, incoming: Seq<TaskView>) -> Map<
    i16,
    TaskView,
>
    decreases incoming.len(),
{
    if incoming.len() == 0 {
        objects
    } else {
        spec_add(spec_add_many(objects, incoming.drop_last()), incoming.last())
    }
}

/// A run of tasks as plain values.
pub open spec fn spec_tasks(tasks: Seq<Task>) -> Seq<TaskView> {
    Seq::new(tasks.len(), |i: int| tasks[i]@)
}

/// The file that keeps the tasks: the tasks by number, the numbers of those
/// already shown today, and the time of the last look.
#[derive(Debug, PartialEq, Eq)]
pub struct TasksFile {
    pub objects: HashMap<i16, Task>,
    pub seen: HashSet<i16>,
    pub last_check: String,
}

impl Default for TasksFile {
    fn default() -> (r: Self)
        ensures
            r.objects@ == Map::<i16, Task>::empty(),
            r.seen@ == Set::<i16>::empty(),
            r.last_check@.len() == 0,
    {
        TasksFile { objects: HashMap::new(), seen: HashSet::new(), last_check: String::new() }
    }
}

impl TasksFile {
    /// The number for the next task; see [`spec_is_latest`].
    pub fn get_latest_id(&self) -> (r: i16)
        ensures
            r == spec_latest_id(self.objects@.dom()),
            spec_is_latest(self.objects@.dom(), r),
    {
        broadcast use vstd::std_specs::hash::group_hash_axioms;

        let mut best: Option<i16> = None;
        let keys = self.objects.keys();
        let ghost all = keys.remaining().unref();
        let ghost ids = self.objects@.dom();
        let ghost mut n: int = 0;
        for k in it: keys
            invariant
                it.seq().unref() == all,
                all.to_set() == ids,
                all.len() == ids.len(),
                n == it.index(),
                match best {
                    None => n == 0,
                    Some(b) => exists|i: int| 0 <= i < n && all[i] == b,
                },
                forall|i: int| 0 <= i < n ==> best is Some && all[i] <= best->0,
        {
            assert(all[n] == *k);
            match best {
                None => {
                    best = Some(*k);
                },
                Some(b) => {
                    if *k > b {
                        best = Some(*k);
                    }
                },
            }
            proof {
                n = n + 1;
            }
        }
        let r: i16 = match best {
            None => 1,
            Some(b) => if b == i16::MAX {
                i16::MAX
            } else {
                b + 1
            },
        };
        proof {
            match best {
                None => {},
                Some(b) => {
                    let at = choose|i: int| 0 <= i < n && all[i] == b;
                    assert(all.to_set().contains(all[at]));
                    assert(ids.len() > 0);
                    assert forall|j: i16| ids.contains(j) implies j <= b by {
                        assert(all.to_set().contains(j));
                        let i = choose|i: int| 0 <= i < all.len() && all[i] == j;
                        assert(all[i] <= b);
                    }
                },
            }
            assert(spec_is_latest(ids, r));
            lemma_latest_is_one(ids, r, r);
        }
        r
    }

    /// Adds `task` to the file under the next number; see [`spec_add`].
    pub fn add(&mut self, task: Task)
        ensures
            spec_objects(final(self).objects@) == spec_add(spec_objects(old(self).objects@), task@),
            final(self).seen == old(self).seen,
            final(self).last_check == old(self).last_check,
    {
        broadcast use vstd::std_specs::hash::group_hash_axioms;

        let ghost before = spec_objects(self.objects@);
        assert(before.dom() =~= self.objects@.dom());
        let id: i16 = self.get_latest_id();
        if !self.objects.contains_key(&id) {
            let mut task = task;
            task.set_id(id);
            self.objects.insert(id, task);
            assert(spec_objects(self.objects@) =~= before.insert(id, task@));
        }
    }

    /// Adds `tasks` to the file; see [`spec_add_many`]. The answer is 0.
    pub fn add_many(&mut self, tasks: Vec<Task>) -> (r: i16)
        ensures
            r == 0,
            spec_objects(final(self).objects@) == spec_add_many(
                spec_objects(old(self).objects@),
                spec_tasks(tasks@),
            ),
            final(self).seen == old(self).seen,
            final(self).last_check == old(self).last_check,
    {
        let ghost start = spec_objects(self.objects@);
        let ghost incoming = spec_tasks(tasks@);
        let mut i: usize = 0;
        assert(incoming.take(0).len() == 0);
        while i < tasks.len()
            invariant
                i <= tasks.len(),
                incoming == spec_tasks(tasks@),
                start == spec_objects(old(self).objects@),
                spec_objects(self.objects@) == spec_add_many(start, incoming.take(i as int)),
                self.seen == old(self).seen,
                self.last_check == old(self).last_check,
            decreases tasks.len() - i,
        {
            let ghost next = incoming.take(i + 1);
            assert(next.drop_last() =~= incoming.take(i as int));
            assert(next.last() == tasks@[i as int]@);
            self.add(tasks[i].clone());
            i = i + 1;
        }
        assert(incoming.take(i as int) =~= incoming);
        0
    }

    /// Takes the task numbered `id` out of the file. The answer is 0 where
    /// there was one, and 1 where there was none.
    pub fn delete_by_id(&mut self, id: i16) -> (r: i16)
        ensures
            final(self).objects@ == old(self).objects@.remove(id),
            r == (if old(self).objects@.dom().contains(id) {
                0i16
            } else {
                1i16
            }),
            final(self).seen == old(self).seen,
            final(self).last_check == old(self).last_check,
    {
        broadcast use vstd::std_specs::hash::group_hash_axioms;

        match self.objects.remove(&id) {
            None => {
                assert(self.objects@ =~= old(self).objects@.remove(id));
                1
            },
            Some(_) => 0,
        }
    }
}

} // verus!
