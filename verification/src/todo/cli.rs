//! The commands on the tasks of a file: create, read, update and delete.

use std::collections::HashMap;
use vstd::prelude::*;
use vstd::std_specs::iter::IteratorSpec;
use vstd::string::*;

use crate::config::{spec_text, ColorWhen};
use crate::text::same;
use crate::todo::enums::{Day, Priority};
use crate::todo::tasks::{spec_add, spec_objects, Task, TaskView, TasksFile};
use crate::vcs::comparaison::{or_empty, spec_or_empty};

verus! {

/// A copy of a run of days, or no days where there is none.
fn days_or_none(days: &Option<Vec<Day>>) -> (r: Vec<Day>)
    ensures
        r@ == spec_days(*days),
{
    match days {
        Some(list) => {
            let mut r: Vec<Day> = Vec::new();
            let mut i: usize = 0;
            while i < list.len()
                invariant
                    i <= list.len(),
                    r@ == list@.take(i as int),
                decreases list.len() - i,
            {
                r.push(list[i]);
                assert(list@.take(i + 1) =~= list@.take(i as int).push(list@[i as int]));
                i = i + 1;
            }
            assert(list@.take(i as int) =~= list@);
            r
        },
        None => Vec::new(),
    }
}

/// The days of an optional run of days.
pub open spec fn spec_days(days: Option<Vec<Day>>) -> Seq<Day> {
    match days {
        Some(list) => list@,
        None => Seq::empty(),
    }
}

/// Create a task.
#[derive(Debug, PartialEq, Eq)]
pub struct CreateTask {
    pub title: String,
    pub description: Option<String>,
    pub start: Option<String>,
    pub end: Option<String>,
    pub priority: Priority,
    pub one_off: bool,
    pub days: Option<Vec<Day>>,
    pub after: Option<i16>,
}

impl CreateTask {
    /// The task that the command describes, before it has a number.
    pub open spec fn spec_task(&self) -> TaskView {
        TaskView {
            id: 0,
            title: self.title@,
            description: spec_or_empty(spec_text(self.description)),
            start: spec_or_empty(spec_text(self.start)),
            end: spec_or_empty(spec_text(self.end)),
            priority: self.priority,
            done: false,
            days: spec_days(self.days),
            after: self.after,
        }
    }

    /// Adds the task to `file` under the next number. The answer is 0.
    pub fn run(&self, file: &mut TasksFile) -> (r: i16)
        ensures
            r == 0,
            spec_objects(final(file).objects@) == spec_add(
                spec_objects(old(file).objects@),
                self.spec_task(),
            ),
            final(file).seen == old(file).seen,
            final(file).last_check == old(file).last_check,
    {
        let item = Task::new(
            self.title.clone(),
            or_empty(&self.description),
            or_empty(&self.start),
            or_empty(&self.end),
            self.priority,
            self.after,
            days_or_none(&self.days),
        );
        file.add(item);
        0
    }
}

/// Read tasks.
#[derive(Debug, PartialEq, Eq)]
pub struct ReadTask {
    pub all: bool,
    pub id: Option<i16>,
    pub title: Option<String>,
    pub start: Option<String>,
    pub end: Option<String>,
    pub priority: Option<Priority>,
    pub days: Option<Vec<Day>>,
    pub done: Option<bool>,
}

/// The tasks among `objects` that are done, or not done, as `done` asks;
/// every task where it asks for neither.
pub open spec fn spec_shown(objects: Map<i16, TaskView>, done: Option<bool>) -> Map<i16, TaskView> {
    Map::new(
        |id: i16|
            objects.dom().contains(id) && match done {
                Some(d) => objects[id].done == d,
                None => true,
            },
        |id: i16| objects[id],
    )
}

impl ReadTask {
    /// The tasks to show; see [`spec_shown`].
    pub fn run(&self, file: &TasksFile) -> (r: HashMap<i16, Task>)
        ensures
            spec_objects(r@) == spec_shown(spec_objects(file.objects@), self.done),
    {
        broadcast use vstd::std_specs::hash::group_hash_axioms;

        let mut r: HashMap<i16, Task> = HashMap::new();
        let keys = file.objects.keys();
        let ghost all = keys.remaining().unref();
        let ghost objects = spec_objects(file.objects@);
        let ghost mut n: int = 0;
        for k in it: keys
            invariant
                it.seq().unref() == all,
                all.to_set() == file.objects@.dom(),
                objects == spec_objects(file.objects@),
                n == it.index(),
                forall|id: i16|
                    r@.dom().contains(id) <==> (exists|i: int| 0 <= i < n && all[i] == id)
                        && spec_shown(objects, self.done).dom().contains(id),
                forall|id: i16| r@.dom().contains(id) ==> r@[id]@ == objects[id],
        {
            assert(all[n] == *k);
            assert(all.to_set().contains(all[n]));
            match file.objects.get(k) {
                Some(task) => {
                    let wanted = match self.done {
                        Some(d) => task.done == d,
                        None => true,
                    };
                    if wanted {
                        r.insert(*k, task.clone());
                    }
                },
                None => {},
            }
            proof {
                n = n + 1;
            }
        }
        proof {
            assert forall|id: i16|
                spec_shown(objects, self.done).dom().contains(id) implies r@.dom().contains(
                id,
            ) by {
                assert(all.to_set().contains(id));
            }
            assert(spec_objects(r@) =~= spec_shown(objects, self.done));
        }
        r
    }
}

/// Update a task.
#[derive(Debug, PartialEq, Eq)]
pub struct UpdateTask {
    pub id: i16,
    pub title: Option<String>,
    pub description: Option<String>,
    pub start: Option<String>,
    pub end: Option<String>,
    pub priority: Option<Priority>,
    pub done: Option<bool>,
    pub days: Option<Vec<Day>>,
    pub after: Option<i16>,
}

impl UpdateTask {
    /// `item` with every field replaced that the command names.
    pub open spec fn spec_updated(&self, item: TaskView) -> TaskView {
        TaskView {
            id: item.id,
            title: match self.title {
                Some(t) => t@,
                None => item.title,
            },
            description: match self.description {
                Some(t) => t@,
                None => item.description,
            },
            start: match self.start {
                Some(t) => t@,
                None => item.start,
            },
            end: match self.end {
                Some(t) => t@,
                None => item.end,
            },
            priority: match self.priority {
                Some(p) => p,
                None => item.priority,
            },
            done: match self.done {
                Some(d) => d,
                None => item.done,
            },
            days: match self.days {
                Some(d) => d@,
                None => item.days,
            },
            after: item.after,
        }
    }

    /// `item` with every field replaced that the command names.
    pub fn updated(&self, item: &Task) -> (r: Task)
        ensures
            r@ == self.spec_updated(item@),
    {
        let mut r = item.clone();
        match &self.title {
            Some(t) => {
                r.title = t.clone();
            },
            None => {},
        }
        match &self.description {
            Some(t) => {
                r.description = t.clone();
            },
            None => {},
        }
        match &self.start {
            Some(t) => {
                r.start = t.clone();
            },
            None => {},
        }
        match &self.end {
            Some(t) => {
                r.end = t.clone();
            },
            None => {},
        }
        match self.priority {
            Some(p) => {
                r.priority = p;
            },
            None => {},
        }
        match self.done {
            Some(d) => {
                r.done = d;
            },
            None => {},
        }
        match &self.days {
            Some(_) => {
                r.days = days_or_none(&self.days);
            },
            None => {},
        }
        r
    }

    /// Updates the task of `file` that has the number of the command, where
    /// there is one. The answer is 0.
    pub fn run(self, file: &mut TasksFile) -> (r: i16)
        ensures
            r == 0,
            spec_objects(final(file).objects@) == (if old(file).objects@.dom().contains(self.id) {
                spec_objects(old(file).objects@).insert(
                    self.id,
                    self.spec_updated(old(file).objects@[self.id]@),
                )
            } else {
                spec_objects(old(file).objects@)
            }),
            final(file).seen == old(file).seen,
            final(file).last_check == old(file).last_check,
    {
        broadcast use vstd::std_specs::hash::group_hash_axioms;

        let ghost before = spec_objects(file.objects@);
        let changed = match file.objects.get(&self.id) {
            Some(item) => Some(self.updated(item)),
            None => None,
        };
        match changed {
            Some(item) => {
                file.objects.insert(self.id, item);
                assert(spec_objects(file.objects@) =~= before.insert(self.id, item@));
            },
            None => {},
        }
        0
    }
}

/// Delete a task, by number or else by title.
#[derive(Debug, PartialEq, Eq)]
pub struct DeleteTask {
    pub id: Option<i16>,
    pub title: Option<String>,
}

impl TasksFile {
    /// Takes a task titled `title` out of the file. The answer is 0 where
    /// there was one, and 1 where there was none. Where several tasks share
    /// the title, one of them leaves.
    pub fn delete_by_title(&mut self, title: String) -> (r: i16)
        ensures
            r == 0 || r == 1,
            r == 0 ==> exists|id: i16|
                old(self).objects@.dom().contains(id) && old(self).objects@[id].title@ == title@
                    && final(self).objects@ == old(self).objects@.remove(id),
            r == 1 ==> final(self).objects@ == old(self).objects@ && forall|id: i16|
                old(self).objects@.dom().contains(id) ==> old(self).objects@[id].title@ != title@,
            final(self).seen == old(self).seen,
            final(self).last_check == old(self).last_check,
    {
        broadcast use vstd::std_specs::hash::group_hash_axioms;

        let mut found: Option<i16> = None;
        let keys = self.objects.keys();
        let ghost all = keys.remaining().unref();
        let ghost objects = self.objects@;
        let ghost mut n: int = 0;
        for k in it: keys
            invariant
                it.seq().unref() == all,
                all.to_set() == objects.dom(),
                objects == self.objects@,
                n == it.index(),
                match found {
                    Some(id) => objects.dom().contains(id) && objects[id].title@ == title@,
                    None => forall|i: int| 0 <= i < n ==> objects[all[i]].title@ != title@,
                },
        {
            assert(all[n] == *k);
            assert(all.to_set().contains(all[n]));
            if found.is_none() {
                match self.objects.get(k) {
                    Some(task) => {
                        if same(task.title.as_str(), title.as_str()) {
                            found = Some(*k);
                        }
                    },
                    None => {},
                }
            }
            proof {
                n = n + 1;
            }
        }
        match found {
            Some(id) => self.delete_by_id(id),
            None => {
                proof {
                    assert forall|id: i16| objects.dom().contains(id) implies objects[id].title@
                        != title@ by {
                        assert(all.to_set().contains(id));
                    }
                }
                1
            },
        }
    }

    /// Takes a task out of the file: the one numbered `id` where a number is
    /// given, and otherwise one titled `title`; see
    /// [`TasksFile::delete_by_id`] and [`TasksFile::delete_by_title`].
    pub fn delete(&mut self, id: Option<i16>, title: Option<String>) -> (r: i16)
        requires
            id is Some || title is Some,
        ensures
            r == 0 || r == 1,
            id is Some ==> final(self).objects@ == old(self).objects@.remove(id->0) && (r == 0
                <==> old(self).objects@.dom().contains(id->0)),
            id is None ==> (r == 0 ==> exists|k: i16|
                old(self).objects@.dom().contains(k) && old(self).objects@[k].title@
                    == title->0@ && final(self).objects@ == old(self).objects@.remove(k)),
            id is None ==> (r == 1 ==> final(self).objects@ == old(self).objects@ && forall|k: i16|
                old(self).objects@.dom().contains(k) ==> old(self).objects@[k].title@
                    != title->0@),
            final(self).seen == old(self).seen,
            final(self).last_check == old(self).last_check,
    {
        match id {
            Some(val) => self.delete_by_id(val),
            None => match title {
                Some(val) => self.delete_by_title(val),
                None => 1,
            },
        }
    }
}

impl DeleteTask {
    /// Takes the task the command names out of `file`; see
    /// [`TasksFile::delete`].
    pub fn run(&self, file: &mut TasksFile) -> (r: i16)
        requires
            self.id is Some || self.title is Some,
        ensures
            r == 0 || r == 1,
            self.id is Some ==> final(file).objects@ == old(file).objects@.remove(self.id->0) && (r
                == 0 <==> old(file).objects@.dom().contains(self.id->0)),
            self.id is None ==> (r == 0 ==> exists|k: i16|
                old(file).objects@.dom().contains(k) && old(file).objects@[k].title@
                    == self.title->0@ && final(file).objects@ == old(file).objects@.remove(k)),
            self.id is None ==> (r == 1 ==> final(file).objects@ == old(file).objects@
                && forall|k: i16|
                old(file).objects@.dom().contains(k) ==> old(file).objects@[k].title@
                    != self.title->0@),
            final(file).seen == old(file).seen,
            final(file).last_check == old(file).last_check,
    {
        let title = match &self.title {
            Some(t) => Some(t.clone()),
            None => None,
        };
        file.delete(self.id, title)
    }
}

/// The commands on tasks.
#[derive(Debug, PartialEq, Eq)]
pub enum TaskCommands {
    /// Create a new object
    Create(CreateTask),
    /// Update an actual object
    Update(UpdateTask),
    /// Delete one object
    Delete(DeleteTask),
    /// Read one or more objects
    Read(ReadTask),
}

impl TaskCommands {
    /// Carries the command out on `file`. The answer is 0 whatever the
    /// command came to; what a read finds is had from [`ReadTask::run`].
    pub fn handle_commands(self, file: &mut TasksFile) -> (r: i16)
        requires
            self matches TaskCommands::Delete(d) ==> d.id is Some || d.title is Some,
        ensures
            r == 0,
            final(file).seen == old(file).seen,
            final(file).last_check == old(file).last_check,
            match self {
                TaskCommands::Create(c) => spec_objects(final(file).objects@) == spec_add(
                    spec_objects(old(file).objects@),
                    c.spec_task(),
                ),
                TaskCommands::Update(u) => spec_objects(final(file).objects@) == (if old(
                    file,
                ).objects@.dom().contains(u.id) {
                    spec_objects(old(file).objects@).insert(
                        u.id,
                        u.spec_updated(old(file).objects@[u.id]@),
                    )
                } else {
                    spec_objects(old(file).objects@)
                }),
                TaskCommands::Delete(d) => match d.id {
                    Some(id) => final(file).objects@ == old(file).objects@.remove(id),
                    None => final(file).objects@ == old(file).objects@ && (forall|k: i16|
                        old(file).objects@.dom().contains(k) ==> old(file).objects@[k].title@
                            != d.title->0@) || exists|k: i16|
                        old(file).objects@.dom().contains(k) && old(file).objects@[k].title@
                            == d.title->0@ && final(file).objects@ == old(file).objects@.remove(k),
                },
                TaskCommands::Read(_) => final(file).objects@ == old(file).objects@,
            },
    {
        match self {
            TaskCommands::Create(args) => {
                args.run(file);
            },
            TaskCommands::Update(args) => {
                args.run(file);
            },
            TaskCommands::Delete(args) => {
                args.run(file);
            },
            TaskCommands::Read(args) => {
                args.run(file);
            },
        }
        0
    }
}

/// The arguments of the commands on tasks.
#[derive(Debug, PartialEq, Eq)]
pub struct TaskArgs {
    pub command: TaskCommands,
    pub color: ColorWhen,
}

} // verus!
