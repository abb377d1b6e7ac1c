//! Collecting the tasks found in a note.

use vstd::prelude::*;

use crate::todo::tasks::{
    spec_add_many, spec_objects, spec_tasks, Task, TaskView, TasksFile,
};

verus! {

/// The tasks collected so far, and the one being put together.
#[derive(Debug, PartialEq, Eq)]
pub struct TaskFactory {
    pub tasks: Vec<Task>,
    pub current: Task,
}

/// A [`TaskFactory`] as plain values.
pub struct TaskFactoryView {
    pub tasks: Seq<TaskView>,
    pub current: TaskView,
}

impl View for TaskFactory {
    type V = TaskFactoryView;

    open spec fn view(&self) -> TaskFactoryView {
        TaskFactoryView { tasks: spec_tasks(self.tasks@), current: self.current@ }
    }
}

impl TaskFactory {
    /// A factory that has collected nothing.
    pub fn new() -> (r: Self)
        ensures
            r@ == (TaskFactoryView { tasks: Seq::empty(), current: TaskView::empty() }),
    {
        let r = TaskFactory { tasks: Vec::new(), current: Task::default() };
        assert(r@.tasks =~= Seq::empty());
        r
    }

    /// Adds the collected tasks to `file`; the answer is that of
    /// [`TasksFile::add_many`].
    pub fn save(self, file: &mut TasksFile) -> (r: i16)
        ensures
            r == 0,
            spec_objects(final(file).objects@) == spec_add_many(
                spec_objects(old(file).objects@),
                self@.tasks,
            ),
    {
        file.add_many(self.tasks)
    }

    /// Takes the task being put together into the collection and starts a
    /// new one.
    pub fn append(&mut self)
        ensures
            final(self)@ == (TaskFactoryView {
                tasks: old(self)@.tasks.push(old(self)@.current),
                current: TaskView::empty(),
            }),
    {
        let ghost before = self@;
        let mut taken = Task::default();
        core::mem::swap(&mut self.current, &mut taken);
        self.tasks.push(taken);
        assert(self@.tasks =~= before.tasks.push(before.current));
    }

    /// Describes the task being put together.
    pub fn set_description(&mut self, description: String)
        ensures
            final(self)@ == (TaskFactoryView {
                current: TaskView { description: description@, ..old(self)@.current },
                ..old(self)@
            }),
    {
        self.current.description = description;
    }

    /// Names the task being put together.
    pub fn set_title(&mut self, title: String)
        ensures
            final(self)@ == (TaskFactoryView {
                current: TaskView { title: title@, ..old(self)@.current },
                ..old(self)@
            }),
    {
        self.current.title = title;
    }

    /// Marks the task being put together as done or not.
    pub fn set_done(&mut self, done: bool)
        ensures
            final(self)@ == (TaskFactoryView {
                current: TaskView { done, ..old(self)@.current },
                ..old(self)@
            }),
    {
        self.current.done = done;
    }
}

} // verus!
