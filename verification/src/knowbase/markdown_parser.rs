//! Finding tasks in the events of a parsed note.

use vstd::prelude::*;

use crate::knowbase::todo::{TaskFactory, TaskFactoryView};
use crate::todo::tasks::TaskView;

verus! {

/// What the parser of a note reports, as far as tasks are concerned.
#[derive(Debug, PartialEq, Eq)]
pub enum NoteEvent {
    /// A list begins.
    ListStart,
    /// A list ends.
    ListEnd,
    /// A run of text.
    Text { text: String },
    /// The box of a task, ticked or not.
    TaskListMarker { done: bool },
    /// Anything else.
    Other,
}

/// A [`NoteEvent`] as plain values.
pub enum NoteEventView {
    ListStart,
    ListEnd,
    Text { text: Seq<char> },
    TaskListMarker { done: bool },
    Other,
}

impl View for NoteEvent {
    type V = NoteEventView;

    open spec fn view(&self) -> NoteEventView {
        match self {
            NoteEvent::ListStart => NoteEventView::ListStart,
            NoteEvent::ListEnd => NoteEventView::ListEnd,
            NoteEvent::Text { text } => NoteEventView::Text { text: text@ },
            NoteEvent::TaskListMarker { done } => NoteEventView::TaskListMarker { done: *done },
            NoteEvent::Other => NoteEventView::Other,
        }
    }
}

/// The events of a note as plain values.
pub open spec fn spec_events(events: Seq<NoteEvent>) -> Seq<NoteEventView> {
    Seq::new(events.len(), |i: int| events[i]@)
}

/// The reader of a note: whether it is inside a list, and what it has
/// collected.
pub struct Reading {
    pub in_list: bool,
    pub tasks: TaskFactoryView,
}

/// The reader after one more event of the note at `path`. Text inside a list
/// makes a task of that title, described by the path; the box of a task says
/// whether the next task is done.
pub open spec fn spec_read(reading: Reading, path: Seq<char>, event: NoteEventView) -> Reading {
    match event {
        NoteEventView::ListStart => Reading { in_list: true, ..reading },
        NoteEventView::ListEnd => Reading { in_list: false, ..reading },
        NoteEventView::Text { text } => if text.len() > 0 && reading.in_list {
            Reading {
                tasks: TaskFactoryView {
                    tasks: reading.tasks.tasks.push(
                        TaskView { description: path, title: text, ..reading.tasks.current },
                    ),
                    current: TaskView::empty(),
                },
                ..reading
            }
        } else {
            reading
        },
        NoteEventView::TaskListMarker { done } => Reading {
            tasks: TaskFactoryView {
                current: TaskView { done, ..reading.tasks.current },
                ..reading.tasks
            },
            ..reading
        },
        NoteEventView::Other => reading,
    }
}

/// The reader after the first `n` events.
pub open spec fn spec_read_events(path: Seq<char>, events: Seq<NoteEventView>, n: nat) -> Reading
    decreases n,
{
    if n == 0 || n > events.len() {
        Reading {
            in_list: false,
            tasks: TaskFactoryView { tasks: Seq::empty(), current: TaskView::empty() },
        }
    } else {
        spec_read(spec_read_events(path, events, (n - 1) as nat), path, events[n - 1])
    }
}

/// Collects the tasks of the note at `path` from its events; see
/// [`spec_read`].
pub fn read_events(path: &str, events: &Vec<NoteEvent>) -> (r: TaskFactory)
    ensures
        r@ == spec_read_events(path@, spec_events(events@), events@.len()).tasks,
{
    let mut is_list = false;
    let mut tasks = TaskFactory::new();
    let mut i: usize = 0;
    while i < events.len()
        invariant
            i <= events.len(),
            spec_read_events(path@, spec_events(events@), i as nat) == (Reading {
                in_list: is_list,
                tasks: tasks@,
            }),
        decreases events.len() - i,
    {
        assert(spec_events(events@)[i as int] == events@[i as int]@);
        match &events[i] {
            NoteEvent::ListStart => {
                is_list = true;
            },
            NoteEvent::ListEnd => {
                is_list = false;
            },
            NoteEvent::Text { text } => {
                if text.as_str().unicode_len() > 0 && is_list {
                    tasks.set_description(path.to_owned());
                    tasks.set_title(text.clone());
                    tasks.append();
                }
            },
            NoteEvent::TaskListMarker { done } => {
                tasks.set_done(*done);
            },
            NoteEvent::Other => {},
        }
        i = i + 1;
    }
    tasks
}

} // verus!
