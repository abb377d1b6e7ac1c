//! The logbooks: the master logbook, which indexes the tracked files of a
//! project and keeps the trail of events, and the logbook of one file. Both
//! only ever grow. The steps of a plan say what an operation writes to them
//! and what it copies or transfers.

use vstd::prelude::*;
use vstd::string::*;

use crate::error::{Error, ErrorView, RemoteOperation};
use crate::text::{decimal_i64, join, same, spec_decimal, spec_join};
use crate::vcs::cli::Events;
use crate::vcs::file::{
    spec_statement, spec_texts, statement, LogbookProvider, Statement, StatementView,
};
use crate::vcs::versioning::{Commit, CommitView};

verus! {

/// One row of the index of tracked files.
#[derive(Debug, PartialEq, Eq)]
pub struct TrackedFile {
    pub path: String,
    pub branch: String,
}

/// A [`TrackedFile`] as plain values.
pub struct TrackedFileView {
    pub path: Seq<char>,
    pub branch: Seq<char>,
}

impl View for TrackedFile {
    type V = TrackedFileView;

    open spec fn view(&self) -> TrackedFileView {
        TrackedFileView { path: self.path@, branch: self.branch@ }
    }
}

/// One row of the trail of events.
#[derive(Debug, PartialEq, Eq)]
pub struct Event {
    pub timestamp: i64,
    pub branch: String,
    pub path: String,
    pub kind: Events,
}

/// An [`Event`] as plain values.
pub struct EventView {
    pub timestamp: int,
    pub branch: Seq<char>,
    pub path: Seq<char>,
    pub kind: Events,
}

impl View for Event {
    type V = EventView;

    open spec fn view(&self) -> EventView {
        EventView {
            timestamp: self.timestamp as int,
            branch: self.branch@,
            path: self.path@,
            kind: self.kind,
        }
    }
}

impl Clone for Event {
    fn clone(&self) -> (r: Self)
        ensures
            r@ == self@,
    {
        Event {
            timestamp: self.timestamp,
            branch: self.branch.clone(),
            path: self.path.clone(),
            kind: self.kind,
        }
    }
}

/// One step of the plan of an operation. The steps of a plan are carried
/// out in order, and a plan ends at the first step that fails.
#[derive(Debug, PartialEq, Eq)]
pub enum Step {
    /// Copy the bytes of the file at `from` to a new snapshot at `to`.
    Duplicate { from: String, to: String },
    /// Make sure the logbook of the file has its tables.
    CreateLogbook,
    /// Append a record to the logbook of the file.
    Record { statement: Statement },
    /// Append the record of a commit to the logbook of the file. It refers to
    /// its comparison by the key under which the record before it was stored.
    RecordCommit { commit: Commit },
    /// Enter the file in the index of the master logbook.
    Track { path: String, branch: String },
    /// Append an event to the trail of the master logbook.
    Log { event: Event },
    /// Write the bytes of the local file at `from` to the remote under `key`.
    Upload { key: String, from: String },
    /// Write the bytes the remote holds under `key` to the local file at `to`.
    Download { key: String, to: String },
    /// Remove what the remote holds under `key`.
    Delete { key: String },
}

/// A [`Step`] as plain values.
pub enum StepView {
    Duplicate { from: Seq<char>, to: Seq<char> },
    CreateLogbook,
    Record { statement: StatementView },
    RecordCommit { commit: CommitView },
    Track { path: Seq<char>, branch: Seq<char> },
    Log { event: EventView },
    Upload { key: Seq<char>, from: Seq<char> },
    Download { key: Seq<char>, to: Seq<char> },
    Delete { key: Seq<char> },
}

impl View for Step {
    type V = StepView;

    open spec fn view(&self) -> StepView {
        match self {
            Step::Duplicate { from, to } => StepView::Duplicate { from: from@, to: to@ },
            Step::CreateLogbook => StepView::CreateLogbook,
            Step::Record { statement } => StepView::Record { statement: statement@ },
            Step::RecordCommit { commit } => StepView::RecordCommit { commit: commit@ },
            Step::Track { path, branch } => StepView::Track { path: path@, branch: branch@ },
            Step::Log { event } => StepView::Log { event: event@ },
            Step::Upload { key, from } => StepView::Upload { key: key@, from: from@ },
            Step::Download { key, to } => StepView::Download { key: key@, to: to@ },
            Step::Delete { key } => StepView::Delete { key: key@ },
        }
    }
}

/// The steps of a plan as plain values.
pub open spec fn spec_steps(steps: Seq<Step>) -> Seq<StepView> {
    Seq::new(steps.len(), |i: int| steps[i]@)
}

/// The statement that enters a file in the index of the master logbook.
pub open spec fn spec_track_statement(path: Seq<char>, branch: Seq<char>) -> StatementView {
    StatementView {
        query: "INSERT INTO files (path, branch) VALUES (?1, ?2)"@,
        params: seq![path, branch],
    }
}

/// The statement that appends an event to the trail of the master logbook.
pub open spec fn spec_event_statement(event: EventView) -> StatementView {
    StatementView {
        query: "INSERT INTO events (timestamp, branch, path, event) VALUES (?1, ?2, ?3, ?4)"@,
        params: seq![
            spec_decimal(event.timestamp),
            event.branch,
            event.path,
            event.kind.spec_name(),
        ],
    }
}

impl StepView {
    /// What a logbook is asked to execute for this step; nothing for a step
    /// that copies or transfers bytes, or that only creates tables. `key` is
    /// the key under which the record before this step was stored; only the
    /// record of a commit depends on it.
    pub open spec fn statement(&self, key: Option<u32>) -> Option<StatementView> {
        match self {
            StepView::Record { statement } => Some(*statement),
            StepView::RecordCommit { commit } => Some(commit.linked(key).statement()),
            StepView::Track { path, branch } => Some(spec_track_statement(*path, *branch)),
            StepView::Log { event } => Some(spec_event_statement(*event)),
            _ => None,
        }
    }

    /// The failure that a failure of this step amounts to.
    pub open spec fn failure(&self) -> ErrorView {
        match self {
            StepView::Duplicate { from, to } => ErrorView::SnapshotNotWritten { path: *to },
            StepView::CreateLogbook => ErrorView::FileLogbookRejected,
            StepView::Record { statement } => ErrorView::FileLogbookRejected,
            StepView::RecordCommit { commit } => ErrorView::FileLogbookRejected,
            StepView::Track { path, branch } => ErrorView::MasterLogbookRejected,
            StepView::Log { event } => ErrorView::MasterLogbookRejected,
            StepView::Upload { key, from } => ErrorView::RemoteTransferFailed {
                operation: RemoteOperation::Write,
                key: *key,
            },
            StepView::Download { key, to } => ErrorView::RemoteTransferFailed {
                operation: RemoteOperation::Read,
                key: *key,
            },
            StepView::Delete { key } => ErrorView::RemoteTransferFailed {
                operation: RemoteOperation::Delete,
                key: *key,
            },
        }
    }
}

impl Step {
    /// The statement of this step; see [`StepView::statement`].
    pub fn statement(&self, key: Option<u32>) -> (r: Option<Statement>)
        ensures
            match r {
                Some(s) => self@.statement(key) == Some(s@),
                None => self@.statement(key) is None,
            },
    {
        match self {
            Step::Record { statement } => Some(statement.clone()),
            Step::RecordCommit { commit } => Some(statement(&commit.linked(key))),
            Step::Track { path, branch } => {
                let mut params: Vec<String> = Vec::new();
                params.push(path.clone());
                params.push(branch.clone());
                assert(spec_texts(params@) =~= seq![path@, branch@]);
                Some(
                    Statement {
                        query: String::from_str("INSERT INTO files (path, branch) VALUES (?1, ?2)"),
                        params,
                    },
                )
            },
            Step::Log { event } => {
                let mut params: Vec<String> = Vec::new();
                params.push(decimal_i64(event.timestamp));
                params.push(event.branch.clone());
                params.push(event.path.clone());
                params.push(event.kind.name());
                assert(spec_texts(params@) =~= spec_event_statement(event@).params);
                Some(
                    Statement {
                        query: String::from_str(
                            "INSERT INTO events (timestamp, branch, path, event) VALUES (?1, ?2, ?3, ?4)",
                        ),
                        params,
                    },
                )
            },
            _ => None,
        }
    }

    /// The failure that a failure of this step amounts to; see
    /// [`StepView::failure`].
    pub fn failure(&self) -> (e: Error)
        ensures
            e@ == self@.failure(),
    {
        match self {
            Step::Duplicate { from, to } => Error::SnapshotNotWritten { path: to.clone() },
            Step::CreateLogbook => Error::FileLogbookRejected,
            Step::Record { statement } => Error::FileLogbookRejected,
            Step::RecordCommit { commit } => Error::FileLogbookRejected,
            Step::Track { path, branch } => Error::MasterLogbookRejected,
            Step::Log { event } => Error::MasterLogbookRejected,
            Step::Upload { key, from } => Error::RemoteTransferFailed {
                operation: RemoteOperation::Write,
                key: key.clone(),
            },
            Step::Download { key, to } => Error::RemoteTransferFailed {
                operation: RemoteOperation::Read,
                key: key.clone(),
            },
            Step::Delete { key } => Error::RemoteTransferFailed {
                operation: RemoteOperation::Delete,
                key: key.clone(),
            },
        }
    }
}

/// The master logbook as plain values: the index of tracked files and the
/// trail of events, each in the order of entry.
pub struct LogbookView {
    pub files: Seq<TrackedFileView>,
    pub events: Seq<EventView>,
}

impl LogbookView {
    /// Whether the index holds the file `path` on `branch`.
    pub open spec fn tracks(&self, path: Seq<char>, branch: Seq<char>) -> bool {
        self.files.contains(TrackedFileView { path, branch })
    }

    /// Whether no file is in the index twice.
    pub open spec fn wf(&self) -> bool {
        self.files.no_duplicates()
    }

    /// The logbook after a step of a plan has been carried out, or the
    /// refusal of the step. Only two kinds of step touch the master logbook:
    /// one enters a file in the index, and is refused for a file that is in
    /// it already; the other appends an event.
    pub open spec fn apply(&self, step: StepView) -> Result<LogbookView, ErrorView> {
        match step {
            StepView::Track { path, branch } => if self.tracks(path, branch) {
                Err(ErrorView::MasterLogbookRejected)
            } else {
                Ok(
                    LogbookView {
                        files: self.files.push(TrackedFileView { path, branch }),
                        events: self.events,
                    },
                )
            },
            StepView::Log { event } => Ok(
                LogbookView { files: self.files, events: self.events.push(event) },
            ),
            _ => Ok(*self),
        }
    }
}

impl LogbookView {
    /// The logbook after the first `n` of `steps` have been carried out in
    /// order, or the first refusal. The steps may be those of any number of
    /// files, in any order.
    pub open spec fn run(&self, steps: Seq<StepView>, n: nat) -> Result<LogbookView, ErrorView>
        decreases n,
    {
        if n == 0 || n > steps.len() {
            Ok(*self)
        } else {
            match self.run(steps, (n - 1) as nat) {
                Err(e) => Err(e),
                Ok(book) => book.apply(steps[n - 1]),
            }
        }
    }
}

/// The master logbook of a project.
#[derive(Debug, PartialEq, Eq)]
pub struct Logbook {
    files: Vec<TrackedFile>,
    events: Vec<Event>,
}

impl View for Logbook {
    type V = LogbookView;

    closed spec fn view(&self) -> LogbookView {
        LogbookView {
            files: Seq::new(self.files@.len(), |i: int| self.files@[i]@),
            events: Seq::new(self.events@.len(), |i: int| self.events@[i]@),
        }
    }
}

impl Logbook {
    /// A logbook that tracks nothing and has seen no event.
    pub fn new() -> (r: Self)
        ensures
            r@.files.len() == 0,
            r@.events.len() == 0,
            r@.wf(),
    {
        Logbook { files: Vec::new(), events: Vec::new() }
    }

    /// Whether the index holds the file `path` on `branch`.
    pub fn is_tracked(&self, path: &str, branch: &str) -> (r: bool)
        ensures
            r == self@.tracks(path@, branch@),
    {
        let ghost wanted = TrackedFileView { path: path@, branch: branch@ };
        let mut i: usize = 0;
        while i < self.files.len()
            invariant
                i <= self.files.len(),
                wanted == (TrackedFileView { path: path@, branch: branch@ }),
                forall|j: int| 0 <= j < i ==> self@.files[j] != wanted,
            decreases self.files.len() - i,
        {
            if same(self.files[i].path.as_str(), path) && same(self.files[i].branch.as_str(), branch) {
                assert(self@.files[i as int] == wanted);
                return true;
            }
            i = i + 1;
        }
        false
    }

    /// Enters the file `path` on `branch` in the index. A file that is in the
    /// index already is refused, and the logbook stays as it was.
    pub fn track(&mut self, path: &str, branch: &str) -> (r: Result<(), Error>)
        ensures
            old(self)@.apply(StepView::Track { path: path@, branch: branch@ }) == (match r {
                Ok(_) => Ok::<LogbookView, ErrorView>(final(self)@),
                Err(e) => Err::<LogbookView, ErrorView>(e@),
            }),
            r is Err ==> final(self)@ == old(self)@,
            old(self)@.wf() ==> final(self)@.wf(),
    {
        if self.is_tracked(path, branch) {
            return Err(Error::MasterLogbookRejected);
        }
        let ghost before = self@;
        let row = TrackedFile { path: String::from_str(path), branch: String::from_str(branch) };
        self.files.push(row);
        assert(self@.files =~= before.files.push(row@));
        assert(self@.events =~= before.events);
        Ok(())
    }

    /// Appends an event to the trail.
    pub fn log(&mut self, event: Event)
        ensures
            Ok::<LogbookView, ErrorView>(final(self)@) == old(self)@.apply(
                StepView::Log { event: event@ },
            ),
            old(self)@.wf() ==> final(self)@.wf(),
    {
        let ghost before = self@;
        self.events.push(event);
        assert(self@.events =~= before.events.push(event@));
        assert(self@.files =~= before.files);
    }
}

impl Logbook {
    /// The paths of the tracked files, in the order in which they were
    /// entered.
    pub fn files_tracked(&self) -> (r: Vec<String>)
        ensures
            spec_texts(r@) == Seq::new(self@.files.len(), |i: int| self@.files[i].path),
    {
        let mut r: Vec<String> = Vec::new();
        let mut i: usize = 0;
        while i < self.files.len()
            invariant
                i <= self.files.len(),
                r@.len() == i,
                forall|j: int| 0 <= j < i ==> r@[j]@ == self@.files[j].path,
            decreases self.files.len() - i,
        {
            r.push(self.files[i].path.clone());
            i = i + 1;
        }
        assert(spec_texts(r@) =~= Seq::new(self@.files.len(), |i: int| self@.files[i].path));
        r
    }

    /// The number of events on the trail.
    pub fn events_logged(&self) -> (n: usize)
        ensures
            n == self@.events.len(),
    {
        self.events.len()
    }

    /// The event at position `i` of the trail, if the trail is that long.
    pub fn event(&self, i: usize) -> (r: Option<Event>)
        ensures
            match r {
                Some(e) => i < self@.events.len() && e@ == self@.events[i as int],
                None => i >= self@.events.len(),
            },
    {
        if i < self.events.len() {
            Some(self.events[i].clone())
        } else {
            None
        }
    }

    /// Brings the logbook up to date with a step that has been carried out;
    /// see [`LogbookView::apply`]. A refused step leaves the logbook as it was.
    pub fn apply(&mut self, step: &Step) -> (r: Result<(), Error>)
        ensures
            old(self)@.apply(step@) == (match r {
                Ok(_) => Ok::<LogbookView, ErrorView>(final(self)@),
                Err(e) => Err::<LogbookView, ErrorView>(e@),
            }),
            r is Err ==> final(self)@ == old(self)@,
            old(self)@.wf() ==> final(self)@.wf(),
    {
        match step {
            Step::Track { path, branch } => self.track(path.as_str(), branch.as_str()),
            Step::Log { event } => {
                self.log(event.clone());
                Ok(())
            },
            _ => Ok(()),
        }
    }
}

/// The logbook of one file as plain values: where it is stored, whether it
/// has been opened and given its tables, the records appended to it, in
/// order, and the key under which the last of them was stored, where the
/// store gave one.
pub struct FileLogbookView {
    pub path: Seq<char>,
    pub opened: bool,
    pub created: bool,
    pub entries: Seq<StatementView>,
    pub last_key: Option<u32>,
}

impl FileLogbookView {
    /// Whether the logbook takes records: it is open and has its tables.
    pub open spec fn ready(&self) -> bool {
        self.opened && self.created
    }

    /// The logbook after a step of a plan has been carried out, or the
    /// refusal of the step; `key` is the key the store gave the record, where
    /// the step appended one. Three kinds of step touch the logbook of a
    /// file. One gives it its tables, and is refused while the logbook is not
    /// open. The other two append a record, and are refused while the
    /// logbook is not open or has no tables; the record of a commit is
    /// appended with the key of the record before it in the place of its
    /// comparison.
    pub open spec fn apply(&self, step: StepView, key: Option<u32>) -> Result<
        FileLogbookView,
        ErrorView,
    > {
        match step {
            StepView::CreateLogbook => if self.opened {
                Ok(FileLogbookView { created: true, ..*self })
            } else {
                Err(ErrorView::FileLogbookRejected)
            },
            StepView::Record { statement } => if self.ready() {
                Ok(
                    FileLogbookView {
                        entries: self.entries.push(statement),
                        last_key: key,
                        ..*self
                    },
                )
            } else {
                Err(ErrorView::FileLogbookRejected)
            },
            StepView::RecordCommit { commit } => if self.ready() {
                Ok(
                    FileLogbookView {
                        entries: self.entries.push(commit.linked(self.last_key).statement()),
                        last_key: key,
                        ..*self
                    },
                )
            } else {
                Err(ErrorView::FileLogbookRejected)
            },
            _ => Ok(*self),
        }
    }
}

/// Where the logbook of the file `file_path` is stored below `logbooks_dir`.
pub open spec fn spec_logbook_path(file_path: Seq<char>, logbooks_dir: Seq<char>) -> Seq<char> {
    spec_join(logbooks_dir, file_path + ".db"@)
}

/// The logbook of one file: the records of its snapshots, comparisons,
/// commits and remote copies. Records are only ever appended.
#[derive(Debug, PartialEq, Eq)]
pub struct FileLogbook {
    path: String,
    opened: bool,
    created: bool,
    entries: Vec<Statement>,
    last_key: Option<u32>,
}

impl View for FileLogbook {
    type V = FileLogbookView;

    closed spec fn view(&self) -> FileLogbookView {
        FileLogbookView {
            path: self.path@,
            opened: self.opened,
            created: self.created,
            entries: Seq::new(self.entries@.len(), |i: int| self.entries@[i]@),
            last_key: self.last_key,
        }
    }
}

impl Default for FileLogbook {
    fn default() -> (r: Self)
        ensures
            r@ == (FileLogbookView {
                path: Seq::empty(),
                opened: false,
                created: false,
                entries: Seq::empty(),
                last_key: None,
            }),
    {
        let r = FileLogbook {
            path: String::new(),
            opened: false,
            created: false,
            entries: Vec::new(),
            last_key: None,
        };
        assert(r@.entries =~= Seq::empty());
        r
    }
}

impl FileLogbook {
    /// The logbook of the file `file_path`, stored below `logbooks_dir`; it is
    /// not open yet and holds no record.
    pub fn new(file_path: &str, logbooks_dir: &str) -> (r: Self)
        ensures
            r@ == (FileLogbookView {
                path: spec_logbook_path(file_path@, logbooks_dir@),
                opened: false,
                created: false,
                entries: Seq::empty(),
                last_key: None,
            }),
    {
        let name = String::from_str(file_path).concat(".db");
        let r = FileLogbook {
            path: join(logbooks_dir, name.as_str()),
            opened: false,
            created: false,
            entries: Vec::new(),
            last_key: None,
        };
        assert(r@.entries =~= Seq::empty());
        r
    }

    /// Where the logbook is stored.
    pub fn path(&self) -> (r: String)
        ensures
            r@ == self@.path,
    {
        self.path.clone()
    }

    /// Opens the logbook. Opening an open logbook changes nothing.
    pub fn init(&mut self)
        ensures
            final(self)@ == (FileLogbookView { opened: true, ..old(self)@ }),
    {
        let ghost before = self@;
        self.opened = true;
        assert(self@.entries =~= before.entries);
    }

    /// Gives the logbook its tables. Doing so again changes nothing; a
    /// logbook that is not open refuses.
    pub fn create(&mut self) -> (r: Result<(), Error>)
        ensures
            old(self)@.apply(StepView::CreateLogbook, None) == (match r {
                Ok(_) => Ok::<FileLogbookView, ErrorView>(final(self)@),
                Err(e) => Err::<FileLogbookView, ErrorView>(e@),
            }),
            r is Err ==> final(self)@ == old(self)@,
    {
        if !self.opened {
            return Err(Error::FileLogbookRejected);
        }
        let ghost before = self@;
        self.created = true;
        assert(self@.entries =~= before.entries);
        Ok(())
    }

    /// Appends a record to the logbook and notes `key`, the key the store
    /// gave it; a logbook that is not open or has no tables refuses.
    pub fn record(&mut self, entry: Statement, key: Option<u32>) -> (r: Result<(), Error>)
        ensures
            old(self)@.apply(StepView::Record { statement: entry@ }, key) == (match r {
                Ok(_) => Ok::<FileLogbookView, ErrorView>(final(self)@),
                Err(e) => Err::<FileLogbookView, ErrorView>(e@),
            }),
            r is Err ==> final(self)@ == old(self)@,
    {
        if !self.opened || !self.created {
            return Err(Error::FileLogbookRejected);
        }
        let ghost before = self@;
        self.entries.push(entry);
        self.last_key = key;
        assert(self@.entries =~= before.entries.push(entry@));
        Ok(())
    }

    /// Appends the record of `object` to the logbook and notes `key`, the key
    /// the store gave it.
    pub fn insert<T: LogbookProvider>(&mut self, object: &T, key: Option<u32>) -> (r: Result<
        (),
        Error,
    >)
        ensures
            old(self)@.apply(StepView::Record { statement: spec_statement(object) }, key)
                == (match r {
                Ok(_) => Ok::<FileLogbookView, ErrorView>(final(self)@),
                Err(e) => Err::<FileLogbookView, ErrorView>(e@),
            }),
            r is Err ==> final(self)@ == old(self)@,
    {
        self.record(statement(object), key)
    }

    /// The key under which the last record was stored, where the store gave
    /// one.
    pub fn last_key(&self) -> (r: Option<u32>)
        ensures
            r == self@.last_key,
    {
        self.last_key
    }

    /// What the store is asked to execute for `step`, as the logbook stands:
    /// the record of a commit refers to the record before it.
    pub fn statement(&self, step: &Step) -> (r: Option<Statement>)
        ensures
            match r {
                Some(s) => step@.statement(self@.last_key) == Some(s@),
                None => step@.statement(self@.last_key) is None,
            },
    {
        step.statement(self.last_key)
    }

    /// The number of records in the logbook.
    pub fn len(&self) -> (n: usize)
        ensures
            n == self@.entries.len(),
    {
        self.entries.len()
    }

    /// The record at position `i`, if the logbook is that long.
    pub fn entry(&self, i: usize) -> (r: Option<Statement>)
        ensures
            match r {
                Some(e) => i < self@.entries.len() && e@ == self@.entries[i as int],
                None => i >= self@.entries.len(),
            },
    {
        if i < self.entries.len() {
            Some(self.entries[i].clone())
        } else {
            None
        }
    }

    /// Brings the logbook up to date with a step that has been carried out;
    /// see [`FileLogbookView::apply`]. `key` is the key the store gave the
    /// record, where the step appended one. A refused step leaves the logbook
    /// as it was.
    pub fn apply(&mut self, step: &Step, key: Option<u32>) -> (r: Result<(), Error>)
        ensures
            old(self)@.apply(step@, key) == (match r {
                Ok(_) => Ok::<FileLogbookView, ErrorView>(final(self)@),
                Err(e) => Err::<FileLogbookView, ErrorView>(e@),
            }),
            r is Err ==> final(self)@ == old(self)@,
    {
        match step {
            Step::CreateLogbook => self.create(),
            Step::Record { statement } => self.record(statement.clone(), key),
            Step::RecordCommit { commit } => {
                let entry = statement(&commit.linked(self.last_key));
                self.record(entry, key)
            },
            _ => Ok(()),
        }
    }
}

impl Clone for FileLogbook {
    fn clone(&self) -> (r: Self)
        ensures
            r@ == self@,
    {
        let mut entries: Vec<Statement> = Vec::new();
        let mut i: usize = 0;
        while i < self.entries.len()
            invariant
                i <= self.entries.len(),
                entries@.len() == i,
                forall|j: int| 0 <= j < i ==> entries@[j]@ == self.entries@[j]@,
            decreases self.entries.len() - i,
        {
            entries.push(self.entries[i].clone());
            i = i + 1;
        }
        let r = FileLogbook {
            path: self.path.clone(),
            opened: self.opened,
            created: self.created,
            entries,
            last_key: self.last_key,
        };
        assert(r@.entries =~= self@.entries);
        r
    }
}

} // verus!
