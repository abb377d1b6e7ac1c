//! Tracked files, the pointers to their remote copies, and the statements
//! that record them in a logbook.

use vstd::prelude::*;
use vstd::string::*;

use crate::config::{Author, AuthorView, PushStrategy, Storage};
use crate::text::{decimal_i64, join, spec_decimal, spec_join};

verus! {

/// What a run of texts holds, as characters.
pub open spec fn spec_texts(texts: Seq<String>) -> Seq<Seq<char>> {
    Seq::new(texts.len(), |i: int| texts[i]@)
}

/// One write to a logbook: the statement and the values bound to it.
#[derive(Debug, PartialEq, Eq)]
pub struct Statement {
    pub query: String,
    pub params: Vec<String>,
}

/// A [`Statement`] as plain values.
pub struct StatementView {
    pub query: Seq<char>,
    pub params: Seq<Seq<char>>,
}

impl View for Statement {
    type V = StatementView;

    open spec fn view(&self) -> StatementView {
        StatementView { query: self.query@, params: spec_texts(self.params@) }
    }
}

/// A copy of a run of texts.
pub fn clone_texts(texts: &Vec<String>) -> (r: Vec<String>)
    ensures
        spec_texts(r@) == spec_texts(texts@),
{
    let mut r: Vec<String> = Vec::new();
    let mut i: usize = 0;
    while i < texts.len()
        invariant
            i <= texts.len(),
            r@.len() == i,
            forall|j: int| 0 <= j < i ==> r@[j]@ == texts@[j]@,
        decreases texts.len() - i,
    {
        r.push(texts[i].clone());
        i = i + 1;
    }
    assert(spec_texts(r@) =~= spec_texts(texts@));
    r
}

impl Clone for Statement {
    fn clone(&self) -> (r: Self)
        ensures
            r@ == self@,
    {
        Statement { query: self.query.clone(), params: clone_texts(&self.params) }
    }
}

/// What can be recorded in the logbook of a file: it names the statement
/// that stores it and the values that go with the statement.
pub trait LogbookProvider {
    /// The statement that stores a value of this type.
    spec fn spec_query(&self) -> Seq<char>;

    /// The values bound to the statement, in its order.
    spec fn spec_params(&self) -> Seq<Seq<char>>;

    /// The statement that stores this value.
    fn query(&self) -> (s: String)
        ensures
            s@ == self.spec_query(),
    ;

    /// The values bound to the statement.
    fn params(&self) -> (p: Vec<String>)
        ensures
            spec_texts(p@) == self.spec_params(),
    ;
}

/// The write that records `object`.
pub open spec fn spec_statement<T: LogbookProvider>(object: &T) -> StatementView {
    StatementView { query: object.spec_query(), params: object.spec_params() }
}

/// The write that records `object`.
pub fn statement<T: LogbookProvider>(object: &T) -> (s: Statement)
    ensures
        s@ == spec_statement(object),
{
    Statement { query: object.query(), params: object.params() }
}

/// The record that a snapshot went to, or came from, a remote storage.
#[derive(Debug, PartialEq, Eq)]
pub struct Remote {
    pub pk: Option<u32>,
    pub path: String,
    pub strategy: PushStrategy,
    pub storage: Storage,
}

/// A [`Remote`] as plain values.
pub struct RemoteView {
    pub pk: Option<u32>,
    pub path: Seq<char>,
    pub strategy: PushStrategy,
    pub storage: Storage,
}

impl View for Remote {
    type V = RemoteView;

    open spec fn view(&self) -> RemoteView {
        RemoteView { pk: self.pk, path: self.path@, strategy: self.strategy, storage: self.storage }
    }
}

impl Clone for Remote {
    fn clone(&self) -> (r: Self)
        ensures
            r@ == self@,
    {
        Remote { pk: self.pk, path: self.path.clone(), strategy: self.strategy, storage: self.storage }
    }
}

impl Remote {
    /// The pointer left by a transfer of `path` to `storage` under `strategy`.
    pub fn new(path: String, strategy: PushStrategy, storage: Storage) -> (r: Self)
        ensures
            r@ == (RemoteView { pk: None, path: path@, strategy, storage }),
    {
        Remote { pk: None, path, strategy, storage }
    }

    /// The pointer left by fetching `path` from `storage`. A fetch selects
    /// nothing, so the pointer carries the strategy that settings start with.
    pub fn get(path: String, storage: Storage) -> (r: Self)
        ensures
            r@ == (RemoteView { pk: None, path: path@, strategy: PushStrategy::Smart, storage }),
    {
        Remote { pk: None, path, strategy: PushStrategy::Smart, storage }
    }
}

impl RemoteView {
    /// The write that records the pointer.
    pub open spec fn statement(&self) -> StatementView {
        StatementView {
            query: "INSERT INTO remotes (path, storage, strategy) VALUES (?1, ?2, ?3)"@,
            params: seq![self.path, self.storage.spec_name(), self.strategy.spec_name()],
        }
    }
}

impl LogbookProvider for Remote {
    open spec fn spec_query(&self) -> Seq<char> {
        self@.statement().query
    }

    open spec fn spec_params(&self) -> Seq<Seq<char>> {
        self@.statement().params
    }

    fn query(&self) -> (s: String) {
        String::from_str("INSERT INTO remotes (path, storage, strategy) VALUES (?1, ?2, ?3)")
    }

    fn params(&self) -> (p: Vec<String>) {
        let mut p: Vec<String> = Vec::new();
        p.push(self.path.clone());
        p.push(self.storage.name());
        p.push(self.strategy.name());
        assert(spec_texts(p@) =~= self.spec_params());
        p
    }
}

/// A tracked file at one snapshot epoch: the file's path below the project
/// root, its branch and author, the directory that holds its history, and
/// the epoch of the batch that handles it.
#[derive(Debug, PartialEq, Eq)]
pub struct File {
    pub pk: Option<u32>,
    pub author: Author,
    pub remote: Option<Remote>,
    pub path: String,
    pub history: String,
    pub branch: String,
    pub timestamp: i64,
}

/// A [`File`] as plain values.
pub struct FileView {
    pub pk: Option<u32>,
    pub author: AuthorView,
    pub remote: Option<RemoteView>,
    pub path: Seq<char>,
    pub history: Seq<char>,
    pub branch: Seq<char>,
    pub timestamp: int,
}

impl View for File {
    type V = FileView;

    open spec fn view(&self) -> FileView {
        FileView {
            pk: self.pk,
            author: self.author@,
            remote: match self.remote {
                Some(r) => Some(r@),
                None => None,
            },
            path: self.path@,
            history: self.history@,
            branch: self.branch@,
            timestamp: self.timestamp as int,
        }
    }
}

impl FileView {
    /// The directory that holds the snapshots of the file on its branch:
    /// `history/path/branch`.
    pub open spec fn history_dir(&self) -> Seq<char> {
        spec_join(spec_join(self.history, self.path), self.branch)
    }

    /// The place of the snapshot taken at `epoch`: `history/path/branch/epoch`.
    pub open spec fn snapshot_path(&self, epoch: int) -> Seq<char> {
        spec_join(self.history_dir(), spec_decimal(epoch))
    }

    /// The place of the snapshot taken at the file's own epoch.
    pub open spec fn history_path(&self) -> Seq<char> {
        self.snapshot_path(self.timestamp)
    }
}

impl Clone for File {
    fn clone(&self) -> (r: Self)
        ensures
            r@ == self@,
    {
        File {
            pk: self.pk,
            author: self.author.clone(),
            remote: match &self.remote {
                Some(r) => Some(r.clone()),
                None => None,
            },
            path: self.path.clone(),
            history: self.history.clone(),
            branch: self.branch.clone(),
            timestamp: self.timestamp,
        }
    }
}

impl File {
    /// A file that no logbook has stored yet and that has no remote copy.
    pub fn new(path: &str, branch: &str, history: &str, timestamp: i64, author: Author) -> (r:
        Self)
        ensures
            r@ == (FileView {
                pk: None,
                author: author@,
                remote: None,
                path: path@,
                history: history@,
                branch: branch@,
                timestamp: timestamp as int,
            }),
    {
        File {
            pk: None,
            path: String::from_str(path),
            branch: String::from_str(branch),
            history: String::from_str(history),
            timestamp,
            author,
            remote: None,
        }
    }

    /// Notes the remote copy of the file.
    pub fn set_remote(&mut self, remote: Remote)
        ensures
            final(self)@ == (FileView { remote: Some(remote@), ..old(self)@ }),
    {
        self.remote = Some(remote);
    }

    /// The working copy of the file, relative to the project root.
    pub fn original_path(&self) -> (r: String)
        ensures
            r@ == self@.path,
    {
        self.path.clone()
    }

    /// The directory that holds the snapshots of the file on its branch.
    pub fn history_dir(&self) -> (r: String)
        ensures
            r@ == self@.history_dir(),
    {
        let below = join(self.history.as_str(), self.path.as_str());
        join(below.as_str(), self.branch.as_str())
    }

    /// The place of the snapshot of the file taken at `epoch`.
    pub fn snapshot_path(&self, epoch: i64) -> (r: String)
        ensures
            r@ == self@.snapshot_path(epoch as int),
    {
        let dir = self.history_dir();
        let name = decimal_i64(epoch);
        join(dir.as_str(), name.as_str())
    }

    /// The place of the snapshot taken at the file's epoch.
    pub fn history_path(&self) -> (r: String)
        ensures
            r@ == self@.history_path(),
    {
        self.snapshot_path(self.timestamp)
    }
}

impl FileView {
    /// The write that records the snapshot of the file at its epoch.
    pub open spec fn statement(&self) -> StatementView {
        StatementView {
            query: "INSERT INTO files (timestamp, path, branch, author) VALUES (?1, ?2, ?3, ?4)"@,
            params: seq![spec_decimal(self.timestamp), self.path, self.branch, self.author.key()],
        }
    }
}

impl LogbookProvider for File {
    open spec fn spec_query(&self) -> Seq<char> {
        self@.statement().query
    }

    open spec fn spec_params(&self) -> Seq<Seq<char>> {
        self@.statement().params
    }

    fn query(&self) -> (s: String) {
        String::from_str(
            "INSERT INTO files (timestamp, path, branch, author) VALUES (?1, ?2, ?3, ?4)",
        )
    }

    fn params(&self) -> (p: Vec<String>) {
        let mut p: Vec<String> = Vec::new();
        p.push(decimal_i64(self.timestamp));
        p.push(self.path.clone());
        p.push(self.branch.clone());
        p.push(self.author.pk());
        assert(spec_texts(p@) =~= self.spec_params());
        p
    }
}

} // verus!
