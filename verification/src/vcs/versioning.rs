//! The record of a commit: what was compared, by whom, and why.

use vstd::prelude::*;
use vstd::string::*;

use crate::config::{spec_text, Author, AuthorView};
use crate::vcs::comparaison::{or_empty, spec_or_empty, Diff, DiffView};
use crate::vcs::file::{spec_texts, LogbookProvider, StatementView};

verus! {

/// One commit of a file: the comparison it rests on, the message given for
/// it, and the commit of the surrounding repository it was made at.
#[derive(Debug, PartialEq, Eq)]
pub struct Commit {
    pub pk: Option<u32>,
    pub author: Author,
    pub branch: String,
    pub diff: Option<Diff>,
    pub file_from_path: String,
    pub file_to_path: String,
    pub git_commit: String,
    pub message: String,
}

/// A [`Commit`] as plain values.
pub struct CommitView {
    pub pk: Option<u32>,
    pub author: AuthorView,
    pub branch: Seq<char>,
    pub diff: Option<DiffView>,
    pub file_from_path: Seq<char>,
    pub file_to_path: Seq<char>,
    pub git_commit: Seq<char>,
    pub message: Seq<char>,
}

impl View for Commit {
    type V = CommitView;

    open spec fn view(&self) -> CommitView {
        CommitView {
            pk: self.pk,
            author: self.author@,
            branch: self.branch@,
            diff: match self.diff {
                Some(d) => Some(d@),
                None => None,
            },
            file_from_path: self.file_from_path@,
            file_to_path: self.file_to_path@,
            git_commit: self.git_commit@,
            message: self.message@,
        }
    }
}

impl CommitView {
    /// The same commit, with `key` as the key its comparison is stored under.
    pub open spec fn linked(&self, key: Option<u32>) -> CommitView {
        CommitView {
            diff: match self.diff {
                Some(d) => Some(DiffView { pk: key, ..d }),
                None => None,
            },
            ..*self
        }
    }

    /// The stored key of the comparison as text; empty where the commit has
    /// no comparison or the comparison no key.
    pub open spec fn diff_key(&self) -> Seq<char> {
        match self.diff {
            Some(d) => d.key(),
            None => Seq::empty(),
        }
    }
}

impl Clone for Commit {
    fn clone(&self) -> (r: Self)
        ensures
            r@ == self@,
    {
        Commit {
            pk: self.pk,
            author: self.author.clone(),
            branch: self.branch.clone(),
            diff: match &self.diff {
                Some(d) => Some(d.clone()),
                None => None,
            },
            file_from_path: self.file_from_path.clone(),
            file_to_path: self.file_to_path.clone(),
            git_commit: self.git_commit.clone(),
            message: self.message.clone(),
        }
    }
}

impl Commit {
    /// The same commit, with `key` as the key its comparison is stored
    /// under.
    pub fn linked(&self, key: Option<u32>) -> (r: Self)
        ensures
            r@ == self@.linked(key),
    {
        let mut r = self.clone();
        r.diff = match &self.diff {
            Some(d) => {
                let mut keyed = d.clone();
                keyed.pk = key;
                Some(keyed)
            },
            None => None,
        };
        r
    }

    /// A commit that has no comparison and no repository commit yet.
    pub fn new(
        branch: String,
        file_from_path: String,
        file_to_path: String,
        message: String,
        author: Author,
    ) -> (r: Self)
        ensures
            r@ == (CommitView {
                pk: None,
                author: author@,
                branch: branch@,
                diff: None,
                file_from_path: file_from_path@,
                file_to_path: file_to_path@,
                git_commit: Seq::empty(),
                message: message@,
            }),
    {
        Commit {
            pk: None,
            diff: None,
            author,
            branch,
            file_from_path,
            file_to_path,
            message,
            git_commit: String::new(),
        }
    }

    /// The same commit, made at the repository commit `commit`.
    pub fn set_git_commit(self, commit: String) -> (r: Self)
        ensures
            r@ == (CommitView { git_commit: commit@, ..self@ }),
    {
        let mut r = self;
        r.git_commit = commit;
        r
    }

    /// The same commit, resting on the comparison `diff`.
    pub fn set_diff(self, diff: &Diff) -> (r: Self)
        ensures
            r@ == (CommitView { diff: Some(diff@), ..self@ }),
    {
        let mut r = self;
        r.diff = Some(diff.clone());
        r
    }

    /// The stored key of the comparison as text.
    pub fn diff_pk(&self) -> (s: String)
        ensures
            s@ == self@.diff_key(),
    {
        match &self.diff {
            Some(v) => v.pk(),
            None => String::new(),
        }
    }
}

impl CommitView {
    /// The write that records the commit.
    pub open spec fn statement(&self) -> StatementView {
        StatementView {
            query: "INSERT INTO commits (git_commit, message, file_from, file_to, diff, branch, author) VALUES (?1, ?2, ?3, ?4, ?5, ?6, ?7)"@,
            params: seq![
                self.git_commit,
                self.message,
                self.file_from_path,
                self.file_to_path,
                self.diff_key(),
                self.branch,
                self.author.key(),
            ],
        }
    }
}

impl LogbookProvider for Commit {
    open spec fn spec_query(&self) -> Seq<char> {
        self@.statement().query
    }

    open spec fn spec_params(&self) -> Seq<Seq<char>> {
        self@.statement().params
    }

    fn query(&self) -> (s: String) {
        String::from_str(
            "INSERT INTO commits (git_commit, message, file_from, file_to, diff, branch, author) VALUES (?1, ?2, ?3, ?4, ?5, ?6, ?7)",
        )
    }

    fn params(&self) -> (p: Vec<String>) {
        let mut p: Vec<String> = Vec::new();
        p.push(self.git_commit.clone());
        p.push(self.message.clone());
        p.push(self.file_from_path.clone());
        p.push(self.file_to_path.clone());
        p.push(self.diff_pk());
        p.push(self.branch.clone());
        p.push(self.author.pk());
        assert(spec_texts(p@) =~= self.spec_params());
        p
    }
}

/// The repository commit to record with a commit of a file: what the
/// repository answered, or nothing where it gave no answer. A commit of a
/// file never fails for want of it.
pub fn get_latest_git_commit(answer: &Option<String>) -> (r: String)
    ensures
        r@ == spec_or_empty(spec_text(*answer)),
{
    or_empty(answer)
}

} // verus!
