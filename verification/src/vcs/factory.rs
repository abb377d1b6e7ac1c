//! The walk over the inputs of a batch: directories are expanded level by
//! level, and every regular file found yields the context of that file.

use std::collections::VecDeque;
use vstd::prelude::*;
use vstd::string::*;

use crate::config::{
    spec_root, spec_text, Author, AuthorView, Config, ConfigView, PushStrategy,
    RemoteConfig, RemoteConfigView, Storage,
};
use crate::error::{Error, ErrorView};
use crate::text::{join, spec_join};
use crate::vcs::comparaison::{Comparaison, ComparaisonTechnique, ComparaisonView};
use crate::vcs::facade::{FileFacade, FileFacadeView};
use crate::vcs::file::{spec_texts, File, FileView};
use crate::vcs::logbook::{spec_logbook_path, FileLogbook, FileLogbookView};

verus! {

/// What the caller found at the path at the front of the walk.
#[derive(Debug, PartialEq, Eq)]
pub enum Entry {
    /// A directory, with the names of the entries directly in it.
    Directory { children: Vec<String> },
    /// A regular file.
    RegularFile,
    /// A directory that could not be listed.
    Unreadable,
    /// Anything else, or nothing at all.
    Other,
}

/// An [`Entry`] as plain values.
pub enum EntryView {
    Directory { children: Seq<Seq<char>> },
    RegularFile,
    Unreadable,
    Other,
}

impl View for Entry {
    type V = EntryView;

    open spec fn view(&self) -> EntryView {
        match self {
            Entry::Directory { children } => EntryView::Directory {
                children: spec_texts(children@),
            },
            Entry::RegularFile => EntryView::RegularFile,
            Entry::Unreadable => EntryView::Unreadable,
            Entry::Other => EntryView::Other,
        }
    }
}

/// What one step of the walk came to.
#[derive(Debug, PartialEq, Eq)]
pub enum Walked {
    /// Nothing is left to look at.
    Finished,
    /// A directory was replaced by its entries.
    Expanded,
    /// The path was neither a directory nor a regular file and was dropped.
    Skipped,
    /// A regular file was found; this is its context.
    Context(FileFacade),
}

/// [`Walked`] as plain values.
pub enum WalkedView {
    Finished,
    Expanded,
    Skipped,
    Context(FileFacadeView),
}

impl View for Walked {
    type V = WalkedView;

    open spec fn view(&self) -> WalkedView {
        match self {
            Walked::Finished => WalkedView::Finished,
            Walked::Expanded => WalkedView::Expanded,
            Walked::Skipped => WalkedView::Skipped,
            Walked::Context(f) => WalkedView::Context(f@),
        }
    }
}

/// The source of the contexts of one batch: what every context of the batch
/// shares, and the paths still to be looked at.
#[derive(Debug, PartialEq, Eq)]
pub struct FileFacadeFactory {
    pub branch: String,
    pub history_dir: String,
    pub logbooks_dir: String,
    pub timestamp: i64,
    pub author: Author,
    pub remote: Option<RemoteConfig>,
    pub comparaison: Option<Comparaison>,
    pub message: Option<String>,
    pub stack: VecDeque<String>,
}

/// A [`FileFacadeFactory`] as plain values.
pub struct FileFacadeFactoryView {
    pub branch: Seq<char>,
    pub history_dir: Seq<char>,
    pub logbooks_dir: Seq<char>,
    pub timestamp: int,
    pub author: AuthorView,
    pub remote: Option<RemoteConfigView>,
    pub comparaison: Option<ComparaisonView>,
    pub message: Option<Seq<char>>,
    pub stack: Seq<Seq<char>>,
}

impl View for FileFacadeFactory {
    type V = FileFacadeFactoryView;

    open spec fn view(&self) -> FileFacadeFactoryView {
        FileFacadeFactoryView {
            branch: self.branch@,
            history_dir: self.history_dir@,
            logbooks_dir: self.logbooks_dir@,
            timestamp: self.timestamp as int,
            author: self.author@,
            remote: match self.remote {
                Some(r) => Some(r@),
                None => None,
            },
            comparaison: match self.comparaison {
                Some(c) => Some(c@),
                None => None,
            },
            message: spec_text(self.message),
            stack: spec_texts(self.stack@),
        }
    }
}

/// The entries `children` of the directory `dir`, as paths.
pub open spec fn spec_children(dir: Seq<char>, children: Seq<Seq<char>>) -> Seq<Seq<char>> {
    Seq::new(children.len(), |i: int| spec_join(dir, children[i]))
}

impl FileFacadeFactoryView {
    /// The source of a batch over `paths` on `branch` at the epoch
    /// `timestamp`, before any setting of an operation is attached.
    pub open spec fn start(
        paths: Seq<Seq<char>>,
        branch: Seq<char>,
        config: ConfigView,
        timestamp: int,
    ) -> FileFacadeFactoryView {
        FileFacadeFactoryView {
            branch,
            history_dir: spec_root(config.history_dir),
            logbooks_dir: spec_root(config.logbooks_dir),
            timestamp,
            author: config.author,
            remote: None,
            comparaison: None,
            message: None,
            stack: paths,
        }
    }

    /// The context of the file at `path`. It carries the comparison or the
    /// remote settings of the batch, whichever there is. A batch with both
    /// has no contexts, and neither has a batch that compares by the custom
    /// technique without a script: both are found before any file is touched.
    pub open spec fn context(&self, path: Seq<char>) -> Result<FileFacadeView, ErrorView> {
        if self.comparaison is Some && self.remote is Some {
            Err(ErrorView::UnsupportedContextCombination)
        } else if self.comparaison is Some && self.comparaison->0.technique
            == ComparaisonTechnique::Custom && self.comparaison->0.path is None {
            Err(ErrorView::MissingComparisonScript)
        } else {
            Ok(
                FileFacadeView {
                    changed: true,
                    file: FileView {
                        pk: None,
                        author: self.author,
                        remote: None,
                        path,
                        history: self.history_dir,
                        branch: self.branch,
                        timestamp: self.timestamp,
                    },
                    logbook: FileLogbookView {
                        path: spec_logbook_path(path, self.logbooks_dir),
                        opened: false,
                        created: false,
                        entries: Seq::empty(),
                        last_key: None,
                    },
                    remote: self.remote,
                    comparaison: self.comparaison,
                },
            )
        }
    }

    /// The paths still to be looked at once the path at the front has been
    /// found to be `entry`: the entries of a directory join the back of the
    /// queue, and the path itself leaves the front.
    pub open spec fn remaining(&self, entry: EntryView) -> Seq<Seq<char>> {
        if self.stack.len() == 0 {
            self.stack
        } else {
            match entry {
                EntryView::Directory { children } => self.stack.skip(1) + spec_children(
                    self.stack[0],
                    children,
                ),
                _ => self.stack.skip(1),
            }
        }
    }

    /// What one step of the walk comes to when the path at the front has
    /// been found to be `entry`.
    pub open spec fn outcome(&self, entry: EntryView) -> Result<WalkedView, ErrorView> {
        if self.stack.len() == 0 {
            Ok(WalkedView::Finished)
        } else {
            match entry {
                EntryView::Directory { children } => Ok(WalkedView::Expanded),
                EntryView::RegularFile => match self.context(self.stack[0]) {
                    Ok(f) => Ok(WalkedView::Context(f)),
                    Err(e) => Err(e),
                },
                EntryView::Unreadable => Err(
                    ErrorView::DirectoryUnreadable { path: self.stack[0] },
                ),
                EntryView::Other => Ok(WalkedView::Skipped),
            }
        }
    }
}

impl FileFacadeFactory {
    /// The source of a batch over `paths` on `branch`, at the epoch
    /// `timestamp`, which every context of the batch shares; see
    /// [`FileFacadeFactoryView::start`]. The caller reads the clock.
    pub fn new(paths: Vec<String>, branch: &str, config: &Config, timestamp: i64) -> (r: Self)
        ensures
            r@ == FileFacadeFactoryView::start(
                spec_texts(paths@),
                branch@,
                config@,
                timestamp as int,
            ),
    {
        let mut stack: VecDeque<String> = VecDeque::new();
        let mut i: usize = 0;
        while i < paths.len()
            invariant
                i <= paths.len(),
                stack@.len() == i,
                forall|j: int| 0 <= j < i ==> stack@[j]@ == paths@[j]@,
            decreases paths.len() - i,
        {
            stack.push_back(paths[i].clone());
            i = i + 1;
        }
        assert(spec_texts(stack@) =~= spec_texts(paths@));
        FileFacadeFactory {
            branch: String::from_str(branch),
            history_dir: config.history_dir(),
            logbooks_dir: config.logbooks_dir(),
            author: config.author(),
            timestamp,
            remote: None,
            comparaison: None,
            message: None,
            stack,
        }
    }

    /// The same source, with the remote settings of the project, on the
    /// storage `remote` and under the strategy `strategy` where they are given.
    pub fn set_remote(
        self,
        config: &Config,
        remote: &Option<Storage>,
        strategy: &Option<PushStrategy>,
    ) -> (r: Self)
        ensures
            r@ == (FileFacadeFactoryView {
                remote: Some(
                    RemoteConfigView {
                        storage: match *remote {
                            Some(s) => s,
                            None => config@.remote.storage,
                        },
                        strategy: match *strategy {
                            Some(s) => s,
                            None => config@.remote.strategy,
                        },
                        ..config@.remote
                    },
                ),
                ..self@
            }),
    {
        let mut default_remote = config.remote_storage();
        match remote {
            Some(s) => {
                default_remote.storage = *s;
            },
            None => {},
        }
        match strategy {
            Some(s) => {
                default_remote.strategy = *s;
            },
            None => {},
        }
        let mut r = self;
        r.remote = Some(default_remote);
        r
    }

    /// The same source, with a comparison by `technique`.
    pub fn set_comparaison(self, technique: &ComparaisonTechnique, path: &Option<String>) -> (r:
        Self)
        ensures
            r@ == (FileFacadeFactoryView {
                comparaison: Some(
                    ComparaisonView { technique: *technique, path: spec_text(*path) },
                ),
                ..self@
            }),
    {
        let mut r = self;
        r.comparaison = Some(Comparaison::new(technique, path));
        r
    }

    /// The same source, with the message of the commits of the batch.
    pub fn set_message(self, message: &str) -> (r: Self)
        ensures
            r@ == (FileFacadeFactoryView { message: Some(message@), ..self@ }),
    {
        let mut r = self;
        r.message = Some(String::from_str(message));
        r
    }

    /// The context of the file at `path`; see
    /// [`FileFacadeFactoryView::context`].
    pub fn to_facade(&self, path: &str) -> (r: Result<FileFacade, Error>)
        ensures
            match r {
                Ok(f) => self@.context(path@) == Ok::<FileFacadeView, ErrorView>(f@),
                Err(e) => self@.context(path@) == Err::<FileFacadeView, ErrorView>(e@),
            },
    {
        let file = File::new(
            path,
            self.branch.as_str(),
            self.history_dir.as_str(),
            self.timestamp,
            self.author.clone(),
        );
        let logbook = FileLogbook::new(path, self.logbooks_dir.as_str());
        let facade = FileFacade::new(file).set_logbook(logbook);
        match &self.comparaison {
            Some(c) => match &self.remote {
                Some(_) => Err(Error::UnsupportedContextCombination),
                None => {
                    if c.needs_script() && c.path.is_none() {
                        Err(Error::MissingComparisonScript)
                    } else {
                        Ok(facade.set_comparaison(c))
                    }
                },
            },
            None => match &self.remote {
                Some(r) => Ok(facade.set_remote(r)),
                None => Ok(facade),
            },
        }
    }

    /// The path the caller is to look at next, while there is one.
    pub fn front(&self) -> (r: Option<String>)
        ensures
            match r {
                Some(p) => self@.stack.len() > 0 && p@ == self@.stack[0],
                None => self@.stack.len() == 0,
            },
    {
        if self.stack.len() == 0 {
            None
        } else {
            Some(self.stack[0].clone())
        }
    }

    /// One step of the walk: takes the path at the front off the queue, given
    /// what the caller found there; see [`FileFacadeFactoryView::remaining`]
    /// and [`FileFacadeFactoryView::outcome`].
    pub fn next(&mut self, entry: &Entry) -> (r: Result<Walked, Error>)
        ensures
            final(self)@ == (FileFacadeFactoryView {
                stack: old(self)@.remaining(entry@),
                ..old(self)@
            }),
            match r {
                Ok(w) => old(self)@.outcome(entry@) == Ok::<WalkedView, ErrorView>(w@),
                Err(e) => old(self)@.outcome(entry@) == Err::<WalkedView, ErrorView>(e@),
            },
    {
        let ghost before = self@;
        match self.stack.pop_front() {
            None => Ok(Walked::Finished),
            Some(path) => {
                assert(spec_texts(self.stack@) =~= before.stack.skip(1));
                match entry {
                    Entry::Directory { children } => {
                        let mut i: usize = 0;
                        while i < children.len()
                            invariant
                                i <= children.len(),
                                path@ == before.stack[0],
                                self@ == (FileFacadeFactoryView {
                                    stack: before.stack.skip(1) + spec_children(
                                        path@,
                                        spec_texts(children@),
                                    ).take(i as int),
                                    ..before
                                }),
                            decreases children.len() - i,
                        {
                            let ghost so_far = spec_texts(self.stack@);
                            let child = join(path.as_str(), children[i].as_str());
                            self.stack.push_back(child);
                            assert(spec_texts(self.stack@) =~= so_far.push(child@));
                            assert(spec_texts(self.stack@) =~= before.stack.skip(1)
                                + spec_children(path@, spec_texts(children@)).take(i + 1));
                            i = i + 1;
                        }
                        assert(spec_children(path@, spec_texts(children@)).take(i as int)
                            =~= spec_children(path@, spec_texts(children@)));
                        Ok(Walked::Expanded)
                    },
                    Entry::RegularFile => match self.to_facade(path.as_str()) {
                        Ok(f) => Ok(Walked::Context(f)),
                        Err(e) => Err(e),
                    },
                    Entry::Unreadable => Err(Error::DirectoryUnreadable { path }),
                    Entry::Other => Ok(Walked::Skipped),
                }
            },
        }
    }
}

} // verus!
