//! The context of one file in one batch, and the plans of the operations on
//! it: add, commit, push, pull and remove.

use vstd::prelude::*;
use vstd::string::*;

use crate::config::{RemoteConfig, RemoteConfigView};
use crate::error::{Error, ErrorView};
use crate::text::{parse_i64, spec_parse_i64};
use crate::vcs::cli::Events;
use crate::vcs::comparaison::{Comparaison, ComparaisonView, Evidence, EvidenceView};
use crate::vcs::file::{spec_texts, statement, File, FileView, RemoteView};
use crate::vcs::logbook::{
    spec_steps, Event, EventView, FileLogbook, FileLogbookView, Logbook, LogbookView, Step,
    StepView,
};
use crate::vcs::remote::{pull_file, push_file, spec_select, Snapshot};
use crate::vcs::versioning::{Commit, CommitView};

verus! {

/// One file in one batch: the file at the batch's epoch, its logbook, and
/// the settings of the operation the batch carries out.
#[derive(Debug, PartialEq, Eq)]
pub struct FileFacade {
    pub changed: bool,
    pub file: File,
    pub logbook: FileLogbook,
    pub remote: Option<RemoteConfig>,
    pub comparaison: Option<Comparaison>,
}

/// A [`FileFacade`] as plain values.
pub struct FileFacadeView {
    pub changed: bool,
    pub file: FileView,
    pub logbook: FileLogbookView,
    pub remote: Option<RemoteConfigView>,
    pub comparaison: Option<ComparaisonView>,
}

impl View for FileFacade {
    type V = FileFacadeView;

    open spec fn view(&self) -> FileFacadeView {
        FileFacadeView {
            changed: self.changed,
            file: self.file@,
            logbook: self.logbook@,
            remote: match self.remote {
                Some(r) => Some(r@),
                None => None,
            },
            comparaison: match self.comparaison {
                Some(c) => Some(c@),
                None => None,
            },
        }
    }
}

/// Whether `p` is the latest of `epochs` that is earlier than `current`.
pub open spec fn spec_is_previous(epochs: Seq<i64>, current: int, p: i64) -> bool {
    &&& epochs.contains(p)
    &&& p < current
    &&& forall|i: int| 0 <= i < epochs.len() && epochs[i] < current ==> epochs[i] <= p
}

/// Whether none of `epochs` is earlier than `current`.
pub open spec fn spec_no_baseline(epochs: Seq<i64>, current: int) -> bool {
    forall|i: int| 0 <= i < epochs.len() ==> epochs[i] >= current
}

/// The latest of `epochs` that is earlier than `current`; see
/// [`spec_is_previous`].
pub fn previous_epoch(epochs: &Vec<i64>, current: i64) -> (r: Option<i64>)
    ensures
        match r {
            Some(p) => spec_is_previous(epochs@, current as int, p),
            None => spec_no_baseline(epochs@, current as int),
        },
{
    let mut best: Option<i64> = None;
    let mut i: usize = 0;
    while i < epochs.len()
        invariant
            i <= epochs.len(),
            match best {
                Some(p) => spec_is_previous(epochs@.take(i as int), current as int, p),
                None => spec_no_baseline(epochs@.take(i as int), current as int),
            },
        decreases epochs.len() - i,
    {
        let e: i64 = epochs[i];
        let ghost seen = epochs@.take(i as int);
        let ghost next = epochs@.take(i + 1);
        assert(next =~= seen.push(e));
        assert(forall|j: int| 0 <= j < seen.len() ==> next[j] == seen[j]);
        if e < current {
            match best {
                Some(p) => {
                    assert(seen.contains(p));
                    let ghost at = choose|j: int| 0 <= j < seen.len() && seen[j] == p;
                    if p < e {
                        assert(next[i as int] == e);
                        best = Some(e);
                    } else {
                        assert(next[at] == p);
                    }
                },
                None => {
                    assert(next[i as int] == e);
                    best = Some(e);
                },
            }
        } else {
            match best {
                Some(p) => {
                    let ghost at = choose|j: int| 0 <= j < seen.len() && seen[j] == p;
                    assert(next[at] == p);
                },
                None => {},
            }
        }
        i = i + 1;
    }
    assert(epochs@.take(i as int) =~= epochs@);
    best
}

/// The epochs that the names of the snapshots of a file stand for, in the
/// order of the names; the first name that is no epoch is the error.
pub open spec fn spec_epochs(names: Seq<Seq<char>>) -> Result<Seq<i64>, ErrorView>
    decreases names.len(),
{
    if names.len() == 0 {
        Ok(Seq::empty())
    } else {
        match spec_epochs(names.drop_last()) {
            Err(e) => Err(e),
            Ok(epochs) => match spec_parse_i64(names.last()) {
                Some(e) => Ok(epochs.push(e)),
                None => Err(ErrorView::MalformedSnapshotName { name: names.last() }),
            },
        }
    }
}

/// Reads the names of the snapshots of a file as epochs; see [`spec_epochs`].
pub fn snapshot_epochs(names: &Vec<String>) -> (r: Result<Vec<i64>, Error>)
    ensures
        match r {
            Ok(epochs) => spec_epochs(spec_texts(names@)) == Ok::<Seq<i64>, ErrorView>(epochs@),
            Err(e) => spec_epochs(spec_texts(names@)) == Err::<Seq<i64>, ErrorView>(e@),
        },
{
    let ghost all = spec_texts(names@);
    let mut epochs: Vec<i64> = Vec::new();
    let mut i: usize = 0;
    assert(all.take(0) =~= Seq::empty());
    while i < names.len()
        invariant
            i <= names.len(),
            all == spec_texts(names@),
            spec_epochs(all.take(i as int)) == Ok::<Seq<i64>, ErrorView>(epochs@),
        decreases names.len() - i,
    {
        let ghost next = all.take(i + 1);
        assert(next.drop_last() =~= all.take(i as int));
        assert(next.last() == names@[i as int]@);
        match parse_i64(names[i].as_str()) {
            Some(e) => {
                epochs.push(e);
            },
            None => {
                proof {
                    lemma_epochs_fail_early(all, i + 1);
                }
                return Err(Error::MalformedSnapshotName { name: names[i].clone() });
            },
        }
        i = i + 1;
    }
    assert(all.take(i as int) =~= all);
    Ok(epochs)
}

/// A name that is no epoch among the first `k` names fails the whole list
/// with the same error.
proof fn lemma_epochs_fail_early(names: Seq<Seq<char>>, k: int)
    requires
        0 <= k <= names.len(),
        spec_epochs(names.take(k)) is Err,
    ensures
        spec_epochs(names) == spec_epochs(names.take(k)),
    decreases names.len(),
{
    if k == names.len() {
        assert(names.take(k) =~= names);
    } else {
        assert(names.drop_last().take(k) =~= names.take(k));
        lemma_epochs_fail_early(names.drop_last(), k);
    }
}

/// Whether one of `epochs` is `current` or later.
pub open spec fn spec_taken(epochs: Seq<i64>, current: int) -> bool {
    exists|i: int| 0 <= i < epochs.len() && epochs[i] >= current
}

/// The latest of `epochs` that is earlier than `current`, where there is one.
pub open spec fn spec_previous(epochs: Seq<i64>, current: int) -> i64 {
    choose|p: i64| spec_is_previous(epochs, current, p)
}

/// There is one latest earlier epoch.
pub proof fn lemma_previous_is_one(epochs: Seq<i64>, current: int, p: i64)
    requires
        spec_is_previous(epochs, current, p),
    ensures
        spec_previous(epochs, current) == p,
{
    let q = spec_previous(epochs, current);
    assert(spec_is_previous(epochs, current, q));
    let i = choose|i: int| 0 <= i < epochs.len() && epochs[i] == p;
    let j = choose|j: int| 0 <= j < epochs.len() && epochs[j] == q;
    assert(epochs[i] <= q);
    assert(epochs[j] <= p);
}

/// Whether one of `epochs` is `current` or later.
pub fn taken(epochs: &Vec<i64>, current: i64) -> (r: bool)
    ensures
        r == spec_taken(epochs@, current as int),
{
    let mut i: usize = 0;
    while i < epochs.len()
        invariant
            i <= epochs.len(),
            forall|j: int| 0 <= j < i ==> epochs@[j] < current,
        decreases epochs.len() - i,
    {
        if epochs[i] >= current {
            return true;
        }
        i = i + 1;
    }
    false
}

impl FileFacadeView {
    /// The snapshot a commit of the file is compared with, given `names`,
    /// the names of the snapshots recorded for the file: the latest of them.
    /// There is none where no recorded snapshot is earlier than the file's
    /// epoch; and where a recorded snapshot is at the file's epoch or later,
    /// the commit would write over it or fall behind it, and is refused.
    pub open spec fn baseline(&self, names: Seq<Seq<char>>) -> Result<FileView, ErrorView> {
        match spec_epochs(names) {
            Err(e) => Err(e),
            Ok(epochs) => if spec_no_baseline(epochs, self.file.timestamp) {
                Err(ErrorView::NoBaselineSnapshot)
            } else if spec_taken(epochs, self.file.timestamp) {
                Err(ErrorView::EpochNotLater)
            } else {
                Ok(
                    FileView {
                        pk: None,
                        remote: None,
                        timestamp: spec_previous(epochs, self.file.timestamp) as int,
                        ..self.file
                    },
                )
            },
        }
    }

    /// The event that an operation of kind `kind` on the file leaves behind.
    pub open spec fn event(&self, kind: Events) -> EventView {
        EventView {
            timestamp: self.file.timestamp,
            branch: self.file.branch,
            path: self.file.path,
            kind,
        }
    }

    /// The steps that start tracking the file: copy its bytes to a snapshot
    /// at the batch's epoch, record the snapshot in the file's logbook, enter
    /// the file in the index, and leave the event.
    pub open spec fn add_steps(&self) -> Seq<StepView> {
        seq![
            StepView::Duplicate { from: self.file.path, to: self.file.history_path() },
            StepView::CreateLogbook,
            StepView::Record { statement: self.file.statement() },
            StepView::Track { path: self.file.path, branch: self.file.branch },
            StepView::Log { event: self.event(Events::Add) },
        ]
    }

    /// The plan of an add: nothing at all for a file that is tracked.
    pub open spec fn add_plan(&self, master: LogbookView) -> Seq<StepView> {
        if master.tracks(self.file.path, self.file.branch) {
            Seq::empty()
        } else {
            self.add_steps()
        }
    }

    /// The record of a commit of the file, given `names`, the names of the
    /// snapshots recorded for it: the comparison with the baseline, see
    /// [`FileFacadeView::baseline`], under the message.
    pub open spec fn commit_record(
        &self,
        message: Seq<char>,
        names: Seq<Seq<char>>,
        evidence: EvidenceView,
        git_commit: Seq<char>,
    ) -> Result<CommitView, ErrorView> {
        match self.comparaison {
            None => Err(ErrorView::UnsupportedContextCombination),
            Some(c) => match self.baseline(names) {
                Err(e) => Err(e),
                Ok(previous) => match c.compare(self.file, previous, evidence) {
                    Err(e) => Err(e),
                    Ok(diff) => Ok(
                        CommitView {
                            pk: None,
                            author: self.file.author,
                            branch: self.file.branch,
                            diff: Some(diff),
                            file_from_path: previous.history_path(),
                            file_to_path: self.file.history_path(),
                            git_commit,
                            message,
                        },
                    ),
                },
            },
        }
    }

    /// The plan of a commit: copy the bytes of the file to a snapshot at the
    /// batch's epoch, record the comparison and then the commit, which
    /// refers to the comparison by the key it was stored under, and leave the
    /// event.
    pub open spec fn compare_plan(
        &self,
        message: Seq<char>,
        names: Seq<Seq<char>>,
        evidence: EvidenceView,
        git_commit: Seq<char>,
    ) -> Result<Seq<StepView>, ErrorView> {
        match self.commit_record(message, names, evidence, git_commit) {
            Err(e) => Err(e),
            Ok(commit) => Ok(
                seq![
                    StepView::Duplicate { from: self.file.path, to: self.file.history_path() },
                    StepView::CreateLogbook,
                    StepView::Record { statement: commit.diff->0.statement() },
                    StepView::RecordCommit { commit },
                    StepView::Log { event: self.event(Events::Commit) },
                ],
            ),
        }
    }

    /// The pointer that a push of the file leaves behind.
    pub open spec fn pushed(&self) -> Result<RemoteView, ErrorView> {
        match self.remote {
            None => Err(ErrorView::UnsupportedContextCombination),
            Some(r) => Ok(
                RemoteView {
                    pk: None,
                    path: self.file.path,
                    strategy: r.strategy,
                    storage: r.storage,
                },
            ),
        }
    }

    /// The pointer that a pull of the file leaves behind.
    pub open spec fn pulled(&self) -> Result<RemoteView, ErrorView> {
        match self.remote {
            None => Err(ErrorView::UnsupportedContextCombination),
            Some(r) => Ok(
                RemoteView {
                    pk: None,
                    path: self.file.path,
                    strategy: crate::config::PushStrategy::Smart,
                    storage: r.storage,
                },
            ),
        }
    }

    /// The snapshots a push of the file selects among `snapshots`, the
    /// recorded ones in the order of recording, under the strategy of the
    /// remote settings; see [`crate::vcs::remote::spec_selects`].
    pub open spec fn selected(&self, snapshots: Seq<Snapshot>, last_pushed: Option<i64>) -> Seq<
        i64,
    > {
        match self.remote {
            None => Seq::empty(),
            Some(r) => spec_select(r.strategy, snapshots, last_pushed, snapshots.len()),
        }
    }

    /// The transfers of a push: each of the snapshots at `chosen`, in order,
    /// is written to the remote under the file's path, so that the remote
    /// ends up with the last of them.
    pub open spec fn uploads(&self, chosen: Seq<i64>) -> Seq<StepView> {
        Seq::new(
            chosen.len(),
            |i: int|
                StepView::Upload {
                    key: self.file.path,
                    from: self.file.snapshot_path(chosen[i] as int),
                },
        )
    }

    /// The plan of a push: write the selected snapshots to the remote under
    /// the file's path, record the pointer, and leave the event. Where the
    /// strategy selects no snapshot there is nothing to push, and the plan
    /// is empty.
    pub open spec fn push_plan(&self, snapshots: Seq<Snapshot>, last_pushed: Option<i64>) -> Result<
        Seq<StepView>,
        ErrorView,
    > {
        match self.pushed() {
            Err(e) => Err(e),
            Ok(pointer) => {
                let chosen = self.selected(snapshots, last_pushed);
                if chosen.len() == 0 {
                    Ok(Seq::empty())
                } else {
                    Ok(
                        self.uploads(chosen) + seq![
                            StepView::CreateLogbook,
                            StepView::Record { statement: pointer.statement() },
                            StepView::Log { event: self.event(Events::Push) },
                        ],
                    )
                }
            },
        }
    }

    /// The plan of a pull: write what the remote holds under the file's path
    /// to the file, record the pointer, and leave the event.
    pub open spec fn pull_plan(&self) -> Result<Seq<StepView>, ErrorView> {
        match self.pulled() {
            Err(e) => Err(e),
            Ok(pointer) => Ok(
                seq![
                    StepView::Download { key: self.file.path, to: self.file.path },
                    StepView::CreateLogbook,
                    StepView::Record { statement: pointer.statement() },
                    StepView::Log { event: self.event(Events::Pull) },
                ],
            ),
        }
    }

    /// The plan of a remove: remove what the remote holds under the file's
    /// path, and leave the event. Nothing local is touched.
    pub open spec fn remove_plan(&self) -> Result<Seq<StepView>, ErrorView> {
        match self.remote {
            None => Err(ErrorView::UnsupportedContextCombination),
            Some(_) => Ok(
                seq![
                    StepView::Delete { key: self.file.path },
                    StepView::Log { event: self.event(Events::Remove) },
                ],
            ),
        }
    }
}

impl FileFacade {
    /// The context of `file`, with an empty logbook and no settings.
    pub fn new(file: File) -> (r: Self)
        ensures
            r@ == (FileFacadeView {
                changed: true,
                file: file@,
                logbook: FileLogbookView {
                    path: Seq::empty(),
                    opened: false,
                    created: false,
                    entries: Seq::empty(),
                    last_key: None,
                },
                remote: None,
                comparaison: None,
            }),
    {
        FileFacade {
            file,
            changed: true,
            logbook: FileLogbook::default(),
            remote: None,
            comparaison: None,
        }
    }

    /// The same context with its logbook open.
    pub fn init(self) -> (r: Self)
        ensures
            r@ == (FileFacadeView {
                logbook: FileLogbookView { opened: true, ..self@.logbook },
                ..self@
            }),
    {
        let mut r = self;
        r.logbook.init();
        r
    }

    /// A copy of the file.
    pub fn file(&self) -> (r: File)
        ensures
            r@ == self@.file,
    {
        self.file.clone()
    }

    /// The branch of the file.
    pub fn branch(&self) -> (r: &str)
        ensures
            r@ == self@.file.branch,
    {
        self.file.branch.as_str()
    }

    /// The path of the file below the project root.
    pub fn path(&self) -> (r: &str)
        ensures
            r@ == self@.file.path,
    {
        self.file.path.as_str()
    }

    /// The working copy of the file.
    pub fn original_path(&self) -> (r: String)
        ensures
            r@ == self@.file.path,
    {
        self.file.original_path()
    }

    /// The remote settings of the context, where it has any.
    pub fn remote(&self) -> (r: Result<RemoteConfig, Error>)
        ensures
            match r {
                Ok(c) => self@.remote == Some(c@),
                Err(e) => self@.remote is None && e@ == ErrorView::UnsupportedContextCombination,
            },
    {
        match &self.remote {
            Some(r) => Ok(r.clone()),
            None => Err(Error::UnsupportedContextCombination),
        }
    }

    /// The same context with remote settings.
    pub fn set_remote(self, remote: &RemoteConfig) -> (r: Self)
        ensures
            r@ == (FileFacadeView { remote: Some(remote@), ..self@ }),
    {
        let mut r = self;
        r.remote = Some(remote.clone());
        r
    }

    /// The same context with a comparison.
    pub fn set_comparaison(self, comparaison: &Comparaison) -> (r: Self)
        ensures
            r@ == (FileFacadeView { comparaison: Some(comparaison@), ..self@ }),
    {
        let mut r = self;
        r.comparaison = Some(comparaison.clone());
        r
    }

    /// The same context with another logbook.
    pub fn set_logbook(self, logbook: FileLogbook) -> (r: Self)
        ensures
            r@ == (FileFacadeView { logbook: logbook@, ..self@ }),
    {
        let mut r = self;
        r.logbook = logbook;
        r
    }

    /// Whether the file counts as changed since its previous snapshot.
    pub fn has_changed(&self) -> (r: bool)
        ensures
            r == self@.changed,
    {
        self.changed
    }

    /// The event that an operation of kind `kind` on the file leaves behind.
    pub fn event(&self, kind: Events) -> (r: Event)
        ensures
            r@ == self@.event(kind),
    {
        Event {
            timestamp: self.file.timestamp,
            branch: self.file.branch.clone(),
            path: self.file.path.clone(),
            kind,
        }
    }

    /// The plan that starts tracking the file; see
    /// [`FileFacadeView::add_plan`].
    pub fn add(&self, master: &Logbook) -> (plan: Vec<Step>)
        ensures
            spec_steps(plan@) == self@.add_plan(master@),
    {
        let mut plan: Vec<Step> = Vec::new();
        if master.is_tracked(self.file.path.as_str(), self.file.branch.as_str()) {
            assert(spec_steps(plan@) =~= Seq::empty());
            return plan;
        }
        plan.push(Step::Duplicate { from: self.file.original_path(), to: self.file.history_path() });
        plan.push(Step::CreateLogbook);
        plan.push(Step::Record { statement: statement(&self.file) });
        plan.push(Step::Track { path: self.file.path.clone(), branch: self.file.branch.clone() });
        plan.push(Step::Log { event: self.event(Events::Add) });
        assert(spec_steps(plan@) =~= self@.add_steps());
        plan
    }

    /// The context of the snapshot that came before this one: the latest
    /// among `names`, the names of the snapshots kept for the file, that is
    /// earlier than the batch's epoch.
    pub fn previous_version(&self, names: &Vec<String>) -> (r: Result<FileFacade, Error>)
        ensures
            match r {
                Ok(previous) => {
                    &&& spec_epochs(spec_texts(names@)) is Ok
                    &&& spec_is_previous(
                        spec_epochs(spec_texts(names@))->Ok_0,
                        self.file.timestamp as int,
                        previous.file.timestamp,
                    )
                    &&& previous@ == (FileFacadeView {
                        changed: true,
                        file: FileView {
                            pk: None,
                            remote: None,
                            timestamp: previous.file.timestamp as int,
                            ..self@.file
                        },
                        logbook: FileLogbookView {
                            path: Seq::empty(),
                            opened: false,
                            created: false,
                            entries: Seq::empty(),
                            last_key: None,
                        },
                        remote: None,
                        comparaison: None,
                    })
                },
                Err(e) => match spec_epochs(spec_texts(names@)) {
                    Err(bad) => e@ == bad,
                    Ok(epochs) => e@ == ErrorView::NoBaselineSnapshot && spec_no_baseline(
                        epochs,
                        self.file.timestamp as int,
                    ),
                },
            },
    {
        match snapshot_epochs(names) {
            Err(e) => Err(e),
            Ok(epochs) => match previous_epoch(&epochs, self.file.timestamp) {
                None => Err(Error::NoBaselineSnapshot),
                Some(p) => {
                    let file = File::new(
                        self.file.path.as_str(),
                        self.file.branch.as_str(),
                        self.file.history.as_str(),
                        p,
                        self.file.author.clone(),
                    );
                    Ok(FileFacade::new(file))
                },
            },
        }
    }

    /// The snapshot a commit of the file is compared with; see
    /// [`FileFacadeView::baseline`].
    pub fn baseline(&self, names: &Vec<String>) -> (r: Result<File, Error>)
        ensures
            match r {
                Ok(previous) => self@.baseline(spec_texts(names@)) == Ok::<FileView, ErrorView>(
                    previous@,
                ),
                Err(e) => self@.baseline(spec_texts(names@)) == Err::<FileView, ErrorView>(e@),
            },
    {
        match snapshot_epochs(names) {
            Err(e) => Err(e),
            Ok(epochs) => match previous_epoch(&epochs, self.file.timestamp) {
                None => Err(Error::NoBaselineSnapshot),
                Some(p) => {
                    if taken(&epochs, self.file.timestamp) {
                        Err(Error::EpochNotLater)
                    } else {
                        proof {
                            lemma_previous_is_one(epochs@, self.file.timestamp as int, p);
                        }
                        Ok(
                            File::new(
                                self.file.path.as_str(),
                                self.file.branch.as_str(),
                                self.file.history.as_str(),
                                p,
                                self.file.author.clone(),
                            ),
                        )
                    }
                },
            },
        }
    }

    /// The record of a commit of the file; see
    /// [`FileFacadeView::commit_record`].
    pub fn commit_record(
        &self,
        message: &str,
        names: &Vec<String>,
        evidence: &Evidence,
        git_commit: String,
    ) -> (r: Result<Commit, Error>)
        ensures
            match r {
                Ok(c) => self@.commit_record(message@, spec_texts(names@), evidence@, git_commit@)
                    == Ok::<CommitView, ErrorView>(c@),
                Err(e) => self@.commit_record(message@, spec_texts(names@), evidence@, git_commit@)
                    == Err::<CommitView, ErrorView>(e@),
            },
    {
        match &self.comparaison {
            None => Err(Error::UnsupportedContextCombination),
            Some(c) => match self.baseline(names) {
                Err(e) => Err(e),
                Ok(previous) => match c.compare(&self.file, &previous, evidence) {
                    Err(e) => Err(e),
                    Ok(diff) => {
                        let commit = Commit::new(
                            self.file.branch.clone(),
                            previous.history_path(),
                            self.file.history_path(),
                            String::from_str(message),
                            self.file.author.clone(),
                        ).set_diff(&diff).set_git_commit(git_commit);
                        Ok(commit)
                    },
                },
            },
        }
    }

    /// The plan of a commit of the file; see [`FileFacadeView::compare_plan`].
    /// `names` are the names of the snapshots recorded for the file, and
    /// `evidence` what was gathered of the file and of its baseline.
    pub fn compare(
        &self,
        message: &str,
        names: &Vec<String>,
        evidence: &Evidence,
        git_commit: String,
    ) -> (r: Result<Vec<Step>, Error>)
        ensures
            match r {
                Ok(plan) => self@.compare_plan(
                    message@,
                    spec_texts(names@),
                    evidence@,
                    git_commit@,
                ) == Ok::<Seq<StepView>, ErrorView>(spec_steps(plan@)),
                Err(e) => self@.compare_plan(message@, spec_texts(names@), evidence@, git_commit@)
                    == Err::<Seq<StepView>, ErrorView>(e@),
            },
    {
        match self.commit_record(message, names, evidence, git_commit) {
            Err(e) => Err(e),
            Ok(commit) => {
                let mut plan: Vec<Step> = Vec::new();
                plan.push(
                    Step::Duplicate {
                        from: self.file.original_path(),
                        to: self.file.history_path(),
                    },
                );
                plan.push(Step::CreateLogbook);
                match &commit.diff {
                    Some(diff) => {
                        plan.push(Step::Record { statement: statement(diff) });
                    },
                    None => {},
                }
                plan.push(Step::RecordCommit { commit });
                plan.push(Step::Log { event: self.event(Events::Commit) });
                assert(spec_steps(plan@) =~= self@.compare_plan(
                    message@,
                    spec_texts(names@),
                    evidence@,
                    git_commit@,
                )->Ok_0);
                Ok(plan)
            },
        }
    }
}

impl FileFacade {
    /// The plan of a push of the file; see [`FileFacadeView::push_plan`].
    /// `snapshots` are the recorded snapshots of the file in the order of
    /// recording, and `last_pushed` the epoch of the last push, where there
    /// was one.
    pub fn push(&self, snapshots: &Vec<Snapshot>, last_pushed: Option<i64>) -> (r: Result<
        Vec<Step>,
        Error,
    >)
        ensures
            match r {
                Ok(plan) => self@.push_plan(snapshots@, last_pushed) == Ok::<
                    Seq<StepView>,
                    ErrorView,
                >(spec_steps(plan@)),
                Err(e) => self@.push_plan(snapshots@, last_pushed) == Err::<
                    Seq<StepView>,
                    ErrorView,
                >(e@),
            },
    {
        match push_file(self, snapshots, last_pushed) {
            Err(e) => Err(e),
            Ok((transfers, pointer)) => {
                if transfers.len() == 0 {
                    assert(spec_steps(transfers@) =~= Seq::empty());
                    return Ok(transfers);
                }
                let ghost uploads = spec_steps(transfers@);
                let mut plan = transfers;
                plan.push(Step::CreateLogbook);
                plan.push(Step::Record { statement: statement(&pointer) });
                plan.push(Step::Log { event: self.event(Events::Push) });
                assert(spec_steps(plan@) =~= uploads + seq![
                    StepView::CreateLogbook,
                    StepView::Record { statement: pointer@.statement() },
                    StepView::Log { event: self@.event(Events::Push) },
                ]);
                Ok(plan)
            },
        }
    }

    /// The plan of a pull of the file; see [`FileFacadeView::pull_plan`].
    pub fn pull(&self) -> (r: Result<Vec<Step>, Error>)
        ensures
            match r {
                Ok(plan) => self@.pull_plan() == Ok::<Seq<StepView>, ErrorView>(
                    spec_steps(plan@),
                ),
                Err(e) => self@.pull_plan() == Err::<Seq<StepView>, ErrorView>(e@),
            },
    {
        match pull_file(self) {
            Err(e) => Err(e),
            Ok((transfer, pointer)) => {
                let mut plan: Vec<Step> = Vec::new();
                plan.push(transfer);
                plan.push(Step::CreateLogbook);
                plan.push(Step::Record { statement: statement(&pointer) });
                plan.push(Step::Log { event: self.event(Events::Pull) });
                assert(spec_steps(plan@) =~= self@.pull_plan()->Ok_0);
                Ok(plan)
            },
        }
    }

    /// The plan of a remove of the file; see [`FileFacadeView::remove_plan`].
    pub fn remove(&self) -> (r: Result<Vec<Step>, Error>)
        ensures
            match r {
                Ok(plan) => self@.remove_plan() == Ok::<Seq<StepView>, ErrorView>(
                    spec_steps(plan@),
                ),
                Err(e) => self@.remove_plan() == Err::<Seq<StepView>, ErrorView>(e@),
            },
    {
        match &self.remote {
            None => Err(Error::UnsupportedContextCombination),
            Some(_) => {
                let mut plan: Vec<Step> = Vec::new();
                plan.push(Step::Delete { key: self.file.path.clone() });
                plan.push(Step::Log { event: self.event(Events::Remove) });
                assert(spec_steps(plan@) =~= self@.remove_plan()->Ok_0);
                Ok(plan)
            },
        }
    }
}

impl Logbook {
    /// Whether the index holds the file of the context.
    pub fn file_is_tracked(&self, file: &FileFacade) -> (r: bool)
        ensures
            r == self@.tracks(file@.file.path, file@.file.branch),
    {
        self.is_tracked(file.file.path.as_str(), file.file.branch.as_str())
    }

    /// Enters the file of the context in the index; a file that is in the
    /// index already is refused. A caller asks [`Logbook::file_is_tracked`]
    /// first.
    pub fn track_file(&mut self, file: &FileFacade) -> (r: Result<(), Error>)
        ensures
            old(self)@.apply(
                StepView::Track { path: file@.file.path, branch: file@.file.branch },
            ) == (match r {
                Ok(_) => Ok::<LogbookView, ErrorView>(final(self)@),
                Err(e) => Err::<LogbookView, ErrorView>(e@),
            }),
            r is Err ==> final(self)@ == old(self)@,
            old(self)@.wf() ==> final(self)@.wf(),
    {
        self.track(file.file.path.as_str(), file.file.branch.as_str())
    }

    /// Appends to the trail the event that an operation of kind `event` on
    /// the file of the context leaves behind.
    pub fn save_event(&mut self, file: &FileFacade, event: &Events)
        ensures
            Ok::<LogbookView, ErrorView>(final(self)@) == old(self)@.apply(
                StepView::Log { event: file@.event(*event) },
            ),
            old(self)@.wf() ==> final(self)@.wf(),
    {
        self.log(file.event(*event));
    }
}

} // verus!
