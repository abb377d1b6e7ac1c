//! What holds of the operations whatever the files and logbooks are.

use vstd::prelude::*;

use crate::error::ErrorView;
use crate::vcs::batch::Books;
use crate::vcs::cli::Events;
use crate::vcs::comparaison::EvidenceView;
use crate::vcs::facade::{
    spec_epochs, spec_is_previous, spec_no_baseline, spec_taken, FileFacadeView,
};
use crate::vcs::logbook::{LogbookView, StepView, TrackedFileView};
use crate::vcs::remote::Snapshot;

verus! {

/// The row of the index that stands for the file of a context.
pub open spec fn spec_row(file: FileFacadeView) -> TrackedFileView {
    TrackedFileView { path: file.file.path, branch: file.file.branch }
}

/// Adding a file that is not tracked enters it in the index once, records
/// one snapshot in its logbook and leaves one event; once that is done,
/// adding the file again plans nothing and changes nothing.
pub proof fn lemma_add_is_idempotent(books: Books, file: FileFacadeView, keys: Seq<Option<u32>>)
    requires
        books.master.wf(),
        books.file.opened,
        !books.master.tracks(file.file.path, file.file.branch),
    ensures
        books.complete(file.add_plan(books.master), keys) is Ok,
        ({
            let after = books.complete(file.add_plan(books.master), keys)->Ok_0;
            &&& after.master.wf()
            &&& after.master.files == books.master.files.push(spec_row(file))
            &&& after.master.events == books.master.events.push(file.event(Events::Add))
            &&& after.file.entries == books.file.entries.push(file.file.statement())
            &&& file.add_plan(after.master).len() == 0
            &&& after.complete(file.add_plan(after.master), keys) == Ok::<Books, ErrorView>(after)
        }),
{
    reveal_with_fuel(Books::settle, 6);
    let plan = file.add_plan(books.master);
    assert(plan == file.add_steps());
    let after = books.complete(plan, keys)->Ok_0;
    assert(after.master.files.last() == spec_row(file));
    assert(after.master.tracks(file.file.path, file.file.branch));
}

/// Adding a file that is tracked plans nothing, so nothing changes.
pub proof fn lemma_add_of_tracked_is_no_op(
    books: Books,
    file: FileFacadeView,
    keys: Seq<Option<u32>>,
)
    requires
        books.master.tracks(file.file.path, file.file.branch),
    ensures
        file.add_plan(books.master).len() == 0,
        books.complete(file.add_plan(books.master), keys) == Ok::<Books, ErrorView>(books),
{
}

/// The master logbook after the first `n` of `files` have been added, one
/// after the other, each with its own logbook.
pub open spec fn spec_add_all(master: LogbookView, files: Seq<FileFacadeView>, n: nat) -> LogbookView
    decreases n,
{
    if n == 0 || n > files.len() {
        master
    } else {
        let before = spec_add_all(master, files, (n - 1) as nat);
        let file = files[n - 1];
        match (Books { master: before, file: file.logbook }).complete(
            file.add_plan(before),
            Seq::empty(),
        ) {
            Ok(after) => after.master,
            Err(_) => before,
        }
    }
}

/// Whether no two of `files` are the same file on the same branch.
pub open spec fn spec_distinct(files: Seq<FileFacadeView>) -> bool {
    forall|i: int, j: int| 0 <= i < j < files.len() ==> spec_row(files[i]) != spec_row(files[j])
}

/// Adding a batch of distinct files, none of them tracked, in any order,
/// enters every one of them in the index, once, and leaves one event each:
/// none is lost and none is entered twice.
pub proof fn lemma_add_batch(master: LogbookView, files: Seq<FileFacadeView>, n: nat)
    requires
        master.wf(),
        n <= files.len(),
        spec_distinct(files),
        forall|i: int| 0 <= i < files.len() ==> files[i].logbook.opened,
        forall|i: int|
            0 <= i < files.len() ==> !master.tracks(files[i].file.path, files[i].file.branch),
    ensures
        spec_add_all(master, files, n).wf(),
        spec_add_all(master, files, n).files == master.files + Seq::new(
            n,
            |i: int| spec_row(files[i]),
        ),
        spec_add_all(master, files, n).events == master.events + Seq::new(
            n,
            |i: int| files[i].event(Events::Add),
        ),
    decreases n,
{
    if n > 0 {
        lemma_add_batch(master, files, (n - 1) as nat);
        let before = spec_add_all(master, files, (n - 1) as nat);
        let file = files[n - 1];
        let rows = Seq::new((n - 1) as nat, |i: int| spec_row(files[i]));
        assert(!before.tracks(file.file.path, file.file.branch)) by {
            if before.tracks(file.file.path, file.file.branch) {
                let at = choose|k: int| 0 <= k < before.files.len() && before.files[k] == spec_row(
                    file,
                );
                if at < master.files.len() {
                    assert(master.files[at] == spec_row(file));
                } else {
                    assert(rows[at - master.files.len()] == spec_row(file));
                }
            }
        }
        lemma_add_is_idempotent(Books { master: before, file: file.logbook }, file, Seq::empty());
        assert(spec_add_all(master, files, n).files =~= master.files + Seq::new(
            n,
            |i: int| spec_row(files[i]),
        ));
        assert(spec_add_all(master, files, n).events =~= master.events + Seq::new(
            n,
            |i: int| files[i].event(Events::Add),
        ));
    } else {
        assert(master.files + Seq::new(0, |i: int| spec_row(files[i])) =~= master.files);
        assert(master.events + Seq::new(0, |i: int| files[i].event(Events::Add))
            =~= master.events);
    }
}

/// Whether each of `epochs` is later than the one before it.
pub open spec fn spec_increasing(epochs: Seq<i64>) -> bool {
    forall|i: int, j: int| 0 <= i < j < epochs.len() ==> epochs[i] < epochs[j]
}

/// Where the snapshots of a file were recorded at increasing epochs, and the
/// epoch of a batch is later than the last of them, the snapshot the batch
/// records keeps the epochs increasing, and the snapshot before it is the
/// last one recorded.
pub proof fn lemma_epochs_stay_increasing(epochs: Seq<i64>, current: i64)
    requires
        spec_increasing(epochs),
        epochs.len() > 0 ==> epochs.last() < current,
    ensures
        spec_increasing(epochs.push(current)),
        epochs.len() > 0 ==> spec_is_previous(epochs, current as int, epochs.last()),
{
    if epochs.len() > 0 {
        assert(epochs[epochs.len() - 1] == epochs.last());
    }
}

/// The remove of a file touches nothing local: the logbook of the file and
/// the index of tracked files stay as they were, and the only trace it
/// leaves is its event.
pub proof fn lemma_remove_keeps_local_history(
    books: Books,
    file: FileFacadeView,
    keys: Seq<Option<u32>>,
)
    requires
        file.remote is Some,
    ensures
        file.remove_plan() is Ok,
        books.complete(file.remove_plan()->Ok_0, keys) == Ok::<Books, ErrorView>(
            Books {
                master: LogbookView {
                    files: books.master.files,
                    events: books.master.events.push(file.event(Events::Remove)),
                },
                file: books.file,
            },
        ),
{
    reveal_with_fuel(Books::settle, 3);
}

/// Whether `plan` ends with the event of an operation of kind `kind` on
/// `file`, and writes to the master logbook nowhere before, but for a step
/// that enters the file in the index right before the event.
pub open spec fn spec_event_comes_last(plan: Seq<StepView>, file: FileFacadeView, kind: Events) -> bool {
    &&& plan.len() > 0
    &&& plan.last() == (StepView::Log { event: file.event(kind) })
    &&& forall|i: int| 0 <= i < plan.len() - 1 ==> !(plan[i] is Log)
    &&& forall|i: int| 0 <= i < plan.len() - 2 ==> !(plan[i] is Track)
}

/// In the plan of every operation the event is the last step: whatever the
/// operation copies, transfers or records has been carried out before the
/// trail says that the operation took place.
pub proof fn lemma_event_comes_last(
    file: FileFacadeView,
    message: Seq<char>,
    names: Seq<Seq<char>>,
    evidence: EvidenceView,
    git_commit: Seq<char>,
    snapshots: Seq<Snapshot>,
    last_pushed: Option<i64>,
)
    ensures
        spec_event_comes_last(file.add_steps(), file, Events::Add),
        file.compare_plan(message, names, evidence, git_commit) is Ok ==> spec_event_comes_last(
            file.compare_plan(message, names, evidence, git_commit)->Ok_0,
            file,
            Events::Commit,
        ),
        file.push_plan(snapshots, last_pushed) is Ok && file.push_plan(
            snapshots,
            last_pushed,
        )->Ok_0.len() > 0 ==> spec_event_comes_last(
            file.push_plan(snapshots, last_pushed)->Ok_0,
            file,
            Events::Push,
        ),
        file.pull_plan() is Ok ==> spec_event_comes_last(
            file.pull_plan()->Ok_0,
            file,
            Events::Pull,
        ),
        file.remove_plan() is Ok ==> spec_event_comes_last(
            file.remove_plan()->Ok_0,
            file,
            Events::Remove,
        ),
{
}

/// A commit that is planned takes its snapshot at an epoch later than every
/// recorded one: the one copy it plans goes to the place of that epoch, so
/// that no recorded snapshot is written over, and the recorded epochs with
/// the new one after them are increasing where they were before.
pub proof fn lemma_commit_is_later(
    file: FileFacadeView,
    message: Seq<char>,
    names: Seq<Seq<char>>,
    evidence: EvidenceView,
    git_commit: Seq<char>,
)
    requires
        file.compare_plan(message, names, evidence, git_commit) is Ok,
    ensures
        spec_epochs(names) is Ok,
        ({
            let epochs = spec_epochs(names)->Ok_0;
            let plan = file.compare_plan(message, names, evidence, git_commit)->Ok_0;
            &&& epochs.len() > 0
            &&& forall|i: int| 0 <= i < epochs.len() ==> epochs[i] < file.file.timestamp
            &&& plan[0] == (StepView::Duplicate {
                from: file.file.path,
                to: file.file.snapshot_path(file.file.timestamp),
            })
            &&& forall|i: int| 0 < i < plan.len() ==> !(plan[i] is Duplicate)
        }),
{
    let epochs = spec_epochs(names)->Ok_0;
    let current = file.file.timestamp;
    assert(!spec_no_baseline(epochs, current));
    assert(!spec_taken(epochs, current));
}

/// Where the snapshots of a file were recorded at increasing epochs, a
/// commit that is planned is compared with the snapshot recorded last, and
/// the epochs with the epoch of the commit after them are increasing still.
pub proof fn lemma_commit_keeps_epochs_increasing(
    file: FileFacadeView,
    message: Seq<char>,
    names: Seq<Seq<char>>,
    evidence: EvidenceView,
    git_commit: Seq<char>,
    epoch: i64,
)
    requires
        file.compare_plan(message, names, evidence, git_commit) is Ok,
        spec_epochs(names) is Ok ==> spec_increasing(spec_epochs(names)->Ok_0),
        epoch as int == file.file.timestamp,
    ensures
        spec_epochs(names) is Ok,
        file.baseline(names) is Ok,
        file.baseline(names)->Ok_0.timestamp == spec_epochs(names)->Ok_0.last(),
        spec_increasing(spec_epochs(names)->Ok_0.push(epoch)),
{
    lemma_commit_is_later(file, message, names, evidence, git_commit);
    let epochs = spec_epochs(names)->Ok_0;
    let current = file.file.timestamp;
    assert(spec_is_previous(epochs, current, epochs.last())) by {
        assert(epochs[epochs.len() - 1] == epochs.last());
    }
    crate::vcs::facade::lemma_previous_is_one(epochs, current, epochs.last());
}

/// A commit at an epoch that a recorded snapshot has, or that a recorded
/// snapshot is later than, is refused: it plans no step, so that no snapshot
/// is added or written over.
pub proof fn lemma_commit_refuses_taken_epoch(
    file: FileFacadeView,
    message: Seq<char>,
    names: Seq<Seq<char>>,
    evidence: EvidenceView,
    git_commit: Seq<char>,
)
    requires
        spec_epochs(names) is Ok,
        spec_taken(spec_epochs(names)->Ok_0, file.file.timestamp),
    ensures
        file.compare_plan(message, names, evidence, git_commit) is Err,
{
}

/// Once the steps of a commit have been carried out, the logbook of the file
/// holds two records more, the comparison and then the commit, and the
/// commit refers to the comparison by the key the store gave it.
pub proof fn lemma_commit_links_its_comparison(
    books: Books,
    file: FileFacadeView,
    message: Seq<char>,
    names: Seq<Seq<char>>,
    evidence: EvidenceView,
    git_commit: Seq<char>,
    keys: Seq<Option<u32>>,
)
    requires
        books.file.opened,
        file.compare_plan(message, names, evidence, git_commit) is Ok,
    ensures
        books.complete(
            file.compare_plan(message, names, evidence, git_commit)->Ok_0,
            keys,
        ) is Ok,
        ({
            let plan = file.compare_plan(message, names, evidence, git_commit)->Ok_0;
            let commit = file.commit_record(message, names, evidence, git_commit)->Ok_0;
            let key = crate::vcs::batch::spec_key(keys, 2);
            let after = books.complete(plan, keys)->Ok_0;
            &&& after.file.entries == books.file.entries.push(commit.diff->0.statement()).push(
                commit.linked(key).statement(),
            )
            &&& commit.linked(key).diff->0 == (crate::vcs::comparaison::DiffView {
                pk: key,
                ..commit.diff->0
            })
            &&& commit.linked(key).statement().params[4] == commit.linked(key).diff_key()
            &&& commit.linked(key).message == message
            &&& after.master.files == books.master.files
            &&& after.master.events == books.master.events.push(file.event(Events::Commit))
        }),
{
    reveal_with_fuel(Books::settle, 6);
}

/// How many of `positions` are before `k`.
pub open spec fn spec_count_before(positions: Seq<int>, k: int) -> nat
    decreases positions.len(),
{
    if positions.len() == 0 {
        0
    } else {
        spec_count_before(positions.drop_last(), k) + if positions.last() < k {
            1nat
        } else {
            0nat
        }
    }
}

/// Whether `steps` hold the steps that the adds of `files` write to the
/// master logbook, in some order of carrying out: for each file its entry in
/// the index, at the position `tracks` gives, and later its event, at the
/// position `logs` gives; and no other step that writes to the master
/// logbook. Steps of different files may follow each other in any way.
pub open spec fn spec_interleaves(
    steps: Seq<StepView>,
    files: Seq<FileFacadeView>,
    tracks: Seq<int>,
    logs: Seq<int>,
) -> bool {
    &&& tracks.len() == files.len()
    &&& logs.len() == files.len()
    &&& forall|i: int|
        0 <= i < files.len() ==> 0 <= #[trigger] tracks[i] < logs[i] < steps.len()
    &&& forall|i: int|
        0 <= i < files.len() ==> steps[#[trigger] tracks[i]] == (StepView::Track {
            path: files[i].file.path,
            branch: files[i].file.branch,
        })
    &&& forall|i: int|
        0 <= i < files.len() ==> steps[#[trigger] logs[i]] == (StepView::Log {
            event: files[i].event(Events::Add),
        })
    &&& forall|k: int|
        0 <= k < steps.len() && #[trigger] steps[k] is Track ==> exists|i: int|
            0 <= i < files.len() && tracks[i] == k
    &&& forall|k: int|
        0 <= k < steps.len() && #[trigger] steps[k] is Log ==> exists|i: int|
            0 <= i < files.len() && logs[i] == k
}

/// Whether no two of `positions` are the same.
pub open spec fn spec_apart(positions: Seq<int>) -> bool {
    forall|i: int, j: int| 0 <= i < j < positions.len() ==> positions[i] != positions[j]
}

proof fn lemma_count_step(positions: Seq<int>, k: int)
    requires
        spec_apart(positions),
    ensures
        spec_count_before(positions, k + 1) == spec_count_before(positions, k) + (if exists|
            i: int,
        |
            0 <= i < positions.len() && positions[i] == k {
            1nat
        } else {
            0nat
        }),
    decreases positions.len(),
{
    if positions.len() > 0 {
        let rest = positions.drop_last();
        assert(spec_apart(rest)) by {
            assert forall|i: int, j: int| 0 <= i < j < rest.len() implies rest[i] != rest[j] by {
                assert(rest[i] == positions[i] && rest[j] == positions[j]);
            }
        }
        lemma_count_step(rest, k);
        let here = exists|i: int| 0 <= i < positions.len() && positions[i] == k;
        let there = exists|i: int| 0 <= i < rest.len() && rest[i] == k;
        if positions.last() == k {
            assert(positions[positions.len() - 1] == k);
            assert(here);
            if there {
                let i = choose|i: int| 0 <= i < rest.len() && rest[i] == k;
                assert(positions[i] == rest[i]);
                assert(false);
            }
        } else {
            if here {
                let i = choose|i: int| 0 <= i < positions.len() && positions[i] == k;
                assert(i < rest.len());
                assert(rest[i] == k);
            }
            if there {
                let i = choose|i: int| 0 <= i < rest.len() && rest[i] == k;
                assert(positions[i] == k);
            }
        }
    }
}

proof fn lemma_count_all(positions: Seq<int>, k: int)
    requires
        forall|i: int| 0 <= i < positions.len() ==> positions[i] < k,
    ensures
        spec_count_before(positions, k) == positions.len(),
    decreases positions.len(),
{
    if positions.len() > 0 {
        let rest = positions.drop_last();
        assert forall|i: int| 0 <= i < rest.len() implies rest[i] < k by {
            assert(rest[i] == positions[i]);
        }
        lemma_count_all(rest, k);
        assert(positions.last() == positions[positions.len() - 1]);
    }
}

proof fn lemma_count_none(positions: Seq<int>)
    requires
        forall|i: int| 0 <= i < positions.len() ==> positions[i] >= 0,
    ensures
        spec_count_before(positions, 0) == 0,
    decreases positions.len(),
{
    if positions.len() > 0 {
        let rest = positions.drop_last();
        assert forall|i: int| 0 <= i < rest.len() implies rest[i] >= 0 by {
            assert(rest[i] == positions[i]);
        }
        lemma_count_none(rest);
        assert(positions.last() == positions[positions.len() - 1]);
    }
}

/// What holds of the master logbook after the first `k` steps of an
/// interleaving.
spec fn spec_midway(
    master: LogbookView,
    files: Seq<FileFacadeView>,
    tracks: Seq<int>,
    logs: Seq<int>,
    k: int,
    now: LogbookView,
) -> bool {
    &&& now.wf()
    &&& now.files.len() == master.files.len() + spec_count_before(tracks, k)
    &&& now.events.len() == master.events.len() + spec_count_before(logs, k)
    &&& now.files.take(master.files.len() as int) == master.files
    &&& now.events.take(master.events.len() as int) == master.events
    &&& forall|r: TrackedFileView|
        now.files.contains(r) <==> master.files.contains(r) || exists|i: int|
            0 <= i < files.len() && tracks[i] < k && r == spec_row(files[i])
    &&& forall|i: int|
        0 <= i < files.len() && logs[i] < k ==> now.events.contains(
            #[trigger] files[i].event(Events::Add),
        )
}

proof fn lemma_interleaved_prefix(
    master: LogbookView,
    files: Seq<FileFacadeView>,
    steps: Seq<StepView>,
    tracks: Seq<int>,
    logs: Seq<int>,
    k: nat,
)
    requires
        master.wf(),
        spec_distinct(files),
        forall|i: int|
            0 <= i < files.len() ==> !master.tracks(files[i].file.path, files[i].file.branch),
        spec_interleaves(steps, files, tracks, logs),
        k <= steps.len(),
    ensures
        master.run(steps, k) is Ok,
        spec_midway(master, files, tracks, logs, k as int, master.run(steps, k)->Ok_0),
    decreases k,
{
    if k == 0 {
        assert forall|i: int| 0 <= i < logs.len() implies logs[i] >= 0 by {
            assert(0 <= tracks[i] < logs[i]);
        }
        lemma_count_none(tracks);
        lemma_count_none(logs);
        assert(master.files.take(master.files.len() as int) =~= master.files);
        assert(master.events.take(master.events.len() as int) =~= master.events);
    } else {
        lemma_interleaved_prefix(master, files, steps, tracks, logs, (k - 1) as nat);
        let before = master.run(steps, (k - 1) as nat)->Ok_0;
        let step = steps[k - 1];
        assert(spec_apart(tracks)) by {
            assert forall|i: int, j: int| 0 <= i < j < tracks.len() implies tracks[i]
                != tracks[j] by {
                if tracks[i] == tracks[j] {
                    assert(steps[tracks[i]] == steps[tracks[j]]);
                    assert(spec_row(files[i]) == spec_row(files[j]));
                }
            }
        }
        assert(spec_apart(logs)) by {
            assert forall|i: int, j: int| 0 <= i < j < logs.len() implies logs[i] != logs[j] by {
                if logs[i] == logs[j] {
                    assert(steps[logs[i]] == steps[logs[j]]);
                    assert(files[i].event(Events::Add) == files[j].event(Events::Add));
                    assert(spec_row(files[i]) == spec_row(files[j]));
                }
            }
        }
        lemma_count_step(tracks, k - 1);
        lemma_count_step(logs, k - 1);
        let tracked_here = exists|i: int| 0 <= i < tracks.len() && tracks[i] == k - 1;
        let logged_here = exists|i: int| 0 <= i < logs.len() && logs[i] == k - 1;
        if step is Track {
            let i = choose|i: int| 0 <= i < files.len() && tracks[i] == k - 1;
            assert(steps[tracks[i]] == step);
            let row = spec_row(files[i]);
            assert(!before.files.contains(row)) by {
                if before.files.contains(row) {
                    let j = choose|j: int|
                        0 <= j < files.len() && tracks[j] < k - 1 && row == spec_row(files[j]);
                    if j < i {
                        assert(spec_row(files[j]) != spec_row(files[i]));
                    } else if i < j {
                        assert(spec_row(files[i]) != spec_row(files[j]));
                    }
                }
            }
            assert(tracked_here);
            if logged_here {
                let j = choose|j: int| 0 <= j < logs.len() && logs[j] == k - 1;
                assert(steps[logs[j]] is Log);
            }
            let now = master.run(steps, k)->Ok_0;
            assert(now.files == before.files.push(row));
            assert(now.events == before.events);
            assert(now.files.take(master.files.len() as int) =~= before.files.take(
                master.files.len() as int,
            ));
            assert forall|r: TrackedFileView|
                now.files.contains(r) <==> master.files.contains(r) || exists|j: int|
                    0 <= j < files.len() && tracks[j] < k && r == spec_row(files[j]) by {
                if now.files.contains(r) {
                    let at = choose|at: int| 0 <= at < now.files.len() && now.files[at] == r;
                    if at < before.files.len() {
                        assert(before.files[at] == r);
                        assert(before.files.contains(r));
                    } else {
                        assert(r == row);
                        assert(tracks[i] < k);
                    }
                }
                if master.files.contains(r) || exists|j: int|
                    0 <= j < files.len() && tracks[j] < k && r == spec_row(files[j]) {
                    if before.files.contains(r) {
                        let at = choose|at: int|
                            0 <= at < before.files.len() && before.files[at] == r;
                        assert(now.files[at] == r);
                    } else {
                        let j = choose|j: int|
                            0 <= j < files.len() && tracks[j] < k && r == spec_row(files[j]);
                        assert(tracks[j] == k - 1);
                        assert(now.files[before.files.len() as int] == row);
                        if j != i {
                            if j < i {
                                assert(tracks[j] != tracks[i]);
                            } else {
                                assert(tracks[i] != tracks[j]);
                            }
                        }
                    }
                }
            }
            assert forall|j: int| 0 <= j < files.len() && logs[j] < k implies now.events.contains(
                #[trigger] files[j].event(Events::Add),
            ) by {
                assert(steps[logs[j]] is Log);
                assert(logs[j] != k - 1);
            }
            assert(now.wf()) by {
                assert forall|x: int, y: int|
                    0 <= x < now.files.len() && 0 <= y < now.files.len() && x != y implies now.files[x]
                    != now.files[y] by {
                    if x < before.files.len() && y < before.files.len() {
                        assert(before.files[x] != before.files[y]);
                    } else if x < before.files.len() {
                        assert(before.files.contains(before.files[x]));
                    } else if y < before.files.len() {
                        assert(before.files.contains(before.files[y]));
                    }
                }
            }
        } else if step is Log {
            let i = choose|i: int| 0 <= i < files.len() && logs[i] == k - 1;
            assert(steps[logs[i]] == step);
            assert(logged_here);
            if tracked_here {
                let j = choose|j: int| 0 <= j < tracks.len() && tracks[j] == k - 1;
                assert(steps[tracks[j]] is Track);
            }
            let now = master.run(steps, k)->Ok_0;
            let event = files[i].event(Events::Add);
            assert(now.events == before.events.push(event));
            assert(now.files == before.files);
            assert(now.events.take(master.events.len() as int) =~= before.events.take(
                master.events.len() as int,
            ));
            assert forall|r: TrackedFileView|
                now.files.contains(r) <==> master.files.contains(r) || exists|j: int|
                    0 <= j < files.len() && tracks[j] < k && r == spec_row(files[j]) by {
                if exists|j: int|
                    0 <= j < files.len() && tracks[j] < k && r == spec_row(files[j]) {
                    let j = choose|j: int|
                        0 <= j < files.len() && tracks[j] < k && r == spec_row(files[j]);
                    assert(steps[tracks[j]] is Track);
                    assert(tracks[j] < k - 1);
                }
            }
            assert forall|j: int| 0 <= j < files.len() && logs[j] < k implies now.events.contains(
                #[trigger] files[j].event(Events::Add),
            ) by {
                if logs[j] == k - 1 {
                    assert(steps[logs[j]] == steps[logs[i]]);
                    assert(now.events[before.events.len() as int] == event);
                } else {
                    let e = files[j].event(Events::Add);
                    assert(before.events.contains(e));
                    let at = choose|at: int| 0 <= at < before.events.len() && before.events[at] == e;
                    assert(now.events[at] == e);
                }
            }
        } else {
            if tracked_here {
                let j = choose|j: int| 0 <= j < tracks.len() && tracks[j] == k - 1;
                assert(steps[tracks[j]] is Track);
            }
            if logged_here {
                let j = choose|j: int| 0 <= j < logs.len() && logs[j] == k - 1;
                assert(steps[logs[j]] is Log);
            }
            let now = master.run(steps, k)->Ok_0;
            assert(now == before);
            assert forall|r: TrackedFileView|
                now.files.contains(r) <==> master.files.contains(r) || exists|j: int|
                    0 <= j < files.len() && tracks[j] < k && r == spec_row(files[j]) by {
                if exists|j: int|
                    0 <= j < files.len() && tracks[j] < k && r == spec_row(files[j]) {
                    let j = choose|j: int|
                        0 <= j < files.len() && tracks[j] < k && r == spec_row(files[j]);
                    assert(steps[tracks[j]] is Track);
                    assert(tracks[j] < k - 1);
                }
            }
            assert forall|j: int| 0 <= j < files.len() && logs[j] < k implies now.events.contains(
                #[trigger] files[j].event(Events::Add),
            ) by {
                assert(steps[logs[j]] is Log);
                assert(logs[j] != k - 1);
            }
        }
    }
}

/// Adding a batch of distinct files, none of them tracked, with the steps of
/// the files carried out in any order that keeps each file's own order:
/// every step is accepted, the index gains one row for every file and
/// nothing else, the trail gains one event for every file and nothing else,
/// and what the logbook held before stays where it was. No row and no event
/// is lost, and none comes twice.
pub proof fn lemma_add_batch_in_any_order(
    master: LogbookView,
    files: Seq<FileFacadeView>,
    steps: Seq<StepView>,
    tracks: Seq<int>,
    logs: Seq<int>,
)
    requires
        master.wf(),
        spec_distinct(files),
        forall|i: int|
            0 <= i < files.len() ==> !master.tracks(files[i].file.path, files[i].file.branch),
        spec_interleaves(steps, files, tracks, logs),
    ensures
        master.run(steps, steps.len()) is Ok,
        ({
            let after = master.run(steps, steps.len())->Ok_0;
            &&& after.wf()
            &&& after.files.len() == master.files.len() + files.len()
            &&& after.events.len() == master.events.len() + files.len()
            &&& after.files.take(master.files.len() as int) == master.files
            &&& after.events.take(master.events.len() as int) == master.events
            &&& forall|i: int|
                0 <= i < files.len() ==> after.files.contains(#[trigger] spec_row(files[i]))
            &&& forall|i: int|
                0 <= i < files.len() ==> after.events.contains(
                    #[trigger] files[i].event(Events::Add),
                )
        }),
{
    lemma_interleaved_prefix(master, files, steps, tracks, logs, steps.len());
    lemma_count_all(tracks, steps.len() as int);
    lemma_count_all(logs, steps.len() as int);
    let after = master.run(steps, steps.len())->Ok_0;
    assert forall|i: int| 0 <= i < files.len() implies after.files.contains(
        #[trigger] spec_row(files[i]),
    ) by {
        assert(tracks[i] < steps.len());
    }
}

} // verus!
