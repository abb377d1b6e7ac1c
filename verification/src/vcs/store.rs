//! What the steps of a plan do to the bytes they move: the files on disk and
//! the objects on the remote, as maps from a path or a key to bytes.

use vstd::prelude::*;

use crate::error::ErrorView;
use crate::vcs::facade::FileFacadeView;
use crate::vcs::logbook::StepView;
use crate::vcs::remote::Snapshot;

verus! {

/// The bytes on disk, by path, and the bytes on the remote, by key.
pub struct Stores {
    pub local: Map<Seq<char>, Seq<u8>>,
    pub remote: Map<Seq<char>, Seq<u8>>,
}

impl Stores {
    /// The stores after one step has been carried out, or the failure of the
    /// step: a copy or an upload fails without its source, a download
    /// without its key. Steps that write to a logbook move no bytes.
    pub open spec fn apply(&self, step: StepView) -> Result<Stores, ErrorView> {
        match step {
            StepView::Duplicate { from, to } => if self.local.contains_key(from) {
                Ok(Stores { local: self.local.insert(to, self.local[from]), remote: self.remote })
            } else {
                Err(step.failure())
            },
            StepView::Upload { key, from } => if self.local.contains_key(from) {
                Ok(Stores { local: self.local, remote: self.remote.insert(key, self.local[from]) })
            } else {
                Err(step.failure())
            },
            StepView::Download { key, to } => if self.remote.contains_key(key) {
                Ok(Stores { local: self.local.insert(to, self.remote[key]), remote: self.remote })
            } else {
                Err(step.failure())
            },
            StepView::Delete { key } => Ok(
                Stores { local: self.local, remote: self.remote.remove(key) },
            ),
            _ => Ok(*self),
        }
    }

    /// The stores after the first `n` steps of `plan` have been carried out
    /// in order, or the first failure.
    pub open spec fn run(&self, plan: Seq<StepView>, n: nat) -> Result<Stores, ErrorView>
        decreases n,
    {
        if n == 0 || n > plan.len() {
            Ok(*self)
        } else {
            match self.run(plan, (n - 1) as nat) {
                Err(e) => Err(e),
                Ok(stores) => stores.apply(plan[n - 1]),
            }
        }
    }

    /// The stores after all of `plan` has been carried out.
    pub open spec fn complete(&self, plan: Seq<StepView>) -> Result<Stores, ErrorView> {
        self.run(plan, plan.len())
    }
}

/// An add leaves a snapshot with the bytes of the file, at the place that
/// the file's history, path, branch and epoch give, and touches nothing on
/// the remote.
pub proof fn lemma_add_takes_snapshot(stores: Stores, file: FileFacadeView)
    requires
        stores.local.contains_key(file.file.path),
    ensures
        stores.complete(file.add_steps()) == Ok::<Stores, ErrorView>(
            Stores {
                local: stores.local.insert(file.file.history_path(), stores.local[file.file.path]),
                remote: stores.remote,
            },
        ),
{
    reveal_with_fuel(Stores::run, 6);
}

/// The transfers of a push leave the remote with the last of the snapshots
/// they write, under the file's path, and touch nothing on disk.
proof fn lemma_uploads_run(stores: Stores, file: FileFacadeView, chosen: Seq<i64>, plan: Seq<StepView>, k: nat)
    requires
        k <= chosen.len() <= plan.len(),
        forall|i: int| 0 <= i < chosen.len() ==> plan[i] == file.uploads(chosen)[i],
        forall|i: int|
            0 <= i < chosen.len() ==> stores.local.contains_key(
                #[trigger] file.file.snapshot_path(chosen[i] as int),
            ),
    ensures
        stores.run(plan, k) == Ok::<Stores, ErrorView>(
            Stores {
                local: stores.local,
                remote: if k == 0 {
                    stores.remote
                } else {
                    stores.remote.insert(
                        file.file.path,
                        stores.local[file.file.snapshot_path(chosen[k - 1] as int)],
                    )
                },
            },
        ),
    decreases k,
{
    if k > 0 {
        lemma_uploads_run(stores, file, chosen, plan, (k - 1) as nat);
        let before = stores.run(plan, (k - 1) as nat)->Ok_0;
        let from = file.file.snapshot_path(chosen[k - 1] as int);
        assert(plan[k - 1] == (StepView::Upload { key: file.file.path, from }));
        assert(before.local.contains_key(from));
        assert(before.remote.insert(file.file.path, stores.local[from])
            =~= stores.remote.insert(file.file.path, stores.local[from]));
    }
}

/// What a push writes to the remote, a pull into a working directory that
/// holds nothing brings back byte for byte: the working copy is the last of
/// the snapshots that the push selected.
pub proof fn lemma_push_then_pull_round_trips(
    stores: Stores,
    file: FileFacadeView,
    snapshots: Seq<Snapshot>,
    last_pushed: Option<i64>,
)
    requires
        file.remote is Some,
        file.selected(snapshots, last_pushed).len() > 0,
        forall|i: int|
            0 <= i < file.selected(snapshots, last_pushed).len() ==> stores.local.contains_key(
                #[trigger] file.file.snapshot_path(
                    file.selected(snapshots, last_pushed)[i] as int,
                ),
            ),
    ensures
        file.push_plan(snapshots, last_pushed) is Ok,
        file.pull_plan() is Ok,
        stores.complete(file.push_plan(snapshots, last_pushed)->Ok_0) is Ok,
        ({
            let chosen = file.selected(snapshots, last_pushed);
            let pushed = stores.complete(file.push_plan(snapshots, last_pushed)->Ok_0)->Ok_0;
            let fresh = Stores { local: Map::empty(), remote: pushed.remote };
            &&& pushed.local == stores.local
            &&& fresh.complete(file.pull_plan()->Ok_0) is Ok
            &&& fresh.complete(file.pull_plan()->Ok_0)->Ok_0.local == Map::<
                Seq<char>,
                Seq<u8>,
            >::empty().insert(
                file.file.path,
                stores.local[file.file.snapshot_path(chosen.last() as int)],
            )
        }),
{
    let chosen = file.selected(snapshots, last_pushed);
    let plan = file.push_plan(snapshots, last_pushed)->Ok_0;
    let n: int = chosen.len() as int;
    assert(plan.len() == n + 3);
    assert forall|i: int| 0 <= i < n implies plan[i] == file.uploads(chosen)[i] by {}
    lemma_uploads_run(stores, file, chosen, plan, n as nat);
    let after = stores.run(plan, n as nat)->Ok_0;
    assert(plan[n] is CreateLogbook);
    assert(plan[n + 1] is Record);
    assert(plan[n + 2] is Log);
    assert(stores.run(plan, (n + 1) as nat) == Ok::<Stores, ErrorView>(after));
    assert(stores.run(plan, (n + 2) as nat) == Ok::<Stores, ErrorView>(after));
    assert(stores.run(plan, (n + 3) as nat) == Ok::<Stores, ErrorView>(after));
    reveal_with_fuel(Stores::run, 5);
}

/// A remove takes the object of the file off the remote and leaves every
/// file on disk, the snapshots among them, as it was.
pub proof fn lemma_remove_is_remote_only(stores: Stores, file: FileFacadeView)
    requires
        file.remote is Some,
    ensures
        file.remove_plan() is Ok,
        stores.complete(file.remove_plan()->Ok_0) == Ok::<Stores, ErrorView>(
            Stores { local: stores.local, remote: stores.remote.remove(file.file.path) },
        ),
{
    reveal_with_fuel(Stores::run, 3);
}

} // verus!
