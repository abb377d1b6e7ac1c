//! Transfers between a file and its remote copy. The key of a file on the
//! remote is its path below the project root, as it stands.

use vstd::prelude::*;

use crate::config::{spec_text, PushStrategy};
use crate::text::same;
use crate::error::{Error, ErrorView};
use crate::vcs::facade::FileFacade;
use crate::vcs::file::{Remote, RemoteView};
use crate::vcs::logbook::{spec_steps, Step, StepView};

verus! {

/// The transfers that push the file, and the pointer they leave behind; see
/// [`crate::vcs::facade::FileFacadeView::uploads`] and
/// [`crate::vcs::facade::FileFacadeView::pushed`]. `snapshots` are the
/// recorded snapshots of the file in the order of recording, and
/// `last_pushed` the epoch of the last push, where there was one. A context
/// without remote settings cannot push.
pub fn push_file(file: &FileFacade, snapshots: &Vec<Snapshot>, last_pushed: Option<i64>) -> (r:
    Result<(Vec<Step>, Remote), Error>)
    ensures
        match r {
            Ok((steps, pointer)) => {
                &&& file@.pushed() == Ok::<RemoteView, ErrorView>(pointer@)
                &&& spec_steps(steps@) == file@.uploads(file@.selected(snapshots@, last_pushed))
            },
            Err(e) => file@.pushed() == Err::<RemoteView, ErrorView>(e@),
        },
{
    match file.remote() {
        Err(e) => Err(e),
        Ok(remote) => {
            let chosen = select(remote.strategy, snapshots, last_pushed);
            let mut steps: Vec<Step> = Vec::new();
            let mut i: usize = 0;
            while i < chosen.len()
                invariant
                    i <= chosen.len(),
                    steps@.len() == i,
                    forall|j: int|
                        0 <= j < i ==> steps@[j]@ == (StepView::Upload {
                            key: file@.file.path,
                            from: file@.file.snapshot_path(chosen@[j] as int),
                        }),
                decreases chosen.len() - i,
            {
                steps.push(
                    Step::Upload {
                        key: file.file.path.clone(),
                        from: file.file.snapshot_path(chosen[i]),
                    },
                );
                i = i + 1;
            }
            assert(spec_steps(steps@) =~= file@.uploads(chosen@));
            let pointer = Remote::new(file.file.path.clone(), remote.strategy, remote.storage);
            Ok((steps, pointer))
        },
    }
}

/// The transfer that pulls the file, and the pointer it leaves behind; see
/// [`crate::vcs::facade::FileFacadeView::pulled`]. The transfer writes over a
/// working copy that is there already. A context without remote settings
/// cannot pull.
pub fn pull_file(file: &FileFacade) -> (r: Result<(Step, Remote), Error>)
    ensures
        match r {
            Ok((step, pointer)) => {
                &&& file@.pulled() == Ok::<RemoteView, ErrorView>(pointer@)
                &&& step@ == (StepView::Download { key: file@.file.path, to: file@.file.path })
            },
            Err(e) => file@.pulled() == Err::<RemoteView, ErrorView>(e@),
        },
{
    match file.remote() {
        Err(e) => Err(e),
        Ok(remote) => {
            let step = Step::Download { key: file.file.path.clone(), to: file.original_path() };
            let pointer = Remote::get(file.file.path.clone(), remote.storage);
            Ok((step, pointer))
        },
    }
}

/// One recorded snapshot of a file, as a push looks at it: its epoch, and
/// whether the comparison recorded with it found more than equal hashes.
#[derive(Clone, Copy, Debug, PartialEq, Eq, Structural)]
pub struct Snapshot {
    pub epoch: i64,
    pub changed: bool,
}

/// Whether a snapshot counts as changed, given the findings recorded with
/// it, as text: it does unless the findings are that the hashes are equal
/// and nothing more. A snapshot recorded without a comparison, as the first
/// one is, counts as changed.
pub open spec fn spec_changed(findings: Option<Seq<char>>) -> bool {
    match findings {
        Some(text) => text != "{\"equal\":true}"@,
        None => true,
    }
}

impl Snapshot {
    /// The snapshot recorded at `epoch` with the findings `findings`; see
    /// [`spec_changed`].
    pub fn recorded(epoch: i64, findings: &Option<String>) -> (r: Snapshot)
        ensures
            r == (Snapshot { epoch, changed: spec_changed(spec_text(*findings)) }),
    {
        let changed = match findings {
            Some(text) => !same(text.as_str(), "{\"equal\":true}"),
            None => true,
        };
        Snapshot { epoch, changed }
    }
}

/// Whether a push under `strategy` selects the snapshot at position `i` of
/// `snapshots`, which are in the order in which they were recorded. `All`
/// selects every snapshot and `Last` the one recorded last. `Smart` selects
/// the snapshots that changed and are later than the last one pushed, or
/// every one that changed where none was pushed.
pub open spec fn spec_selects(
    strategy: PushStrategy,
    snapshots: Seq<Snapshot>,
    last_pushed: Option<i64>,
    i: int,
) -> bool {
    match strategy {
        PushStrategy::All => true,
        PushStrategy::Last => i == snapshots.len() - 1,
        PushStrategy::Smart => snapshots[i].changed && match last_pushed {
            Some(p) => snapshots[i].epoch > p,
            None => true,
        },
    }
}

/// The epochs of the snapshots selected among the first `n`, in order.
pub open spec fn spec_select(
    strategy: PushStrategy,
    snapshots: Seq<Snapshot>,
    last_pushed: Option<i64>,
    n: nat,
) -> Seq<i64>
    decreases n,
{
    if n == 0 || n > snapshots.len() {
        Seq::empty()
    } else {
        let before = spec_select(strategy, snapshots, last_pushed, (n - 1) as nat);
        if spec_selects(strategy, snapshots, last_pushed, n - 1) {
            before.push(snapshots[n - 1].epoch)
        } else {
            before
        }
    }
}

/// The epochs of the snapshots that a push under `strategy` selects; see
/// [`spec_selects`].
pub fn select(strategy: PushStrategy, snapshots: &Vec<Snapshot>, last_pushed: Option<i64>) -> (r:
    Vec<i64>)
    ensures
        r@ == spec_select(strategy, snapshots@, last_pushed, snapshots@.len()),
{
    let mut r: Vec<i64> = Vec::new();
    let mut i: usize = 0;
    while i < snapshots.len()
        invariant
            i <= snapshots.len(),
            r@ == spec_select(strategy, snapshots@, last_pushed, i as nat),
        decreases snapshots.len() - i,
    {
        let snapshot = snapshots[i];
        let chosen = match strategy {
            PushStrategy::All => true,
            PushStrategy::Last => i == snapshots.len() - 1,
            PushStrategy::Smart => snapshot.changed && match last_pushed {
                Some(p) => snapshot.epoch > p,
                None => true,
            },
        };
        if chosen {
            r.push(snapshot.epoch);
        }
        i = i + 1;
    }
    r
}

} // verus!
