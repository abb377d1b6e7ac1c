//! Carrying plans out: the progress of one plan, the logbooks brought up to
//! date with the steps that were carried out, and the outcome of a batch.

use vstd::prelude::*;

use crate::error::{Error, ErrorView};
use crate::vcs::logbook::{
    spec_steps, FileLogbook, FileLogbookView, Logbook, LogbookView, Step, StepView,
};

verus! {

/// The key the store gave at step `i`: the one `keys` holds there, or none
/// where `keys` is shorter.
pub open spec fn spec_key(keys: Seq<Option<u32>>, i: int) -> Option<u32> {
    if 0 <= i < keys.len() {
        keys[i]
    } else {
        None
    }
}

/// The two logbooks that a plan writes to, as plain values.
pub struct Books {
    pub master: LogbookView,
    pub file: FileLogbookView,
}

impl Books {
    /// The logbooks after one step has been carried out, or the refusal of
    /// the logbook the step writes to; `key` is the key the store gave the
    /// record, where the step appended one.
    pub open spec fn apply(&self, step: StepView, key: Option<u32>) -> Result<Books, ErrorView> {
        match self.master.apply(step) {
            Err(e) => Err(e),
            Ok(master) => match self.file.apply(step, key) {
                Err(e) => Err(e),
                Ok(file) => Ok(Books { master, file }),
            },
        }
    }

    /// The logbooks after the first `n` steps of `plan` have been carried
    /// out in order, or the first refusal; `keys` holds, step by step, the
    /// key the store gave, see [`spec_key`].
    pub open spec fn settle(&self, plan: Seq<StepView>, keys: Seq<Option<u32>>, n: nat) -> Result<
        Books,
        ErrorView,
    >
        decreases n,
    {
        if n == 0 || n > plan.len() {
            Ok(*self)
        } else {
            match self.settle(plan, keys, (n - 1) as nat) {
                Err(e) => Err(e),
                Ok(books) => books.apply(plan[n - 1], spec_key(keys, n - 1)),
            }
        }
    }

    /// The logbooks after all of `plan` has been carried out.
    pub open spec fn complete(&self, plan: Seq<StepView>, keys: Seq<Option<u32>>) -> Result<
        Books,
        ErrorView,
    > {
        self.settle(plan, keys, plan.len())
    }
}

/// Brings the two logbooks up to date with the first `done` steps of `plan`,
/// which have been carried out, or with all of them where `done` is more
/// than the plan has; see [`Books::settle`]. `keys` holds, step by step, the
/// key the store gave. At a refusal the logbooks hold the steps before it.
pub fn settle(
    master: &mut Logbook,
    file: &mut FileLogbook,
    plan: &Vec<Step>,
    keys: &Vec<Option<u32>>,
    done: usize,
) -> (r: Result<(), Error>)
    ensures
        (Books { master: old(master)@, file: old(file)@ }).settle(
            spec_steps(plan@),
            keys@,
            if done <= plan@.len() {
                done as nat
            } else {
                plan@.len()
            },
        ) == (match r {
            Ok(_) => Ok::<Books, ErrorView>(Books { master: final(master)@, file: final(file)@ }),
            Err(e) => Err::<Books, ErrorView>(e@),
        }),
        r is Err ==> exists|k: nat|
            k < plan@.len() && (Books { master: old(master)@, file: old(file)@ }).settle(
                spec_steps(plan@),
                keys@,
                k,
            ) == Ok::<Books, ErrorView>(Books { master: final(master)@, file: final(file)@ }),
        old(master)@.wf() ==> final(master)@.wf(),
{
    let limit: usize = if done <= plan.len() {
        done
    } else {
        plan.len()
    };
    let ghost start = Books { master: master@, file: file@ };
    let ghost steps = spec_steps(plan@);
    let mut i: usize = 0;
    while i < limit
        invariant
            i <= limit <= plan.len(),
            limit == (if done <= plan.len() {
                done
            } else {
                plan.len()
            }),
            steps == spec_steps(plan@),
            start == (Books { master: old(master)@, file: old(file)@ }),
            start.settle(steps, keys@, i as nat) == Ok::<Books, ErrorView>(
                Books { master: master@, file: file@ },
            ),
            start.master.wf() ==> master@.wf(),
        decreases limit - i,
    {
        assert(steps[i as int] == plan@[i as int]@);
        let key: Option<u32> = if i < keys.len() {
            keys[i]
        } else {
            None
        };
        let ghost books = Books { master: master@, file: file@ };
        match master.apply(&plan[i]) {
            Err(e) => {
                proof {
                    assert(books.apply(steps[i as int], key) == Err::<Books, ErrorView>(e@));
                    assert(start.settle(steps, keys@, (i + 1) as nat) == Err::<Books, ErrorView>(
                        e@,
                    ));
                    lemma_settle_stays_refused(start, steps, keys@, i + 1, limit as int);
                }
                return Err(e);
            },
            Ok(_) => {},
        }
        match file.apply(&plan[i], key) {
            Err(e) => {
                proof {
                    assert(books.apply(steps[i as int], key) == Err::<Books, ErrorView>(e@));
                    assert(start.settle(steps, keys@, (i + 1) as nat) == Err::<Books, ErrorView>(
                        e@,
                    ));
                    lemma_settle_stays_refused(start, steps, keys@, i + 1, limit as int);
                    assert(master@ == books.master);
                }
                return Err(e);
            },
            Ok(_) => {},
        }
        assert(books.apply(steps[i as int], key) == Ok::<Books, ErrorView>(
            Books { master: master@, file: file@ },
        ));
        i = i + 1;
    }
    Ok(())
}

/// A plan that is refused at one step is refused, in the same way, however
/// many more steps are counted.
proof fn lemma_settle_stays_refused(
    start: Books,
    plan: Seq<StepView>,
    keys: Seq<Option<u32>>,
    k: int,
    n: int,
)
    requires
        0 <= k <= n <= plan.len(),
        start.settle(plan, keys, k as nat) is Err,
    ensures
        start.settle(plan, keys, n as nat) == start.settle(plan, keys, k as nat),
    decreases n - k,
{
    if k < n {
        lemma_settle_stays_refused(start, plan, keys, k, n - 1);
    }
}

/// How far the plan of one file has come.
#[derive(Debug, PartialEq, Eq)]
pub enum Progress {
    /// The step at this position is the next to carry out.
    Pending { position: usize },
    /// Every step has been carried out.
    Done,
    /// The step at this position failed, and the plan ended there.
    Failed { position: usize, error: Error },
}

/// [`Progress`] as plain values.
pub enum ProgressView {
    Pending { position: nat },
    Done,
    Failed { position: nat, error: ErrorView },
}

impl View for Progress {
    type V = ProgressView;

    open spec fn view(&self) -> ProgressView {
        match self {
            Progress::Pending { position } => ProgressView::Pending { position: *position as nat },
            Progress::Done => ProgressView::Done,
            Progress::Failed { position, error } => ProgressView::Failed {
                position: *position as nat,
                error: error@,
            },
        }
    }
}

/// Where a plan of `len` steps stands once `done` of them have been carried
/// out.
pub open spec fn spec_after(len: nat, done: nat) -> ProgressView {
    if done >= len {
        ProgressView::Done
    } else {
        ProgressView::Pending { position: done }
    }
}

/// Where a plan stands after the step at `progress` has been reported as
/// carried out (`ok`) or failed. A plan that is done or has failed stays so.
pub open spec fn spec_advance(plan: Seq<StepView>, progress: ProgressView, ok: bool) -> ProgressView {
    match progress {
        ProgressView::Pending { position } => if position >= plan.len() {
            ProgressView::Done
        } else if ok {
            spec_after(plan.len(), position + 1)
        } else {
            ProgressView::Failed { position, error: plan[position as int].failure() }
        },
        _ => progress,
    }
}

/// Where a plan stands before any of its steps has been carried out.
pub fn begin(plan: &Vec<Step>) -> (r: Progress)
    ensures
        r@ == spec_after(plan@.len(), 0),
{
    if plan.len() == 0 {
        Progress::Done
    } else {
        Progress::Pending { position: 0 }
    }
}

/// Where a plan stands after a report on its pending step; see
/// [`spec_advance`].
pub fn advance(plan: &Vec<Step>, progress: Progress, ok: bool) -> (r: Progress)
    ensures
        r@ == spec_advance(spec_steps(plan@), progress@, ok),
{
    match progress {
        Progress::Pending { position } => {
            if position >= plan.len() {
                Progress::Done
            } else if ok {
                if position + 1 >= plan.len() {
                    Progress::Done
                } else {
                    Progress::Pending { position: position + 1 }
                }
            } else {
                Progress::Failed { position, error: plan[position].failure() }
            }
        },
        Progress::Done => Progress::Done,
        Progress::Failed { position, error } => Progress::Failed { position, error },
    }
}

/// How the operation on one file ended.
#[derive(Debug, PartialEq, Eq)]
pub struct FileOutcome {
    pub path: String,
    pub error: Option<Error>,
}

/// A [`FileOutcome`] as plain values.
pub struct FileOutcomeView {
    pub path: Seq<char>,
    pub error: Option<ErrorView>,
}

impl View for FileOutcome {
    type V = FileOutcomeView;

    open spec fn view(&self) -> FileOutcomeView {
        FileOutcomeView {
            path: self.path@,
            error: match self.error {
                Some(e) => Some(e@),
                None => None,
            },
        }
    }
}

/// Whether one of `outcomes` is a failure.
pub open spec fn spec_any_failed(outcomes: Seq<FileOutcome>) -> bool {
    exists|i: int| 0 <= i < outcomes.len() && outcomes[i].error is Some
}

/// Whether one of `outcomes` is a failure that ends the batch.
pub open spec fn spec_any_fatal(outcomes: Seq<FileOutcome>) -> bool {
    exists|i: int|
        0 <= i < outcomes.len() && outcomes[i].error is Some
            && outcomes[i].error->0.spec_aborts_batch()
}

/// The outcome of a batch: one outcome per file that was handled.
#[derive(Debug, PartialEq, Eq)]
pub struct BatchResult {
    pub per_file: Vec<FileOutcome>,
}

impl BatchResult {
    /// The outcome of a batch that has handled no file yet.
    pub fn new() -> (r: Self)
        ensures
            r.per_file@.len() == 0,
    {
        BatchResult { per_file: Vec::new() }
    }

    /// Notes how the operation on the file at `path` ended. A plan that is
    /// still pending has not ended: nothing is noted for it, and the answer
    /// is `false`.
    pub fn note(&mut self, path: String, progress: Progress) -> (noted: bool)
        ensures
            noted == !(progress is Pending),
            progress is Pending ==> final(self).per_file@ == old(self).per_file@,
            !(progress is Pending) ==> final(self).per_file@ == old(self).per_file@.push(
                FileOutcome {
                    path,
                    error: match progress {
                        Progress::Failed { position, error } => Some(error),
                        _ => None,
                    },
                },
            ),
    {
        match progress {
            Progress::Pending { position } => false,
            Progress::Done => {
                self.per_file.push(FileOutcome { path, error: None });
                true
            },
            Progress::Failed { position, error } => {
                self.per_file.push(FileOutcome { path, error: Some(error) });
                true
            },
        }
    }

    /// Whether the operation failed on some file.
    pub fn has_failed(&self) -> (r: bool)
        ensures
            r == spec_any_failed(self.per_file@),
    {
        let mut i: usize = 0;
        while i < self.per_file.len()
            invariant
                i <= self.per_file.len(),
                forall|j: int| 0 <= j < i ==> self.per_file@[j].error is None,
            decreases self.per_file.len() - i,
        {
            if self.per_file[i].error.is_some() {
                return true;
            }
            i = i + 1;
        }
        false
    }

    /// Whether the batch has to stop: some file failed in a way that ends
    /// the batch.
    pub fn must_stop(&self) -> (r: bool)
        ensures
            r == spec_any_fatal(self.per_file@),
    {
        let mut i: usize = 0;
        while i < self.per_file.len()
            invariant
                i <= self.per_file.len(),
                forall|j: int|
                    0 <= j < i ==> !(self.per_file@[j].error is Some
                        && self.per_file@[j].error->0.spec_aborts_batch()),
            decreases self.per_file.len() - i,
        {
            match &self.per_file[i].error {
                Some(e) => {
                    if e.aborts_batch() {
                        return true;
                    }
                },
                None => {},
            }
            i = i + 1;
        }
        false
    }

    /// The status the batch ends with: 0 when every file succeeded, 1
    /// otherwise.
    pub fn status(&self) -> (r: i16)
        ensures
            r == (if spec_any_failed(self.per_file@) {
                1i16
            } else {
                0i16
            }),
    {
        if self.has_failed() {
            1
        } else {
            0
        }
    }
}

} // verus!
