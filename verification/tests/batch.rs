use yap::error::{Error, RemoteOperation};
use yap::vcs::batch::{advance, begin, BatchResult, FileOutcome, Progress};
use yap::vcs::logbook::Step;

fn text(s: &str) -> String {
    s.to_string()
}

fn plan() -> Vec<Step> {
    vec![
        Step::Upload { key: text("a"), from: text("a") },
        Step::CreateLogbook,
        Step::Track { path: text("a"), branch: text("main") },
    ]
}

#[test]
fn a_plan_advances_step_by_step_to_done() {
    let plan = plan();
    let p = begin(&plan);
    assert_eq!(p, Progress::Pending { position: 0 });
    let p = advance(&plan, p, true);
    assert_eq!(p, Progress::Pending { position: 1 });
    let p = advance(&plan, p, true);
    assert_eq!(p, Progress::Pending { position: 2 });
    let p = advance(&plan, p, true);
    assert_eq!(p, Progress::Done);
    assert_eq!(advance(&plan, p, false), Progress::Done);
}

#[test]
fn an_empty_plan_is_done_at_once() {
    assert_eq!(begin(&Vec::new()), Progress::Done);
    assert_eq!(
        advance(&Vec::new(), Progress::Pending { position: 0 }, false),
        Progress::Done
    );
}

#[test]
fn a_plan_ends_at_the_first_failure() {
    let plan = plan();
    let p = advance(&plan, begin(&plan), false);
    assert_eq!(
        p,
        Progress::Failed {
            position: 0,
            error: Error::RemoteTransferFailed {
                operation: RemoteOperation::Write,
                key: text("a"),
            },
        }
    );
    let again = advance(&plan, p, true);
    assert_eq!(
        again,
        Progress::Failed {
            position: 0,
            error: Error::RemoteTransferFailed {
                operation: RemoteOperation::Write,
                key: text("a"),
            },
        }
    );
    let p = advance(&plan, Progress::Pending { position: 2 }, false);
    assert_eq!(p, Progress::Failed { position: 2, error: Error::MasterLogbookRejected });
}

#[test]
fn a_batch_fails_when_one_file_fails() {
    let mut batch = BatchResult::new();
    assert_eq!(batch.status(), 0);
    assert!(!batch.has_failed());
    assert!(!batch.must_stop());
    assert!(batch.note(text("a"), Progress::Done));
    assert!(!batch.note(text("later"), Progress::Pending { position: 1 }));
    assert_eq!(batch.per_file.len(), 1);
    assert_eq!(batch.status(), 0);
    batch.note(
        text("b"),
        Progress::Failed { position: 1, error: Error::FileLogbookRejected },
    );
    batch.note(text("c"), Progress::Done);
    assert_eq!(batch.status(), 1);
    assert!(batch.has_failed());
    assert!(!batch.must_stop());
    assert_eq!(
        batch.per_file,
        vec![
            FileOutcome { path: text("a"), error: None },
            FileOutcome { path: text("b"), error: Some(Error::FileLogbookRejected) },
            FileOutcome { path: text("c"), error: None },
        ]
    );
    batch.note(
        text("d"),
        Progress::Failed { position: 3, error: Error::MasterLogbookRejected },
    );
    assert!(batch.must_stop());
    assert_eq!(batch.status(), 1);
}
