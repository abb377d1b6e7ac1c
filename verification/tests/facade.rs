use std::collections::HashMap;

use yap::config::{Author, PushStrategy, RemoteConfig, Storage};
use yap::error::{Error, RemoteOperation};
use yap::value::Value;
use yap::vcs::batch::settle;
use yap::vcs::cli::Events;
use yap::vcs::comparaison::{Comparaison, ComparaisonTechnique, Diff, Evidence};
use yap::vcs::facade::{previous_epoch, snapshot_epochs, taken, FileFacade};
use yap::vcs::file::{statement, File, Remote};
use yap::vcs::logbook::{Event, FileLogbook, Logbook, Step};
use yap::vcs::remote::{pull_file, push_file, select, Snapshot};
use yap::vcs::versioning::Commit;

fn text(s: &str) -> String {
    s.to_string()
}

fn names(list: &[&str]) -> Vec<String> {
    list.iter().map(|s| s.to_string()).collect()
}

fn author() -> Author {
    Author::new("Ann", "ann@example.org")
}

fn facade(path: &str, epoch: i64) -> FileFacade {
    let file = File::new(path, "main", ".yap/history", epoch, author());
    FileFacade::new(file)
        .set_logbook(FileLogbook::new(path, ".yap/logbooks"))
        .init()
}

fn remote_facade(path: &str, epoch: i64) -> FileFacade {
    let remote = RemoteConfig::default().set_strategy(&PushStrategy::Last);
    facade(path, epoch).set_remote(&remote)
}

/// The bytes on disk and on the remote, and what the steps of a plan do to them.
struct Stores {
    local: HashMap<String, Vec<u8>>,
    remote: HashMap<String, Vec<u8>>,
}

impl Stores {
    fn new() -> Stores {
        Stores { local: HashMap::new(), remote: HashMap::new() }
    }

    fn carry_out(&mut self, plan: &[Step]) -> Result<(), Error> {
        for step in plan {
            match step {
                Step::Duplicate { from, to } => match self.local.get(from).cloned() {
                    Some(bytes) => {
                        self.local.insert(to.clone(), bytes);
                    }
                    None => return Err(step.failure()),
                },
                Step::Upload { key, from } => match self.local.get(from).cloned() {
                    Some(bytes) => {
                        self.remote.insert(key.clone(), bytes);
                    }
                    None => return Err(step.failure()),
                },
                Step::Download { key, to } => match self.remote.get(key).cloned() {
                    Some(bytes) => {
                        self.local.insert(to.clone(), bytes);
                    }
                    None => return Err(step.failure()),
                },
                Step::Delete { key } => {
                    self.remote.remove(key);
                }
                _ => {}
            }
        }
        Ok(())
    }
}

#[test]
fn previous_snapshot_is_the_latest_earlier_one() {
    let kept = names(&["10", "20", "30"]);
    let previous = facade("notes.md", 30).previous_version(&kept).unwrap();
    assert_eq!(previous.file.timestamp, 20);
    assert_eq!(previous.file.path, "notes.md");
    assert_eq!(previous.file.branch, "main");
    assert_eq!(previous.file.history, ".yap/history");
    assert_eq!(previous.file.author, author());
    assert_eq!(previous.file.history_path(), ".yap/history/notes.md/main/20");
    assert_eq!(
        facade("notes.md", 10).previous_version(&kept),
        Err(Error::NoBaselineSnapshot)
    );
}

#[test]
fn previous_snapshot_whatever_the_order_of_the_names() {
    let kept = names(&["30", "10", "20"]);
    assert_eq!(facade("a", 25).previous_version(&kept).unwrap().file.timestamp, 20);
    assert_eq!(facade("a", 31).previous_version(&kept).unwrap().file.timestamp, 30);
    assert_eq!(facade("a", 11).previous_version(&kept).unwrap().file.timestamp, 10);
    assert_eq!(facade("a", 5).previous_version(&kept), Err(Error::NoBaselineSnapshot));
    assert_eq!(
        facade("a", 5).previous_version(&Vec::new()),
        Err(Error::NoBaselineSnapshot)
    );
    assert_eq!(previous_epoch(&vec![3, -7, 5, 5], 5), Some(3));
    assert_eq!(previous_epoch(&vec![3, -7, 5, 5], 6), Some(5));
    assert_eq!(previous_epoch(&vec![3, -7], -7), None);
    assert_eq!(previous_epoch(&vec![i64::MIN], i64::MIN), None);
    assert_eq!(previous_epoch(&vec![i64::MIN], i64::MAX), Some(i64::MIN));
}

#[test]
fn a_name_that_is_no_epoch_is_an_error() {
    let kept = names(&["10", "notes", "x"]);
    assert_eq!(
        facade("a", 30).previous_version(&kept),
        Err(Error::MalformedSnapshotName { name: text("notes") })
    );
    assert_eq!(
        snapshot_epochs(&kept),
        Err(Error::MalformedSnapshotName { name: text("notes") })
    );
    assert_eq!(snapshot_epochs(&names(&["7", "-3", "+2"])), Ok(vec![7, -3, 2]));
    assert_eq!(snapshot_epochs(&Vec::new()), Ok(Vec::new()));
}

#[test]
fn add_plans_snapshot_record_index_and_event() {
    let master = Logbook::new();
    let f = facade("docs/notes.md", 100);
    let plan = f.add(&master);
    assert_eq!(
        plan,
        vec![
            Step::Duplicate {
                from: text("docs/notes.md"),
                to: text(".yap/history/docs/notes.md/main/100"),
            },
            Step::CreateLogbook,
            Step::Record { statement: statement(&f.file) },
            Step::Track { path: text("docs/notes.md"), branch: text("main") },
            Step::Log {
                event: Event {
                    timestamp: 100,
                    branch: text("main"),
                    path: text("docs/notes.md"),
                    kind: Events::Add,
                },
            },
        ]
    );
}

#[test]
fn adding_twice_tracks_once_and_takes_one_snapshot() {
    let mut master = Logbook::new();
    let mut f = facade("notes.md", 100);
    let mut stores = Stores::new();
    stores.local.insert(text("notes.md"), b"hello".to_vec());

    let first = f.add(&master);
    assert_eq!(first.len(), 5);
    stores.carry_out(&first).unwrap();
    settle(&mut master, &mut f.logbook, &first, &Vec::new(), first.len()).unwrap();

    let second = f.add(&master);
    assert_eq!(second, Vec::new());
    stores.carry_out(&second).unwrap();
    settle(&mut master, &mut f.logbook, &second, &Vec::new(), second.len()).unwrap();

    assert_eq!(master.files_tracked(), vec![text("notes.md")]);
    assert_eq!(master.events_logged(), 1);
    assert_eq!(f.logbook.len(), 1);
    assert_eq!(f.logbook.entry(0), Some(statement(&f.file)));
    assert_eq!(stores.local.len(), 2);
    assert_eq!(
        stores.local.get(".yap/history/notes.md/main/100"),
        Some(&b"hello".to_vec())
    );
    assert!(master.file_is_tracked(&f));

    let later = facade("notes.md", 200);
    assert_eq!(later.add(&master), Vec::new());
    let other_branch = FileFacade::new(File::new("notes.md", "dev", "h", 200, author()));
    assert_eq!(other_branch.add(&master).len(), 5);
}

#[test]
fn adding_a_hundred_files_tracks_a_hundred() {
    let mut master = Logbook::new();
    let mut order: Vec<usize> = (0..100).collect();
    order.reverse();
    order.swap(3, 77);
    for i in order {
        let mut f = facade(&format!("data/file{}.txt", i), 500);
        let plan = f.add(&master);
        assert_eq!(plan.len(), 5);
        settle(&mut master, &mut f.logbook, &plan, &Vec::new(), plan.len()).unwrap();
        assert_eq!(f.logbook.len(), 1);
    }
    let listed = master.files_tracked();
    assert_eq!(listed.len(), 100);
    assert_eq!(master.events_logged(), 100);
    for i in 0..100 {
        let path = format!("data/file{}.txt", i);
        assert_eq!(listed.iter().filter(|p| **p == path).count(), 1);
        assert!(master.is_tracked(&path, "main"));
    }
    for i in 0..100 {
        let e = master.event(i).unwrap();
        assert_eq!(e.kind, Events::Add);
        assert_eq!(e.timestamp, 500);
        assert_eq!(e.path, listed[i]);
    }
    assert_eq!(master.event(100), None);
}

#[test]
fn the_master_logbook_refuses_a_file_twice() {
    let mut master = Logbook::new();
    let f = facade("a", 1);
    assert!(!master.file_is_tracked(&f));
    assert_eq!(master.track_file(&f), Ok(()));
    assert!(master.file_is_tracked(&f));
    assert_eq!(master.track_file(&f), Err(Error::MasterLogbookRejected));
    assert_eq!(master.track("a", "main"), Err(Error::MasterLogbookRejected));
    assert_eq!(master.track("a", "dev"), Ok(()));
    assert_eq!(master.files_tracked(), vec![text("a"), text("a")]);
    master.save_event(&f, &Events::Remove);
    assert_eq!(
        master.event(0),
        Some(Event { timestamp: 1, branch: text("main"), path: text("a"), kind: Events::Remove })
    );
    let step = Step::Track { path: text("a"), branch: text("main") };
    assert_eq!(master.apply(&step), Err(Error::MasterLogbookRejected));
    assert_eq!(master.apply(&Step::CreateLogbook), Ok(()));
    assert_eq!(master.events_logged(), 1);
}

#[test]
fn commit_plans_snapshot_diff_commit_and_event() {
    let technique = Comparaison::new(&ComparaisonTechnique::Hash, &None);
    let f = facade("notes.md", 30).set_comparaison(&technique);
    let kept = names(&["10", "20"]);
    assert_eq!(
        f.baseline(&kept),
        Ok(File::new("notes.md", "main", ".yap/history", 20, author()))
    );
    let evidence = Evidence {
        current: Some(b"new".to_vec()),
        previous: Some(b"old".to_vec()),
        script: None,
    };
    let plan = f.compare("second draft", &kept, &evidence, text("abc\n")).unwrap();
    let diff = Diff::new(
        None,
        text(".yap/history/notes.md/main/20"),
        text(".yap/history/notes.md/main/30"),
    )
    .set_result(Value::Object(vec![(text("equal"), Value::Bool(false))]))
    .set_origin(&f.file, ComparaisonTechnique::Hash);
    let commit = Commit {
        pk: None,
        author: author(),
        branch: text("main"),
        diff: Some(diff.clone()),
        file_from_path: text(".yap/history/notes.md/main/20"),
        file_to_path: text(".yap/history/notes.md/main/30"),
        git_commit: text("abc\n"),
        message: text("second draft"),
    };
    assert_eq!(
        f.commit_record("second draft", &kept, &evidence, text("abc\n")),
        Ok(commit.clone())
    );
    assert_eq!(
        plan,
        vec![
            Step::Duplicate {
                from: text("notes.md"),
                to: text(".yap/history/notes.md/main/30"),
            },
            Step::CreateLogbook,
            Step::Record { statement: statement(&diff) },
            Step::RecordCommit { commit },
            Step::Log {
                event: Event {
                    timestamp: 30,
                    branch: text("main"),
                    path: text("notes.md"),
                    kind: Events::Commit,
                },
            },
        ]
    );
    assert!(f.has_changed());
}

#[test]
fn a_commit_is_recorded_with_the_key_of_its_comparison() {
    let technique = Comparaison::new(&ComparaisonTechnique::Hash, &None);
    let mut f = facade("notes.md", 30).set_comparaison(&technique);
    let mut master = Logbook::new();
    let evidence = Evidence {
        current: Some(b"new".to_vec()),
        previous: Some(b"old".to_vec()),
        script: None,
    };
    let plan = f.compare("why", &names(&["10", "20"]), &evidence, text("")).unwrap();
    let keys = vec![None, None, Some(77), Some(5), None];
    settle(&mut master, &mut f.logbook, &plan, &keys, plan.len()).unwrap();
    assert_eq!(f.logbook.len(), 2);
    let diff_row = f.logbook.entry(0).unwrap();
    let commit_row = f.logbook.entry(1).unwrap();
    assert!(diff_row.query.starts_with("INSERT INTO diffs"));
    assert!(commit_row.query.starts_with("INSERT INTO commits"));
    assert_eq!(commit_row.params[4], "77");
    assert_eq!(commit_row.params[1], "why");
    assert_eq!(commit_row.params[2], ".yap/history/notes.md/main/20");
    assert_eq!(commit_row.params[3], ".yap/history/notes.md/main/30");
    assert_eq!(f.logbook.last_key(), Some(5));
    assert_eq!(master.events_logged(), 1);
    assert_eq!(master.event(0).unwrap().kind, Events::Commit);
}

#[test]
fn a_commit_never_writes_over_or_behind_a_recorded_snapshot() {
    let technique = Comparaison::new(&ComparaisonTechnique::Hash, &None);
    let evidence = Evidence {
        current: Some(b"new".to_vec()),
        previous: Some(b"old".to_vec()),
        script: None,
    };
    let kept = names(&["10", "20", "30"]);
    let at = |epoch: i64| facade("notes.md", epoch).set_comparaison(&technique);
    assert_eq!(at(30).compare("m", &kept, &evidence, text("")), Err(Error::EpochNotLater));
    assert_eq!(at(25).compare("m", &kept, &evidence, text("")), Err(Error::EpochNotLater));
    assert_eq!(at(30).baseline(&kept), Err(Error::EpochNotLater));
    assert_eq!(at(10).compare("m", &kept, &evidence, text("")), Err(Error::NoBaselineSnapshot));
    assert_eq!(at(5).baseline(&kept), Err(Error::NoBaselineSnapshot));
    assert_eq!(
        at(31).compare("m", &Vec::new(), &evidence, text("")),
        Err(Error::NoBaselineSnapshot)
    );
    assert_eq!(
        at(31).compare("m", &names(&["10", "x"]), &evidence, text("")),
        Err(Error::MalformedSnapshotName { name: text("x") })
    );
    let plan = at(31).compare("m", &kept, &evidence, text("")).unwrap();
    assert_eq!(
        plan[0],
        Step::Duplicate { from: text("notes.md"), to: text(".yap/history/notes.md/main/31") }
    );
    assert_eq!(at(31).baseline(&names(&["30", "10", "20"])).unwrap().timestamp, 30);
}

#[test]
fn commit_needs_a_comparison_and_readable_snapshots() {
    let f = facade("notes.md", 30);
    let kept = names(&["20"]);
    let evidence = Evidence { current: Some(vec![]), previous: Some(vec![]), script: None };
    assert_eq!(
        f.compare("m", &kept, &evidence, text("")),
        Err(Error::UnsupportedContextCombination)
    );
    let f = f.set_comparaison(&Comparaison::new(&ComparaisonTechnique::Smart, &None));
    let evidence = Evidence { current: None, previous: Some(vec![]), script: None };
    assert_eq!(
        f.compare("m", &kept, &evidence, text("")),
        Err(Error::SnapshotUnreadable { path: text("notes.md") })
    );
}

fn recorded(epochs: &[i64]) -> Vec<Snapshot> {
    epochs.iter().map(|e| Snapshot { epoch: *e, changed: true }).collect()
}

#[test]
fn push_plans_upload_pointer_and_event() {
    let f = remote_facade("docs/notes.md", 7);
    let pointer = Remote::new(text("docs/notes.md"), PushStrategy::Last, Storage::Pcloud);
    let upload = |epoch: i64| Step::Upload {
        key: text("docs/notes.md"),
        from: format!(".yap/history/docs/notes.md/main/{}", epoch),
    };
    assert_eq!(
        push_file(&f, &recorded(&[3, 5]), None),
        Ok((vec![upload(5)], pointer.clone()))
    );
    assert_eq!(
        f.push(&recorded(&[3, 5]), None),
        Ok(vec![
            upload(5),
            Step::CreateLogbook,
            Step::Record { statement: statement(&pointer) },
            Step::Log {
                event: Event {
                    timestamp: 7,
                    branch: text("main"),
                    path: text("docs/notes.md"),
                    kind: Events::Push,
                },
            },
        ])
    );
    assert_eq!(f.remote(), Ok(RemoteConfig::default().set_strategy(&PushStrategy::Last)));
}

#[test]
fn push_uploads_what_the_strategy_selects() {
    let upload = |epoch: i64| Step::Upload {
        key: text("a"),
        from: format!(".yap/history/a/main/{}", epoch),
    };
    let with = |strategy: PushStrategy| {
        facade("a", 50).set_remote(&RemoteConfig::default().set_strategy(&strategy))
    };
    let snapshots = vec![
        Snapshot { epoch: 10, changed: true },
        Snapshot { epoch: 20, changed: false },
        Snapshot { epoch: 30, changed: true },
        Snapshot { epoch: 40, changed: false },
    ];
    let all = with(PushStrategy::All).push(&snapshots, Some(30)).unwrap();
    assert_eq!(all.len(), 7);
    assert_eq!(all[..4], [upload(10), upload(20), upload(30), upload(40)]);
    let last = with(PushStrategy::Last).push(&snapshots, Some(30)).unwrap();
    assert_eq!(last.len(), 4);
    assert_eq!(last[0], upload(40));
    let smart = with(PushStrategy::Smart).push(&snapshots, Some(10)).unwrap();
    assert_eq!(smart.len(), 4);
    assert_eq!(smart[0], upload(30));
    assert_eq!(with(PushStrategy::Smart).push(&snapshots, Some(30)), Ok(Vec::new()));
    assert_eq!(with(PushStrategy::All).push(&Vec::new(), None), Ok(Vec::new()));
    assert_eq!(with(PushStrategy::Last).push(&Vec::new(), None), Ok(Vec::new()));
}

#[test]
fn a_snapshot_counts_as_changed_unless_its_hashes_were_equal() {
    assert_eq!(Snapshot::recorded(5, &None), Snapshot { epoch: 5, changed: true });
    assert_eq!(
        Snapshot::recorded(5, &Some(text("{\"equal\":true}"))),
        Snapshot { epoch: 5, changed: false }
    );
    assert_eq!(
        Snapshot::recorded(5, &Some(text("{\"equal\":false}"))),
        Snapshot { epoch: 5, changed: true }
    );
    assert_eq!(
        Snapshot::recorded(5, &Some(text("\"script output\""))),
        Snapshot { epoch: 5, changed: true }
    );
}

#[test]
fn pull_plans_download_pointer_and_event() {
    let f = remote_facade("docs/notes.md", 7);
    let pointer = Remote::get(text("docs/notes.md"), Storage::Pcloud);
    assert_eq!(
        pull_file(&f),
        Ok((
            Step::Download { key: text("docs/notes.md"), to: text("docs/notes.md") },
            pointer.clone()
        ))
    );
    assert_eq!(
        f.pull(),
        Ok(vec![
            Step::Download { key: text("docs/notes.md"), to: text("docs/notes.md") },
            Step::CreateLogbook,
            Step::Record { statement: statement(&pointer) },
            Step::Log {
                event: Event {
                    timestamp: 7,
                    branch: text("main"),
                    path: text("docs/notes.md"),
                    kind: Events::Pull,
                },
            },
        ])
    );
}

#[test]
fn remote_operations_need_remote_settings() {
    let f = facade("a", 1);
    assert_eq!(f.push(&recorded(&[1]), None), Err(Error::UnsupportedContextCombination));
    assert_eq!(f.pull(), Err(Error::UnsupportedContextCombination));
    assert_eq!(f.remove(), Err(Error::UnsupportedContextCombination));
    assert_eq!(
        push_file(&f, &recorded(&[1]), None),
        Err(Error::UnsupportedContextCombination)
    );
    assert_eq!(pull_file(&f), Err(Error::UnsupportedContextCombination));
    assert_eq!(f.remote(), Err(Error::UnsupportedContextCombination));
}

#[test]
fn push_then_pull_brings_the_bytes_back() {
    let f = remote_facade("docs/notes.md", 7);
    let bytes = vec![0u8, 255, 10, 13, 0, 7];
    let mut stores = Stores::new();
    stores.local.insert(text(".yap/history/docs/notes.md/main/3"), b"older".to_vec());
    stores.local.insert(text(".yap/history/docs/notes.md/main/5"), bytes.clone());
    stores.carry_out(&f.push(&recorded(&[3, 5]), None).unwrap()).unwrap();

    let mut elsewhere = Stores::new();
    elsewhere.remote = stores.remote.clone();
    elsewhere.carry_out(&f.pull().unwrap()).unwrap();
    assert_eq!(elsewhere.local.len(), 1);
    assert_eq!(elsewhere.local.get("docs/notes.md"), Some(&bytes));

    let every = facade("docs/notes.md", 7)
        .set_remote(&RemoteConfig::default().set_strategy(&PushStrategy::All));
    let mut again = Stores::new();
    again.local = stores.local.clone();
    again.carry_out(&every.push(&recorded(&[3, 5]), None).unwrap()).unwrap();
    assert_eq!(again.remote.get("docs/notes.md"), Some(&bytes));
}

#[test]
fn a_push_fails_without_the_snapshot_it_selects() {
    let f = remote_facade("a", 7);
    let mut stores = Stores::new();
    assert_eq!(
        stores.carry_out(&f.push(&recorded(&[3]), None).unwrap()),
        Err(Error::RemoteTransferFailed { operation: RemoteOperation::Write, key: text("a") })
    );
}

#[test]
fn pull_writes_over_a_working_copy_and_fails_without_the_key() {
    let f = remote_facade("a", 7);
    let mut stores = Stores::new();
    stores.local.insert(text("a"), b"stale".to_vec());
    assert_eq!(
        stores.carry_out(&f.pull().unwrap()),
        Err(Error::RemoteTransferFailed { operation: RemoteOperation::Read, key: text("a") })
    );
    stores.remote.insert(text("a"), b"fresh".to_vec());
    stores.carry_out(&f.pull().unwrap()).unwrap();
    assert_eq!(stores.local.get("a"), Some(&b"fresh".to_vec()));
}

#[test]
fn remove_touches_only_the_remote() {
    let mut master = Logbook::new();
    let mut f = remote_facade("notes.md", 100);
    let mut stores = Stores::new();
    stores.local.insert(text("notes.md"), b"hello".to_vec());
    let add = f.add(&master);
    stores.carry_out(&add).unwrap();
    settle(&mut master, &mut f.logbook, &add, &Vec::new(), add.len()).unwrap();
    let push = f.push(&recorded(&[100]), None).unwrap();
    stores.carry_out(&push).unwrap();
    settle(&mut master, &mut f.logbook, &push, &Vec::new(), push.len()).unwrap();
    assert!(stores.remote.contains_key("notes.md"));
    let local_before = stores.local.clone();
    let logbook_before = f.logbook.clone();

    let remove = f.remove().unwrap();
    assert_eq!(
        remove,
        vec![
            Step::Delete { key: text("notes.md") },
            Step::Log {
                event: Event {
                    timestamp: 100,
                    branch: text("main"),
                    path: text("notes.md"),
                    kind: Events::Remove,
                },
            },
        ]
    );
    stores.carry_out(&remove).unwrap();
    settle(&mut master, &mut f.logbook, &remove, &Vec::new(), remove.len()).unwrap();

    assert!(!stores.remote.contains_key("notes.md"));
    assert_eq!(stores.local, local_before);
    assert_eq!(
        stores.local.get(".yap/history/notes.md/main/100"),
        Some(&b"hello".to_vec())
    );
    assert_eq!(f.logbook, logbook_before);
    assert_eq!(master.files_tracked(), vec![text("notes.md")]);
    assert_eq!(master.events_logged(), 3);
    assert_eq!(master.event(2).unwrap().kind, Events::Remove);
}

#[test]
fn epochs_of_successive_commits_increase() {
    let mut kept: Vec<i64> = Vec::new();
    for epoch in [10i64, 20, 30, 45] {
        if let Some(last) = kept.last() {
            assert_eq!(previous_epoch(&kept, epoch), Some(*last));
        } else {
            assert_eq!(previous_epoch(&kept, epoch), None);
        }
        kept.push(epoch);
        assert!(kept.windows(2).all(|w| w[0] < w[1]));
    }
}

#[test]
fn settle_stops_at_a_refusal() {
    let mut master = Logbook::new();
    let mut closed = FileLogbook::new("a", "l");
    let f = FileFacade::new(File::new("a", "main", "h", 1, author()));
    let plan = f.add(&master);
    assert_eq!(settle(&mut master, &mut closed, &plan, &Vec::new(), 1), Ok(()));
    assert_eq!(
        settle(&mut master, &mut closed, &plan, &Vec::new(), plan.len()),
        Err(Error::FileLogbookRejected)
    );
    assert_eq!(master.files_tracked(), Vec::<String>::new());
    assert_eq!(closed.len(), 0);
    assert_eq!(settle(&mut master, &mut closed, &plan, &Vec::new(), 0), Ok(()));
}

#[test]
fn push_strategies_select_snapshots() {
    let snapshots = vec![
        Snapshot { epoch: 10, changed: true },
        Snapshot { epoch: 20, changed: false },
        Snapshot { epoch: 30, changed: true },
        Snapshot { epoch: 40, changed: false },
    ];
    assert_eq!(select(PushStrategy::All, &snapshots, None), vec![10, 20, 30, 40]);
    assert_eq!(select(PushStrategy::All, &snapshots, Some(30)), vec![10, 20, 30, 40]);
    assert_eq!(select(PushStrategy::Last, &snapshots, None), vec![40]);
    assert_eq!(select(PushStrategy::Smart, &snapshots, None), vec![10, 30]);
    assert_eq!(select(PushStrategy::Smart, &snapshots, Some(10)), vec![30]);
    assert_eq!(select(PushStrategy::Smart, &snapshots, Some(30)), Vec::<i64>::new());
    assert_eq!(select(PushStrategy::Last, &Vec::new(), None), Vec::<i64>::new());
    assert_eq!(select(PushStrategy::All, &Vec::new(), None), Vec::<i64>::new());
}

#[test]
fn a_new_context_has_nothing_attached() {
    let f = FileFacade::new(File::new("a", "main", "h", 1, author()));
    assert!(f.has_changed());
    assert_eq!(f.remote, None);
    assert_eq!(f.comparaison, None);
    assert_eq!(f.logbook, FileLogbook::default());
    assert_eq!(f.branch(), "main");
    assert_eq!(f.path(), "a");
    assert_eq!(f.original_path(), "a");
    assert_eq!(f.file(), File::new("a", "main", "h", 1, author()));
    assert_eq!(
        f.event(Events::Pull),
        Event { timestamp: 1, branch: text("main"), path: text("a"), kind: Events::Pull }
    );
}

#[test]
fn adds_carried_out_in_any_order_track_every_file_once() {
    let mut master = Logbook::new();
    let files: Vec<FileFacade> = (0..100).map(|i| facade(&format!("f{}", i), 9)).collect();
    let plans: Vec<Vec<Step>> = files.iter().map(|f| f.add(&master)).collect();
    for position in 0..5 {
        let order: Vec<usize> = if position % 2 == 0 {
            (0..100).collect()
        } else {
            (0..100).rev().collect()
        };
        for i in order {
            assert_eq!(master.apply(&plans[i][position]), Ok(()));
        }
    }
    let listed = master.files_tracked();
    assert_eq!(listed.len(), 100);
    assert_eq!(master.events_logged(), 100);
    for i in 0..100 {
        let path = format!("f{}", i);
        assert_eq!(listed.iter().filter(|p| **p == path).count(), 1);
        let events = (0..100)
            .filter(|k| master.event(*k).unwrap() == files[i].event(Events::Add))
            .count();
        assert_eq!(events, 1);
    }
}

#[test]
fn snapshots_have_their_places() {
    let f = File::new("a/b.md", "main", ".yap/history", 9, author());
    assert_eq!(f.snapshot_path(12), ".yap/history/a/b.md/main/12");
    assert_eq!(f.snapshot_path(9), f.history_path());
    assert_eq!(f.snapshot_path(-1), ".yap/history/a/b.md/main/-1");
}

#[test]
fn an_epoch_is_taken_when_a_recorded_one_is_not_earlier() {
    assert!(!taken(&Vec::new(), 5));
    assert!(!taken(&vec![1, 4], 5));
    assert!(taken(&vec![1, 5], 5));
    assert!(taken(&vec![9, 1], 5));
    assert!(taken(&vec![i64::MAX], i64::MAX));
    assert!(!taken(&vec![i64::MIN], i64::MAX));
}
