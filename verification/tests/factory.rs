use std::collections::VecDeque;

use yap::config::{Author, Config, PushStrategy, RemoteConfig, Storage};
use yap::error::Error;
use yap::vcs::cli::{branch_or, get_git_branch, Add, Commit, Pull, Push, Remove, Show};
use yap::vcs::comparaison::{Comparaison, ComparaisonTechnique};
use yap::vcs::facade::FileFacade;
use yap::vcs::factory::{Entry, FileFacadeFactory, Walked};
use yap::vcs::file::File;
use yap::vcs::logbook::{FileLogbook, Logbook};
use yap::vcs::remote::Snapshot;

fn text(s: &str) -> String {
    s.to_string()
}

fn names(list: &[&str]) -> Vec<String> {
    list.iter().map(|s| s.to_string()).collect()
}

fn queue(list: &[&str]) -> VecDeque<String> {
    list.iter().map(|s| s.to_string()).collect()
}

fn config() -> Config {
    Config::new(
        text("logbook.db"),
        text("logbooks"),
        text("history"),
        None,
        RemoteConfig::default(),
        Author::new("Ann", "ann@example.org"),
    )
}

fn context(path: &str, epoch: i64) -> FileFacade {
    FileFacade::new(File::new(
        path,
        "main",
        ".yap/history",
        epoch,
        Author::new("Ann", "ann@example.org"),
    ))
    .set_logbook(FileLogbook::new(path, ".yap/logbooks"))
}

#[test]
fn a_factory_starts_with_the_settings_of_the_project() {
    let f = FileFacadeFactory::new(names(&["a", "b"]), "main", &config(), 42);
    assert_eq!(f.branch, "main");
    assert_eq!(f.history_dir, ".yap/history");
    assert_eq!(f.logbooks_dir, ".yap/logbooks");
    assert_eq!(f.timestamp, 42);
    assert_eq!(f.author, Author::new("Ann", "ann@example.org"));
    assert_eq!(f.remote, None);
    assert_eq!(f.comparaison, None);
    assert_eq!(f.message, None);
    assert_eq!(f.stack, queue(&["a", "b"]));
    assert_eq!(f.front(), Some(text("a")));
}

#[test]
fn the_contexts_of_a_batch_share_one_epoch() {
    let mut f = FileFacadeFactory::new(names(&["a", "b"]), "main", &config(), 1700000000);
    let first = f.next(&Entry::RegularFile).unwrap();
    let second = f.next(&Entry::RegularFile).unwrap();
    match (first, second) {
        (Walked::Context(a), Walked::Context(b)) => {
            assert_eq!(a.file.timestamp, 1700000000);
            assert_eq!(b.file.timestamp, 1700000000);
        }
        other => panic!("unexpected {:?}", other),
    }
}

#[test]
fn a_custom_comparison_without_a_script_makes_no_context() {
    let f = FileFacadeFactory::new(names(&["a"]), "main", &config(), 1)
        .set_comparaison(&ComparaisonTechnique::Custom, &None);
    assert_eq!(f.to_facade("a"), Err(Error::MissingComparisonScript));
    let mut f = f;
    assert_eq!(f.next(&Entry::RegularFile), Err(Error::MissingComparisonScript));
    let scripted = FileFacadeFactory::new(names(&["a"]), "main", &config(), 1)
        .set_comparaison(&ComparaisonTechnique::Custom, &Some(text("cmp.sh")));
    assert!(scripted.to_facade("a").is_ok());
    let hashed = FileFacadeFactory::new(names(&["a"]), "main", &config(), 1)
        .set_comparaison(&ComparaisonTechnique::Hash, &None);
    assert!(hashed.to_facade("a").is_ok());
}

#[test]
fn the_walk_expands_directories_level_by_level() {
    let mut f = FileFacadeFactory::new(names(&["docs", "a.txt"]), "main", &config(), 42);
    let step = f.next(&Entry::Directory { children: names(&["x.md", "sub"]) });
    assert_eq!(step, Ok(Walked::Expanded));
    assert_eq!(f.stack, queue(&["a.txt", "docs/x.md", "docs/sub"]));

    assert_eq!(f.next(&Entry::RegularFile), Ok(Walked::Context(context("a.txt", 42))));
    assert_eq!(f.stack, queue(&["docs/x.md", "docs/sub"]));

    assert_eq!(f.next(&Entry::RegularFile), Ok(Walked::Context(context("docs/x.md", 42))));
    assert_eq!(f.next(&Entry::Directory { children: Vec::new() }), Ok(Walked::Expanded));
    assert_eq!(f.stack, queue(&[]));
    assert_eq!(f.front(), None);
    assert_eq!(f.next(&Entry::RegularFile), Ok(Walked::Finished));
    assert_eq!(f.next(&Entry::Unreadable), Ok(Walked::Finished));
}

#[test]
fn the_walk_drops_what_is_no_file_and_fails_on_unreadable_directories() {
    let mut f = FileFacadeFactory::new(names(&["socket", "locked", "a"]), "main", &config(), 1);
    assert_eq!(f.next(&Entry::Other), Ok(Walked::Skipped));
    assert_eq!(
        f.next(&Entry::Unreadable),
        Err(Error::DirectoryUnreadable { path: text("locked") })
    );
    assert_eq!(f.stack, queue(&["a"]));
}

#[test]
fn a_context_carries_the_comparison_or_the_remote() {
    let f = FileFacadeFactory::new(names(&[]), "main", &config(), 1);
    assert_eq!(f.to_facade("a"), Ok(context("a", 1)));

    let committing = FileFacadeFactory::new(names(&[]), "main", &config(), 1)
        .set_message("why")
        .set_comparaison(&ComparaisonTechnique::Custom, &Some(text("cmp.sh")));
    assert_eq!(committing.message, Some(text("why")));
    let technique = Comparaison::new(&ComparaisonTechnique::Custom, &Some(text("cmp.sh")));
    assert_eq!(
        committing.to_facade("a"),
        Ok(context("a", 1).set_comparaison(&technique))
    );

    let pushing = FileFacadeFactory::new(names(&[]), "main", &config(), 1).set_remote(
        &config(),
        &Some(Storage::Gcs),
        &None,
    );
    let remote = RemoteConfig::default().set_storage(&Storage::Gcs);
    assert_eq!(pushing.to_facade("a"), Ok(context("a", 1).set_remote(&remote)));

    let both = pushing.set_comparaison(&ComparaisonTechnique::Hash, &None);
    assert_eq!(both.to_facade("a"), Err(Error::UnsupportedContextCombination));
    let mut both = both;
    both.stack = queue(&["a"]);
    assert_eq!(
        both.next(&Entry::RegularFile),
        Err(Error::UnsupportedContextCombination)
    );
}

#[test]
fn remote_settings_take_what_is_asked_for() {
    let f = FileFacadeFactory::new(names(&[]), "main", &config(), 1);
    let f = f.set_remote(&config(), &None, &Some(PushStrategy::All));
    assert_eq!(f.remote, Some(RemoteConfig::default().set_strategy(&PushStrategy::All)));
    let f = f.set_remote(&config(), &None, &None);
    assert_eq!(f.remote, Some(RemoteConfig::default()));
}

#[test]
fn commands_make_their_factories() {
    let add = Add { paths: names(&["a"]), branch: None };
    assert_eq!(
        add.get_files_factory(&config(), "trunk", 9),
        FileFacadeFactory::new(names(&["a"]), "trunk", &config(), 9)
    );
    let add = Add { paths: names(&["a"]), branch: Some(text("dev")) };
    assert_eq!(
        add.get_files_factory(&config(), "trunk", 9),
        FileFacadeFactory::new(names(&["a"]), "dev", &config(), 9)
    );
    let commit = Commit {
        paths: names(&["a"]),
        branch: None,
        message: text("why"),
        comparaison: ComparaisonTechnique::Hash,
        script: None,
    };
    assert_eq!(
        commit.get_files_factory(&config(), "trunk", 9),
        FileFacadeFactory::new(names(&["a"]), "trunk", &config(), 9)
            .set_message("why")
            .set_comparaison(&ComparaisonTechnique::Hash, &None)
    );
    let push = Push {
        paths: names(&["a"]),
        branch: None,
        remote: Some(Storage::Koofr),
        strategy: Some(PushStrategy::All),
        compress: true,
    };
    assert_eq!(
        push.get_files_factory(&config(), "trunk", 9),
        FileFacadeFactory::new(names(&["a"]), "trunk", &config(), 9).set_remote(
            &config(),
            &Some(Storage::Koofr),
            &Some(PushStrategy::All)
        )
    );
    let remove = Remove {
        paths: names(&["a"]),
        branch: None,
        commit: None,
        remote: None,
        which: false,
    };
    assert_eq!(
        remove.get_files_factory(&config(), "trunk", 9),
        FileFacadeFactory::new(names(&["a"]), "trunk", &config(), 9)
            .set_remote(&config(), &None, &None)
    );
    let pull = Pull { paths: names(&["a"]), branch: None, remote: Some(Storage::Gcs) };
    assert_eq!(
        pull.get_files_factory(&config(), "trunk", 9),
        FileFacadeFactory::new(names(&["a"]), "trunk", &config(), 9).set_remote(
            &config(),
            &Some(Storage::Gcs),
            &None
        )
    );
}

#[test]
fn commands_plan_what_the_contexts_plan() {
    let master = Logbook::new();
    let plain = context("a", 1);
    let add = Add { paths: names(&["a"]), branch: None };
    assert_eq!(add.handle_file_facade(&plain, &master), plain.add(&master));
    let remote = context("a", 1).set_remote(&RemoteConfig::default());
    let push = Push {
        paths: names(&["a"]),
        branch: None,
        remote: None,
        strategy: None,
        compress: true,
    };
    let snapshots = vec![Snapshot { epoch: 1, changed: true }];
    assert_eq!(
        push.handle_file_facade(&remote, &snapshots, None),
        remote.push(&snapshots, None)
    );
    assert_eq!(
        push.handle_file_facade(&plain, &snapshots, None),
        Err(Error::UnsupportedContextCombination)
    );
    let pull = Pull { paths: names(&["a"]), branch: None, remote: None };
    assert_eq!(pull.handle_file_facade(&remote), remote.pull());
    let remove = Remove {
        paths: names(&["a"]),
        branch: None,
        commit: None,
        remote: None,
        which: false,
    };
    assert_eq!(remove.handle_file_facade(&remote), remote.remove());
}

#[test]
fn show_lists_the_tracked_paths_one_to_a_line() {
    let show = Show { paths: Vec::new(), branch: None, commit: None };
    let mut master = Logbook::new();
    assert_eq!(show.run(&master), "");
    master.track("b.txt", "main").unwrap();
    assert_eq!(show.run(&master), "b.txt");
    master.track("a.txt", "main").unwrap();
    master.track("b.txt", "dev").unwrap();
    assert_eq!(show.run(&master), "b.txt\na.txt\nb.txt");
}

#[test]
fn the_branch_is_the_one_asked_for_or_the_current_one() {
    assert_eq!(branch_or(&Some(text("dev")), "trunk"), "dev");
    assert_eq!(branch_or(&None, "trunk"), "trunk");
    assert_eq!(get_git_branch(&None), "master");
    assert_eq!(get_git_branch(&Some(text("  feature/x\n"))), "feature/x");
    assert_eq!(get_git_branch(&Some(text("\n"))), "");
}
