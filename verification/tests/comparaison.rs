use yap::config::Author;
use yap::error::Error;
use yap::value::{merged, Value};
use yap::vcs::comparaison::{
    content_hash, hash_verdict, Comparaison, ComparaisonTechnique, ContentType, Diff, Evidence,
    ScriptRun,
};
use yap::vcs::file::{File, LogbookProvider};

fn text(s: &str) -> String {
    s.to_string()
}

fn report(equal: bool) -> Value {
    Value::Object(vec![(text("equal"), Value::Bool(equal))])
}

fn file(path: &str, epoch: i64) -> File {
    File::new(path, "main", ".yap/history", epoch, Author::new("Ann", "ann@example.org"))
}

fn contents(current: &[u8], previous: &[u8]) -> Evidence {
    Evidence {
        current: Some(current.to_vec()),
        previous: Some(previous.to_vec()),
        script: None,
    }
}

#[test]
fn technique_names_and_default() {
    assert_eq!(ComparaisonTechnique::Hash.name(), "Hash");
    assert_eq!(ComparaisonTechnique::Custom.name(), "Custom");
    assert_eq!(ComparaisonTechnique::Similarity.name(), "Similarity");
    assert_eq!(ComparaisonTechnique::Smart.name(), "Smart");
    assert_eq!(ComparaisonTechnique::default(), ComparaisonTechnique::Smart);
}

#[test]
fn content_type_goes_by_the_extension() {
    assert_eq!(ContentType::of("notes.md"), ContentType::Markdown);
    assert_eq!(ContentType::of("data/table.parquet"), ContentType::Columnar);
    assert_eq!(ContentType::of("notes.txt"), ContentType::Other);
    assert_eq!(ContentType::of("notes.MD"), ContentType::Other);
    assert_eq!(ContentType::of("md"), ContentType::Other);
    assert_eq!(ContentType::of("dir.md/notes"), ContentType::Other);
    assert!(ContentType::Markdown.is_specialised());
    assert!(ContentType::Columnar.is_specialised());
    assert!(!ContentType::Other.is_specialised());
}

#[test]
fn content_hash_is_the_meow_hash() {
    let data = b"the quick brown fox";
    let expected = meowhash::MeowHasher::hash(data).into_bytes().to_vec();
    assert_eq!(content_hash(data), expected);
    assert_eq!(content_hash(data).len(), 128);
    assert_ne!(content_hash(data), data.to_vec());
    assert_ne!(content_hash(b""), content_hash(b"a"));
}

#[test]
fn hash_reports_whether_the_hashes_are_equal() {
    let c = Comparaison::new(&ComparaisonTechnique::Hash, &None);
    assert_eq!(c.compare_hash(b"same", b"same"), report(true));
    assert_eq!(c.compare_hash(b"one", b"two"), report(false));
    assert_eq!(c.compare_hash(b"", b""), report(true));
    assert_eq!(hash_verdict(&vec![1, 2], &vec![1, 2]), report(true));
    assert_eq!(hash_verdict(&vec![1, 2], &vec![1, 3]), report(false));
    assert_eq!(hash_verdict(&vec![1, 2], &vec![1]), report(false));
}

#[test]
fn smart_on_markdown_is_hash_merged_with_similarity() {
    let c = Comparaison::new(&ComparaisonTechnique::Smart, &None);
    let (a, b) = (b"# title\n".as_slice(), b"# other\n".as_slice());
    let content = ContentType::of("notes.md");
    let hash = c.compare_hash(a, b);
    let similarity = c.compare_similarity(content, a, b);
    assert_eq!(c.compare_smart(content, a, b), merged(hash, &similarity));
}

#[test]
fn smart_on_plain_text_is_hash_exactly() {
    let c = Comparaison::new(&ComparaisonTechnique::Smart, &None);
    let (a, b) = (b"one".as_slice(), b"two".as_slice());
    let content = ContentType::of("notes.txt");
    assert_eq!(c.compare_smart(content, a, b), c.compare_hash(a, b));
    assert_eq!(c.compare_smart(content, a, a), c.compare_hash(a, a));
}

#[test]
fn similarity_falls_back_on_hash() {
    let c = Comparaison::new(&ComparaisonTechnique::Similarity, &None);
    for content in [ContentType::Markdown, ContentType::Columnar, ContentType::Other] {
        assert_eq!(c.compare_similarity(content, b"a", b"b"), report(false));
        assert_eq!(c.compare_similarity(content, b"a", b"a"), report(true));
    }
}

#[test]
fn custom_takes_the_output_of_the_script() {
    let c = Comparaison::new(&ComparaisonTechnique::Custom, &Some(text("cmp.sh")));
    let run = Some(ScriptRun { status: Some(0), output: text("3 lines differ\n") });
    assert_eq!(c.compare_custom(&run), Ok(Value::String(text("3 lines differ\n"))));
    let run = Some(ScriptRun { status: Some(2), output: text("boom") });
    assert_eq!(
        c.compare_custom(&run),
        Err(Error::ComparisonScriptFailed { status: Some(2) })
    );
    let run = Some(ScriptRun { status: None, output: text("") });
    assert_eq!(
        c.compare_custom(&run),
        Err(Error::ComparisonScriptFailed { status: None })
    );
    assert_eq!(
        c.compare_custom(&None),
        Err(Error::ComparisonScriptFailed { status: None })
    );
}

#[test]
fn compare_records_the_two_snapshots_and_the_origin() {
    let c = Comparaison::new(&ComparaisonTechnique::Hash, &None);
    let current = file("notes.md", 30);
    let previous = file("notes.md", 20);
    let diff = c.compare(&current, &previous, &contents(b"new", b"old")).unwrap();
    assert_eq!(diff.result, report(false));
    assert_eq!(diff.file_from_path, ".yap/history/notes.md/main/20");
    assert_eq!(diff.file_to_path, ".yap/history/notes.md/main/30");
    assert_eq!(diff.branch, "main");
    assert_eq!(diff.author, Author::new("Ann", "ann@example.org"));
    assert_eq!(diff.technique, ComparaisonTechnique::Hash);
    assert_eq!(diff.script, None);
    assert_eq!(diff.pk, None);
    assert_eq!(diff.git_commit, None);
    assert_eq!(diff.result_path, "");
    assert!(!diff.is_trivial());
    let same = c.compare(&current, &previous, &contents(b"old", b"old")).unwrap();
    assert!(same.is_trivial());
}

#[test]
fn compare_by_each_technique() {
    let current = file("notes.md", 30);
    let previous = file("notes.md", 20);
    let evidence = contents(b"new", b"old");
    for technique in [
        ComparaisonTechnique::Hash,
        ComparaisonTechnique::Similarity,
        ComparaisonTechnique::Smart,
    ] {
        let c = Comparaison::new(&technique, &None);
        let diff = c.compare(&current, &previous, &evidence).unwrap();
        assert_eq!(diff.result, report(false));
        assert_eq!(diff.technique, technique);
    }
}

#[test]
fn compare_fails_without_the_bytes_of_a_snapshot() {
    let c = Comparaison::new(&ComparaisonTechnique::Smart, &None);
    let current = file("notes.md", 30);
    let previous = file("notes.md", 20);
    let evidence = Evidence { current: None, previous: Some(vec![1]), script: None };
    assert_eq!(
        c.compare(&current, &previous, &evidence),
        Err(Error::SnapshotUnreadable { path: text("notes.md") })
    );
    let evidence = Evidence { current: Some(vec![1]), previous: None, script: None };
    assert_eq!(
        c.compare(&current, &previous, &evidence),
        Err(Error::SnapshotUnreadable { path: text(".yap/history/notes.md/main/20") })
    );
}

#[test]
fn custom_without_a_script_is_a_configuration_error() {
    let c = Comparaison::new(&ComparaisonTechnique::Custom, &None);
    let current = file("notes.md", 30);
    let previous = file("notes.md", 20);
    let evidence = Evidence {
        current: Some(vec![1]),
        previous: Some(vec![1]),
        script: Some(ScriptRun { status: Some(0), output: text("x") }),
    };
    assert_eq!(
        c.compare(&current, &previous, &evidence),
        Err(Error::MissingComparisonScript)
    );
    assert!(c.needs_script());
    assert!(!Comparaison::new(&ComparaisonTechnique::Hash, &None).needs_script());
}

#[test]
fn custom_with_a_script_records_the_script() {
    let c = Comparaison::new(&ComparaisonTechnique::Custom, &Some(text("cmp.sh")));
    let current = file("notes.md", 30);
    let previous = file("notes.md", 20);
    let evidence = Evidence {
        current: None,
        previous: None,
        script: Some(ScriptRun { status: Some(0), output: text("out") }),
    };
    let diff = c.compare(&current, &previous, &evidence).unwrap();
    assert_eq!(diff.result, Value::String(text("out")));
    assert_eq!(diff.script, Some(text("cmp.sh")));
    assert_eq!(diff.script(), "cmp.sh");
    let failed = Evidence {
        current: None,
        previous: None,
        script: Some(ScriptRun { status: Some(1), output: text("out") }),
    };
    assert_eq!(
        c.compare(&current, &previous, &failed),
        Err(Error::ComparisonScriptFailed { status: Some(1) })
    );
}

#[test]
fn diff_is_recorded_with_its_result_as_json() {
    let c = Comparaison::new(&ComparaisonTechnique::Smart, &None);
    let diff = c
        .compare(&file("a.txt", 5), &file("a.txt", 4), &contents(b"x", b"x"))
        .unwrap();
    assert_eq!(
        diff.query(),
        "INSERT INTO diffs (git_commit, result_path, script, result, technique, file_from, file_to, author, branch) VALUES (?1, ?2, ?3, ?4, ?5, ?6, ?7, ?8, ?9)"
    );
    assert_eq!(
        diff.params(),
        vec![
            text(""),
            text(""),
            text(""),
            text("{\"equal\":true}"),
            text("Smart"),
            text(".yap/history/a.txt/main/4"),
            text(".yap/history/a.txt/main/5"),
            text("Ann <ann@example.org>"),
            text("main"),
        ]
    );
}

#[test]
fn diff_new_starts_empty() {
    let d = Diff::new(Some(text("s.sh")), text("from"), text("to"));
    assert_eq!(d.pk(), "");
    assert_eq!(d.script(), "s.sh");
    assert_eq!(d.result, Value::Null);
    assert_eq!(d.technique, ComparaisonTechnique::Smart);
    assert_eq!(d.author, Author::default());
    let d = d.set_result(Value::Bool(true));
    assert_eq!(d.result, Value::Bool(true));
    assert!(!d.is_trivial());
    let mut keyed = d.clone();
    keyed.pk = Some(17);
    assert_eq!(keyed.pk(), "17");
}
