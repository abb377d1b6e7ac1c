use yap::knowbase::file_handlers::{
    count, count_words, get_word_count, is_stopword, remove_punctuation,
};
use yap::knowbase::markdown_parser::{read_events, NoteEvent};
use yap::knowbase::engine::tf;
use yap::knowbase::models::{
    struct_to_snake_case, table, table_of, File, FileWordRelation, Manager, Word,
};
use yap::knowbase::todo::TaskFactory;
use yap::todo::tasks::{Task, TasksFile};

fn text(s: &str) -> String {
    s.to_string()
}

#[test]
fn test_remove_punctuation() {
    let text = "I'm, gonna be... formated!";
    assert_eq!(remove_punctuation(text), "im gonna be formated");
}

#[test]
fn words_are_counted_in_ascii_and_lower_case() {
    assert_eq!(remove_punctuation("Ñandú"), "nandu");
    assert_eq!(remove_punctuation("ÉCOLE!"), "ecole");
    assert_eq!(remove_punctuation(""), "");
    assert_eq!(remove_punctuation("(a-b)"), "ab");
}

#[test]
fn stop_words_are_known_exactly() {
    for w in ["los", "las", "la", "de", "y", "este", "esta"] {
        assert!(is_stopword(w));
    }
    assert!(!is_stopword("La"));
    assert!(!is_stopword("el"));
    assert!(!is_stopword(""));
    assert!(!is_stopword("estas"));
}

#[test]
fn words_of_a_line_are_counted_without_stop_words() {
    let mut counts: Vec<(String, u8)> = Vec::new();
    count_words(text("  La casa, la CASA y   el perro. "), &mut counts);
    assert_eq!(
        counts,
        vec![(text("la"), 1), (text("casa"), 2), (text("el"), 1), (text("perro"), 1)]
    );
    count_words(text(""), &mut counts);
    assert_eq!(counts.len(), 4);
}

#[test]
fn words_of_a_text_are_counted_across_lines() {
    let lines = vec![text("uno dos"), text("dos, tres!"), text("de los tres")];
    assert_eq!(
        get_word_count(&lines),
        vec![(text("uno"), 1), (text("dos"), 2), (text("tres"), 2)]
    );
    assert_eq!(get_word_count(&Vec::new()), Vec::new());
}

#[test]
fn a_count_stays_at_its_ceiling() {
    let mut counts = vec![(text("a"), 254u8)];
    count(&mut counts, text("a"));
    assert_eq!(counts, vec![(text("a"), 255)]);
    count(&mut counts, text("a"));
    assert_eq!(counts, vec![(text("a"), 255)]);
    count(&mut counts, text("b"));
    assert_eq!(counts, vec![(text("a"), 255), (text("b"), 1)]);
}

#[test]
fn rows_start_without_a_number() {
    assert_eq!(File::new(text("a.md")), File { id: 0, file: text("a.md") });
    assert_eq!(Word::new("casa"), Word { id: 0, word: text("casa") });
    assert_eq!(
        FileWordRelation::new(3, 4, 5),
        FileWordRelation { id: 0, word_id: 3, file_id: 4, word_count: 5 }
    );
}

#[test]
fn a_factory_collects_tasks_one_at_a_time() {
    let mut f = TaskFactory::new();
    assert_eq!(f.tasks, Vec::new());
    assert_eq!(f.current, Task::default());
    f.set_title(text("write"));
    f.set_description(text("notes.md"));
    f.set_done(true);
    f.append();
    let mut expected = Task::default();
    expected.title = text("write");
    expected.description = text("notes.md");
    expected.done = true;
    assert_eq!(f.tasks, vec![expected.clone()]);
    assert_eq!(f.current, Task::default());
    let mut file = TasksFile::default();
    assert_eq!(f.save(&mut file), 0);
    expected.id = 1;
    assert_eq!(file.objects.len(), 1);
    assert_eq!(file.objects[&1], expected);
}

#[test]
fn tasks_are_the_texts_inside_lists() {
    let events = vec![
        NoteEvent::Text { text: text("intro") },
        NoteEvent::ListStart,
        NoteEvent::TaskListMarker { done: true },
        NoteEvent::Text { text: text("first") },
        NoteEvent::Other,
        NoteEvent::Text { text: text("") },
        NoteEvent::TaskListMarker { done: false },
        NoteEvent::Text { text: text("second") },
        NoteEvent::ListEnd,
        NoteEvent::Text { text: text("outro") },
        NoteEvent::TaskListMarker { done: true },
    ];
    let f = read_events("/notes/todo.md", &events);
    let mut first = Task::default();
    first.title = text("first");
    first.description = text("/notes/todo.md");
    first.done = true;
    let mut second = Task::default();
    second.title = text("second");
    second.description = text("/notes/todo.md");
    assert_eq!(f.tasks, vec![first, second]);
    let mut pending = Task::default();
    pending.done = true;
    assert_eq!(f.current, pending);
    assert_eq!(read_events("p", &Vec::new()), TaskFactory::new());
}

#[test]
fn names_go_to_snake_case_and_tables_are_plural() {
    assert_eq!(struct_to_snake_case("FileWordRelation"), "file_word_relation");
    assert_eq!(struct_to_snake_case("File"), "file");
    assert_eq!(struct_to_snake_case("already_snake"), "already_snake");
    assert_eq!(struct_to_snake_case("aB"), "a_b");
    assert_eq!(struct_to_snake_case("ABC"), "a_b_c");
    assert_eq!(struct_to_snake_case(""), "");
    assert_eq!(struct_to_snake_case("Été"), "Été");
    assert_eq!(table_of("Word"), "words");
    assert_eq!(table::<File>(), "files");
    assert_eq!(table::<Word>(), "words");
    assert_eq!(table::<FileWordRelation>(), "file_word_relations");
    assert_eq!(File::entity_name(), "File");
    assert_eq!(Word::entity_name(), "Word");
    assert_eq!(FileWordRelation::entity_name(), "FileWordRelation");
}

#[test]
fn rows_name_their_statements() {
    let f = File::new(text("a.md"));
    assert_eq!(
        f.create_or_update_query(),
        "\n            INSERT INTO files (file)\n            VALUES(a.md)\n            ON CONFLICT(file)\n            DO UPDATE SET file;\n        "
    );
    assert_eq!(
        f.get_or_create_query(),
        "INSERT OR IGNORE INTO files (file) VALUES ('a.md');\n            SELECT id, file FROM files WHERE file = 'a.md' LIMIT 1;\n        "
    );
    let w = Word::new("casa");
    assert_eq!(
        w.create_or_update_query(),
        "\n        INSERT INTO words (word)\n        VALUES(casa)\n        ON CONFLICT(word)\n        DO UPDATE SET word;\n        "
    );
    assert_eq!(
        w.get_or_create_query(),
        "INSERT OR IGNORE INTO words (word) VALUES ('casa');\n            SELECT id, word FROM words WHERE word = 'casa' LIMIT 1;\n        "
    );
    let r = FileWordRelation::new(3, 4, 250);
    assert_eq!(
        r.create_or_update_query(),
        "\n            INSERT INTO file_word_relations (word_id, file_id, word_count)\n            VALUES (3,4,250)\n            ON CONFLICT(word_id, file_id)\n            DO UPDATE SET word_count = 250;\n            SELECT * FROM file_word_relations WHERE word_id = 3 and file_id = 4 LIMIT 1;\n            "
    );
    assert_eq!(
        r.get_or_create_query(),
        "INSERT OR IGNORE INTO file_word_relations () VALUES ('');\n            SELECT  FROM file_word_relations WHERE  = '' and  LIMIT 1;\n        "
    );
}

#[test]
fn files_are_read_entered_and_removed_together() {
    assert_eq!(File::get_all(), "SELECT file FROM files");
    let paths = vec![text("/a.md"), text("/b c.md")];
    assert_eq!(
        File::delete_many(&paths),
        "DELETE FROM files WHERE file IN ('/a.md','/b c.md');"
    );
    assert_eq!(
        File::insert_many(&paths),
        "INSERT OR IGNORE INTO files ('file') VALUES ('/a.md'),('/b c.md');"
    );
    assert_eq!(File::delete_many(&Vec::new()), "DELETE FROM files WHERE file IN ();");
    assert_eq!(
        File::insert_many(&vec![text("x")]),
        "INSERT OR IGNORE INTO files ('file') VALUES ('x');"
    );
}

#[test]
fn words_of_a_file_are_entered_one_by_one() {
    let counts = vec![(text("casa"), 2u8), (text("perro"), 1u8)];
    let statements = tf("/notes/a.md", &counts);
    assert_eq!(
        statements,
        vec![
            File::new(text("/notes/a.md")).get_or_create_query(),
            Word::new("casa").get_or_create_query(),
            FileWordRelation::new(0, 0, 2).create_or_update_query(),
            Word::new("perro").get_or_create_query(),
            FileWordRelation::new(0, 0, 1).create_or_update_query(),
        ]
    );
    assert_eq!(
        tf("x", &Vec::new()),
        vec![File::new(text("x")).get_or_create_query()]
    );
}
