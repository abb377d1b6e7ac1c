//! The rows of the word index, and the statements that store them.

use vstd::prelude::*;
use vstd::string::*;

use crate::text::{chars_of, decimal_u64, spec_decimal};
use crate::vcs::file::spec_texts;

verus! {

/// Whether `c` is a capital letter of the ASCII alphabet.
pub open spec fn spec_is_upper(c: char) -> bool {
    'A' <= c && c <= 'Z'
}

/// The small letter for a capital letter of the ASCII alphabet.
pub open spec fn spec_lower(c: char) -> char {
    ((c as u8) + 32) as char
}

/// The first `n` characters of `name` in snake case: every capital letter
/// becomes small, and each but the first has an underscore before it.
pub open spec fn spec_snake_case(name: Seq<char>, n: nat) -> Seq<char>
    decreases n,
{
    if n == 0 || n > name.len() {
        Seq::empty()
    } else {
        let before = spec_snake_case(name, (n - 1) as nat);
        let c = name[n - 1];
        if spec_is_upper(c) {
            if n == 1 {
                before.push(spec_lower(c))
            } else {
                before.push('_').push(spec_lower(c))
            }
        } else {
            before.push(c)
        }
    }
}

/// The name of the table that holds rows of the kind named `entity`: the
/// name in snake case, and an `s`.
pub open spec fn spec_table(entity: Seq<char>) -> Seq<char> {
    spec_snake_case(entity, entity.len()) + "s"@
}

fn lower_letter(c: char) -> (s: &'static str)
    requires
        spec_is_upper(c),
    ensures
        s@ == seq![spec_lower(c)],
{
    proof {
        reveal_strlit("a");
        reveal_strlit("b");
        reveal_strlit("c");
        reveal_strlit("d");
        reveal_strlit("e");
        reveal_strlit("f");
        reveal_strlit("g");
        reveal_strlit("h");
        reveal_strlit("i");
        reveal_strlit("j");
        reveal_strlit("k");
        reveal_strlit("l");
        reveal_strlit("m");
        reveal_strlit("n");
        reveal_strlit("o");
        reveal_strlit("p");
        reveal_strlit("q");
        reveal_strlit("r");
        reveal_strlit("s");
        reveal_strlit("t");
        reveal_strlit("u");
        reveal_strlit("v");
        reveal_strlit("w");
        reveal_strlit("x");
        reveal_strlit("y");
        reveal_strlit("z");
    }
    let s = if c == 'A' {
        "a"
    } else if c == 'B' {
        "b"
    } else if c == 'C' {
        "c"
    } else if c == 'D' {
        "d"
    } else if c == 'E' {
        "e"
    } else if c == 'F' {
        "f"
    } else if c == 'G' {
        "g"
    } else if c == 'H' {
        "h"
    } else if c == 'I' {
        "i"
    } else if c == 'J' {
        "j"
    } else if c == 'K' {
        "k"
    } else if c == 'L' {
        "l"
    } else if c == 'M' {
        "m"
    } else if c == 'N' {
        "n"
    } else if c == 'O' {
        "o"
    } else if c == 'P' {
        "p"
    } else if c == 'Q' {
        "q"
    } else if c == 'R' {
        "r"
    } else if c == 'S' {
        "s"
    } else if c == 'T' {
        "t"
    } else if c == 'U' {
        "u"
    } else if c == 'V' {
        "v"
    } else if c == 'W' {
        "w"
    } else if c == 'X' {
        "x"
    } else if c == 'Y' {
        "y"
    } else if c == 'Z' {
        "z"
    } else {
        "z"
    };

    assert(s@ =~= seq![spec_lower(c)]);
    s
}

/// `name` in snake case; see [`spec_snake_case`].
pub fn struct_to_snake_case(name: &str) -> (r: String)
    ensures
        r@ == spec_snake_case(name@, name@.len()),
{
    let chars = chars_of(name);
    let mut result = String::new();
    let mut i: usize = 0;
    while i < chars.len()
        invariant
            i <= chars.len(),
            chars@ == name@,
            result@ == spec_snake_case(name@, i as nat),
        decreases chars.len() - i,
    {
        let c = chars[i];
        let ghost before = result@;
        if 'A' <= c && c <= 'Z' {
            if i > 0 {
                proof {
                    reveal_strlit("_");
                }
                result.append("_");
            }
            result.append(lower_letter(c));
        } else {
            let one = name.substring_char(i, i + 1);
            assert(one@ =~= seq![c]);
            result.append(one);
        }
        assert(result@ =~= spec_snake_case(name@, (i + 1) as nat));
        i = i + 1;
    }
    result
}

/// What is stored as rows of a table of its own.
pub trait Manager {
    /// The name of the kind of row.
    spec fn spec_entity_name() -> Seq<char>;

    /// The statement that stores the row, or brings the stored row up to date.
    spec fn spec_create_or_update_query(&self) -> Seq<char>;

    /// The statement that stores the row unless it is stored, and reads it.
    spec fn spec_get_or_create_query(&self) -> Seq<char>;

    /// The name of the kind of row.
    fn entity_name() -> (r: String)
        ensures
            r@ == Self::spec_entity_name(),
    ;

    /// The statement that stores the row, or brings the stored row up to date.
    fn create_or_update_query(&self) -> (r: String)
        ensures
            r@ == self.spec_create_or_update_query(),
    ;

    /// The statement that stores the row unless it is stored, and reads it.
    fn get_or_create_query(&self) -> (r: String)
        ensures
            r@ == self.spec_get_or_create_query(),
    ;
}

/// The name of the table that holds rows of the kind named `entity`.
pub fn table_of(entity: &str) -> (r: String)
    ensures
        r@ == spec_table(entity@),
{
    struct_to_snake_case(entity).concat("s")
}

/// The name of the table that holds rows of the kind `T`.
pub fn table<T: Manager>() -> (r: String)
    ensures
        r@ == spec_table(T::spec_entity_name()),
{
    let name = T::entity_name();
    table_of(name.as_str())
}

/// An indexed file.
#[derive(Debug, PartialEq, Eq)]
pub struct File {
    pub id: u8,
    pub file: String,
}

/// `items`, each between `open` and `close`, with commas between them.
pub open spec fn spec_listed(items: Seq<Seq<char>>, open: Seq<char>, close: Seq<char>) -> Seq<char>
    decreases items.len(),
{
    if items.len() == 0 {
        Seq::empty()
    } else if items.len() == 1 {
        open + items[0] + close
    } else {
        spec_listed(items.drop_last(), open, close) + ","@ + open + items.last() + close
    }
}

/// `items`, each between `open` and `close`, with commas between them.
fn listed(items: &Vec<String>, open: &str, close: &str) -> (r: String)
    ensures
        r@ == spec_listed(spec_texts(items@), open@, close@),
{
    let ghost all = spec_texts(items@);
    let mut r = String::new();
    let mut i: usize = 0;
    assert(all.take(0) =~= Seq::empty());
    while i < items.len()
        invariant
            i <= items.len(),
            all == spec_texts(items@),
            r@ == spec_listed(all.take(i as int), open@, close@),
        decreases items.len() - i,
    {
        let ghost next = all.take(i + 1);
        assert(next.drop_last() =~= all.take(i as int));
        assert(next.last() == items@[i as int]@);
        assert(next[0] == all[0]);
        if i > 0 {
            r.append(",");
        }
        r.append(open);
        r.append(items[i].as_str());
        r.append(close);
        assert(r@ =~= spec_listed(next, open@, close@));
        i = i + 1;
    }
    assert(all.take(i as int) =~= all);
    r
}

impl File {
    /// A file that has no number yet.
    pub fn new(file: String) -> (r: Self)
        ensures
            r.id == 0,
            r.file == file,
    {
        File { id: 0, file }
    }

    /// The statement that reads the files of the index.
    pub fn get_all() -> (r: String)
        ensures
            r@ == "SELECT file FROM "@ + spec_table("File"@),
    {
        String::from_str("SELECT file FROM ").concat(table_of("File").as_str())
    }

    /// The statement that takes the files at `paths` out of the index.
    pub fn delete_many(paths: &Vec<String>) -> (r: String)
        ensures
            r@ == "DELETE FROM "@ + spec_table("File"@) + " WHERE file IN ("@ + spec_listed(
                spec_texts(paths@),
                "'"@,
                "'"@,
            ) + ");"@,
    {
        let values = listed(paths, "'", "'");
        String::from_str("DELETE FROM ").concat(table_of("File").as_str()).concat(
            " WHERE file IN (",
        ).concat(values.as_str()).concat(");")
    }

    /// The statement that enters the files at `paths` in the index, unless
    /// they are in it.
    pub fn insert_many(paths: &Vec<String>) -> (r: String)
        ensures
            r@ == "INSERT OR IGNORE INTO "@ + spec_table("File"@) + " ('file') VALUES "@
                + spec_listed(spec_texts(paths@), "('"@, "')"@) + ";"@,
    {
        let values = listed(paths, "('", "')");
        String::from_str("INSERT OR IGNORE INTO ").concat(table_of("File").as_str()).concat(
            " ('file') VALUES ",
        ).concat(values.as_str()).concat(";")
    }
}

impl File {
    /// The statement that stores the file at `file` unless it is stored, and
    /// reads it.
    pub open spec fn spec_get_or_create(file: Seq<char>) -> Seq<char> {
        "INSERT OR IGNORE INTO "@ + spec_table("File"@) + " (file) VALUES ('"@ + file
            + "');\n            SELECT id, file FROM "@ + spec_table("File"@) + " WHERE file = '"@
            + file + "' LIMIT 1;\n        "@
    }
}

impl Manager for File {
    open spec fn spec_entity_name() -> Seq<char> {
        "File"@
    }

    open spec fn spec_create_or_update_query(&self) -> Seq<char> {
        "\n            INSERT INTO "@ + spec_table("File"@) + " (file)\n            VALUES("@
            + self.file@
            + ")\n            ON CONFLICT(file)\n            DO UPDATE SET file;\n        "@
    }

    open spec fn spec_get_or_create_query(&self) -> Seq<char> {
        File::spec_get_or_create(self.file@)
    }

    fn entity_name() -> (r: String) {
        String::from_str("File")
    }

    fn create_or_update_query(&self) -> (r: String) {
        String::from_str("\n            INSERT INTO ").concat(table_of("File").as_str()).concat(
            " (file)\n            VALUES(",
        ).concat(self.file.as_str()).concat(
            ")\n            ON CONFLICT(file)\n            DO UPDATE SET file;\n        ",
        )
    }

    fn get_or_create_query(&self) -> (r: String) {
        let t = table_of("File");
        String::from_str("INSERT OR IGNORE INTO ").concat(t.as_str()).concat(
            " (file) VALUES ('",
        ).concat(self.file.as_str()).concat("');\n            SELECT id, file FROM ").concat(
            t.as_str(),
        ).concat(" WHERE file = '").concat(self.file.as_str()).concat("' LIMIT 1;\n        ")
    }
}

/// An indexed word.
#[derive(Debug, PartialEq, Eq)]
pub struct Word {
    pub id: u8,
    pub word: String,
}

impl Word {
    /// A word that has no number yet.
    pub fn new(word: &str) -> (r: Self)
        ensures
            r.id == 0,
            r.word@ == word@,
    {
        Word { id: 0, word: String::from_str(word) }
    }
}

impl Word {
    /// The statement that stores the word `word` unless it is stored, and
    /// reads it.
    pub open spec fn spec_get_or_create(word: Seq<char>) -> Seq<char> {
        "INSERT OR IGNORE INTO "@ + spec_table("Word"@) + " (word) VALUES ('"@ + word
            + "');\n            SELECT id, word FROM "@ + spec_table("Word"@) + " WHERE word = '"@
            + word + "' LIMIT 1;\n        "@
    }
}

impl Manager for Word {
    open spec fn spec_entity_name() -> Seq<char> {
        "Word"@
    }

    open spec fn spec_create_or_update_query(&self) -> Seq<char> {
        "\n        INSERT INTO "@ + spec_table("Word"@) + " (word)\n        VALUES("@ + self.word@
            + ")\n        ON CONFLICT(word)\n        DO UPDATE SET word;\n        "@
    }

    open spec fn spec_get_or_create_query(&self) -> Seq<char> {
        Word::spec_get_or_create(self.word@)
    }

    fn entity_name() -> (r: String) {
        String::from_str("Word")
    }

    fn create_or_update_query(&self) -> (r: String) {
        String::from_str("\n        INSERT INTO ").concat(table_of("Word").as_str()).concat(
            " (word)\n        VALUES(",
        ).concat(self.word.as_str()).concat(
            ")\n        ON CONFLICT(word)\n        DO UPDATE SET word;\n        ",
        )
    }

    fn get_or_create_query(&self) -> (r: String) {
        let t = table_of("Word");
        String::from_str("INSERT OR IGNORE INTO ").concat(t.as_str()).concat(
            " (word) VALUES ('",
        ).concat(self.word.as_str()).concat("');\n            SELECT id, word FROM ").concat(
            t.as_str(),
        ).concat(" WHERE word = '").concat(self.word.as_str()).concat("' LIMIT 1;\n        ")
    }
}

/// How often a word occurs in a file.
#[derive(Clone, Copy, Debug, PartialEq, Eq, Structural)]
pub struct FileWordRelation {
    pub id: u8,
    pub word_id: u8,
    pub file_id: u8,
    pub word_count: u8,
}

impl FileWordRelation {
    /// A relation that has no number yet.
    pub fn new(word_id: u8, file_id: u8, word_count: u8) -> (r: Self)
        ensures
            r == (FileWordRelation { id: 0, word_id, file_id, word_count }),
    {
        FileWordRelation { id: 0, word_id, file_id, word_count }
    }
}

impl Manager for FileWordRelation {
    open spec fn spec_entity_name() -> Seq<char> {
        "FileWordRelation"@
    }

    open spec fn spec_create_or_update_query(&self) -> Seq<char> {
        "\n            INSERT INTO "@ + spec_table("FileWordRelation"@)
            + " (word_id, file_id, word_count)\n            VALUES ("@ + spec_decimal(
            self.word_id as int,
        ) + ","@ + spec_decimal(self.file_id as int) + ","@ + spec_decimal(self.word_count as int)
            + ")\n            ON CONFLICT(word_id, file_id)\n            DO UPDATE SET word_count = "@
            + spec_decimal(self.word_count as int) + ";\n            SELECT * FROM "@ + spec_table(
            "FileWordRelation"@,
        ) + " WHERE word_id = "@ + spec_decimal(self.word_id as int) + " and file_id = "@
            + spec_decimal(self.file_id as int) + " LIMIT 1;\n            "@
    }

    open spec fn spec_get_or_create_query(&self) -> Seq<char> {
        "INSERT OR IGNORE INTO "@ + spec_table("FileWordRelation"@)
            + " () VALUES ('');\n            SELECT  FROM "@ + spec_table("FileWordRelation"@)
            + " WHERE  = '' and  LIMIT 1;\n        "@
    }

    fn entity_name() -> (r: String) {
        String::from_str("FileWordRelation")
    }

    fn create_or_update_query(&self) -> (r: String) {
        let t = table_of("FileWordRelation");
        let word = decimal_u64(self.word_id as u64);
        let file = decimal_u64(self.file_id as u64);
        let count = decimal_u64(self.word_count as u64);
        String::from_str("\n            INSERT INTO ").concat(t.as_str()).concat(
            " (word_id, file_id, word_count)\n            VALUES (",
        ).concat(word.as_str()).concat(",").concat(file.as_str()).concat(",").concat(
            count.as_str(),
        ).concat(
            ")\n            ON CONFLICT(word_id, file_id)\n            DO UPDATE SET word_count = ",
        ).concat(count.as_str()).concat(";\n            SELECT * FROM ").concat(t.as_str()).concat(
            " WHERE word_id = ",
        ).concat(word.as_str()).concat(" and file_id = ").concat(file.as_str()).concat(
            " LIMIT 1;\n            ",
        )
    }

    fn get_or_create_query(&self) -> (r: String) {
        let t = table_of("FileWordRelation");
        String::from_str("INSERT OR IGNORE INTO ").concat(t.as_str()).concat(
            " () VALUES ('');\n            SELECT  FROM ",
        ).concat(t.as_str()).concat(" WHERE  = '' and  LIMIT 1;\n        ")
    }
}

} // verus!
