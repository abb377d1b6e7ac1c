//! Entering the words of a file in the index.

use vstd::prelude::*;
use vstd::string::*;

use crate::knowbase::file_handlers::spec_counts;
use crate::knowbase::models::{File, FileWordRelation, Manager, Word};
use crate::vcs::file::spec_texts;

verus! {

/// The statements that enter the first `n` of `word_count` in the index,
/// after the statement that enters the file: for each word one that enters
/// the word and one that enters how often it occurs.
pub open spec fn spec_tf(filepath: Seq<char>, word_count: Seq<(Seq<char>, u8)>, n: nat) -> Seq<
    Seq<char>,
>
    decreases n,
{
    if n == 0 || n > word_count.len() {
        seq![File::spec_get_or_create(filepath)]
    } else {
        spec_tf(filepath, word_count, (n - 1) as nat).push(
            Word::spec_get_or_create(word_count[n - 1].0),
        ).push(
            (FileWordRelation {
                id: 0,
                word_id: 0,
                file_id: 0,
                word_count: word_count[n - 1].1,
            }).spec_create_or_update_query(),
        )
    }
}

/// The statements that enter the words of the file at `filepath`, counted
/// as `word_count` says, in the index; see [`spec_tf`].
pub fn tf(filepath: &str, word_count: &Vec<(String, u8)>) -> (r: Vec<String>)
    ensures
        spec_texts(r@) == spec_tf(filepath@, spec_counts(word_count@), word_count@.len()),
{
    let ghost counts = spec_counts(word_count@);
    let mut r: Vec<String> = Vec::new();
    let file = File::new(filepath.to_owned());
    r.push(file.get_or_create_query());
    assert(spec_texts(r@) =~= spec_tf(filepath@, counts, 0));
    let mut i: usize = 0;
    while i < word_count.len()
        invariant
            i <= word_count.len(),
            counts == spec_counts(word_count@),
            file.id == 0,
            spec_texts(r@) == spec_tf(filepath@, counts, i as nat),
        decreases word_count.len() - i,
    {
        let ghost before = spec_texts(r@);
        assert(counts[i as int] == (word_count@[i as int].0@, word_count@[i as int].1));
        let word = Word::new(word_count[i].0.as_str());
        let first = word.get_or_create_query();
        let relation = FileWordRelation::new(word.id, file.id, word_count[i].1);
        let second = relation.create_or_update_query();
        r.push(first);
        r.push(second);
        assert(spec_texts(r@) =~= before.push(first@).push(second@));
        i = i + 1;
    }
    r
}

} // verus!
