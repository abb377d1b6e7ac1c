//! Counting the words of a text.

use vstd::prelude::*;
use vstd::string::*;

use crate::text::same;
use crate::vcs::file::spec_texts;

verus! {

/// What `regex` makes of `text` when every match of `pattern` is replaced by
/// `with`; nothing where it refuses the pattern.
pub uninterp spec fn spec_replace_all(pattern: Seq<char>, text: Seq<char>, with: Seq<char>) -> Option<
    Seq<char>,
>;

/// Compiles `pattern` with `regex::Regex::new` and replaces every match in
/// `text` with `Regex::replace_all`. The answer depends on the three texts
/// alone; nothing more is claimed of it.
#[verifier::external_body]
fn replace_all(pattern: &str, text: &str, with: &str) -> (r: Option<String>)
    ensures
        match r {
            Some(s) => spec_replace_all(pattern@, text@, with@) == Some(s@),
            None => spec_replace_all(pattern@, text@, with@) is None,
        },
{
    match regex::Regex::new(pattern) {
        Ok(re) => Some(re.replace_all(text, with).into_owned()),
        Err(_) => None,
    }
}

/// The ASCII text that `unidecode` writes `text` as.
pub uninterp spec fn spec_unidecode(text: Seq<char>) -> Seq<char>;

/// Writes `text` in ASCII with `unidecode::unidecode`. The answer depends on
/// the text alone; nothing more is claimed of it.
#[verifier::external_body]
fn transliterate(text: &str) -> (r: String)
    ensures
        r@ == spec_unidecode(text@),
{
    unidecode::unidecode(text)
}

/// `text` in lower case, as `str::to_lowercase` has it.
pub uninterp spec fn spec_lowercase(text: Seq<char>) -> Seq<char>;

/// Writes `text` in lower case with `str::to_lowercase`. The answer depends
/// on the text alone; nothing more is claimed of it.
#[verifier::external_body]
fn lowercase(text: &str) -> (r: String)
    ensures
        r@ == spec_lowercase(text@),
{
    text.to_lowercase()
}

/// The words of `line`: what `str::split_whitespace` finds between runs of
/// white space.
pub uninterp spec fn spec_words(line: Seq<char>) -> Seq<Seq<char>>;

/// Splits `line` at white space with `str::split_whitespace`. The answer
/// depends on the line alone; nothing more is claimed of it.
#[verifier::external_body]
fn words(line: &str) -> (r: Vec<String>)
    ensures
        spec_texts(r@) == spec_words(line@),
{
    line.split_whitespace().map(String::from).collect()
}

/// The form a word is counted in: its punctuation removed, then written in
/// ASCII, then in lower case.
pub open spec fn spec_remove_punctuation(input: Seq<char>) -> Seq<char> {
    let bare = match spec_replace_all("[[:punct:]]"@, input, Seq::empty()) {
        Some(s) => s,
        None => input,
    };
    spec_lowercase(spec_unidecode(bare))
}

/// The form `input` is counted in; see [`spec_remove_punctuation`].
pub fn remove_punctuation(input: &str) -> (r: String)
    ensures
        r@ == spec_remove_punctuation(input@),
{
    let nothing = String::new();
    let bare = match replace_all("[[:punct:]]", input, nothing.as_str()) {
        Some(s) => s,
        None => input.to_owned(),
    };
    let plain = transliterate(bare.as_str());
    lowercase(plain.as_str())
}

/// Whether `word` is one of the words that are not counted.
pub open spec fn spec_is_stopword(word: Seq<char>) -> bool {
    word == "los"@ || word == "las"@ || word == "la"@ || word == "de"@ || word == "y"@ || word
        == "este"@ || word == "esta"@
}

/// Whether `word` is one of the words that are not counted.
pub fn is_stopword(word: &str) -> (r: bool)
    ensures
        r == spec_is_stopword(word@),
{
    same(word, "los") || same(word, "las") || same(word, "la") || same(word, "de") || same(
        word,
        "y",
    ) || same(word, "este") || same(word, "esta")
}

/// The position of `token` among the counts.
pub open spec fn spec_counted(counts: Seq<(Seq<char>, u8)>, token: Seq<char>) -> Option<int>
    decreases counts.len(),
{
    if counts.len() == 0 {
        None
    } else {
        match spec_counted(counts.drop_last(), token) {
            Some(i) => Some(i),
            None => if counts.last().0 == token {
                Some(counts.len() - 1)
            } else {
                None
            },
        }
    }
}

/// The counts after one more occurrence of `token`. A count stays at 255
/// once it is there.
pub open spec fn spec_count(counts: Seq<(Seq<char>, u8)>, token: Seq<char>) -> Seq<(Seq<char>, u8)> {
    match spec_counted(counts, token) {
        Some(i) => counts.update(
            i,
            (
                token,
                if counts[i].1 == 255 {
                    255u8
                } else {
                    (counts[i].1 + 1) as u8
                },
            ),
        ),
        None => counts.push((token, 1u8)),
    }
}

/// The counts after the first `n` of `words` have been counted: each word
/// that is no stop word counts once, in the form it is counted in.
pub open spec fn spec_count_words(counts: Seq<(Seq<char>, u8)>, words: Seq<Seq<char>>, n: nat) -> Seq<
    (Seq<char>, u8),
>
    decreases n,
{
    if n == 0 || n > words.len() {
        counts
    } else {
        let before = spec_count_words(counts, words, (n - 1) as nat);
        if spec_is_stopword(words[n - 1]) {
            before
        } else {
            spec_count(before, spec_remove_punctuation(words[n - 1]))
        }
    }
}

/// The counts as plain values.
pub open spec fn spec_counts(counts: Seq<(String, u8)>) -> Seq<(Seq<char>, u8)> {
    Seq::new(counts.len(), |i: int| (counts[i].0@, counts[i].1))
}

proof fn lemma_counted_prefix(counts: Seq<(Seq<char>, u8)>, token: Seq<char>, k: int)
    requires
        0 <= k <= counts.len(),
        spec_counted(counts.take(k), token) is Some,
    ensures
        spec_counted(counts, token) == spec_counted(counts.take(k), token),
    decreases counts.len(),
{
    if k == counts.len() {
        assert(counts.take(k) =~= counts);
    } else {
        assert(counts.drop_last().take(k) =~= counts.take(k));
        lemma_counted_prefix(counts.drop_last(), token, k);
    }
}

/// Counts one more occurrence of `token`; see [`spec_count`].
pub fn count(word_count: &mut Vec<(String, u8)>, token: String)
    ensures
        spec_counts(final(word_count)@) == spec_count(spec_counts(old(word_count)@), token@),
{
    let ghost all = spec_counts(word_count@);
    let mut i: usize = 0;
    assert(all.take(0).len() == 0);
    while i < word_count.len()
        invariant
            i <= word_count.len(),
            word_count@ == old(word_count)@,
            all == spec_counts(word_count@),
            spec_counted(all.take(i as int), token@) is None,
        decreases word_count.len() - i,
    {
        let ghost next = all.take(i + 1);
        assert(next.drop_last() =~= all.take(i as int));
        assert(next.last() == all[i as int]);
        if same(word_count[i].0.as_str(), token.as_str()) {
            proof {
                lemma_counted_prefix(all, token@, i + 1);
            }
            let (key, n) = word_count.remove(i);
            let m: u8 = if n == 255 {
                255
            } else {
                n + 1
            };
            word_count.insert(i, (key, m));
            assert(spec_counts(word_count@) =~= all.update(i as int, (token@, m)));
            return;
        }
        i = i + 1;
    }
    assert(all.take(i as int) =~= all);
    word_count.push((token, 1));
    assert(spec_counts(word_count@) =~= all.push((token@, 1u8)));
}

/// Counts the words of `line`; see [`spec_count_words`].
pub fn count_words(line: String, word_count: &mut Vec<(String, u8)>)
    ensures
        spec_counts(final(word_count)@) == spec_count_words(
            spec_counts(old(word_count)@),
            spec_words(line@),
            spec_words(line@).len(),
        ),
{
    let found = words(line.as_str());
    let mut i: usize = 0;
    while i < found.len()
        invariant
            i <= found.len(),
            spec_texts(found@) == spec_words(line@),
            spec_counts(word_count@) == spec_count_words(
                spec_counts(old(word_count)@),
                spec_words(line@),
                i as nat,
            ),
        decreases found.len() - i,
    {
        assert(spec_texts(found@)[i as int] == found@[i as int]@);
        let word = found[i].as_str();
        let token = remove_punctuation(word);
        if !is_stopword(word) {
            count(word_count, token);
        }
        i = i + 1;
    }
}

/// The counts after the first `n` of `lines` have been counted.
pub open spec fn spec_word_count(lines: Seq<Seq<char>>, n: nat) -> Seq<(Seq<char>, u8)>
    decreases n,
{
    if n == 0 || n > lines.len() {
        Seq::empty()
    } else {
        let words = spec_words(lines[n - 1]);
        spec_count_words(spec_word_count(lines, (n - 1) as nat), words, words.len())
    }
}

/// Counts the words of the lines of a text, in the order in which each word
/// is first met.
pub fn get_word_count(lines: &Vec<String>) -> (r: Vec<(String, u8)>)
    ensures
        spec_counts(r@) == spec_word_count(spec_texts(lines@), lines@.len()),
{
    let mut word_count: Vec<(String, u8)> = Vec::new();
    let mut i: usize = 0;
    assert(spec_counts(word_count@) =~= Seq::empty());
    while i < lines.len()
        invariant
            i <= lines.len(),
            spec_counts(word_count@) == spec_word_count(spec_texts(lines@), i as nat),
        decreases lines.len() - i,
    {
        assert(spec_texts(lines@)[i as int] == lines@[i as int]@);
        count_words(lines[i].clone(), &mut word_count);
        i = i + 1;
    }
    word_count
}

} // verus!
