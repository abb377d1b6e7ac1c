//! Comparing two snapshots of a file: the techniques, what each reports, and
//! the record of a comparison.

use vstd::prelude::*;
use vstd::string::*;

use crate::config::{clone_text, spec_text, Author, AuthorView};
use crate::error::{Error, ErrorView};
use crate::text::{extension, same, spec_decimal, spec_extension};
use crate::value::{spec_json, spec_merge, Tree, Value};
use crate::vcs::file::{spec_texts, File, FileView, LogbookProvider, StatementView};

verus! {

/// How two snapshots are compared.
#[derive(Clone, Copy, Debug, PartialEq, Eq, Structural)]
pub enum ComparaisonTechnique {
    /// By a hash of the bytes of each.
    Hash,
    /// By a script of the user's.
    Custom,
    /// By what the content is, where a comparator knows its type.
    Similarity,
    /// By hash, and also by content where a comparator knows its type.
    Smart,
}

impl ComparaisonTechnique {
    /// The name a technique is recorded under.
    pub open spec fn spec_name(&self) -> Seq<char> {
        match self {
            ComparaisonTechnique::Hash => "Hash"@,
            ComparaisonTechnique::Custom => "Custom"@,
            ComparaisonTechnique::Similarity => "Similarity"@,
            ComparaisonTechnique::Smart => "Smart"@,
        }
    }

    /// The name of the technique.
    pub fn name(&self) -> (s: String)
        ensures
            s@ == self.spec_name(),
    {
        match self {
            ComparaisonTechnique::Hash => String::from_str("Hash"),
            ComparaisonTechnique::Custom => String::from_str("Custom"),
            ComparaisonTechnique::Similarity => String::from_str("Similarity"),
            ComparaisonTechnique::Smart => String::from_str("Smart"),
        }
    }
}

impl Default for ComparaisonTechnique {
    fn default() -> (r: Self)
        ensures
            r == ComparaisonTechnique::Smart,
    {
        ComparaisonTechnique::Smart
    }
}

/// The kinds of content a comparison tells apart by the file's extension.
#[derive(Clone, Copy, Debug, PartialEq, Eq, Structural)]
pub enum ContentType {
    /// Markdown text: the extension `md`.
    Markdown,
    /// A columnar table: the extension `parquet`.
    Columnar,
    /// Anything else.
    Other,
}

impl ContentType {
    /// The kind of content a path stands for, by its extension.
    pub open spec fn spec_of(path: Seq<char>) -> ContentType {
        match spec_extension(path) {
            Some(e) => if e == "md"@ {
                ContentType::Markdown
            } else if e == "parquet"@ {
                ContentType::Columnar
            } else {
                ContentType::Other
            },
            None => ContentType::Other,
        }
    }

    /// Whether content of this kind is compared by more than its hash when
    /// the technique is [`ComparaisonTechnique::Smart`].
    pub open spec fn spec_is_specialised(&self) -> bool {
        *self != ContentType::Other
    }

    /// The kind of content `path` stands for.
    pub fn of(path: &str) -> (r: ContentType)
        ensures
            r == Self::spec_of(path@),
    {
        match extension(path) {
            Some(e) => {
                if same(e.as_str(), "md") {
                    ContentType::Markdown
                } else if same(e.as_str(), "parquet") {
                    ContentType::Columnar
                } else {
                    ContentType::Other
                }
            },
            None => ContentType::Other,
        }
    }

    /// Whether content of this kind has a comparator of its own.
    pub fn is_specialised(&self) -> (r: bool)
        ensures
            r == self.spec_is_specialised(),
    {
        match self {
            ContentType::Other => false,
            _ => true,
        }
    }
}

/// The Meow hash of `data`, all 128 bytes of it.
pub uninterp spec fn spec_meow(data: Seq<u8>) -> Seq<u8>;

/// Hashes `data` with `meowhash::MeowHasher::hash`, seeded as the crate
/// seeds it by default, and hands out the bytes of the hash. The hash is a
/// function of the data alone; nothing more is claimed of it. The crate
/// computes it with the AES instructions of the processor and does not ask
/// whether the processor has them.
#[verifier::external_body]
fn meow_digest(data: &[u8]) -> (r: Vec<u8>)
    ensures
        r@ == spec_meow(data@),
{
    meowhash::MeowHasher::hash(data).into_bytes().to_vec()
}

/// The hash that stands for the content of a snapshot in a comparison.
pub fn content_hash(data: &[u8]) -> (r: Vec<u8>)
    ensures
        r@ == spec_meow(data@),
{
    meow_digest(data)
}

/// What a comparison by hash reports: whether the two hashes are equal.
pub open spec fn spec_hash_tree(equal: bool) -> Tree {
    Tree::Node(seq![("equal"@, Tree::Bool(equal))])
}

/// Whether two runs of bytes are the same.
fn same_bytes(a: &Vec<u8>, b: &Vec<u8>) -> (r: bool)
    ensures
        r == (a@ == b@),
{
    if a.len() != b.len() {
        return false;
    }
    let mut i: usize = 0;
    while i < a.len()
        invariant
            i <= a.len(),
            a.len() == b.len(),
            forall|j: int| 0 <= j < i ==> a@[j] == b@[j],
        decreases a.len() - i,
    {
        if a[i] != b[i] {
            return false;
        }
        i = i + 1;
    }
    assert(a@ =~= b@);
    true
}

/// The report of a comparison by hash, from the two hashes.
pub fn hash_verdict(current: &Vec<u8>, previous: &Vec<u8>) -> (r: Value)
    ensures
        r@ == spec_hash_tree(current@ == previous@),
{
    let equal = same_bytes(current, previous);
    let mut members: Vec<(String, Value)> = Vec::new();
    members.push((String::from_str("equal"), Value::Bool(equal)));
    proof {
        crate::value::lemma_view_object(members);
        assert(crate::value::spec_members(members@) =~= seq![("equal"@, Tree::Bool(equal))]);
    }
    Value::Object(members)
}

/// How a run of the comparison script ended.
#[derive(Debug, PartialEq, Eq)]
pub struct ScriptRun {
    /// The exit status, where the script left one.
    pub status: Option<i32>,
    /// What the script wrote to its output.
    pub output: String,
}

/// A [`ScriptRun`] as plain values.
pub struct ScriptRunView {
    pub status: Option<i32>,
    pub output: Seq<char>,
}

impl View for ScriptRun {
    type V = ScriptRunView;

    open spec fn view(&self) -> ScriptRunView {
        ScriptRunView { status: self.status, output: self.output@ }
    }
}

/// What was gathered for a comparison. The bytes of a snapshot are absent
/// where it could not be read; the run of the script is absent where no
/// script was started.
#[derive(Debug, PartialEq, Eq)]
pub struct Evidence {
    pub current: Option<Vec<u8>>,
    pub previous: Option<Vec<u8>>,
    pub script: Option<ScriptRun>,
}

/// [`Evidence`] as plain values.
pub struct EvidenceView {
    pub current: Option<Seq<u8>>,
    pub previous: Option<Seq<u8>>,
    pub script: Option<ScriptRunView>,
}

impl View for Evidence {
    type V = EvidenceView;

    open spec fn view(&self) -> EvidenceView {
        EvidenceView {
            current: match self.current {
                Some(b) => Some(b@),
                None => None,
            },
            previous: match self.previous {
                Some(b) => Some(b@),
                None => None,
            },
            script: match self.script {
                Some(r) => Some(r@),
                None => None,
            },
        }
    }
}

/// The record of one comparison between two snapshots of a file.
#[derive(Debug, PartialEq, Eq)]
pub struct Diff {
    pub pk: Option<u32>,
    pub git_commit: Option<String>,
    pub result_path: String,
    pub script: Option<String>,
    pub result: Value,
    pub file_from_path: String,
    pub file_to_path: String,
    pub branch: String,
    pub author: Author,
    pub technique: ComparaisonTechnique,
}

/// A [`Diff`] as plain values.
pub struct DiffView {
    pub pk: Option<u32>,
    pub git_commit: Option<Seq<char>>,
    pub result_path: Seq<char>,
    pub script: Option<Seq<char>>,
    pub result: Tree,
    pub file_from_path: Seq<char>,
    pub file_to_path: Seq<char>,
    pub branch: Seq<char>,
    pub author: AuthorView,
    pub technique: ComparaisonTechnique,
}

impl View for Diff {
    type V = DiffView;

    open spec fn view(&self) -> DiffView {
        DiffView {
            pk: self.pk,
            git_commit: spec_text(self.git_commit),
            result_path: self.result_path@,
            script: spec_text(self.script),
            result: self.result@,
            file_from_path: self.file_from_path@,
            file_to_path: self.file_to_path@,
            branch: self.branch@,
            author: self.author@,
            technique: self.technique,
        }
    }
}

impl DiffView {
    /// The stored key as text; empty while the record has none.
    pub open spec fn key(&self) -> Seq<char> {
        match self.pk {
            Some(v) => spec_decimal(v as int),
            None => Seq::empty(),
        }
    }
}

/// `text`, or nothing where there is none.
pub open spec fn spec_or_empty(text: Option<Seq<char>>) -> Seq<char> {
    match text {
        Some(s) => s,
        None => Seq::empty(),
    }
}

/// `text`, or an empty text where there is none.
pub fn or_empty(text: &Option<String>) -> (r: String)
    ensures
        r@ == spec_or_empty(spec_text(*text)),
{
    match text {
        Some(s) => s.clone(),
        None => String::new(),
    }
}

impl Clone for Diff {
    fn clone(&self) -> (r: Self)
        ensures
            r@ == self@,
    {
        Diff {
            pk: self.pk,
            git_commit: clone_text(&self.git_commit),
            result_path: self.result_path.clone(),
            script: clone_text(&self.script),
            result: self.result.clone(),
            file_from_path: self.file_from_path.clone(),
            file_to_path: self.file_to_path.clone(),
            branch: self.branch.clone(),
            author: self.author.clone(),
            technique: self.technique,
        }
    }
}

impl Diff {
    /// A record between two snapshots that holds no result yet.
    pub fn new(script: Option<String>, file_from_path: String, file_to_path: String) -> (r: Self)
        ensures
            r@ == (DiffView {
                pk: None,
                git_commit: None,
                result_path: Seq::empty(),
                script: spec_text(script),
                result: Tree::Null,
                file_from_path: file_from_path@,
                file_to_path: file_to_path@,
                branch: Seq::empty(),
                author: AuthorView { pk: None, name: Seq::empty(), email: Seq::empty() },
                technique: ComparaisonTechnique::Smart,
            }),
    {
        Diff {
            pk: None,
            git_commit: None,
            result_path: String::new(),
            script,
            result: Value::Null,
            file_from_path,
            file_to_path,
            branch: String::new(),
            author: Author::default(),
            technique: ComparaisonTechnique::Smart,
        }
    }

    /// The same record with `result` as what the comparison found.
    pub fn set_result(self, result: Value) -> (r: Self)
        ensures
            r@ == (DiffView { result: result@, ..self@ }),
    {
        let mut r = self;
        r.result = result;
        r
    }

    /// The same record, marked with the file it belongs to and the technique
    /// that produced it.
    pub fn set_origin(self, file: &File, technique: ComparaisonTechnique) -> (r: Self)
        ensures
            r@ == (DiffView { branch: file@.branch, author: file@.author, technique, ..self@ }),
    {
        let mut r = self;
        r.branch = file.branch.clone();
        r.author = file.author.clone();
        r.technique = technique;
        r
    }

    /// The stored key as text; empty while the record has none.
    pub fn pk(&self) -> (s: String)
        ensures
            s@ == self@.key(),
    {
        match self.pk {
            Some(v) => crate::text::decimal_u64(v as u64),
            None => String::new(),
        }
    }

    /// The script of the comparison; empty where none was used.
    pub fn script(&self) -> (s: String)
        ensures
            s@ == spec_or_empty(self@.script),
    {
        or_empty(&self.script)
    }

    /// Whether the comparison found nothing but equal hashes.
    pub fn is_trivial(&self) -> (r: bool)
        ensures
            r == (self@.result == spec_hash_tree(true)),
    {
        match &self.result {
            Value::Object(members) => {
                proof {
                    crate::value::lemma_view_object(*members);
                }
                if members.len() != 1 {
                    assert(self@.result->Node_0.len() != 1);
                    return false;
                }
                assert(self@.result->Node_0[0] == (members@[0].0@, members@[0].1@));
                let named = same(members[0].0.as_str(), "equal");
                match &members[0].1 {
                    Value::Bool(equal) => {
                        assert(self@.result->Node_0 =~= seq![("equal"@, Tree::Bool(true))]
                            <==> named && *equal);
                        named && *equal
                    },
                    _ => false,
                }
            },
            _ => false,
        }
    }

    /// Merges the findings `b` into the findings `a`; see [`spec_merge`].
    pub fn merge_results(a: &mut Value, b: &Value)
        ensures
            final(a)@ == spec_merge(old(a)@, b@),
    {
        a.merge(b);
    }
}

impl DiffView {
    /// The write that records the comparison.
    pub open spec fn statement(&self) -> StatementView {
        StatementView {
            query: "INSERT INTO diffs (git_commit, result_path, script, result, technique, file_from, file_to, author, branch) VALUES (?1, ?2, ?3, ?4, ?5, ?6, ?7, ?8, ?9)"@,
            params: seq![
                spec_or_empty(self.git_commit),
                self.result_path,
                spec_or_empty(self.script),
                spec_json(self.result),
                self.technique.spec_name(),
                self.file_from_path,
                self.file_to_path,
                self.author.text(),
                self.branch,
            ],
        }
    }
}

impl LogbookProvider for Diff {
    open spec fn spec_query(&self) -> Seq<char> {
        self@.statement().query
    }

    open spec fn spec_params(&self) -> Seq<Seq<char>> {
        self@.statement().params
    }

    fn query(&self) -> (s: String) {
        String::from_str(
            "INSERT INTO diffs (git_commit, result_path, script, result, technique, file_from, file_to, author, branch) VALUES (?1, ?2, ?3, ?4, ?5, ?6, ?7, ?8, ?9)",
        )
    }

    fn params(&self) -> (p: Vec<String>) {
        let mut p: Vec<String> = Vec::new();
        p.push(or_empty(&self.git_commit));
        p.push(self.result_path.clone());
        p.push(self.script());
        p.push(self.result.to_text());
        p.push(self.technique.name());
        p.push(self.file_from_path.clone());
        p.push(self.file_to_path.clone());
        p.push(self.author.to_text());
        p.push(self.branch.clone());
        assert(spec_texts(p@) =~= self.spec_params());
        p
    }
}

/// The technique a commit compares with, and the script of the custom one.
#[derive(Debug, PartialEq, Eq)]
pub struct Comparaison {
    pub technique: ComparaisonTechnique,
    pub path: Option<String>,
}

/// A [`Comparaison`] as plain values.
pub struct ComparaisonView {
    pub technique: ComparaisonTechnique,
    pub path: Option<Seq<char>>,
}

impl View for Comparaison {
    type V = ComparaisonView;

    open spec fn view(&self) -> ComparaisonView {
        ComparaisonView { technique: self.technique, path: spec_text(self.path) }
    }
}

impl Clone for Comparaison {
    fn clone(&self) -> (r: Self)
        ensures
            r@ == self@,
    {
        Comparaison { technique: self.technique, path: clone_text(&self.path) }
    }
}

impl Default for Comparaison {
    fn default() -> (r: Self)
        ensures
            r@ == (ComparaisonView { technique: ComparaisonTechnique::Smart, path: None }),
    {
        Comparaison { technique: ComparaisonTechnique::Smart, path: None }
    }
}

/// What the hash technique reports of two runs of bytes.
pub open spec fn spec_compare_hash(current: Seq<u8>, previous: Seq<u8>) -> Tree {
    spec_hash_tree(spec_meow(current) == spec_meow(previous))
}

/// What the similarity technique reports. No kind of content has a
/// comparator of its own yet, so every kind is compared by hash.
pub open spec fn spec_compare_similarity(
    content: ContentType,
    current: Seq<u8>,
    previous: Seq<u8>,
) -> Tree {
    spec_compare_hash(current, previous)
}

/// What the smart technique reports: the report by hash, with the report by
/// similarity merged over it where the content is of a specialised kind.
pub open spec fn spec_compare_smart(
    content: ContentType,
    current: Seq<u8>,
    previous: Seq<u8>,
) -> Tree {
    if content.spec_is_specialised() {
        spec_merge(
            spec_compare_hash(current, previous),
            spec_compare_similarity(content, current, previous),
        )
    } else {
        spec_compare_hash(current, previous)
    }
}

/// What the custom technique reports of a run of its script: the output as
/// it stands when the script ended in success, a failure otherwise.
pub open spec fn spec_compare_custom(run: Option<ScriptRunView>) -> Result<Tree, ErrorView> {
    match run {
        Some(r) => if r.status == Some(0i32) {
            Ok(Tree::Text(r.output))
        } else {
            Err(ErrorView::ComparisonScriptFailed { status: r.status })
        },
        None => Err(ErrorView::ComparisonScriptFailed { status: None }),
    }
}

/// The smart technique reports what the hash technique reports, with what
/// the similarity technique reports merged over it for content of a
/// specialised kind, and nothing but the report by hash for any other.
pub proof fn lemma_smart_dispatch(content: ContentType, current: Seq<u8>, previous: Seq<u8>)
    ensures
        content.spec_is_specialised() ==> spec_compare_smart(content, current, previous)
            == spec_merge(
            spec_compare_hash(current, previous),
            spec_compare_similarity(content, current, previous),
        ),
        !content.spec_is_specialised() ==> spec_compare_smart(content, current, previous)
            == spec_compare_hash(current, previous),
{
}

/// While no kind of content has a comparator of its own, the smart technique
/// reports exactly what the hash technique reports.
pub proof fn lemma_smart_is_hash(content: ContentType, current: Seq<u8>, previous: Seq<u8>)
    ensures
        spec_compare_smart(content, current, previous) == spec_compare_hash(current, previous),
{
    let report = spec_compare_hash(current, previous);
    assert(crate::value::spec_unique_keys(report)) by {
        reveal_with_fuel(crate::value::spec_unique_keys, 3);
        assert(report->Node_0.len() == 1);
    }
    crate::value::lemma_merge_self(report);
}

impl ComparaisonView {
    /// What the comparison finds between the snapshot `current` and the
    /// snapshot `previous`, given what was gathered.
    pub open spec fn findings(
        &self,
        current: FileView,
        previous: FileView,
        evidence: EvidenceView,
    ) -> Result<Tree, ErrorView> {
        if self.technique == ComparaisonTechnique::Custom {
            if self.path is None {
                Err(ErrorView::MissingComparisonScript)
            } else {
                spec_compare_custom(evidence.script)
            }
        } else if evidence.current is None {
            Err(ErrorView::SnapshotUnreadable { path: current.path })
        } else if evidence.previous is None {
            Err(ErrorView::SnapshotUnreadable { path: previous.history_path() })
        } else {
            let content = ContentType::spec_of(current.path);
            let now = evidence.current->0;
            let before = evidence.previous->0;
            match self.technique {
                ComparaisonTechnique::Hash => Ok(spec_compare_hash(now, before)),
                ComparaisonTechnique::Similarity => Ok(
                    spec_compare_similarity(content, now, before),
                ),
                _ => Ok(spec_compare_smart(content, now, before)),
            }
        }
    }

    /// The record of the comparison: the findings, between the place of the
    /// previous snapshot and the place of the current one, marked with the
    /// current file's branch and author and with the technique.
    pub open spec fn compare(
        &self,
        current: FileView,
        previous: FileView,
        evidence: EvidenceView,
    ) -> Result<DiffView, ErrorView> {
        match self.findings(current, previous, evidence) {
            Ok(result) => Ok(
                DiffView {
                    pk: None,
                    git_commit: None,
                    result_path: Seq::empty(),
                    script: self.path,
                    result,
                    file_from_path: previous.history_path(),
                    file_to_path: current.history_path(),
                    branch: current.branch,
                    author: current.author,
                    technique: self.technique,
                },
            ),
            Err(e) => Err(e),
        }
    }
}

impl Comparaison {
    /// A comparison by `technique`, with the script of the custom technique.
    pub fn new(technique: &ComparaisonTechnique, path: &Option<String>) -> (r: Self)
        ensures
            r@ == (ComparaisonView { technique: *technique, path: spec_text(*path) }),
    {
        Comparaison { technique: *technique, path: clone_text(path) }
    }

    /// Compares two runs of bytes by their hashes.
    pub fn compare_hash(&self, current: &[u8], previous: &[u8]) -> (r: Value)
        ensures
            r@ == spec_compare_hash(current@, previous@),
    {
        let now = content_hash(current);
        let before = content_hash(previous);
        hash_verdict(&now, &before)
    }

    /// Compares two runs of bytes by what they hold, as content of kind
    /// `content`.
    pub fn compare_similarity(&self, content: ContentType, current: &[u8], previous: &[u8]) -> (r:
        Value)
        ensures
            r@ == spec_compare_similarity(content, current@, previous@),
    {
        match content {
            ContentType::Markdown => self.compare_hash(current, previous),
            ContentType::Columnar => self.compare_hash(current, previous),
            ContentType::Other => self.compare_hash(current, previous),
        }
    }

    /// Compares by hash, and merges the comparison by similarity over it
    /// where `content` is of a specialised kind.
    pub fn compare_smart(&self, content: ContentType, current: &[u8], previous: &[u8]) -> (r:
        Value)
        ensures
            r@ == spec_compare_smart(content, current@, previous@),
    {
        let mut first = self.compare_hash(current, previous);
        if content.is_specialised() {
            let second = self.compare_similarity(content, current, previous);
            Diff::merge_results(&mut first, &second);
        }
        first
    }

    /// Reads the outcome of the comparison script.
    pub fn compare_custom(&self, run: &Option<ScriptRun>) -> (r: Result<Value, Error>)
        ensures
            match r {
                Ok(v) => spec_compare_custom(spec_run(*run)) == Ok::<Tree, ErrorView>(v@),
                Err(e) => spec_compare_custom(spec_run(*run)) == Err::<Tree, ErrorView>(e@),
            },
    {
        match run {
            Some(r) => match r.status {
                Some(code) => {
                    if code == 0 {
                        Ok(Value::String(r.output.clone()))
                    } else {
                        Err(Error::ComparisonScriptFailed { status: r.status })
                    }
                },
                None => Err(Error::ComparisonScriptFailed { status: None }),
            },
            None => Err(Error::ComparisonScriptFailed { status: None }),
        }
    }

    /// Whether the comparison is made by a script rather than by the bytes of
    /// the two snapshots.
    pub fn needs_script(&self) -> (r: bool)
        ensures
            r == (self@.technique == ComparaisonTechnique::Custom),
    {
        match self.technique {
            ComparaisonTechnique::Custom => true,
            _ => false,
        }
    }

    /// What the comparison finds; see [`ComparaisonView::findings`].
    pub fn findings(&self, current: &File, previous: &File, evidence: &Evidence) -> (r: Result<
        Value,
        Error,
    >)
        ensures
            match r {
                Ok(v) => self@.findings(current@, previous@, evidence@) == Ok::<Tree, ErrorView>(
                    v@,
                ),
                Err(e) => self@.findings(current@, previous@, evidence@) == Err::<Tree, ErrorView>(
                    e@,
                ),
            },
    {
        if self.needs_script() {
            if self.path.is_none() {
                return Err(Error::MissingComparisonScript);
            }
            return self.compare_custom(&evidence.script);
        }
        match &evidence.current {
            None => Err(Error::SnapshotUnreadable { path: current.original_path() }),
            Some(now) => match &evidence.previous {
                None => Err(Error::SnapshotUnreadable { path: previous.history_path() }),
                Some(before) => {
                    let content = ContentType::of(current.path.as_str());
                    match self.technique {
                        ComparaisonTechnique::Hash => Ok(
                            self.compare_hash(now.as_slice(), before.as_slice()),
                        ),
                        ComparaisonTechnique::Similarity => Ok(
                            self.compare_similarity(content, now.as_slice(), before.as_slice()),
                        ),
                        _ => Ok(self.compare_smart(content, now.as_slice(), before.as_slice())),
                    }
                },
            },
        }
    }

    /// Compares the snapshot `current` with the snapshot `previous`; see
    /// [`ComparaisonView::compare`].
    pub fn compare(&self, current: &File, previous: &File, evidence: &Evidence) -> (r: Result<
        Diff,
        Error,
    >)
        ensures
            match r {
                Ok(d) => self@.compare(current@, previous@, evidence@) == Ok::<DiffView, ErrorView>(
                    d@,
                ),
                Err(e) => self@.compare(current@, previous@, evidence@) == Err::<
                    DiffView,
                    ErrorView,
                >(e@),
            },
    {
        match self.findings(current, previous, evidence) {
            Ok(result) => {
                let diff = Diff::new(
                    clone_text(&self.path),
                    previous.history_path(),
                    current.history_path(),
                ).set_result(result).set_origin(current, self.technique);
                Ok(diff)
            },
            Err(e) => Err(e),
        }
    }
}

/// A run of the script as plain values, where there was one.
pub open spec fn spec_run(run: Option<ScriptRun>) -> Option<ScriptRunView> {
    match run {
        Some(r) => Some(r@),
        None => None,
    }
}

} // verus!
