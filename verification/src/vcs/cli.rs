//! The operations a user can ask for, and the events they leave behind.

use vstd::prelude::*;
use vstd::string::*;

use crate::config::{spec_text, Config, ConfigView, PushStrategy, RemoteConfigView, Storage};
use crate::error::{Error, ErrorView};
use crate::vcs::comparaison::{ComparaisonTechnique, ComparaisonView};
use crate::vcs::facade::FileFacade;
use crate::vcs::factory::{FileFacadeFactory, FileFacadeFactoryView};
use crate::vcs::file::{clone_texts, spec_texts};
use crate::vcs::logbook::{spec_steps, Logbook, Step, StepView};
use crate::vcs::remote::Snapshot;

verus! {

/// The kinds of event the master logbook records, one per operation that
/// succeeded on a file.
#[derive(Clone, Copy, Debug, PartialEq, Eq, Structural)]
pub enum Events {
    Add,
    Commit,
    Pull,
    Push,
    Remove,
}

impl Events {
    /// The name an event is recorded under.
    pub open spec fn spec_name(&self) -> Seq<char> {
        match self {
            Events::Add => "Add"@,
            Events::Commit => "Commit"@,
            Events::Pull => "Pull"@,
            Events::Push => "Push"@,
            Events::Remove => "Remove"@,
        }
    }

    /// The name of the event.
    pub fn name(&self) -> (s: String)
        ensures
            s@ == self.spec_name(),
    {
        match self {
            Events::Add => String::from_str("Add"),
            Events::Commit => String::from_str("Commit"),
            Events::Pull => String::from_str("Pull"),
            Events::Push => String::from_str("Push"),
            Events::Remove => String::from_str("Remove"),
        }
    }
}

/// The branch an operation works on: the one asked for, or the branch the
/// surrounding repository is on.
pub open spec fn spec_branch(asked: Option<Seq<char>>, current: Seq<char>) -> Seq<char> {
    match asked {
        Some(b) => b,
        None => current,
    }
}

/// The branch an operation works on; see [`spec_branch`].
pub fn branch_or(asked: &Option<String>, current: &str) -> (r: String)
    ensures
        r@ == spec_branch(spec_text(*asked), current@),
{
    match asked {
        Some(b) => b.clone(),
        None => String::from_str(current),
    }
}

/// `text` without the white space at its ends, as `str::trim` has it.
pub uninterp spec fn spec_trim(text: Seq<char>) -> Seq<char>;

/// Takes the white space off the ends of `text` with `str::trim`. The answer
/// depends on the text alone; nothing more is claimed of it.
#[verifier::external_body]
fn trimmed(text: &str) -> (r: String)
    ensures
        r@ == spec_trim(text@),
{
    text.trim().to_owned()
}

/// The branch the surrounding repository is on: what it answered, without
/// the white space at the ends, or `master` where it gave no answer.
pub open spec fn spec_git_branch(answer: Option<Seq<char>>) -> Seq<char> {
    match answer {
        Some(out) => spec_trim(out),
        None => "master"@,
    }
}

/// The branch the surrounding repository is on; see [`spec_git_branch`].
pub fn get_git_branch(answer: &Option<String>) -> (r: String)
    ensures
        r@ == spec_git_branch(spec_text(*answer)),
{
    match answer {
        Some(out) => trimmed(out.as_str()),
        None => String::from_str("master"),
    }
}

/// Start tracking files.
#[derive(Debug, PartialEq, Eq)]
pub struct Add {
    pub paths: Vec<String>,
    pub branch: Option<String>,
}

impl Add {
    /// The source of the contexts of the batch.
    pub fn get_files_factory(&self, config: &Config, current_branch: &str, timestamp: i64) -> (r:
        FileFacadeFactory)
        ensures
            r@ == FileFacadeFactoryView::start(
                spec_texts(self.paths@),
                spec_branch(spec_text(self.branch), current_branch@),
                config@,
                timestamp as int,
            ),
    {
        let branch = branch_or(&self.branch, current_branch);
        FileFacadeFactory::new(clone_texts(&self.paths), branch.as_str(), config, timestamp)
    }

    /// The plan for one file of the batch: nothing for a file that is
    /// tracked already.
    pub fn handle_file_facade(&self, file: &FileFacade, root_logbook: &Logbook) -> (plan: Vec<Step>)
        ensures
            spec_steps(plan@) == file@.add_plan(root_logbook@),
    {
        file.add(root_logbook)
    }
}

/// Commit files: compare each with its previous snapshot and take a new one.
#[derive(Debug, PartialEq, Eq)]
pub struct Commit {
    pub paths: Vec<String>,
    pub branch: Option<String>,
    pub message: String,
    pub comparaison: ComparaisonTechnique,
    /// The script to run when the technique is the custom one.
    pub script: Option<String>,
}

impl Commit {
    /// The source of the contexts of the batch.
    pub fn get_files_factory(&self, config: &Config, current_branch: &str, timestamp: i64) -> (r:
        FileFacadeFactory)
        ensures
            r@ == (FileFacadeFactoryView {
                message: Some(self.message@),
                comparaison: Some(
                    ComparaisonView { technique: self.comparaison, path: spec_text(self.script) },
                ),
                ..FileFacadeFactoryView::start(
                    spec_texts(self.paths@),
                    spec_branch(spec_text(self.branch), current_branch@),
                    config@,
                    timestamp as int,
                )
            }),
    {
        let branch = branch_or(&self.branch, current_branch);
        FileFacadeFactory::new(
            clone_texts(&self.paths),
            branch.as_str(),
            config,
            timestamp,
        ).set_message(self.message.as_str()).set_comparaison(&self.comparaison, &self.script)
    }
}

/// The remote settings of a batch: those of the project, on another storage
/// or under another strategy where one is asked for.
pub open spec fn spec_remote(
    config: ConfigView,
    remote: Option<Storage>,
    strategy: Option<PushStrategy>,
) -> RemoteConfigView {
    RemoteConfigView {
        storage: match remote {
            Some(s) => s,
            None => config.remote.storage,
        },
        strategy: match strategy {
            Some(s) => s,
            None => config.remote.strategy,
        },
        ..config.remote
    }
}

/// Push files to the remote.
#[derive(Debug, PartialEq, Eq)]
pub struct Push {
    pub paths: Vec<String>,
    pub branch: Option<String>,
    pub remote: Option<Storage>,
    pub strategy: Option<PushStrategy>,
    pub compress: bool,
}

impl Push {
    /// The source of the contexts of the batch.
    pub fn get_files_factory(&self, config: &Config, current_branch: &str, timestamp: i64) -> (r:
        FileFacadeFactory)
        ensures
            r@ == (FileFacadeFactoryView {
                remote: Some(spec_remote(config@, self.remote, self.strategy)),
                ..FileFacadeFactoryView::start(
                    spec_texts(self.paths@),
                    spec_branch(spec_text(self.branch), current_branch@),
                    config@,
                    timestamp as int,
                )
            }),
    {
        let branch = branch_or(&self.branch, current_branch);
        FileFacadeFactory::new(
            clone_texts(&self.paths),
            branch.as_str(),
            config,
            timestamp,
        ).set_remote(config, &self.remote, &self.strategy)
    }

    /// The plan for one file of the batch; see [`FileFacade::push`].
    pub fn handle_file_facade(
        &self,
        file: &FileFacade,
        snapshots: &Vec<Snapshot>,
        last_pushed: Option<i64>,
    ) -> (r: Result<Vec<Step>, Error>)
        ensures
            match r {
                Ok(plan) => file@.push_plan(snapshots@, last_pushed) == Ok::<
                    Seq<StepView>,
                    ErrorView,
                >(spec_steps(plan@)),
                Err(e) => file@.push_plan(snapshots@, last_pushed) == Err::<
                    Seq<StepView>,
                    ErrorView,
                >(e@),
            },
    {
        file.push(snapshots, last_pushed)
    }
}

/// Remove the remote copies of files.
#[derive(Debug, PartialEq, Eq)]
pub struct Remove {
    pub paths: Vec<String>,
    pub branch: Option<String>,
    pub commit: Option<u32>,
    pub remote: Option<Storage>,
    pub which: bool,
}

impl Remove {
    /// The source of the contexts of the batch.
    pub fn get_files_factory(&self, config: &Config, current_branch: &str, timestamp: i64) -> (r:
        FileFacadeFactory)
        ensures
            r@ == (FileFacadeFactoryView {
                remote: Some(spec_remote(config@, self.remote, None)),
                ..FileFacadeFactoryView::start(
                    spec_texts(self.paths@),
                    spec_branch(spec_text(self.branch), current_branch@),
                    config@,
                    timestamp as int,
                )
            }),
    {
        let branch = branch_or(&self.branch, current_branch);
        FileFacadeFactory::new(
            clone_texts(&self.paths),
            branch.as_str(),
            config,
            timestamp,
        ).set_remote(config, &self.remote, &None)
    }

    /// The plan for one file of the batch.
    pub fn handle_file_facade(&self, file: &FileFacade) -> (r: Result<Vec<Step>, Error>)
        ensures
            match r {
                Ok(plan) => file@.remove_plan() == Ok::<Seq<StepView>, ErrorView>(
                    spec_steps(plan@),
                ),
                Err(e) => file@.remove_plan() == Err::<Seq<StepView>, ErrorView>(e@),
            },
    {
        file.remove()
    }
}

/// Pull files from the remote.
#[derive(Debug, PartialEq, Eq)]
pub struct Pull {
    pub paths: Vec<String>,
    pub branch: Option<String>,
    pub remote: Option<Storage>,
}

impl Pull {
    /// The source of the contexts of the batch.
    pub fn get_files_factory(&self, config: &Config, current_branch: &str, timestamp: i64) -> (r:
        FileFacadeFactory)
        ensures
            r@ == (FileFacadeFactoryView {
                remote: Some(spec_remote(config@, self.remote, None)),
                ..FileFacadeFactoryView::start(
                    spec_texts(self.paths@),
                    spec_branch(spec_text(self.branch), current_branch@),
                    config@,
                    timestamp as int,
                )
            }),
    {
        let branch = branch_or(&self.branch, current_branch);
        FileFacadeFactory::new(
            clone_texts(&self.paths),
            branch.as_str(),
            config,
            timestamp,
        ).set_remote(config, &self.remote, &None)
    }

    /// The plan for one file of the batch.
    pub fn handle_file_facade(&self, file: &FileFacade) -> (r: Result<Vec<Step>, Error>)
        ensures
            match r {
                Ok(plan) => file@.pull_plan() == Ok::<Seq<StepView>, ErrorView>(
                    spec_steps(plan@),
                ),
                Err(e) => file@.pull_plan() == Err::<Seq<StepView>, ErrorView>(e@),
            },
    {
        file.pull()
    }
}

/// `lines`, each but the last followed by a line feed.
pub open spec fn spec_lines(lines: Seq<Seq<char>>) -> Seq<char>
    decreases lines.len(),
{
    if lines.len() == 0 {
        Seq::empty()
    } else if lines.len() == 1 {
        lines[0]
    } else {
        spec_lines(lines.drop_last()) + seq!['\n'] + lines.last()
    }
}

/// Show the tracked files.
#[derive(Debug, PartialEq, Eq)]
pub struct Show {
    pub paths: Vec<String>,
    pub branch: Option<String>,
    pub commit: Option<String>,
}

impl Show {
    /// What is shown: the paths of the tracked files in the order of the
    /// index, one to a line.
    pub fn run(&self, root_logbook: &Logbook) -> (r: String)
        ensures
            r@ == spec_lines(
                Seq::new(root_logbook@.files.len(), |i: int| root_logbook@.files[i].path),
            ),
    {
        let paths = root_logbook.files_tracked();
        let ghost lines = spec_texts(paths@);
        let mut r = String::new();
        let mut i: usize = 0;
        assert(lines.take(0) =~= Seq::empty());
        while i < paths.len()
            invariant
                i <= paths.len(),
                lines == spec_texts(paths@),
                r@ == spec_lines(lines.take(i as int)),
            decreases paths.len() - i,
        {
            let ghost next = lines.take(i + 1);
            assert(next.drop_last() =~= lines.take(i as int));
            assert(next.last() == paths@[i as int]@);
            if i > 0 {
                proof {
                    reveal_strlit("\n");
                }
                r.append("\n");
            }
            r.append(paths[i].as_str());
            assert(r@ =~= spec_lines(next));
            i = i + 1;
        }
        assert(lines.take(i as int) =~= lines);
        r
    }
}

} // verus!
