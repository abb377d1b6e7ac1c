//! Project settings: where history and logbooks live, who the author is, and
//! which remote storage snapshots go to.

use vstd::prelude::*;
use vstd::string::*;

use crate::error::{Error, ErrorView};
use crate::text::same;

verus! {

/// Which snapshots of a file a push selects.
#[derive(Clone, Copy, Debug, PartialEq, Eq, Structural)]
pub enum PushStrategy {
    /// Every snapshot recorded for the file.
    All,
    /// Only the most recent snapshot.
    Last,
    /// The snapshots whose recorded difference from their predecessor is not trivial.
    Smart,
}

impl PushStrategy {
    /// The name the strategy goes by in settings and logbooks.
    pub open spec fn spec_name(&self) -> Seq<char> {
        match self {
            PushStrategy::All => "all"@,
            PushStrategy::Last => "last"@,
            PushStrategy::Smart => "smart"@,
        }
    }

    /// The name of the strategy.
    pub fn name(&self) -> (s: String)
        ensures
            s@ == self.spec_name(),
    {
        match self {
            PushStrategy::All => String::from_str("all"),
            PushStrategy::Last => String::from_str("last"),
            PushStrategy::Smart => String::from_str("smart"),
        }
    }
}

impl Default for PushStrategy {
    fn default() -> (r: Self)
        ensures
            r == PushStrategy::Smart,
    {
        PushStrategy::Smart
    }
}

/// The storage providers a remote can live on.
#[derive(Clone, Copy, Debug, PartialEq, Eq, Structural)]
pub enum Storage {
    Gcs,
    Koofr,
    Pcloud,
}

impl Storage {
    /// The name the provider goes by in settings and logbooks.
    pub open spec fn spec_name(&self) -> Seq<char> {
        match self {
            Storage::Gcs => "gcs"@,
            Storage::Koofr => "koofr"@,
            Storage::Pcloud => "pcloud"@,
        }
    }

    /// The name of the provider.
    pub fn name(&self) -> (s: String)
        ensures
            s@ == self.spec_name(),
    {
        match self {
            Storage::Gcs => String::from_str("gcs"),
            Storage::Koofr => String::from_str("koofr"),
            Storage::Pcloud => String::from_str("pcloud"),
        }
    }
}

impl Default for Storage {
    fn default() -> (r: Self)
        ensures
            r == Storage::Pcloud,
    {
        Storage::Pcloud
    }
}

/// When output is coloured.
#[derive(Clone, Copy, Debug, PartialEq, Eq, Structural)]
pub enum ColorWhen {
    Always,
    Auto,
    Never,
}

impl ColorWhen {
    /// The name of the choice as written on the command line.
    pub open spec fn spec_name(&self) -> Seq<char> {
        match self {
            ColorWhen::Always => "always"@,
            ColorWhen::Auto => "auto"@,
            ColorWhen::Never => "never"@,
        }
    }

    /// The name of the choice.
    pub fn name(&self) -> (s: String)
        ensures
            s@ == self.spec_name(),
    {
        match self {
            ColorWhen::Always => String::from_str("always"),
            ColorWhen::Auto => String::from_str("auto"),
            ColorWhen::Never => String::from_str("never"),
        }
    }
}

/// A copy of an optional text.
pub fn clone_text(text: &Option<String>) -> (r: Option<String>)
    ensures
        spec_text(r) == spec_text(*text),
{
    match text {
        Some(s) => Some(s.clone()),
        None => None,
    }
}

/// What an optional text holds, as characters.
pub open spec fn spec_text(text: Option<String>) -> Option<Seq<char>> {
    match text {
        Some(s) => Some(s@),
        None => None,
    }
}

/// Who records a snapshot.
#[derive(Debug, PartialEq, Eq)]
pub struct Author {
    pub pk: Option<u32>,
    pub name: String,
    pub email: String,
}

/// An [`Author`] as plain values.
pub struct AuthorView {
    pub pk: Option<u32>,
    pub name: Seq<char>,
    pub email: Seq<char>,
}

impl View for Author {
    type V = AuthorView;

    open spec fn view(&self) -> AuthorView {
        AuthorView { pk: self.pk, name: self.name@, email: self.email@ }
    }
}

impl AuthorView {
    /// The key an author is stored under: name, then the address opened by
    /// ` <` and closed by `<>`.
    pub open spec fn key(&self) -> Seq<char> {
        self.name + " <"@ + self.email + "<>"@
    }

    /// The author as shown to a reader: `name <email>`.
    pub open spec fn text(&self) -> Seq<char> {
        self.name + " <"@ + self.email + ">"@
    }
}

impl Clone for Author {
    fn clone(&self) -> (r: Self)
        ensures
            r@ == self@,
    {
        Author { pk: self.pk, name: self.name.clone(), email: self.email.clone() }
    }
}

impl Default for Author {
    fn default() -> (r: Self)
        ensures
            r@ == (AuthorView { pk: None, name: Seq::empty(), email: Seq::empty() }),
    {
        Author { pk: None, name: String::new(), email: String::new() }
    }
}

impl Author {
    /// An author that no logbook has stored yet.
    pub fn new(name: &str, email: &str) -> (r: Self)
        ensures
            r@ == (AuthorView { pk: None, name: name@, email: email@ }),
    {
        Author { pk: None, name: String::from_str(name), email: String::from_str(email) }
    }

    /// The key this author is stored under in a logbook.
    pub fn pk(&self) -> (s: String)
        ensures
            s@ == self@.key(),
    {
        let s = self.name.clone().concat(" <").concat(self.email.as_str()).concat("<>");
        s
    }

    /// The author as shown to a reader.
    pub fn to_text(&self) -> (s: String)
        ensures
            s@ == self@.text(),
    {
        let s = self.name.clone().concat(" <").concat(self.email.as_str()).concat(">");
        s
    }
}

/// Where the distributed logbook is hosted.
#[derive(Debug, PartialEq, Eq)]
pub struct TursoConfig {
    pub organization: String,
    pub group: String,
    pub location: String,
    pub remote_db: String,
}

/// A [`TursoConfig`] as plain values.
pub struct TursoConfigView {
    pub organization: Seq<char>,
    pub group: Seq<char>,
    pub location: Seq<char>,
    pub remote_db: Seq<char>,
}

impl View for TursoConfig {
    type V = TursoConfigView;

    open spec fn view(&self) -> TursoConfigView {
        TursoConfigView {
            organization: self.organization@,
            group: self.group@,
            location: self.location@,
            remote_db: self.remote_db@,
        }
    }
}

impl Clone for TursoConfig {
    fn clone(&self) -> (r: Self)
        ensures
            r@ == self@,
    {
        TursoConfig {
            organization: self.organization.clone(),
            group: self.group.clone(),
            location: self.location.clone(),
            remote_db: self.remote_db.clone(),
        }
    }
}

/// Something the host of the distributed logbook lists by name: an
/// organization with its slug, or a database with its host name.
#[derive(Debug, PartialEq, Eq)]
pub struct Listed {
    pub name: String,
    pub value: String,
}

/// What is listed, as plain values.
pub open spec fn spec_listing(listing: Seq<Listed>) -> Seq<(Seq<char>, Seq<char>)> {
    Seq::new(listing.len(), |i: int| (listing[i].name@, listing[i].value@))
}

/// The value of the first of `listing` that is named `name`.
pub open spec fn spec_named(listing: Seq<(Seq<char>, Seq<char>)>, name: Seq<char>) -> Option<
    Seq<char>,
>
    decreases listing.len(),
{
    if listing.len() == 0 {
        None
    } else {
        match spec_named(listing.drop_last(), name) {
            Some(v) => Some(v),
            None => if listing.last().0 == name {
                Some(listing.last().1)
            } else {
                None
            },
        }
    }
}

proof fn lemma_named_prefix(listing: Seq<(Seq<char>, Seq<char>)>, name: Seq<char>, k: int)
    requires
        0 <= k <= listing.len(),
        spec_named(listing.take(k), name) is Some,
    ensures
        spec_named(listing, name) == spec_named(listing.take(k), name),
    decreases listing.len(),
{
    if k == listing.len() {
        assert(listing.take(k) =~= listing);
    } else {
        assert(listing.drop_last().take(k) =~= listing.take(k));
        lemma_named_prefix(listing.drop_last(), name, k);
    }
}

/// The value of the first of `listing` that is named `name`.
pub fn named(listing: &Vec<Listed>, name: &str) -> (r: Option<String>)
    ensures
        spec_text(r) == spec_named(spec_listing(listing@), name@),
{
    let ghost all = spec_listing(listing@);
    let mut i: usize = 0;
    assert(all.take(0).len() == 0);
    while i < listing.len()
        invariant
            i <= listing.len(),
            all == spec_listing(listing@),
            spec_named(all.take(i as int), name@) is None,
        decreases listing.len() - i,
    {
        let ghost next = all.take(i + 1);
        assert(next.drop_last() =~= all.take(i as int));
        assert(next.last() == all[i as int]);
        if same(listing[i].name.as_str(), name) {
            proof {
                lemma_named_prefix(all, name@, i + 1);
            }
            return Some(listing[i].value.clone());
        }
        i = i + 1;
    }
    assert(all.take(i as int) =~= all);
    None
}

impl TursoConfigView {
    /// Whether the group has to be looked for: it is not named, or the
    /// database is not.
    pub open spec fn wants_group(&self) -> bool {
        self.group.len() == 0 || self.remote_db.len() == 0
    }
}

impl TursoConfig {
    /// Takes `closest`, the nearest location, where the settings name none.
    pub fn set_default_location(&mut self, closest: &str)
        ensures
            final(self)@ == (TursoConfigView {
                location: spec_or_default(old(self)@.location, closest@),
                ..old(self)@
            }),
    {
        if self.location.as_str().unicode_len() == 0 {
            self.location = String::from_str(closest);
        }
    }

    /// Takes the organization named `personal` among `organizations`, listed
    /// with their slugs, where the settings name none. The answer says
    /// whether the settings name an organization now.
    pub fn set_default_organization(&mut self, organizations: &Vec<Listed>) -> (settled: bool)
        ensures
            final(self)@ == (TursoConfigView {
                organization: if old(self)@.organization.len() == 0 {
                    match spec_named(spec_listing(organizations@), "personal"@) {
                        Some(slug) => slug,
                        None => old(self)@.organization,
                    }
                } else {
                    old(self)@.organization
                },
                ..old(self)@
            }),
            settled == (old(self)@.organization.len() > 0 || spec_named(
                spec_listing(organizations@),
                "personal"@,
            ) is Some),
    {
        if self.organization.as_str().unicode_len() == 0 {
            match named(organizations, "personal") {
                Some(slug) => {
                    self.organization = slug;
                    true
                },
                None => false,
            }
        } else {
            true
        }
    }

    /// Takes the group `yap-default` where the group has to be looked for and
    /// `groups`, the names of the groups there are, has it. The answer says
    /// whether that group has to be made first; [`TursoConfig::set_group`]
    /// then takes the name it was made under.
    pub fn set_default_group(&mut self, groups: &Vec<String>) -> (make: bool)
        ensures
            make == (old(self)@.wants_group() && !spec_texts_hold(groups@, "yap-default"@)),
            final(self)@ == (TursoConfigView {
                group: if old(self)@.wants_group() && spec_texts_hold(groups@, "yap-default"@) {
                    "yap-default"@
                } else {
                    old(self)@.group
                },
                ..old(self)@
            }),
    {
        if self.group.as_str().unicode_len() == 0 || self.remote_db.as_str().unicode_len() == 0 {
            let mut i: usize = 0;
            while i < groups.len()
                invariant
                    i <= groups.len(),
                    self@ == old(self)@,
                    old(self)@.wants_group(),
                    forall|j: int| 0 <= j < i ==> groups@[j]@ != "yap-default"@,
                decreases groups.len() - i,
            {
                if same(groups[i].as_str(), "yap-default") {
                    assert(spec_texts_hold(groups@, "yap-default"@));
                    self.group = String::from_str("yap-default");
                    return false;
                }
                i = i + 1;
            }
            true
        } else {
            false
        }
    }

    /// Takes `name` as the group.
    pub fn set_group(&mut self, name: &str)
        ensures
            final(self)@ == (TursoConfigView { group: name@, ..old(self)@ }),
    {
        self.group = String::from_str(name);
    }

    /// Takes the database `yap-master` among `databases`, listed with their
    /// host names, where the settings name none. The answer says whether
    /// that database has to be made first; [`TursoConfig::set_remote_db`]
    /// then takes the host name it was made under.
    pub fn set_default_remote_db(&mut self, databases: &Vec<Listed>) -> (make: bool)
        ensures
            make == (old(self)@.remote_db.len() == 0 && spec_named(
                spec_listing(databases@),
                "yap-master"@,
            ) is None),
            final(self)@ == (TursoConfigView {
                remote_db: if old(self)@.remote_db.len() == 0 {
                    match spec_named(spec_listing(databases@), "yap-master"@) {
                        Some(host) => "libsql://"@ + host,
                        None => old(self)@.remote_db,
                    }
                } else {
                    old(self)@.remote_db
                },
                ..old(self)@
            }),
    {
        if self.remote_db.as_str().unicode_len() == 0 {
            match named(databases, "yap-master") {
                Some(host) => {
                    self.remote_db = String::from_str("libsql://").concat(host.as_str());
                    false
                },
                None => true,
            }
        } else {
            false
        }
    }

    /// Takes the database at the host `hostname`.
    pub fn set_remote_db(&mut self, hostname: &str)
        ensures
            final(self)@ == (TursoConfigView {
                remote_db: "libsql://"@ + hostname@,
                ..old(self)@
            }),
    {
        self.remote_db = String::from_str("libsql://").concat(hostname);
    }
}

/// Whether one of `texts` is `wanted`.
pub open spec fn spec_texts_hold(texts: Seq<String>, wanted: Seq<char>) -> bool {
    exists|i: int| 0 <= i < texts.len() && texts[i]@ == wanted
}

/// How to reach the remote storage and what to push to it.
#[derive(Debug, PartialEq, Eq)]
pub struct RemoteConfig {
    pub storage: Storage,
    pub root: String,
    pub bucket: Option<String>,
    pub username: Option<String>,
    pub credentials: String,
    pub strategy: PushStrategy,
}

/// A [`RemoteConfig`] as plain values.
pub struct RemoteConfigView {
    pub storage: Storage,
    pub root: Seq<char>,
    pub bucket: Option<Seq<char>>,
    pub username: Option<Seq<char>>,
    pub credentials: Seq<char>,
    pub strategy: PushStrategy,
}

impl View for RemoteConfig {
    type V = RemoteConfigView;

    open spec fn view(&self) -> RemoteConfigView {
        RemoteConfigView {
            storage: self.storage,
            root: self.root@,
            bucket: spec_text(self.bucket),
            username: spec_text(self.username),
            credentials: self.credentials@,
            strategy: self.strategy,
        }
    }
}

impl Clone for RemoteConfig {
    fn clone(&self) -> (r: Self)
        ensures
            r@ == self@,
    {
        RemoteConfig {
            storage: self.storage,
            root: self.root.clone(),
            bucket: clone_text(&self.bucket),
            username: clone_text(&self.username),
            credentials: self.credentials.clone(),
            strategy: self.strategy,
        }
    }
}

impl Default for RemoteConfig {
    fn default() -> (r: Self)
        ensures
            r@ == (RemoteConfigView {
                storage: Storage::Pcloud,
                root: Seq::empty(),
                bucket: None,
                username: None,
                credentials: Seq::empty(),
                strategy: PushStrategy::Smart,
            }),
    {
        RemoteConfig {
            storage: Storage::Pcloud,
            root: String::new(),
            bucket: None,
            username: None,
            credentials: String::new(),
            strategy: PushStrategy::Smart,
        }
    }
}

/// What a storage provider needs in order to be reached, as plain values.
#[derive(Debug, PartialEq, Eq)]
pub enum StorageSettings {
    Gcs {
        bucket: String,
        root: String,
        credential_path: String,
        predefined_acl: String,
        default_storage_class: String,
    },
    Koofr { root: String, endpoint: String, email: String, password: String },
    Pcloud { root: String, endpoint: String, username: String, password: String },
}

/// [`StorageSettings`] as plain values.
pub enum StorageSettingsView {
    Gcs {
        bucket: Seq<char>,
        root: Seq<char>,
        credential_path: Seq<char>,
        predefined_acl: Seq<char>,
        default_storage_class: Seq<char>,
    },
    Koofr { root: Seq<char>, endpoint: Seq<char>, email: Seq<char>, password: Seq<char> },
    Pcloud { root: Seq<char>, endpoint: Seq<char>, username: Seq<char>, password: Seq<char> },
}

impl View for StorageSettings {
    type V = StorageSettingsView;

    open spec fn view(&self) -> StorageSettingsView {
        match self {
            StorageSettings::Gcs {
                bucket,
                root,
                credential_path,
                predefined_acl,
                default_storage_class,
            } => StorageSettingsView::Gcs {
                bucket: bucket@,
                root: root@,
                credential_path: credential_path@,
                predefined_acl: predefined_acl@,
                default_storage_class: default_storage_class@,
            },
            StorageSettings::Koofr { root, endpoint, email, password } => StorageSettingsView::Koofr {
                root: root@,
                endpoint: endpoint@,
                email: email@,
                password: password@,
            },
            StorageSettings::Pcloud {
                root,
                endpoint,
                username,
                password,
            } => StorageSettingsView::Pcloud {
                root: root@,
                endpoint: endpoint@,
                username: username@,
                password: password@,
            },
        }
    }
}

impl RemoteConfigView {
    /// The settings of the chosen provider, given the password that the
    /// environment holds under the name in `credentials`. Koofr and pCloud
    /// need a user name; Google Cloud Storage reads `credentials` as the path
    /// of a key file and always uses the bucket `yap-default`.
    pub open spec fn settings(&self, password: Seq<char>) -> Result<StorageSettingsView, ErrorView> {
        match self.storage {
            Storage::Gcs => Ok(
                StorageSettingsView::Gcs {
                    bucket: "yap-default"@,
                    root: self.root,
                    credential_path: self.credentials,
                    predefined_acl: "publicRead"@,
                    default_storage_class: "STANDARD"@,
                },
            ),
            Storage::Koofr => match self.username {
                Some(email) => Ok(
                    StorageSettingsView::Koofr {
                        root: self.root,
                        endpoint: "https://api.koofr.net"@,
                        email,
                        password,
                    },
                ),
                None => Err(ErrorView::MissingUsername),
            },
            Storage::Pcloud => match self.username {
                Some(username) => Ok(
                    StorageSettingsView::Pcloud {
                        root: self.root,
                        endpoint: "https://eapi.pcloud.com"@,
                        username,
                        password,
                    },
                ),
                None => Err(ErrorView::MissingUsername),
            },
        }
    }
}

impl RemoteConfig {
    /// The same settings with another push strategy.
    pub fn set_strategy(self, strategy: &PushStrategy) -> (r: Self)
        ensures
            r@ == (RemoteConfigView { strategy: *strategy, ..self@ }),
    {
        let mut r = self;
        r.strategy = *strategy;
        r
    }

    /// The same settings with another storage provider.
    pub fn set_storage(self, storage: &Storage) -> (r: Self)
        ensures
            r@ == (RemoteConfigView { storage: *storage, ..self@ }),
    {
        let mut r = self;
        r.storage = *storage;
        r
    }

    /// What the chosen provider needs in order to be reached; see
    /// [`RemoteConfigView::settings`].
    pub fn storage_settings(&self, password: &str) -> (r: Result<StorageSettings, Error>)
        ensures
            match r {
                Ok(s) => self@.settings(password@) == Ok::<StorageSettingsView, ErrorView>(s@),
                Err(e) => self@.settings(password@) == Err::<StorageSettingsView, ErrorView>(e@),
            },
    {
        match self.storage {
            Storage::Gcs => Ok(
                StorageSettings::Gcs {
                    bucket: String::from_str("yap-default"),
                    root: self.root.clone(),
                    credential_path: self.credentials.clone(),
                    predefined_acl: String::from_str("publicRead"),
                    default_storage_class: String::from_str("STANDARD"),
                },
            ),
            Storage::Koofr => match &self.username {
                Some(email) => Ok(
                    StorageSettings::Koofr {
                        root: self.root.clone(),
                        endpoint: String::from_str("https://api.koofr.net"),
                        email: email.clone(),
                        password: String::from_str(password),
                    },
                ),
                None => Err(Error::MissingUsername),
            },
            Storage::Pcloud => match &self.username {
                Some(username) => Ok(
                    StorageSettings::Pcloud {
                        root: self.root.clone(),
                        endpoint: String::from_str("https://eapi.pcloud.com"),
                        username: username.clone(),
                        password: String::from_str(password),
                    },
                ),
                None => Err(Error::MissingUsername),
            },
        }
    }
}

/// The settings of one project.
#[derive(Debug, PartialEq, Eq)]
pub struct Config {
    pub local_db: String,
    pub logbooks_dir: String,
    pub history_dir: String,
    pub distributed_logbook: Option<TursoConfig>,
    pub remote: RemoteConfig,
    pub author: Author,
}

/// A [`Config`] as plain values.
pub struct ConfigView {
    pub local_db: Seq<char>,
    pub logbooks_dir: Seq<char>,
    pub history_dir: Seq<char>,
    pub distributed_logbook: Option<TursoConfigView>,
    pub remote: RemoteConfigView,
    pub author: AuthorView,
}

impl View for Config {
    type V = ConfigView;

    open spec fn view(&self) -> ConfigView {
        ConfigView {
            local_db: self.local_db@,
            logbooks_dir: self.logbooks_dir@,
            history_dir: self.history_dir@,
            distributed_logbook: match self.distributed_logbook {
                Some(t) => Some(t@),
                None => None,
            },
            remote: self.remote@,
            author: self.author@,
        }
    }
}

/// `path` below the directory that holds everything the project keeps.
pub open spec fn spec_root(path: Seq<char>) -> Seq<char> {
    ".yap/"@ + path
}

/// `name`, or `fallback` when `name` is empty.
pub open spec fn spec_or_default(name: Seq<char>, fallback: Seq<char>) -> Seq<char> {
    if name.len() == 0 {
        fallback
    } else {
        name
    }
}

impl Config {
    /// The settings of a project, from their parts.
    pub fn new(
        local_db: String,
        logbooks_dir: String,
        history_dir: String,
        distributed_logbook: Option<TursoConfig>,
        remote: RemoteConfig,
        author: Author,
    ) -> (r: Config)
        ensures
            r.local_db == local_db,
            r.logbooks_dir == logbooks_dir,
            r.history_dir == history_dir,
            r.distributed_logbook == distributed_logbook,
            r.remote == remote,
            r.author == author,
    {
        Config { local_db, logbooks_dir, history_dir, distributed_logbook, remote, author }
    }

    /// The author snapshots are recorded under.
    pub fn author(&self) -> (r: Author)
        ensures
            r@ == self@.author,
    {
        self.author.clone()
    }

    /// The remote settings snapshots are pushed with.
    pub fn remote_storage(&self) -> (r: RemoteConfig)
        ensures
            r@ == self@.remote,
    {
        self.remote.clone()
    }

    /// `path` below the project's own directory.
    pub fn root(&self, path: &str) -> (r: String)
        ensures
            r@ == spec_root(path@),
    {
        String::from_str(".yap/").concat(path)
    }

    /// Where the master logbook is stored.
    pub fn local_db(&self) -> (r: String)
        ensures
            r@ == spec_root(self@.local_db),
    {
        self.root(self.local_db.as_str())
    }

    /// The directory that holds the logbook of each file.
    pub fn logbooks_dir(&self) -> (r: String)
        ensures
            r@ == spec_root(self@.logbooks_dir),
    {
        self.root(self.logbooks_dir.as_str())
    }

    /// The directory that holds the snapshots of each file.
    pub fn history_dir(&self) -> (r: String)
        ensures
            r@ == spec_root(self@.history_dir),
    {
        self.root(self.history_dir.as_str())
    }

    /// Names the master logbook `logbook.db` when the settings leave it unnamed.
    pub fn set_default_local_db(&mut self)
        ensures
            final(self)@ == (ConfigView {
                local_db: spec_or_default(old(self)@.local_db, "logbook.db"@),
                ..old(self)@
            }),
    {
        if self.local_db.as_str().unicode_len() == 0 {
            self.local_db = String::from_str("logbook.db");
        }
    }

    /// Names the history directory `history` when the settings leave it unnamed.
    pub fn set_default_history_dir(&mut self)
        ensures
            final(self)@ == (ConfigView {
                history_dir: spec_or_default(old(self)@.history_dir, "history"@),
                ..old(self)@
            }),
    {
        if self.history_dir.as_str().unicode_len() == 0 {
            self.history_dir = String::from_str("history");
        }
    }

    /// Names the logbooks directory `logbooks` when the settings leave it unnamed.
    pub fn set_default_logbooks_dir(&mut self)
        ensures
            final(self)@ == (ConfigView {
                logbooks_dir: spec_or_default(old(self)@.logbooks_dir, "logbooks"@),
                ..old(self)@
            }),
    {
        if self.logbooks_dir.as_str().unicode_len() == 0 {
            self.logbooks_dir = String::from_str("logbooks");
        }
    }
}

} // verus!
