use yap::config::{
    named, Author, ColorWhen, Config, Listed, PushStrategy, RemoteConfig, Storage,
    StorageSettings, TursoConfig,
};
use yap::error::Error;

fn text(s: &str) -> String {
    s.to_string()
}

fn config() -> Config {
    Config::new(
        text("logbook.db"),
        text("logbooks"),
        text("history"),
        None,
        RemoteConfig::default(),
        Author::new("Ann", "ann@example.org"),
    )
}

#[test]
fn names_of_strategies_storages_and_colours() {
    assert_eq!(PushStrategy::All.name(), "all");
    assert_eq!(PushStrategy::Last.name(), "last");
    assert_eq!(PushStrategy::Smart.name(), "smart");
    assert_eq!(Storage::Gcs.name(), "gcs");
    assert_eq!(Storage::Koofr.name(), "koofr");
    assert_eq!(Storage::Pcloud.name(), "pcloud");
    assert_eq!(ColorWhen::Always.name(), "always");
    assert_eq!(ColorWhen::Auto.name(), "auto");
    assert_eq!(ColorWhen::Never.name(), "never");
    assert_eq!(PushStrategy::default(), PushStrategy::Smart);
    assert_eq!(Storage::default(), Storage::Pcloud);
}

#[test]
fn author_key_and_text() {
    let a = Author::new("Ann", "ann@example.org");
    assert_eq!(a.pk(), "Ann <ann@example.org<>");
    assert_eq!(a.to_text(), "Ann <ann@example.org>");
    assert_eq!(a.pk, None);
    assert_eq!(Author::default().pk(), " <<>");
    assert_eq!(a.clone(), a);
}

#[test]
fn everything_lives_below_the_project_directory() {
    let c = config();
    assert_eq!(c.root("x/y"), ".yap/x/y");
    assert_eq!(c.root(""), ".yap/");
    assert_eq!(c.local_db(), ".yap/logbook.db");
    assert_eq!(c.logbooks_dir(), ".yap/logbooks");
    assert_eq!(c.history_dir(), ".yap/history");
    assert_eq!(c.author(), Author::new("Ann", "ann@example.org"));
    assert_eq!(c.remote_storage(), RemoteConfig::default());
}

#[test]
fn defaults_fill_only_what_is_empty() {
    let mut c = Config::new(
        text(""),
        text(""),
        text(""),
        None,
        RemoteConfig::default(),
        Author::default(),
    );
    c.set_default_local_db();
    c.set_default_history_dir();
    c.set_default_logbooks_dir();
    assert_eq!(c.local_db, "logbook.db");
    assert_eq!(c.history_dir, "history");
    assert_eq!(c.logbooks_dir, "logbooks");

    let mut c = Config::new(
        text("m.db"),
        text("l"),
        text("h"),
        Some(TursoConfig {
            organization: text("o"),
            group: text("g"),
            location: text("l"),
            remote_db: text("r"),
        }),
        RemoteConfig::default(),
        Author::default(),
    );
    let before = Config::new(
        text("m.db"),
        text("l"),
        text("h"),
        c.distributed_logbook.clone(),
        RemoteConfig::default(),
        Author::default(),
    );
    c.set_default_local_db();
    c.set_default_history_dir();
    c.set_default_logbooks_dir();
    assert_eq!(c, before);
}

#[test]
fn remote_settings_can_be_changed_one_at_a_time() {
    let r = RemoteConfig::default();
    assert_eq!(r.storage, Storage::Pcloud);
    assert_eq!(r.strategy, PushStrategy::Smart);
    let r = r.set_strategy(&PushStrategy::All);
    assert_eq!(r.strategy, PushStrategy::All);
    assert_eq!(r.storage, Storage::Pcloud);
    let r = r.set_storage(&Storage::Gcs);
    assert_eq!(r.storage, Storage::Gcs);
    assert_eq!(r.strategy, PushStrategy::All);
    assert_eq!(r.root, "");
}

#[test]
fn storage_settings_of_each_provider() {
    let mut r = RemoteConfig::default();
    r.root = text("/backups");
    r.credentials = text("YAP_PASSWORD");
    assert_eq!(r.storage_settings("secret"), Err(Error::MissingUsername));
    r.username = Some(text("ann@example.org"));
    assert_eq!(
        r.storage_settings("secret"),
        Ok(StorageSettings::Pcloud {
            root: text("/backups"),
            endpoint: text("https://eapi.pcloud.com"),
            username: text("ann@example.org"),
            password: text("secret"),
        })
    );
    let k = r.clone().set_storage(&Storage::Koofr);
    assert_eq!(
        k.storage_settings("secret"),
        Ok(StorageSettings::Koofr {
            root: text("/backups"),
            endpoint: text("https://api.koofr.net"),
            email: text("ann@example.org"),
            password: text("secret"),
        })
    );
    let mut nameless = k.clone();
    nameless.username = None;
    assert_eq!(nameless.storage_settings("secret"), Err(Error::MissingUsername));
    let mut g = r.set_storage(&Storage::Gcs);
    g.username = None;
    g.credentials = text("key.json");
    assert_eq!(
        g.storage_settings("ignored"),
        Ok(StorageSettings::Gcs {
            bucket: text("yap-default"),
            root: text("/backups"),
            credential_path: text("key.json"),
            predefined_acl: text("publicRead"),
            default_storage_class: text("STANDARD"),
        })
    );
}

fn listed(entries: &[(&str, &str)]) -> Vec<Listed> {
    entries
        .iter()
        .map(|(n, v)| Listed { name: n.to_string(), value: v.to_string() })
        .collect()
}

fn turso() -> TursoConfig {
    TursoConfig {
        organization: text(""),
        group: text(""),
        location: text(""),
        remote_db: text(""),
    }
}

#[test]
fn the_first_entry_of_a_name_is_the_one_found() {
    let all = listed(&[("work", "w1"), ("personal", "p1"), ("personal", "p2")]);
    assert_eq!(named(&all, "personal"), Some(text("p1")));
    assert_eq!(named(&all, "work"), Some(text("w1")));
    assert_eq!(named(&all, "home"), None);
    assert_eq!(named(&Vec::new(), "home"), None);
}

#[test]
fn the_distributed_logbook_takes_its_defaults() {
    let mut t = turso();
    t.set_default_location("ams");
    assert_eq!(t.location, "ams");
    t.set_default_location("fra");
    assert_eq!(t.location, "ams");

    assert!(!t.set_default_organization(&listed(&[("work", "w1")])));
    assert_eq!(t.organization, "");
    assert!(t.set_default_organization(&listed(&[("work", "w1"), ("personal", "p1")])));
    assert_eq!(t.organization, "p1");
    assert!(t.set_default_organization(&Vec::new()));
    assert_eq!(t.organization, "p1");

    assert!(t.set_default_group(&vec![text("other")]));
    assert_eq!(t.group, "");
    assert!(t.set_default_group(&Vec::new()));
    assert!(!t.set_default_group(&vec![text("other"), text("yap-default")]));
    assert_eq!(t.group, "yap-default");

    assert!(t.set_default_remote_db(&listed(&[("other", "o.example")])));
    assert_eq!(t.remote_db, "");
    assert!(!t.set_default_remote_db(&listed(&[("yap-master", "m.example")])));
    assert_eq!(t.remote_db, "libsql://m.example");
    assert!(!t.set_default_remote_db(&Vec::new()));
    assert_eq!(t.remote_db, "libsql://m.example");
    assert!(!t.set_default_group(&Vec::new()));
    assert_eq!(t.group, "yap-default");
}

#[test]
fn a_group_is_looked_for_again_while_the_database_is_unnamed() {
    let mut t = turso();
    t.set_group("mine");
    assert_eq!(t.group, "mine");
    assert!(!t.set_default_group(&vec![text("yap-default")]));
    assert_eq!(t.group, "yap-default");
    t.set_remote_db("made.example");
    assert_eq!(t.remote_db, "libsql://made.example");
    t.set_group("mine");
    assert!(!t.set_default_group(&vec![text("yap-default")]));
    assert_eq!(t.group, "mine");
}
