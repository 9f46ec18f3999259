use ettac::context::{
    resolve_host, AuthMethod, Host, HostTable, PartialHost, PartialSshCredentials, SshCredentials,
};
use ettac::error::SetupError;

fn s(text: &str) -> String {
    text.to_string()
}

fn partial_ssh() -> PartialSshCredentials {
    PartialSshCredentials { hostname: None, port: None, user: None, credential: None }
}

fn table() -> HostTable<u32> {
    HostTable {
        recipe: None,
        repository: None,
        keep_releases: None,
        persistent_files: None,
        persistent_dirs: None,
        labels: None,
        hostname: None,
        port: None,
        user: None,
        password: None,
        private_key: None,
        passphrase: None,
        path: None,
    }
}

fn full_partial() -> PartialHost<u32> {
    PartialHost {
        recipe: Some(7),
        repository: Some(s("git@example.com:app.git")),
        keep_releases: None,
        persistent_files: None,
        persistent_dirs: None,
        labels: None,
        ssh: None,
        path: Some(s("/srv/app")),
    }
}

#[test]
fn empty_credentials_are_empty() {
    assert!(partial_ssh().is_empty());
    assert!(!PartialSshCredentials { port: Some(22), ..partial_ssh() }.is_empty());
    assert!(!PartialSshCredentials { user: Some(s("bob")), ..partial_ssh() }.is_empty());
}

#[test]
fn complete_credentials_default_port() {
    let p = PartialSshCredentials {
        hostname: Some(s("example.com")),
        port: None,
        user: Some(s("bob")),
        credential: Some(AuthMethod::Password(s("secret"))),
    };
    assert_eq!(
        SshCredentials::try_from(p),
        Ok(SshCredentials {
            hostname: s("example.com"),
            port: 22,
            user: s("bob"),
            credential: AuthMethod::Password(s("secret")),
        })
    );
}

#[test]
fn complete_credentials_keep_port() {
    let p = PartialSshCredentials {
        hostname: Some(s("h")),
        port: Some(2222),
        user: Some(s("u")),
        credential: Some(AuthMethod::Key(s("a2V5"), None)),
    };
    assert_eq!(SshCredentials::try_from(p).unwrap().port, 2222);
}

#[test]
fn missing_credentials_are_listed_in_order() {
    assert_eq!(
        SshCredentials::try_from(partial_ssh()),
        Err(SetupError::MissingCredentials(vec!["hostname", "user", "password or private_key"]))
    );
    let p = PartialSshCredentials { user: Some(s("bob")), port: Some(1), ..partial_ssh() };
    assert_eq!(
        SshCredentials::try_from(p),
        Err(SetupError::MissingCredentials(vec!["hostname", "password or private_key"]))
    );
}

#[test]
fn option_from_partial_credentials() {
    let none: Option<SshCredentials> = partial_ssh().into();
    assert_eq!(none, None);
    let p = PartialSshCredentials {
        hostname: Some(s("h")),
        port: None,
        user: Some(s("u")),
        credential: Some(AuthMethod::Password(s("p"))),
    };
    let some: Option<SshCredentials> = p.into();
    assert_eq!(some.unwrap().hostname, "h");
}

#[test]
fn apply_some_replaces_given_fields() {
    let mut base = full_partial();
    base.labels = Some(vec![s("web")]);
    let top = PartialHost {
        repository: Some(s("other")),
        keep_releases: Some(5),
        ..PartialHost::default()
    };
    assert!(base.apply_some(top));
    assert_eq!(base.repository, Some(s("other")));
    assert_eq!(base.keep_releases, Some(5));
    assert_eq!(base.labels, Some(vec![s("web")]));
    assert_eq!(base.recipe, Some(7));
}

#[test]
fn apply_some_with_nothing_changes_nothing() {
    let mut base = full_partial();
    assert!(!base.apply_some(PartialHost::default()));
    assert_eq!(base, full_partial());
}

#[test]
fn apply_some_replaces_whole_ssh_settings() {
    let mut base = full_partial();
    base.ssh = Some(PartialSshCredentials {
        hostname: Some(s("h")),
        user: Some(s("u")),
        ..partial_ssh()
    });
    let top = PartialHost {
        ssh: Some(PartialSshCredentials { port: Some(2222), ..partial_ssh() }),
        ..PartialHost::default()
    };
    base.apply_some(top);
    assert_eq!(base.ssh, Some(PartialSshCredentials { port: Some(2222), ..partial_ssh() }));
}

#[test]
fn host_from_complete_settings() {
    let host = Host::try_from(full_partial()).unwrap();
    assert_eq!(
        host,
        Host {
            recipe: 7,
            repository: s("git@example.com:app.git"),
            keep_releases: 0,
            persistent_files: vec![],
            persistent_dirs: vec![],
            labels: vec![],
            ssh: None,
            path: s("/srv/app"),
        }
    );
}

#[test]
fn host_errors_come_in_order() {
    let mut p = full_partial();
    p.recipe = None;
    p.repository = None;
    assert_eq!(Host::try_from(p), Err(SetupError::MissingRecipe));

    let mut p = full_partial();
    p.repository = None;
    p.path = None;
    assert_eq!(Host::try_from(p), Err(SetupError::MissingRepository));

    let mut p = full_partial();
    p.path = None;
    p.ssh = Some(PartialSshCredentials { port: Some(22), ..partial_ssh() });
    assert_eq!(
        Host::try_from(p),
        Err(SetupError::MissingCredentials(vec!["hostname", "user", "password or private_key"]))
    );

    let mut p = full_partial();
    p.path = None;
    assert_eq!(Host::try_from(p), Err(SetupError::MissingPath));
}

#[test]
fn table_password_wins_over_key() {
    let t = HostTable {
        password: Some(s("pw")),
        private_key: Some(s("key")),
        passphrase: Some(s("pp")),
        ..table()
    };
    let p = PartialHost::from_table(t);
    assert_eq!(
        p.ssh,
        Some(PartialSshCredentials {
            credential: Some(AuthMethod::Password(s("pw"))),
            ..partial_ssh()
        })
    );
}

#[test]
fn table_key_with_passphrase() {
    let t = HostTable { private_key: Some(s("key")), passphrase: Some(s("pp")), ..table() };
    let p = PartialHost::from_table(t);
    assert_eq!(p.ssh.unwrap().credential, Some(AuthMethod::Key(s("key"), Some(s("pp")))));
}

#[test]
fn table_without_ssh_settings_has_no_ssh() {
    let t = HostTable { passphrase: Some(s("pp")), repository: Some(s("r")), ..table() };
    let p = PartialHost::from_table(t);
    assert_eq!(p.ssh, None);
    assert_eq!(p.repository, Some(s("r")));
}

#[test]
fn resolve_host_lays_host_over_defaults() {
    let defaults = PartialHost {
        recipe: Some(1),
        repository: Some(s("repo")),
        keep_releases: Some(3),
        persistent_files: Some(vec![s(".env")]),
        ..PartialHost::default()
    };
    let own = PartialHost { path: Some(s("/var/www")), keep_releases: Some(9), ..PartialHost::default() };
    let host = resolve_host(&defaults, own).unwrap();
    assert_eq!(host.recipe, 1);
    assert_eq!(host.repository, "repo");
    assert_eq!(host.keep_releases, 9);
    assert_eq!(host.persistent_files, vec![s(".env")]);
    assert_eq!(host.path, "/var/www");
    assert_eq!(defaults.keep_releases, Some(3));
}

#[test]
fn resolve_host_reports_missing_path() {
    let defaults = full_partial();
    let own = PartialHost { path: None, ..PartialHost::default() };
    assert!(resolve_host(&defaults, own).is_ok());
    let defaults = PartialHost { path: None, ..full_partial() };
    assert_eq!(resolve_host(&defaults, PartialHost::default()), Err(SetupError::MissingPath));
}
