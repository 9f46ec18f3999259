use vstd::prelude::*;

use crate::error::SetupError;

verus! {

/// How to authenticate on an SSH server.
#[derive(Debug, PartialEq, Eq)]
pub enum AuthMethod {
    Password(String),
    /// A private key in base64, with its passphrase if it has one.
    Key(String, Option<String>),
}

impl Clone for AuthMethod {
    fn clone(&self) -> (r: AuthMethod)
        ensures
            r == *self,
    {
        match self {
            AuthMethod::Password(password) => AuthMethod::Password(password.clone()),
            AuthMethod::Key(key, passphrase) => AuthMethod::Key(
                key.clone(),
                match passphrase {
                    Some(p) => Some(p.clone()),
                    None => None,
                },
            ),
        }
    }
}

/// Everything needed to open an SSH session.
#[derive(Debug, PartialEq, Eq)]
pub struct SshCredentials {
    pub hostname: String,
    pub port: u16,
    pub user: String,
    pub credential: AuthMethod,
}

/// SSH settings of which any may be absent.
#[derive(Debug, PartialEq, Eq)]
pub struct PartialSshCredentials {
    pub hostname: Option<String>,
    pub port: Option<u16>,
    pub user: Option<String>,
    pub credential: Option<AuthMethod>,
}

/// The SSH port used when none is given.
pub const DEFAULT_SSH_PORT: u16 = 22;

/// The names of the SSH settings that are required and absent from `p`, in
/// the order hostname, user, credential.
pub open spec fn missing_credential_names(p: PartialSshCredentials) -> Seq<&'static str> {
    (if p.hostname is None {
        seq!["hostname"]
    } else {
        Seq::empty()
    }) + (if p.user is None {
        seq!["user"]
    } else {
        Seq::empty()
    }) + (if p.credential is None {
        seq!["password or private_key"]
    } else {
        Seq::empty()
    })
}

/// `p` holds every required SSH setting.
pub open spec fn credentials_complete(p: PartialSshCredentials) -> bool {
    &&& p.hostname is Some
    &&& p.user is Some
    &&& p.credential is Some
}

/// The credentials that a complete `p` stands for.
pub open spec fn completed_credentials(p: PartialSshCredentials) -> SshCredentials {
    SshCredentials {
        hostname: p.hostname.unwrap(),
        port: match p.port {
            Some(port) => port,
            None => DEFAULT_SSH_PORT,
        },
        user: p.user.unwrap(),
        credential: p.credential.unwrap(),
    }
}

impl Clone for PartialSshCredentials {
    fn clone(&self) -> (r: PartialSshCredentials)
        ensures
            r == *self,
    {
        PartialSshCredentials {
            hostname: match &self.hostname {
                Some(h) => Some(h.clone()),
                None => None,
            },
            port: self.port,
            user: match &self.user {
                Some(u) => Some(u.clone()),
                None => None,
            },
            credential: match &self.credential {
                Some(c) => Some(c.clone()),
                None => None,
            },
        }
    }
}

impl PartialSshCredentials {
    /// No SSH setting is given.
    pub fn is_empty(&self) -> (r: bool)
        ensures
            r == (self.hostname is None && self.port is None && self.user is None
                && self.credential is None),
    {
        self.hostname.is_none() && self.port.is_none() && self.user.is_none()
            && self.credential.is_none()
    }
}

impl SshCredentials {
    /// The credentials given by `value`, with port 22 where none is given;
    /// an error naming every required setting that is absent.
    pub fn try_from(value: PartialSshCredentials) -> (r: Result<SshCredentials, SetupError>)
        ensures
            credentials_complete(value) ==> r == Ok::<SshCredentials, SetupError>(
                completed_credentials(value),
            ),
            !credentials_complete(value) ==> (r matches Err(SetupError::MissingCredentials(
                missing,
            )) && missing@ == missing_credential_names(value)),
            r matches Ok(c) ==> {
                &&& value.hostname == Some(c.hostname)
                &&& value.user == Some(c.user)
                &&& value.credential == Some(c.credential)
                &&& (value.port matches Some(port) ==> c.port == port)
                &&& (value.port is None ==> c.port == 22)
            },
    {
        let PartialSshCredentials { hostname, port, user, credential } = value;
        match (hostname, user, credential) {
            (Some(hostname), Some(user), Some(credential)) => Ok(
                SshCredentials {
                    hostname,
                    port: match port {
                        Some(p) => p,
                        None => DEFAULT_SSH_PORT,
                    },
                    user,
                    credential,
                },
            ),
            (hostname, user, credential) => {
                let mut missing: Vec<&'static str> = Vec::new();
                if hostname.is_none() {
                    missing.push("hostname");
                }
                if user.is_none() {
                    missing.push("user");
                }
                if credential.is_none() {
                    missing.push("password or private_key");
                }
                assert(missing@ =~= missing_credential_names(value));
                Err(SetupError::MissingCredentials(missing))
            },
        }
    }
}


/// Complete settings become credentials; incomplete ones become `None`.
impl From<PartialSshCredentials> for Option<SshCredentials> {
    fn from(partial: PartialSshCredentials) -> (r: Option<SshCredentials>) {
        match SshCredentials::try_from(partial) {
            Ok(credentials) => Some(credentials),
            Err(_) => None,
        }
    }
}

impl vstd::std_specs::convert::FromSpecImpl<PartialSshCredentials> for Option<SshCredentials> {
    open spec fn obeys_from_spec() -> bool {
        true
    }

    open spec fn from_spec(v: PartialSshCredentials) -> Option<SshCredentials> {
        if credentials_complete(v) {
            Some(completed_credentials(v))
        } else {
            None
        }
    }
}


/// A host to deploy to. `R` is the handle of the host's recipe, the
/// function that the deploy script gives for it.
#[derive(Debug, PartialEq, Eq)]
pub struct Host<R> {
    pub recipe: R,
    pub repository: String,
    pub keep_releases: i8,
    pub persistent_files: Vec<String>,
    pub persistent_dirs: Vec<String>,
    pub labels: Vec<String>,
    pub ssh: Option<SshCredentials>,
    pub path: String,
}

/// Host settings of which any may be absent, as given to `default()` or to
/// `host()` in a deploy script.
#[derive(Debug, PartialEq, Eq)]
pub struct PartialHost<R> {
    pub recipe: Option<R>,
    pub repository: Option<String>,
    pub keep_releases: Option<i8>,
    pub persistent_files: Option<Vec<String>>,
    pub persistent_dirs: Option<Vec<String>>,
    pub labels: Option<Vec<String>>,
    pub ssh: Option<PartialSshCredentials>,
    pub path: Option<String>,
}

/// The contents of a host.
pub struct HostView<R> {
    pub recipe: R,
    pub repository: String,
    pub keep_releases: i8,
    pub persistent_files: Seq<String>,
    pub persistent_dirs: Seq<String>,
    pub labels: Seq<String>,
    pub ssh: Option<SshCredentials>,
    pub path: String,
}

/// The contents of partial host settings.
pub struct PartialHostView<R> {
    pub recipe: Option<R>,
    pub repository: Option<String>,
    pub keep_releases: Option<i8>,
    pub persistent_files: Option<Seq<String>>,
    pub persistent_dirs: Option<Seq<String>>,
    pub labels: Option<Seq<String>>,
    pub ssh: Option<PartialSshCredentials>,
    pub path: Option<String>,
}

/// The contents of an optional list of strings.
pub open spec fn opt_strings_view(o: Option<Vec<String>>) -> Option<Seq<String>> {
    match o {
        Some(v) => Some(v@),
        None => None,
    }
}

impl<R> View for Host<R> {
    type V = HostView<R>;

    open spec fn view(&self) -> HostView<R> {
        HostView {
            recipe: self.recipe,
            repository: self.repository,
            keep_releases: self.keep_releases,
            persistent_files: self.persistent_files@,
            persistent_dirs: self.persistent_dirs@,
            labels: self.labels@,
            ssh: self.ssh,
            path: self.path,
        }
    }
}

impl<R> View for PartialHost<R> {
    type V = PartialHostView<R>;

    open spec fn view(&self) -> PartialHostView<R> {
        PartialHostView {
            recipe: self.recipe,
            repository: self.repository,
            keep_releases: self.keep_releases,
            persistent_files: opt_strings_view(self.persistent_files),
            persistent_dirs: opt_strings_view(self.persistent_dirs),
            labels: opt_strings_view(self.labels),
            ssh: self.ssh,
            path: self.path,
        }
    }
}

/// `top` where it is given, else `base`.
pub open spec fn overlay<T>(base: Option<T>, top: Option<T>) -> Option<T> {
    match top {
        Some(v) => Some(v),
        None => base,
    }
}

/// Settings `base` with every setting that `top` gives put in its place.
pub open spec fn overlay_host<R>(base: PartialHostView<R>, top: PartialHostView<R>) -> PartialHostView<R> {
    PartialHostView {
        recipe: overlay(base.recipe, top.recipe),
        repository: overlay(base.repository, top.repository),
        keep_releases: overlay(base.keep_releases, top.keep_releases),
        persistent_files: overlay(base.persistent_files, top.persistent_files),
        persistent_dirs: overlay(base.persistent_dirs, top.persistent_dirs),
        labels: overlay(base.labels, top.labels),
        ssh: overlay(base.ssh, top.ssh),
        path: overlay(base.path, top.path),
    }
}

/// `p` gives at least one setting.
pub open spec fn gives_any<R>(p: PartialHostView<R>) -> bool {
    ||| p.recipe is Some
    ||| p.repository is Some
    ||| p.keep_releases is Some
    ||| p.persistent_files is Some
    ||| p.persistent_dirs is Some
    ||| p.labels is Some
    ||| p.ssh is Some
    ||| p.path is Some
}

/// `p` gives no setting.
pub open spec fn empty_partial_host<R>() -> PartialHostView<R> {
    PartialHostView {
        recipe: None,
        repository: None,
        keep_releases: None,
        persistent_files: None,
        persistent_dirs: None,
        labels: None,
        ssh: None,
        path: None,
    }
}

/// `p` is enough to build a host: recipe, repository and path are given,
/// and SSH settings, where given, are complete.
pub open spec fn host_complete<R>(p: PartialHostView<R>) -> bool {
    &&& p.recipe is Some
    &&& p.repository is Some
    &&& p.path is Some
    &&& (p.ssh matches Some(ssh) ==> credentials_complete(ssh))
}

/// The list given, or the empty list.
pub open spec fn strings_or_empty(o: Option<Seq<String>>) -> Seq<String> {
    match o {
        Some(v) => v,
        None => Seq::empty(),
    }
}

/// The host that complete settings `p` stand for: lists default to empty,
/// the number of kept releases to 0.
pub open spec fn completed_host<R>(p: PartialHostView<R>) -> HostView<R> {
    HostView {
        recipe: p.recipe.unwrap(),
        repository: p.repository.unwrap(),
        keep_releases: match p.keep_releases {
            Some(k) => k,
            None => 0,
        },
        persistent_files: strings_or_empty(p.persistent_files),
        persistent_dirs: strings_or_empty(p.persistent_dirs),
        labels: strings_or_empty(p.labels),
        ssh: match p.ssh {
            Some(ssh) => Some(completed_credentials(ssh)),
            None => None,
        },
        path: p.path.unwrap(),
    }
}

/// The error that building a host from incomplete settings `p` reports:
/// the first of missing recipe, missing repository, incomplete SSH
/// settings, missing path.
pub open spec fn host_setup_error<R>(p: PartialHostView<R>, e: SetupError) -> bool {
    if p.recipe is None {
        e == SetupError::MissingRecipe
    } else if p.repository is None {
        e == SetupError::MissingRepository
    } else {
        match p.ssh {
            Some(ssh) if !credentials_complete(ssh) => e matches SetupError::MissingCredentials(
                missing,
            ) && missing@ == missing_credential_names(ssh),
            _ => e == SetupError::MissingPath,
        }
    }
}

/// A copy of a list of strings.
pub fn clone_strings(v: &Vec<String>) -> (r: Vec<String>)
    ensures
        r@ == v@,
{
    let mut r: Vec<String> = Vec::new();
    let n = v.len();
    for i in 0..n
        invariant
            n == v@.len(),
            r@ == v@.take(i as int),
    {
        r.push(v[i].clone());
        assert(r@ =~= v@.take(i + 1));
    }
    assert(v@.take(n as int) =~= v@);
    r
}

fn clone_opt_strings(o: &Option<Vec<String>>) -> (r: Option<Vec<String>>)
    ensures
        opt_strings_view(r) == opt_strings_view(*o),
{
    match o {
        Some(v) => Some(clone_strings(v)),
        None => None,
    }
}

fn clone_opt_string(o: &Option<String>) -> (r: Option<String>)
    ensures
        r == *o,
{
    match o {
        Some(v) => Some(v.clone()),
        None => None,
    }
}

impl<R: Copy> Clone for PartialHost<R> {
    fn clone(&self) -> (r: PartialHost<R>)
        ensures
            r@ == self@,
    {
        PartialHost {
            recipe: self.recipe,
            repository: clone_opt_string(&self.repository),
            keep_releases: self.keep_releases,
            persistent_files: clone_opt_strings(&self.persistent_files),
            persistent_dirs: clone_opt_strings(&self.persistent_dirs),
            labels: clone_opt_strings(&self.labels),
            ssh: match &self.ssh {
                Some(ssh) => Some(ssh.clone()),
                None => None,
            },
            path: clone_opt_string(&self.path),
        }
    }
}

impl<R> Default for PartialHost<R> {
    fn default() -> (r: PartialHost<R>)
        ensures
            r@ == empty_partial_host::<R>(),
    {
        PartialHost {
            recipe: None,
            repository: None,
            keep_releases: None,
            persistent_files: None,
            persistent_dirs: None,
            labels: None,
            ssh: None,
            path: None,
        }
    }
}

impl<R> PartialHost<R> {
    /// Puts every setting that `partial` gives in place of the one held;
    /// returns whether `partial` gives any setting.
    pub fn apply_some(&mut self, partial: PartialHost<R>) -> (applied: bool)
        ensures
            final(self)@ == overlay_host(old(self)@, partial@),
            applied == gives_any(partial@),
            partial.recipe is Some ==> final(self).recipe == partial.recipe,
            partial.recipe is None ==> final(self).recipe == old(self).recipe,
            partial.repository is Some ==> final(self).repository == partial.repository,
            partial.repository is None ==> final(self).repository == old(self).repository,
            partial.keep_releases is Some ==> final(self).keep_releases == partial.keep_releases,
            partial.keep_releases is None ==> final(self).keep_releases == old(self).keep_releases,
            partial.persistent_files is Some ==> final(self).persistent_files == partial.persistent_files,
            partial.persistent_files is None ==> final(self).persistent_files == old(self).persistent_files,
            partial.persistent_dirs is Some ==> final(self).persistent_dirs == partial.persistent_dirs,
            partial.persistent_dirs is None ==> final(self).persistent_dirs == old(self).persistent_dirs,
            partial.labels is Some ==> final(self).labels == partial.labels,
            partial.labels is None ==> final(self).labels == old(self).labels,
            partial.ssh is Some ==> final(self).ssh == partial.ssh,
            partial.ssh is None ==> final(self).ssh == old(self).ssh,
            partial.path is Some ==> final(self).path == partial.path,
            partial.path is None ==> final(self).path == old(self).path,
    {
        let applied = partial.recipe.is_some() || partial.repository.is_some()
            || partial.keep_releases.is_some() || partial.persistent_files.is_some()
            || partial.persistent_dirs.is_some() || partial.labels.is_some()
            || partial.ssh.is_some() || partial.path.is_some();
        if let Some(recipe) = partial.recipe {
            self.recipe = Some(recipe);
        }
        if let Some(repository) = partial.repository {
            self.repository = Some(repository);
        }
        if let Some(keep_releases) = partial.keep_releases {
            self.keep_releases = Some(keep_releases);
        }
        if let Some(persistent_files) = partial.persistent_files {
            self.persistent_files = Some(persistent_files);
        }
        if let Some(persistent_dirs) = partial.persistent_dirs {
            self.persistent_dirs = Some(persistent_dirs);
        }
        if let Some(labels) = partial.labels {
            self.labels = Some(labels);
        }
        if let Some(ssh) = partial.ssh {
            self.ssh = Some(ssh);
        }
        if let Some(path) = partial.path {
            self.path = Some(path);
        }
        applied
    }
}

impl<R> Host<R> {
    /// The host that `value` describes, with empty lists, 0 kept releases
    /// and port 22 where these are not given; an error for the first
    /// required setting that is absent.
    pub fn try_from(value: PartialHost<R>) -> (r: Result<Host<R>, SetupError>)
        ensures
            host_complete(value@) ==> (r matches Ok(host) && host@ == completed_host(value@)),
            !host_complete(value@) ==> (r matches Err(e) && host_setup_error(value@, e)),
            r matches Ok(host) ==> {
                &&& value.recipe == Some(host.recipe)
                &&& value.repository == Some(host.repository)
                &&& value.path == Some(host.path)
                &&& (value.keep_releases matches Some(k) ==> host.keep_releases == k)
                &&& (value.keep_releases is None ==> host.keep_releases == 0)
                &&& (value.persistent_files matches Some(f) ==> host.persistent_files@ == f@)
                &&& (value.persistent_files is None ==> host.persistent_files@.len() == 0)
                &&& (value.persistent_dirs matches Some(d) ==> host.persistent_dirs@ == d@)
                &&& (value.persistent_dirs is None ==> host.persistent_dirs@.len() == 0)
                &&& (value.labels matches Some(l) ==> host.labels@ == l@)
                &&& (value.labels is None ==> host.labels@.len() == 0)
                &&& (value.ssh is None ==> host.ssh is None)
                &&& (value.ssh matches Some(p) ==> (host.ssh matches Some(c) && c.hostname
                    == p.hostname.unwrap() && c.user == p.user.unwrap() && c.credential
                    == p.credential.unwrap() && (p.port matches Some(port) ==> c.port == port)
                    && (p.port is None ==> c.port == 22)))
            },
    {
        let ghost v = value@;
        let recipe = match value.recipe {
            Some(recipe) => recipe,
            None => return Err(SetupError::MissingRecipe),
        };
        let repository = match value.repository {
            Some(repository) => repository,
            None => return Err(SetupError::MissingRepository),
        };
        let keep_releases = match value.keep_releases {
            Some(k) => k,
            None => 0,
        };
        let persistent_files = match value.persistent_files {
            Some(files) => files,
            None => Vec::new(),
        };
        let persistent_dirs = match value.persistent_dirs {
            Some(dirs) => dirs,
            None => Vec::new(),
        };
        let labels = match value.labels {
            Some(labels) => labels,
            None => Vec::new(),
        };
        let ssh = match value.ssh {
            Some(partial) => match SshCredentials::try_from(partial) {
                Ok(credentials) => Some(credentials),
                Err(e) => return Err(e),
            },
            None => None,
        };
        let path = match value.path {
            Some(path) => path,
            None => return Err(SetupError::MissingPath),
        };
        let host = Host {
            recipe,
            repository,
            keep_releases,
            persistent_files,
            persistent_dirs,
            labels,
            ssh,
            path,
        };
        assert(host@.persistent_files =~= completed_host(v).persistent_files);
        assert(host@.persistent_dirs =~= completed_host(v).persistent_dirs);
        assert(host@.labels =~= completed_host(v).labels);
        Ok(host)
    }
}


/// The settings read from one table of a deploy script, each absent when
/// the table does not hold it.
#[derive(Debug, PartialEq, Eq)]
pub struct HostTable<R> {
    pub recipe: Option<R>,
    pub repository: Option<String>,
    pub keep_releases: Option<i8>,
    pub persistent_files: Option<Vec<String>>,
    pub persistent_dirs: Option<Vec<String>>,
    pub labels: Option<Vec<String>>,
    pub hostname: Option<String>,
    pub port: Option<u16>,
    pub user: Option<String>,
    pub password: Option<String>,
    pub private_key: Option<String>,
    pub passphrase: Option<String>,
    pub path: Option<String>,
}

/// The credential a table gives: its password if it has one, else its
/// private key together with the passphrase.
pub open spec fn table_credential<R>(t: HostTable<R>) -> Option<AuthMethod> {
    match t.password {
        Some(password) => Some(AuthMethod::Password(password)),
        None => match t.private_key {
            Some(key) => Some(AuthMethod::Key(key, t.passphrase)),
            None => None,
        },
    }
}

/// The SSH settings a table gives, when it gives any.
pub open spec fn table_ssh<R>(t: HostTable<R>) -> Option<PartialSshCredentials> {
    let ssh = PartialSshCredentials {
        hostname: t.hostname,
        port: t.port,
        user: t.user,
        credential: table_credential(t),
    };
    if ssh.hostname is None && ssh.port is None && ssh.user is None && ssh.credential is None {
        None
    } else {
        Some(ssh)
    }
}

impl<R> PartialHost<R> {
    /// The host settings that a table of a deploy script gives.
    pub fn from_table(table: HostTable<R>) -> (r: PartialHost<R>)
        ensures
            r.recipe == table.recipe,
            r.repository == table.repository,
            r.keep_releases == table.keep_releases,
            r.persistent_files == table.persistent_files,
            r.persistent_dirs == table.persistent_dirs,
            r.labels == table.labels,
            r.ssh == table_ssh(table),
            r.path == table.path,
            r.ssh matches Some(ssh) ==> {
                &&& ssh.hostname == table.hostname
                &&& ssh.port == table.port
                &&& ssh.user == table.user
            },
            (table.hostname is Some || table.port is Some || table.user is Some
                || table.password is Some || table.private_key is Some) <==> r.ssh is Some,
            table.password matches Some(pw) ==> (r.ssh matches Some(ssh) && ssh.credential == Some(
                AuthMethod::Password(pw),
            )),
            table.password is None && table.private_key is Some ==> (r.ssh matches Some(ssh)
                && ssh.credential == Some(
                AuthMethod::Key(table.private_key.unwrap(), table.passphrase),
            )),
            table.password is None && table.private_key is None ==> (r.ssh matches Some(ssh)
                ==> ssh.credential is None),
    {
        let ghost t = table;
        let HostTable {
            recipe,
            repository,
            keep_releases,
            persistent_files,
            persistent_dirs,
            labels,
            hostname,
            port,
            user,
            password,
            private_key,
            passphrase,
            path,
        } = table;
        let credential = if let Some(password) = password {
            Some(AuthMethod::Password(password))
        } else if let Some(private_key) = private_key {
            Some(AuthMethod::Key(private_key, passphrase))
        } else {
            None
        };
        let ssh = PartialSshCredentials { hostname, port, user, credential };
        PartialHost {
            recipe,
            repository,
            keep_releases,
            persistent_files,
            persistent_dirs,
            labels,
            ssh: if !ssh.is_empty() {
                Some(ssh)
            } else {
                None
            },
            path,
        }
    }
}

/// The host that `partial` describes once laid over `defaults`.
pub fn resolve_host<R: Copy>(defaults: &PartialHost<R>, partial: PartialHost<R>) -> (r: Result<
    Host<R>,
    SetupError,
>)
    ensures
        host_complete(overlay_host(defaults@, partial@)) ==> (r matches Ok(host) && host@
            == completed_host(overlay_host(defaults@, partial@))),
        !host_complete(overlay_host(defaults@, partial@)) ==> (r matches Err(e)
            && host_setup_error(overlay_host(defaults@, partial@), e)),
        r matches Ok(host) ==> {
            &&& (partial.path matches Some(p) ==> host.path == p)
            &&& (partial.path is None ==> defaults.path == Some(host.path))
            &&& (partial.repository matches Some(p) ==> host.repository == p)
            &&& (partial.repository is None ==> defaults.repository == Some(host.repository))
            &&& (partial.recipe matches Some(p) ==> host.recipe == p)
            &&& (partial.recipe is None ==> defaults.recipe == Some(host.recipe))
            &&& (partial.keep_releases matches Some(k) ==> host.keep_releases == k)
            &&& (partial.persistent_files matches Some(f) ==> host.persistent_files@ == f@)
            &&& (partial.persistent_dirs matches Some(d) ==> host.persistent_dirs@ == d@)
            &&& (partial.labels matches Some(l) ==> host.labels@ == l@)
        },
{
    let mut with_defaults = defaults.clone();
    with_defaults.apply_some(partial);
    Host::try_from(with_defaults)
}


/// Laying settings that give nothing over `base` leaves `base` as it was.
pub proof fn lemma_overlay_empty<R>(base: PartialHostView<R>)
    ensures
        overlay_host(base, empty_partial_host()) == base,
        !gives_any(empty_partial_host::<R>()),
{
}

/// Laying the same settings twice is laying them once.
pub proof fn lemma_overlay_idempotent<R>(base: PartialHostView<R>, top: PartialHostView<R>)
    ensures
        overlay_host(overlay_host(base, top), top) == overlay_host(base, top),
{
}

/// Laying `first` then `second` over `base` is laying over `base` the
/// settings of `first` overlaid by `second`.
pub proof fn lemma_overlay_associative<R>(
    base: PartialHostView<R>,
    first: PartialHostView<R>,
    second: PartialHostView<R>,
)
    ensures
        overlay_host(overlay_host(base, first), second) == overlay_host(
            base,
            overlay_host(first, second),
        ),
{
}


/// Laying `top` over `base` keeps every setting that `top` gives, and the
/// setting of `base` exactly where `top` gives none.
pub proof fn lemma_overlay_top_setting_wins<R>(base: PartialHostView<R>, top: PartialHostView<R>)
    ensures
        top.recipe is Some ==> overlay_host(base, top).recipe == top.recipe,
        top.recipe is None ==> overlay_host(base, top).recipe == base.recipe,
        top.repository is Some ==> overlay_host(base, top).repository == top.repository,
        top.repository is None ==> overlay_host(base, top).repository == base.repository,
        top.keep_releases is Some ==> overlay_host(base, top).keep_releases == top.keep_releases,
        top.keep_releases is None ==> overlay_host(base, top).keep_releases == base.keep_releases,
        top.persistent_files is Some ==> overlay_host(base, top).persistent_files
            == top.persistent_files,
        top.persistent_files is None ==> overlay_host(base, top).persistent_files
            == base.persistent_files,
        top.persistent_dirs is Some ==> overlay_host(base, top).persistent_dirs
            == top.persistent_dirs,
        top.persistent_dirs is None ==> overlay_host(base, top).persistent_dirs
            == base.persistent_dirs,
        top.labels is Some ==> overlay_host(base, top).labels == top.labels,
        top.labels is None ==> overlay_host(base, top).labels == base.labels,
        top.ssh is Some ==> overlay_host(base, top).ssh == top.ssh,
        top.ssh is None ==> overlay_host(base, top).ssh == base.ssh,
        top.path is Some ==> overlay_host(base, top).path == top.path,
        top.path is None ==> overlay_host(base, top).path == base.path,
{
}

/// A host built from complete settings keeps every given setting as given:
/// the recipe, repository, path and credentials, and each list in full; a
/// list is empty and the kept releases are 0 only where nothing is given.
pub proof fn lemma_completed_host_keeps_settings<R>(p: PartialHostView<R>)
    requires
        host_complete(p),
    ensures
        p.recipe == Some(completed_host(p).recipe),
        p.repository == Some(completed_host(p).repository),
        p.path == Some(completed_host(p).path),
        p.keep_releases matches Some(k) ==> completed_host(p).keep_releases == k,
        p.keep_releases is None ==> completed_host(p).keep_releases == 0,
        p.persistent_files matches Some(f) ==> completed_host(p).persistent_files == f,
        p.persistent_files is None ==> completed_host(p).persistent_files.len() == 0,
        p.persistent_dirs matches Some(d) ==> completed_host(p).persistent_dirs == d,
        p.persistent_dirs is None ==> completed_host(p).persistent_dirs.len() == 0,
        p.labels matches Some(l) ==> completed_host(p).labels == l,
        p.labels is None ==> completed_host(p).labels.len() == 0,
        p.ssh is None ==> completed_host(p).ssh is None,
        p.ssh matches Some(ssh) ==> (completed_host(p).ssh matches Some(c) && Some(c.hostname)
            == ssh.hostname && Some(c.user) == ssh.user && Some(c.credential) == ssh.credential),
{
}

/// Complete SSH settings become credentials that hold the given hostname,
/// user and credential unchanged (a key keeps its passphrase), and the given
/// port, or 22 where none is given.
pub proof fn lemma_completed_credentials_keep_settings(p: PartialSshCredentials)
    requires
        credentials_complete(p),
    ensures
        Some(completed_credentials(p).hostname) == p.hostname,
        Some(completed_credentials(p).user) == p.user,
        Some(completed_credentials(p).credential) == p.credential,
        p.port matches Some(port) ==> completed_credentials(p).port == port,
        p.port is None ==> completed_credentials(p).port == 22,
{
}

/// The SSH settings read from a table carry its hostname, port and user
/// unchanged; they are present exactly when the table gives a hostname, port,
/// user, password or private key; the password wins over a private key, and a
/// private key keeps the table's passphrase.
pub proof fn lemma_table_ssh_keeps_settings<R>(t: HostTable<R>)
    ensures
        table_ssh(t) matches Some(ssh) ==> ssh.hostname == t.hostname && ssh.port == t.port
            && ssh.user == t.user,
        (t.hostname is Some || t.port is Some || t.user is Some || t.password is Some
            || t.private_key is Some) <==> table_ssh(t) is Some,
        t.password matches Some(pw) ==> (table_ssh(t) matches Some(ssh) && ssh.credential == Some(
            AuthMethod::Password(pw),
        )),
        t.password is None && t.private_key is Some ==> (table_ssh(t) matches Some(ssh)
            && ssh.credential == Some(AuthMethod::Key(t.private_key.unwrap(), t.passphrase))),
{
}

/// A host resolved from the defaults and its own settings takes each of its
/// own settings where it gives one, and the default only where it gives none.
pub proof fn lemma_resolved_host_prefers_own_settings<R>(
    defaults: PartialHostView<R>,
    own: PartialHostView<R>,
)
    requires
        host_complete(overlay_host(defaults, own)),
    ensures
        own.path matches Some(p) ==> completed_host(overlay_host(defaults, own)).path == p,
        own.path is None ==> defaults.path == Some(completed_host(overlay_host(defaults, own)).path),
        own.repository matches Some(r) ==> completed_host(overlay_host(defaults, own)).repository == r,
        own.repository is None ==> defaults.repository == Some(
            completed_host(overlay_host(defaults, own)).repository,
        ),
        own.recipe matches Some(r) ==> completed_host(overlay_host(defaults, own)).recipe == r,
        own.recipe is None ==> defaults.recipe == Some(completed_host(overlay_host(defaults, own)).recipe),
        own.keep_releases matches Some(k) ==> completed_host(overlay_host(defaults, own)).keep_releases == k,
        own.persistent_files matches Some(f) ==> completed_host(overlay_host(defaults, own)).persistent_files == f,
        own.persistent_dirs matches Some(d) ==> completed_host(overlay_host(defaults, own)).persistent_dirs == d,
        own.labels matches Some(l) ==> completed_host(overlay_host(defaults, own)).labels == l,
{
}

} // verus!
