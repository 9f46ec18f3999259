use vstd::prelude::*;

use crate::access::AccessError;

verus! {

/// Why a host could not be built from the configuration given in `setup()`.
#[derive(Debug, PartialEq, Eq)]
pub enum SetupError {
    MissingRecipe,
    MissingRepository,
    MissingPath,
    /// The names of the SSH settings that are absent, in the order
    /// hostname, user, then password or private key.
    MissingCredentials(Vec<&'static str>),
}

/// Every failure of a deployment run.
///
/// Failures that come from the script engine, the SSH session or the
/// operating system carry the message of the underlying error.
#[derive(Debug, PartialEq, Eq)]
pub enum Error {
    /// The deploy script does not exist at the given path.
    ScriptNotFound(String),
    /// Requested hosts that the script does not define, in request order.
    UnknownHosts(Vec<String>),
    /// The configuration given in `setup()` is incomplete.
    Setup(SetupError),
    /// The script could not be parsed.
    ScriptParsing(String),
    /// The script failed while running.
    ScriptRuntime(String),
    /// The SSH session failed.
    Ssh(String),
    /// The given text is not base64 of UTF-8 text.
    InvalidBase64(String),
    /// An operating-system error.
    Io(String),
    /// A command line that cannot be split into words.
    UnparseableCommand(String),
    /// A command failed on the remote side before it could run.
    Access(AccessError),
}

} // verus!
