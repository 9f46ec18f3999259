use vstd::prelude::*;

verus! {

/// The script run when none is named on the command line.
pub const DEFAULT_SCRIPT: &'static str = "deploy.lua";

/// What a run was asked to do: the hosts to deploy to, and the script that
/// defines them.
#[derive(Debug, PartialEq, Eq)]
pub struct Config {
    pub hosts: Vec<String>,
    pub script: String,
}

impl Config {
    /// The run that deploys `hosts` with `script`, or with `deploy.lua` when
    /// no script is named.
    pub fn new(hosts: Vec<String>, script: Option<String>) -> (r: Config)
        ensures
            r.hosts == hosts,
            r.script@ == (match script {
                Some(s) => s@,
                None => DEFAULT_SCRIPT@,
            }),
    {
        let script = match script {
            Some(s) => s,
            None => DEFAULT_SCRIPT.to_string(),
        };
        Config { hosts, script }
    }
}

} // verus!
