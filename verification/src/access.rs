use vstd::prelude::*;

use crate::error::Error;
use crate::text::{chars_of, contains_seq, contains_str, find_chars, is_first_occurrence, occurs_at};

verus! {

/// Exit status recorded when a command reports none.
pub const UNKNOWN_STATUS: i32 = -42398;

/// Marker that a wrapped remote command writes to its error output when it
/// fails before the user's command runs.
pub const INTERNAL_ERROR_PREFIX: &'static str = "__ettac_internal_error::";

/// Failures that happen on the remote side before the user's command runs.
#[derive(Debug, PartialEq, Eq, Clone, Copy)]
pub enum AccessError {
    /// The deployment directory does not exist on the remote host.
    DirectoryNotFound,
}

/// The numeric code of an access error, as written after the marker.
pub open spec fn access_error_code(error: AccessError) -> Seq<char> {
    match error {
        AccessError::DirectoryNotFound => seq!['1'],
    }
}

/// The marker as a sequence of characters.
pub open spec fn marker() -> Seq<char> {
    INTERNAL_ERROR_PREFIX@
}

/// The message that marks `error` in a command's error output.
pub open spec fn formatted_access_error(error: AccessError) -> Seq<char> {
    marker() + access_error_code(error)
}

/// The character right after the first marker in `msg`, if there is one.
pub open spec fn code_after_marker(msg: Seq<char>) -> Option<char> {
    let i = choose|i: int| is_first_occurrence(msg, marker(), i);
    if contains_seq(msg, marker()) && i + marker().len() < msg.len() {
        Some(msg[i + marker().len()])
    } else {
        None
    }
}

/// `msg` names the access error whose code byte is 1.
///
/// The code is read as the raw byte that follows the marker, and only the
/// byte value 1 is known; the text written by `format` is the digit `1`.
pub open spec fn names_directory_not_found(msg: Seq<char>) -> bool {
    code_after_marker(msg) == Some('\u{1}')
}

proof fn lemma_first_occurrence_unique(msg: Seq<char>, i: int, j: int)
    requires
        is_first_occurrence(msg, marker(), i),
        is_first_occurrence(msg, marker(), j),
    ensures
        i == j,
{
}

impl AccessError {
    /// The text that marks `error` in a command's error output.
    pub fn format(error: AccessError) -> (out: String)
        ensures
            out@ == formatted_access_error(error),
    {
        let mut output = String::new();
        output.append(INTERNAL_ERROR_PREFIX);
        match error {
            AccessError::DirectoryNotFound => output.append("1"),
        }
        proof {
            reveal_strlit("1");
        }
        output
    }

    /// Whether `error` holds the access-error marker.
    pub fn is(error: &str) -> (r: bool)
        ensures
            r == contains_seq(error@, marker()),
    {
        contains_str(error, INTERNAL_ERROR_PREFIX)
    }

    /// The character that follows the first access-error marker in `error`.
    pub fn code_after_marker(error: &str) -> (r: Option<char>)
        ensures
            r == code_after_marker(error@),
    {
        let chars = chars_of(error);
        let prefix = chars_of(INTERNAL_ERROR_PREFIX);
        let total = chars.len();
        let plen = prefix.len();
        match find_chars(&chars, &prefix) {
            None => None,
            Some(i) => {
                proof {
                    let k = choose|k: int| is_first_occurrence(error@, marker(), k);
                    lemma_first_occurrence_unique(error@, i as int, k);
                    assert(occurs_at(chars@, prefix@, i as int));
                }
                let after = i + plen;
                if after < total {
                    Some(chars[after])
                } else {
                    None
                }
            },
        }
    }

    /// The access error named in a command's error output.
    pub fn from_stderr(error: &str) -> (r: AccessError)
        requires
            names_directory_not_found(error@),
        ensures
            r == AccessError::DirectoryNotFound,
    {
        AccessError::DirectoryNotFound
    }
}


/// What a command printed, and the status it exited with.
#[derive(Debug, PartialEq, Eq)]
pub struct CommandResult {
    pub status: i32,
    pub stdout: String,
    pub stderr: String,
}

impl CommandResult {
    /// The result of a command that exited with `status`, or that reported
    /// no status, in which case `UNKNOWN_STATUS` is recorded.
    pub fn from_output(status: Option<i32>, stdout: String, stderr: String) -> (r: CommandResult)
        ensures
            r.status == (match status {
                Some(code) => code,
                None => UNKNOWN_STATUS,
            }),
            r.stdout == stdout,
            r.stderr == stderr,
    {
        let status = match status {
            Some(code) => code,
            None => UNKNOWN_STATUS,
        };
        CommandResult { status, stdout, stderr }
    }
}

/// The shell line that runs `cmd` inside `path` on a remote host, and that
/// reports a missing directory through the access-error marker.
pub open spec fn remote_command_line(path: Seq<char>, cmd: Seq<char>) -> Seq<char> {
    "if cd "@ + path + "; then "@ + cmd + "; else >&2 echo '"@ + formatted_access_error(
        AccessError::DirectoryNotFound,
    ) + "'; exit; fi"@
}

/// The shell line that runs `cmd` inside `path` on a remote host.
pub fn remote_command(path: &str, cmd: &str) -> (line: String)
    ensures
        line@ == remote_command_line(path@, cmd@),
        line@ == "if cd "@ + path@ + "; then "@ + cmd@ + "; else >&2 echo '"@
            + INTERNAL_ERROR_PREFIX@ + "1"@ + "'; exit; fi"@,
{
    proof {
        lemma_remote_command_line_wraps(path@, cmd@);
    }
    let marker = AccessError::format(AccessError::DirectoryNotFound);
    let mut line = String::new();
    line.append("if cd ");
    line.append(path);
    line.append("; then ");
    line.append(cmd);
    line.append("; else >&2 echo '");
    line.append(marker.as_str());
    line.append("'; exit; fi");
    line
}

/// For every path and command, the remote line changes into the path and
/// runs the command only there: it reads `if cd <path>; then <cmd>; else`,
/// writes the access-error marker with code `1` to the error output when the
/// directory is missing, and exits.
pub proof fn lemma_remote_command_line_wraps(path: Seq<char>, cmd: Seq<char>)
    ensures
        remote_command_line(path, cmd) == "if cd "@ + path + "; then "@ + cmd
            + "; else >&2 echo '"@ + INTERNAL_ERROR_PREFIX@ + "1"@ + "'; exit; fi"@,
        remote_command_line(path, cmd).subrange(
            0,
            ("if cd "@ + path + "; then "@ + cmd).len() as int,
        ) == "if cd "@ + path + "; then "@ + cmd,
{
    reveal_strlit("1");
    let head = "if cd "@ + path + "; then "@ + cmd;
    let tail = "; else >&2 echo '"@ + INTERNAL_ERROR_PREFIX@ + "1"@ + "'; exit; fi"@;
    assert(access_error_code(AccessError::DirectoryNotFound) =~= "1"@);
    assert(remote_command_line(path, cmd) =~= head + tail);
    assert((head + tail).subrange(0, head.len() as int) =~= head);
}

/// A remote command's error output tells of an access error.
pub open spec fn remote_failed(stderr: Seq<char>) -> bool {
    contains_seq(stderr, marker())
}

/// The outcome of a remote command: an access error when its error output
/// carries the marker, and otherwise what it printed and its status.
pub fn finish_remote(status: Option<i32>, stdout: String, stderr: String) -> (r: Result<
    CommandResult,
    Error,
>)
    requires
        remote_failed(stderr@) ==> names_directory_not_found(stderr@),
    ensures
        remote_failed(stderr@) ==> r == Err::<CommandResult, Error>(
            Error::Access(AccessError::DirectoryNotFound),
        ),
        !remote_failed(stderr@) ==> (r matches Ok(res) && (res.status == (match status {
            Some(code) => code,
            None => UNKNOWN_STATUS,
        }) && res.stdout == stdout && res.stderr == stderr)),
{
    if AccessError::is(stderr.as_str()) {
        let error = AccessError::from_stderr(stderr.as_str());
        return Err(Error::Access(error));
    }
    Ok(CommandResult::from_output(status, stdout, stderr))
}

/// Words of a shell-like command line, as split by `shlex::split`; `None`
/// for a line with an unterminated quote or a trailing backslash.
pub uninterp spec fn shlex_words(line: Seq<char>) -> Option<Seq<Seq<char>>>;

/// The views of a list of strings.
pub open spec fn string_views(v: Seq<String>) -> Seq<Seq<char>> {
    v.map_values(|w: String| w@)
}

/// Calls `shlex::split`; the contract states only that its result is the
/// one named by `shlex_words` for this line.
#[verifier::external_body]
fn shlex_split(line: &str) -> (r: Option<Vec<String>>)
    ensures
        match r {
            Some(words) => shlex_words(line@) == Some(string_views(words@)),
            None => shlex_words(line@) is None,
        },
{
    shlex::split(line)
}

/// The words of a command to run locally: the program, then its arguments.
pub fn parse_local_command(cmd: &str) -> (r: Result<Vec<String>, Error>)
    ensures
        match r {
            Ok(words) => shlex_words(cmd@) == Some(string_views(words@)),
            Err(e) => shlex_words(cmd@) is None && (e matches Error::UnparseableCommand(text)
                && text@ == cmd@),
        },
{
    match shlex_split(cmd) {
        Some(words) => Ok(words),
        None => Err(Error::UnparseableCommand(cmd.to_string())),
    }
}

/// The marker that `format` writes is found by `is`, and the character read
/// after it is the digit `1`.
pub proof fn lemma_formatted_access_error_is_recognized(error: AccessError)
    ensures
        contains_seq(formatted_access_error(error), marker()),
        code_after_marker(formatted_access_error(error)) == Some('1'),
{
    let msg = formatted_access_error(error);
    assert(msg.subrange(0, marker().len() as int) =~= marker());
    assert(is_first_occurrence(msg, marker(), 0));
    let i = choose|i: int| is_first_occurrence(msg, marker(), i);
    lemma_first_occurrence_unique(msg, i, 0);
}

} // verus!
