use ettac::access::{
    finish_remote, parse_local_command, remote_command, AccessError, CommandResult,
    INTERNAL_ERROR_PREFIX, UNKNOWN_STATUS,
};
use ettac::error::Error;
use ettac::text::{contains_str, find_str};

#[test]
fn format_writes_marker_and_code() {
    assert_eq!(
        AccessError::format(AccessError::DirectoryNotFound),
        "__ettac_internal_error::1"
    );
}

#[test]
fn is_recognizes_formatted_error() {
    let formatted = AccessError::format(AccessError::DirectoryNotFound);
    assert!(AccessError::is(&formatted));
    assert!(AccessError::is(&format!("bash: line 1\n{}\n", formatted)));
}

#[test]
fn is_rejects_plain_output() {
    assert!(!AccessError::is("permission denied"));
    assert!(!AccessError::is(""));
    assert!(!AccessError::is("__ettac_internal_error:"));
}

#[test]
fn code_after_marker_reads_next_char() {
    assert_eq!(
        AccessError::code_after_marker("x __ettac_internal_error::1\n"),
        Some('1')
    );
    assert_eq!(AccessError::code_after_marker("__ettac_internal_error::"), None);
    assert_eq!(AccessError::code_after_marker("nothing here"), None);
    assert_eq!(
        AccessError::code_after_marker("__ettac_internal_error::\u{1}__ettac_internal_error::9"),
        Some('\u{1}')
    );
}

#[test]
fn from_stderr_gives_directory_not_found() {
    let stderr = format!("{}\u{1}", INTERNAL_ERROR_PREFIX);
    assert_eq!(AccessError::from_stderr(&stderr), AccessError::DirectoryNotFound);
}

#[test]
fn remote_command_wraps_in_cd() {
    assert_eq!(
        remote_command("/srv/app", "ls -la"),
        "if cd /srv/app; then ls -la; else >&2 echo '__ettac_internal_error::1'; exit; fi"
    );
}

#[test]
fn finish_remote_keeps_output_and_status() {
    let r = finish_remote(Some(3), "out".to_string(), "err".to_string());
    assert_eq!(
        r,
        Ok(CommandResult { status: 3, stdout: "out".to_string(), stderr: "err".to_string() })
    );
}

#[test]
fn finish_remote_without_status_records_unknown() {
    let r = finish_remote(None, String::new(), String::new()).unwrap();
    assert_eq!(r.status, UNKNOWN_STATUS);
    assert_eq!(r.status, -42398);
}

#[test]
fn finish_remote_reports_access_error() {
    let stderr = format!("oops {}\u{1}\n", INTERNAL_ERROR_PREFIX);
    assert_eq!(
        finish_remote(Some(0), String::new(), stderr),
        Err(Error::Access(AccessError::DirectoryNotFound))
    );
}

#[test]
fn command_result_from_output() {
    let r = CommandResult::from_output(None, "a".to_string(), "b".to_string());
    assert_eq!(r.status, -42398);
    assert_eq!(r.stdout, "a");
    assert_eq!(r.stderr, "b");
    assert_eq!(CommandResult::from_output(Some(-1), String::new(), String::new()).status, -1);
}

#[test]
fn local_command_is_split_into_words() {
    assert_eq!(
        parse_local_command("echo 'a b' c").unwrap(),
        vec!["echo".to_string(), "a b".to_string(), "c".to_string()]
    );
    assert_eq!(parse_local_command("").unwrap(), Vec::<String>::new());
}

#[test]
fn unbalanced_quote_is_unparseable() {
    assert_eq!(
        parse_local_command("echo 'a"),
        Err(Error::UnparseableCommand("echo 'a".to_string()))
    );
}

#[test]
fn find_str_gives_first_char_position() {
    assert_eq!(find_str("abcabc", "ca"), Some(2));
    assert_eq!(find_str("abc", ""), Some(0));
    assert_eq!(find_str("abc", "abcd"), None);
    assert_eq!(find_str("ééx", "x"), Some(2));
    assert!(contains_str("hello world", "o w"));
    assert!(!contains_str("hello", "world"));
}
