use gmux::commands::{command_line, git_argv, shell_argv};
use gmux::git::{
    branch_on_remote, expand_branch_macros, get_diff_file_names, metadata_from_outputs,
    RepositoryMetadata,
};
use gmux::process::CommandOutput;
use gmux::text::{replace_all, split_lines, trim};

fn out(code: Option<i32>, stdout: &str) -> CommandOutput {
    CommandOutput::from_status(code, stdout.as_bytes(), b"")
}

#[test]
fn test_get_default_branch() {
    let head = out(Some(0), "main\n");
    let symbolic = CommandOutput::from_status(Some(128), b"", b"fatal: ref refs/remotes/origin/HEAD is not a symbolic ref\n");
    let meta = metadata_from_outputs(&head, &symbolic);
    assert_eq!(meta.default_branch, "main");
}

#[test]
fn test_get_current_branch() {
    let head = out(Some(0), "main\n");
    let symbolic = out(Some(128), "");
    let meta = metadata_from_outputs(&head, &symbolic);
    assert_eq!(meta.current_branch, "main");
}

#[test]
fn default_branch_from_remote_head() {
    let head = out(Some(0), "feature-x\n");
    let symbolic = out(Some(0), "refs/remotes/origin/develop\n");
    let meta = metadata_from_outputs(&head, &symbolic);
    assert_eq!(meta.current_branch, "feature-x");
    assert_eq!(meta.default_branch, "develop");
}

#[test]
fn fallback_when_no_remote_default() {
    for code in [Some(1), Some(128), None] {
        let head = out(Some(0), "  topic  \n");
        let meta = metadata_from_outputs(&head, &out(code, "refs/remotes/origin/main\n"));
        assert_eq!(meta.default_branch, meta.current_branch);
        assert_eq!(meta.current_branch, "topic");
    }
}

#[test]
fn test_get_diff_files() {
    let files = get_diff_file_names("test.txt\n");
    assert_eq!(files, vec!["test.txt"]);
}

#[test]
fn diff_lines_keep_order_and_drop_crlf() {
    assert_eq!(get_diff_file_names("b.txt\r\na.txt\nc.txt"), vec!["b.txt", "a.txt", "c.txt"]);
    assert!(get_diff_file_names("").is_empty());
    assert_eq!(split_lines("\n\nx"), vec!["", "", "x"]);
    assert_eq!(split_lines("x\r"), vec!["x\r"]);
}

#[test]
fn test_run_command_capture() {
    let output = CommandOutput::from_status(Some(0), b"hello\n", b"");
    assert_eq!(output.exit_code, 0);
    assert_eq!(output.stdout.trim(), "hello");
    assert_eq!(output.stderr, "");
    assert!(output.succeeded());

    let output = CommandOutput::from_status(Some(1), b"", b"");
    assert_eq!(output.exit_code, 1);
    assert_eq!(output.stdout, "");
    assert_eq!(output.stderr, "");
    assert!(!output.succeeded());
}

#[test]
fn killed_process_and_invalid_utf8() {
    let output = CommandOutput::from_status(None, b"ok\xffok", b"\xc3");
    assert_eq!(output.exit_code, -1);
    assert!(!output.succeeded());
    assert_eq!(output.stdout, "ok\u{FFFD}ok");
    assert!(output.stderr.contains('\u{FFFD}'));
}

#[test]
fn remote_branch_presence() {
    assert!(branch_on_remote("abc123\trefs/heads/topic\n"));
    assert!(!branch_on_remote(""));
    assert!(!branch_on_remote(" \n\t"));
}

#[test]
fn branch_macros_expand() {
    let meta = RepositoryMetadata { current_branch: "topic".to_string(), default_branch: "main".to_string() };
    let args = vec!["diff".to_string(), "@default...@current".to_string(), "--stat".to_string()];
    assert_eq!(expand_branch_macros(&args, &meta), vec!["diff", "main...topic", "--stat"]);
    let argv = git_argv(&args, &meta);
    assert_eq!(argv, vec!["git", "diff", "main...topic", "--stat"]);
}

#[test]
fn shell_command_line() {
    let words = vec!["echo".to_string(), "test".to_string()];
    assert_eq!(command_line(&words), "echo test");
    assert_eq!(shell_argv(&words), vec!["sh", "-c", "echo test"]);
    assert_eq!(command_line(&Vec::new()), "");
}

#[test]
fn text_primitives() {
    assert_eq!(trim("\u{3000} a b \t\n"), "a b");
    assert_eq!(trim("   "), "");
    assert_eq!(replace_all("aaa", "aa", "b"), "ba");
    assert_eq!(replace_all("x{{ t }}y{{ t }}", "{{ t }}", "-"), "x-y-");
    assert_eq!(replace_all("abc", "z", "q"), "abc");
}
