use resilience_core::parse_git_log;

#[test]
fn parses_formatted_log_lines() {
    let output = "abc123|abc|fix: bug|Ann|2 days ago\n\
                  def456|def|feat: thing|Bo|3 weeks ago\n";
    let commits = parse_git_log(output);
    assert_eq!(commits.len(), 2);
    assert_eq!(commits[0].sha, "abc123");
    assert_eq!(commits[0].short_sha, "abc");
    assert_eq!(commits[0].title, "fix: bug");
    assert_eq!(commits[0].author, "Ann");
    assert_eq!(commits[0].date, "2 days ago");
    assert_eq!(commits[1].sha, "def456");
}

#[test]
fn date_field_keeps_extra_separators() {
    // The fifth field is the rest of the line: a '|' inside it stays.
    let commits = parse_git_log("s|ss|t|a|then | more\n");
    assert_eq!(commits.len(), 1);
    assert_eq!(commits[0].date, "then | more");
}

#[test]
fn malformed_lines_are_skipped() {
    let commits = parse_git_log("only|three|fields\n\na|b|c|d|e\n");
    assert_eq!(commits.len(), 1);
    assert_eq!(commits[0].sha, "a");
    assert_eq!(commits[0].date, "e");
}

#[test]
fn empty_fields_are_preserved() {
    let commits = parse_git_log("||||\n");
    assert_eq!(commits.len(), 1);
    assert_eq!(commits[0].sha, "");
    assert_eq!(commits[0].short_sha, "");
    assert_eq!(commits[0].title, "");
    assert_eq!(commits[0].author, "");
    assert_eq!(commits[0].date, "");
}

#[test]
fn last_line_needs_no_terminator() {
    let commits = parse_git_log("a|b|c|d|e");
    assert_eq!(commits.len(), 1);
    assert_eq!(commits[0].date, "e");
}
