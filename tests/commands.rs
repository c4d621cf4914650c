use std::collections::HashMap;

use monokkai::cli::{GitArgs, GitSubcommand, HttpAction, LogArgs};
use monokkai::docker::image_reference;
use monokkai::git::{
    build_commit_message, changed_files, commit_kinds, commit_outcome, git_plan, is_commit_successful,
    push_outcome, summary_fits, CommitKind, CommitOutcome, GitPlan, PushOutcome,
};
use monokkai::history::{log_args, log_line, LogLine};
use monokkai::http::{http_request, parse_headers, HttpMethod};
use monokkai::plugin::PluginError;
use monokkai::scan::advisories_url;

fn strings(v: &[&str]) -> Vec<String> {
    v.iter().map(|s| s.to_string()).collect()
}

fn as_map(headers: Vec<(String, String)>) -> HashMap<String, String> {
    let n = headers.len();
    let map: HashMap<String, String> = headers.into_iter().collect();
    assert_eq!(map.len(), n, "names listed twice");
    map
}

#[test]
fn parse_headers_splits_at_first_colon_and_trims() {
    let raw = strings(&["Content-Type: application/json", "X-Token:   abc  ", "Url: http://x:80/a"]);
    let map = as_map(parse_headers(raw));
    assert_eq!(map.len(), 3);
    assert_eq!(map["Content-Type"], "application/json");
    assert_eq!(map["X-Token"], "abc");
    assert_eq!(map["Url"], "http://x:80/a");
}

#[test]
fn parse_headers_skips_lines_without_colon() {
    let map = as_map(parse_headers(strings(&["no colon here", "A: 1"])));
    assert_eq!(map.len(), 1);
    assert_eq!(map["A"], "1");
}

#[test]
fn parse_headers_later_line_wins() {
    let headers = parse_headers(strings(&["A: 1", "B: 2", "A : 3"]));
    assert_eq!(headers, vec![("A".to_string(), "3".to_string()), ("B".to_string(), "2".to_string())]);
}

#[test]
fn parse_headers_empty_input_and_empty_parts() {
    assert!(parse_headers(vec![]).is_empty());
    let headers = parse_headers(strings(&[":", " : v"]));
    assert_eq!(headers, vec![("".to_string(), "v".to_string())]);
}

#[test]
fn parse_headers_trims_unicode_white_space() {
    let headers = parse_headers(strings(&["\u{a0}\tName\u{3000}:\u{2003}value\r"]));
    assert_eq!(headers, vec![("Name".to_string(), "value".to_string())]);
}

#[test]
fn http_request_carries_method_body_and_headers() {
    let action = HttpAction::Post {
        url: "https://example.org/x".to_string(),
        body: Some("{\"a\":1}".to_string()),
        headers: strings(&["Accept: text/plain"]),
    };
    let request = http_request(action);
    assert_eq!(request.method, HttpMethod::Post);
    assert_eq!(request.url, "https://example.org/x");
    assert_eq!(request.body, Some("{\"a\":1}".to_string()));
    assert_eq!(request.headers, vec![("Accept".to_string(), "text/plain".to_string())]);
}

#[test]
fn http_request_without_body() {
    let request = http_request(HttpAction::Head { url: "u".to_string(), headers: vec![] });
    assert_eq!(request.method, HttpMethod::Head);
    assert_eq!(request.body, None);
    assert!(request.headers.is_empty());
    let request = http_request(HttpAction::Options { url: "v".to_string(), headers: strings(&["k:v"]) });
    assert_eq!(request.method, HttpMethod::Options);
    assert_eq!(request.url, "v");
}

#[test]
fn commit_success_is_read_from_error_output() {
    assert!(is_commit_successful(""));
    assert!(is_commit_successful("[main 1a2b3c4] add thing"));
    assert!(is_commit_successful("odd ] only"));
    assert!(!is_commit_successful("error: pathspec did not match"));
}

#[test]
fn commit_outcomes() {
    assert_eq!(commit_outcome(""), CommitOutcome::Created);
    assert_eq!(commit_outcome("[main abc] msg"), CommitOutcome::Created);
    assert_eq!(commit_outcome("On branch main\nnothing to commit, working tree clean"), CommitOutcome::NothingToCommit);
    assert_eq!(commit_outcome("fatal: not a git repository"), CommitOutcome::Failed);
}

#[test]
fn push_outcomes() {
    assert_eq!(push_outcome(true, "Updates were rejected"), PushOutcome::Pushed);
    assert_eq!(push_outcome(false, "! [rejected]\nhint: Updates were rejected because"), PushOutcome::Rejected);
    assert_eq!(push_outcome(false, "fatal: no remote"), PushOutcome::Failed);
}

fn git_args(add: bool, push: bool, pull: bool, rebase: bool, sub: Option<GitSubcommand>) -> GitArgs {
    GitArgs { message: Some("m".to_string()), push, add, pull, rebase, subcommand: sub }
}

#[test]
fn git_plan_from_top_level_flags() {
    let plan = git_plan(&git_args(true, false, false, true, None));
    assert_eq!(plan, GitPlan { interactive: false, stage: true, push: false, pull: true, rebase: true });
    let plan = git_plan(&git_args(false, true, false, false, None));
    assert_eq!(plan, GitPlan { interactive: false, stage: false, push: true, pull: false, rebase: false });
}

#[test]
fn git_plan_from_interactive_flags() {
    let sub = GitSubcommand::Cz { add: true, push: true, pull: true, rebase: true };
    let plan = git_plan(&git_args(false, false, false, false, Some(sub)));
    assert_eq!(plan, GitPlan { interactive: true, stage: true, push: true, pull: true, rebase: false });
}

#[test]
fn commit_message_forms() {
    assert_eq!(build_commit_message("feat", "", "add x", "", None), "feat: add x");
    assert_eq!(build_commit_message("fix", "parser", "handle y", "", None), "fix(parser): handle y");
    assert_eq!(
        build_commit_message("docs", "readme", "explain", "Longer text.", Some("BREAKING CHANGE:")),
        "docs(readme): explain\n\nLonger text.\n\nBREAKING CHANGE:"
    );
    assert_eq!(build_commit_message("chore", "", "bump", "", Some("B")), "chore: bump\n\nB");
}

#[test]
fn summary_limit_counts_bytes() {
    assert!(summary_fits(&"a".repeat(75)));
    assert!(!summary_fits(&"a".repeat(76)));
    assert!(summary_fits(""));
    assert!(!summary_fits(&"\u{e9}".repeat(38)));
}

#[test]
fn porcelain_status_is_sorted_by_change() {
    let status = " M src/a.rs\nA  new.rs\n D gone.rs\n?? untracked.rs\nMM both.rs\nxy\nR  old -> new\n";
    let files = changed_files(status);
    assert_eq!(files.modified, strings(&["src/a.rs", "both.rs"]));
    assert_eq!(files.added, strings(&["new.rs"]));
    assert_eq!(files.deleted, strings(&["gone.rs"]));
}

#[test]
fn porcelain_status_without_final_newline_or_lines() {
    let files = changed_files("AM last.rs  ");
    assert_eq!(files.modified, strings(&["last.rs"]));
    assert!(files.added.is_empty());
    let files = changed_files("");
    assert!(files.modified.is_empty() && files.added.is_empty() && files.deleted.is_empty());
}

#[test]
fn image_reference_defaults_to_latest() {
    assert_eq!(image_reference("me", "app", None), "me/app:latest");
    assert_eq!(image_reference("me", "app", Some("v1.2")), "me/app:v1.2");
}

#[test]
fn advisories_url_appends_path() {
    assert_eq!(advisories_url("src/lib"), "https://api.github.com/advisories?path=src/lib");
}

#[test]
fn log_lines_are_sorted() {
    assert_eq!(log_line("* 1a2b3c4 - Ann : x"), LogLine::Graph);
    assert_eq!(log_line("| * abc - d"), LogLine::Graph);
    assert_eq!(
        log_line("1a2b3c4 - Ann : fix - again"),
        LogLine::Entry { hash: "1a2b3c4".to_string(), rest: "Ann : fix - again".to_string() }
    );
    assert_eq!(log_line("*no space"), LogLine::Plain);
    assert_eq!(log_line(""), LogLine::Plain);
}

#[test]
fn commit_kinds_in_prompt_order() {
    let labels: Vec<&str> = commit_kinds().into_iter().map(|k| k.label()).collect();
    assert_eq!(labels, vec!["feat", "fix", "docs", "style", "refactor", "perf", "test", "chore"]);
    assert_eq!(CommitKind::Fix.description(), "A bug fix");
}

#[test]
fn plugin_error_messages() {
    assert_eq!(PluginError::LoadError("x".to_string()).message(), "Failed to load library: x");
    assert_eq!(PluginError::InitError.message(), "Plugin initialization failed");
    assert_eq!(PluginError::PluginNotFoundError("g".to_string()).message(), "Plugin not found: g");
    assert_eq!(PluginError::DuplicateNameError("g".to_string()).message(), "Plugin already registered: g");
    assert_eq!(PluginError::SymbolError("s".to_string()).message(), "Entry symbol not found: s");
    assert_eq!(PluginError::ExecutionError("e".to_string()).message(), "Plugin execution failed: e");
}

const PRETTY: &str = "--pretty=format:%C(yellow)%h%Creset - %C(bold blue)%an%Creset : %s";

#[test]
fn log_args_default() {
    let args = LogArgs { compact: false, limit: None, graph: false };
    assert_eq!(log_args(&args), strings(&["log", PRETTY, "--date=short"]));
}

#[test]
fn log_args_with_every_option() {
    let args = LogArgs { compact: true, limit: Some(120), graph: true };
    assert_eq!(log_args(&args), strings(&["log", PRETTY, "--date=short", "--oneline", "--graph", "-120"]));
    let args = LogArgs { compact: false, limit: Some(0), graph: false };
    assert_eq!(log_args(&args).last().unwrap(), "-0");
    let args = LogArgs { compact: false, limit: Some(usize::MAX), graph: true };
    assert_eq!(log_args(&args).last().unwrap(), &format!("-{}", usize::MAX));
}

#[test]
fn porcelain_status_with_crlf_line_ends() {
    let files = changed_files(" M a.rs\r\nA  b.rs\r\n");
    assert_eq!(files.modified, strings(&["a.rs"]));
    assert_eq!(files.added, strings(&["b.rs"]));
    let files = changed_files("M \r\n");
    assert!(files.modified.is_empty() && files.added.is_empty() && files.deleted.is_empty());
}

#[test]
fn porcelain_status_counts_bytes() {
    let files = changed_files("\u{e9}M x\nD  \u{e9}t\u{e9}.txt\n");
    assert!(files.modified.is_empty());
    assert_eq!(files.deleted, strings(&["\u{e9}t\u{e9}.txt"]));
    let files = changed_files("M\nAM\nA\r\n");
    assert!(files.modified.is_empty() && files.added.is_empty());
}
