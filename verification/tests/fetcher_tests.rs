use helpv::config::Config;
use helpv::fetcher::{
    evaluate_request, fetch_help, fetch_help_with_invoke, invoke_argv, invoke_source,
    looks_like_help, plan_requests, strip_man_formatting, ContentSource, FetchError,
    ProcessOutput, RequestKind,
};

fn out(success: bool, stdout: &str, stderr: &str) -> ProcessOutput {
    ProcessOutput { success, stdout: stdout.to_string(), stderr: stderr.to_string() }
}

// ========================================
// strip_man_formatting tests
// ========================================

#[test]
fn strip_backspace_sequences() {
    // Bold in man pages: char + backspace + char (e.g., N\x08N = bold N)
    let input = "N\x08NA\x08AM\x08ME\x08E";
    let result = strip_man_formatting(input);
    assert_eq!(result, "NAME");
}

#[test]
fn strip_underline_sequences() {
    // Underline in man pages: underscore + backspace + char
    let input = "_\x08f_\x08o_\x08o";
    let result = strip_man_formatting(input);
    assert_eq!(result, "foo");
}

#[test]
fn strip_ansi_escape_codes() {
    let input = "\x1b[1mBold\x1b[0m and \x1b[32mgreen\x1b[0m text";
    let result = strip_man_formatting(input);
    assert_eq!(result, "Bold and green text");
}

#[test]
fn strip_mixed_formatting() {
    let input = "\x1b[1mH\x08He\x08el\x08lp\x08p\x1b[0m - description";
    let result = strip_man_formatting(input);
    assert_eq!(result, "Help - description");
}

#[test]
fn strip_preserves_normal_text() {
    let input = "This is normal text without any formatting";
    let result = strip_man_formatting(input);
    assert_eq!(result, input);
}

#[test]
fn strip_handles_empty_string() {
    let result = strip_man_formatting("");
    assert_eq!(result, "");
}

#[test]
fn strip_handles_newlines() {
    let input = "Line one\nLine two\nLine three";
    let result = strip_man_formatting(input);
    assert_eq!(result, "Line one\nLine two\nLine three");
}

#[test]
fn strip_complex_ansi_sequences() {
    // ANSI with multiple parameters: \x1b[38;5;196m (256-color red)
    let input = "\x1b[38;5;196mred\x1b[0m";
    let result = strip_man_formatting(input);
    assert_eq!(result, "red");
}

#[test]
fn strip_twice_same_as_once() {
    let once = strip_man_formatting("plain text, already free of formatting");
    let twice = strip_man_formatting(&once);
    assert_eq!(once, twice);
}

// ========================================
// looks_like_help tests
// ========================================

#[test]
fn looks_like_help_usage_lowercase() {
    assert!(looks_like_help("usage: program [options]"));
}

#[test]
fn looks_like_help_usage_titlecase() {
    assert!(looks_like_help("Usage: program [options]"));
}

#[test]
fn looks_like_help_usage_uppercase() {
    assert!(looks_like_help("USAGE: program [options]"));
}

#[test]
fn looks_like_help_options() {
    assert!(looks_like_help("options: -h, --help"));
}

#[test]
fn looks_like_help_commands() {
    assert!(looks_like_help("commands:\n  build  Build the project"));
}

#[test]
fn looks_like_help_double_dash_help() {
    assert!(looks_like_help("Use --help for more information"));
}

#[test]
fn looks_like_help_synopsis() {
    assert!(looks_like_help("SYNOPSIS\n    program [options]"));
}

#[test]
fn looks_like_help_random_text_false() {
    assert!(!looks_like_help("This is just random text"));
}

#[test]
fn looks_like_help_error_message_false() {
    assert!(!looks_like_help("Error: command not found"));
}

#[test]
fn looks_like_help_empty_false() {
    assert!(!looks_like_help(""));
}

#[test]
fn looks_like_help_case_insensitive() {
    assert!(looks_like_help("USAGE: foo"));
    assert!(looks_like_help("Usage: foo"));
    assert!(looks_like_help("usage: foo"));
    assert!(looks_like_help("OPTIONS: bar"));
    assert!(looks_like_help("Options: bar"));
    assert!(looks_like_help("options: bar"));
}

// ========================================
// fetch planning and selection
// ========================================

#[test]
fn fetch_empty_path_is_no_command() {
    let config = Config::default_config();
    let cmd: Vec<String> = Vec::new();
    let outputs: Vec<ProcessOutput> = Vec::new();
    let r = fetch_help(&cmd, &config, &outputs);
    assert!(matches!(r, Err(FetchError::NoCommand)));
}

#[test]
fn plan_uses_generic_templates_and_man_fallback() {
    let config = Config::default_config();
    let cmd = vec!["mytool".to_string()];
    let reqs = plan_requests(&cmd, &config).unwrap();
    // {cmd} --help, {cmd} -h, man mytool, man mytool (single-token retry)
    assert_eq!(reqs.len(), 4);
    assert_eq!(reqs[0].argv, vec!["mytool", "--help"]);
    assert_eq!(reqs[1].argv, vec!["mytool", "-h"]);
    assert_eq!(reqs[2].argv, vec!["man", "mytool"]);
    assert!(matches!(reqs[2].kind, RequestKind::Man));
    assert_eq!(reqs[3].argv, vec!["man", "mytool"]);
}

#[test]
fn plan_subcommand_templates() {
    let config = Config::default_config();
    let cmd = vec!["git".to_string(), "commit".to_string()];
    let reqs = plan_requests(&cmd, &config).unwrap();
    // {cmd} --help, {base} help {sub}, {cmd} -h, man git-commit
    assert_eq!(reqs.len(), 4);
    assert_eq!(reqs[0].argv, vec!["git", "commit", "--help"]);
    assert_eq!(reqs[1].argv, vec!["git", "help", "commit"]);
    assert_eq!(reqs[2].argv, vec!["git", "commit", "-h"]);
    assert_eq!(reqs[3].argv, vec!["man", "git-commit"]);
}

#[test]
fn later_template_with_output_is_selected() {
    let config = Config::default_config();
    let cmd = vec!["mytool".to_string()];
    let outputs = vec![
        out(false, "", ""),
        out(true, "usage: mytool things", ""),
    ];
    let r = fetch_help(&cmd, &config, &outputs).unwrap();
    assert_eq!(r.0, "usage: mytool things");
    assert_eq!(r.1, ContentSource::Help);
}

#[test]
fn man_fallback_is_deformatted() {
    let config = Config::default_config();
    let cmd = vec!["mytool".to_string()];
    let outputs = vec![
        out(false, "", ""),
        out(false, "", ""),
        out(true, "N\x08NA\x08AM\x08ME\x08E\n       mytool - does things\n", ""),
    ];
    let r = fetch_help(&cmd, &config, &outputs).unwrap();
    assert_eq!(r.1, ContentSource::Man);
    assert_eq!(r.0, "NAME\n       mytool - does things\n");
}

#[test]
fn all_stubs_empty_is_fetch_failed() {
    let config = Config::default_config();
    let cmd = vec!["mytool".to_string()];
    let outputs = vec![out(false, "", ""), out(false, "", ""), out(false, "", ""), out(false, "", "")];
    let r = fetch_help(&cmd, &config, &outputs);
    match r {
        Err(FetchError::FetchFailed { command }) => assert_eq!(command, vec!["mytool"]),
        _ => panic!("expected a failed fetch"),
    }
}

#[test]
fn stderr_of_successful_run_is_accepted() {
    let r = evaluate_request(RequestKind::Help, &out(true, "   ", "help on stderr"));
    assert_eq!(r.unwrap(), "help on stderr");
}

#[test]
fn stderr_of_failed_run_needs_help_markers() {
    let r = evaluate_request(RequestKind::Help, &out(false, "", "an error happened"));
    assert!(r.is_none());
    let r2 = evaluate_request(RequestKind::Help, &out(false, "", "usage: mytool"));
    assert_eq!(r2.unwrap(), "usage: mytool");
}

#[test]
fn man_output_needs_success() {
    let r = evaluate_request(RequestKind::Man, &out(false, "NAME", ""));
    assert!(r.is_none());
}

// ========================================
// Direct invocation
// ========================================

#[test]
fn invoke_argv_expands_placeholders() {
    let argv = invoke_argv("git", "tutorial", "{base} help {name}");
    assert_eq!(argv, vec!["git", "help", "tutorial"]);
}

#[test]
fn invoke_empty_template_is_refused() {
    let r = fetch_help_with_invoke("git", "x", "   ", &out(true, "text", ""));
    assert!(matches!(r, Err(FetchError::NoCommand)));
}

#[test]
fn invoke_prefers_stdout() {
    let r = fetch_help_with_invoke("git", "tutorial", "man {name}", &out(true, "page text", "noise"));
    assert_eq!(r.unwrap(), "page text");
}

#[test]
fn invoke_failure_names_the_pair() {
    let r = fetch_help_with_invoke("git", "tutorial", "man {name}", &out(false, "", ""));
    match r {
        Err(FetchError::FetchFailed { command }) => assert_eq!(command, vec!["git", "tutorial"]),
        _ => panic!("expected a failed fetch"),
    }
}

#[test]
fn invoke_source_follows_man_prefix() {
    assert_eq!(invoke_source("man {name}"), ContentSource::Man);
    assert_eq!(invoke_source("{base} help {name}"), ContentSource::Help);
}
