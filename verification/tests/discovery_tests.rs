use helpv::discovery::{man_k_pattern, merge_discovered_items, parse_man_k, parse_see_also};
use helpv::fetcher::ProcessOutput;
use helpv::parser::Subcommand;
use helpv::toolpacks::DiscoverySource;

// ========================================
// parse_see_also tests
// ========================================

#[test]
fn see_also_standard_format() {
    let content = "NAME\n       git-log - Show commit logs\n\nDESCRIPTION\n       Shows the commit log.\n\nSEE ALSO\n       git-diff(1), git-show(1), git-format-patch(1), unrelated-tool(1)\n\nAUTHOR\n       Written by Linus Torvalds\n";
    let results = parse_see_also(content, "git");
    let names: Vec<&str> = results.iter().map(|s| s.name.as_str()).collect();
    assert!(names.contains(&"git-diff"));
    assert!(names.contains(&"git-show"));
    assert!(names.contains(&"git-format-patch"));
    assert!(!names.contains(&"unrelated-tool"));
    assert!(results.iter().all(|s| s.label.as_deref() == Some("Man Pages")));
    assert!(results.iter().all(|s| s.invoke_command.is_some()));
}

#[test]
fn see_also_mixed_entries() {
    let content = "SEE ALSO\n       curl-config(1), libcurl(3), curl-easy-init(3)\n";
    let results = parse_see_also(content, "curl");
    let names: Vec<&str> = results.iter().map(|s| s.name.as_str()).collect();
    assert!(names.contains(&"curl-config"));
    assert!(names.contains(&"curl-easy-init"));
    // libcurl doesn't start with "curl-"
    assert!(!names.contains(&"libcurl"));
}

#[test]
fn see_also_no_section() {
    let content = "NAME\n       foo - does things\n\nDESCRIPTION\n       It does things.\n";
    let results = parse_see_also(content, "foo");
    assert!(results.is_empty());
}

#[test]
fn see_also_skips_base_command_itself() {
    let content = "SEE ALSO\n       git(1), git-log(1)\n";
    let results = parse_see_also(content, "git");
    let names: Vec<&str> = results.iter().map(|s| s.name.as_str()).collect();
    assert!(!names.contains(&"git"));
    assert!(names.contains(&"git-log"));
}

// ========================================
// man -k probe
// ========================================

#[test]
fn man_k_pattern_escapes_the_base() {
    assert_eq!(man_k_pattern("git"), "^git-");
    assert_eq!(man_k_pattern("g++"), "^g\\+\\+-");
}

#[test]
fn man_k_lines_are_parsed_and_filtered() {
    let text = "git-log (1)          - Show commit logs\ngit-diff(1) - Show changes\nother-tool (1) - Unrelated\nnot a listing line\n";
    let results = parse_man_k("git", text);
    let names: Vec<&str> = results.iter().map(|s| s.name.as_str()).collect();
    assert_eq!(names, vec!["git-log", "git-diff"]);
    assert_eq!(results[0].description.as_deref(), Some("Show commit logs"));
    assert_eq!(results[0].label.as_deref(), Some("Man Pages"));
    assert_eq!(results[0].invoke_command.as_deref(), Some("man git-log"));
}

// ========================================
// Merging
// ========================================

fn plain(name: &str) -> Subcommand {
    Subcommand {
        name: name.to_string(),
        description: None,
        label: None,
        invoke_command: None,
    }
}

#[test]
fn merge_skips_existing_names() {
    let mut subs = vec![plain("build"), plain("test")];
    merge_discovered_items(&mut subs, vec![plain("test"), plain("doc")]);
    let names: Vec<&str> = subs.iter().map(|s| s.name.as_str()).collect();
    assert_eq!(names, vec!["build", "test", "doc"]);
}

#[test]
fn merge_keeps_first_occurrence() {
    let mut subs = vec![Subcommand {
        name: "log".to_string(),
        description: Some("existing entry".to_string()),
        label: None,
        invoke_command: None,
    }];
    merge_discovered_items(&mut subs, vec![Subcommand {
        name: "log".to_string(),
        description: Some("discovered".to_string()),
        label: Some("Man Pages".to_string()),
        invoke_command: Some("man log".to_string()),
    }]);
    assert_eq!(subs.len(), 1);
    assert_eq!(subs[0].description.as_deref(), Some("existing entry"));
}

// ========================================
// Toolpack discovery output parsing
// ========================================

#[test]
fn discovery_source_extracts_items() {
    let source = DiscoverySource {
        label: "Guides".to_string(),
        run: "{base} help -g".to_string(),
        pattern: "^\\s+([\\w-]+)\\s+(.*)$".to_string(),
        invoke: "{base} help {name}".to_string(),
        section: None,
    };
    let output = ProcessOutput {
        success: true,
        stdout: "   tutorial   A tutorial introduction\n   workflows  An overview of recommended workflows\n".to_string(),
        stderr: String::new(),
    };
    let items = source.run_discovery(&output);
    assert_eq!(items.len(), 2);
    assert_eq!(items[0].name, "tutorial");
    assert_eq!(items[0].description.as_deref(), Some("A tutorial introduction"));
    assert_eq!(items[0].label, "Guides");
    assert_eq!(items[0].invoke_template, "{base} help {name}");
}

#[test]
fn discovery_source_respects_section_filter() {
    let source = DiscoverySource {
        label: "All".to_string(),
        run: "{base} list".to_string(),
        pattern: "^\\s+([\\w-]+)\\s*$".to_string(),
        invoke: "{base} {name}".to_string(),
        section: Some("^Main:".to_string()),
    };
    let output = ProcessOutput {
        success: true,
        stdout: "   skipped\nMain:\n   kept\n".to_string(),
        stderr: String::new(),
    };
    let items = source.run_discovery(&output);
    assert_eq!(items.len(), 1);
    assert_eq!(items[0].name, "kept");
}

#[test]
fn discovery_source_ignores_failed_runs() {
    let source = DiscoverySource {
        label: "All".to_string(),
        run: "{base} list".to_string(),
        pattern: "^(\\w+)$".to_string(),
        invoke: "{base} {name}".to_string(),
        section: None,
    };
    let output = ProcessOutput {
        success: false,
        stdout: "anything\n".to_string(),
        stderr: String::new(),
    };
    assert!(source.run_discovery(&output).is_empty());
}

#[test]
fn discovery_source_run_argv_expands_base() {
    let source = DiscoverySource {
        label: "Guides".to_string(),
        run: "{base} help -g".to_string(),
        pattern: "x".to_string(),
        invoke: "{base} help {name}".to_string(),
        section: None,
    };
    assert_eq!(source.run_argv("git"), vec!["git", "help", "-g"]);
}
