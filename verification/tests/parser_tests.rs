use helpv::config::{Config, SubcommandPattern};
use helpv::parser::{parse_aggressive, parse_git_style, parse_subcommands};

fn test_config() -> Config {
    let mut config = Config::default();
    config.subcommand_patterns = vec![
        SubcommandPattern {
            section: "(?im)^(commands?|subcommands?|available\\s+commands?):?\\s*$".to_string(),
            entry: "^\\s{2,4}([\\w][\\w-]*)\\s+(.*)$".to_string(),
        },
        SubcommandPattern {
            section: "(?im)^(usage|options):?\\s*$".to_string(),
            entry: "^\\s{2,4}([\\w][\\w-]*)\\s{2,}(.*)$".to_string(),
        },
        SubcommandPattern {
            section: "(?i)^\\w+\\s+COMMANDS?\\s*$".to_string(),
            entry: "^\\s{2}([\\w][\\w-]*):\\s+(.*)$".to_string(),
        },
    ];
    config
}

// A git-style help listing in the shape `git --help` prints.
fn git_help_fixture() -> String {
    [
        "usage: git [-v | --version] [-h | --help] [-C <path>] [-c <name>=<value>]",
        "           [--exec-path[=<path>]] [--html-path] [--man-path] [--info-path]",
        "           <command> [<args>]",
        "",
        "These are common Git commands used in various situations:",
        "",
        "start a working area (see also: git help tutorial)",
        "   clone     Clone a repository into a new directory",
        "   init      Create an empty Git repository or reinitialize an existing one",
        "",
        "work on the current change (see also: git help everyday)",
        "   add       Add file contents to the index",
        "   mv        Move or rename a file, a directory, or a symlink",
        "   restore   Restore working tree files",
        "   rm        Remove files from the working tree and from the index",
        "",
        "grow, mark and tweak your common history",
        "   commit    Record changes to the repository",
        "   merge     Join two or more development histories together",
        "   rebase    Reapply commits on top of another base tip",
        "",
        "collaborate (see also: git help workflows)",
        "   fetch     Download objects and refs from another repository",
        "   pull      Fetch from and integrate with another repository or a local branch",
        "   push      Update remote refs along with associated objects",
        "",
        "'git help -a' and 'git help -g' list available subcommands and some",
        "concept guides.",
        "",
    ]
    .join("\n")
}

// A commands listing in the shape `cargo --help` prints.
fn cargo_help_fixture() -> String {
    [
        "Rust's package manager",
        "",
        "Usage: cargo [OPTIONS] [COMMAND]",
        "",
        "Commands:",
        "    build      Compile the current package",
        "    check      Analyze the current package and report errors",
        "    clean      Remove artifacts from the target directory",
        "    doc        Build this package's and its dependencies' documentation",
        "    new        Create a new cargo package",
        "    run        Run a binary or example of the local package",
        "    test       Run the tests",
        "",
        "See 'cargo help <command>' for more information on a specific command.",
        "",
    ]
    .join("\n")
}

// A colon-entry listing in the shape `gh --help` prints.
fn gh_help_fixture() -> String {
    [
        "Work seamlessly with GitHub from the command line.",
        "",
        "USAGE",
        "  gh <command> <subcommand> [flags]",
        "",
        "CORE COMMANDS",
        "  auth:        Authenticate gh and git with GitHub",
        "  issue:       Manage issues",
        "  pr:          Manage pull requests",
        "  repo:        Manage repositories",
        "",
        "ADDITIONAL COMMANDS",
        "  alias:       Create command shortcuts",
        "  api:         Make an authenticated GitHub API request",
        "",
    ]
    .join("\n")
}

// ========================================
// parse_subcommands tests - pattern-based
// ========================================

#[test]
fn parse_standard_commands_section() {
    let help = "\nCommands:\n  build    Compile the project\n  test     Run the tests\n  clean    Remove build artifacts\n";
    let config = test_config();
    let subs = parse_subcommands(help, &config);
    assert_eq!(subs.len(), 3);
    assert_eq!(subs[0].name, "build");
    assert_eq!(subs[0].description.as_deref(), Some("Compile the project"));
    assert_eq!(subs[1].name, "test");
    assert_eq!(subs[2].name, "clean");
}

#[test]
fn parse_uppercase_commands_section() {
    let help = "\nCOMMANDS:\n  init     Initialize a new project\n  deploy   Deploy to production\n";
    let config = test_config();
    let subs = parse_subcommands(help, &config);
    assert_eq!(subs.len(), 2);
    assert_eq!(subs[0].name, "init");
    assert_eq!(subs[1].name, "deploy");
}

#[test]
fn parse_section_terminated_by_double_blank() {
    let help = "\nCommands:\n  first    First command\n  second   Second command\n\n\nThis is some other text that should be ignored.\n  notacmd  This should not be parsed\n";
    let config = test_config();
    let subs = parse_subcommands(help, &config);
    assert_eq!(subs.len(), 2);
    assert_eq!(subs[0].name, "first");
    assert_eq!(subs[1].name, "second");
}

#[test]
fn parse_section_terminated_by_new_header() {
    let help = "\nCommands:\n  cmd1     First command\n  cmd2     Second command\nOptions:\n  -v       Verbose mode\n";
    let config = test_config();
    let subs = parse_subcommands(help, &config);
    assert_eq!(subs.len(), 2);
    assert!(!subs.iter().any(|s| s.name == "v"));
}

#[test]
fn parse_skips_flags() {
    let help = "\nCommands:\n  run      Run the application\n  --help   Show help message\n  -v       Verbose mode\n  build    Build the project\n";
    let config = test_config();
    let subs = parse_subcommands(help, &config);
    assert_eq!(subs.len(), 2);
    assert!(subs.iter().any(|s| s.name == "run"));
    assert!(subs.iter().any(|s| s.name == "build"));
    assert!(!subs.iter().any(|s| s.name.starts_with('-')));
}

#[test]
fn parse_deduplicates_subcommands() {
    let help = "\nCommands:\n  build    Compile the project\n\nSubcommands:\n  build    Build (duplicate)\n  test     Run tests\n";
    let config = test_config();
    let subs = parse_subcommands(help, &config);
    let build_count = subs.iter().filter(|s| s.name == "build").count();
    assert_eq!(build_count, 1);
}

// ========================================
// parse_git_style tests
// ========================================

#[test]
fn parse_git_style_basic() {
    let help = git_help_fixture();
    let subs = parse_git_style(&help);

    assert!(subs.iter().any(|s| s.name == "clone"));
    assert!(subs.iter().any(|s| s.name == "init"));
    assert!(subs.iter().any(|s| s.name == "add"));
    assert!(subs.iter().any(|s| s.name == "commit"));
    assert!(subs.iter().any(|s| s.name == "push"));
    assert!(subs.iter().any(|s| s.name == "pull"));
}

#[test]
fn parse_git_style_lowercase_section_headers() {
    let help = "\nusage: git [options] <command>\n\nstart a working area (see also: git help tutorial)\n   clone      Clone a repository\n   init       Create an empty repository\n\nwork on the current change\n   add        Add file contents\n";
    let subs = parse_git_style(help);
    assert_eq!(subs.len(), 3);
    assert!(subs.iter().any(|s| s.name == "clone"));
    assert!(subs.iter().any(|s| s.name == "init"));
    assert!(subs.iter().any(|s| s.name == "add"));
}

#[test]
fn parse_git_style_skips_usage_block() {
    let help = "\nusage: git [-v | --version] [-h | --help]\n           [--exec-path[=<path>]] [--html-path]\n           <command> [<args>]\n\nstart a working area\n   clone      Clone a repository\n";
    let subs = parse_git_style(help);
    assert_eq!(subs.len(), 1);
    assert_eq!(subs[0].name, "clone");
}

#[test]
fn parse_git_style_stops_at_footer() {
    let help = "\nusage: git [options]\n\ncollaborate\n   fetch      Download objects\n   push       Update remote refs\n\n'git help -a' lists all available commands.\n   notacmd    This should not be parsed\n";
    let subs = parse_git_style(help);
    assert_eq!(subs.len(), 2);
    assert!(subs.iter().any(|s| s.name == "fetch"));
    assert!(subs.iter().any(|s| s.name == "push"));
    assert!(!subs.iter().any(|s| s.name == "notacmd"));
}

#[test]
fn parse_git_style_requires_3_space_indent() {
    let help = "\nusage: test\n\nsection header\n   valid      This has 3 space indent\n  invalid    This has 2 space indent\n    alsoinvalid  This has 4 space indent\n";
    let subs = parse_git_style(help);
    assert_eq!(subs.len(), 1);
    assert_eq!(subs[0].name, "valid");
}

// ========================================
// parse_aggressive tests
// ========================================

#[test]
fn parse_aggressive_detects_command_keyword() {
    let help = "\nAvailable commands:\n  init      Initialize project\n  run       Run the app\n";
    let subs = parse_aggressive(help);
    assert_eq!(subs.len(), 2);
    assert!(subs.iter().any(|s| s.name == "init"));
    assert!(subs.iter().any(|s| s.name == "run"));
}

#[test]
fn parse_aggressive_handles_colon_style() {
    let help = "\nSubcommands:\n  build:    Compile project\n  test:     Run tests\n";
    let subs = parse_aggressive(help);
    assert_eq!(subs.len(), 2);
    assert!(subs.iter().any(|s| s.name == "build"));
    assert!(subs.iter().any(|s| s.name == "test"));
}

#[test]
fn parse_aggressive_handles_variable_indent() {
    let help = "\nAvailable commands:\n  cmd2      Two space indent\n    cmd4    Four space indent\n      cmd6  Six space indent\n";
    let subs = parse_aggressive(help);
    assert_eq!(subs.len(), 3);
}

#[test]
fn parse_aggressive_continues_through_lowercase_category_headers() {
    // The aggressive layer continues through lowercase category headers.
    // Descriptions must avoid the word that opens a section.
    let help = "Available commands:\n  first     Do the first thing\nmore stuff\n  second    Do the second thing\n";
    let subs = parse_aggressive(help);
    assert!(subs.iter().any(|s| s.name == "first"), "Should find 'first'");
    assert!(subs.iter().any(|s| s.name == "second"), "Should find 'second'");
}

// ========================================
// Edge cases
// ========================================

#[test]
fn parse_empty_help_text() {
    let config = test_config();
    let subs = parse_subcommands("", &config);
    assert!(subs.is_empty());
}

#[test]
fn parse_help_with_only_flags() {
    let help = "\nOptions:\n  -h, --help     Show help message\n  -v, --version  Show version\n  -d, --debug    Enable debug mode\n";
    let config = test_config();
    let subs = parse_subcommands(help, &config);
    assert!(subs.is_empty());
}

#[test]
fn parse_real_cargo_help() {
    let help = cargo_help_fixture();
    let config = test_config();
    let subs = parse_subcommands(&help, &config);
    assert!(!subs.is_empty(), "Expected to parse some commands from cargo help");
}

#[test]
fn parse_real_gh_help() {
    let help = gh_help_fixture();
    let config = test_config();
    let subs = parse_subcommands(&help, &config);

    assert!(subs.iter().any(|s| s.name == "auth"));
    assert!(subs.iter().any(|s| s.name == "pr"));
    assert!(subs.iter().any(|s| s.name == "issue"));
    assert!(subs.iter().any(|s| s.name == "repo"));
}

#[test]
fn parse_fallback_chain() {
    // This help text won't match standard patterns, should fall through to git-style
    let help = "\nusage: tool [options]\n\nmain commands\n   foo      Do foo things\n   bar      Do bar things\n";
    let config = test_config();
    let subs = parse_subcommands(help, &config);
    assert!(subs.iter().any(|s| s.name == "foo"));
    assert!(subs.iter().any(|s| s.name == "bar"));
}

#[test]
fn commands_section_yields_entries_in_order() {
    let config = test_config();
    let subs = parse_subcommands("Commands:\n  build    Compile\n  test    Run tests\n", &config);
    assert_eq!(subs.len(), 2);
    assert_eq!(subs[0].name, "build");
    assert_eq!(subs[0].description.as_deref(), Some("Compile"));
    assert_eq!(subs[1].name, "test");
    assert_eq!(subs[1].description.as_deref(), Some("Run tests"));
}

#[test]
fn parse_skips_names_without_token_shape() {
    // The configured entry pattern would capture "9lives", but a subcommand
    // name must open with a letter or underscore.
    let help = "Commands:\n  9lives   A cat utility\n  build    Compile the project\n";
    let config = test_config();
    let subs = parse_subcommands(help, &config);
    assert_eq!(subs.len(), 1);
    assert_eq!(subs[0].name, "build");
}

#[test]
fn aggressive_accepts_two_and_four_space_indents() {
    let subs = parse_aggressive(
        "Available commands:\n  cmd2      Two-space indent\n    cmd4    Four-space indent\n",
    );
    assert!(subs.iter().any(|s| s.name == "cmd2"));
    assert!(subs.iter().any(|s| s.name == "cmd4"));
}

// ========================================
// Global guarantees
// ========================================

#[test]
fn parse_never_returns_flag_names_or_duplicates() {
    let config = test_config();
    let samples = vec![
        git_help_fixture(),
        cargo_help_fixture(),
        gh_help_fixture(),
        "\nCommands:\n  --flag   Not a command\n  real     A command\n".to_string(),
    ];
    for help in samples {
        let subs = parse_subcommands(&help, &config);
        for s in &subs {
            assert!(!s.name.starts_with('-'));
        }
        for i in 0..subs.len() {
            for j in (i + 1)..subs.len() {
                assert_ne!(subs[i].name, subs[j].name);
            }
        }
    }
}
