use helpv::config::Config;
use helpv::fetcher::ContentSource;
use helpv::keys::{Key, KeyCode};
use helpv::session::{AppState, FetchTask, Session};
use helpv::switcher::{CommandSwitcher, SwitcherAction};
use helpv::toolpacks::{ToolPack, ToolPackEntry, ToolPacks};

fn ch(c: char) -> Key {
    Key::plain(KeyCode::Char(c))
}

fn git_help() -> String {
    [
        "usage: git [--version] [--help] <command> [<args>]",
        "",
        "start a working area (see also: git help tutorial)",
        "   clone     Clone a repository into a new directory",
        "   init      Create an empty Git repository",
        "",
        "grow, mark and tweak your common history",
        "   commit    Record changes to the repository",
        "   merge     Join two or more development histories together",
        "",
    ]
    .join("\n")
}

fn new_git_session() -> Session {
    Session::new(
        vec!["git".to_string()],
        Config::default_config(),
        git_help(),
        ContentSource::Help,
    )
}

// ========================================
// Drill-in and back
// ========================================

#[test]
fn drill_into_subcommand_and_back() {
    let mut session = new_git_session();
    assert_eq!(session.state, AppState::Paging);
    session.pager.scroll_down(4);

    // Open the finder and narrow it down to `commit`.
    assert!(session.handle_key(ch('f')).is_none());
    assert_eq!(session.state, AppState::Finding);
    assert!(session.handle_key(ch('c')).is_none());
    assert!(session.handle_key(ch('o')).is_none());
    assert!(session.handle_key(ch('m')).is_none());

    let task = session.handle_key(Key::plain(KeyCode::Enter)).expect("a drill task");
    let path = match &task {
        FetchTask::Path { command } => command.clone(),
        _ => panic!("expected a path drill"),
    };
    assert_eq!(path, vec!["git", "commit"]);
    assert_eq!(session.history.len(), 1);
    assert_eq!(session.history.current().unwrap().command, vec!["git"]);
    assert_eq!(session.history.current().unwrap().scroll_position, 4);

    session.apply_fetch_success(task, "usage: git commit\n\nno subcommands here\n".to_string(), ContentSource::Help);
    assert_eq!(session.state, AppState::Paging);
    assert_eq!(session.current_command, vec!["git", "commit"]);
    assert_eq!(session.pager.scroll, 0);

    // Backspace pops the stack; applying the re-fetch restores the place.
    let back = session.handle_key(Key::plain(KeyCode::Backspace)).expect("a back task");
    match &back {
        FetchTask::Back { entry } => {
            assert_eq!(entry.command, vec!["git"]);
            assert_eq!(entry.scroll_position, 4);
        },
        _ => panic!("expected a back task"),
    }
    session.apply_fetch_success(back, git_help(), ContentSource::Help);
    assert_eq!(session.current_command, vec!["git"]);
    assert_eq!(session.pager.scroll, 4);
    assert!(session.history.is_empty());
}

#[test]
fn failed_drill_rolls_the_stack_back() {
    let mut session = new_git_session();
    session.handle_key(ch('f'));
    session.handle_key(ch('c'));
    session.handle_key(ch('o'));
    session.handle_key(ch('m'));
    let task = session.handle_key(Key::plain(KeyCode::Enter)).expect("a drill task");
    assert_eq!(session.history.len(), 1);
    session.apply_fetch_failure(task, "could not fetch".to_string());
    assert!(session.history.is_empty());
    assert_eq!(session.state, AppState::Paging);
    assert!(session.error_message.is_some());
    assert_eq!(session.current_command, vec!["git"]);
}

// ========================================
// Switching
// ========================================

#[test]
fn switching_to_a_new_name_opens_it_once() {
    let mut session = new_git_session();
    assert!(session.handle_key(ch('o')).is_none());
    assert_eq!(session.state, AppState::Switching);
    // "tar" is not in the command history; the typed query becomes the command.
    session.handle_key(ch('t'));
    session.handle_key(ch('a'));
    session.handle_key(ch('r'));
    let task = session.handle_key(Key::plain(KeyCode::Enter)).expect("a switch task");
    match &task {
        FetchTask::Switch { command } => assert_eq!(command, "tar"),
        _ => panic!("expected a switch task"),
    }
    session.apply_fetch_success(task, "usage: tar\n".to_string(), ContentSource::Help);
    assert_eq!(session.current_command, vec!["tar"]);
    assert!(session.history.is_empty());
    assert_eq!(session.command_history, vec!["git", "tar"]);

    // Opening it again later does not duplicate the history entry.
    session.apply_fetch_success(
        FetchTask::Switch { command: "tar".to_string() },
        "usage: tar\n".to_string(),
        ContentSource::Help,
    );
    assert_eq!(session.command_history, vec!["git", "tar"]);
}

#[test]
fn escape_closes_the_overlays() {
    let mut session = new_git_session();
    session.handle_key(ch('f'));
    assert_eq!(session.state, AppState::Finding);
    assert!(session.finder.is_some());
    assert!(session.handle_key(Key::plain(KeyCode::Esc)).is_none());
    assert_eq!(session.state, AppState::Paging);
    assert!(session.finder.is_none());

    session.handle_key(ch('o'));
    assert_eq!(session.state, AppState::Switching);
    assert!(session.switcher.is_some());
    assert!(session.handle_key(Key::plain(KeyCode::Esc)).is_none());
    assert_eq!(session.state, AppState::Paging);
    assert!(session.switcher.is_none());
}

// ========================================
// The gg sequence in paging
// ========================================

#[test]
fn pending_g_then_j_scrolls_down() {
    let mut session = new_git_session();
    assert!(session.handle_key(ch('g')).is_none());
    assert_eq!(session.pager.scroll, 0);
    assert!(session.handle_key(ch('j')).is_none());
    // The second key is interpreted as scroll-down, not jump-to-top.
    assert_eq!(session.pager.scroll, 1);
    // A real gg jumps to the top.
    session.handle_key(ch('g'));
    session.handle_key(ch('g'));
    assert_eq!(session.pager.scroll, 0);
}

// ========================================
// Search mode
// ========================================

#[test]
fn live_search_commits_on_enter() {
    let mut session = new_git_session();
    session.handle_key(ch('/'));
    assert_eq!(session.state, AppState::Searching);
    session.handle_key(ch('c'));
    session.handle_key(ch('l'));
    session.handle_key(ch('o'));
    assert!(session.pager.match_count() >= 1);
    session.handle_key(Key::plain(KeyCode::Enter));
    assert_eq!(session.state, AppState::Paging);
    assert_eq!(session.pager.search_query.as_deref(), Some("clo"));
}

// ========================================
// Help overlay
// ========================================

#[test]
fn help_overlay_closes_on_question_mark() {
    let mut session = new_git_session();
    session.handle_key(ch('?'));
    assert_eq!(session.state, AppState::Help);
    session.handle_key(ch('x'));
    assert_eq!(session.state, AppState::Help);
    session.handle_key(ch('?'));
    assert_eq!(session.state, AppState::Paging);
}

// ========================================
// Discovery plumbing
// ========================================

#[test]
fn discovery_request_is_handed_out_once() {
    let mut session = new_git_session();
    let req = session.take_discovery_request();
    assert_eq!(req.as_deref(), Some("git"));
    assert!(session.take_discovery_request().is_none());
}

#[test]
fn merged_discoveries_drop_known_names() {
    let mut session = new_git_session();
    let before = session.subcommands.len();
    session.merge_discovered(vec![
        helpv::parser::Subcommand {
            name: "clone".to_string(),
            description: None,
            label: Some("Man Pages".to_string()),
            invoke_command: Some("man clone".to_string()),
        },
        helpv::parser::Subcommand {
            name: "git-extras".to_string(),
            description: None,
            label: Some("Man Pages".to_string()),
            invoke_command: Some("man git-extras".to_string()),
        },
    ]);
    assert_eq!(session.subcommands.len(), before + 1);
    assert_eq!(session.subcommands.last().unwrap().name, "git-extras");
}

// ========================================
// Switcher overlay behavior
// ========================================

#[test]
fn switcher_ranks_history_and_falls_back_to_query() {
    let mut sw = CommandSwitcher::new(vec!["git".to_string(), "cargo".to_string()]);
    assert_eq!(sw.filtered_count(), 2);
    sw.push_char('g');
    assert!(sw.filtered_count() >= 1);
    assert_eq!(sw.selected_command().as_deref(), Some("git"));
    // A query nothing matches is offered as a new command.
    sw.push_char('z');
    sw.push_char('z');
    assert_eq!(sw.filtered_count(), 0);
    assert_eq!(sw.selected_command().as_deref(), Some("gzz"));
    sw.pop_char();
    sw.pop_char();
    assert_eq!(sw.selected_command().as_deref(), Some("git"));
}

#[test]
fn switcher_selection_saturates() {
    let mut sw = CommandSwitcher::new(vec!["one".to_string(), "two".to_string(), "three".to_string()]);
    sw.move_up();
    assert_eq!(sw.selected, 0);
    sw.move_down();
    sw.move_down();
    sw.move_down();
    sw.move_down();
    assert_eq!(sw.selected, 2);
}

#[test]
fn switcher_enter_selects() {
    let mut sw = CommandSwitcher::new(vec!["git".to_string()]);
    match sw.handle_key(Key::plain(KeyCode::Enter)) {
        SwitcherAction::Select(cmd) => assert_eq!(cmd, "git"),
        _ => panic!("expected a selection"),
    }
}

// ========================================
// Toolpack lookup
// ========================================

#[test]
fn toolpack_lookup_and_template_fallbacks() {
    let packs = ToolPacks {
        tools: vec![ToolPackEntry {
            name: "git".to_string(),
            pack: ToolPack {
                help: vec!["git help".to_string()],
                subcommand: Vec::new(),
                discover: Vec::new(),
            },
        }],
    };
    let pack = packs.get("git").expect("the pack");
    assert_eq!(pack.get_help_commands(), vec!["git help"]);
    assert_eq!(
        pack.get_subcommand_commands(),
        vec!["{cmd} --help", "{base} help {sub}"]
    );
    assert!(packs.get("tar").is_none());
}
