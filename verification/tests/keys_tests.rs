use helpv::config::KeyConfig;
use helpv::keys::{key_to_string, matches_key, Action, Key, KeyCode, KeyHandler};

fn make_key(code: KeyCode) -> Key {
    Key::plain(code)
}

fn make_key_ctrl(c: char) -> Key {
    Key { code: KeyCode::Char(c), ctrl: true, alt: false, shift: false }
}

fn make_key_shift(code: KeyCode) -> Key {
    Key { code, ctrl: false, alt: false, shift: true }
}

// ========================================
// key_to_string tests
// ========================================

#[test]
fn key_to_string_plain_char() {
    let key = make_key(KeyCode::Char('a'));
    assert_eq!(key_to_string(&key), "a");
}

#[test]
fn key_to_string_uppercase() {
    // Uppercase letters come through as-is
    let key = make_key(KeyCode::Char('G'));
    assert_eq!(key_to_string(&key), "G");
}

#[test]
fn key_to_string_ctrl_modifier() {
    let key = make_key_ctrl('u');
    assert_eq!(key_to_string(&key), "Ctrl-u");
}

#[test]
fn key_to_string_escape() {
    let key = make_key(KeyCode::Esc);
    assert_eq!(key_to_string(&key), "Escape");
}

#[test]
fn key_to_string_enter() {
    let key = make_key(KeyCode::Enter);
    assert_eq!(key_to_string(&key), "Enter");
}

#[test]
fn key_to_string_backspace() {
    let key = make_key(KeyCode::Backspace);
    assert_eq!(key_to_string(&key), "Backspace");
}

#[test]
fn key_to_string_arrows() {
    assert_eq!(key_to_string(&make_key(KeyCode::Up)), "Up");
    assert_eq!(key_to_string(&make_key(KeyCode::Down)), "Down");
    assert_eq!(key_to_string(&make_key(KeyCode::Left)), "Left");
    assert_eq!(key_to_string(&make_key(KeyCode::Right)), "Right");
}

#[test]
fn key_to_string_f_keys() {
    assert_eq!(key_to_string(&make_key(KeyCode::F(1))), "F1");
    assert_eq!(key_to_string(&make_key(KeyCode::F(12))), "F12");
}

#[test]
fn key_to_string_page_keys() {
    assert_eq!(key_to_string(&make_key(KeyCode::PageUp)), "PageUp");
    assert_eq!(key_to_string(&make_key(KeyCode::PageDown)), "PageDown");
}

#[test]
fn key_to_string_home_end() {
    assert_eq!(key_to_string(&make_key(KeyCode::Home)), "Home");
    assert_eq!(key_to_string(&make_key(KeyCode::End)), "End");
}

#[test]
fn key_to_string_shift_special_key() {
    let key = make_key_shift(KeyCode::Up);
    assert_eq!(key_to_string(&key), "Shift-Up");
}

// ========================================
// matches_key tests
// ========================================

#[test]
fn matches_key_direct_string_match() {
    let key = make_key(KeyCode::Char('q'));
    let key_str = key_to_string(&key);
    assert!(matches_key("q", &key_str, &key));
}

#[test]
fn matches_key_space() {
    let key = make_key(KeyCode::Char(' '));
    let key_str = key_to_string(&key);
    assert!(matches_key("Space", &key_str, &key));
}

#[test]
fn matches_key_escape_full() {
    let key = make_key(KeyCode::Esc);
    let key_str = key_to_string(&key);
    assert!(matches_key("Escape", &key_str, &key));
}

#[test]
fn matches_key_esc_shorthand() {
    let key = make_key(KeyCode::Esc);
    let key_str = key_to_string(&key);
    assert!(matches_key("Esc", &key_str, &key));
}

#[test]
fn matches_key_ctrl_u() {
    let key = make_key_ctrl('u');
    let key_str = key_to_string(&key);
    assert!(matches_key("Ctrl-u", &key_str, &key));
}

#[test]
fn matches_key_ctrl_case_insensitive() {
    let key = make_key_ctrl('u');
    let key_str = key_to_string(&key);
    assert!(matches_key("Ctrl-U", &key_str, &key));
}

#[test]
fn matches_key_case_insensitive_fallback() {
    let key = make_key(KeyCode::Char('q'));
    let key_str = key_to_string(&key);
    assert!(matches_key("Q", &key_str, &key));
}

#[test]
fn matches_key_no_false_positive() {
    let key = make_key(KeyCode::Char('a'));
    let key_str = key_to_string(&key);
    assert!(!matches_key("b", &key_str, &key));
}

// ========================================
// KeyHandler gg sequence tests
// ========================================

fn default_key_config() -> KeyConfig {
    let mut config = KeyConfig::default();
    config.quit = vec!["q".to_string()];
    config.scroll_up = vec!["k".to_string()];
    config.scroll_down = vec!["j".to_string()];
    config.top = vec!["gg".to_string()];
    config.bottom = vec!["G".to_string()];
    config.half_page_up = vec!["Ctrl-u".to_string()];
    config.half_page_down = vec!["Ctrl-d".to_string()];
    config.page_up = vec!["Ctrl-b".to_string()];
    config.page_down = vec!["Ctrl-f".to_string()];
    config.search = vec!["/".to_string()];
    config.next_match = vec!["n".to_string()];
    config.prev_match = vec!["N".to_string()];
    config.find_subcommand = vec!["f".to_string()];
    config.open_command = vec!["o".to_string()];
    config.back = vec!["Backspace".to_string()];
    config.help = vec!["?".to_string()];
    config
}

#[test]
fn gg_first_g_sets_pending() {
    let mut handler = KeyHandler::new(default_key_config());
    let result = handler.handle(make_key(KeyCode::Char('g')));
    assert!(result.is_none());
    assert!(handler.pending_g);
}

#[test]
fn gg_second_g_returns_top() {
    let mut handler = KeyHandler::new(default_key_config());
    handler.handle(make_key(KeyCode::Char('g'))); // First g
    let result = handler.handle(make_key(KeyCode::Char('g'))); // Second g
    assert_eq!(result, Some(Action::Top));
    assert!(!handler.pending_g);
}

#[test]
fn gg_non_g_after_g_clears_pending() {
    let mut handler = KeyHandler::new(default_key_config());
    handler.handle(make_key(KeyCode::Char('g'))); // First g
    let result = handler.handle(make_key(KeyCode::Char('j'))); // j instead of g
    assert_eq!(result, Some(Action::ScrollDown));
    assert!(!handler.pending_g);
}

#[test]
fn gg_reset_pending_clears_state() {
    let mut handler = KeyHandler::new(default_key_config());
    handler.handle(make_key(KeyCode::Char('g'))); // Set pending
    handler.reset_pending();
    assert!(!handler.pending_g);
}

// ========================================
// KeyHandler action mapping tests
// ========================================

#[test]
fn handler_quit() {
    let mut handler = KeyHandler::new(default_key_config());
    let result = handler.handle(make_key(KeyCode::Char('q')));
    assert_eq!(result, Some(Action::Quit));
}

#[test]
fn handler_scroll_up() {
    let mut handler = KeyHandler::new(default_key_config());
    let result = handler.handle(make_key(KeyCode::Char('k')));
    assert_eq!(result, Some(Action::ScrollUp));
}

#[test]
fn handler_scroll_down() {
    let mut handler = KeyHandler::new(default_key_config());
    let result = handler.handle(make_key(KeyCode::Char('j')));
    assert_eq!(result, Some(Action::ScrollDown));
}

#[test]
fn handler_half_page_up() {
    let mut handler = KeyHandler::new(default_key_config());
    let result = handler.handle(make_key_ctrl('u'));
    assert_eq!(result, Some(Action::HalfPageUp));
}

#[test]
fn handler_half_page_down() {
    let mut handler = KeyHandler::new(default_key_config());
    let result = handler.handle(make_key_ctrl('d'));
    assert_eq!(result, Some(Action::HalfPageDown));
}

#[test]
fn handler_bottom() {
    let mut handler = KeyHandler::new(default_key_config());
    let result = handler.handle(make_key(KeyCode::Char('G')));
    assert_eq!(result, Some(Action::Bottom));
}

#[test]
fn handler_search() {
    let mut handler = KeyHandler::new(default_key_config());
    let result = handler.handle(make_key(KeyCode::Char('/')));
    assert_eq!(result, Some(Action::Search));
}

#[test]
fn handler_open_finder() {
    let mut handler = KeyHandler::new(default_key_config());
    let result = handler.handle(make_key(KeyCode::Char('f')));
    assert_eq!(result, Some(Action::OpenFinder));
}

#[test]
fn handler_unmapped_key_returns_none() {
    let mut handler = KeyHandler::new(default_key_config());
    let result = handler.handle(make_key(KeyCode::Char('z')));
    assert!(result.is_none());
}
