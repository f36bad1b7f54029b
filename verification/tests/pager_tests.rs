use helpv::history::History;
use helpv::fetcher::ContentSource;
use helpv::pager::Pager;

fn pager_with_lines(n: usize) -> Pager {
    let mut text = String::new();
    for i in 0..n {
        text.push_str(&format!("line {}\n", i));
    }
    Pager::new(text)
}

// ========================================
// Scrolling
// ========================================

#[test]
fn new_pager_splits_lines_and_starts_at_top() {
    let p = Pager::new("one\ntwo\r\nthree".to_string());
    assert_eq!(p.content, vec!["one", "two", "three"]);
    assert_eq!(p.scroll, 0);
    assert!(p.search_query.is_none());
}

#[test]
fn scroll_down_and_up_move_by_the_amount() {
    let mut p = pager_with_lines(50);
    p.scroll_down(3);
    assert_eq!(p.scroll, 3);
    p.scroll_up(2);
    assert_eq!(p.scroll, 1);
    p.scroll_up(10);
    assert_eq!(p.scroll, 0);
}

#[test]
fn scroll_to_bottom_shows_the_last_viewport() {
    let mut p = pager_with_lines(50);
    p.scroll_to_bottom(20);
    assert_eq!(p.scroll, 30);
    let mut short = pager_with_lines(5);
    short.scroll_to_bottom(20);
    assert_eq!(short.scroll, 0);
}

#[test]
fn clamp_scroll_limits_the_offset() {
    let mut p = pager_with_lines(50);
    p.scroll_down(1000);
    p.clamp_scroll(20);
    assert_eq!(p.scroll, 30);
}

#[test]
fn scroll_percentage_is_exact() {
    let mut p = pager_with_lines(120);
    assert_eq!(p.scroll_percentage(20), 0);
    p.scroll_down(50);
    assert_eq!(p.scroll_percentage(20), 50);
    p.scroll_down(50);
    assert_eq!(p.scroll_percentage(20), 100);
    let short = pager_with_lines(5);
    assert_eq!(short.scroll_percentage(20), 100);
}

// ========================================
// Search
// ========================================

#[test]
fn set_search_collects_matching_lines_case_insensitively() {
    let mut p = Pager::new("Alpha\nbeta\nALPHA BETA\ngamma\n".to_string());
    p.set_search("alpha");
    assert_eq!(p.search_query.as_deref(), Some("alpha"));
    assert_eq!(p.search_matches, vec![0, 2]);
    assert_eq!(p.current_match, 0);
}

#[test]
fn empty_search_clears_state() {
    let mut p = Pager::new("Alpha\nbeta\n".to_string());
    p.set_search("alpha");
    p.set_search("");
    assert!(p.search_query.is_none());
    assert!(p.search_matches.is_empty());
}

#[test]
fn next_and_prev_match_wrap_and_scroll() {
    let mut p = Pager::new("x\nhit\ny\nhit\nz\n".to_string());
    p.set_search("hit");
    assert_eq!(p.search_matches, vec![1, 3]);
    p.next_match();
    assert_eq!(p.current_match, 1);
    assert_eq!(p.scroll, 3);
    p.next_match();
    assert_eq!(p.current_match, 0);
    assert_eq!(p.scroll, 1);
    p.prev_match();
    assert_eq!(p.current_match, 1);
    assert_eq!(p.scroll, 3);
    assert_eq!(p.match_count(), 2);
    assert_eq!(p.current_match_index(), 1);
}

#[test]
fn next_match_without_matches_is_a_no_op() {
    let mut p = Pager::new("a\nb\n".to_string());
    p.next_match();
    p.prev_match();
    assert_eq!(p.scroll, 0);
    assert_eq!(p.current_match, 0);
}

// ========================================
// History stack
// ========================================

#[test]
fn history_push_pop_is_lifo() {
    let mut h = History::new();
    assert!(h.is_empty());
    h.push(vec!["git".to_string()], 5, ContentSource::Help);
    h.push(vec!["git".to_string(), "log".to_string()], 9, ContentSource::Man);
    assert_eq!(h.len(), 2);
    let top = h.pop().unwrap();
    assert_eq!(top.command, vec!["git", "log"]);
    assert_eq!(top.scroll_position, 9);
    assert_eq!(top.source, ContentSource::Man);
    assert_eq!(h.len(), 1);
    assert_eq!(h.current().unwrap().command, vec!["git"]);
    h.pop();
    assert!(h.pop().is_none());
}

#[test]
fn breadcrumbs_join_the_last_tokens() {
    let mut h = History::new();
    h.push(vec!["git".to_string()], 0, ContentSource::Help);
    h.push(vec!["git".to_string(), "remote".to_string()], 0, ContentSource::Help);
    let current = vec!["git".to_string(), "remote".to_string(), "add".to_string()];
    assert_eq!(h.breadcrumb_string(&current), "git > remote > add");
    assert_eq!(h.full_breadcrumb(&current), "git remote add");
}
