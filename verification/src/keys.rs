//! Key handling: a terminal-independent key model, the symbolic name each
//! key renders to, the binding-table match rules, and the two-key `gg`
//! sequence.
use vstd::prelude::*;

use crate::config::KeyConfig;
use crate::text::{char_eq_ci, chars_match_ci, str_eq, str_to_chars, chars_to_string, starts_with, chars_starts_with};

verus! {

/// A key, reduced to what the binding rules read.
#[derive(Debug, Clone, Copy, PartialEq, Eq, Structural)]
pub enum KeyCode {
    Char(char),
    Esc,
    Enter,
    Backspace,
    Tab,
    Up,
    Down,
    Left,
    Right,
    Home,
    End,
    PageUp,
    PageDown,
    F(u8),
    Other,
}

/// A key event: the key and its modifiers.
#[derive(Debug, Clone, Copy, PartialEq, Eq, Structural)]
pub struct Key {
    pub code: KeyCode,
    pub ctrl: bool,
    pub alt: bool,
    pub shift: bool,
}

impl Key {
    pub fn plain(code: KeyCode) -> (k: Key)
        ensures
            k == (Key { code, ctrl: false, alt: false, shift: false }),
    {
        Key { code, ctrl: false, alt: false, shift: false }
    }
}

/// What a key press asks the pager to do.
#[derive(Debug, Clone, Copy, PartialEq, Eq, Structural)]
pub enum Action {
    Quit,
    ScrollUp,
    ScrollDown,
    HalfPageUp,
    HalfPageDown,
    PageUp,
    PageDown,
    Top,
    Bottom,
    Search,
    NextMatch,
    PrevMatch,
    OpenFinder,
    OpenCommand,
    Back,
    ShowHelp,
}

// ---------------------------------------------------------------------------
// Rendering a key as its symbolic name
// ---------------------------------------------------------------------------
/// The decimal digits of `n`, most significant first.
pub open spec fn dec_spec(n: int) -> Seq<char>
    decreases n,
{
    if n < 10 {
        seq![digit_char(n)]
    } else {
        dec_spec(n / 10).push(digit_char(n % 10))
    }
}

pub open spec fn digit_char(d: int) -> char {
    if d == 0 {
        '0'
    } else if d == 1 {
        '1'
    } else if d == 2 {
        '2'
    } else if d == 3 {
        '3'
    } else if d == 4 {
        '4'
    } else if d == 5 {
        '5'
    } else if d == 6 {
        '6'
    } else if d == 7 {
        '7'
    } else if d == 8 {
        '8'
    } else {
        '9'
    }
}

fn digit_of(d: u8) -> (c: char)
    requires
        d < 10,
    ensures
        c == digit_char(d as int),
{
    if d == 0 {
        '0'
    } else if d == 1 {
        '1'
    } else if d == 2 {
        '2'
    } else if d == 3 {
        '3'
    } else if d == 4 {
        '4'
    } else if d == 5 {
        '5'
    } else if d == 6 {
        '6'
    } else if d == 7 {
        '7'
    } else if d == 8 {
        '8'
    } else {
        '9'
    }
}

fn u8_decimal(n: u8) -> (r: Vec<char>)
    ensures
        r@ == dec_spec(n as int),
{
    let mut r: Vec<char> = Vec::new();
    if n >= 100 {
        let a = n / 10;
        r.push(digit_of(a / 10));
        r.push(digit_of(a % 10));
        r.push(digit_of(n % 10));
        proof {
            assert(dec_spec(n as int) == dec_spec(a as int).push(digit_char(n as int % 10)));
            assert(dec_spec(a as int) == dec_spec(a as int / 10).push(digit_char(a as int % 10)));
            assert(r@ =~= dec_spec(n as int));
        }
    } else if n >= 10 {
        r.push(digit_of(n / 10));
        r.push(digit_of(n % 10));
        proof {
            assert(dec_spec(n as int) == dec_spec(n as int / 10).push(digit_char(n as int % 10)));
            assert(r@ =~= dec_spec(n as int));
        }
    } else {
        r.push(digit_of(n));
        proof {
            assert(r@ =~= dec_spec(n as int));
        }
    }
    r
}

/// The name of a key code alone, without modifier prefixes.
pub open spec fn code_name(code: KeyCode) -> Seq<char> {
    match code {
        KeyCode::Char(c) => seq![c],
        KeyCode::Esc => "Escape"@,
        KeyCode::Enter => "Enter"@,
        KeyCode::Backspace => "Backspace"@,
        KeyCode::Tab => "Tab"@,
        KeyCode::Up => "Up"@,
        KeyCode::Down => "Down"@,
        KeyCode::Left => "Left"@,
        KeyCode::Right => "Right"@,
        KeyCode::Home => "Home"@,
        KeyCode::End => "End"@,
        KeyCode::PageUp => "PageUp"@,
        KeyCode::PageDown => "PageDown"@,
        KeyCode::F(n) => seq!['F'] + dec_spec(n as int),
        KeyCode::Other => "Unknown"@,
    }
}

/// The full symbolic name: `Ctrl-` and `Alt-` prefixes, `Shift-` only for
/// non-character keys, then the code name.
pub open spec fn key_name(key: Key) -> Seq<char> {
    let shift_shown = key.shift && !(key.code matches KeyCode::Char(_));
    (if key.ctrl {
        "Ctrl-"@
    } else {
        Seq::<char>::empty()
    }) + (if key.alt {
        "Alt-"@
    } else {
        Seq::<char>::empty()
    }) + (if shift_shown {
        "Shift-"@
    } else {
        Seq::<char>::empty()
    }) + code_name(key.code)
}

/// Renders a key as the symbolic name the binding table uses.
pub fn key_to_string(key: &Key) -> (r: String)
    ensures
        r@ == key_name(*key),
{
    let mut s: Vec<char> = Vec::new();
    if key.ctrl {
        let mut p = str_to_chars("Ctrl-");
        s.append(&mut p);
    }
    if key.alt {
        let mut p = str_to_chars("Alt-");
        s.append(&mut p);
    }
    let is_char = match key.code {
        KeyCode::Char(_) => true,
        _ => false,
    };
    if key.shift && !is_char {
        let mut p = str_to_chars("Shift-");
        s.append(&mut p);
    }
    let mut tail: Vec<char> = match key.code {
        KeyCode::Char(c) => {
            let mut v: Vec<char> = Vec::new();
            v.push(c);
            v
        },
        KeyCode::Esc => str_to_chars("Escape"),
        KeyCode::Enter => str_to_chars("Enter"),
        KeyCode::Backspace => str_to_chars("Backspace"),
        KeyCode::Tab => str_to_chars("Tab"),
        KeyCode::Up => str_to_chars("Up"),
        KeyCode::Down => str_to_chars("Down"),
        KeyCode::Left => str_to_chars("Left"),
        KeyCode::Right => str_to_chars("Right"),
        KeyCode::Home => str_to_chars("Home"),
        KeyCode::End => str_to_chars("End"),
        KeyCode::PageUp => str_to_chars("PageUp"),
        KeyCode::PageDown => str_to_chars("PageDown"),
        KeyCode::F(n) => {
            let mut v: Vec<char> = Vec::new();
            v.push('F');
            let mut d = u8_decimal(n);
            v.append(&mut d);
            v
        },
        KeyCode::Other => str_to_chars("Unknown"),
    };
    proof {
        assert(tail@ == code_name(key.code));
    }
    s.append(&mut tail);
    proof {
        assert(s@ =~= key_name(*key));
    }
    chars_to_string(&s)
}

// ---------------------------------------------------------------------------
// Matching a binding pattern against a key
// ---------------------------------------------------------------------------
/// ASCII-case-insensitive sequence equality.
pub open spec fn seq_eq_ci(a: Seq<char>, b: Seq<char>) -> bool {
    a.len() == b.len() && forall|i: int| 0 <= i < a.len() ==> char_eq_ci(a[i], b[i])
}

pub fn chars_eq_ci(a: &Vec<char>, b: &Vec<char>) -> (r: bool)
    ensures
        r == seq_eq_ci(a@, b@),
{
    if a.len() != b.len() {
        return false;
    }
    let mut i: usize = 0;
    while i < a.len()
        invariant
            0 <= i <= a@.len(),
            a@.len() == b@.len(),
            forall|k: int| 0 <= k < i ==> char_eq_ci(a@[k], b@[k]),
        decreases a@.len() - i,
    {
        if !chars_match_ci(a[i], b[i]) {
            return false;
        }
        i += 1;
    }
    true
}

/// Whether one binding pattern matches a key: the exact symbolic name, the
/// `Space` and `Escape`/`Esc` aliases, a case-insensitive `Ctrl-` pattern
/// against a control character, or a case-insensitive name match.
pub open spec fn spec_matches_key(pattern: Seq<char>, key: Key) -> bool {
    if pattern == key_name(key) {
        true
    } else if pattern == "Space"@ {
        key.code == KeyCode::Char(' ')
    } else if pattern == "Escape"@ || pattern == "Esc"@ {
        key.code is Esc
    } else if starts_with(pattern, "Ctrl-"@) {
        match key.code {
            KeyCode::Char(c) => key.ctrl && seq_eq_ci(pattern.skip(5), seq![c]),
            _ => false,
        }
    } else {
        seq_eq_ci(pattern, key_name(key))
    }
}

/// Matches one binding pattern against a key and its rendered name.
pub fn matches_key(pattern: &str, key_str: &str, key: &Key) -> (r: bool)
    requires
        key_str@ == key_name(*key),
    ensures
        r == spec_matches_key(pattern@, *key),
{
    if str_eq(pattern, key_str) {
        return true;
    }
    if str_eq(pattern, "Space") {
        return match key.code {
            KeyCode::Char(c) => c == ' ',
            _ => false,
        };
    }
    if str_eq(pattern, "Escape") || str_eq(pattern, "Esc") {
        return match key.code {
            KeyCode::Esc => true,
            _ => false,
        };
    }
    let pat_chars = str_to_chars(pattern);
    let ctrl_prefix = str_to_chars("Ctrl-");
    proof {
        reveal_strlit("Ctrl-");
    }
    if chars_starts_with(&pat_chars, &ctrl_prefix) {
        return match key.code {
            KeyCode::Char(c) => {
                if !key.ctrl {
                    false
                } else {
                    let part = crate::text::chars_slice(&pat_chars, 5, pat_chars.len());
                    let mut cv: Vec<char> = Vec::new();
                    cv.push(c);
                    proof {
                        assert(part@ =~= pattern@.skip(5));
                        assert(cv@ =~= seq![c]);
                    }
                    chars_eq_ci(&part, &cv)
                }
            },
            _ => false,
        };
    }
    let name_chars = str_to_chars(key_str);
    chars_eq_ci(&pat_chars, &name_chars)
}

/// Whether any pattern in a binding list matches the key.
pub open spec fn list_matches(patterns: Seq<Seq<char>>, key: Key) -> bool {
    exists|i: int| 0 <= i < patterns.len() && spec_matches_key(#[trigger] patterns[i], key)
}

#[verifier::loop_isolation(false)]
fn any_match(patterns: &Vec<String>, key_str: &str, key: &Key) -> (r: bool)
    requires
        key_str@ == key_name(*key),
    ensures
        r == list_matches(patterns.deep_view(), *key),
{
    let mut i: usize = 0;
    while i < patterns.len()
        invariant
            0 <= i <= patterns@.len(),
            forall|k: int| 0 <= k < i ==> !spec_matches_key(
                #[trigger] patterns.deep_view()[k],
                *key,
            ),
        decreases patterns@.len() - i,
    {
        if matches_key(patterns[i].as_str(), key_str, key) {
            proof {
                assert(spec_matches_key(patterns.deep_view()[i as int], *key));
            }
            return true;
        }
        i += 1;
    }
    false
}

/// The action the binding table assigns to a key, checking the action lists
/// in a fixed priority order.
pub open spec fn spec_binding(cfg: &KeyConfig, key: Key) -> Option<Action> {
    if list_matches(cfg.quit.deep_view(), key) {
        Some(Action::Quit)
    } else if list_matches(cfg.scroll_up.deep_view(), key) {
        Some(Action::ScrollUp)
    } else if list_matches(cfg.scroll_down.deep_view(), key) {
        Some(Action::ScrollDown)
    } else if list_matches(cfg.half_page_up.deep_view(), key) {
        Some(Action::HalfPageUp)
    } else if list_matches(cfg.half_page_down.deep_view(), key) {
        Some(Action::HalfPageDown)
    } else if list_matches(cfg.page_up.deep_view(), key) {
        Some(Action::PageUp)
    } else if list_matches(cfg.page_down.deep_view(), key) {
        Some(Action::PageDown)
    } else if list_matches(cfg.top.deep_view(), key) {
        Some(Action::Top)
    } else if list_matches(cfg.bottom.deep_view(), key) {
        Some(Action::Bottom)
    } else if list_matches(cfg.search.deep_view(), key) {
        Some(Action::Search)
    } else if list_matches(cfg.next_match.deep_view(), key) {
        Some(Action::NextMatch)
    } else if list_matches(cfg.prev_match.deep_view(), key) {
        Some(Action::PrevMatch)
    } else if list_matches(cfg.find_subcommand.deep_view(), key) {
        Some(Action::OpenFinder)
    } else if list_matches(cfg.open_command.deep_view(), key) {
        Some(Action::OpenCommand)
    } else if list_matches(cfg.back.deep_view(), key) {
        Some(Action::Back)
    } else if list_matches(cfg.help.deep_view(), key) {
        Some(Action::ShowHelp)
    } else {
        None
    }
}

/// Resolves keys to actions, tracking the pending first `g` of the `gg`
/// sequence.
pub struct KeyHandler {
    pub config: KeyConfig,
    pub pending_g: bool,
}

/// What `handle` does: a pending `g` followed by another `g` jumps to the
/// top; a bare unmodified `g` arms the sequence; everything else goes
/// through the binding table.  The second component is the new pending flag.
pub open spec fn spec_handle(cfg: &KeyConfig, pending: bool, key: Key) -> (Option<Action>, bool) {
    if pending && key.code == KeyCode::Char('g') {
        (Some(Action::Top), false)
    } else if key.code == KeyCode::Char('g') && !key.ctrl && !key.alt && !key.shift {
        (None, true)
    } else {
        (spec_binding(cfg, key), false)
    }
}

impl KeyHandler {
    pub fn new(config: KeyConfig) -> (r: KeyHandler)
        ensures
            r.config == config,
            r.pending_g == false,
    {
        KeyHandler { config, pending_g: false }
    }

    /// Resolves one key press to an action, if any.
    pub fn handle(&mut self, key: Key) -> (r: Option<Action>)
        ensures
            final(self).config == old(self).config,
            (r, final(self).pending_g) == spec_handle(&old(self).config, old(self).pending_g, key),
    {
        if self.pending_g {
            self.pending_g = false;
            let is_g = match key.code {
                KeyCode::Char(c) => c == 'g',
                _ => false,
            };
            if is_g {
                return Some(Action::Top);
            }
        }
        let is_plain_g = match key.code {
            KeyCode::Char(c) => c == 'g' && !key.ctrl && !key.alt && !key.shift,
            _ => false,
        };
        if is_plain_g {
            self.pending_g = true;
            return None;
        }
        self.match_key(&key)
    }

    fn match_key(&self, key: &Key) -> (r: Option<Action>)
        ensures
            r == spec_binding(&self.config, *key),
    {
        let key_str = key_to_string(key);
        let ks = key_str.as_str();
        if any_match(&self.config.quit, ks, key) {
            return Some(Action::Quit);
        }
        if any_match(&self.config.scroll_up, ks, key) {
            return Some(Action::ScrollUp);
        }
        if any_match(&self.config.scroll_down, ks, key) {
            return Some(Action::ScrollDown);
        }
        if any_match(&self.config.half_page_up, ks, key) {
            return Some(Action::HalfPageUp);
        }
        if any_match(&self.config.half_page_down, ks, key) {
            return Some(Action::HalfPageDown);
        }
        if any_match(&self.config.page_up, ks, key) {
            return Some(Action::PageUp);
        }
        if any_match(&self.config.page_down, ks, key) {
            return Some(Action::PageDown);
        }
        if any_match(&self.config.top, ks, key) {
            return Some(Action::Top);
        }
        if any_match(&self.config.bottom, ks, key) {
            return Some(Action::Bottom);
        }
        if any_match(&self.config.search, ks, key) {
            return Some(Action::Search);
        }
        if any_match(&self.config.next_match, ks, key) {
            return Some(Action::NextMatch);
        }
        if any_match(&self.config.prev_match, ks, key) {
            return Some(Action::PrevMatch);
        }
        if any_match(&self.config.find_subcommand, ks, key) {
            return Some(Action::OpenFinder);
        }
        if any_match(&self.config.open_command, ks, key) {
            return Some(Action::OpenCommand);
        }
        if any_match(&self.config.back, ks, key) {
            return Some(Action::Back);
        }
        if any_match(&self.config.help, ks, key) {
            return Some(Action::ShowHelp);
        }
        None
    }

    /// Clears a pending `g`.
    pub fn reset_pending(&mut self)
        ensures
            final(self).pending_g == false,
            final(self).config == old(self).config,
    {
        self.pending_g = false;
    }
}

} // verus!
