//! The navigation state machine: modes, key dispatch, the navigation stack
//! and command history, and the drill/back/switch cycle.  Fetches are
//! returned to the caller as tasks; their outcomes are applied here.
use vstd::prelude::*;

use crate::config::Config;
use crate::discovery::{merge_discovered_items, merge_spec, spec_parse_see_also};
use crate::fetcher::{invoke_source, ContentSource};
use crate::finder::{finder_key_step, finder_wf, Finder, FinderAction};
use crate::history::{History, HistoryEntry};
use crate::keys::{spec_handle, Action, Key, KeyCode, KeyHandler};
use crate::pager::{next_match_step, prev_match_step, search_applied, Pager};
use crate::parser::{parse_subcommands, spec_parse_subcommands, Subcommand};
use crate::switcher::{switcher_key_step, switcher_wf, CommandSwitcher, SwitcherAction};
use crate::text::{split_lines_spec, str_eq};
use crate::toolpacks::clone_strings;

verus! {

/// The mode the viewer is in; overlays dim the pager but do not discard it.
#[derive(Debug, Clone, Copy, PartialEq, Eq, Structural)]
pub enum AppState {
    Paging,
    Searching,
    Finding,
    Switching,
    Help,
}

/// A fetch the caller must perform for the session; its outcome comes back
/// through `apply_fetch_success` or `apply_fetch_failure`.
pub enum FetchTask {
    /// Fetch help for a full command path (drill-in).
    Path { command: Vec<String> },
    /// Run a discovered item's invoke template (lateral navigation).
    Invoke { base: String, name: String, template: String },
    /// Re-fetch the popped history entry's path (going back).
    Back { entry: HistoryEntry },
    /// Open a fresh session context for a single command.
    Switch { command: String },
}

/// An element-wise copy of a subcommand list.
#[verifier::loop_isolation(false)]
pub fn clone_subcommands(v: &Vec<Subcommand>) -> (r: Vec<Subcommand>)
    ensures
        r.deep_view() == v.deep_view(),
{
    let mut r: Vec<Subcommand> = Vec::new();
    let mut i: usize = 0;
    proof {
        assert(r.deep_view() =~~= v.deep_view().take(0));
    }
    while i < v.len()
        invariant
            0 <= i <= v@.len(),
            r.deep_view() =~~= v.deep_view().take(i as int),
        decreases v@.len() - i,
    {
        r.push(crate::discovery::clone_subcommand(&v[i]));
        proof {
            assert(v.deep_view()[i as int] == v@[i as int]@);
            assert(v.deep_view().take(i + 1) =~~= v.deep_view().take(i as int).push(
                v.deep_view()[i as int],
            ));
            assert(r.deep_view() =~~= v.deep_view().take(i + 1));
        }
        i += 1;
    }
    proof {
        assert(v.deep_view().take(v@.len() as int) =~~= v.deep_view());
    }
    r
}

/// Whether a command already sits in the command history.
pub open spec fn spec_history_contains(history: Seq<Seq<char>>, cmd: Seq<char>) -> bool {
    exists|i: int| 0 <= i < history.len() && history[i] == cmd
}

fn history_contains(history: &Vec<String>, cmd: &str) -> (r: bool)
    ensures
        r == spec_history_contains(history.deep_view(), cmd@),
{
    let mut i: usize = 0;
    while i < history.len()
        invariant
            0 <= i <= history@.len(),
            forall|k: int| 0 <= k < i ==> #[trigger] history.deep_view()[k] != cmd@,
        decreases history@.len() - i,
    {
        if str_eq(history[i].as_str(), cmd) {
            proof {
                assert(history.deep_view()[i as int] == cmd@);
            }
            return true;
        }
        i += 1;
    }
    false
}

/// The whole navigation session: the pager, the overlays, the stacks, and
/// what the caller still has to do for it.
pub struct Session {
    pub state: AppState,
    pub pager: Pager,
    pub finder: Option<Finder>,
    pub switcher: Option<CommandSwitcher>,
    pub history: History,
    pub command_history: Vec<String>,
    pub config: Config,
    pub current_command: Vec<String>,
    pub subcommands: Vec<Subcommand>,
    pub search_input: String,
    pub key_handler: KeyHandler,
    pub should_quit: bool,
    pub error_message: Option<String>,
    pub content_source: ContentSource,
    /// The base command a fresh background discovery should be spawned for.
    pub discovery_wanted: Option<String>,
}

/// The session's overlays are well-formed, a command is loaded, and the
/// live subcommand list keeps its names pairwise distinct.
pub open spec fn session_wf(s: &Session) -> bool {
    &&& s.current_command@.len() > 0
    &&& (s.finder matches Some(f) ==> finder_wf(&f))
    &&& (s.switcher matches Some(w) ==> switcher_wf(&w))
    &&& crate::parser::sub_names_distinct(s.subcommands.deep_view())
}

/// Every session field except the error banner agrees.
pub open spec fn eq_except_error(a: &Session, b: &Session) -> bool {
    &&& b.state == a.state
    &&& b.pager == a.pager
    &&& b.finder == a.finder
    &&& b.switcher == a.switcher
    &&& b.history == a.history
    &&& b.command_history == a.command_history
    &&& b.config == a.config
    &&& b.current_command == a.current_command
    &&& b.subcommands == a.subcommands
    &&& b.search_input == a.search_input
    &&& b.key_handler == a.key_handler
    &&& b.should_quit == a.should_quit
    &&& b.content_source == a.content_source
    &&& b.discovery_wanted == a.discovery_wanted
}

/// The navigation core agrees: everything outside the mode, the overlays,
/// the pager, the search input and the error banner.
pub open spec fn core_agrees(a: &Session, b: &Session) -> bool {
    &&& b.history == a.history
    &&& b.command_history == a.command_history
    &&& b.config == a.config
    &&& b.current_command == a.current_command
    &&& b.subcommands == a.subcommands
    &&& b.key_handler == a.key_handler
    &&& b.should_quit == a.should_quit
    &&& b.content_source == a.content_source
    &&& b.discovery_wanted == a.discovery_wanted
}

/// What one key does in `Paging` mode: the bound action is carried out —
/// scrolling, search-match stepping, overlay opening, the stack pop into a
/// back task, or quitting — and only `Back` can yield a task.
pub open spec fn paging_step(pre: &Session, post: &Session, key: Key, r: Option<
    FetchTask,
>) -> bool {
    let act = spec_handle(&pre.key_handler.config, pre.key_handler.pending_g, key).0;
    &&& (act == Some(Action::Quit) ==> post.should_quit)
    &&& (act == Some(Action::ScrollUp) ==> post.pager.scroll == (
    if pre.pager.scroll >= 1 {
        (pre.pager.scroll - 1) as usize
    } else {
        0
    }))
    &&& (act == Some(Action::ScrollDown) ==> post.pager.scroll == (
    if pre.pager.scroll + 1 <= usize::MAX {
        (pre.pager.scroll + 1) as usize
    } else {
        usize::MAX
    }))
    &&& (act == Some(Action::HalfPageUp) ==> post.pager.scroll == (
    if pre.pager.scroll >= 10 {
        (pre.pager.scroll - 10) as usize
    } else {
        0
    }))
    &&& (act == Some(Action::HalfPageDown) ==> post.pager.scroll == (
    if pre.pager.scroll + 10 <= usize::MAX {
        (pre.pager.scroll + 10) as usize
    } else {
        usize::MAX
    }))
    &&& (act == Some(Action::PageUp) ==> post.pager.scroll == (
    if pre.pager.scroll >= 20 {
        (pre.pager.scroll - 20) as usize
    } else {
        0
    }))
    &&& (act == Some(Action::PageDown) ==> post.pager.scroll == (
    if pre.pager.scroll + 20 <= usize::MAX {
        (pre.pager.scroll + 20) as usize
    } else {
        usize::MAX
    }))
    &&& (act == Some(Action::Top) ==> post.pager.scroll == 0)
    &&& (act == Some(Action::Bottom) ==> post.pager.scroll == (
    if pre.pager.content@.len() > 20 {
        (pre.pager.content@.len() - 20) as usize
    } else {
        pre.pager.scroll
    }))
    &&& (act == Some(Action::NextMatch) ==> next_match_step(&pre.pager, &post.pager))
    &&& (act == Some(Action::PrevMatch) ==> prev_match_step(&pre.pager, &post.pager))
    &&& (act == Some(Action::Search) ==> post.state == AppState::Searching
        && post.search_input@.len() == 0)
    &&& (act == Some(Action::OpenFinder) ==> (
    if pre.subcommands@.len() > 0 {
        &&& post.state == AppState::Finding
        &&& (post.finder matches Some(f) && f.items.deep_view() == pre.subcommands.deep_view()
            && f.query@.len() == 0)
    } else {
        post.state == pre.state
    }))
    &&& (act == Some(Action::OpenCommand) ==> post.state == AppState::Switching && (
    post.switcher matches Some(w) && w.history@ == pre.command_history@ && w.query@.len() == 0))
    &&& (act == Some(Action::ShowHelp) ==> post.state == AppState::Help)
    &&& (act == Some(Action::Back) ==> (
    if pre.history.entries@.len() > 0 {
        &&& (r matches Some(FetchTask::Back { entry }) && entry == pre.history.entries@.last())
        &&& post.history.entries@ == pre.history.entries@.drop_last()
    } else {
        r is None && post.history.entries@ == pre.history.entries@
    }))
    &&& (act != Some(Action::Back) ==> r is None)
    &&& (act is None ==> post.pager == pre.pager && post.state == pre.state && post.should_quit
        == pre.should_quit)
}

/// What one key does in `Searching` mode: characters and backspace edit the
/// query and re-apply the search live, `Enter` commits the query and
/// returns to paging, `Esc` discards the input.
pub open spec fn searching_step(pre: &Session, post: &Session, key: Key) -> bool {
    &&& core_agrees(pre, post)
    &&& post.finder == pre.finder
    &&& post.switcher == pre.switcher
    &&& match key.code {
        KeyCode::Esc => {
            &&& post.state == AppState::Paging
            &&& post.search_input@.len() == 0
            &&& post.pager == pre.pager
        },
        KeyCode::Enter => {
            &&& post.state == AppState::Paging
            &&& post.search_input == pre.search_input
            &&& search_applied(&pre.pager, &post.pager, pre.search_input@)
        },
        KeyCode::Backspace => {
            &&& post.state == pre.state
            &&& post.search_input@ == (if pre.search_input@.len() > 0 {
                pre.search_input@.drop_last()
            } else {
                pre.search_input@
            })
            &&& search_applied(&pre.pager, &post.pager, post.search_input@)
        },
        KeyCode::Char(c) => {
            &&& post.state == pre.state
            &&& post.search_input@ == pre.search_input@.push(c)
            &&& search_applied(&pre.pager, &post.pager, post.search_input@)
        },
        _ => {
            &&& post.state == pre.state
            &&& post.search_input == pre.search_input
            &&& post.pager == pre.pager
        },
    }
}

/// A key that closes the help overlay.
pub open spec fn help_close_key(key: Key) -> bool {
    key.code is Esc || key.code is Enter || key.code == KeyCode::Char('q') || key.code
        == KeyCode::Char('?')
}

/// What one key does in `Help` mode: a closing key returns to paging,
/// anything else changes nothing.
pub open spec fn help_step(pre: &Session, post: &Session, key: Key) -> bool {
    &&& core_agrees(pre, post)
    &&& post.finder == pre.finder
    &&& post.switcher == pre.switcher
    &&& post.pager == pre.pager
    &&& post.search_input == pre.search_input
    &&& post.state == (if help_close_key(key) {
        AppState::Paging
    } else {
        pre.state
    })
}

/// A drill was issued: the current place went onto the navigation stack in
/// full, and the task names the selected item's fetch — its invoke template
/// for a discovered item, the extended command path otherwise.
pub open spec fn drill_issued(
    pre: &Session,
    post: &Session,
    f: &Finder,
    r: Option<FetchTask>,
) -> bool {
    let item = f.items@[f.filtered@[f.selected as int].1 as int]@;
    &&& post.history.entries@.len() == pre.history.entries@.len() + 1
    &&& post.history.entries@.drop_last() == pre.history.entries@
    &&& post.history.entries@.last().command@ == pre.current_command@
    &&& post.history.entries@.last().scroll_position == pre.pager.scroll
    &&& post.history.entries@.last().source == pre.content_source
    &&& match item.invoke_command {
        Some(t) => (r matches Some(FetchTask::Invoke { base, name, template }) && base@
            == pre.current_command@[0]@ && name@ == item.name && template@ == t),
        None => (r matches Some(FetchTask::Path { command }) && command.deep_view()
            == pre.current_command.deep_view().push(item.name)),
    }
    &&& post.finder == pre.finder
    &&& post.switcher == pre.switcher
    &&& post.state == pre.state
    &&& post.pager == pre.pager
    &&& post.command_history == pre.command_history
    &&& post.config == pre.config
    &&& post.current_command == pre.current_command
    &&& post.subcommands == pre.subcommands
    &&& post.search_input == pre.search_input
    &&& post.key_handler == pre.key_handler
    &&& post.should_quit == pre.should_quit
    &&& post.content_source == pre.content_source
    &&& post.discovery_wanted == pre.discovery_wanted
}

/// What one key does in `Finding` mode: `Esc` drops the overlay, `Enter`
/// on a ranked selection pushes the current place and yields the drill
/// task, and every other key steps the finder itself.
pub open spec fn finding_step(pre: &Session, post: &Session, key: Key, r: Option<
    FetchTask,
>) -> bool {
    match pre.finder {
        None => r is None && eq_except_error(pre, post),
        Some(f) => match key.code {
            KeyCode::Esc => {
                &&& r is None
                &&& post.finder is None
                &&& post.state == AppState::Paging
                &&& post.switcher == pre.switcher
                &&& post.pager == pre.pager
                &&& post.search_input == pre.search_input
                &&& core_agrees(pre, post)
            },
            KeyCode::Enter => {
                if f.selected < f.filtered@.len() {
                    drill_issued(pre, post, &f, r)
                } else {
                    r is None && eq_except_error(pre, post)
                }
            },
            _ => {
                &&& r is None
                &&& (post.finder matches Some(f2) && finder_key_step(
                    &f,
                    &f2,
                    key,
                    FinderAction::Idle,
                ))
                &&& post.switcher == pre.switcher
                &&& post.state == pre.state
                &&& post.pager == pre.pager
                &&& post.search_input == pre.search_input
                &&& core_agrees(pre, post)
            },
        },
    }
}

/// What one key does in `Switching` mode: `Esc` drops the overlay, `Enter`
/// yields the switch task for the selectable command, and every other key
/// steps the switcher itself.
pub open spec fn switching_step(pre: &Session, post: &Session, key: Key, r: Option<
    FetchTask,
>) -> bool {
    match pre.switcher {
        None => r is None && eq_except_error(pre, post),
        Some(w) => match key.code {
            KeyCode::Esc => {
                &&& r is None
                &&& post.switcher is None
                &&& post.state == AppState::Paging
                &&& post.finder == pre.finder
                &&& post.pager == pre.pager
                &&& post.search_input == pre.search_input
                &&& core_agrees(pre, post)
            },
            KeyCode::Enter => {
                &&& eq_except_error(pre, post)
                &&& if w.selected < w.filtered@.len() {
                    r matches Some(FetchTask::Switch { command }) && command@ == w.history@[
                        w.filtered@[w.selected as int].1 as int
                    ]@
                } else if w.query@.len() > 0 {
                    r matches Some(FetchTask::Switch { command }) && command@ == w.query@
                } else {
                    r is None
                }
            },
            _ => {
                &&& r is None
                &&& (post.switcher matches Some(w2) && switcher_key_step(
                    &w,
                    &w2,
                    key,
                    SwitcherAction::Idle,
                ))
                &&& post.finder == pre.finder
                &&& post.state == pre.state
                &&& post.pager == pre.pager
                &&& post.search_input == pre.search_input
                &&& core_agrees(pre, post)
            },
        },
    }
}

impl Session {
    /// Opens a session on already-fetched content for a non-empty command
    /// path: the pager shows the content, the subcommands are parsed out of
    /// it, the base command enters the command history, and a discovery
    /// round is requested.
    pub fn new(command: Vec<String>, config: Config, content: String, source: ContentSource) -> (r:
        Session)
        requires
            command@.len() > 0,
        ensures
            r.state == AppState::Paging,
            r.pager.content.deep_view() == split_lines_spec(content@),
            r.pager.scroll == 0,
            r.subcommands.deep_view() == spec_parse_subcommands(content@, &config),
            r.history.entries@.len() == 0,
            r.command_history.deep_view() =~~= seq![command@[0]@],
            r.current_command == command,
            r.config == config,
            r.should_quit == false,
            r.error_message is None,
            r.content_source == source,
            r.discovery_wanted matches Some(b) && b@ == command@[0]@,
            r.finder is None,
            r.switcher is None,
            session_wf(&r),
    {
        let subcommands = parse_subcommands(content.as_str(), &config);
        let mut command_history: Vec<String> = Vec::new();
        command_history.push(command[0].clone());
        let discovery_wanted = Some(command[0].clone());
        let key_handler = KeyHandler::new(crate::config::KeyConfig {
            quit: clone_strings(&config.keys.quit),
            scroll_up: clone_strings(&config.keys.scroll_up),
            scroll_down: clone_strings(&config.keys.scroll_down),
            half_page_up: clone_strings(&config.keys.half_page_up),
            half_page_down: clone_strings(&config.keys.half_page_down),
            page_up: clone_strings(&config.keys.page_up),
            page_down: clone_strings(&config.keys.page_down),
            top: clone_strings(&config.keys.top),
            bottom: clone_strings(&config.keys.bottom),
            search: clone_strings(&config.keys.search),
            next_match: clone_strings(&config.keys.next_match),
            prev_match: clone_strings(&config.keys.prev_match),
            find_subcommand: clone_strings(&config.keys.find_subcommand),
            open_command: clone_strings(&config.keys.open_command),
            back: clone_strings(&config.keys.back),
            help: clone_strings(&config.keys.help),
        });
        Session {
            state: AppState::Paging,
            pager: Pager::new(content),
            finder: None,
            switcher: None,
            history: History::new(),
            command_history,
            config,
            current_command: command,
            subcommands,
            search_input: String::new(),
            key_handler,
            should_quit: false,
            error_message: None,
            content_source: source,
            discovery_wanted,
        }
    }

    /// Hands out (and clears) the pending discovery request.
    pub fn take_discovery_request(&mut self) -> (r: Option<String>)
        ensures
            r == old(self).discovery_wanted,
            final(self).discovery_wanted is None,
            unchanged_but_discovery(old(self), final(self)),
    {
        let r = match &self.discovery_wanted {
            Some(b) => Some(b.clone()),
            None => None,
        };
        self.discovery_wanted = None;
        r
    }

    /// Merges a discovery result into the live subcommand list; existing
    /// names win.
    pub fn merge_discovered(&mut self, discovered: Vec<Subcommand>)
        requires
            session_wf(old(self)),
        ensures
            session_wf(final(self)),
            final(self).subcommands.deep_view() == merge_spec(
                old(self).subcommands.deep_view(),
                discovered.deep_view(),
            ),
            unchanged_but_subcommands(old(self), final(self)),
    {
        proof {
            crate::discovery::lemma_merge_keeps_distinct(
                self.subcommands.deep_view(),
                discovered.deep_view(),
            );
        }
        merge_discovered_items(&mut self.subcommands, discovered);
    }

    /// Resolves one key press.  The error banner clears on any key; a
    /// returned task names the fetch the caller must perform.
    pub fn handle_key(&mut self, key: Key) -> (r: Option<FetchTask>)
        requires
            session_wf(old(self)),
        ensures
            session_wf(final(self)),
            final(self).config == old(self).config,
            final(self).command_history == old(self).command_history,
            old(self).state == AppState::Paging ==> paging_step(old(self), final(self), key, r),
            old(self).state == AppState::Searching ==> searching_step(old(self), final(self), key)
                && r is None,
            old(self).state == AppState::Finding ==> finding_step(old(self), final(self), key, r),
            old(self).state == AppState::Switching ==> switching_step(
                old(self),
                final(self),
                key,
                r,
            ),
            old(self).state == AppState::Help ==> help_step(old(self), final(self), key) && r
                is None,
            final(self).error_message is Some ==> (old(self).state == AppState::Paging
                && spec_handle(
                &old(self).key_handler.config,
                old(self).key_handler.pending_g,
                key,
            ).0 == Some(Action::OpenFinder) && old(self).subcommands@.len() == 0),
    {
        self.error_message = None;
        match self.state {
            AppState::Paging => self.handle_paging_key(key),
            AppState::Searching => {
                self.handle_searching_key(key);
                None
            },
            AppState::Finding => self.handle_finding_key(key),
            AppState::Switching => self.handle_switching_key(key),
            AppState::Help => {
                self.handle_help_key(key);
                None
            },
        }
    }

    /// One key in `Paging` mode: the binding table decides; `Back` pops the
    /// stack into a task, the overlay actions open their overlays, `Quit`
    /// raises the terminate flag, and the rest move the pager.
    pub fn handle_paging_key(&mut self, key: Key) -> (r: Option<FetchTask>)
        requires
            session_wf(old(self)),
        ensures
            session_wf(final(self)),
            final(self).config == old(self).config,
            final(self).command_history == old(self).command_history,
            paging_step(old(self), final(self), key, r),
            !(spec_handle(
                &old(self).key_handler.config,
                old(self).key_handler.pending_g,
                key,
            ).0 == Some(Action::OpenFinder) && old(self).subcommands@.len() == 0)
                ==> final(self).error_message == old(self).error_message,
            (spec_handle(
                &old(self).key_handler.config,
                old(self).key_handler.pending_g,
                key,
            ).0 == Some(Action::OpenFinder) && old(self).subcommands@.len() == 0)
                ==> final(self).error_message is Some,
    {
        let action = self.key_handler.handle(key);
        match action {
            Some(Action::Quit) => {
                self.should_quit = true;
                None
            },
            Some(Action::ScrollUp) => {
                self.pager.scroll_up(1);
                None
            },
            Some(Action::ScrollDown) => {
                self.pager.scroll_down(1);
                None
            },
            Some(Action::HalfPageUp) => {
                self.pager.scroll_up(10);
                None
            },
            Some(Action::HalfPageDown) => {
                self.pager.scroll_down(10);
                None
            },
            Some(Action::PageUp) => {
                self.pager.scroll_up(20);
                None
            },
            Some(Action::PageDown) => {
                self.pager.scroll_down(20);
                None
            },
            Some(Action::Top) => {
                self.pager.scroll_to_top();
                None
            },
            Some(Action::Bottom) => {
                self.pager.scroll_to_bottom(20);
                None
            },
            Some(Action::Search) => {
                self.state = AppState::Searching;
                self.search_input = String::new();
                self.key_handler.reset_pending();
                None
            },
            Some(Action::NextMatch) => {
                self.pager.next_match();
                None
            },
            Some(Action::PrevMatch) => {
                self.pager.prev_match();
                None
            },
            Some(Action::OpenFinder) => {
                if self.subcommands.len() > 0 {
                    let items = clone_subcommands(&self.subcommands);
                    self.finder = Some(Finder::new(items));
                    self.state = AppState::Finding;
                    self.key_handler.reset_pending();
                } else {
                    self.error_message = Some("No subcommands found".to_owned());
                }
                None
            },
            Some(Action::OpenCommand) => {
                let hist = clone_strings(&self.command_history);
                self.switcher = Some(CommandSwitcher::new(hist));
                self.state = AppState::Switching;
                self.key_handler.reset_pending();
                None
            },
            Some(Action::Back) => {
                match self.history.pop() {
                    Some(entry) => Some(FetchTask::Back { entry }),
                    None => None,
                }
            },
            Some(Action::ShowHelp) => {
                self.state = AppState::Help;
                self.key_handler.reset_pending();
                None
            },
            None => None,
        }
    }

    /// One key in `Searching` mode: characters and backspace edit the query
    /// and search live, `Enter` commits, `Esc` discards.
    pub fn handle_searching_key(&mut self, key: Key)
        requires
            session_wf(old(self)),
        ensures
            session_wf(final(self)),
            searching_step(old(self), final(self), key),
            final(self).error_message == old(self).error_message,
    {
        match key.code {
            KeyCode::Esc => {
                self.state = AppState::Paging;
                self.search_input = String::new();
            },
            KeyCode::Enter => {
                let q = self.search_input.clone();
                self.pager.set_search(q.as_str());
                self.state = AppState::Paging;
            },
            KeyCode::Backspace => {
                let mut qc = crate::text::str_to_chars(self.search_input.as_str());
                if qc.len() > 0 {
                    qc.pop();
                }
                self.search_input = crate::text::chars_to_string(&qc);
                let q = self.search_input.clone();
                self.pager.set_search(q.as_str());
            },
            KeyCode::Char(c) => {
                let mut qc = crate::text::str_to_chars(self.search_input.as_str());
                qc.push(c);
                self.search_input = crate::text::chars_to_string(&qc);
                let q = self.search_input.clone();
                self.pager.set_search(q.as_str());
            },
            _ => {},
        }
    }

    /// One key in `Finding` mode: the finder handles it; selecting an item
    /// pushes the current place onto the navigation stack and yields the
    /// fetch task for the drill.
    pub fn handle_finding_key(&mut self, key: Key) -> (r: Option<FetchTask>)
        requires
            session_wf(old(self)),
        ensures
            session_wf(final(self)),
            finding_step(old(self), final(self), key, r),
            final(self).error_message == old(self).error_message,
    {
        let finder = match &mut self.finder {
            Some(f) => f,
            None => {
                return None;
            },
        };
        match finder.handle_key(key) {
            FinderAction::Close => {
                self.finder = None;
                self.state = AppState::Paging;
                None
            },
            FinderAction::Select => {
                let item = match finder.selected_item() {
                    Some(it) => crate::discovery::clone_subcommand(it),
                    None => {
                        return None;
                    },
                };
                let ghost item_v = item@;
                let cmd_copy = clone_strings(&self.current_command);
                let scroll = self.pager.scroll;
                let source = self.content_source;
                self.history.push(cmd_copy, scroll, source);
                let base = self.current_command[0].clone();
                proof {
                    let f = old(self).finder->0;
                    assert(item_v == f.items@[f.filtered@[f.selected as int].1 as int]@);
                    assert(self.finder == old(self).finder);
                    assert(self.history.entries@.last().command@ == old(self).current_command@);
                }
                match item.invoke_command {
                    Some(template) => {
                        proof {
                            assert(item_v.invoke_command == Some(template@));
                        }
                        Some(FetchTask::Invoke { base, name: item.name, template })
                    },
                    None => {
                        let mut new_cmd = clone_strings(&self.current_command);
                        new_cmd.push(item.name);
                        proof {
                            assert(new_cmd.deep_view() =~~= old(
                                self,
                            ).current_command.deep_view().push(item_v.name));
                        }
                        Some(FetchTask::Path { command: new_cmd })
                    },
                }
            },
            FinderAction::Idle => None,
        }
    }

    /// One key in `Switching` mode: the switcher handles it; selecting a
    /// command yields the switch task.
    pub fn handle_switching_key(&mut self, key: Key) -> (r: Option<FetchTask>)
        requires
            session_wf(old(self)),
        ensures
            session_wf(final(self)),
            switching_step(old(self), final(self), key, r),
            final(self).error_message == old(self).error_message,
    {
        let switcher = match &mut self.switcher {
            Some(w) => w,
            None => {
                return None;
            },
        };
        match switcher.handle_key(key) {
            SwitcherAction::Close => {
                self.switcher = None;
                self.state = AppState::Paging;
                None
            },
            SwitcherAction::Select(cmd) => Some(FetchTask::Switch { command: cmd }),
            SwitcherAction::Idle => None,
        }
    }

    /// One key in `Help` mode: `Esc`, `q`, `?` or `Enter` closes the
    /// overlay.
    pub fn handle_help_key(&mut self, key: Key)
        requires
            session_wf(old(self)),
        ensures
            session_wf(final(self)),
            help_step(old(self), final(self), key),
            final(self).error_message == old(self).error_message,
    {
        let close = match key.code {
            KeyCode::Esc | KeyCode::Enter => true,
            KeyCode::Char(c) => c == 'q' || c == '?',
            _ => false,
        };
        if close {
            self.state = AppState::Paging;
        }
    }

    /// Applies a successful fetch: new content is paged from the top,
    /// subcommands are re-parsed (with SEE ALSO references merged in after
    /// a manual-page drill), the command path and source follow the task,
    /// a switch clears the navigation stack and enters the command history,
    /// and going back restores the saved scroll position.
    pub fn apply_fetch_success(&mut self, task: FetchTask, content: String, source: ContentSource)
        requires
            session_wf(old(self)),
            (task matches FetchTask::Path { command } ==> command@.len() > 0),
            (task matches FetchTask::Back { entry } ==> entry.command@.len() > 0),
        ensures
            session_wf(final(self)),
            final(self).state == AppState::Paging,
            final(self).finder is None,
            final(self).config == old(self).config,
            final(self).pager.content.deep_view() == split_lines_spec(content@),
            (task matches FetchTask::Path { command } ==> {
                &&& final(self).current_command == command
                &&& final(self).subcommands.deep_view() == spec_parse_subcommands(
                    content@,
                    &old(self).config,
                )
                &&& final(self).content_source == source
                &&& final(self).history == old(self).history
                &&& final(self).command_history == old(self).command_history
                &&& final(self).pager.scroll == 0
                &&& (final(self).discovery_wanted matches Some(b) && b@ == command@[0]@)
            }),
            (task matches FetchTask::Invoke { base, name, template } ==> {
                &&& final(self).current_command == old(self).current_command
                &&& final(self).content_source == invoke_source_of(template@)
                &&& final(self).history == old(self).history
                &&& final(self).command_history == old(self).command_history
                &&& final(self).subcommands.deep_view() == (
                if invoke_source_of(template@) == ContentSource::Man {
                    merge_spec(
                        spec_parse_subcommands(content@, &old(self).config),
                        spec_parse_see_also(content@, base@),
                    )
                } else {
                    spec_parse_subcommands(content@, &old(self).config)
                })
            }),
            (task matches FetchTask::Back { entry } ==> {
                &&& final(self).current_command == entry.command
                &&& final(self).content_source == entry.source
                &&& final(self).pager.scroll == entry.scroll_position
                &&& final(self).subcommands.deep_view() == spec_parse_subcommands(
                    content@,
                    &old(self).config,
                )
                &&& final(self).history == old(self).history
            }),
            (task matches FetchTask::Switch { command } ==> {
                &&& final(self).current_command.deep_view() =~~= seq![command@]
                &&& final(self).history.entries@.len() == 0
                &&& final(self).switcher is None
                &&& final(self).content_source == source
                &&& final(self).command_history.deep_view() == (
                if spec_history_contains(old(self).command_history.deep_view(), command@) {
                    old(self).command_history.deep_view()
                } else {
                    old(self).command_history.deep_view().push(command@)
                })
            }),
    {
        let mut subcommands = parse_subcommands(content.as_str(), &self.config);
        let mut restore_scroll: Option<usize> = None;
        match task {
            FetchTask::Path { command } => {
                let base = command[0].clone();
                self.current_command = command;
                self.content_source = source;
                self.discovery_wanted = Some(base);
            },
            FetchTask::Invoke { base, name: _, template } => {
                let src = invoke_source(template.as_str());
                self.content_source = src;
                match src {
                    ContentSource::Man => {
                        let see_also = crate::discovery::parse_see_also(
                            content.as_str(),
                            base.as_str(),
                        );
                        proof {
                            crate::discovery::lemma_merge_keeps_distinct(
                                subcommands.deep_view(),
                                see_also.deep_view(),
                            );
                        }
                        merge_discovered_items(&mut subcommands, see_also);
                    },
                    ContentSource::Help => {},
                }
            },
            FetchTask::Back { entry } => {
                let base = entry.command[0].clone();
                restore_scroll = Some(entry.scroll_position);
                self.current_command = entry.command;
                self.content_source = entry.source;
                self.discovery_wanted = Some(base);
            },
            FetchTask::Switch { command } => {
                if !history_contains(&self.command_history, command.as_str()) {
                    self.command_history.push(command.clone());
                    proof {
                        assert(self.command_history.deep_view()
                            =~~= old(self).command_history.deep_view().push(command@));
                    }
                }
                self.history = History::new();
                let mut cc: Vec<String> = Vec::new();
                cc.push(command.clone());
                self.current_command = cc;
                self.content_source = source;
                self.discovery_wanted = Some(command);
                self.switcher = None;
            },
        }
        self.subcommands = subcommands;
        let mut pager = Pager::new(content);
        if let Some(pos) = restore_scroll {
            pager.scroll = pos;
        }
        self.pager = pager;
        self.finder = None;
        self.state = AppState::Paging;
    }

    /// Applies a failed fetch: the navigation stack is rolled back for a
    /// drill, the error banner is raised, and the session returns to
    /// `Paging` with its content untouched.
    pub fn apply_fetch_failure(&mut self, task: FetchTask, message: String)
        requires
            session_wf(old(self)),
        ensures
            session_wf(final(self)),
            final(self).config == old(self).config,
            final(self).error_message matches Some(m) && m@ == message@,
            final(self).pager == old(self).pager,
            final(self).subcommands == old(self).subcommands,
            final(self).current_command == old(self).current_command,
            final(self).content_source == old(self).content_source,
            (task matches FetchTask::Path { command } ==> final(self).history.entries@ == (
            if old(self).history.entries@.len() > 0 {
                old(self).history.entries@.drop_last()
            } else {
                old(self).history.entries@
            }) && final(self).state == AppState::Paging && final(self).finder is None),
            (task matches FetchTask::Invoke { base, name, template }
                ==> final(self).history.entries@ == (
            if old(self).history.entries@.len() > 0 {
                old(self).history.entries@.drop_last()
            } else {
                old(self).history.entries@
            }) && final(self).state == AppState::Paging && final(self).finder is None),
            (task matches FetchTask::Back { entry } ==> final(self).history == old(self).history
                && final(self).state == old(self).state),
            (task matches FetchTask::Switch { command } ==> final(self).switcher is None
                && final(self).state == AppState::Paging),
    {
        match task {
            FetchTask::Path { command: _ } => {
                let _popped = self.history.pop();
                self.error_message = Some(message);
                self.finder = None;
                self.state = AppState::Paging;
            },
            FetchTask::Invoke { base: _, name: _, template: _ } => {
                let _popped = self.history.pop();
                self.error_message = Some(message);
                self.finder = None;
                self.state = AppState::Paging;
            },
            FetchTask::Back { entry: _ } => {
                self.error_message = Some(message);
            },
            FetchTask::Switch { command: _ } => {
                self.error_message = Some(message);
                self.switcher = None;
                self.state = AppState::Paging;
            },
        }
    }
}

/// The source tag an invoke template implies, at the specification level.
pub open spec fn invoke_source_of(template: Seq<char>) -> ContentSource {
    if crate::text::starts_with(template, "man "@) {
        ContentSource::Man
    } else {
        ContentSource::Help
    }
}

/// Everything but the discovery request is unchanged.
pub open spec fn unchanged_but_discovery(a: &Session, b: &Session) -> bool {
    &&& b.state == a.state
    &&& b.pager == a.pager
    &&& b.finder == a.finder
    &&& b.switcher == a.switcher
    &&& b.history == a.history
    &&& b.command_history == a.command_history
    &&& b.config == a.config
    &&& b.current_command == a.current_command
    &&& b.subcommands == a.subcommands
    &&& b.should_quit == a.should_quit
    &&& b.error_message == a.error_message
    &&& b.content_source == a.content_source
}

/// Everything but the subcommand list is unchanged.
pub open spec fn unchanged_but_subcommands(a: &Session, b: &Session) -> bool {
    &&& b.state == a.state
    &&& b.pager == a.pager
    &&& b.finder == a.finder
    &&& b.switcher == a.switcher
    &&& b.history == a.history
    &&& b.command_history == a.command_history
    &&& b.config == a.config
    &&& b.current_command == a.current_command
    &&& b.should_quit == a.should_quit
    &&& b.error_message == a.error_message
    &&& b.content_source == a.content_source
    &&& b.discovery_wanted == a.discovery_wanted
}

} // verus!
