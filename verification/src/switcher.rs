//! The command switcher overlay: fuzzy-ranks the command history against
//! the typed query, and lets the query itself be opened as a new command
//! when nothing matches.
use vstd::prelude::*;

use crate::finder::{pairs_in_bounds, sort_pairs_desc, sorted_desc};
use crate::fuzzy::{fuzzy_match_score, spec_fuzzy};
use crate::keys::{Key, KeyCode};
use crate::text::{chars_to_string, str_to_chars};

verus! {

broadcast use vstd::seq_lib::group_to_multiset_ensures;

/// What a key press in the switcher overlay means for the caller.
#[derive(Debug, Clone, PartialEq, Eq)]
pub enum SwitcherAction {
    Idle,
    Close,
    Select(String),
}

/// The history entries the query matches, in insertion order, each with its
/// score and index.
pub open spec fn history_matches(history: Seq<Seq<char>>, query: Seq<char>) -> Seq<(u16, usize)>
    decreases history.len(),
{
    if history.len() == 0 {
        Seq::empty()
    } else {
        let init = history_matches(history.drop_last(), query);
        match spec_fuzzy(history.last(), query) {
            Some(s) => init.push((s, (history.len() - 1) as usize)),
            None => init,
        }
    }
}

/// Every history entry, with equal score, in insertion order.
pub open spec fn all_history_pairs(n: nat) -> Seq<(u16, usize)> {
    Seq::new(n, |i: int| (0u16, i as usize))
}

/// The ranking the switcher keeps for a query.
pub open spec fn switcher_filter_ok(
    history: Seq<Seq<char>>,
    query: Seq<char>,
    filtered: Seq<(u16, usize)>,
) -> bool {
    if query.len() == 0 {
        filtered == all_history_pairs(history.len())
    } else {
        &&& filtered.to_multiset() == history_matches(history, query).to_multiset()
        &&& sorted_desc(filtered)
    }
}

proof fn lemma_history_matches_bounds(history: Seq<Seq<char>>, query: Seq<char>)
    ensures
        pairs_in_bounds(history_matches(history, query), history.len()),
    decreases history.len(),
{
    if history.len() > 0 {
        lemma_history_matches_bounds(history.drop_last(), query);
    }
}

proof fn lemma_pair_bounds_via_multiset(a: Seq<(u16, usize)>, b: Seq<(u16, usize)>, n: nat)
    requires
        a.to_multiset() == b.to_multiset(),
        pairs_in_bounds(a, n),
    ensures
        pairs_in_bounds(b, n),
{
    assert forall|k: int| 0 <= k < b.len() implies (#[trigger] b[k]).1 < n by {
        assert(b.contains(b[k]));
        assert(b.to_multiset().count(b[k]) > 0);
        assert(a.to_multiset().count(b[k]) > 0);
        assert(a.contains(b[k]));
        let i = choose|i: int| 0 <= i < a.len() && a[i] == b[k];
        assert(a[i].1 < n);
    }
}

/// The switcher over this session's command history.
pub struct CommandSwitcher {
    pub history: Vec<String>,
    pub query: String,
    /// `(score, history index)` pairs, sorted by score descending.
    pub filtered: Vec<(u16, usize)>,
    pub selected: usize,
}

pub open spec fn switcher_wf(s: &CommandSwitcher) -> bool {
    &&& switcher_filter_ok(s.history.deep_view(), s.query@, s.filtered@)
    &&& pairs_in_bounds(s.filtered@, s.history@.len())
}

#[verifier::loop_isolation(false)]
fn compute_switcher_filtered(history: &Vec<String>, query: &String) -> (r: Vec<(u16, usize)>)
    ensures
        switcher_filter_ok(history.deep_view(), query@, r@),
        pairs_in_bounds(r@, history@.len()),
{
    let qchars = str_to_chars(query.as_str());
    if qchars.len() == 0 {
        let mut all: Vec<(u16, usize)> = Vec::new();
        let mut i: usize = 0;
        while i < history.len()
            invariant
                0 <= i <= history@.len(),
                all@ =~= all_history_pairs(i as nat),
            decreases history@.len() - i,
        {
            all.push((0u16, i));
            proof {
                assert(all@ =~= all_history_pairs((i + 1) as nat));
            }
            i += 1;
        }
        proof {
            assert(all@ =~= all_history_pairs(history.deep_view().len()));
        }
        return all;
    }
    let ghost hv = history.deep_view();
    let mut pairs: Vec<(u16, usize)> = Vec::new();
    let mut i: usize = 0;
    proof {
        assert(history_matches(hv.take(0), query@) =~= Seq::<(u16, usize)>::empty());
    }
    while i < history.len()
        invariant
            0 <= i <= history@.len(),
            pairs@ =~= history_matches(hv.take(i as int), query@),
        decreases history@.len() - i,
    {
        proof {
            assert(hv.take(i + 1).drop_last() =~~= hv.take(i as int));
            assert(hv.take(i + 1).last() == hv[i as int]);
            assert(history.deep_view()[i as int] == history@[i as int]@);
        }
        match fuzzy_match_score(history[i].as_str(), query.as_str()) {
            Some(s) => {
                pairs.push((s, i));
            },
            None => {},
        }
        proof {
            assert(pairs@ =~= history_matches(hv.take(i + 1), query@));
        }
        i += 1;
    }
    proof {
        assert(hv.take(hv.len() as int) =~~= hv);
        lemma_history_matches_bounds(hv, query@);
    }
    let sorted = sort_pairs_desc(pairs);
    proof {
        lemma_pair_bounds_via_multiset(pairs@, sorted@, history@.len() as nat);
    }
    sorted
}

impl CommandSwitcher {
    /// A switcher over the given history, with an empty query ranking every
    /// entry alike.
    pub fn new(history: Vec<String>) -> (r: CommandSwitcher)
        ensures
            r.history == history,
            r.query@.len() == 0,
            r.selected == 0,
            switcher_wf(&r),
    {
        let query = String::new();
        let filtered = compute_switcher_filtered(&history, &query);
        CommandSwitcher { history, query, filtered, selected: 0 }
    }

    /// Appends one character to the query, re-ranks, and resets the
    /// selection.
    pub fn push_char(&mut self, c: char)
        ensures
            final(self).history == old(self).history,
            final(self).query@ == old(self).query@.push(c),
            final(self).selected == 0,
            switcher_wf(final(self)),
    {
        let mut qc = str_to_chars(self.query.as_str());
        qc.push(c);
        self.query = chars_to_string(&qc);
        self.filtered = compute_switcher_filtered(&self.history, &self.query);
        self.selected = 0;
    }

    /// Removes the last character of the query (if any), re-ranks, and
    /// resets the selection.
    pub fn pop_char(&mut self)
        ensures
            final(self).history == old(self).history,
            final(self).query@ == if old(self).query@.len() > 0 {
                old(self).query@.drop_last()
            } else {
                old(self).query@
            },
            final(self).selected == 0,
            switcher_wf(final(self)),
    {
        let mut qc = str_to_chars(self.query.as_str());
        if qc.len() > 0 {
            qc.pop();
        }
        proof {
            if old(self).query@.len() == 0 {
                assert(qc@ =~= old(self).query@);
            }
        }
        self.query = chars_to_string(&qc);
        self.filtered = compute_switcher_filtered(&self.history, &self.query);
        self.selected = 0;
    }

    /// Moves the selection up one place, saturating at the top.
    pub fn move_up(&mut self)
        ensures
            final(self).selected == if old(self).selected > 0 {
                (old(self).selected - 1) as usize
            } else {
                0
            },
            unchanged_but_switcher_selection(old(self), final(self)),
    {
        if self.selected > 0 {
            self.selected = self.selected - 1;
        }
    }

    /// Moves the selection down one place, saturating at the last place it
    /// can sit: the last ranked entry, or the free-form query slot when
    /// nothing matches a non-empty query.
    pub fn move_down(&mut self)
        ensures
            final(self).selected == if old(self).selected < switcher_max_idx(old(self)) {
                (old(self).selected + 1) as usize
            } else {
                old(self).selected
            },
            old(self).selected <= switcher_max_idx(old(self)) ==> final(self).selected as int
                == vstd::math::min(old(self).selected + 1, switcher_max_idx(old(self))),
            unchanged_but_switcher_selection(old(self), final(self)),
    {
        let max_idx = if self.filtered.len() == 0 && self.query.as_str().unicode_len() > 0 {
            0
        } else {
            if self.filtered.len() > 0 {
                self.filtered.len() - 1
            } else {
                0
            }
        };
        if self.selected < max_idx {
            self.selected = self.selected + 1;
        }
    }

    /// The command under the selection: a ranked history entry, or the
    /// typed query itself as a new command when nothing is ranked.
    pub fn selected_command(&self) -> (r: Option<String>)
        requires
            switcher_wf(self),
        ensures
            self.selected < self.filtered@.len() ==> (r matches Some(c) && c@ == self.history@[
                self.filtered@[self.selected as int].1 as int
            ]@),
            self.selected >= self.filtered@.len() && self.query@.len() > 0 ==> (r matches Some(c)
                && c@ == self.query@),
            self.selected >= self.filtered@.len() && self.query@.len() == 0 ==> r is None,
    {
        if self.selected < self.filtered.len() {
            let idx = self.filtered[self.selected].1;
            return Some(self.history[idx].clone());
        }
        if self.query.as_str().unicode_len() > 0 {
            return Some(self.query.clone());
        }
        None
    }

    /// Resolves one key press in the switcher overlay: `Esc` closes,
    /// `Enter` selects the ranked entry or the typed query, movement keys
    /// move the selection, and anything else edits the query.
    pub fn handle_key(&mut self, key: Key) -> (r: SwitcherAction)
        requires
            switcher_wf(old(self)),
        ensures
            switcher_wf(final(self)),
            switcher_key_step(old(self), final(self), key, r),
    {
        match key.code {
            KeyCode::Esc => SwitcherAction::Close,
            KeyCode::Enter => {
                match self.selected_command() {
                    Some(cmd) => SwitcherAction::Select(cmd),
                    None => SwitcherAction::Idle,
                }
            },
            KeyCode::Up => {
                self.move_up();
                SwitcherAction::Idle
            },
            KeyCode::Down => {
                self.move_down();
                SwitcherAction::Idle
            },
            KeyCode::Char(c) => {
                if key.ctrl && c == 'p' {
                    self.move_up();
                } else if key.ctrl && c == 'n' {
                    self.move_down();
                } else {
                    self.push_char(c);
                }
                SwitcherAction::Idle
            },
            KeyCode::Backspace => {
                self.pop_char();
                SwitcherAction::Idle
            },
            _ => SwitcherAction::Idle,
        }
    }

    pub fn filtered_count(&self) -> (r: usize)
        ensures
            r == self.filtered@.len(),
    {
        self.filtered.len()
    }
}

/// Where the selection saturates going down.
pub open spec fn switcher_max_idx(s: &CommandSwitcher) -> int {
    if s.filtered@.len() == 0 && s.query@.len() > 0 {
        0
    } else if s.filtered@.len() > 0 {
        s.filtered@.len() - 1
    } else {
        0
    }
}

/// Everything but the selection is unchanged.
pub open spec fn unchanged_but_switcher_selection(a: &CommandSwitcher, b: &CommandSwitcher) -> bool {
    &&& b.history == a.history
    &&& b.query == a.query
    &&& b.filtered == a.filtered
}

/// The selection moved up one place, saturating at the top.
pub open spec fn switcher_moved_up(a: &CommandSwitcher, b: &CommandSwitcher) -> bool {
    &&& b.selected == if a.selected > 0 {
        (a.selected - 1) as usize
    } else {
        0
    }
    &&& unchanged_but_switcher_selection(a, b)
}

/// The selection moved down one place, saturating at the last selectable
/// place.
pub open spec fn switcher_moved_down(a: &CommandSwitcher, b: &CommandSwitcher) -> bool {
    &&& b.selected == if a.selected < switcher_max_idx(a) {
        (a.selected + 1) as usize
    } else {
        a.selected
    }
    &&& unchanged_but_switcher_selection(a, b)
}

/// One character was appended to the query, the ranking recomputed, and the
/// selection reset.
pub open spec fn switcher_query_pushed(a: &CommandSwitcher, b: &CommandSwitcher, c: char) -> bool {
    &&& b.history == a.history
    &&& b.query@ == a.query@.push(c)
    &&& b.selected == 0
    &&& switcher_wf(b)
}

/// The last query character (if any) was removed, the ranking recomputed,
/// and the selection reset.
pub open spec fn switcher_query_popped(a: &CommandSwitcher, b: &CommandSwitcher) -> bool {
    &&& b.history == a.history
    &&& b.query@ == if a.query@.len() > 0 {
        a.query@.drop_last()
    } else {
        a.query@
    }
    &&& b.selected == 0
    &&& switcher_wf(b)
}

/// What `Enter` yields: the ranked entry under the selection, the typed
/// query as a new command when nothing is ranked, or nothing at all.
pub open spec fn switcher_selection_action(pre: &CommandSwitcher, r: SwitcherAction) -> bool {
    if pre.selected < pre.filtered@.len() {
        r matches SwitcherAction::Select(c) && c@ == pre.history@[pre.filtered@[
            pre.selected as int
        ].1 as int]@
    } else if pre.query@.len() > 0 {
        r matches SwitcherAction::Select(c) && c@ == pre.query@
    } else {
        r == SwitcherAction::Idle
    }
}

/// What one key press does to the switcher: which action comes back and how
/// the state moves.  A body that did none of the work could not meet this.
pub open spec fn switcher_key_step(
    pre: &CommandSwitcher,
    post: &CommandSwitcher,
    key: Key,
    r: SwitcherAction,
) -> bool {
    match key.code {
        KeyCode::Esc => r == SwitcherAction::Close && *post == *pre,
        KeyCode::Enter => switcher_selection_action(pre, r) && *post == *pre,
        KeyCode::Up => r == SwitcherAction::Idle && switcher_moved_up(pre, post),
        KeyCode::Down => r == SwitcherAction::Idle && switcher_moved_down(pre, post),
        KeyCode::Char(c) => {
            &&& r == SwitcherAction::Idle
            &&& if key.ctrl && c == 'p' {
                switcher_moved_up(pre, post)
            } else if key.ctrl && c == 'n' {
                switcher_moved_down(pre, post)
            } else {
                switcher_query_pushed(pre, post, c)
            }
        },
        KeyCode::Backspace => r == SwitcherAction::Idle && switcher_query_popped(pre, post),
        _ => r == SwitcherAction::Idle && *post == *pre,
    }
}

} // verus!
