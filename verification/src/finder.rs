//! The fuzzy subcommand finder: space-separated query terms must all match
//! an item's label, name and description; results are ranked by summed
//! score, and the selection saturates at both ends.
use vstd::prelude::*;

use crate::fuzzy::{fuzzy_match_score, spec_fuzzy};
use crate::keys::{Key, KeyCode};
use crate::parser::{Subcommand, SubcommandView};
use crate::text::{chars_split_ws, chars_to_string, split_ws_spec, str_to_chars};

verus! {

broadcast use vstd::seq_lib::group_to_multiset_ensures;

/// What a key press in the finder overlay means for the caller.
#[derive(Debug, Clone, Copy, PartialEq, Eq, Structural)]
pub enum FinderAction {
    Idle,
    Close,
    Select,
}

/// The text one item is matched against: optional label, name, optional
/// description, separated by single spaces.
pub open spec fn searchable_view(item: SubcommandView) -> Seq<char> {
    (match item.label {
        Some(l) => l + " "@,
        None => Seq::<char>::empty(),
    }) + item.name + (match item.description {
        Some(d) => " "@ + d,
        None => Seq::<char>::empty(),
    })
}

pub open spec fn sat_add_u32(a: u32, b: u32) -> u32 {
    if a + b <= u32::MAX {
        (a + b) as u32
    } else {
        u32::MAX
    }
}

/// The summed score of all terms against one haystack; `None` as soon as
/// any term fails to match.
pub open spec fn score_sum(h: Seq<char>, terms: Seq<Seq<char>>) -> Option<u32>
    decreases terms.len(),
{
    if terms.len() == 0 {
        Some(0u32)
    } else {
        match score_sum(h, terms.drop_last()) {
            None => None,
            Some(acc) => match spec_fuzzy(h, terms.last()) {
                None => None,
                Some(s) => Some(sat_add_u32(acc, s as u32)),
            },
        }
    }
}

/// An item's rank: all terms must match; the summed score is capped at what
/// a ranking slot can hold.
pub open spec fn item_score(item: SubcommandView, terms: Seq<Seq<char>>) -> Option<u16> {
    match score_sum(searchable_view(item), terms) {
        Some(t) => Some(
            if t <= 65535 {
                t as u16
            } else {
                65535u16
            },
        ),
        None => None,
    }
}

/// The matching items in insertion order, each with its score and index.
pub open spec fn filter_matches(
    items: Seq<SubcommandView>,
    terms: Seq<Seq<char>>,
) -> Seq<(u16, usize)>
    decreases items.len(),
{
    if items.len() == 0 {
        Seq::empty()
    } else {
        let init = filter_matches(items.drop_last(), terms);
        match item_score(items.last(), terms) {
            Some(s) => init.push((s, (items.len() - 1) as usize)),
            None => init,
        }
    }
}

/// Every item, with equal score, in insertion order.
pub open spec fn all_items_pairs(n: nat) -> Seq<(u16, usize)> {
    Seq::new(n, |i: int| (0u16, i as usize))
}

/// Scores are non-increasing.
pub open spec fn sorted_desc(s: Seq<(u16, usize)>) -> bool {
    forall|i: int, j: int| 0 <= i < j < s.len() ==> (#[trigger] s[i]).0 >= (#[trigger] s[j]).0
}

/// Every ranked index points into the item list.
pub open spec fn pairs_in_bounds(s: Seq<(u16, usize)>, n: nat) -> bool {
    forall|k: int| 0 <= k < s.len() ==> (#[trigger] s[k]).1 < n
}

/// The ranking a query leaves behind: the empty (or all-whitespace) query
/// ranks every item alike in insertion order; otherwise the matching items,
/// sorted by score descending.
pub open spec fn filter_ok(
    items: Seq<SubcommandView>,
    query: Seq<char>,
    filtered: Seq<(u16, usize)>,
) -> bool {
    let terms = split_ws_spec(query);
    if terms.len() == 0 {
        filtered == all_items_pairs(items.len())
    } else {
        &&& filtered.to_multiset() == filter_matches(items, terms).to_multiset()
        &&& sorted_desc(filtered)
    }
}

proof fn lemma_filter_matches_bounds(items: Seq<SubcommandView>, terms: Seq<Seq<char>>)
    ensures
        pairs_in_bounds(filter_matches(items, terms), items.len()),
    decreases items.len(),
{
    if items.len() > 0 {
        lemma_filter_matches_bounds(items.drop_last(), terms);
    }
}

/// Multiset-equal sequences satisfy the same element bound.
proof fn lemma_bounds_via_multiset(a: Seq<(u16, usize)>, b: Seq<(u16, usize)>, n: nat)
    requires
        a.to_multiset() == b.to_multiset(),
        pairs_in_bounds(a, n),
    ensures
        pairs_in_bounds(b, n),
{
    assert forall|k: int| 0 <= k < b.len() implies (#[trigger] b[k]).1 < n by {
        assert(b.contains(b[k]));
        assert(b.to_multiset().count(b[k]) > 0);
        assert(a.to_multiset().count(b[k]) > 0);
        assert(a.contains(b[k]));
        let i = choose|i: int| 0 <= i < a.len() && a[i] == b[k];
        assert(a[i].1 < n);
    }
}

/// Stable insertion sort, descending by score.
#[verifier::loop_isolation(false)]
pub(crate) fn sort_pairs_desc(v: Vec<(u16, usize)>) -> (r: Vec<(u16, usize)>)
    ensures
        r@.to_multiset() == v@.to_multiset(),
        sorted_desc(r@),
{
    let mut r: Vec<(u16, usize)> = Vec::new();
    let mut i: usize = 0;
    proof {
        assert(v@.take(0).to_multiset() =~= Seq::<(u16, usize)>::empty().to_multiset());
    }
    while i < v.len()
        invariant
            0 <= i <= v@.len(),
            r@.len() == i,
            r@.to_multiset() == v@.take(i as int).to_multiset(),
            sorted_desc(r@),
        decreases v@.len() - i,
    {
        let x = v[i];
        let mut j: usize = 0;
        while j < r.len() && r[j].0 >= x.0
            invariant
                0 <= j <= r@.len(),
                forall|k: int| 0 <= k < j ==> (#[trigger] r@[k]).0 >= x.0,
            decreases r@.len() - j,
        {
            j += 1;
        }
        let ghost r0 = r@;
        r.insert(j, x);
        proof {
            assert(r@ == r0.insert(j as int, x));
            assert(r@.to_multiset() == r0.to_multiset().insert(x));
            assert(v@.take(i + 1).drop_last() =~= v@.take(i as int));
            assert(v@.take(i + 1) =~= v@.take(i as int).push(x));
            assert(v@.take(i + 1).to_multiset() == v@.take(i as int).to_multiset().insert(x));
            assert forall|a: int, b: int| 0 <= a < b < r@.len() implies (#[trigger] r@[a]).0 >= (
            #[trigger] r@[b]).0 by {
                if a < j && b == j {
                } else if a == j && b > j {
                    assert(r@[b] == r0[b - 1]);
                    if j < r0.len() {
                        assert(r0[j as int].0 < x.0);
                        assert(r0[b - 1].0 <= r0[j as int].0);
                    }
                } else if a < j && b > j {
                    assert(r@[a] == r0[a]);
                    assert(r@[b] == r0[b - 1]);
                } else if a > j && b > j {
                    assert(r@[a] == r0[a - 1]);
                    assert(r@[b] == r0[b - 1]);
                } else {
                    assert(r@[a] == r0[a]);
                    assert(r@[b] == r0[b]);
                }
            }
        }
        i += 1;
    }
    proof {
        assert(v@.take(v@.len() as int) =~= v@);
    }
    r
}

/// The fuzzy finder over the current subcommand list.
pub struct Finder {
    pub items: Vec<Subcommand>,
    pub query: String,
    /// `(score, item index)` pairs, sorted by score descending.
    pub filtered: Vec<(u16, usize)>,
    pub selected: usize,
    pub scroll_offset: usize,
    pub visible_height: usize,
}

/// The finder's ranking matches its query, and every ranked index is a
/// valid item index.
pub open spec fn finder_wf(f: &Finder) -> bool {
    &&& filter_ok(f.items.deep_view(), f.query@, f.filtered@)
    &&& pairs_in_bounds(f.filtered@, f.items@.len())
}

#[verifier::loop_isolation(false)]
fn compute_filtered(items: &Vec<Subcommand>, query: &String) -> (r: Vec<(u16, usize)>)
    ensures
        filter_ok(items.deep_view(), query@, r@),
        pairs_in_bounds(r@, items@.len()),
{
    let qchars = str_to_chars(query.as_str());
    let term_vecs = chars_split_ws(&qchars);
    let ghost terms = split_ws_spec(query@);
    if term_vecs.len() == 0 {
        let mut all: Vec<(u16, usize)> = Vec::new();
        let mut i: usize = 0;
        while i < items.len()
            invariant
                0 <= i <= items@.len(),
                all@ =~= all_items_pairs(i as nat),
            decreases items@.len() - i,
        {
            all.push((0u16, i));
            proof {
                assert(all@ =~= all_items_pairs((i + 1) as nat));
            }
            i += 1;
        }
        proof {
            assert(all@ =~= all_items_pairs(items.deep_view().len()));
        }
        return all;
    }
    let mut pairs: Vec<(u16, usize)> = Vec::new();
    let ghost iv = items.deep_view();
    let mut i: usize = 0;
    proof {
        assert(filter_matches(iv.take(0), terms) =~= Seq::<(u16, usize)>::empty());
    }
    while i < items.len()
        invariant
            0 <= i <= items@.len(),
            term_vecs.deep_view() == terms,
            term_vecs@.len() == terms.len(),
            pairs@ =~= filter_matches(iv.take(i as int), terms),
        decreases items@.len() - i,
    {
        proof {
            assert(iv.take(i + 1).drop_last() =~~= iv.take(i as int));
            assert(iv.take(i + 1).last() == iv[i as int]);
            assert(items.deep_view()[i as int] == items@[i as int]@);
        }
        let item = &items[i];
        let mut searchable: Vec<char> = Vec::new();
        match &item.label {
            Some(l) => {
                let mut lc = str_to_chars(l.as_str());
                searchable.append(&mut lc);
                searchable.push(' ');
            },
            None => {},
        }
        let mut nc = str_to_chars(item.name.as_str());
        searchable.append(&mut nc);
        match &item.description {
            Some(d) => {
                searchable.push(' ');
                let mut dc = str_to_chars(d.as_str());
                searchable.append(&mut dc);
            },
            None => {},
        }
        proof {
            reveal_strlit(" ");
            assert(iv[i as int] == item@);
            assert(searchable@ =~= searchable_view(iv[i as int]));
        }
        let hay = chars_to_string(&searchable);
        let mut total: u32 = 0;
        let mut all_match = true;
        let mut t: usize = 0;
        while t < term_vecs.len()
            invariant
                0 <= t <= term_vecs@.len(),
                hay@ == searchable_view(iv[i as int]),
                all_match ==> score_sum(hay@, terms.take(t as int)) == Some(total),
                !all_match ==> score_sum(hay@, terms) is None,
            decreases term_vecs@.len() - t,
        {
            proof {
                assert(terms.take(t + 1).drop_last() =~~= terms.take(t as int));
                assert(terms.take(t + 1).last() == terms[t as int]);
                assert(term_vecs.deep_view()[t as int] =~= term_vecs@[t as int]@);
            }
            if all_match {
                let needle = chars_to_string(&term_vecs[t]);
                match fuzzy_match_score(hay.as_str(), needle.as_str()) {
                    Some(s) => {
                        let ghost t0 = total;
                        if total <= u32::MAX - (s as u32) {
                            total = total + (s as u32);
                        } else {
                            total = u32::MAX;
                        }
                        proof {
                            assert(spec_fuzzy(hay@, terms[t as int]) == Some(s));
                            assert(total == sat_add_u32(t0, s as u32));
                            assert(score_sum(hay@, terms.take(t + 1)) == Some(total));
                        }
                    },
                    None => {
                        all_match = false;
                        proof {
                            lemma_score_sum_none(hay@, terms, t as int);
                        }
                    },
                }
            }
            t += 1;
        }
        if all_match {
            proof {
                assert(terms.take(terms.len() as int) =~~= terms);
            }
            let score = if total <= 65535 {
                total as u16
            } else {
                65535u16
            };
            pairs.push((score, i));
        }
        proof {
            assert(pairs@ =~= filter_matches(iv.take(i + 1), terms));
        }
        i += 1;
    }
    proof {
        assert(iv.take(iv.len() as int) =~~= iv);
        lemma_filter_matches_bounds(iv, terms);
    }
    let sorted = sort_pairs_desc(pairs);
    proof {
        lemma_bounds_via_multiset(pairs@, sorted@, items@.len() as nat);
    }
    sorted
}

/// A term that fails to match poisons the whole sum.
proof fn lemma_score_sum_none(h: Seq<char>, terms: Seq<Seq<char>>, t: int)
    requires
        0 <= t < terms.len(),
        spec_fuzzy(h, terms[t]) is None,
    ensures
        score_sum(h, terms) is None,
    decreases terms.len(),
{
    if terms.len() > 0 {
        if t == terms.len() - 1 {
        } else {
            lemma_score_sum_none(h, terms.drop_last(), t);
        }
    }
}

impl Finder {
    /// A finder over the given items, with an empty query ranking them all
    /// alike.
    pub fn new(items: Vec<Subcommand>) -> (r: Finder)
        ensures
            r.items == items,
            r.query@.len() == 0,
            r.selected == 0,
            r.scroll_offset == 0,
            r.visible_height == 10,
            finder_wf(&r),
    {
        let query = String::new();
        let filtered = compute_filtered(&items, &query);
        Finder { items, query, filtered, selected: 0, scroll_offset: 0, visible_height: 10 }
    }

    /// Replaces the query, re-ranks, and resets the selection.
    pub fn set_query(&mut self, query: String)
        ensures
            final(self).items == old(self).items,
            final(self).query == query,
            final(self).selected == 0,
            final(self).scroll_offset == 0,
            final(self).visible_height == old(self).visible_height,
            finder_wf(final(self)),
    {
        self.query = query;
        self.filtered = compute_filtered(&self.items, &self.query);
        self.selected = 0;
        self.scroll_offset = 0;
    }

    /// Appends one character to the query, re-ranks, and resets the
    /// selection.
    pub fn push_char(&mut self, c: char)
        ensures
            final(self).items == old(self).items,
            final(self).query@ == old(self).query@.push(c),
            final(self).selected == 0,
            final(self).scroll_offset == 0,
            final(self).visible_height == old(self).visible_height,
            finder_wf(final(self)),
    {
        let mut qc = str_to_chars(self.query.as_str());
        qc.push(c);
        self.query = chars_to_string(&qc);
        self.filtered = compute_filtered(&self.items, &self.query);
        self.selected = 0;
        self.scroll_offset = 0;
    }

    /// Removes the last character of the query (if any), re-ranks, and
    /// resets the selection.
    pub fn pop_char(&mut self)
        ensures
            final(self).items == old(self).items,
            final(self).query@ == if old(self).query@.len() > 0 {
                old(self).query@.drop_last()
            } else {
                old(self).query@
            },
            final(self).selected == 0,
            final(self).scroll_offset == 0,
            final(self).visible_height == old(self).visible_height,
            finder_wf(final(self)),
    {
        let mut qc = str_to_chars(self.query.as_str());
        if qc.len() > 0 {
            qc.pop();
        }
        proof {
            if old(self).query@.len() == 0 {
                assert(qc@ =~= old(self).query@);
            }
        }
        self.query = chars_to_string(&qc);
        self.filtered = compute_filtered(&self.items, &self.query);
        self.selected = 0;
        self.scroll_offset = 0;
    }

    /// Moves the selection up one place, saturating at the top.
    pub fn move_up(&mut self)
        ensures
            final(self).selected == if old(self).selected > 0 {
                (old(self).selected - 1) as usize
            } else {
                0
            },
            unchanged_but_selection(old(self), final(self)),
            final(self).scroll_offset == old(self).scroll_offset,
    {
        if self.selected > 0 {
            self.selected = self.selected - 1;
        }
    }

    /// Moves the selection down one place, saturating at the last ranked
    /// item.
    pub fn move_down(&mut self)
        ensures
            old(self).selected + 1 < old(self).filtered@.len() ==> final(self).selected
                == old(self).selected + 1,
            old(self).selected + 1 >= old(self).filtered@.len() ==> final(self).selected
                == old(self).selected,
            old(self).selected <= vstd::math::max(old(self).filtered@.len() - 1, 0)
                ==> final(self).selected as int == vstd::math::min(
                old(self).selected + 1,
                vstd::math::max(old(self).filtered@.len() - 1, 0),
            ),
            unchanged_but_selection(old(self), final(self)),
            final(self).scroll_offset == old(self).scroll_offset,
    {
        let len = self.filtered.len();
        if len > 0 && self.selected < len - 1 {
            self.selected = self.selected + 1;
        }
    }

    /// Moves the selection up `n` places, saturating at the top.
    pub fn move_up_by(&mut self, n: usize)
        ensures
            final(self).selected == if old(self).selected >= n {
                (old(self).selected - n) as usize
            } else {
                0
            },
            unchanged_but_selection(old(self), final(self)),
            final(self).scroll_offset == old(self).scroll_offset,
    {
        if self.selected >= n {
            self.selected = self.selected - n;
        } else {
            self.selected = 0;
        }
    }

    /// Moves the selection down `n` places, saturating at the last ranked
    /// item.
    pub fn move_down_by(&mut self, n: usize)
        ensures
            final(self).selected == vstd::math::min(
                old(self).selected + n,
                vstd::math::max(old(self).filtered@.len() - 1, 0),
            ),
            unchanged_but_selection(old(self), final(self)),
            final(self).scroll_offset == old(self).scroll_offset,
    {
        let max_idx = if self.filtered.len() > 0 {
            self.filtered.len() - 1
        } else {
            0
        };
        if self.selected <= usize::MAX - n && self.selected + n <= max_idx {
            self.selected = self.selected + n;
        } else {
            self.selected = max_idx;
        }
    }

    pub fn set_visible_height(&mut self, h: usize)
        ensures
            final(self).visible_height == h,
            final(self).items == old(self).items,
            final(self).query == old(self).query,
            final(self).filtered == old(self).filtered,
            final(self).selected == old(self).selected,
            final(self).scroll_offset == old(self).scroll_offset,
    {
        self.visible_height = h;
    }

    /// Scrolls the ranked list so the selection stays visible in a viewport
    /// of the given height.
    pub fn adjust_scroll(&mut self, items_height: usize)
        ensures
            unchanged_but_selection(old(self), final(self)),
            final(self).selected == old(self).selected,
            final(self).scroll_offset == if old(self).selected < old(self).scroll_offset {
                old(self).selected
            } else if items_height > 0 && old(self).selected >= old(self).scroll_offset
                + items_height {
                (old(self).selected - (items_height - 1)) as usize
            } else {
                old(self).scroll_offset
            },
    {
        if self.selected < self.scroll_offset {
            self.scroll_offset = self.selected;
        } else if items_height > 0 && self.scroll_offset <= usize::MAX - items_height
            && self.selected >= self.scroll_offset + items_height {
            self.scroll_offset = self.selected - (items_height - 1);
        }
    }

    /// The item under the selection, if any.
    pub fn selected_item(&self) -> (r: Option<&Subcommand>)
        requires
            finder_wf(self),
        ensures
            self.selected < self.filtered@.len() ==> (r matches Some(item) && *item
                == self.items@[self.filtered@[self.selected as int].1 as int]),
            self.selected >= self.filtered@.len() ==> r is None,
    {
        if self.selected < self.filtered.len() {
            let idx = self.filtered[self.selected].1;
            Some(&self.items[idx])
        } else {
            None
        }
    }

    pub fn is_empty(&self) -> (r: bool)
        ensures
            r == (self.items@.len() == 0),
    {
        self.items.len() == 0
    }

    pub fn filtered_count(&self) -> (r: usize)
        ensures
            r == self.filtered@.len(),
    {
        self.filtered.len()
    }

    /// Resolves one key press in the finder overlay: `Esc` closes, `Enter`
    /// on a ranked selection selects, movement keys move the selection, and
    /// anything else edits the query.
    pub fn handle_key(&mut self, key: Key) -> (r: FinderAction)
        requires
            finder_wf(old(self)),
        ensures
            finder_wf(final(self)),
            finder_key_step(old(self), final(self), key, r),
    {
        match key.code {
            KeyCode::Esc => FinderAction::Close,
            KeyCode::Enter => {
                if self.selected < self.filtered.len() {
                    FinderAction::Select
                } else {
                    FinderAction::Idle
                }
            },
            KeyCode::Up => {
                if !key.ctrl && !key.alt && !key.shift {
                    self.move_up();
                }
                FinderAction::Idle
            },
            KeyCode::Down => {
                if !key.ctrl && !key.alt && !key.shift {
                    self.move_down();
                }
                FinderAction::Idle
            },
            KeyCode::Char(c) => {
                if key.ctrl && c == 'p' {
                    self.move_up();
                } else if key.ctrl && c == 'n' {
                    self.move_down();
                } else if key.ctrl && c == 'u' {
                    let h = self.visible_height / 2;
                    self.move_up_by(h);
                } else if key.ctrl && c == 'd' {
                    let h = self.visible_height / 2;
                    self.move_down_by(h);
                } else if key.ctrl && c == 'b' {
                    let h = self.visible_height;
                    self.move_up_by(h);
                } else if key.ctrl && c == 'f' {
                    let h = self.visible_height;
                    self.move_down_by(h);
                } else {
                    self.push_char(c);
                }
                FinderAction::Idle
            },
            KeyCode::Backspace => {
                self.pop_char();
                FinderAction::Idle
            },
            _ => FinderAction::Idle,
        }
    }
}

/// Everything but the selection and scroll offset is unchanged.
pub open spec fn unchanged_but_selection(a: &Finder, b: &Finder) -> bool {
    &&& b.items == a.items
    &&& b.query == a.query
    &&& b.filtered == a.filtered
    &&& b.visible_height == a.visible_height
}

/// The selection moved up one place, saturating at the top.
pub open spec fn moved_up(a: &Finder, b: &Finder) -> bool {
    &&& b.selected == if a.selected > 0 {
        (a.selected - 1) as usize
    } else {
        0
    }
    &&& unchanged_but_selection(a, b)
    &&& b.scroll_offset == a.scroll_offset
}

/// The selection moved down one place, saturating at the last ranked item.
pub open spec fn moved_down(a: &Finder, b: &Finder) -> bool {
    &&& (a.selected + 1 < a.filtered@.len() ==> b.selected == a.selected + 1)
    &&& (a.selected + 1 >= a.filtered@.len() ==> b.selected == a.selected)
    &&& unchanged_but_selection(a, b)
    &&& b.scroll_offset == a.scroll_offset
}

/// The selection moved up `n` places, saturating at the top.
pub open spec fn moved_up_by(a: &Finder, b: &Finder, n: int) -> bool {
    &&& b.selected == if a.selected >= n {
        (a.selected - n) as usize
    } else {
        0
    }
    &&& unchanged_but_selection(a, b)
    &&& b.scroll_offset == a.scroll_offset
}

/// The selection moved down `n` places, saturating at the last ranked item.
pub open spec fn moved_down_by(a: &Finder, b: &Finder, n: int) -> bool {
    &&& b.selected == vstd::math::min(a.selected + n, vstd::math::max(a.filtered@.len() - 1, 0))
    &&& unchanged_but_selection(a, b)
    &&& b.scroll_offset == a.scroll_offset
}

/// One character was appended to the query, the ranking recomputed, and the
/// selection reset.
pub open spec fn query_pushed(a: &Finder, b: &Finder, c: char) -> bool {
    &&& b.items == a.items
    &&& b.query@ == a.query@.push(c)
    &&& b.selected == 0
    &&& b.scroll_offset == 0
    &&& b.visible_height == a.visible_height
    &&& finder_wf(b)
}

/// The last query character (if any) was removed, the ranking recomputed,
/// and the selection reset.
pub open spec fn query_popped(a: &Finder, b: &Finder) -> bool {
    &&& b.items == a.items
    &&& b.query@ == if a.query@.len() > 0 {
        a.query@.drop_last()
    } else {
        a.query@
    }
    &&& b.selected == 0
    &&& b.scroll_offset == 0
    &&& b.visible_height == a.visible_height
    &&& finder_wf(b)
}

/// What one key press does to the finder: which action comes back and how
/// the state moves.  A body that did none of the work could not meet this.
pub open spec fn finder_key_step(pre: &Finder, post: &Finder, key: Key, r: FinderAction) -> bool {
    match key.code {
        KeyCode::Esc => r == FinderAction::Close && *post == *pre,
        KeyCode::Enter => {
            &&& r == (if pre.selected < pre.filtered@.len() {
                FinderAction::Select
            } else {
                FinderAction::Idle
            })
            &&& *post == *pre
        },
        KeyCode::Up => r == FinderAction::Idle && (
        if !key.ctrl && !key.alt && !key.shift {
            moved_up(pre, post)
        } else {
            *post == *pre
        }),
        KeyCode::Down => r == FinderAction::Idle && (
        if !key.ctrl && !key.alt && !key.shift {
            moved_down(pre, post)
        } else {
            *post == *pre
        }),
        KeyCode::Char(c) => {
            &&& r == FinderAction::Idle
            &&& if key.ctrl && c == 'p' {
                moved_up(pre, post)
            } else if key.ctrl && c == 'n' {
                moved_down(pre, post)
            } else if key.ctrl && c == 'u' {
                moved_up_by(pre, post, pre.visible_height as int / 2)
            } else if key.ctrl && c == 'd' {
                moved_down_by(pre, post, pre.visible_height as int / 2)
            } else if key.ctrl && c == 'b' {
                moved_up_by(pre, post, pre.visible_height as int)
            } else if key.ctrl && c == 'f' {
                moved_down_by(pre, post, pre.visible_height as int)
            } else {
                query_pushed(pre, post, c)
            }
        },
        KeyCode::Backspace => r == FinderAction::Idle && query_popped(pre, post),
        _ => r == FinderAction::Idle && *post == *pre,
    }
}

} // verus!
