//! The scrollable content pane: the fetched text split into lines, the
//! scroll offset, and the incremental search state.
use vstd::prelude::*;

use crate::text::{
    chars_contains_ci, chars_split_lines, chars_to_string, contains_ci, split_lines_spec,
    str_to_chars,
};

verus! {

/// Content lines, scroll offset, and search state.
pub struct Pager {
    pub content: Vec<String>,
    pub scroll: usize,
    pub search_query: Option<String>,
    pub search_matches: Vec<usize>,
    pub current_match: usize,
}

/// The line indices whose text contains the query, compared
/// case-insensitively, in increasing order.
pub open spec fn search_matches_spec(content: Seq<Seq<char>>, q: Seq<char>) -> Seq<int>
    decreases content.len(),
{
    if content.len() == 0 {
        Seq::empty()
    } else {
        let init = search_matches_spec(content.drop_last(), q);
        if contains_ci(content.last(), q) {
            init.push(content.len() - 1)
        } else {
            init
        }
    }
}

/// A sequence of indices, as mathematical integers.
pub open spec fn to_ints(s: Seq<usize>) -> Seq<int> {
    s.map_values(|x: usize| x as int)
}

/// The pager's search state is cleared.
pub open spec fn search_cleared(p: &Pager) -> bool {
    &&& p.search_query is None
    &&& p.search_matches@.len() == 0
    &&& p.current_match == 0
}

/// What `set_search(q)` leaves behind: content and scroll untouched, the
/// search cleared for an empty query, and otherwise the query recorded with
/// exactly its matching line indices and the first match current.
pub open spec fn search_applied(pre: &Pager, post: &Pager, q: Seq<char>) -> bool {
    &&& post.content == pre.content
    &&& post.scroll == pre.scroll
    &&& if q.len() == 0 {
        search_cleared(post)
    } else {
        &&& post.search_query matches Some(s) && s@ == q
        &&& to_ints(post.search_matches@) == search_matches_spec(pre.content.deep_view(), q)
        &&& post.current_match == 0
    }
}

/// What `next_match` does: with matches present, advance with wrap-around
/// and scroll to the now-current match; otherwise nothing.
pub open spec fn next_match_step(pre: &Pager, post: &Pager) -> bool {
    if pre.search_matches@.len() == 0 {
        *post == *pre
    } else {
        &&& post.current_match == (pre.current_match + 1) % (pre.search_matches@.len() as int)
        &&& post.scroll == pre.search_matches@[post.current_match as int]
        &&& post.content == pre.content
        &&& post.search_matches == pre.search_matches
        &&& post.search_query == pre.search_query
    }
}

/// What `prev_match` does: with matches present, step back with wrap-around
/// and scroll to the now-current match; otherwise nothing.
pub open spec fn prev_match_step(pre: &Pager, post: &Pager) -> bool {
    if pre.search_matches@.len() == 0 {
        *post == *pre
    } else {
        &&& post.current_match == if pre.current_match == 0 {
            (pre.search_matches@.len() - 1) as usize
        } else {
            (pre.current_match - 1) as usize
        }
        &&& post.scroll == if post.current_match < pre.search_matches@.len() {
            pre.search_matches@[post.current_match as int]
        } else {
            pre.scroll
        }
        &&& post.content == pre.content
        &&& post.search_matches == pre.search_matches
        &&& post.search_query == pre.search_query
    }
}

impl Pager {
    /// Splits fetched content into lines; scroll starts at the top with no
    /// search active.
    #[verifier::loop_isolation(false)]
    pub fn new(content: String) -> (r: Pager)
        ensures
            r.content.deep_view() == split_lines_spec(content@),
            r.scroll == 0,
            search_cleared(&r),
    {
        let chars = str_to_chars(content.as_str());
        let line_vecs = chars_split_lines(&chars);
        let mut lines: Vec<String> = Vec::new();
        let ghost lv = split_lines_spec(content@);
        let mut i: usize = 0;
        proof {
            assert(lines.deep_view() =~~= lv.take(0));
        }
        while i < line_vecs.len()
            invariant
                0 <= i <= line_vecs@.len(),
                line_vecs.deep_view() == lv,
                line_vecs@.len() == lv.len(),
                lines.deep_view() =~~= lv.take(i as int),
            decreases line_vecs@.len() - i,
        {
            lines.push(chars_to_string(&line_vecs[i]));
            proof {
                assert(line_vecs@[i as int].deep_view() =~= line_vecs@[i as int]@);
                assert(lv.take(i + 1) =~~= lv.take(i as int).push(lv[i as int]));
                assert(lines.deep_view() =~~= lv.take(i + 1));
            }
            i += 1;
        }
        proof {
            assert(lv.take(lv.len() as int) =~~= lv);
        }
        Pager {
            content: lines,
            scroll: 0,
            search_query: None,
            search_matches: Vec::new(),
            current_match: 0,
        }
    }

    /// Scrolls down, saturating at the largest offset the type can hold;
    /// rendering clamps against the content length.
    pub fn scroll_down(&mut self, amount: usize)
        ensures
            final(self).scroll == if old(self).scroll + amount <= usize::MAX {
                (old(self).scroll + amount) as usize
            } else {
                usize::MAX
            },
            unchanged_but_scroll(old(self), final(self)),
    {
        if self.scroll <= usize::MAX - amount {
            self.scroll = self.scroll + amount;
        } else {
            self.scroll = usize::MAX;
        }
    }

    /// Scrolls up, saturating at the top.
    pub fn scroll_up(&mut self, amount: usize)
        ensures
            final(self).scroll == if old(self).scroll >= amount {
                (old(self).scroll - amount) as usize
            } else {
                0
            },
            unchanged_but_scroll(old(self), final(self)),
    {
        if self.scroll >= amount {
            self.scroll = self.scroll - amount;
        } else {
            self.scroll = 0;
        }
    }

    pub fn scroll_to_top(&mut self)
        ensures
            final(self).scroll == 0,
            unchanged_but_scroll(old(self), final(self)),
    {
        self.scroll = 0;
    }

    /// Jumps so that the last viewport of lines is shown; with short content
    /// the offset is left as it was.
    pub fn scroll_to_bottom(&mut self, viewport_height: usize)
        ensures
            final(self).scroll == if old(self).content@.len() > viewport_height {
                (old(self).content@.len() - viewport_height) as usize
            } else {
                old(self).scroll
            },
            unchanged_but_scroll(old(self), final(self)),
    {
        if self.content.len() > viewport_height {
            self.scroll = self.content.len() - viewport_height;
        }
    }

    /// Clamps the offset so the viewport never runs past the content.
    pub fn clamp_scroll(&mut self, viewport_height: usize)
        ensures
            final(self).scroll == vstd::math::min(
                old(self).scroll as int,
                vstd::math::max(old(self).content@.len() - viewport_height, 0),
            ),
            unchanged_but_scroll(old(self), final(self)),
    {
        let max_scroll = if self.content.len() >= viewport_height {
            self.content.len() - viewport_height
        } else {
            0
        };
        if self.scroll > max_scroll {
            self.scroll = max_scroll;
        }
    }

    /// Records the query and the lines it occurs in; an empty query clears
    /// the search.
    #[verifier::loop_isolation(false)]
    pub fn set_search(&mut self, query: &str)
        ensures
            search_applied(old(self), final(self), query@),
    {
        if query.unicode_len() == 0 {
            self.clear_search();
            return;
        }
        self.search_query = Some(query.to_owned());
        self.current_match = 0;
        let qchars = str_to_chars(query);
        let mut matches: Vec<usize> = Vec::new();
        let ghost cv = self.content.deep_view();
        let mut i: usize = 0;
        proof {
            assert(to_ints(matches@) =~= search_matches_spec(cv.take(0), query@));
        }
        while i < self.content.len()
            invariant
                0 <= i <= self.content@.len(),
                self.content.deep_view() == cv,
                self.content@.len() == cv.len(),
                to_ints(matches@) =~= search_matches_spec(cv.take(i as int), query@),
            decreases self.content@.len() - i,
        {
            proof {
                assert(cv.take(i + 1).drop_last() =~~= cv.take(i as int));
                assert(cv.take(i + 1).last() == cv[i as int]);
                assert(self.content.deep_view()[i as int] == self.content@[i as int]@);
            }
            let line_chars = str_to_chars(self.content[i].as_str());
            let ghost m0 = matches@;
            if chars_contains_ci(&line_chars, &qchars) {
                matches.push(i);
                proof {
                    assert(matches@ == m0.push(i));
                    assert(to_ints(matches@) =~= to_ints(m0).push(i as int));
                }
            }
            proof {
                assert(to_ints(matches@) =~= search_matches_spec(cv.take(i + 1), query@));
            }
            i += 1;
        }
        proof {
            assert(cv.take(cv.len() as int) =~~= cv);
        }
        self.search_matches = matches;
    }

    pub fn clear_search(&mut self)
        ensures
            final(self).content == old(self).content,
            final(self).scroll == old(self).scroll,
            search_cleared(final(self)),
    {
        self.search_query = None;
        self.search_matches = Vec::new();
        self.current_match = 0;
    }

    /// Advances to the next match, wrapping around, and scrolls to it.
    pub fn next_match(&mut self)
        ensures
            next_match_step(old(self), final(self)),
    {
        if self.search_matches.len() == 0 {
            return;
        }
        let len = self.search_matches.len();
        let cm = self.current_match % len;
        let next = if cm == len - 1 {
            0
        } else {
            cm + 1
        };
        proof {
            let c = old(self).current_match as int;
            let l = len as int;
            assert(cm as int == c % l);
            if cm == len - 1 {
                assert((c + 1) % l == 0) by (nonlinear_arith)
                    requires
                        l > 0,
                        c >= 0,
                        c % l == l - 1,
                ;
            } else {
                assert((c + 1) % l == c % l + 1) by (nonlinear_arith)
                    requires
                        l > 0,
                        c >= 0,
                        c % l < l - 1,
                ;
            }
            assert(next as int == (c + 1) % l);
        }
        self.current_match = next;
        self.scroll = self.search_matches[self.current_match];
    }

    /// Steps back to the previous match, wrapping around, and scrolls to it.
    pub fn prev_match(&mut self)
        ensures
            prev_match_step(old(self), final(self)),
    {
        if self.search_matches.len() == 0 {
            return;
        }
        if self.current_match == 0 {
            self.current_match = self.search_matches.len() - 1;
        } else {
            self.current_match = self.current_match - 1;
        }
        if self.current_match < self.search_matches.len() {
            self.scroll = self.search_matches[self.current_match];
        }
    }

    pub fn match_count(&self) -> (r: usize)
        ensures
            r == self.search_matches@.len(),
    {
        self.search_matches.len()
    }

    pub fn current_match_index(&self) -> (r: usize)
        ensures
            r == self.current_match,
    {
        self.current_match
    }

    /// How far down the viewport sits, as a whole percentage; all of short
    /// content is visible, which reads as one hundred.
    pub fn scroll_percentage(&self, viewport_height: usize) -> (r: u16)
        ensures
            self.content@.len() <= viewport_height ==> r == 100,
            self.content@.len() > viewport_height ==> r as int == vstd::math::min(
                self.scroll as int * 100 / (self.content@.len() - viewport_height),
                u16::MAX as int,
            ),
    {
        if self.content.len() <= viewport_height {
            return 100;
        }
        let max_scroll = self.content.len() - viewport_height;
        let pct = (self.scroll as u128) * 100 / (max_scroll as u128);
        if pct > u16::MAX as u128 {
            u16::MAX
        } else {
            proof {
                assert(pct as int == self.scroll as int * 100 / (self.content@.len()
                    - viewport_height));
            }
            pct as u16
        }
    }
}

/// Everything but the scroll offset is unchanged.
pub open spec fn unchanged_but_scroll(a: &Pager, b: &Pager) -> bool {
    &&& b.content == a.content
    &&& b.search_query == a.search_query
    &&& b.search_matches == a.search_matches
    &&& b.current_match == a.current_match
}

/// The one-line search prompt shown while a query is being typed.
pub struct SearchInput<'a> {
    pub query: &'a str,
}

impl<'a> SearchInput<'a> {
    pub fn new(query: &'a str) -> (r: SearchInput<'a>)
        ensures
            r.query@ == query@,
    {
        SearchInput { query }
    }
}

/// The key-binding help overlay; its text lives with the renderer.
pub struct HelpOverlay;

} // verus!
