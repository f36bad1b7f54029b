//! The navigation stack: where the user came from, with the scroll position
//! and content source to restore on the way back.
use vstd::prelude::*;

use crate::fetcher::ContentSource;
use crate::text::{join_spec, join_strings};

verus! {

/// One place the user drilled in from.
pub struct HistoryEntry {
    pub command: Vec<String>,
    pub scroll_position: usize,
    pub source: ContentSource,
}

/// A LIFO stack of history entries.
pub struct History {
    pub entries: Vec<HistoryEntry>,
}

impl History {
    pub fn new() -> (r: History)
        ensures
            r.entries@.len() == 0,
    {
        History { entries: Vec::new() }
    }

    pub fn push(&mut self, command: Vec<String>, scroll_position: usize, source: ContentSource)
        ensures
            final(self).entries@.len() == old(self).entries@.len() + 1,
            final(self).entries@.drop_last() == old(self).entries@,
            final(self).entries@.last().command == command,
            final(self).entries@.last().scroll_position == scroll_position,
            final(self).entries@.last().source == source,
    {
        self.entries.push(HistoryEntry { command, scroll_position, source });
        proof {
            assert(self.entries@.drop_last() =~= old(self).entries@);
        }
    }

    pub fn pop(&mut self) -> (r: Option<HistoryEntry>)
        ensures
            old(self).entries@.len() == 0 ==> r is None && final(self).entries@
                == old(self).entries@,
            old(self).entries@.len() > 0 ==> (r matches Some(e) && e == old(
                self,
            ).entries@.last() && final(self).entries@ == old(self).entries@.drop_last()),
    {
        self.entries.pop()
    }

    pub fn current(&self) -> (r: Option<&HistoryEntry>)
        ensures
            self.entries@.len() == 0 ==> r is None,
            self.entries@.len() > 0 ==> (r matches Some(e) && *e == self.entries@.last()),
    {
        if self.entries.len() == 0 {
            None
        } else {
            Some(&self.entries[self.entries.len() - 1])
        }
    }

    pub fn len(&self) -> (r: usize)
        ensures
            r == self.entries@.len(),
    {
        self.entries.len()
    }

    pub fn is_empty(&self) -> (r: bool)
        ensures
            r == (self.entries@.len() == 0),
    {
        self.entries.len() == 0
    }

    /// The last token of each stacked command, followed by the last token of
    /// the current command, joined by ` > `.
    pub fn breadcrumb_string(&self, current_cmd: &Vec<String>) -> (r: String)
        ensures
            r@ == join_spec(breadcrumb_parts(self.entries@, current_cmd.deep_view()), " > "@),
    {
        let mut parts: Vec<String> = Vec::new();
        let mut i: usize = 0;
        proof {
            assert(breadcrumb_stack_parts(self.entries@.take(0)) =~~= Seq::<Seq<char>>::empty());
        }
        while i < self.entries.len()
            invariant
                0 <= i <= self.entries@.len(),
                parts.deep_view() =~~= breadcrumb_stack_parts(self.entries@.take(i as int)),
            decreases self.entries@.len() - i,
        {
            proof {
                assert(self.entries@.take(i + 1).drop_last() =~= self.entries@.take(i as int));
                assert(self.entries@.take(i + 1).last() == self.entries@[i as int]);
            }
            let cmd = &self.entries[i].command;
            if cmd.len() > 0 {
                parts.push(cmd[cmd.len() - 1].clone());
                proof {
                    assert(self.entries@[i as int].command.deep_view().last() == self.entries@[
                        i as int
                    ].command@.last()@);
                }
            }
            proof {
                assert(parts.deep_view() =~~= breadcrumb_stack_parts(self.entries@.take(i + 1)));
            }
            i += 1;
        }
        proof {
            assert(self.entries@.take(self.entries@.len() as int) =~= self.entries@);
        }
        if current_cmd.len() > 0 {
            parts.push(current_cmd[current_cmd.len() - 1].clone());
            proof {
                assert(current_cmd.deep_view().last() == current_cmd@.last()@);
            }
        }
        proof {
            assert(parts.deep_view() =~~= breadcrumb_parts(self.entries@, current_cmd.deep_view()));
        }
        join_strings(&parts, " > ")
    }

    /// The current command path joined by spaces.
    pub fn full_breadcrumb(&self, current_cmd: &Vec<String>) -> (r: String)
        ensures
            r@ == join_spec(current_cmd.deep_view(), " "@),
    {
        join_strings(current_cmd, " ")
    }
}

/// The last token of each stacked command, in stack order.
pub open spec fn breadcrumb_stack_parts(entries: Seq<HistoryEntry>) -> Seq<Seq<char>>
    decreases entries.len(),
{
    if entries.len() == 0 {
        Seq::empty()
    } else {
        let init = breadcrumb_stack_parts(entries.drop_last());
        let cmd = entries.last().command.deep_view();
        if cmd.len() > 0 {
            init.push(cmd.last())
        } else {
            init
        }
    }
}

pub open spec fn breadcrumb_parts(
    entries: Seq<HistoryEntry>,
    current: Seq<Seq<char>>,
) -> Seq<Seq<char>> {
    if current.len() > 0 {
        breadcrumb_stack_parts(entries).push(current.last())
    } else {
        breadcrumb_stack_parts(entries)
    }
}

} // verus!
