//! Background discovery: the `man -k` probe for related manual pages, the
//! SEE ALSO extraction from manual-page content, and the merge of
//! discovered items into the live subcommand list.  Child processes are run
//! outside; every parsing and merging decision is here.
use vstd::prelude::*;

use crate::fetcher::{replace_spec, ProcessOutput};
use crate::parser::{
    is_word_char, starts_with_dash, sub_name_taken, wf_subcommands, Subcommand, SubcommandView,
};
use crate::text::{
    chars_split_lines, chars_split_ws, chars_to_string, chars_trim, is_space_char, chars_starts_with,
    split_lines_spec, split_ws_spec, starts_with, str_to_chars, trim_spec,
};
use crate::toolpacks::{find_pack, spec_discover_all, DiscoverySource, ToolPacks};

verus! {

// ---------------------------------------------------------------------------
// Character runs
// ---------------------------------------------------------------------------
pub open spec fn is_digit_char(c: char) -> bool {
    '0' <= c && c <= '9'
}

/// A manual-page name character: word character, dot or dash.
pub open spec fn is_page_char(c: char) -> bool {
    is_word_char(c) || c == '.' || c == '-'
}

/// Length of the maximal run of page-name characters from `i`.
pub open spec fn page_run(s: Seq<char>, i: int) -> nat
    decreases s.len() - i,
{
    if 0 <= i < s.len() && is_page_char(s[i]) {
        1 + page_run(s, i + 1)
    } else {
        0
    }
}

pub open spec fn digit_run(s: Seq<char>, i: int) -> nat
    decreases s.len() - i,
{
    if 0 <= i < s.len() && is_digit_char(s[i]) {
        1 + digit_run(s, i + 1)
    } else {
        0
    }
}

pub open spec fn space_run_spec(s: Seq<char>, i: int) -> nat
    decreases s.len() - i,
{
    if 0 <= i < s.len() && is_space_char(s[i]) {
        1 + space_run_spec(s, i + 1)
    } else {
        0
    }
}

proof fn lemma_page_run_bounds(s: Seq<char>, i: int)
    requires
        0 <= i <= s.len(),
    ensures
        i + page_run(s, i) <= s.len(),
    decreases s.len() - i,
{
    if i < s.len() && is_page_char(s[i]) {
        lemma_page_run_bounds(s, i + 1);
    }
}

proof fn lemma_digit_run_bounds(s: Seq<char>, i: int)
    requires
        0 <= i <= s.len(),
    ensures
        i + digit_run(s, i) <= s.len(),
    decreases s.len() - i,
{
    if i < s.len() && is_digit_char(s[i]) {
        lemma_digit_run_bounds(s, i + 1);
    }
}

proof fn lemma_space_run_bounds(s: Seq<char>, i: int)
    requires
        0 <= i <= s.len(),
    ensures
        i + space_run_spec(s, i) <= s.len(),
    decreases s.len() - i,
{
    if i < s.len() && is_space_char(s[i]) {
        lemma_space_run_bounds(s, i + 1);
    }
}

fn exec_page_run(s: &Vec<char>, from: usize) -> (r: usize)
    requires
        from <= s@.len(),
    ensures
        r == page_run(s@, from as int),
        from + r <= s@.len(),
{
    proof {
        lemma_page_run_bounds(s@, from as int);
    }
    let mut i: usize = from;
    while i < s.len() && (('a' <= s[i] && s[i] <= 'z') || ('A' <= s[i] && s[i] <= 'Z') || ('0'
        <= s[i] && s[i] <= '9') || s[i] == '_' || s[i] == '.' || s[i] == '-')
        invariant
            from <= i <= s@.len(),
            page_run(s@, from as int) == i - from + page_run(s@, i as int),
        decreases s@.len() - i,
    {
        i += 1;
    }
    i - from
}

fn exec_digit_run(s: &Vec<char>, from: usize) -> (r: usize)
    requires
        from <= s@.len(),
    ensures
        r == digit_run(s@, from as int),
        from + r <= s@.len(),
{
    proof {
        lemma_digit_run_bounds(s@, from as int);
    }
    let mut i: usize = from;
    while i < s.len() && '0' <= s[i] && s[i] <= '9'
        invariant
            from <= i <= s@.len(),
            digit_run(s@, from as int) == i - from + digit_run(s@, i as int),
        decreases s@.len() - i,
    {
        i += 1;
    }
    i - from
}

fn exec_space_run(s: &Vec<char>, from: usize) -> (r: usize)
    requires
        from <= s@.len(),
    ensures
        r == space_run_spec(s@, from as int),
        from + r <= s@.len(),
{
    proof {
        lemma_space_run_bounds(s@, from as int);
    }
    let mut i: usize = from;
    while i < s.len() && crate::text::is_space(s[i])
        invariant
            from <= i <= s@.len(),
            space_run_spec(s@, from as int) == i - from + space_run_spec(s@, i as int),
        decreases s@.len() - i,
    {
        i += 1;
    }
    i - from
}

// ---------------------------------------------------------------------------
// Escaping a literal for use inside a pattern
// ---------------------------------------------------------------------------
/// A character the pattern language treats specially.
pub open spec fn is_rx_meta(c: char) -> bool {
    c == '\\' || c == '.' || c == '+' || c == '*' || c == '?' || c == '(' || c == ')' || c == '|'
        || c == '[' || c == ']' || c == '{' || c == '}' || c == '^' || c == '$' || c == '#' || c
        == '&' || c == '-' || c == '~'
}

/// `s` with every special character preceded by a backslash.
pub open spec fn escape_rx_spec(s: Seq<char>) -> Seq<char>
    decreases s.len(),
{
    if s.len() == 0 {
        Seq::empty()
    } else {
        escape_rx_spec(s.drop_last()) + (if is_rx_meta(s.last()) {
            seq!['\\', s.last()]
        } else {
            seq![s.last()]
        })
    }
}

#[verifier::loop_isolation(false)]
fn escape_rx(s: &Vec<char>) -> (r: Vec<char>)
    ensures
        r@ == escape_rx_spec(s@),
{
    let mut r: Vec<char> = Vec::new();
    let mut i: usize = 0;
    while i < s.len()
        invariant
            0 <= i <= s@.len(),
            r@ =~= escape_rx_spec(s@.take(i as int)),
        decreases s@.len() - i,
    {
        proof {
            assert(s@.take(i + 1).drop_last() =~= s@.take(i as int));
            assert(s@.take(i + 1).last() == s@[i as int]);
        }
        let c = s[i];
        if c == '\\' || c == '.' || c == '+' || c == '*' || c == '?' || c == '(' || c == ')' || c
            == '|' || c == '[' || c == ']' || c == '{' || c == '}' || c == '^' || c == '$' || c
            == '#' || c == '&' || c == '-' || c == '~' {
            r.push('\\');
        }
        r.push(c);
        proof {
            assert(r@ =~= escape_rx_spec(s@.take(i + 1)));
        }
        i += 1;
    }
    proof {
        assert(s@.take(s@.len() as int) =~= s@);
    }
    r
}

/// The pattern handed to the manual-page index probe: the escaped base
/// command anchored at the start and followed by a dash.
pub fn man_k_pattern(base_cmd: &str) -> (r: String)
    ensures
        r@ == "^"@ + escape_rx_spec(base_cmd@) + "-"@,
{
    let base = str_to_chars(base_cmd);
    let escaped = escape_rx(&base);
    let mut out: Vec<char> = str_to_chars("^");
    let mut e = escaped;
    out.append(&mut e);
    let mut dash = str_to_chars("-");
    out.append(&mut dash);
    proof {
        assert(out@ =~= "^"@ + escape_rx_spec(base_cmd@) + "-"@);
    }
    chars_to_string(&out)
}

// ---------------------------------------------------------------------------
// The manual-page index probe
// ---------------------------------------------------------------------------
/// A `name (section) - description` line of the index listing, after
/// trimming: a page name, optional spaces, a parenthesized section number,
/// optional spaces, a dash, optional spaces, then the description.
pub open spec fn man_k_entry(line: Seq<char>) -> Option<(Seq<char>, Seq<char>)> {
    if line.len() > 0 && is_word_char(line[0]) {
        let ne: int = 1 + page_run(line, 1) as int;
        let p: int = ne + space_run_spec(line, ne) as int;
        if p < line.len() && line[p] == '(' {
            let d: int = digit_run(line, p + 1) as int;
            if d >= 1 && p + 1 + d < line.len() && line[p + 1 + d] == ')' {
                let q: int = p + 2 + d;
                let m: int = q + space_run_spec(line, q) as int;
                if m < line.len() && line[m] == '-' {
                    let w3: int = space_run_spec(line, m + 1) as int;
                    Some((line.subrange(0, ne), line.subrange(m + 1 + w3, line.len() as int)))
                } else {
                    None
                }
            } else {
                None
            }
        } else {
            None
        }
    } else {
        None
    }
}

#[verifier::loop_isolation(false)]
fn man_k_entry_line(line: &Vec<char>) -> (r: Option<(Vec<char>, Vec<char>)>)
    ensures
        r matches Some(g) ==> man_k_entry(line@) == Some((g.0@, g.1@)),
        r is None ==> man_k_entry(line@) is None,
{
    if line.len() == 0 {
        return None;
    }
    let c0 = line[0];
    let word0 = ('a' <= c0 && c0 <= 'z') || ('A' <= c0 && c0 <= 'Z') || ('0' <= c0 && c0 <= '9')
        || c0 == '_';
    if !word0 {
        return None;
    }
    let ne = 1 + exec_page_run(line, 1);
    let p = ne + exec_space_run(line, ne);
    if !(p < line.len() && line[p] == '(') {
        return None;
    }
    let d = exec_digit_run(line, p + 1);
    if !(d >= 1 && p + 1 + d < line.len() && line[p + 1 + d] == ')') {
        return None;
    }
    let q = p + 2 + d;
    let m = q + exec_space_run(line, q);
    if !(m < line.len() && line[m] == '-') {
        return None;
    }
    let w3 = exec_space_run(line, m + 1);
    Some(
        (
            crate::text::chars_slice(line, 0, ne),
            crate::text::chars_slice(line, m + 1 + w3, line.len()),
        ),
    )
}

/// The subcommand entry one discovered manual page becomes.
pub open spec fn man_page_item(name: Seq<char>) -> SubcommandView {
    SubcommandView {
        name,
        description: None,
        label: Some("Man Pages"@),
        invoke_command: Some("man "@ + name),
    }
}

pub open spec fn man_page_item_desc(name: Seq<char>, description: Seq<char>) -> SubcommandView {
    SubcommandView {
        name,
        description: Some(description),
        label: Some("Man Pages"@),
        invoke_command: Some("man "@ + name),
    }
}

/// The index lines that name pages starting with `base-`, in order.
pub open spec fn man_k_fold(base: Seq<char>, lines: Seq<Seq<char>>) -> Seq<SubcommandView>
    decreases lines.len(),
{
    if lines.len() == 0 {
        Seq::empty()
    } else {
        let init = man_k_fold(base, lines.drop_last());
        let t = trim_spec(lines.last());
        match man_k_entry(t) {
            Some(g) => {
                if starts_with(g.0, base + "-"@) {
                    init.push(man_page_item_desc(g.0, trim_spec(g.1)))
                } else {
                    init
                }
            },
            None => init,
        }
    }
}

fn push_man_invoke(name: &String) -> (r: String)
    ensures
        r@ == "man "@ + name@,
{
    let mut s = "man ".to_owned();
    s.append(name.as_str());
    s
}

/// Parses `man -k` output: each matching line whose page name starts with
/// `base-` becomes an entry labelled `Man Pages` that opens its page.
#[verifier::loop_isolation(false)]
pub fn parse_man_k(base_cmd: &str, text: &str) -> (r: Vec<Subcommand>)
    ensures
        r.deep_view() == man_k_fold(base_cmd@, split_lines_spec(text@)),
{
    let chars = str_to_chars(text);
    let lines = chars_split_lines(&chars);
    let ghost lines_v = split_lines_spec(text@);
    let mut prefix = str_to_chars(base_cmd);
    prefix.push('-');
    proof {
        reveal_strlit("-");
        assert(prefix@ =~= base_cmd@ + "-"@);
    }
    let mut out: Vec<Subcommand> = Vec::new();
    let mut i: usize = 0;
    while i < lines.len()
        invariant
            0 <= i <= lines@.len(),
            lines.deep_view() == lines_v,
            lines@.len() == lines_v.len(),
            prefix@ == base_cmd@ + "-"@,
            out.deep_view() =~~= man_k_fold(base_cmd@, lines_v.take(i as int)),
        decreases lines@.len() - i,
    {
        proof {
            assert(lines_v.take(i + 1).drop_last() =~~= lines_v.take(i as int));
            assert(lines_v.take(i + 1).last() == lines_v[i as int]);
            assert(lines.deep_view()[i as int] =~= lines@[i as int]@);
        }
        let t = chars_trim(&lines[i]);
        match man_k_entry_line(&t) {
            Some(g) => {
                let (namec, descc) = g;
                if chars_starts_with(&namec, &prefix) {
                    let name = chars_to_string(&namec);
                    let d = chars_trim(&descc);
                    let invoke = push_man_invoke(&name);
                    out.push(
                        Subcommand {
                            name,
                            description: Some(chars_to_string(&d)),
                            label: Some("Man Pages".to_owned()),
                            invoke_command: Some(invoke),
                        },
                    );
                }
            },
            None => {},
        }
        proof {
            assert(out.deep_view() =~~= man_k_fold(base_cmd@, lines_v.take(i + 1)));
        }
        i += 1;
    }
    proof {
        assert(lines_v.take(lines_v.len() as int) =~~= lines_v);
    }
    out
}

// ---------------------------------------------------------------------------
// SEE ALSO extraction
// ---------------------------------------------------------------------------
pub open spec fn is_upper_char(c: char) -> bool {
    'A' <= c && c <= 'Z'
}

pub open spec fn contains_char(s: Seq<char>, c: char) -> bool {
    exists|i: int| 0 <= i < s.len() && s[i] == c
}

fn chars_contains_char(s: &Vec<char>, c: char) -> (r: bool)
    ensures
        r == contains_char(s@, c),
{
    let mut i: usize = 0;
    while i < s.len()
        invariant
            0 <= i <= s@.len(),
            forall|k: int| 0 <= k < i ==> s@[k] != c,
        decreases s@.len() - i,
    {
        if s[i] == c {
            return true;
        }
        i += 1;
    }
    false
}

/// Accumulating the SEE ALSO section: the header opens it, the next
/// uppercase-led header without parentheses closes it for good, and the
/// lines in between are gathered with trailing spaces.
pub open spec fn sa_gather(
    st: (bool, bool, Seq<char>),
    line: Seq<char>,
) -> (bool, bool, Seq<char>) {
    if st.1 {
        st
    } else {
        let t = trim_spec(line);
        if t == "SEE ALSO"@ || t == "See Also"@ || t == "SEE  ALSO"@ {
            (true, false, st.2)
        } else if st.0 {
            if t.len() > 0 && is_upper_char(t[0]) && !contains_char(t, '(') {
                (st.0, true, st.2)
            } else {
                (st.0, false, st.2 + line + " "@)
            }
        } else {
            st
        }
    }
}

pub open spec fn sa_gather_lines(lines: Seq<Seq<char>>) -> (bool, bool, Seq<char>)
    decreases lines.len(),
{
    if lines.len() == 0 {
        (false, false, Seq::empty())
    } else {
        sa_gather(sa_gather_lines(lines.drop_last()), lines.last())
    }
}

/// A `name(section)` reference at position `p`: the page name and the index
/// just past the closing parenthesis.
pub open spec fn sa_match(s: Seq<char>, p: int) -> Option<(Seq<char>, int)> {
    if 0 <= p < s.len() && is_word_char(s[p]) {
        let ne: int = p + 1 + page_run(s, p + 1) as int;
        if ne < s.len() && s[ne] == '(' {
            let d: int = digit_run(s, ne + 1) as int;
            if d >= 1 && ne + 1 + d < s.len() && s[ne + 1 + d] == ')' {
                Some((s.subrange(p, ne), ne + 2 + d))
            } else {
                None
            }
        } else {
            None
        }
    } else {
        None
    }
}

/// All references in the gathered text whose name starts with `base-`,
/// scanning left to right past each reference found.
pub open spec fn sa_scan(base: Seq<char>, s: Seq<char>, p: int) -> Seq<SubcommandView>
    decreases s.len() - p,
{
    if p < 0 || p >= s.len() {
        Seq::empty()
    } else {
        match sa_match(s, p) {
            Some(g) => {
                let next = vstd::math::max(g.1, p + 1);
                let rest = sa_scan(base, s, next);
                if starts_with(g.0, base + "-"@) {
                    seq![man_page_item(g.0)] + rest
                } else {
                    rest
                }
            },
            None => sa_scan(base, s, p + 1),
        }
    }
}

/// What SEE ALSO extraction yields for manual-page content.
pub open spec fn spec_parse_see_also(content: Seq<char>, base: Seq<char>) -> Seq<SubcommandView> {
    let text = sa_gather_lines(split_lines_spec(content)).2;
    sa_scan(base, text, 0)
}

#[verifier::loop_isolation(false)]
fn sa_match_at(s: &Vec<char>, p: usize) -> (r: Option<(Vec<char>, usize)>)
    requires
        p < s@.len(),
    ensures
        r matches Some(g) ==> sa_match(s@, p as int) == Some((g.0@, g.1 as int)) && p < g.1
            <= s@.len(),
        r is None ==> sa_match(s@, p as int) is None,
{
    proof {
        assert(s@.len() == s.len());
    }
    let c0 = s[p];
    let word0 = ('a' <= c0 && c0 <= 'z') || ('A' <= c0 && c0 <= 'Z') || ('0' <= c0 && c0 <= '9')
        || c0 == '_';
    if !word0 {
        return None;
    }
    let run = exec_page_run(s, p + 1);
    let ne = p + 1 + run;
    if !(ne < s.len() && s[ne] == '(') {
        return None;
    }
    let d = exec_digit_run(s, ne + 1);
    if !(d >= 1 && ne + 1 + d < s.len() && s[ne + 1 + d] == ')') {
        return None;
    }
    Some((crate::text::chars_slice(s, p, ne), ne + 2 + d))
}

/// Extracts `name(section)` references from the SEE ALSO section of
/// manual-page content, keeping only pages named `base-*`; each keeps the
/// `Man Pages` label and opens its page when drilled into.
#[verifier::loop_isolation(false)]
pub fn parse_see_also(content: &str, base_cmd: &str) -> (r: Vec<Subcommand>)
    ensures
        r.deep_view() == spec_parse_see_also(content@, base_cmd@),
{
    let chars = str_to_chars(content);
    let lines = chars_split_lines(&chars);
    let ghost lines_v = split_lines_spec(content@);
    let see1 = str_to_chars("SEE ALSO");
    let see2 = str_to_chars("See Also");
    let see3 = str_to_chars("SEE  ALSO");
    let mut in_sa = false;
    let mut done = false;
    let mut text: Vec<char> = Vec::new();
    let mut i: usize = 0;
    while i < lines.len()
        invariant
            0 <= i <= lines@.len(),
            lines.deep_view() == lines_v,
            lines@.len() == lines_v.len(),
            see1@ == "SEE ALSO"@,
            see2@ == "See Also"@,
            see3@ == "SEE  ALSO"@,
            in_sa == sa_gather_lines(lines_v.take(i as int)).0,
            done == sa_gather_lines(lines_v.take(i as int)).1,
            text@ =~= sa_gather_lines(lines_v.take(i as int)).2,
        decreases lines@.len() - i,
    {
        proof {
            assert(lines_v.take(i + 1).drop_last() =~~= lines_v.take(i as int));
            assert(lines_v.take(i + 1).last() == lines_v[i as int]);
            assert(lines.deep_view()[i as int] =~= lines@[i as int]@);
        }
        if !done {
            let line = &lines[i];
            let t = chars_trim(line);
            let is_header = crate::text::chars_eq(&t, &see1) || crate::text::chars_eq(&t, &see2)
                || crate::text::chars_eq(&t, &see3);
            if is_header {
                in_sa = true;
            } else if in_sa {
                let is_upper0 = t.len() > 0 && 'A' <= t[0] && t[0] <= 'Z';
                if is_upper0 && !chars_contains_char(&t, '(') {
                    done = true;
                } else {
                    let mut lc = crate::text::chars_slice(line, 0, line.len());
                    text.append(&mut lc);
                    text.push(' ');
                    proof {
                        reveal_strlit(" ");
                        assert(text@ =~= sa_gather_lines(lines_v.take(i + 1)).2);
                    }
                }
            }
        }
        proof {
            assert(in_sa == sa_gather_lines(lines_v.take(i + 1)).0);
            assert(done == sa_gather_lines(lines_v.take(i + 1)).1);
            assert(text@ =~= sa_gather_lines(lines_v.take(i + 1)).2);
        }
        i += 1;
    }
    proof {
        assert(lines_v.take(lines_v.len() as int) =~~= lines_v);
    }
    let mut prefix = str_to_chars(base_cmd);
    prefix.push('-');
    proof {
        reveal_strlit("-");
        assert(prefix@ =~= base_cmd@ + "-"@);
    }
    let ghost tv = text@;
    let mut out: Vec<Subcommand> = Vec::new();
    let mut p: usize = 0;
    while p < text.len()
        invariant
            0 <= p <= text@.len(),
            text@ == tv,
            prefix@ == base_cmd@ + "-"@,
            sa_scan(base_cmd@, tv, 0) =~~= out.deep_view() + sa_scan(base_cmd@, tv, p as int),
        decreases text@.len() - p,
    {
        match sa_match_at(&text, p) {
            Some(g) => {
                let (namec, next) = g;
                if chars_starts_with(&namec, &prefix) {
                    let name = chars_to_string(&namec);
                    let invoke = push_man_invoke(&name);
                    out.push(
                        Subcommand {
                            name,
                            description: None,
                            label: Some("Man Pages".to_owned()),
                            invoke_command: Some(invoke),
                        },
                    );
                }
                proof {
                    assert(vstd::math::max(next as int, p + 1) == next as int);
                    assert(sa_scan(base_cmd@, tv, 0) =~~= out.deep_view() + sa_scan(
                        base_cmd@,
                        tv,
                        next as int,
                    ));
                }
                p = next;
            },
            None => {
                p += 1;
            },
        }
    }
    proof {
        assert(sa_scan(base_cmd@, tv, p as int) =~~= Seq::<SubcommandView>::empty());
        assert(out.deep_view() =~~= sa_scan(base_cmd@, tv, 0));
    }
    out
}

// ---------------------------------------------------------------------------
// Merging
// ---------------------------------------------------------------------------
/// Appending one discovered item: dropped silently when its name is already
/// present.
pub open spec fn merge_step(acc: Seq<SubcommandView>, item: SubcommandView) -> Seq<
    SubcommandView,
> {
    if sub_name_taken(acc, item.name) {
        acc
    } else {
        acc.push(item)
    }
}

pub open spec fn merge_spec(
    acc: Seq<SubcommandView>,
    items: Seq<SubcommandView>,
) -> Seq<SubcommandView>
    decreases items.len(),
{
    if items.len() == 0 {
        acc
    } else {
        merge_spec(merge_step(acc, items[0]), items.drop_first())
    }
}

/// Merges discovered items into the live subcommand list; the pre-existing
/// entry wins on a name collision.
#[verifier::loop_isolation(false)]
pub fn merge_discovered_items(subcommands: &mut Vec<Subcommand>, discovered: Vec<Subcommand>)
    ensures
        final(subcommands).deep_view() == merge_spec(
            old(subcommands).deep_view(),
            discovered.deep_view(),
        ),
{
    let ghost dv = discovered.deep_view();
    let ghost acc0 = old(subcommands).deep_view();
    let mut i: usize = 0;
    proof {
        assert(dv.skip(0) =~~= dv);
    }
    while i < discovered.len()
        invariant
            0 <= i <= discovered@.len(),
            discovered.deep_view() == dv,
            discovered@.len() == dv.len(),
            merge_spec(acc0, dv) == merge_spec(subcommands.deep_view(), dv.skip(i as int)),
        decreases discovered@.len() - i,
    {
        proof {
            assert(dv.skip(i as int)[0] == dv[i as int]);
            assert(dv.skip(i as int).drop_first() =~~= dv.skip(i + 1));
            assert(discovered.deep_view()[i as int] == discovered@[i as int]@);
        }
        let item = &discovered[i];
        let ghost before = subcommands.deep_view();
        let taken = crate::parser::name_taken(subcommands, item.name.as_str());
        if !taken {
            let copied = clone_subcommand(item);
            subcommands.push(copied);
            proof {
                assert(subcommands.deep_view() =~~= before.push(dv[i as int]));
            }
        }
        proof {
            assert(subcommands.deep_view() =~~= merge_step(before, dv[i as int]));
            assert(merge_spec(acc0, dv) == merge_spec(
                subcommands.deep_view(),
                dv.skip(i + 1),
            ));
        }
        i += 1;
    }
    proof {
        assert(dv.skip(dv.len() as int) =~~= Seq::<SubcommandView>::empty());
    }
}

/// An element-wise copy of one subcommand entry.
pub fn clone_subcommand(s: &Subcommand) -> (r: Subcommand)
    ensures
        r@ == s@,
{
    Subcommand {
        name: s.name.clone(),
        description: match &s.description {
            Some(d) => Some(d.clone()),
            None => None,
        },
        label: match &s.label {
            Some(l) => Some(l.clone()),
            None => None,
        },
        invoke_command: match &s.invoke_command {
            Some(c) => Some(c.clone()),
            None => None,
        },
    }
}

/// Merging never introduces a duplicate name: the merged list keeps
/// pairwise-distinct names whenever the existing list had them.
pub proof fn lemma_merge_keeps_distinct(acc: Seq<SubcommandView>, items: Seq<SubcommandView>)
    requires
        crate::parser::sub_names_distinct(acc),
    ensures
        crate::parser::sub_names_distinct(merge_spec(acc, items)),
    decreases items.len(),
{
    if items.len() > 0 {
        let acc1 = merge_step(acc, items[0]);
        assert(crate::parser::sub_names_distinct(acc1)) by {
            if !sub_name_taken(acc, items[0].name) {
                assert(forall|i: int| 0 <= i < acc.len() ==> #[trigger] acc1[i] == acc[i]);
            }
        }
        lemma_merge_keeps_distinct(acc1, items.drop_first());
    }
}

/// Merging preserves the parser's guarantees: if the existing list has
/// pairwise-distinct, non-flag names and no discovered item's name begins
/// with a dash, the merged list has pairwise-distinct, non-flag names too.
pub proof fn lemma_merge_keeps_wf(acc: Seq<SubcommandView>, items: Seq<SubcommandView>)
    requires
        wf_subcommands(acc),
        forall|i: int| 0 <= i < items.len() ==> !starts_with_dash(#[trigger] items[i].name),
    ensures
        wf_subcommands(merge_spec(acc, items)),
    decreases items.len(),
{
    if items.len() > 0 {
        let acc1 = merge_step(acc, items[0]);
        assert(wf_subcommands(acc1)) by {
            if !sub_name_taken(acc, items[0].name) {
                assert(forall|i: int|
                    0 <= i < acc.len() ==> #[trigger] acc1[i] == acc[i]);
            }
        }
        assert(forall|i: int|
            0 <= i < items.drop_first().len() ==> !starts_with_dash(
                #[trigger] items.drop_first()[i].name,
            ));
        lemma_merge_keeps_wf(acc1, items.drop_first());
    }
}

// ---------------------------------------------------------------------------
// Toolpack discovery plumbing
// ---------------------------------------------------------------------------
impl DiscoverySource {
    /// The argument vector of this source's `run` command for a base
    /// command.
    pub fn run_argv(&self, base_cmd: &str) -> (r: Vec<String>)
        ensures
            r.deep_view() == split_ws_spec(replace_spec(self.run@, "{base}"@, base_cmd@)),
    {
        let run = str_to_chars(self.run.as_str());
        let expanded = crate::fetcher::chars_replace(
            &run,
            &str_to_chars("{base}"),
            &str_to_chars(base_cmd),
        );
        let words = chars_split_ws(&expanded);
        crate::fetcher::strings_of_chars(words)
    }
}

/// The discovered subcommand a toolpack item becomes.
pub open spec fn discovered_to_sub(
    item: crate::toolpacks::DiscoveredItemView,
) -> SubcommandView {
    SubcommandView {
        name: item.name,
        description: item.description,
        label: Some(item.label),
        invoke_command: Some(item.invoke_template),
    }
}

/// Discovered items mapped to subcommand entries.
pub open spec fn map_discovered(
    s: Seq<crate::toolpacks::DiscoveredItemView>,
) -> Seq<SubcommandView> {
    s.map_values(|it: crate::toolpacks::DiscoveredItemView| discovered_to_sub(it))
}

pub open spec fn spec_discover_items(
    base: Seq<char>,
    packs: &ToolPacks,
    outs: Seq<crate::fetcher::ProcessOutputView>,
) -> Seq<SubcommandView> {
    match find_pack(packs.tools@, base) {
        Some(j) => map_discovered(
            spec_discover_all(packs.tools@[j].pack.discover.deep_view(), outs),
        ),
        None => Seq::empty(),
    }
}

/// The toolpack discovery items for a base command, as subcommand entries
/// carrying their category label and invoke template.
#[verifier::loop_isolation(false)]
pub fn discover_items(
    base_cmd: &str,
    toolpacks: &ToolPacks,
    outputs: &Vec<ProcessOutput>,
) -> (r: Vec<Subcommand>)
    ensures
        r.deep_view() == spec_discover_items(base_cmd@, toolpacks, outputs.deep_view()),
{
    let pack = match toolpacks.get(base_cmd) {
        Some(p) => p,
        None => {
            let r: Vec<Subcommand> = Vec::new();
            proof {
                assert(r.deep_view() =~~= spec_discover_items(
                    base_cmd@,
                    toolpacks,
                    outputs.deep_view(),
                ));
            }
            return r;
        },
    };
    let items = pack.discover_items(outputs);
    let ghost iv = items.deep_view();
    let mut r: Vec<Subcommand> = Vec::new();
    let mut i: usize = 0;
    while i < items.len()
        invariant
            0 <= i <= items@.len(),
            items.deep_view() == iv,
            items@.len() == iv.len(),
            r.deep_view() =~~= map_discovered(iv.take(i as int)),
        decreases items@.len() - i,
    {
        proof {
            assert(items.deep_view()[i as int] == items@[i as int]@);
        }
        let item = &items[i];
        let sub = Subcommand {
            name: item.name.clone(),
            description: match &item.description {
                Some(d) => Some(d.clone()),
                None => None,
            },
            label: Some(item.label.clone()),
            invoke_command: Some(item.invoke_template.clone()),
        };
        r.push(sub);
        proof {
            assert(sub@ =~~= discovered_to_sub(iv[i as int]));
            assert(iv.take(i + 1) =~~= iv.take(i as int).push(iv[i as int]));
            assert(map_discovered(iv.take(i + 1)) =~~= map_discovered(
                iv.take(i as int),
            ).push(discovered_to_sub(iv[i as int])));
            assert(r.deep_view() =~~= map_discovered(iv.take(i + 1)));
        }
        i += 1;
    }
    proof {
        assert(iv.take(iv.len() as int) =~~= iv);
        assert(r.deep_view() =~~= spec_discover_items(
            base_cmd@,
            toolpacks,
            outputs.deep_view(),
        ));
    }
    r
}

} // verus!
