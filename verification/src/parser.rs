//! Subcommand extraction from free-form help text, in three layers tried in
//! order: the configured section/entry patterns, the git-style listing, and
//! an aggressive fallback.  Each layer is a line-by-line state machine; the
//! first layer that yields at least one entry wins.
use vstd::prelude::*;

use crate::config::{Config, SubcommandPatternView};
use crate::rx::{rx_captures, rx_captures12, rx_check, rx_is_match, rx_matches, rx_valid};
use crate::text::{
    chars_contains, chars_contains_ci, chars_is_blank, chars_slice, chars_split_lines,
    chars_starts_with, chars_to_string, chars_trim, contains_ci, is_blank, is_space_char,
    seq_contains, split_lines_spec, starts_with, str_eq, str_to_chars, trim_spec,
};

verus! {

/// One extracted subcommand entry.
pub struct Subcommand {
    pub name: String,
    pub description: Option<String>,
    /// Category label for discovered items (e.g. "Man Pages", "Guides");
    /// absent for entries parsed out of the main help text.
    pub label: Option<String>,
    /// Custom invoke command for discovered items (e.g. "man {name}").
    pub invoke_command: Option<String>,
}

#[verifier::ext_equal]
pub ghost struct SubcommandView {
    pub name: Seq<char>,
    pub description: Option<Seq<char>>,
    pub label: Option<Seq<char>>,
    pub invoke_command: Option<Seq<char>>,
}

impl View for Subcommand {
    type V = SubcommandView;

    open spec fn view(&self) -> SubcommandView {
        SubcommandView {
            name: self.name@,
            description: self.description.deep_view(),
            label: self.label.deep_view(),
            invoke_command: self.invoke_command.deep_view(),
        }
    }
}

impl DeepView for Subcommand {
    type V = SubcommandView;

    open spec fn deep_view(&self) -> SubcommandView {
        self.view()
    }
}

/// A name is already present in the accumulated list (first occurrence
/// wins).
pub open spec fn sub_name_taken(acc: Seq<SubcommandView>, name: Seq<char>) -> bool {
    exists|k: int| 0 <= k < acc.len() && acc[k].name == name
}

/// `name` looks like a flag rather than a subcommand.
pub open spec fn starts_with_dash(name: Seq<char>) -> bool {
    name.len() > 0 && name[0] == '-'
}

/// A character that may open a subcommand name: a letter or underscore.
pub open spec fn is_token_start(c: char) -> bool {
    ('a' <= c && c <= 'z') || ('A' <= c && c <= 'Z') || c == '_'
}

/// A character that may continue a subcommand name: a letter, digit,
/// underscore or dash.
pub open spec fn is_token_char(c: char) -> bool {
    is_token_start(c) || ('0' <= c && c <= '9') || c == '-'
}

/// The token shape of a subcommand name: non-empty, opening with a letter
/// or underscore, continuing with letters, digits, underscores or dashes.
pub open spec fn token_like(name: Seq<char>) -> bool {
    &&& name.len() > 0
    &&& is_token_start(name[0])
    &&& forall|i: int| 0 <= i < name.len() ==> is_token_char(#[trigger] name[i])
}

/// Every entry's name has the token shape.
pub open spec fn all_token_like(acc: Seq<SubcommandView>) -> bool {
    forall|i: int| 0 <= i < acc.len() ==> token_like(#[trigger] acc[i].name)
}

/// Whether a name has the token shape, executably.
pub fn chars_token_like(s: &Vec<char>) -> (r: bool)
    ensures
        r == token_like(s@),
{
    if s.len() == 0 {
        return false;
    }
    let c0 = s[0];
    if !(('a' <= c0 && c0 <= 'z') || ('A' <= c0 && c0 <= 'Z') || c0 == '_') {
        return false;
    }
    let mut i: usize = 0;
    while i < s.len()
        invariant
            0 <= i <= s@.len(),
            forall|k: int| 0 <= k < i ==> is_token_char(#[trigger] s@[k]),
        decreases s@.len() - i,
    {
        let c = s[i];
        if !(('a' <= c && c <= 'z') || ('A' <= c && c <= 'Z') || c == '_' || ('0' <= c && c
            <= '9') || c == '-') {
            return false;
        }
        i += 1;
    }
    true
}

/// Names are pairwise distinct: the first occurrence of a name wins and no
/// later duplicate enters the list.
pub open spec fn sub_names_distinct(acc: Seq<SubcommandView>) -> bool {
    forall|i: int, j: int| 0 <= i < j < acc.len() ==> acc[i].name != acc[j].name
}

/// The two properties every parse result keeps: no flag-like names, and
/// pairwise distinct names.
pub open spec fn wf_subcommands(acc: Seq<SubcommandView>) -> bool {
    &&& forall|i: int| 0 <= i < acc.len() ==> !starts_with_dash(#[trigger] acc[i].name)
    &&& sub_names_distinct(acc)
}

/// A plain entry (no label, no invoke template) as every layer produces.
pub open spec fn plain_entry(name: Seq<char>, description: Option<Seq<char>>) -> SubcommandView {
    SubcommandView { name, description, label: None, invoke_command: None }
}

// ---------------------------------------------------------------------------
// Layer 1: configured section/entry patterns
// ---------------------------------------------------------------------------
/// Applying one configured entry pattern to one in-section line: a capture
/// whose name has the token shape and is not already present appends an
/// entry; flag-like or otherwise non-token captures are skipped.
pub open spec fn l1_entry(
    acc: Seq<SubcommandView>,
    pat: SubcommandPatternView,
    line: Seq<char>,
) -> Seq<SubcommandView> {
    match rx_captures12(pat.entry, line) {
        Some(g) => {
            if !token_like(g.0) || sub_name_taken(acc, g.0) {
                acc
            } else {
                acc.push(
                    plain_entry(
                        g.0,
                        match g.1 {
                            Some(d) => Some(trim_spec(d)),
                            None => None,
                        },
                    ),
                )
            }
        },
        None => acc,
    }
}

/// One line of the layer-1 scan.  State: entries so far, whether we are in a
/// matched section, and how many consecutive blank lines we just saw.  A
/// section-header match (re)opens the section; two consecutive blank lines
/// or a non-indented line ending in `:` close it.
pub open spec fn l1_line(
    st: (Seq<SubcommandView>, bool, int),
    pat: SubcommandPatternView,
    line: Seq<char>,
) -> (Seq<SubcommandView>, bool, int) {
    if rx_matches(pat.section, line) {
        (st.0, true, 0)
    } else if !st.1 {
        st
    } else if is_blank(line) {
        if st.2 + 1 >= 2 {
            (st.0, false, st.2 + 1)
        } else {
            (st.0, true, st.2 + 1)
        }
    } else if line[0] != ' ' && line[0] != '\t' && line.last() == ':' {
        (st.0, false, st.2)
    } else {
        (l1_entry(st.0, pat, line), true, 0)
    }
}

pub open spec fn l1_lines(
    st: (Seq<SubcommandView>, bool, int),
    pat: SubcommandPatternView,
    lines: Seq<Seq<char>>,
) -> (Seq<SubcommandView>, bool, int)
    decreases lines.len(),
{
    if lines.len() == 0 {
        st
    } else {
        l1_line(l1_lines(st, pat, lines.drop_last()), pat, lines.last())
    }
}

/// One configured pattern pair: scanned only when both its regexes compile.
pub open spec fn l1_pattern(
    acc: Seq<SubcommandView>,
    pat: SubcommandPatternView,
    lines: Seq<Seq<char>>,
) -> Seq<SubcommandView> {
    if rx_valid(pat.section) && rx_valid(pat.entry) {
        l1_lines((acc, false, 0), pat, lines).0
    } else {
        acc
    }
}

pub open spec fn l1_all(
    pats: Seq<SubcommandPatternView>,
    lines: Seq<Seq<char>>,
) -> Seq<SubcommandView>
    decreases pats.len(),
{
    if pats.len() == 0 {
        Seq::empty()
    } else {
        l1_pattern(l1_all(pats.drop_last(), lines), pats.last(), lines)
    }
}

// ---------------------------------------------------------------------------
// Character-class runs shared by the fixed-format layers
// ---------------------------------------------------------------------------
pub open spec fn is_lower_char(c: char) -> bool {
    'a' <= c && c <= 'z'
}

/// An ASCII word character: letter, digit or underscore.
pub open spec fn is_word_char(c: char) -> bool {
    ('a' <= c && c <= 'z') || ('A' <= c && c <= 'Z') || ('0' <= c && c <= '9') || c == '_'
}

/// Length of the maximal run of word or `-` characters from `i`.
pub open spec fn wd_run(s: Seq<char>, i: int) -> int
    decreases s.len() - i,
{
    if 0 <= i < s.len() && (is_word_char(s[i]) || s[i] == '-') {
        1 + wd_run(s, i + 1)
    } else {
        0
    }
}

/// Length of the maximal run of whitespace characters from `i`.
pub open spec fn ws_run(s: Seq<char>, i: int) -> int
    decreases s.len() - i,
{
    if 0 <= i < s.len() && is_space_char(s[i]) {
        1 + ws_run(s, i + 1)
    } else {
        0
    }
}

proof fn lemma_wd_run_bounds(s: Seq<char>, i: int)
    requires
        0 <= i <= s.len(),
    ensures
        0 <= wd_run(s, i) <= s.len() - i,
        forall|k: int| i <= k < i + wd_run(s, i) ==> is_word_char(s[k]) || s[k] == '-',
        i + wd_run(s, i) < s.len() ==> !(is_word_char(s[i + wd_run(s, i)]) || s[i + wd_run(
            s,
            i,
        )] == '-'),
    decreases s.len() - i,
{
    if i < s.len() && (is_word_char(s[i]) || s[i] == '-') {
        lemma_wd_run_bounds(s, i + 1);
    }
}

proof fn lemma_ws_run_bounds(s: Seq<char>, i: int)
    requires
        0 <= i <= s.len(),
    ensures
        0 <= ws_run(s, i) <= s.len() - i,
        forall|k: int| i <= k < i + ws_run(s, i) ==> is_space_char(s[k]),
        i + ws_run(s, i) < s.len() ==> !is_space_char(s[i + ws_run(s, i)]),
    decreases s.len() - i,
{
    if i < s.len() && is_space_char(s[i]) {
        lemma_ws_run_bounds(s, i + 1);
    }
}

/// Exec computation of `wd_run`.
fn word_dash_run(s: &Vec<char>, from: usize) -> (r: usize)
    requires
        from <= s@.len(),
    ensures
        r == wd_run(s@, from as int),
        from + r <= s@.len(),
{
    proof {
        lemma_wd_run_bounds(s@, from as int);
    }
    let mut i: usize = from;
    while i < s.len() && (('a' <= s[i] && s[i] <= 'z') || ('A' <= s[i] && s[i] <= 'Z') || ('0'
        <= s[i] && s[i] <= '9') || s[i] == '_' || s[i] == '-')
        invariant
            from <= i <= s@.len(),
            wd_run(s@, from as int) == i - from + wd_run(s@, i as int),
        decreases s@.len() - i,
    {
        i += 1;
    }
    i - from
}

/// Exec computation of `ws_run`.
fn space_run(s: &Vec<char>, from: usize) -> (r: usize)
    requires
        from <= s@.len(),
    ensures
        r == ws_run(s@, from as int),
        from + r <= s@.len(),
{
    proof {
        lemma_ws_run_bounds(s@, from as int);
    }
    let mut i: usize = from;
    while i < s.len() && crate::text::is_space(s[i])
        invariant
            from <= i <= s@.len(),
            ws_run(s@, from as int) == i - from + ws_run(s@, i as int),
        decreases s@.len() - i,
    {
        i += 1;
    }
    i - from
}

// ---------------------------------------------------------------------------
// Layer 2: git-style listings
// ---------------------------------------------------------------------------
/// A git-style entry line: exactly three spaces, a lowercase-initial word of
/// word or `-` characters, at least two whitespace characters, then a
/// non-empty remainder.
pub open spec fn git_entry(line: Seq<char>) -> Option<(Seq<char>, Seq<char>)> {
    if line.len() >= 4 && line[0] == ' ' && line[1] == ' ' && line[2] == ' ' && is_lower_char(
        line[3],
    ) {
        let ne = 4 + wd_run(line, 4);
        let w = ws_run(line, ne);
        if w >= 2 && ne + w < line.len() {
            Some((line.subrange(3, ne), line.subrange(ne + w, line.len() as int)))
        } else if w >= 3 && ne + w == line.len() {
            Some((line.subrange(3, ne), line.subrange(line.len() - 1, line.len() as int)))
        } else {
            None
        }
    } else {
        None
    }
}

/// One line of the git-style scan.  State: entries so far, whether the usage
/// block has ended, and whether we are inside a command section.
pub open spec fn git_line(
    st: (Seq<SubcommandView>, bool, bool),
    line: Seq<char>,
) -> (Seq<SubcommandView>, bool, bool) {
    if starts_with(line, "usage:"@) || starts_with(line, "Usage:"@) {
        (st.0, false, st.2)
    } else if !st.1 && is_blank(line) {
        (st.0, true, st.2)
    } else if !st.1 {
        st
    } else {
        let t = trim_spec(line);
        if !is_blank(line) && line[0] != ' ' && line[0] != '\t' {
            if t.len() > 0 && (is_lower_char(t[0]) || seq_contains(t, "(see also:"@)) {
                (st.0, st.1, true)
            } else if t.len() > 0 && (t[0] == '\'' || t[0] == '"') {
                (st.0, st.1, false)
            } else {
                git_maybe_entry(st, line)
            }
        } else {
            git_maybe_entry(st, line)
        }
    }
}

pub open spec fn git_maybe_entry(
    st: (Seq<SubcommandView>, bool, bool),
    line: Seq<char>,
) -> (Seq<SubcommandView>, bool, bool) {
    if st.2 {
        match git_entry(line) {
            Some(g) => {
                if sub_name_taken(st.0, g.0) {
                    st
                } else {
                    (st.0.push(plain_entry(g.0, Some(trim_spec(g.1)))), st.1, st.2)
                }
            },
            None => st,
        }
    } else {
        st
    }
}

pub open spec fn git_lines(
    st: (Seq<SubcommandView>, bool, bool),
    lines: Seq<Seq<char>>,
) -> (Seq<SubcommandView>, bool, bool)
    decreases lines.len(),
{
    if lines.len() == 0 {
        st
    } else {
        git_line(git_lines(st, lines.drop_last()), lines.last())
    }
}

pub open spec fn spec_parse_git_style(text: Seq<char>) -> Seq<SubcommandView> {
    git_lines((Seq::empty(), false, false), split_lines_spec(text)).0
}

/// The shape of a line a git-style entry can come from: exactly three
/// spaces of indent, then a lowercase letter.
pub open spec fn git_entry_line_shape(line: Seq<char>) -> bool {
    line.len() >= 4 && line[0] == ' ' && line[1] == ' ' && line[2] == ' ' && is_lower_char(line[3])
}

/// `name` is the name a git-style entry decomposition yields for some
/// exactly-three-space-indented line.
pub open spec fn name_from_exact_indent_line(lines: Seq<Seq<char>>, name: Seq<char>) -> bool {
    exists|i: int|
        0 <= i < lines.len() && git_entry_line_shape(#[trigger] lines[i]) && match git_entry(
            lines[i],
        ) {
            Some(g) => g.0 == name,
            None => false,
        }
}

proof fn lemma_git_lines_entry_sources(
    st: (Seq<SubcommandView>, bool, bool),
    lines: Seq<Seq<char>>,
)
    ensures
        forall|k: int|
            0 <= k < git_lines(st, lines).0.len() ==> sub_name_taken(
                st.0,
                #[trigger] git_lines(st, lines).0[k].name,
            ) || name_from_exact_indent_line(lines, git_lines(st, lines).0[k].name),
    decreases lines.len(),
{
    if lines.len() > 0 {
        let init = lines.drop_last();
        let prev = git_lines(st, init);
        lemma_git_lines_entry_sources(st, init);
        assert forall|k: int| 0 <= k < git_lines(st, lines).0.len() implies sub_name_taken(
            st.0,
            #[trigger] git_lines(st, lines).0[k].name,
        ) || name_from_exact_indent_line(lines, git_lines(st, lines).0[k].name) by {
            let nm = git_lines(st, lines).0[k].name;
            if k < prev.0.len() && git_lines(st, lines).0[k] == prev.0[k] {
                if name_from_exact_indent_line(init, nm) {
                    let i = choose|i: int|
                        0 <= i < init.len() && git_entry_line_shape(#[trigger] init[i]) && match
                            git_entry(init[i]) {
                            Some(g) => g.0 == nm,
                            None => false,
                        };
                    assert(lines[i] == init[i]);
                }
            } else {
                let line = lines.last();
                assert(git_entry(line) matches Some(g) && g.0 == nm);
                assert(git_entry_line_shape(line));
                assert(lines[lines.len() - 1] == line);
            }
        }
    }
}

/// Every entry the git-style layer extracts is named by a line indented by
/// exactly three spaces.
pub proof fn lemma_git_style_entries_have_exact_indent(text: Seq<char>)
    ensures
        forall|k: int|
            0 <= k < spec_parse_git_style(text).len() ==> name_from_exact_indent_line(
                split_lines_spec(text),
                #[trigger] spec_parse_git_style(text)[k].name,
            ),
{
    lemma_git_lines_entry_sources(
        (Seq::empty(), false, false),
        split_lines_spec(text),
    );
    assert(forall|nm: Seq<char>| !sub_name_taken(Seq::<SubcommandView>::empty(), nm));
}

// ---------------------------------------------------------------------------
// Layer 3: aggressive fallback
// ---------------------------------------------------------------------------
/// An aggressive-fallback entry line: two to six whitespace characters, a
/// lowercase-initial word, an optional colon, at least two whitespace
/// characters, then the (possibly empty) remainder.
pub open spec fn agg_entry(line: Seq<char>) -> Option<(Seq<char>, Seq<char>)> {
    let w0 = ws_run(line, 0);
    if 2 <= w0 <= 6 && w0 < line.len() && is_lower_char(line[w0]) {
        let ne = w0 + 1 + wd_run(line, w0 + 1);
        let k = if ne < line.len() && line[ne] == ':' {
            ne + 1
        } else {
            ne
        };
        let w = ws_run(line, k);
        if w >= 2 {
            Some((line.subrange(w0, ne), line.subrange(k + w, line.len() as int)))
        } else {
            None
        }
    } else {
        None
    }
}

/// One line of the aggressive scan.  State: entries so far and whether a
/// section-like header was seen.  Any line mentioning `command` or
/// `available` (case-insensitively) opens the section.
pub open spec fn agg_line(
    st: (Seq<SubcommandView>, bool),
    line: Seq<char>,
) -> (Seq<SubcommandView>, bool) {
    if contains_ci(line, "command"@) || contains_ci(line, "available"@) {
        (st.0, true)
    } else if !st.1 {
        st
    } else if is_blank(line) {
        st
    } else if line[0] != ' ' && line[0] != '\t' {
        let t = trim_spec(line);
        if !(t.len() > 0 && is_lower_char(t[0])) && !contains_ci(line, "see also"@) {
            (st.0, false)
        } else {
            st
        }
    } else {
        match agg_entry(line) {
            Some(g) => {
                if sub_name_taken(st.0, g.0) {
                    st
                } else {
                    (st.0.push(plain_entry(g.0, Some(trim_spec(g.1)))), st.1)
                }
            },
            None => st,
        }
    }
}

pub open spec fn agg_lines(
    st: (Seq<SubcommandView>, bool),
    lines: Seq<Seq<char>>,
) -> (Seq<SubcommandView>, bool)
    decreases lines.len(),
{
    if lines.len() == 0 {
        st
    } else {
        agg_line(agg_lines(st, lines.drop_last()), lines.last())
    }
}

pub open spec fn spec_parse_aggressive(text: Seq<char>) -> Seq<SubcommandView> {
    agg_lines((Seq::empty(), false), split_lines_spec(text)).0
}

/// The whole layered strategy: the configured patterns, then the git-style
/// scan, then the aggressive fallback; the first non-empty result wins.
pub open spec fn spec_parse_subcommands(text: Seq<char>, c: &Config) -> Seq<SubcommandView> {
    let l1 = l1_all(c.subcommand_patterns.deep_view(), split_lines_spec(text));
    if l1.len() > 0 {
        l1
    } else {
        let l2 = spec_parse_git_style(text);
        if l2.len() > 0 {
            l2
        } else {
            spec_parse_aggressive(text)
        }
    }
}

// ---------------------------------------------------------------------------
// Executable layers
// ---------------------------------------------------------------------------
/// Whether a name already occurs in the list.
#[verifier::loop_isolation(false)]
pub fn name_taken(subs: &Vec<Subcommand>, name: &str) -> (r: bool)
    ensures
        r == sub_name_taken(subs.deep_view(), name@),
{
    let mut i: usize = 0;
    while i < subs.len()
        invariant
            0 <= i <= subs@.len(),
            forall|k: int| 0 <= k < i ==> #[trigger] subs.deep_view()[k].name != name@,
        decreases subs@.len() - i,
    {
        if str_eq(subs[i].name.as_str(), name) {
            proof {
                assert(subs.deep_view()[i as int].name == name@);
            }
            return true;
        }
        i += 1;
    }
    false
}

#[verifier::loop_isolation(false)]
fn git_entry_line(line: &Vec<char>) -> (r: Option<(Vec<char>, Vec<char>)>)
    ensures
        r matches Some(g) ==> git_entry(line@) == Some((g.0@, g.1@)),
        r is None ==> git_entry(line@) is None,
{
    if line.len() >= 4 && line[0] == ' ' && line[1] == ' ' && line[2] == ' ' && 'a' <= line[3]
        && line[3] <= 'z' {
        let ne = 4 + word_dash_run(line, 4);
        let w = space_run(line, ne);
        if w >= 2 && ne + w < line.len() {
            Some((chars_slice(line, 3, ne), chars_slice(line, ne + w, line.len())))
        } else if w >= 3 && ne + w == line.len() {
            Some((chars_slice(line, 3, ne), chars_slice(line, line.len() - 1, line.len())))
        } else {
            None
        }
    } else {
        None
    }
}

#[verifier::loop_isolation(false)]
fn agg_entry_line(line: &Vec<char>) -> (r: Option<(Vec<char>, Vec<char>)>)
    ensures
        r matches Some(g) ==> agg_entry(line@) == Some((g.0@, g.1@)),
        r is None ==> agg_entry(line@) is None,
{
    let w0 = space_run(line, 0);
    if 2 <= w0 && w0 <= 6 && w0 < line.len() && 'a' <= line[w0] && line[w0] <= 'z' {
        let ne = w0 + 1 + word_dash_run(line, w0 + 1);
        let k = if ne < line.len() && line[ne] == ':' {
            ne + 1
        } else {
            ne
        };
        let w = space_run(line, k);
        if w >= 2 {
            Some((chars_slice(line, w0, ne), chars_slice(line, k + w, line.len())))
        } else {
            None
        }
    } else {
        None
    }
}

/// Extracts git-style entries: after the usage block, lowercase section
/// headers open a command section, quote-led footers close it, and entries
/// are three-space-indented lines.  No returned name looks like a flag, and
/// names are pairwise distinct.
#[verifier::loop_isolation(false)]
pub fn parse_git_style(help_text: &str) -> (r: Vec<Subcommand>)
    ensures
        r.deep_view() == spec_parse_git_style(help_text@),
        wf_subcommands(r.deep_view()),
        all_token_like(r.deep_view()),
{
    let text = str_to_chars(help_text);
    let lines = chars_split_lines(&text);
    let ghost lines_v = split_lines_spec(help_text@);
    let mut subs: Vec<Subcommand> = Vec::new();
    let mut past_usage = false;
    let mut in_cmd = false;
    let usage_l = str_to_chars("usage:");
    let usage_u = str_to_chars("Usage:");
    let see_also = str_to_chars("(see also:");
    let mut i: usize = 0;
    while i < lines.len()
        invariant
            0 <= i <= lines@.len(),
            lines.deep_view() == lines_v,
            lines@.len() == lines_v.len(),
            subs.deep_view() =~~= git_lines((Seq::empty(), false, false), lines_v.take(i as int)).0,
            past_usage == git_lines((Seq::empty(), false, false), lines_v.take(i as int)).1,
            in_cmd == git_lines((Seq::empty(), false, false), lines_v.take(i as int)).2,
            wf_subcommands(subs.deep_view()),
            all_token_like(subs.deep_view()),
        decreases lines@.len() - i,
    {
        proof {
            assert(lines_v.take(i + 1).drop_last() =~~= lines_v.take(i as int));
            assert(lines_v.take(i + 1).last() == lines_v[i as int]);
            assert(lines.deep_view()[i as int] == lines@[i as int]@);
        }
        let line = &lines[i];
        if chars_starts_with(line, &usage_l) || chars_starts_with(line, &usage_u) {
            past_usage = false;
        } else if !past_usage && chars_is_blank(line) {
            past_usage = true;
        } else if !past_usage {
        } else {
            let blank = chars_is_blank(line);
            let mut entry_check = true;
            if !blank && line[0] != ' ' && line[0] != '\t' {
                let t = chars_trim(line);
                if t.len() > 0 && (('a' <= t[0] && t[0] <= 'z') || chars_contains(&t, &see_also)) {
                    in_cmd = true;
                    entry_check = false;
                } else if t.len() > 0 && (t[0] == '\'' || t[0] == '"') {
                    in_cmd = false;
                    entry_check = false;
                }
            }
            if entry_check && in_cmd {
                match git_entry_line(line) {
                    Some(g) => {
                        let (namec, descc) = g;
                        let name = chars_to_string(&namec);
                        if !name_taken(&subs, name.as_str()) {
                            let d = chars_trim(&descc);
                            proof {
                                lemma_wd_run_bounds(line@, 4);
                                assert(namec@[0] == line@[3]);
                                assert forall|ii: int|
                                    0 <= ii < namec@.len() implies is_token_char(
                                    #[trigger] namec@[ii],
                                ) by {
                                    assert(namec@[ii] == line@[3 + ii]);
                                }
                                assert(token_like(namec@));
                                assert(!starts_with_dash(namec@));
                            }
                            subs.push(
                                Subcommand {
                                    name,
                                    description: Some(chars_to_string(&d)),
                                    label: None,
                                    invoke_command: None,
                                },
                            );
                        }
                    },
                    None => {},
                }
            }
        }
        proof {
            assert(subs.deep_view() =~~= git_lines(
                (Seq::empty(), false, false),
                lines_v.take(i + 1),
            ).0);
        }
        i += 1;
    }
    proof {
        assert(lines_v.take(lines_v.len() as int) =~~= lines_v);
    }
    subs
}

/// The aggressive fallback: any line mentioning `command` or `available`
/// opens a section, and indented lowercase-led entries inside it are
/// accepted.  No returned name looks like a flag, and names are pairwise
/// distinct.
#[verifier::loop_isolation(false)]
pub fn parse_aggressive(help_text: &str) -> (r: Vec<Subcommand>)
    ensures
        r.deep_view() == spec_parse_aggressive(help_text@),
        wf_subcommands(r.deep_view()),
        all_token_like(r.deep_view()),
{
    let text = str_to_chars(help_text);
    let lines = chars_split_lines(&text);
    let ghost lines_v = split_lines_spec(help_text@);
    let mut subs: Vec<Subcommand> = Vec::new();
    let mut in_likely = false;
    let command_n = str_to_chars("command");
    let available_n = str_to_chars("available");
    let see_also_n = str_to_chars("see also");
    let mut i: usize = 0;
    while i < lines.len()
        invariant
            0 <= i <= lines@.len(),
            lines.deep_view() == lines_v,
            lines@.len() == lines_v.len(),
            subs.deep_view() =~~= agg_lines((Seq::empty(), false), lines_v.take(i as int)).0,
            in_likely == agg_lines((Seq::empty(), false), lines_v.take(i as int)).1,
            wf_subcommands(subs.deep_view()),
            all_token_like(subs.deep_view()),
        decreases lines@.len() - i,
    {
        proof {
            assert(lines_v.take(i + 1).drop_last() =~~= lines_v.take(i as int));
            assert(lines_v.take(i + 1).last() == lines_v[i as int]);
            assert(lines.deep_view()[i as int] == lines@[i as int]@);
        }
        let line = &lines[i];
        if chars_contains_ci(line, &command_n) || chars_contains_ci(line, &available_n) {
            in_likely = true;
        } else if !in_likely {
        } else if chars_is_blank(line) {
        } else if line[0] != ' ' && line[0] != '\t' {
            let t = chars_trim(line);
            if !(t.len() > 0 && 'a' <= t[0] && t[0] <= 'z') && !chars_contains_ci(
                line,
                &see_also_n,
            ) {
                in_likely = false;
            }
        } else {
            match agg_entry_line(line) {
                Some(g) => {
                    let (namec, descc) = g;
                    let name = chars_to_string(&namec);
                    if !name_taken(&subs, name.as_str()) {
                        let d = chars_trim(&descc);
                        proof {
                            lemma_ws_run_bounds(line@, 0);
                            lemma_wd_run_bounds(line@, ws_run(line@, 0) + 1);
                            assert(namec@[0] == line@[ws_run(line@, 0)]);
                            assert forall|ii: int|
                                0 <= ii < namec@.len() implies is_token_char(
                                #[trigger] namec@[ii],
                            ) by {
                                assert(namec@[ii] == line@[ws_run(line@, 0) + ii]);
                            }
                            assert(token_like(namec@));
                            assert(!starts_with_dash(namec@));
                        }
                        subs.push(
                            Subcommand {
                                name,
                                description: Some(chars_to_string(&d)),
                                label: None,
                                invoke_command: None,
                            },
                        );
                    }
                },
                None => {},
            }
        }
        proof {
            assert(subs.deep_view() =~~= agg_lines((Seq::empty(), false), lines_v.take(i + 1)).0);
        }
        i += 1;
    }
    proof {
        assert(lines_v.take(lines_v.len() as int) =~~= lines_v);
    }
    subs
}

/// Extracts `(name, description)` entries from help text by the layered
/// strategy.  No returned name begins with `-`, and returned names are
/// pairwise distinct.
#[verifier::loop_isolation(false)]
pub fn parse_subcommands(help_text: &str, config: &Config) -> (r: Vec<Subcommand>)
    ensures
        r.deep_view() == spec_parse_subcommands(help_text@, config),
        wf_subcommands(r.deep_view()),
        all_token_like(r.deep_view()),
{
    let text = str_to_chars(help_text);
    let lines = chars_split_lines(&text);
    let ghost lines_v = split_lines_spec(help_text@);
    let ghost pats_v = config.subcommand_patterns.deep_view();
    let mut subs: Vec<Subcommand> = Vec::new();
    let mut p: usize = 0;
    while p < config.subcommand_patterns.len()
        invariant
            0 <= p <= config.subcommand_patterns@.len(),
            lines.deep_view() == lines_v,
            lines@.len() == lines_v.len(),
            subs.deep_view() =~~= l1_all(pats_v.take(p as int), lines_v),
            wf_subcommands(subs.deep_view()),
            all_token_like(subs.deep_view()),
        decreases config.subcommand_patterns@.len() - p,
    {
        proof {
            assert(pats_v.take(p + 1).drop_last() =~~= pats_v.take(p as int));
            assert(pats_v.take(p + 1).last() == pats_v[p as int]);
            assert(pats_v[p as int] == config.subcommand_patterns@[p as int]@);
        }
        let pat = &config.subcommand_patterns[p];
        if rx_check(pat.section.as_str()) && rx_check(pat.entry.as_str()) {
            let ghost acc0 = subs.deep_view();
            let mut in_sec = false;
            let mut blanks: usize = 0;
            let mut j: usize = 0;
            while j < lines.len()
                invariant
                    0 <= j <= lines@.len(),
                    blanks <= j,
                    rx_valid(pat@.section),
                    rx_valid(pat@.entry),
                    subs.deep_view() =~~= l1_lines((acc0, false, 0), pat@, lines_v.take(j as int)).0,
                    in_sec == l1_lines((acc0, false, 0), pat@, lines_v.take(j as int)).1,
                    blanks as int == l1_lines((acc0, false, 0), pat@, lines_v.take(j as int)).2,
                    wf_subcommands(subs.deep_view()),
                    all_token_like(subs.deep_view()),
                decreases lines@.len() - j,
            {
                proof {
                    assert(lines_v.take(j + 1).drop_last() =~~= lines_v.take(j as int));
                    assert(lines_v.take(j + 1).last() == lines_v[j as int]);
                    assert(lines.deep_view()[j as int] == lines@[j as int]@);
                }
                let line = &lines[j];
                let line_s = chars_to_string(line);
                if rx_is_match(pat.section.as_str(), line_s.as_str()) {
                    in_sec = true;
                    blanks = 0;
                } else if !in_sec {
                } else if chars_is_blank(line) {
                    blanks += 1;
                    if blanks >= 2 {
                        in_sec = false;
                    }
                } else if line[0] != ' ' && line[0] != '\t' && line[line.len() - 1] == ':' {
                    in_sec = false;
                } else {
                    blanks = 0;
                    match rx_captures(pat.entry.as_str(), line_s.as_str()) {
                        Some(g) => {
                            let (name, desc) = g;
                            let namec = str_to_chars(name.as_str());
                            let shaped = chars_token_like(&namec);
                            if shaped && !name_taken(&subs, name.as_str()) {
                                let description = match desc {
                                    Some(dstr) => {
                                        let dc = str_to_chars(dstr.as_str());
                                        let t = chars_trim(&dc);
                                        Some(chars_to_string(&t))
                                    },
                                    None => None,
                                };
                                subs.push(
                                    Subcommand {
                                        name,
                                        description,
                                        label: None,
                                        invoke_command: None,
                                    },
                                );
                            }
                        },
                        None => {},
                    }
                }
                proof {
                    assert(subs.deep_view() =~~= l1_lines(
                        (acc0, false, 0),
                        pat@,
                        lines_v.take(j + 1),
                    ).0);
                }
                j += 1;
            }
            proof {
                assert(lines_v.take(lines_v.len() as int) =~~= lines_v);
                assert(subs.deep_view() =~~= l1_all(pats_v.take(p + 1), lines_v));
            }
        } else {
            proof {
                assert(subs.deep_view() =~~= l1_all(pats_v.take(p + 1), lines_v));
            }
        }
        p += 1;
    }
    proof {
        assert(pats_v.take(pats_v.len() as int) =~~= pats_v);
    }
    if subs.len() > 0 {
        return subs;
    }
    let l2 = parse_git_style(help_text);
    if l2.len() > 0 {
        return l2;
    }
    parse_aggressive(help_text)
}

} // verus!
