//! Character-level text utilities shared by the fetcher, the parser and the
//! overlays: conversions between strings and character vectors, ASCII case
//! folding, substring search, trimming, whitespace splitting and joining.
use vstd::prelude::*;
use vstd::string::*;

verus! {

/// ASCII whitespace, the separator class used for template tokenization,
/// blank-line detection and trimming.
pub open spec fn is_space_char(c: char) -> bool {
    c == ' ' || c == '\t' || c == '\n' || c == '\r' || c == '\u{b}' || c == '\u{c}'
}

pub fn is_space(c: char) -> (b: bool)
    ensures
        b == is_space_char(c),
{
    c == ' ' || c == '\t' || c == '\n' || c == '\r' || c == '\u{b}' || c == '\u{c}'
}

/// The code point of `c` with ASCII upper-case letters folded to lower case.
pub open spec fn lower_code(c: char) -> u32 {
    if 'A' <= c && c <= 'Z' {
        (c as u32 + 32) as u32
    } else {
        c as u32
    }
}

/// Case-insensitive character equality (ASCII folding).
pub open spec fn char_eq_ci(a: char, b: char) -> bool {
    lower_code(a) == lower_code(b)
}

pub fn chars_match_ci(a: char, b: char) -> (r: bool)
    ensures
        r == char_eq_ci(a, b),
{
    let ca: u32 = if 'A' <= a && a <= 'Z' { a as u32 + 32 } else { a as u32 };
    let cb: u32 = if 'A' <= b && b <= 'Z' { b as u32 + 32 } else { b as u32 };
    ca == cb
}

/// `needle` occurs at position `pos` of `hay`, comparing case-insensitively.
pub open spec fn matches_ci_at(hay: Seq<char>, needle: Seq<char>, pos: int) -> bool {
    &&& 0 <= pos
    &&& pos + needle.len() <= hay.len()
    &&& forall|j: int| 0 <= j < needle.len() ==> char_eq_ci(hay[pos + j], needle[j])
}

/// `hay` contains `needle` as a substring, comparing case-insensitively.
pub open spec fn contains_ci(hay: Seq<char>, needle: Seq<char>) -> bool {
    exists|pos: int| matches_ci_at(hay, needle, pos)
}

/// `needle` occurs at position `pos` of `hay`, compared exactly.
pub open spec fn matches_at(hay: Seq<char>, needle: Seq<char>, pos: int) -> bool {
    &&& 0 <= pos
    &&& pos + needle.len() <= hay.len()
    &&& forall|j: int| 0 <= j < needle.len() ==> hay[pos + j] == needle[j]
}

/// `hay` contains `needle` as a substring, compared exactly.
pub open spec fn seq_contains(hay: Seq<char>, needle: Seq<char>) -> bool {
    exists|pos: int| matches_at(hay, needle, pos)
}

pub open spec fn starts_with(s: Seq<char>, prefix: Seq<char>) -> bool {
    prefix.len() <= s.len() && forall|j: int| 0 <= j < prefix.len() ==> s[j] == prefix[j]
}

/// Every character of `s` is whitespace; the emptiness test applied after
/// trimming throughout the fetcher.
pub open spec fn is_blank(s: Seq<char>) -> bool {
    forall|i: int| 0 <= i < s.len() ==> is_space_char(s[i])
}

pub fn chars_is_blank(s: &Vec<char>) -> (b: bool)
    ensures
        b == is_blank(s@),
{
    let mut i: usize = 0;
    while i < s.len()
        invariant
            0 <= i <= s@.len(),
            forall|j: int| 0 <= j < i ==> is_space_char(s@[j]),
        decreases s@.len() - i,
    {
        if !is_space(s[i]) {
            return false;
        }
        i += 1;
    }
    true
}

#[verifier::loop_isolation(false)]
pub fn chars_matches_ci_at(hay: &Vec<char>, needle: &Vec<char>, pos: usize) -> (r: bool)
    requires
        pos + needle@.len() <= hay@.len(),
    ensures
        r == matches_ci_at(hay@, needle@, pos as int),
{
    proof {
        assert(hay@.len() == hay.len());
    }
    let mut j: usize = 0;
    while j < needle.len()
        invariant
            0 <= j <= needle@.len(),
            pos + needle@.len() <= hay@.len(),
            forall|k: int| 0 <= k < j ==> char_eq_ci(hay@[pos + k], needle@[k]),
        decreases needle@.len() - j,
    {
        if !chars_match_ci(hay[pos + j], needle[j]) {
            return false;
        }
        j += 1;
    }
    true
}

pub fn chars_contains_ci(hay: &Vec<char>, needle: &Vec<char>) -> (r: bool)
    ensures
        r == contains_ci(hay@, needle@),
{
    if needle.len() > hay.len() {
        assert(forall|pos: int| !matches_ci_at(hay@, needle@, pos));
        return false;
    }
    let mut pos: usize = 0;
    while pos <= hay.len() - needle.len()
        invariant
            needle@.len() <= hay@.len(),
            0 <= pos <= hay@.len() - needle@.len() + 1,
            forall|p: int| 0 <= p < pos ==> !matches_ci_at(hay@, needle@, p),
        decreases hay@.len() - needle@.len() - pos + 1,
    {
        if chars_matches_ci_at(hay, needle, pos) {
            return true;
        }
        pos += 1;
    }
    assert(forall|p: int| !matches_ci_at(hay@, needle@, p));
    false
}

pub fn chars_starts_with(s: &Vec<char>, prefix: &Vec<char>) -> (r: bool)
    ensures
        r == starts_with(s@, prefix@),
{
    if prefix.len() > s.len() {
        return false;
    }
    let mut j: usize = 0;
    while j < prefix.len()
        invariant
            prefix@.len() <= s@.len(),
            0 <= j <= prefix@.len(),
            forall|k: int| 0 <= k < j ==> s@[k] == prefix@[k],
        decreases prefix@.len() - j,
    {
        if s[j] != prefix[j] {
            return false;
        }
        j += 1;
    }
    true
}

#[verifier::loop_isolation(false)]
pub fn chars_matches_at(hay: &Vec<char>, needle: &Vec<char>, pos: usize) -> (r: bool)
    requires
        pos + needle@.len() <= hay@.len(),
    ensures
        r == matches_at(hay@, needle@, pos as int),
{
    proof {
        assert(hay@.len() == hay.len());
    }
    let mut j: usize = 0;
    while j < needle.len()
        invariant
            0 <= j <= needle@.len(),
            forall|k: int| 0 <= k < j ==> hay@[pos + k] == needle@[k],
        decreases needle@.len() - j,
    {
        if hay[pos + j] != needle[j] {
            return false;
        }
        j += 1;
    }
    true
}

#[verifier::loop_isolation(false)]
pub fn chars_contains(hay: &Vec<char>, needle: &Vec<char>) -> (r: bool)
    ensures
        r == seq_contains(hay@, needle@),
{
    if needle.len() > hay.len() {
        assert(forall|pos: int| !matches_at(hay@, needle@, pos));
        return false;
    }
    let mut pos: usize = 0;
    while pos <= hay.len() - needle.len()
        invariant
            needle@.len() <= hay@.len(),
            0 <= pos <= hay@.len() - needle@.len() + 1,
            forall|p: int| 0 <= p < pos ==> !matches_at(hay@, needle@, p),
        decreases hay@.len() - needle@.len() - pos + 1,
    {
        if chars_matches_at(hay, needle, pos) {
            return true;
        }
        pos += 1;
    }
    assert(forall|p: int| !matches_at(hay@, needle@, p));
    false
}

/// Exact equality of two character vectors.
pub fn chars_eq(a: &Vec<char>, b: &Vec<char>) -> (r: bool)
    ensures
        r == (a@ == b@),
{
    if a.len() != b.len() {
        proof {
            assert(a@.len() != b@.len());
        }
        return false;
    }
    let mut i: usize = 0;
    while i < a.len()
        invariant
            0 <= i <= a@.len(),
            a@.len() == b@.len(),
            forall|k: int| 0 <= k < i ==> a@[k] == b@[k],
        decreases a@.len() - i,
    {
        if a[i] != b[i] {
            return false;
        }
        i += 1;
    }
    proof {
        assert(a@ =~= b@);
    }
    true
}

/// A copy of `s[from..to]`.
#[verifier::loop_isolation(false)]
pub fn chars_slice(s: &Vec<char>, from: usize, to: usize) -> (r: Vec<char>)
    requires
        from <= to <= s@.len(),
    ensures
        r@ == s@.subrange(from as int, to as int),
{
    let mut r: Vec<char> = Vec::new();
    let mut i: usize = from;
    while i < to
        invariant
            from <= i <= to,
            r@ =~= s@.subrange(from as int, i as int),
        decreases to - i,
    {
        r.push(s[i]);
        i += 1;
    }
    proof {
        assert(r@ =~= s@.subrange(from as int, to as int));
    }
    r
}

/// `s` with leading and trailing whitespace removed.
pub open spec fn trim_spec(s: Seq<char>) -> Seq<char>
    decreases s.len(),
{
    if s.len() == 0 {
        s
    } else if is_space_char(s.first()) {
        trim_spec(s.drop_first())
    } else if is_space_char(s.last()) {
        trim_spec(s.drop_last())
    } else {
        s
    }
}

proof fn lemma_trim_range(s: Seq<char>, lo: int, hi: int)
    requires
        0 <= lo <= hi <= s.len(),
        forall|i: int| 0 <= i < lo ==> is_space_char(s[i]),
        forall|i: int| hi <= i < s.len() ==> is_space_char(s[i]),
        lo < hi ==> !is_space_char(s[lo]),
        lo < hi ==> !is_space_char(s[hi - 1]),
    ensures
        trim_spec(s) =~= s.subrange(lo, hi),
    decreases s.len(),
{
    if s.len() == 0 {
    } else if is_space_char(s.first()) {
        assert(lo > 0 || lo == hi);
        if lo == hi {
            if lo == 0 {
                assert(hi < s.len() || s.len() == 0) by {
                    if hi == s.len() && s.len() > 0 {
                    }
                }
                lemma_trim_range(s.drop_first(), 0, 0);
            } else {
                lemma_trim_range(s.drop_first(), lo - 1, hi - 1);
            }
        } else {
            lemma_trim_range(s.drop_first(), lo - 1, hi - 1);
        }
        assert(trim_spec(s) == trim_spec(s.drop_first()));
    } else if is_space_char(s.last()) {
        assert(hi < s.len());
        lemma_trim_range(s.drop_last(), lo, hi);
    } else {
        assert(lo == 0 && hi == s.len());
    }
}

pub fn chars_trim(s: &Vec<char>) -> (r: Vec<char>)
    ensures
        r@ == trim_spec(s@),
{
    let mut lo: usize = 0;
    while lo < s.len() && is_space(s[lo])
        invariant
            0 <= lo <= s@.len(),
            forall|i: int| 0 <= i < lo ==> is_space_char(s@[i]),
        decreases s@.len() - lo,
    {
        lo += 1;
    }
    let mut hi: usize = s.len();
    while hi > lo && is_space(s[hi - 1])
        invariant
            lo <= hi <= s@.len(),
            forall|i: int| 0 <= i < lo ==> is_space_char(s@[i]),
            forall|i: int| hi <= i < s@.len() ==> is_space_char(s@[i]),
            lo < s@.len() ==> !is_space_char(s@[lo as int]),
        decreases hi,
    {
        hi -= 1;
    }
    let mut r: Vec<char> = Vec::new();
    let mut i: usize = lo;
    while i < hi
        invariant
            lo <= i <= hi <= s@.len(),
            r@ =~= s@.subrange(lo as int, i as int),
        decreases hi - i,
    {
        r.push(s[i]);
        i += 1;
    }
    proof {
        lemma_trim_range(s@, lo as int, hi as int);
    }
    r
}

/// Whitespace splitting, defined as a left fold: a non-space character either
/// extends the word that the previous character opened or starts a new one.
pub open spec fn split_ws_spec(s: Seq<char>) -> Seq<Seq<char>>
    decreases s.len(),
{
    if s.len() == 0 {
        Seq::empty()
    } else {
        let init = split_ws_spec(s.drop_last());
        let c = s.last();
        if is_space_char(c) {
            init
        } else if s.len() >= 2 && !is_space_char(s[s.len() - 2]) {
            init.update(init.len() - 1, init.last().push(c))
        } else {
            init.push(seq![c])
        }
    }
}

/// A trailing non-space character leaves the last word open, so the split is
/// non-empty.
pub proof fn lemma_split_ws_last_open(s: Seq<char>)
    requires
        s.len() > 0,
        !is_space_char(s.last()),
    ensures
        split_ws_spec(s).len() > 0,
    decreases s.len(),
{
    if s.len() >= 2 && !is_space_char(s[s.len() - 2]) {
        assert(s.drop_last().last() == s[s.len() - 2]);
        lemma_split_ws_last_open(s.drop_last());
    }
}

/// Each word that whitespace splitting yields is non-empty.
pub proof fn lemma_split_ws_words_nonempty(s: Seq<char>)
    ensures
        forall|i: int| 0 <= i < split_ws_spec(s).len() ==> #[trigger] split_ws_spec(s)[i].len() > 0,
    decreases s.len(),
{
    if s.len() > 0 {
        lemma_split_ws_words_nonempty(s.drop_last());
        let init = split_ws_spec(s.drop_last());
        let c = s.last();
        if is_space_char(c) {
        } else if s.len() >= 2 && !is_space_char(s[s.len() - 2]) {
            assert(s.drop_last().last() == s[s.len() - 2]);
            lemma_split_ws_last_open(s.drop_last());
            assert(forall|i: int|
                0 <= i < split_ws_spec(s).len() ==> #[trigger] split_ws_spec(s)[i]
                    == if i == init.len() - 1 {
                    init.last().push(c)
                } else {
                    init[i]
                });
        } else {
            assert(split_ws_spec(s) == init.push(seq![c]));
            assert(forall|i: int|
                0 <= i < init.len() ==> #[trigger] split_ws_spec(s)[i] == init[i]);
            assert(split_ws_spec(s)[init.len() as int] =~= seq![c]);
        }
    }
}

pub fn chars_split_ws(s: &Vec<char>) -> (r: Vec<Vec<char>>)
    ensures
        r.deep_view() == split_ws_spec(s@),
{
    let mut r: Vec<Vec<char>> = Vec::new();
    let mut i: usize = 0;
    while i < s.len()
        invariant
            0 <= i <= s@.len(),
            r.deep_view() =~~= split_ws_spec(s@.take(i as int)),
        decreases s@.len() - i,
    {
        let c = s[i];
        proof {
            assert(s@.take(i + 1).drop_last() =~= s@.take(i as int));
            assert(s@.take(i + 1).last() == s@[i as int]);
        }
        if is_space(c) {
        } else if i >= 1 && !is_space(s[i - 1]) {
            proof {
                assert(s@.take(i + 1)[i - 1] == s@[i - 1]);
                assert(s@.take(i as int).last() == s@[i - 1]);
                lemma_split_ws_last_open(s@.take(i as int));
                assert(r@.len() == r.deep_view().len());
            }
            let last_idx = r.len() - 1;
            let mut w = r.remove(last_idx);
            w.push(c);
            r.push(w);
            proof {
                assert(r.deep_view() =~~= split_ws_spec(s@.take(i + 1)));
            }
        } else {
            let mut w: Vec<char> = Vec::new();
            w.push(c);
            r.push(w);
            proof {
                assert(w@ =~= seq![c]);
                assert(r.deep_view() =~~= split_ws_spec(s@.take(i + 1)));
            }
        }
        i += 1;
    }
    proof {
        assert(s@.take(s@.len() as int) =~= s@);
    }
    r
}

/// Splitting into lines: lines end at `'\n'`, a carriage return immediately
/// before the newline is dropped, and a final unterminated line is kept.
/// The first component accumulates finished lines, the second the line still
/// open at that point of the text.
pub open spec fn split_lines_state(s: Seq<char>) -> (Seq<Seq<char>>, Seq<char>)
    decreases s.len(),
{
    if s.len() == 0 {
        (Seq::empty(), Seq::empty())
    } else {
        let st = split_lines_state(s.drop_last());
        let c = s.last();
        if c == '\n' {
            let line = if st.1.len() > 0 && st.1.last() == '\r' {
                st.1.drop_last()
            } else {
                st.1
            };
            (st.0.push(line), Seq::empty())
        } else {
            (st.0, st.1.push(c))
        }
    }
}

pub open spec fn split_lines_spec(s: Seq<char>) -> Seq<Seq<char>> {
    let st = split_lines_state(s);
    if st.1.len() > 0 {
        st.0.push(st.1)
    } else {
        st.0
    }
}

#[verifier::loop_isolation(false)]
pub fn chars_split_lines(s: &Vec<char>) -> (r: Vec<Vec<char>>)
    ensures
        r.deep_view() == split_lines_spec(s@),
{
    let mut r: Vec<Vec<char>> = Vec::new();
    let mut cur: Vec<char> = Vec::new();
    let mut i: usize = 0;
    while i < s.len()
        invariant
            0 <= i <= s@.len(),
            r.deep_view() =~~= split_lines_state(s@.take(i as int)).0,
            cur@ =~= split_lines_state(s@.take(i as int)).1,
        decreases s@.len() - i,
    {
        let c = s[i];
        proof {
            assert(s@.take(i + 1).drop_last() =~= s@.take(i as int));
            assert(s@.take(i + 1).last() == s@[i as int]);
        }
        if c == '\n' {
            if cur.len() > 0 && cur[cur.len() - 1] == '\r' {
                cur.pop();
            }
            r.push(cur);
            cur = Vec::new();
            proof {
                assert(r.deep_view() =~~= split_lines_state(s@.take(i + 1)).0);
            }
        } else {
            cur.push(c);
        }
        i += 1;
    }
    proof {
        assert(s@.take(s@.len() as int) =~= s@);
    }
    if cur.len() > 0 {
        r.push(cur);
    }
    proof {
        assert(r.deep_view() =~~= split_lines_spec(s@));
    }
    r
}

/// Joining with a separator, the inverse-direction companion of splitting.
pub open spec fn join_spec(parts: Seq<Seq<char>>, sep: Seq<char>) -> Seq<char>
    decreases parts.len(),
{
    if parts.len() == 0 {
        Seq::empty()
    } else {
        let init = join_spec(parts.drop_last(), sep);
        if parts.len() == 1 {
            parts.last()
        } else {
            init + sep + parts.last()
        }
    }
}

pub fn chars_join(parts: &Vec<Vec<char>>, sep: &Vec<char>) -> (r: Vec<char>)
    ensures
        r@ == join_spec(parts.deep_view(), sep@),
{
    let mut r: Vec<char> = Vec::new();
    let mut i: usize = 0;
    while i < parts.len()
        invariant
            0 <= i <= parts@.len(),
            parts.deep_view().len() == parts@.len(),
            r@ =~= join_spec(parts.deep_view().take(i as int), sep@),
        decreases parts@.len() - i,
    {
        proof {
            assert(parts.deep_view().take(i + 1).drop_last() =~= parts.deep_view().take(i as int));
            assert(parts.deep_view().take(i + 1).last() =~= parts@[i as int]@);
        }
        if i > 0 {
            let mut j: usize = 0;
            while j < sep.len()
                invariant
                    0 <= j <= sep@.len(),
                    r@ =~= join_spec(parts.deep_view().take(i as int), sep@) + sep@.take(j as int),
                decreases sep@.len() - j,
            {
                r.push(sep[j]);
                j += 1;
            }
            proof {
                assert(sep@.take(sep@.len() as int) =~= sep@);
            }
        }
        let mut j: usize = 0;
        let part_len = parts[i].len();
        while j < part_len
            invariant
                0 <= j <= parts@[i as int]@.len(),
                part_len == parts@[i as int]@.len(),
                i < parts@.len(),
                parts.deep_view().len() == parts@.len(),
                i > 0 ==> r@ =~= join_spec(parts.deep_view().take(i as int), sep@) + sep@
                    + parts@[i as int]@.take(j as int),
            i == 0 ==> r@ =~= parts@[i as int]@.take(j as int),
            decreases parts@[i as int]@.len() - j,
        {
            r.push(parts[i][j]);
            j += 1;
        }
        proof {
            assert(parts@[i as int]@.take(parts@[i as int]@.len() as int) =~= parts@[i as int]@);
            assert(r@ =~= join_spec(parts.deep_view().take(i + 1), sep@));
        }
        i += 1;
    }
    proof {
        assert(parts.deep_view().take(parts@.len() as int) =~= parts.deep_view());
    }
    r
}

/// The characters of `s`, in order, as a vector.
pub fn str_to_chars(s: &str) -> (r: Vec<char>)
    ensures
        r@ == s@,
{
    let mut r: Vec<char> = Vec::new();
    for c in it: s.chars()
        invariant
            r@ =~= it.seq().subrange(0, it.index() as int),
    {
        r.push(c);
    }
    proof {
        assert(r@ =~= s@);
    }
    r
}

/// String equality through the specified `String` comparison.
pub fn str_eq(a: &str, b: &str) -> (r: bool)
    ensures
        r == (a@ == b@),
{
    let sa = a.to_owned();
    let sb = b.to_owned();
    sa.eq(&sb)
}

/// Relies on `String: FromIterator<char>`: collecting characters yields the
/// string of exactly those characters, in order.
#[verifier::external_body]
pub fn chars_to_string(v: &Vec<char>) -> (r: String)
    ensures
        r@ == v@,
{
    v.iter().collect()
}

/// The characters of `v`, joined into one string with single spaces between
/// them; the join used for command paths.
#[verifier::loop_isolation(false)]
pub fn join_strings(parts: &Vec<String>, sep: &str) -> (r: String)
    ensures
        r@ == join_spec(parts.deep_view(), sep@),
{
    let mut cparts: Vec<Vec<char>> = Vec::new();
    let mut i: usize = 0;
    while i < parts.len()
        invariant
            0 <= i <= parts@.len(),
            cparts.deep_view() =~~= parts.deep_view().take(i as int),
        decreases parts@.len() - i,
    {
        cparts.push(str_to_chars(parts[i].as_str()));
        proof {
            assert(parts.deep_view()[i as int] == parts@[i as int]@);
            assert(parts.deep_view().take(i + 1) =~~= parts.deep_view().take(i as int).push(
                parts.deep_view()[i as int],
            ));
            assert(cparts.deep_view() =~~= parts.deep_view().take(i + 1));
        }
        i += 1;
    }
    proof {
        assert(cparts.deep_view() =~~= parts.deep_view());
    }
    let csep = str_to_chars(sep);
    let joined = chars_join(&cparts, &csep);
    chars_to_string(&joined)
}

} // verus!
