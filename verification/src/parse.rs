//! The configuration-file parser.
//!
//! The file is a flat key/value text: `key = "value"` assignments, blank
//! lines, `#` comment lines, and `[section]` headers. The top level knows
//! the keys `open_file`, `save_file` and `save_files`; the `[tips]`
//! section knows `open_file_when_folder`. Unknown keys and sections are
//! ignored; a malformed line, a repeated known key, or a `[tips]` section
//! without its key make the whole document unreadable (the caller then
//! falls back to the default record). Values are taken verbatim from
//! between their quotes: no name is ever rejected for its content.

use vstd::prelude::*;

use crate::config::{Config, ConfigView, Tips, TipsView};

verus! {

/// Whitespace that may surround keys, values and section names on a line.
pub open spec fn is_ws(c: char) -> bool {
    c == ' ' || c == '\t' || c == '\r'
}

/// `s` without its leading whitespace.
pub open spec fn trim_front(s: Seq<char>) -> Seq<char>
    decreases s.len(),
{
    if s.len() > 0 && is_ws(s[0]) {
        trim_front(s.drop_first())
    } else {
        s
    }
}

/// `s` without its trailing whitespace.
pub open spec fn trim_back(s: Seq<char>) -> Seq<char>
    decreases s.len(),
{
    if s.len() > 0 && is_ws(s.last()) {
        trim_back(s.drop_last())
    } else {
        s
    }
}

/// `s` without leading and trailing whitespace.
pub open spec fn trim(s: Seq<char>) -> Seq<char> {
    trim_back(trim_front(s))
}

/// The index of the first occurrence of `c` in `s` at or after `i`, or
/// `s.len()` if there is none.
pub open spec fn index_of_from(s: Seq<char>, c: char, i: int) -> int
    recommends
        0 <= i <= s.len(),
    decreases s.len() - i,
{
    if i < 0 || i >= s.len() {
        s.len() as int
    } else if s[i] == c {
        i
    } else {
        index_of_from(s, c, i + 1)
    }
}

pub proof fn lemma_index_of_from_bounds(s: Seq<char>, c: char, i: int)
    requires
        0 <= i <= s.len(),
    ensures
        i <= index_of_from(s, c, i) <= s.len(),
        index_of_from(s, c, i) < s.len() ==> s[index_of_from(s, c, i)] == c,
        forall|k: int| i <= k < index_of_from(s, c, i) ==> s[k] != c,
    decreases s.len() - i,
{
    if i >= s.len() {
    } else if s[i] == c {
    } else {
        lemma_index_of_from_bounds(s, c, i + 1);
    }
}

pub proof fn lemma_index_of_from_at(s: Seq<char>, c: char, i: int, p: int)
    requires
        0 <= i <= p <= s.len(),
        forall|k: int| i <= k < p ==> s[k] != c,
        p < s.len() ==> s[p] == c,
    ensures
        index_of_from(s, c, i) == p,
    decreases p - i,
{
    if i == p {
    } else {
        assert(s[i] != c);
        lemma_index_of_from_at(s, c, i + 1, p);
    }
}

/// Removing `k` leading whitespace characters is exactly `trim_front`.
pub proof fn lemma_trim_front_split(s: Seq<char>, k: int)
    requires
        0 <= k <= s.len(),
        forall|m: int| 0 <= m < k ==> is_ws(s[m]),
        k < s.len() ==> !is_ws(s[k]),
    ensures
        trim_front(s) == s.subrange(k, s.len() as int),
    decreases k,
{
    if k == 0 {
        assert(s.subrange(0, s.len() as int) =~= s);
    } else {
        assert(is_ws(s[0]));
        let s1 = s.drop_first();
        assert(forall|m: int| 0 <= m < k - 1 ==> is_ws(s1[m]));
        lemma_trim_front_split(s1, k - 1);
        assert(s1.subrange(k - 1, s1.len() as int) =~= s.subrange(k, s.len() as int));
    }
}

/// Keeping only the first `k` characters is exactly `trim_back` when all
/// that follows them is whitespace.
pub proof fn lemma_trim_back_split(s: Seq<char>, k: int)
    requires
        0 <= k <= s.len(),
        forall|m: int| k <= m < s.len() ==> is_ws(s[m]),
        k > 0 ==> !is_ws(s[k - 1]),
    ensures
        trim_back(s) == s.subrange(0, k),
    decreases s.len() - k,
{
    if k == s.len() {
        assert(s.subrange(0, k) =~= s);
        if s.len() > 0 {
            assert(!is_ws(s.last()));
        }
    } else {
        assert(is_ws(s.last()));
        let s1 = s.drop_last();
        assert(forall|m: int| k <= m < s1.len() ==> is_ws(s1[m]));
        lemma_trim_back_split(s1, k);
        assert(s1.subrange(0, k) =~= s.subrange(0, k));
    }
}

/// Trimming the slice `[i, j)` of `s` yields the slice `[lo, hi)`, when
/// everything outside `[lo, hi)` is whitespace and its edges are not.
pub proof fn lemma_trim_range(s: Seq<char>, i: int, lo: int, hi: int, j: int)
    requires
        0 <= i <= lo <= hi <= j <= s.len(),
        forall|k: int| i <= k < lo ==> is_ws(s[k]),
        forall|k: int| hi <= k < j ==> is_ws(s[k]),
        lo < hi ==> !is_ws(s[lo]) && !is_ws(s[hi - 1]),
    ensures
        trim(s.subrange(i, j)) == s.subrange(lo, hi),
{
    let sub = s.subrange(i, j);
    assert(forall|m: int| 0 <= m < lo - i ==> is_ws(sub[m]));
    if lo == hi {
        // The whole slice is whitespace.
        assert(forall|m: int| 0 <= m < sub.len() ==> is_ws(sub[m]));
        lemma_trim_front_split(sub, sub.len() as int);
        assert(trim_front(sub) =~= Seq::<char>::empty());
        lemma_trim_back_split(Seq::<char>::empty(), 0);
        assert(s.subrange(lo, hi) =~= Seq::<char>::empty());
    } else {
        lemma_trim_front_split(sub, lo - i);
        let mid = sub.subrange(lo - i, sub.len() as int);
        assert(mid =~= s.subrange(lo, j));
        assert(forall|m: int| hi - lo <= m < mid.len() ==> is_ws(mid[m]));
        assert(!is_ws(mid[hi - lo - 1]));
        lemma_trim_back_split(mid, hi - lo);
        assert(mid.subrange(0, hi - lo) =~= s.subrange(lo, hi));
    }
}

/// Which section of the file the parser is in: before any header, in
/// `[tips]`, or in a section it does not know (whose keys are ignored).
#[derive(Debug, Clone, Copy, PartialEq, Eq)]
pub enum Section {
    Top,
    Tips,
    Unknown,
}

/// The parser's state between lines, at the mathematical level: the
/// current section and the values seen so far for each known key.
pub struct ParseStateView {
    pub section: Section,
    pub open_file: Option<Seq<char>>,
    pub save_file: Option<Seq<char>>,
    pub save_files: Option<Seq<char>>,
    pub tips_seen: bool,
    pub tips_value: Option<Seq<char>>,
}

pub open spec fn init_state() -> ParseStateView {
    ParseStateView {
        section: Section::Top,
        open_file: Option::None,
        save_file: Option::None,
        save_files: Option::None,
        tips_seen: false,
        tips_value: Option::None,
    }
}

/// A trimmed assignment line split into key and value: the key is what
/// stands before the first `=`, trimmed and non-empty; the value is what
/// stands between one double quote right after the `=` (after trimming)
/// and a closing quote at the end of the line, with no quote in between.
pub open spec fn parse_kv(t: Seq<char>) -> Option<(Seq<char>, Seq<char>)> {
    let e = index_of_from(t, '=', 0);
    if e == t.len() {
        Option::None
    } else {
        let key = trim(t.subrange(0, e));
        let val = trim(t.subrange(e + 1, t.len() as int));
        if key.len() == 0 {
            Option::None
        } else if val.len() >= 2 && val[0] == '"' && index_of_from(val, '"', 1) == val.len() - 1 {
            Option::Some((key, val.subrange(1, val.len() - 1)))
        } else {
            Option::None
        }
    }
}

/// One assignment applied to the state. A known key may be set once;
/// seeing it again makes the document unreadable. Unknown keys change
/// nothing.
pub open spec fn apply_kv(st: ParseStateView, key: Seq<char>, val: Seq<char>) -> Option<
    ParseStateView,
> {
    match st.section {
        Section::Top => {
            if key == "open_file"@ {
                if st.open_file is Some {
                    Option::None
                } else {
                    Option::Some(ParseStateView { open_file: Option::Some(val), ..st })
                }
            } else if key == "save_file"@ {
                if st.save_file is Some {
                    Option::None
                } else {
                    Option::Some(ParseStateView { save_file: Option::Some(val), ..st })
                }
            } else if key == "save_files"@ {
                if st.save_files is Some {
                    Option::None
                } else {
                    Option::Some(ParseStateView { save_files: Option::Some(val), ..st })
                }
            } else {
                Option::Some(st)
            }
        },
        Section::Tips => {
            if key == "open_file_when_folder"@ {
                if st.tips_value is Some {
                    Option::None
                } else {
                    Option::Some(
                        ParseStateView { tips_value: Option::Some(val), tips_seen: true, ..st },
                    )
                }
            } else {
                Option::Some(st)
            }
        },
        Section::Unknown => Option::Some(st),
    }
}

/// One raw line applied to the state: blank lines and `#` comments change
/// nothing, `[name]` switches the section, anything else must be an
/// assignment.
pub open spec fn apply_line(st: ParseStateView, raw: Seq<char>) -> Option<ParseStateView> {
    let t = trim(raw);
    if t.len() == 0 {
        Option::Some(st)
    } else if t[0] == '#' {
        Option::Some(st)
    } else if t[0] == '[' {
        if t.len() >= 2 && t.last() == ']' {
            let name = trim(t.subrange(1, t.len() - 1));
            if name == "tips"@ {
                Option::Some(ParseStateView { section: Section::Tips, tips_seen: true, ..st })
            } else {
                Option::Some(ParseStateView { section: Section::Unknown, ..st })
            }
        } else {
            Option::None
        }
    } else {
        match parse_kv(t) {
            Option::None => Option::None,
            Option::Some(kv) => apply_kv(st, kv.0, kv.1),
        }
    }
}

/// The whole document applied line by line, starting at index `i` in
/// state `st`. Lines are separated by `'\n'`.
pub open spec fn run_lines(s: Seq<char>, i: int, st: ParseStateView) -> Option<ParseStateView>
    recommends
        0 <= i,
    decreases s.len() + 1 - i,
    when i <= s.len() + 1
    via run_lines_decreases
{
    if i >= s.len() {
        Option::Some(st)
    } else {
        let j = index_of_from(s, '\n', i);
        match apply_line(st, s.subrange(i, j)) {
            Option::None => Option::None,
            Option::Some(st2) => run_lines(s, j + 1, st2),
        }
    }
}

#[via_fn]
proof fn run_lines_decreases(s: Seq<char>, i: int, st: ParseStateView) {
    if 0 <= i && i < s.len() {
        lemma_index_of_from_bounds(s, '\n', i);
    }
}

/// Running from position `i` is running the suffix from its start: the
/// lines before `i` do not matter.
pub proof fn lemma_run_shift(s: Seq<char>, i: int, st: ParseStateView)
    requires
        0 <= i <= s.len(),
    ensures
        run_lines(s, i, st) == run_lines(s.subrange(i, s.len() as int), 0, st),
    decreases s.len(), s.len() + 1 - i,
{
    let t = s.subrange(i, s.len() as int);
    if i == 0 {
        assert(t =~= s);
    } else if i >= s.len() {
        assert(t.len() == 0);
    } else {
        lemma_index_of_from_bounds(s, '\n', i);
        let j = index_of_from(s, '\n', i);
        assert(i <= j <= s.len());
        assert(forall|k: int| 0 <= k < j - i ==> t[k] == s[i + k]);
        assert(forall|k: int| 0 <= k < j - i ==> t[k] != '\n');
        if j - i < t.len() {
            assert(t[j - i] == s[j]);
        }
        lemma_index_of_from_at(t, '\n', 0, j - i);
        assert(s.subrange(i, j) =~= t.subrange(0, j - i));
        match apply_line(st, s.subrange(i, j)) {
            Option::None => {
                assert(run_lines(s, i, st) is None);
                assert(run_lines(t, 0, st) is None);
            },
            Option::Some(st2) => {
                assert(run_lines(s, i, st) == run_lines(s, j + 1, st2));
                assert(run_lines(t, 0, st) == run_lines(t, j - i + 1, st2));
                if j >= s.len() {
                    assert(run_lines(s, j + 1, st2) == Option::Some(st2));
                    assert(run_lines(t, j - i + 1, st2) == Option::Some(st2));
                } else {
                    lemma_run_shift(s, j + 1, st2);
                    lemma_run_shift(t, j - i + 1, st2);
                    assert(s.subrange(j + 1, s.len() as int) =~= t.subrange(
                        j - i + 1,
                        t.len() as int,
                    ));
                }
            },
        }
    }
}

/// Running a document that starts with one newline-free line: apply the
/// line, then run the rest.
pub proof fn lemma_run_first_line(line: Seq<char>, rest: Seq<char>, st: ParseStateView)
    requires
        forall|m: int| 0 <= m < line.len() ==> line[m] != '\n',
    ensures
        run_lines(line + "\n"@ + rest, 0, st) == match apply_line(st, line) {
            Option::None => Option::None::<ParseStateView>,
            Option::Some(st2) => run_lines(rest, 0, st2),
        },
{
    reveal_strlit("\n");
    let s = line + "\n"@ + rest;
    assert(s.len() == line.len() + 1 + rest.len());
    assert(s[line.len() as int] == '\n');
    assert(forall|m: int| 0 <= m < line.len() ==> s[m] == line[m]);
    lemma_index_of_from_at(s, '\n', 0, line.len() as int);
    assert(s.subrange(0, line.len() as int) =~= line);
    match apply_line(st, line) {
        Option::None => {},
        Option::Some(st2) => {
            lemma_run_shift(s, line.len() as int + 1, st2);
            assert(s.subrange(line.len() as int + 1, s.len() as int) =~= rest);
        },
    }
}

/// A rendered assignment line: the key, ` = `, and the value in double
/// quotes.
pub open spec fn render_assignment(key: Seq<char>, value: Seq<char>) -> Seq<char> {
    key + " = \""@ + value + "\""@
}

/// What one rendered assignment line does to the state: exactly what the
/// assignment itself does. Holds for any key without `=`, whitespace or
/// line breaks that does not open a comment or a section, and any value
/// without quotes or line breaks.
pub proof fn lemma_line_assignment(st: ParseStateView, k: Seq<char>, v: Seq<char>)
    requires
        k.len() > 0,
        forall|m: int| 0 <= m < k.len() ==> k[m] != '=' && !is_ws(k[m]) && k[m] != '\n',
        k[0] != '#',
        k[0] != '[',
        forall|m: int| 0 <= m < v.len() ==> v[m] != '"' && v[m] != '\n',
    ensures
        apply_line(st, render_assignment(k, v)) == apply_kv(st, k, v),
        forall|m: int|
            0 <= m < render_assignment(k, v).len() ==> render_assignment(k, v)[m] != '\n',
{
    reveal_strlit(" = \"");
    reveal_strlit("\"");
    let mid = " = \""@;
    let quote = "\""@;
    let line = render_assignment(k, v);
    let kl = k.len() as int;
    let vl = v.len() as int;
    let n = line.len() as int;
    assert(mid.len() == 4);
    assert(mid[0] == ' ' && mid[1] == '=' && mid[2] == ' ' && mid[3] == '"');
    assert(quote.len() == 1 && quote[0] == '"');
    assert(n == kl + 4 + vl + 1);
    assert(forall|m: int| 0 <= m < kl ==> line[m] == k[m]);
    assert(forall|m: int| 0 <= m < 4 ==> line[kl + m] == mid[m]);
    assert(forall|m: int| 0 <= m < vl ==> line[kl + 4 + m] == v[m]);
    assert(line[n - 1] == '"');
    // The whole line is already trimmed: its first and last characters
    // are not whitespace.
    lemma_trim_range(line, 0, 0, n, n);
    assert(line.subrange(0, n) =~= line);
    assert(trim(line) == line);
    // The first `=` of the line is the one after the key.
    assert(forall|m: int| 0 <= m < kl + 1 ==> line[m] != '=');
    lemma_index_of_from_at(line, '=', 0, kl + 1);
    // The key part, trimmed, is the key.
    lemma_trim_range(line, 0, 0, kl, kl + 1);
    assert(line.subrange(0, kl) =~= k);
    // The value part, trimmed, is the quoted value.
    lemma_trim_range(line, kl + 2, kl + 3, n, n);
    let val = line.subrange(kl + 3, n);
    assert(trim(line.subrange(kl + 2, n)) == val);
    assert(val.len() == vl + 2);
    assert(val[0] == '"');
    assert(forall|m: int| 1 <= m < val.len() - 1 ==> val[m] == v[m - 1]);
    assert(forall|m: int| 1 <= m < val.len() - 1 ==> val[m] != '"');
    assert(val[val.len() - 1] == '"');
    lemma_index_of_from_at(val, '"', 1, val.len() - 1);
    assert(val.subrange(1, val.len() - 1) =~= v);
    assert(parse_kv(line) == Option::Some((k, v)));
}

/// What the rendered `[tips]` header does to the state: it switches to
/// the tips section and marks it seen.
pub proof fn lemma_line_header_tips(st: ParseStateView)
    ensures
        apply_line(st, "[tips]"@) == Option::Some(
            ParseStateView { section: Section::Tips, tips_seen: true, ..st },
        ),
        forall|m: int| 0 <= m < "[tips]"@.len() ==> "[tips]"@[m] != '\n',
{
    reveal_strlit("[tips]");
    reveal_strlit("tips");
    let t = "[tips]"@;
    assert(t.len() == 6);
    assert(t[0] == '[' && t[1] == 't' && t[2] == 'i' && t[3] == 'p' && t[4] == 's' && t[5]
        == ']');
    lemma_trim_range(t, 0, 0, 6, 6);
    assert(t.subrange(0, 6) =~= t);
    assert(trim(t) == t);
    lemma_trim_range(t, 1, 1, 5, 5);
    assert(t.subrange(1, 5) =~= "tips"@);
    assert(trim(t.subrange(1, 5)) == "tips"@);
}

/// The record a finished parse yields: `open_file` and `save_file` must
/// have been set, and a `[tips]` section must have provided its key.
pub open spec fn finish_state(st: ParseStateView) -> Option<ConfigView> {
    if st.open_file is Some && st.save_file is Some && (st.tips_seen ==> st.tips_value is Some) {
        Option::Some(
            ConfigView {
                open_file: st.open_file->0,
                save_file: st.save_file->0,
                save_files: st.save_files,
                tips: match st.tips_value {
                    Option::None => Option::None,
                    Option::Some(v) => Option::Some(TipsView { open_file_when_folder: v }),
                },
            },
        )
    } else {
        Option::None
    }
}

/// What a whole document parses to, if anything.
pub open spec fn parse_doc(s: Seq<char>) -> Option<ConfigView> {
    match run_lines(s, 0, init_state()) {
        Option::None => Option::None,
        Option::Some(st) => finish_state(st),
    }
}

fn is_ws_char(c: char) -> (r: bool)
    ensures
        r == is_ws(c),
{
    c == ' ' || c == '\t' || c == '\r'
}

/// The first occurrence of `c` in `s` within `[from, to)`, or `to`.
fn scan_to_char(s: &str, from: usize, to: usize, c: char) -> (r: usize)
    requires
        from <= to <= s@.len(),
    ensures
        from <= r <= to,
        forall|k: int| from <= k < r ==> s@[k] != c,
        r < to ==> s@[r as int] == c,
{
    let mut r = from;
    while r < to && s.get_char(r) != c
        invariant
            from <= r <= to <= s@.len(),
            forall|k: int| from <= k < r ==> s@[k] != c,
        decreases to - r,
    {
        r = r + 1;
    }
    r
}

/// The first non-whitespace position in `[from, to)`, or `to`.
fn scan_ws_forward(s: &str, from: usize, to: usize) -> (r: usize)
    requires
        from <= to <= s@.len(),
    ensures
        from <= r <= to,
        forall|k: int| from <= k < r ==> is_ws(s@[k]),
        r < to ==> !is_ws(s@[r as int]),
{
    let mut r = from;
    while r < to && is_ws_char(s.get_char(r))
        invariant
            from <= r <= to <= s@.len(),
            forall|k: int| from <= k < r ==> is_ws(s@[k]),
        decreases to - r,
    {
        r = r + 1;
    }
    r
}

/// The position after the last non-whitespace character in `[from, to)`,
/// or `from` if there is none.
fn scan_ws_backward(s: &str, from: usize, to: usize) -> (r: usize)
    requires
        from <= to <= s@.len(),
    ensures
        from <= r <= to,
        forall|k: int| r <= k < to ==> is_ws(s@[k]),
        r > from ==> !is_ws(s@[r - 1]),
{
    let mut r = to;
    while r > from && is_ws_char(s.get_char(r - 1))
        invariant
            from <= r <= to <= s@.len(),
            forall|k: int| r <= k < to ==> is_ws(s@[k]),
        decreases r,
    {
        r = r - 1;
    }
    r
}

/// Whether the slice `[lo, hi)` of `s` is exactly the string `lit`.
fn range_eq_lit(s: &str, lo: usize, hi: usize, lit: &str) -> (r: bool)
    requires
        lo <= hi <= s@.len(),
    ensures
        r == (s@.subrange(lo as int, hi as int) == lit@),
{
    let m = lit.unicode_len();
    if hi - lo != m {
        assert(s@.subrange(lo as int, hi as int).len() != lit@.len());
        return false;
    }
    let mut k: usize = 0;
    while k < m
        invariant
            k <= m,
            m == lit@.len(),
            lo + m == hi,
            hi <= s@.len(),
            forall|t: int| 0 <= t < k ==> s@[lo + t] == lit@[t],
        decreases m - k,
    {
        if s.get_char(lo + k) != lit.get_char(k) {
            assert(s@.subrange(lo as int, hi as int)[k as int] == s@[lo + k as int]);
            return false;
        }
        k = k + 1;
    }
    assert(s@.subrange(lo as int, hi as int) =~= lit@);
    true
}

/// Whether two strings hold the same characters.
pub fn str_eq(a: &str, b: &str) -> (r: bool)
    ensures
        r == (a@ == b@),
{
    let n = a.unicode_len();
    let same = range_eq_lit(a, 0, n, b);
    proof {
        assert(a@.subrange(0, n as int) =~= a@);
    }
    same
}

pub open spec fn opt_view(o: Option<String>) -> Option<Seq<char>> {
    match o {
        Option::None => Option::None,
        Option::Some(s) => Option::Some(s@),
    }
}

/// The parser's state between lines.
struct ParseState {
    section: Section,
    open_file: Option<String>,
    save_file: Option<String>,
    save_files: Option<String>,
    tips_seen: bool,
    tips_value: Option<String>,
}

impl View for ParseState {
    type V = ParseStateView;

    closed spec fn view(&self) -> ParseStateView {
        ParseStateView {
            section: self.section,
            open_file: opt_view(self.open_file),
            save_file: opt_view(self.save_file),
            save_files: opt_view(self.save_files),
            tips_seen: self.tips_seen,
            tips_value: opt_view(self.tips_value),
        }
    }
}

/// One raw line `[i, j)` of `s` applied to the state. `true` means the
/// line was taken (the state now reflects it); `false` means the line
/// makes the document unreadable.
fn apply_line_exec(s: &str, i: usize, j: usize, st: &mut ParseState) -> (ok: bool)
    requires
        i <= j <= s@.len(),
    ensures
        ok ==> apply_line(old(st)@, s@.subrange(i as int, j as int)) == Option::Some(final(st)@),
        !ok ==> apply_line(old(st)@, s@.subrange(i as int, j as int)) is None,
{
    let ghost line = s@.subrange(i as int, j as int);
    let lo = scan_ws_forward(s, i, j);
    let hi = scan_ws_backward(s, lo, j);
    proof {
        lemma_trim_range(s@, i as int, lo as int, hi as int, j as int);
    }
    let ghost t = s@.subrange(lo as int, hi as int);
    assert(trim(line) == t);
    if lo == hi {
        // Blank line.
        return true;
    }
    let c0 = s.get_char(lo);
    assert(t[0] == c0);
    if c0 == '#' {
        // Comment line.
        return true;
    }
    if c0 == '[' {
        if hi - lo < 2 || s.get_char(hi - 1) != ']' {
            return false;
        }
        assert(t.last() == s@[hi - 1]);
        let lo2 = scan_ws_forward(s, lo + 1, hi - 1);
        let hi2 = scan_ws_backward(s, lo2, hi - 1);
        proof {
            lemma_trim_range(s@, lo + 1, lo2 as int, hi2 as int, hi - 1);
            assert(t.subrange(1, t.len() - 1) =~= s@.subrange(lo + 1, hi - 1));
        }
        if range_eq_lit(s, lo2, hi2, "tips") {
            st.section = Section::Tips;
            st.tips_seen = true;
        } else {
            st.section = Section::Unknown;
        }
        return true;
    }
    // An assignment line: key = "value"
    let e = scan_to_char(s, lo, hi, '=');
    if e == hi {
        proof {
            lemma_index_of_from_at(t, '=', 0, t.len() as int);
        }
        return false;
    }
    proof {
        lemma_index_of_from_at(t, '=', 0, e - lo);
    }
    let khi = scan_ws_backward(s, lo, e);
    proof {
        lemma_trim_range(s@, lo as int, lo as int, khi as int, e as int);
        assert(t.subrange(0, e - lo) =~= s@.subrange(lo as int, e as int));
    }
    let ghost key = s@.subrange(lo as int, khi as int);
    assert(trim(t.subrange(0, e - lo)) == key);
    if khi == lo {
        return false;
    }
    let vlo = scan_ws_forward(s, e + 1, hi);
    let vhi = scan_ws_backward(s, vlo, hi);
    proof {
        lemma_trim_range(s@, e + 1, vlo as int, vhi as int, hi as int);
        assert(t.subrange(e - lo + 1, t.len() as int) =~= s@.subrange(e + 1, hi as int));
    }
    let ghost val = s@.subrange(vlo as int, vhi as int);
    assert(trim(t.subrange(e - lo + 1, t.len() as int)) == val);
    if vhi - vlo < 2 {
        return false;
    }
    if s.get_char(vlo) != '"' {
        assert(val[0] == s@[vlo as int]);
        return false;
    }
    assert(val[0] == '"');
    let q = scan_to_char(s, vlo + 1, vhi, '"');
    proof {
        lemma_index_of_from_at(val, '"', 1, q - vlo);
    }
    if q != vhi - 1 {
        return false;
    }
    let vs = s.substring_char(vlo + 1, vhi - 1);
    let value = String::from_str(vs);
    proof {
        assert(value@ =~= val.subrange(1, val.len() - 1));
    }
    assert(parse_kv(t) == Option::Some((key, val.subrange(1, val.len() - 1))));
    match st.section {
        Section::Top => {
            if range_eq_lit(s, lo, khi, "open_file") {
                if st.open_file.is_some() {
                    return false;
                }
                st.open_file = Some(value);
                true
            } else if range_eq_lit(s, lo, khi, "save_file") {
                if st.save_file.is_some() {
                    return false;
                }
                st.save_file = Some(value);
                true
            } else if range_eq_lit(s, lo, khi, "save_files") {
                if st.save_files.is_some() {
                    return false;
                }
                st.save_files = Some(value);
                true
            } else {
                true
            }
        },
        Section::Tips => {
            if range_eq_lit(s, lo, khi, "open_file_when_folder") {
                if st.tips_value.is_some() {
                    return false;
                }
                st.tips_value = Some(value);
                st.tips_seen = true;
                true
            } else {
                true
            }
        },
        Section::Unknown => true,
    }
}

impl Config {
    /// Parse the text of a configuration file. `None` means the document
    /// is unreadable; the caller then falls back to the default record,
    /// so no content ever fails outward.
    pub fn from_text(s: &str) -> (r: Option<Config>)
        ensures
            match r {
                Option::None => parse_doc(s@) is None,
                Option::Some(c) => parse_doc(s@) == Option::Some(c@),
            },
    {
        let n = s.unicode_len();
        let mut st = ParseState {
            section: Section::Top,
            open_file: None,
            save_file: None,
            save_files: None,
            tips_seen: false,
            tips_value: None,
        };
        assert(st@ == init_state());
        let mut i: usize = 0;
        while i < n
            invariant
                n == s@.len(),
                i <= n,
                run_lines(s@, 0, init_state()) == run_lines(s@, i as int, st@),
            decreases n - i,
        {
            let j = scan_to_char(s, i, n, '\n');
            proof {
                lemma_index_of_from_at(s@, '\n', i as int, j as int);
            }
            let ok = apply_line_exec(s, i, j, &mut st);
            if !ok {
                return None;
            }
            i = if j < n {
                j + 1
            } else {
                n
            };
        }
        assert(run_lines(s@, 0, init_state()) == Option::Some(st@));
        let ghost stv = st@;
        let ParseState { section: _, open_file, save_file, save_files, tips_seen, tips_value } = st;
        if open_file.is_some() && save_file.is_some() && (!tips_seen || tips_value.is_some()) {
            let of = open_file.unwrap();
            let sf = save_file.unwrap();
            let tips = match tips_value {
                None => None,
                Some(v) => Some(Tips { open_file_when_folder: v }),
            };
            let c = Config { open_file: of, save_file: sf, save_files, tips };
            assert(finish_state(stv) == Option::Some(c@));
            Some(c)
        } else {
            assert(finish_state(stv) is None);
            None
        }
    }
}

} // verus!
