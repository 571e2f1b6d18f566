//! VCDS CSV table reader.
//!
//! VCDS exports a multi-row banner before the data, plus per-locale
//! decimal quirks. The expected shape:
//!
//! ```text
//! Row 1: Group A:,001,Group B:,003,Group C:,011, ...
//! Row 2: <field-name-001-1>,<field-name-001-2>, ...
//! Row 3: <unit-001-1>,<unit-001-2>, ...
//! Row 4: TIME,STAMP,001-1,001-2, ... ,011-4
//! Row 5+: data rows
//! ```
//!
//! Rows 1 and 3 may be missing on some VCDS releases; the data column
//! header is the only one anchored on. The delimiter is the most frequent
//! of `,` `;` TAB in the first eight non-blank lines; a `;`-separated log
//! whose first data row uses decimal commas is read in EU locale.
//!
//! This module turns the raw text into a [`VcdsTable`]: the located
//! header, the column map, the label rows and, for every data row that
//! has a time cell, the cleaned number texts of its cells. Turning those
//! texts into samples is left to the caller.

use vstd::prelude::*;

use crate::error::Error;
use crate::ingest::canonicalize::build_column_map;
use crate::ingest::canonicalize::column_map;
use crate::ingest::canonicalize::group_set;
use crate::ingest::canonicalize::lemma_column_names_distinct;
use crate::ingest::canonicalize::groups_present;
use crate::ingest::canonicalize::mapped_view;
use crate::ingest::canonicalize::strictly_sorted;
use crate::ingest::canonicalize::MappedColumn;
use crate::text::chars_of;
use crate::text::append_str;
use crate::platform::amf_edc15p::channels::MIN_REQUIRED_GROUPS;
use crate::text::str_eq;
use crate::ingest::dtc::opt_view;
use crate::text::is_ascii_digit;
use crate::text::is_digit;
use crate::text::lines;
use crate::text::lines_of;
use crate::text::split_chars;
use crate::text::split_on;
use crate::text::string_of;
use crate::text::trim;
use crate::text::trim_chars;
use crate::text::views;

verus! {

// ---------------------------------------------------------------------------
// Views of nested character buffers
// ---------------------------------------------------------------------------

/// Character views of a row of cell buffers.
pub open spec fn row_view(r: Seq<Vec<char>>) -> Seq<Seq<char>> {
    r.map_values(|c: Vec<char>| c@)
}

/// Character views of a table of cell buffers.
pub open spec fn table_view(t: Seq<Vec<Vec<char>>>) -> Seq<Seq<Seq<char>>> {
    t.map_values(|r: Vec<Vec<char>>| row_view(r@))
}

/// Character views of a table of `String` cells.
pub open spec fn string_table_view(t: Seq<Vec<String>>) -> Seq<Seq<Seq<char>>> {
    t.map_values(|r: Vec<String>| views(r@))
}

// ---------------------------------------------------------------------------
// Lines, sampling and the delimiter
// ---------------------------------------------------------------------------

/// The text without a leading UTF-8 byte-order mark.
pub open spec fn strip_bom(s: Seq<char>) -> Seq<char> {
    if s.len() > 0 && s[0] == '\u{feff}' {
        s.drop_first()
    } else {
        s
    }
}

/// The lines that are not blank after trimming, in order.
pub open spec fn nonblank(ls: Seq<Seq<char>>) -> Seq<Seq<char>>
    decreases ls.len(),
{
    if ls.len() == 0 {
        Seq::empty()
    } else {
        let p = nonblank(ls.drop_last());
        if trim(ls.last()).len() > 0 {
            p.push(ls.last())
        } else {
            p
        }
    }
}

/// The pieces of `ls` joined with `sep` between neighbours.
pub open spec fn join_with(ls: Seq<Seq<char>>, sep: char) -> Seq<char>
    decreases ls.len(),
{
    if ls.len() == 0 {
        Seq::empty()
    } else if ls.len() == 1 {
        ls[0]
    } else {
        join_with(ls.drop_last(), sep).push(sep) + ls.last()
    }
}

/// Number of occurrences of `c` in `s`.
pub open spec fn count_char(s: Seq<char>, c: char) -> nat
    decreases s.len(),
{
    if s.len() == 0 {
        0
    } else {
        count_char(s.drop_last(), c) + if s.last() == c {
            1nat
        } else {
            0nat
        }
    }
}

/// The most frequent of `,` `;` TAB in `s`; ties go to the earlier of
/// that order, and `,` wins when none occurs.
pub open spec fn sniff(s: Seq<char>) -> char {
    let a = count_char(s, ',');
    let b = count_char(s, ';');
    let t = count_char(s, '\t');
    let m = if b > a {
        b
    } else {
        a
    };
    if t > m {
        '\t'
    } else if b > a {
        ';'
    } else {
        ','
    }
}

/// The cells of one line: pieces between delimiters, each trimmed.
pub open spec fn split_row(l: Seq<char>, d: char) -> Seq<Seq<char>> {
    split_on(l, d).map_values(|c: Seq<char>| trim(c))
}

/// The cell rows of a text: one per non-blank line.
pub open spec fn table_rows(text: Seq<char>, d: char) -> Seq<Seq<Seq<char>>> {
    nonblank(lines(text)).map_values(|l: Seq<char>| split_row(l, d))
}

fn strip_bom_chars(v: &Vec<char>) -> (r: Vec<char>)
    ensures
        r@ == strip_bom(v@),
{
    let n = v.len();
    if n > 0 && v[0] == '\u{feff}' {
        let r = crate::text::sub_chars(v, 1, n);
        assert(r@ =~= v@.drop_first());
        r
    } else {
        let r = crate::text::sub_chars(v, 0, n);
        assert(r@ =~= v@);
        r
    }
}

fn nonblank_lines(ls: &Vec<Vec<char>>) -> (r: Vec<Vec<char>>)
    ensures
        row_view(r@) == nonblank(row_view(ls@)),
{
    let ghost lv = row_view(ls@);
    let n = ls.len();
    let mut out: Vec<Vec<char>> = Vec::new();
    let mut i: usize = 0;
    while i < n
        invariant
            n == ls@.len(),
            lv == row_view(ls@),
            i <= n,
            row_view(out@) == nonblank(lv.take(i as int)),
        decreases n - i,
    {
        assert(lv.take(i + 1).drop_last() =~= lv.take(i as int));
        assert(lv.take(i + 1).last() == ls@[i as int]@);
        let t = trim_chars(&ls[i]);
        if t.len() > 0 {
            let ghost o0 = row_view(out@);
            let l = crate::text::sub_chars(&ls[i], 0, ls[i].len());
            assert(l@ =~= ls@[i as int]@);
            out.push(l);
            assert(row_view(out@) =~= o0.push(ls@[i as int]@));
        }
        i = i + 1;
    }
    assert(lv.take(n as int) =~= lv);
    out
}

/// The first `k` lines (all of them when there are fewer), joined by `sep`.
fn join_first(ls: &Vec<Vec<char>>, k: usize, sep: char) -> (r: Vec<char>)
    ensures
        r@ == join_with(row_view(ls@).take(if k < ls@.len() { k as int } else { ls@.len() as int }), sep),
{
    let ghost lv = row_view(ls@);
    let m = if k < ls.len() {
        k
    } else {
        ls.len()
    };
    let mut out: Vec<char> = Vec::new();
    let mut i: usize = 0;
    while i < m
        invariant
            m <= ls@.len(),
            lv == row_view(ls@),
            i <= m,
            out@ == join_with(lv.take(i as int), sep),
        decreases m - i,
    {
        let ghost pre = lv.take(i as int);
        let ghost cur = lv.take(i + 1);
        assert(cur.drop_last() =~= pre);
        assert(cur.last() == ls@[i as int]@);
        if i > 0 {
            out.push(sep);
        }
        let ghost o0 = out@;
        let l = &ls[i];
        let mut j: usize = 0;
        while j < l.len()
            invariant
                out@ == o0 + l@.take(j as int),
                j <= l@.len(),
            decreases l@.len() - j,
        {
            out.push(l[j]);
            assert(l@.take(j + 1) =~= l@.take(j as int).push(l@[j as int]));
            j = j + 1;
        }
        assert(l@.take(l@.len() as int) =~= l@);
        if i == 0 {
            assert(pre.len() == 0);
            assert(out@ =~= cur[0]);
        }
        i = i + 1;
    }
    out
}

proof fn lemma_count_push(s: Seq<char>, x: char, c: char)
    ensures
        count_char(s.push(x), c) == count_char(s, c) + if x == c {
            1nat
        } else {
            0nat
        },
{
    assert(s.push(x).drop_last() =~= s);
}

fn sniff_chars(s: &Vec<char>) -> (r: char)
    ensures
        r == sniff(s@),
{
    let n = s.len();
    let mut a: usize = 0;
    let mut b: usize = 0;
    let mut t: usize = 0;
    let mut i: usize = 0;
    while i < n
        invariant
            n == s@.len(),
            i <= n,
            a == count_char(s@.take(i as int), ','),
            b == count_char(s@.take(i as int), ';'),
            t == count_char(s@.take(i as int), '\t'),
            a <= i && b <= i && t <= i,
        decreases n - i,
    {
        proof {
            assert(s@.take(i + 1) =~= s@.take(i as int).push(s@[i as int]));
            lemma_count_push(s@.take(i as int), s@[i as int], ',');
            lemma_count_push(s@.take(i as int), s@[i as int], ';');
            lemma_count_push(s@.take(i as int), s@[i as int], '\t');
        }
        let c = s[i];
        if c == ',' {
            a = a + 1;
        } else if c == ';' {
            b = b + 1;
        } else if c == '\t' {
            t = t + 1;
        }
        i = i + 1;
    }
    assert(s@.take(n as int) =~= s@);
    let mut best = ',';
    let mut best_count = 0usize;
    if a > best_count {
        best_count = a;
        best = ',';
    }
    if b > best_count {
        best_count = b;
        best = ';';
    }
    if t > best_count {
        best = '\t';
    }
    best
}

/// Pick the most common separator of `,` `;` TAB in the sample.
pub fn sniff_delimiter(sample: &str) -> (r: char)
    ensures
        r == sniff(sample@),
{
    let v = chars_of(sample);
    sniff_chars(&v)
}

fn split_row_chars(l: &Vec<char>, d: char) -> (r: Vec<Vec<char>>)
    ensures
        row_view(r@) == split_row(l@, d),
{
    let pieces = split_chars(l, d);
    let ghost pv = pieces@.map_values(|p: Vec<char>| p@);
    let n = pieces.len();
    let mut out: Vec<Vec<char>> = Vec::new();
    let mut i: usize = 0;
    while i < n
        invariant
            n == pieces@.len(),
            pv == pieces@.map_values(|p: Vec<char>| p@),
            pv == split_on(l@, d),
            i <= n,
            row_view(out@) == pv.take(i as int).map_values(|c: Seq<char>| trim(c)),
        decreases n - i,
    {
        let c = trim_chars(&pieces[i]);
        let ghost o0 = row_view(out@);
        out.push(c);
        assert(row_view(out@) =~= o0.push(trim(pv[i as int])));
        assert(pv.take(i + 1).map_values(|c: Seq<char>| trim(c)) =~= pv.take(i as int).map_values(
            |c: Seq<char>| trim(c),
        ).push(trim(pv[i as int])));
        i = i + 1;
    }
    assert(pv.take(n as int) =~= pv);
    out
}

fn rows_of_lines(ls: &Vec<Vec<char>>, d: char) -> (r: Vec<Vec<Vec<char>>>)
    ensures
        table_view(r@) == row_view(ls@).map_values(|l: Seq<char>| split_row(l, d)),
{
    let ghost lv = row_view(ls@);
    let n = ls.len();
    let mut out: Vec<Vec<Vec<char>>> = Vec::new();
    let mut i: usize = 0;
    while i < n
        invariant
            n == ls@.len(),
            lv == row_view(ls@),
            i <= n,
            table_view(out@) == lv.take(i as int).map_values(|l: Seq<char>| split_row(l, d)),
        decreases n - i,
    {
        let r = split_row_chars(&ls[i], d);
        let ghost o0 = table_view(out@);
        out.push(r);
        assert(table_view(out@) =~= o0.push(split_row(lv[i as int], d)));
        assert(lv.take(i + 1).map_values(|l: Seq<char>| split_row(l, d)) =~= lv.take(
            i as int,
        ).map_values(|l: Seq<char>| split_row(l, d)).push(split_row(lv[i as int], d)));
        i = i + 1;
    }
    assert(lv.take(n as int) =~= lv);
    out
}

fn table_rows_chars(text: &Vec<char>, d: char) -> (r: Vec<Vec<Vec<char>>>)
    ensures
        table_view(r@) == table_rows(text@, d),
{
    let ls = lines_of(text);
    assert(row_view(ls@) =~= ls@.map_values(|p: Vec<char>| p@));
    let nb = nonblank_lines(&ls);
    rows_of_lines(&nb, d)
}

fn strings_of_row(r: &Vec<Vec<char>>) -> (out: Vec<String>)
    ensures
        views(out@) == row_view(r@),
{
    let out = crate::text::strings_of(r);
    assert(views(out@) =~= row_view(r@));
    out
}

/// Split `text` into rows of trimmed cells on `delimiter`, dropping blank
/// lines.
pub fn split_rows(text: &str, delimiter: char) -> (r: Vec<Vec<String>>)
    ensures
        string_table_view(r@) == table_rows(text@, delimiter),
{
    let v = chars_of(text);
    let t = table_rows_chars(&v, delimiter);
    let ghost tv = table_view(t@);
    let n = t.len();
    let mut out: Vec<Vec<String>> = Vec::new();
    let mut i: usize = 0;
    while i < n
        invariant
            n == t@.len(),
            tv == table_view(t@),
            i <= n,
            string_table_view(out@) == tv.take(i as int),
        decreases n - i,
    {
        let row = strings_of_row(&t[i]);
        let ghost o0 = string_table_view(out@);
        out.push(row);
        assert(string_table_view(out@) =~= o0.push(tv[i as int]));
        assert(tv.take(i + 1) =~= tv.take(i as int).push(tv[i as int]));
        i = i + 1;
    }
    assert(tv.take(n as int) =~= tv);
    out
}

// ---------------------------------------------------------------------------
// Header anchoring
// ---------------------------------------------------------------------------

/// A VCDS data column id: after trimming, three ASCII digits, `'-'`, and
/// one or more ASCII digits (`"001-1"`, `"011-4"`, `"999-12"`).
pub open spec fn nnn_k_shape(token: Seq<char>) -> bool {
    let t = trim(token);
    &&& t.len() >= 5
    &&& is_digit(t[0])
    &&& is_digit(t[1])
    &&& is_digit(t[2])
    &&& t[3] == '-'
    &&& forall|k: int| 4 <= k < t.len() ==> is_digit(#[trigger] t[k])
}

fn nnn_k_chars(token: &Vec<char>) -> (r: bool)
    ensures
        r == nnn_k_shape(token@),
{
    let t = trim_chars(token);
    let n = t.len();
    if n < 5 || !is_ascii_digit(t[0]) || !is_ascii_digit(t[1]) || !is_ascii_digit(t[2]) || t[3]
        != '-' {
        return false;
    }
    let mut k: usize = 4;
    while k < n
        invariant
            n == t@.len(),
            t@ == trim(token@),
            4 <= k <= n,
            forall|j: int| 4 <= j < k ==> is_digit(#[trigger] t@[j]),
        decreases n - k,
    {
        if !is_ascii_digit(t[k]) {
            assert(!is_digit(t@[k as int]));
            return false;
        }
        k = k + 1;
    }
    true
}

/// Match a VCDS data column id like `"001-1"` or `"011-4"`.
pub fn is_nnn_k(token: &str) -> (r: bool)
    ensures
        r == nnn_k_shape(token@),
{
    let v = chars_of(token);
    nnn_k_chars(&v)
}

/// Number of `NNN-K` cells in a row.
pub open spec fn count_nnn(row: Seq<Seq<char>>) -> nat
    decreases row.len(),
{
    if row.len() == 0 {
        0
    } else {
        count_nnn(row.drop_last()) + if nnn_k_shape(row.last()) {
            1nat
        } else {
            0nat
        }
    }
}

/// The data column header: a row with at least three `NNN-K` cells.
pub open spec fn is_header_row(row: Seq<Seq<char>>) -> bool {
    count_nnn(row) >= 3
}

/// Index of the first header row, if any.
pub open spec fn header_index(rows: Seq<Seq<Seq<char>>>) -> Option<int>
    decreases rows.len(),
{
    if rows.len() == 0 {
        None
    } else {
        match header_index(rows.drop_last()) {
            Some(i) => Some(i),
            None => if is_header_row(rows.last()) {
                Some(rows.len() - 1)
            } else {
                None
            },
        }
    }
}

fn count_nnn_chars(row: &Vec<Vec<char>>) -> (r: usize)
    ensures
        r == count_nnn(row_view(row@)),
{
    let ghost rv = row_view(row@);
    let n = row.len();
    let mut c: usize = 0;
    let mut i: usize = 0;
    while i < n
        invariant
            n == row@.len(),
            rv == row_view(row@),
            i <= n,
            c <= i,
            c == count_nnn(rv.take(i as int)),
        decreases n - i,
    {
        assert(rv.take(i + 1).drop_last() =~= rv.take(i as int));
        assert(rv.take(i + 1).last() == row@[i as int]@);
        if nnn_k_chars(&row[i]) {
            c = c + 1;
        }
        i = i + 1;
    }
    assert(rv.take(n as int) =~= rv);
    c
}

fn header_index_chars(rows: &Vec<Vec<Vec<char>>>) -> (r: Option<usize>)
    ensures
        match r {
            Some(i) => header_index(table_view(rows@)) == Some(i as int),
            None => header_index(table_view(rows@)) is None,
        },
{
    let ghost tv = table_view(rows@);
    let n = rows.len();
    let mut i: usize = 0;
    while i < n
        invariant
            n == rows@.len(),
            tv == table_view(rows@),
            i <= n,
            header_index(tv.take(i as int)) is None,
        decreases n - i,
    {
        assert(tv.take(i + 1).drop_last() =~= tv.take(i as int));
        assert(tv.take(i + 1).last() == row_view(rows@[i as int]@));
        if count_nnn_chars(&rows[i]) >= 3 {
            proof {
                lemma_header_index_prefix(tv, i + 1);
            }
            return Some(i);
        }
        i = i + 1;
    }
    assert(tv.take(n as int) =~= tv);
    None
}

proof fn lemma_header_index_prefix(rows: Seq<Seq<Seq<char>>>, k: int)
    requires
        0 <= k <= rows.len(),
        header_index(rows.take(k)) is Some,
    ensures
        header_index(rows) == header_index(rows.take(k)),
    decreases rows.len() - k,
{
    if k < rows.len() {
        assert(rows.take(k + 1).drop_last() =~= rows.take(k));
        lemma_header_index_prefix(rows, k + 1);
    } else {
        assert(rows.take(k) =~= rows);
    }
}

fn row_chars(row: &Vec<String>) -> (r: Vec<Vec<char>>)
    ensures
        row_view(r@) == views(row@),
{
    let n = row.len();
    let mut out: Vec<Vec<char>> = Vec::new();
    let mut i: usize = 0;
    while i < n
        invariant
            n == row@.len(),
            i <= n,
            row_view(out@) == views(row@).take(i as int),
        decreases n - i,
    {
        let c = chars_of(row[i].as_str());
        let ghost o0 = row_view(out@);
        out.push(c);
        assert(row_view(out@) =~= o0.push(row@[i as int]@));
        assert(views(row@).take(i + 1) =~= views(row@).take(i as int).push(row@[i as int]@));
        i = i + 1;
    }
    assert(views(row@).take(n as int) =~= views(row@));
    out
}

/// Locate the data column header: the first row with at least three
/// `NNN-K` cells.
pub fn find_data_header_row(rows: &[Vec<String>]) -> (r: Result<usize, Error>)
    ensures
        match r {
            Ok(i) => header_index(string_table_view(rows@)) == Some(i as int),
            Err(e) => e is NotVcds && header_index(string_table_view(rows@)) is None,
        },
{
    let n = rows.len();
    let mut t: Vec<Vec<Vec<char>>> = Vec::new();
    let mut i: usize = 0;
    while i < n
        invariant
            n == rows@.len(),
            i <= n,
            table_view(t@) == string_table_view(rows@).take(i as int),
        decreases n - i,
    {
        let r = row_chars(&rows[i]);
        let ghost t0 = table_view(t@);
        t.push(r);
        assert(table_view(t@) =~= t0.push(views(rows@[i as int]@)));
        assert(string_table_view(rows@).take(i + 1) =~= string_table_view(rows@).take(i as int).push(
            views(rows@[i as int]@),
        ));
        i = i + 1;
    }
    assert(string_table_view(rows@).take(n as int) =~= string_table_view(rows@));
    match header_index_chars(&t) {
        Some(h) => Ok(h),
        None => Err(Error::NotVcds),
    }
}

// ---------------------------------------------------------------------------
// Locale and number texts
// ---------------------------------------------------------------------------

/// EU locale: `;`-separated, and the sample has commas but no decimal
/// point before its first comma.
pub open spec fn eu_locale(sample: Seq<char>, d: char) -> bool {
    &&& d == ';'
    &&& sample.contains(',')
    &&& !split_on(sample, ',')[0].contains('.')
}

fn contains_char(v: &Vec<char>, c: char) -> (r: bool)
    ensures
        r == v@.contains(c),
{
    let n = v.len();
    let mut i: usize = 0;
    while i < n
        invariant
            n == v@.len(),
            i <= n,
            forall|k: int| 0 <= k < i ==> #[trigger] v@[k] != c,
        decreases n - i,
    {
        if v[i] == c {
            assert(v@[i as int] == c);
            return true;
        }
        i = i + 1;
    }
    false
}

fn eu_locale_chars(sample: &Vec<char>, d: char) -> (r: bool)
    ensures
        r == eu_locale(sample@, d),
{
    if d != ';' {
        return false;
    }
    let pieces = split_chars(sample, ',');
    assert(pieces@.map_values(|p: Vec<char>| p@)[0] == pieces@[0]@);
    contains_char(sample, ',') && !contains_char(&pieces[0], '.')
}

/// Treat as EU locale only if the separator is `;` and the sample has
/// commas but no decimal point in its first comma-separated field.
pub fn is_eu_locale(sample_data_row: &str, delimiter: char) -> (r: bool)
    ensures
        r == eu_locale(sample_data_row@, delimiter),
{
    let v = chars_of(sample_data_row);
    eu_locale_chars(&v, delimiter)
}

/// `s` without leading `'"'` characters.
pub open spec fn trim_quotes_start(s: Seq<char>) -> Seq<char>
    decreases s.len(),
{
    if s.len() > 0 && s[0] == '"' {
        trim_quotes_start(s.drop_first())
    } else {
        s
    }
}

/// `s` without trailing `'"'` characters.
pub open spec fn trim_quotes_end(s: Seq<char>) -> Seq<char>
    decreases s.len(),
{
    if s.len() > 0 && s.last() == '"' {
        trim_quotes_end(s.drop_last())
    } else {
        s
    }
}

/// `s` with every `c` removed.
pub open spec fn remove_char(s: Seq<char>, c: char) -> Seq<char>
    decreases s.len(),
{
    if s.len() == 0 {
        Seq::empty()
    } else {
        let p = remove_char(s.drop_last(), c);
        if s.last() == c {
            p
        } else {
            p.push(s.last())
        }
    }
}

/// `s` with every `a` replaced by `b`.
pub open spec fn replace_char(s: Seq<char>, a: char, b: char) -> Seq<char> {
    s.map_values(|x: char| if x == a { b } else { x })
}

/// The number text of a cell: trimmed of whitespace and then of quotes;
/// `None` when nothing is left. In EU locale thousands dots are dropped
/// and the decimal comma becomes a point.
pub open spec fn number_text(cell: Seq<char>, eu: bool) -> Option<Seq<char>> {
    let t = trim_quotes_end(trim_quotes_start(trim(cell)));
    if t.len() == 0 {
        None
    } else if eu {
        Some(replace_char(remove_char(t, '.'), ',', '.'))
    } else {
        Some(t)
    }
}

fn number_text_chars(cell: &Vec<char>, eu: bool) -> (r: Option<Vec<char>>)
    ensures
        match r {
            Some(v) => number_text(cell@, eu) == Some(v@),
            None => number_text(cell@, eu) is None,
        },
{
    let t = trim_chars(cell);
    let n = t.len();
    let mut lo: usize = 0;
    assert(t@.skip(0) =~= t@);
    while lo < n && t[lo] == '"'
        invariant
            n == t@.len(),
            lo <= n,
            trim_quotes_start(t@) == trim_quotes_start(t@.skip(lo as int)),
        decreases n - lo,
    {
        assert(t@.skip(lo as int).drop_first() =~= t@.skip(lo + 1));
        lo = lo + 1;
    }
    assert(t@.skip(0) =~= t@);
    let ghost a = t@.skip(lo as int);
    assert(trim_quotes_start(a) == a);
    let mut hi: usize = n;
    assert(a.take(n - lo) =~= a);
    while hi > lo && t[hi - 1] == '"'
        invariant
            n == t@.len(),
            lo <= hi <= n,
            a == t@.skip(lo as int),
            trim_quotes_end(a) == trim_quotes_end(a.take(hi - lo)),
        decreases hi - lo,
    {
        assert(a.take(hi - lo).drop_last() =~= a.take(hi - lo - 1));
        assert(a.take(hi - lo).last() == t@[hi - 1]);
        hi = hi - 1;
    }
    let u = crate::text::sub_chars(&t, lo, hi);
    assert(u@ =~= a.take(hi - lo));
    assert(trim_quotes_end(u@) == u@) by {
        if u@.len() > 0 {
            assert(u@.last() == t@[hi - 1]);
        }
    }
    if u.len() == 0 {
        return None;
    }
    if !eu {
        return Some(u);
    }
    let m = u.len();
    let mut out: Vec<char> = Vec::new();
    let mut i: usize = 0;
    while i < m
        invariant
            m == u@.len(),
            i <= m,
            out@ == replace_char(remove_char(u@.take(i as int), '.'), ',', '.'),
        decreases m - i,
    {
        let ghost o0 = out@;
        assert(u@.take(i + 1).drop_last() =~= u@.take(i as int));
        assert(u@.take(i + 1).last() == u@[i as int]);
        let c = u[i];
        if c != '.' {
            if c == ',' {
                out.push('.');
            } else {
                out.push(c);
            }
            assert(out@ =~= replace_char(remove_char(u@.take(i as int), '.').push(c), ',', '.'));
        }
        i = i + 1;
    }
    assert(u@.take(m as int) =~= u@);
    Some(out)
}

/// The number text of a cell (see [`number_text`]): what the caller
/// parses as a float; `None` stands for a missing value.
pub fn clean_number(cell: &str, eu: bool) -> (r: Option<String>)
    ensures
        match r {
            Some(s) => number_text(cell@, eu) == Some(s@),
            None => number_text(cell@, eu) is None,
        },
{
    let v = chars_of(cell);
    match number_text_chars(&v, eu) {
        Some(t) => Some(string_of(&t)),
        None => None,
    }
}

// ---------------------------------------------------------------------------
// Header scan, label rows and sample rows
// ---------------------------------------------------------------------------

/// A `TIME` cell (ASCII case-insensitive).
pub open spec fn is_time_label(cell: Seq<char>) -> bool {
    crate::text::upper_seq(cell) == seq!['T', 'I', 'M', 'E']
}

/// The position of the last `TIME` cell of the header, if any.
pub open spec fn time_column(header: Seq<Seq<char>>) -> Option<int>
    decreases header.len(),
{
    if header.len() == 0 {
        None
    } else if is_time_label(header.last()) {
        Some(header.len() - 1)
    } else {
        time_column(header.drop_last())
    }
}

/// Positions of the `NNN-K` cells of the header, ascending.
pub open spec fn nnn_positions(header: Seq<Seq<char>>) -> Seq<int>
    decreases header.len(),
{
    if header.len() == 0 {
        Seq::empty()
    } else {
        let p = nnn_positions(header.drop_last());
        if !is_time_label(header.last()) && nnn_k_shape(header.last()) {
            p.push(header.len() - 1)
        } else {
            p
        }
    }
}

/// The header cells at `pos`.
pub open spec fn ids_at(header: Seq<Seq<char>>, pos: Seq<int>) -> Seq<Seq<char>> {
    pos.map_values(|p: int| header[p])
}

/// `(id, label)` for every position that the label row reaches.
pub open spec fn labels_from(cand: Seq<Seq<char>>, pos: Seq<int>, ids: Seq<Seq<char>>) -> Seq<
    (Seq<char>, Seq<char>),
>
    decreases pos.len(),
{
    if pos.len() == 0 {
        Seq::empty()
    } else {
        let p = labels_from(cand, pos.drop_last(), ids.drop_last());
        if pos.last() < cand.len() {
            p.push((ids.last(), cand[pos.last()]))
        } else {
            p
        }
    }
}

/// The labels of the row `offset` rows above the header `h`, when that row
/// exists and has at least one cell fewer than the header.
pub open spec fn header_labels(
    rows: Seq<Seq<Seq<char>>>,
    h: int,
    offset: int,
    pos: Seq<int>,
    ids: Seq<Seq<char>>,
) -> Seq<(Seq<char>, Seq<char>)> {
    if h >= offset && rows[h - offset].len() + 1 >= rows[h].len() {
        labels_from(rows[h - offset], pos, ids)
    } else {
        Seq::empty()
    }
}

/// The canonical column of the first mapping whose id is `id`.
pub open spec fn find_target(m: Seq<(Seq<char>, Seq<char>)>, id: Seq<char>) -> Option<Seq<char>>
    decreases m.len(),
{
    if m.len() == 0 {
        None
    } else if m[0].0 == id {
        Some(m[0].1)
    } else {
        find_target(m.drop_first(), id)
    }
}

/// The column each header id feeds.
pub open spec fn targets_of(m: Seq<(Seq<char>, Seq<char>)>, ids: Seq<Seq<char>>) -> Seq<
    Option<Seq<char>>,
> {
    ids.map_values(|id: Seq<char>| find_target(m, id))
}

/// The number text of cell `j` of a row, `None` past its end.
pub open spec fn cell_text(r: Seq<Seq<char>>, j: int, eu: bool) -> Option<Seq<char>> {
    if 0 <= j < r.len() {
        number_text(r[j], eu)
    } else {
        None
    }
}

/// The value texts of a data row, one per `NNN-K` position; `None` where
/// the position feeds no column.
pub open spec fn row_values(
    r: Seq<Seq<char>>,
    pos: Seq<int>,
    tg: Seq<Option<Seq<char>>>,
    eu: bool,
) -> Seq<Option<Seq<char>>> {
    Seq::new(pos.len(), |k: int| if tg[k] is Some { cell_text(r, pos[k], eu) } else { None })
}

/// `(time text, value texts)` of every data row that reaches the time
/// column; nothing when there is no time column.
pub open spec fn samples(
    data: Seq<Seq<Seq<char>>>,
    ti: Option<int>,
    pos: Seq<int>,
    tg: Seq<Option<Seq<char>>>,
    eu: bool,
) -> Seq<(Option<Seq<char>>, Seq<Option<Seq<char>>>)>
    decreases data.len(),
{
    match ti {
        None => Seq::empty(),
        Some(t) => if data.len() == 0 {
            Seq::empty()
        } else {
            let p = samples(data.drop_last(), ti, pos, tg, eu);
            if data.last().len() > t {
                p.push((number_text(data.last()[t], eu), row_values(data.last(), pos, tg, eu)))
            } else {
                p
            }
        },
    }
}

/// One soft warning surfaced from the parser.
#[derive(Debug, Clone)]
pub struct ParseWarning {
    /// Short machine-readable code (e.g. `"LOW_RATE"`).
    pub code: String,
    /// Human-readable explanation.
    pub message: String,
}

/// A data row that reaches the time column.
#[derive(Debug, Clone)]
pub struct TableRow {
    /// Number text of the time cell.
    pub time: Option<String>,
    /// Number text of each `NNN-K` cell, in header order; `None` for a
    /// missing value or a column that feeds nothing.
    pub values: Vec<Option<String>>,
}

/// A VCDS export located and split into cells.
#[derive(Debug, Clone)]
pub struct VcdsTable {
    /// The sniffed delimiter.
    pub delimiter: char,
    /// Whether the values are in EU locale.
    pub eu: bool,
    /// Index of the header row among the non-blank rows.
    pub header_index: usize,
    /// Position of the `TIME` column, if any.
    pub time_column: Option<usize>,
    /// Positions of the `NNN-K` columns.
    pub nnn_positions: Vec<usize>,
    /// The `NNN-K` ids, in header order.
    pub nnn_ids: Vec<String>,
    /// Recognised columns and their canonical names.
    pub mapped: Vec<MappedColumn>,
    /// `NNN-K` columns that were not recognised.
    pub unmapped: Vec<String>,
    /// VCDS groups present, ascending.
    pub groups: Vec<String>,
    /// `(id, field name)` from the row two above the header, in order.
    pub field_names: Vec<(String, String)>,
    /// `(id, unit)` from the row above the header, in order.
    pub units: Vec<(String, String)>,
    /// The canonical column each `NNN-K` position feeds, if any.
    pub targets: Vec<Option<String>>,
    /// The data rows that reach the time column.
    pub rows: Vec<TableRow>,
}

/// Integer view of an optional index.
pub open spec fn opt_int(o: Option<usize>) -> Option<int> {
    match o {
        Some(i) => Some(i as int),
        None => None,
    }
}

/// Integer view of a list of indices.
pub open spec fn positions_view(v: Seq<usize>) -> Seq<int> {
    v.map_values(|p: usize| p as int)
}

/// Character views of `(id, label)` pairs.
pub open spec fn pairs_view(v: Seq<(String, String)>) -> Seq<(Seq<char>, Seq<char>)> {
    v.map_values(|p: (String, String)| (p.0@, p.1@))
}

/// Character views of optional strings.
pub open spec fn opts_view(v: Seq<Option<String>>) -> Seq<Option<Seq<char>>> {
    v.map_values(|o: Option<String>| opt_view(o))
}

/// Character view of a sample row.
pub open spec fn sample_view(r: TableRow) -> (Option<Seq<char>>, Seq<Option<Seq<char>>>) {
    (opt_view(r.time), opts_view(r.values@))
}

/// Character views of sample rows.
pub open spec fn samples_view(v: Seq<TableRow>) -> Seq<(Option<Seq<char>>, Seq<Option<Seq<char>>>)> {
    v.map_values(|r: TableRow| sample_view(r))
}

fn is_time_chars(cell: &Vec<char>) -> (r: bool)
    ensures
        r == is_time_label(cell@),
{
    let u = crate::text::upper_chars(cell);
    let r = u.len() == 4 && u[0] == 'T' && u[1] == 'I' && u[2] == 'M' && u[3] == 'E';
    if r {
        assert(u@ =~= seq!['T', 'I', 'M', 'E']);
    }
    r
}

fn header_scan(header: &Vec<Vec<char>>) -> (r: (Option<usize>, Vec<usize>))
    ensures
        opt_int(r.0) == time_column(row_view(header@)),
        positions_view(r.1@) == nnn_positions(row_view(header@)),
        forall|k: int| 0 <= k < r.1@.len() ==> #[trigger] r.1@[k] < header@.len(),
{
    let ghost hv = row_view(header@);
    let n = header.len();
    let mut time: Option<usize> = None;
    let mut pos: Vec<usize> = Vec::new();
    let mut i: usize = 0;
    while i < n
        invariant
            n == header@.len(),
            hv == row_view(header@),
            i <= n,
            opt_int(time) == time_column(hv.take(i as int)),
            positions_view(pos@) == nnn_positions(hv.take(i as int)),
            forall|k: int| 0 <= k < pos@.len() ==> #[trigger] pos@[k] < i,
        decreases n - i,
    {
        assert(hv.take(i + 1).drop_last() =~= hv.take(i as int));
        assert(hv.take(i + 1).last() == header@[i as int]@);
        if is_time_chars(&header[i]) {
            time = Some(i);
        } else if nnn_k_chars(&header[i]) {
            let ghost p0 = positions_view(pos@);
            pos.push(i);
            assert(positions_view(pos@) =~= p0.push(i as int));
        }
        i = i + 1;
    }
    assert(hv.take(n as int) =~= hv);
    (time, pos)
}

fn ids_at_chars(header: &Vec<Vec<char>>, pos: &Vec<usize>) -> (r: Vec<String>)
    requires
        forall|k: int| 0 <= k < pos@.len() ==> #[trigger] pos@[k] < header@.len(),
    ensures
        views(r@) == ids_at(row_view(header@), positions_view(pos@)),
{
    let n = pos.len();
    let mut out: Vec<String> = Vec::new();
    let mut i: usize = 0;
    while i < n
        invariant
            n == pos@.len(),
            forall|k: int| 0 <= k < pos@.len() ==> #[trigger] pos@[k] < header@.len(),
            i <= n,
            views(out@) == ids_at(row_view(header@), positions_view(pos@)).take(i as int),
        decreases n - i,
    {
        let ghost o0 = views(out@);
        let p = pos[i];
        out.push(string_of(&header[p]));
        assert(views(out@) =~= o0.push(header@[p as int]@));
        assert(ids_at(row_view(header@), positions_view(pos@)).take(i + 1) =~= ids_at(
            row_view(header@),
            positions_view(pos@),
        ).take(i as int).push(header@[p as int]@));
        i = i + 1;
    }
    assert(ids_at(row_view(header@), positions_view(pos@)).take(n as int) =~= ids_at(
        row_view(header@),
        positions_view(pos@),
    ));
    out
}

fn labels_chars(cand: &Vec<Vec<char>>, pos: &Vec<usize>, ids: &Vec<String>) -> (r: Vec<
    (String, String),
>)
    requires
        pos@.len() == ids@.len(),
    ensures
        pairs_view(r@) == labels_from(row_view(cand@), positions_view(pos@), views(ids@)),
{
    let ghost cv = row_view(cand@);
    let ghost pv = positions_view(pos@);
    let ghost iv = views(ids@);
    let n = pos.len();
    let mut out: Vec<(String, String)> = Vec::new();
    let mut i: usize = 0;
    while i < n
        invariant
            n == pos@.len(),
            n == ids@.len(),
            cv == row_view(cand@),
            pv == positions_view(pos@),
            iv == views(ids@),
            i <= n,
            pairs_view(out@) == labels_from(cv, pv.take(i as int), iv.take(i as int)),
        decreases n - i,
    {
        assert(pv.take(i + 1).drop_last() =~= pv.take(i as int));
        assert(iv.take(i + 1).drop_last() =~= iv.take(i as int));
        assert(pv.take(i + 1).last() == pos@[i as int] as int);
        assert(iv.take(i + 1).last() == ids@[i as int]@);
        let p = pos[i];
        if p < cand.len() {
            let ghost o0 = pairs_view(out@);
            let id = ids[i].clone();
            let label = string_of(&cand[p]);
            out.push((id, label));
            assert(pairs_view(out@) =~= o0.push((ids@[i as int]@, cand@[p as int]@)));
        }
        i = i + 1;
    }
    assert(pv.take(n as int) =~= pv);
    assert(iv.take(n as int) =~= iv);
    out
}

fn header_labels_chars(
    rows: &Vec<Vec<Vec<char>>>,
    h: usize,
    offset: usize,
    pos: &Vec<usize>,
    ids: &Vec<String>,
) -> (r: Vec<(String, String)>)
    requires
        h < rows@.len(),
        pos@.len() == ids@.len(),
    ensures
        pairs_view(r@) == header_labels(
            table_view(rows@),
            h as int,
            offset as int,
            positions_view(pos@),
            views(ids@),
        ),
{
    let hl = rows[h].len();
    if h >= offset {
        let cand = &rows[h - offset];
        assert(table_view(rows@)[h - offset] == row_view(cand@));
        assert(table_view(rows@)[h as int] == row_view(rows@[h as int]@));
        if hl == 0 || cand.len() >= hl - 1 {
            return labels_chars(cand, pos, ids);
        }
    }
    Vec::new()
}

fn targets_chars(mapped: &Vec<MappedColumn>, ids: &Vec<String>) -> (r: Vec<Option<String>>)
    ensures
        opts_view(r@) == targets_of(mapped_view(mapped@), views(ids@)),
{
    let ghost m = mapped_view(mapped@);
    let ghost iv = views(ids@);
    let n = ids.len();
    let mut out: Vec<Option<String>> = Vec::new();
    let mut k: usize = 0;
    while k < n
        invariant
            n == ids@.len(),
            m == mapped_view(mapped@),
            iv == views(ids@),
            k <= n,
            opts_view(out@) == targets_of(m, iv).take(k as int),
        decreases n - k,
    {
        let mut found: Option<String> = None;
        let mm = mapped.len();
        let mut j: usize = 0;
        let mut stop = false;
        assert(m.skip(0) =~= m);
        while j < mm && !stop
            invariant
                mm == mapped@.len(),
                m == mapped_view(mapped@),
                k < n,
                n == ids@.len(),
                iv == views(ids@),
                j <= mm,
                !stop ==> find_target(m, iv[k as int]) == find_target(m.skip(j as int), iv[k as int]),
                !stop ==> found is None,
                stop ==> opt_view(found) == find_target(m, iv[k as int]),
            decreases mm - j, (if stop { 0int } else { 1int }),
        {
            assert(m.skip(j as int)[0] == m[j as int]);
            assert(m.skip(j as int).drop_first() =~= m.skip(j + 1));
            if str_eq(mapped[j].gfid.as_str(), ids[k].as_str()) {
                found = Some(mapped[j].canonical.clone());
                stop = true;
            } else {
                j = j + 1;
            }
        }
        if !stop {
            assert(m.skip(j as int).len() == 0);
        }
        let ghost o0 = opts_view(out@);
        out.push(found);
        assert(opts_view(out@) =~= o0.push(find_target(m, iv[k as int])));
        assert(targets_of(m, iv).take(k + 1) =~= targets_of(m, iv).take(k as int).push(
            find_target(m, iv[k as int]),
        ));
        k = k + 1;
    }
    assert(targets_of(m, iv).take(n as int) =~= targets_of(m, iv));
    out
}

fn opt_string(o: Option<Vec<char>>) -> (r: Option<String>)
    ensures
        opt_view(r) == match o {
            Some(v) => Some(v@),
            None => None::<Seq<char>>,
        },
{
    match o {
        Some(v) => Some(string_of(&v)),
        None => None,
    }
}

fn row_values_chars(
    r: &Vec<Vec<char>>,
    pos: &Vec<usize>,
    tg: &Vec<Option<String>>,
    eu: bool,
) -> (out: Vec<Option<String>>)
    requires
        pos@.len() == tg@.len(),
    ensures
        opts_view(out@) == row_values(row_view(r@), positions_view(pos@), opts_view(tg@), eu),
{
    let ghost want = row_values(row_view(r@), positions_view(pos@), opts_view(tg@), eu);
    let n = pos.len();
    let mut out: Vec<Option<String>> = Vec::new();
    let mut k: usize = 0;
    while k < n
        invariant
            n == pos@.len(),
            n == tg@.len(),
            want == row_values(row_view(r@), positions_view(pos@), opts_view(tg@), eu),
            k <= n,
            opts_view(out@) == want.take(k as int),
        decreases n - k,
    {
        let ghost o0 = opts_view(out@);
        let p = pos[k];
        let v: Option<String> = if tg[k].is_some() && p < r.len() {
            assert(row_view(r@)[p as int] == r@[p as int]@);
            opt_string(number_text_chars(&r[p], eu))
        } else {
            None
        };
        assert(opts_view(tg@)[k as int] == opt_view(tg@[k as int]));
        assert(v is Some ==> tg@[k as int] is Some);
        out.push(v);
        assert(opts_view(out@) =~= o0.push(want[k as int]));
        assert(want.take(k + 1) =~= want.take(k as int).push(want[k as int]));
        k = k + 1;
    }
    assert(want.take(n as int) =~= want);
    out
}

fn sample_rows(
    rows: &Vec<Vec<Vec<char>>>,
    from: usize,
    ti: Option<usize>,
    pos: &Vec<usize>,
    tg: &Vec<Option<String>>,
    eu: bool,
) -> (out: Vec<TableRow>)
    requires
        from <= rows@.len(),
        pos@.len() == tg@.len(),
    ensures
        samples_view(out@) == samples(
            table_view(rows@).skip(from as int),
            opt_int(ti),
            positions_view(pos@),
            opts_view(tg@),
            eu,
        ),
{
    let ghost tv = table_view(rows@);
    let ghost pv = positions_view(pos@);
    let ghost gv = opts_view(tg@);
    let n = rows.len();
    let mut out: Vec<TableRow> = Vec::new();
    let t = match ti {
        Some(t) => t,
        None => {
            return out;
        },
    };
    let mut i: usize = from;
    assert(tv.subrange(from as int, from as int).len() == 0);
    while i < n
        invariant
            n == rows@.len(),
            tv == table_view(rows@),
            pv == positions_view(pos@),
            gv == opts_view(tg@),
            pos@.len() == tg@.len(),
            ti == Some(t),
            from <= i <= n,
            samples_view(out@) == samples(tv.subrange(from as int, i as int), opt_int(ti), pv, gv, eu),
        decreases n - i,
    {
        let ghost cur = tv.subrange(from as int, i + 1);
        assert(cur.drop_last() =~= tv.subrange(from as int, i as int));
        assert(cur.last() == row_view(rows@[i as int]@));
        let r = &rows[i];
        if r.len() > t {
            assert(row_view(r@)[t as int] == r@[t as int]@);
            let time = opt_string(number_text_chars(&r[t], eu));
            let values = row_values_chars(r, pos, tg, eu);
            let ghost o0 = samples_view(out@);
            out.push(TableRow { time, values });
            assert(samples_view(out@) =~= o0.push(
                (number_text(row_view(r@)[t as int], eu), row_values(row_view(r@), pv, gv, eu)),
            ));
        }
        i = i + 1;
    }
    assert(tv.subrange(from as int, n as int) =~= tv.skip(from as int));
    out
}

// ---------------------------------------------------------------------------
// The whole table
// ---------------------------------------------------------------------------

/// The non-blank lines of a log, byte-order mark removed.
pub open spec fn vcds_lines(raw: Seq<char>) -> Seq<Seq<char>> {
    nonblank(lines(strip_bom(raw)))
}

/// The first `k` lines, or all of them when there are fewer.
pub open spec fn first_lines(ls: Seq<Seq<char>>, k: int) -> Seq<Seq<char>> {
    if k < ls.len() {
        ls.take(k)
    } else {
        ls
    }
}

/// The delimiter of a log: sniffed from its first eight non-blank lines
/// joined by newlines.
pub open spec fn vcds_delimiter(raw: Seq<char>) -> char {
    sniff(join_with(first_lines(vcds_lines(raw), 8), '\n'))
}

/// The cell rows of a log.
pub open spec fn vcds_rows(raw: Seq<char>) -> Seq<Seq<Seq<char>>> {
    table_rows(strip_bom(raw), vcds_delimiter(raw))
}

/// EU locale, judged on the first data row after the header `h`.
pub open spec fn data_eu(rows: Seq<Seq<Seq<char>>>, h: int, d: char) -> bool {
    if h + 1 < rows.len() {
        eu_locale(join_with(rows[h + 1], d), d)
    } else {
        false
    }
}

/// `t` is the table read from `raw`.
pub open spec fn table_of(raw: Seq<char>, t: VcdsTable) -> bool {
    let rows = vcds_rows(raw);
    let d = vcds_delimiter(raw);
    let h = t.header_index as int;
    let header = rows[h];
    let pos = nnn_positions(header);
    let ids = ids_at(header, pos);
    let cm = column_map(ids);
    let tg = targets_of(cm.0, ids);
    &&& header_index(rows) == Some(h)
    &&& t.delimiter == d
    &&& t.eu == data_eu(rows, h, d)
    &&& opt_int(t.time_column) == time_column(header)
    &&& positions_view(t.nnn_positions@) == pos
    &&& views(t.nnn_ids@) == ids
    &&& mapped_view(t.mapped@) == cm.0
    &&& views(t.unmapped@) == cm.1
    &&& strictly_sorted(views(t.groups@))
    &&& views(t.groups@).to_set() == group_set(ids)
    &&& pairs_view(t.field_names@) == header_labels(rows, h, 2, pos, ids)
    &&& pairs_view(t.units@) == header_labels(rows, h, 1, pos, ids)
    &&& opts_view(t.targets@) == tg
    &&& samples_view(t.rows@) == samples(rows.skip(h + 1), time_column(header), pos, tg, t.eu)
}

proof fn lemma_header_index_bounds(rows: Seq<Seq<Seq<char>>>)
    ensures
        match header_index(rows) {
            Some(i) => 0 <= i < rows.len() && is_header_row(rows[i]),
            None => true,
        },
    decreases rows.len(),
{
    if rows.len() > 0 {
        lemma_header_index_bounds(rows.drop_last());
    }
}

proof fn lemma_find_target_entry(m: Seq<(Seq<char>, Seq<char>)>, id: Seq<char>)
    ensures
        find_target(m, id) matches Some(t) ==> exists|j: int| 0 <= j < m.len() && #[trigger] m[j] == (id, t),
        find_target(m, id) is None ==> forall|j: int| 0 <= j < m.len() ==> (#[trigger] m[j]).0 != id,
    decreases m.len(),
{
    if m.len() > 0 && m[0].0 != id {
        let r = m.drop_first();
        lemma_find_target_entry(r, id);
        if let Some(t) = find_target(m, id) {
            let j = choose|j: int| 0 <= j < r.len() && #[trigger] r[j] == (id, t);
            assert(m[j + 1] == r[j]);
        } else {
            assert forall|j: int| 0 <= j < m.len() implies (#[trigger] m[j]).0 != id by {
                if j > 0 {
                    assert(m[j] == r[j - 1]);
                }
            }
        }
    }
}

/// Each header id of a table feeds the very column the column map gave
/// that id (and nothing when the map left the id out), so two distinct
/// header ids never feed the same column: a channel logged in several
/// groups keeps its duplicates apart under their `__alt_<group>` names.
pub proof fn lemma_table_targets(raw: Seq<char>, t: VcdsTable)
    requires
        table_of(raw, t),
    ensures
        ({
            let ids = views(t.nnn_ids@);
            let m = mapped_view(t.mapped@);
            let tg = opts_view(t.targets@);
            &&& tg.len() == ids.len()
            &&& forall|k: int|
                0 <= k < ids.len() ==> match #[trigger] tg[k] {
                    Some(c) => exists|j: int| 0 <= j < m.len() && m[j] == (ids[k], c),
                    None => forall|j: int| 0 <= j < m.len() ==> m[j].0 != ids[k],
                }
            &&& (forall|a: int, b: int| 0 <= a < b < ids.len() ==> ids[a] != ids[b]) ==> forall|a: int, b: int|
                0 <= a < b < ids.len() && (#[trigger] tg[a]) is Some && (#[trigger] tg[b]) is Some ==> tg[a]
                    != tg[b]
        }),
{
    let ids = views(t.nnn_ids@);
    let m = mapped_view(t.mapped@);
    let tg = opts_view(t.targets@);
    assert(tg == targets_of(column_map(ids).0, ids));
    assert forall|k: int| 0 <= k < ids.len() implies match #[trigger] tg[k] {
        Some(c) => exists|j: int| 0 <= j < m.len() && m[j] == (ids[k], c),
        None => forall|j: int| 0 <= j < m.len() ==> m[j].0 != ids[k],
    } by {
        lemma_find_target_entry(m, ids[k]);
    }
    if forall|a: int, b: int| 0 <= a < b < ids.len() ==> ids[a] != ids[b] {
        lemma_column_names_distinct(ids);
        assert forall|a: int, b: int|
            0 <= a < b < ids.len() && (#[trigger] tg[a]) is Some && (#[trigger] tg[b]) is Some implies tg[a]
                != tg[b] by {
            lemma_find_target_entry(m, ids[a]);
            lemma_find_target_entry(m, ids[b]);
            let ca = tg[a]->0;
            let cb = tg[b]->0;
            let ja = choose|j: int| 0 <= j < m.len() && #[trigger] m[j] == (ids[a], ca);
            let jb = choose|j: int| 0 <= j < m.len() && #[trigger] m[j] == (ids[b], cb);
            assert(ja != jb);
            if ja < jb {
                assert(m[ja].1 != m[jb].1);
            } else {
                assert(m[jb].1 != m[ja].1);
            }
        }
    }
}

/// Read a VCDS export into a [`VcdsTable`]: strip a byte-order mark, sniff
/// the delimiter, split the non-blank lines into trimmed cells, anchor on
/// the data column header and collect the label rows and the data rows.
pub fn parse_vcds_table(raw: &str) -> (r: Result<VcdsTable, Error>)
    ensures
        match r {
            Ok(t) => table_of(raw@, t),
            Err(e) => e is NotVcds && header_index(vcds_rows(raw@)) is None,
        },
{
    let chars0 = chars_of(raw);
    let text = strip_bom_chars(&chars0);
    let ls = lines_of(&text);
    assert(row_view(ls@) =~= ls@.map_values(|p: Vec<char>| p@));
    let nb = nonblank_lines(&ls);
    let sample = join_first(&nb, 8, '\n');
    let d = sniff_chars(&sample);
    assert(row_view(nb@) == vcds_lines(raw@));
    assert(row_view(nb@).take(row_view(nb@).len() as int) =~= row_view(nb@));
    assert(d == vcds_delimiter(raw@));
    let rows = rows_of_lines(&nb, d);
    let ghost tv = table_view(rows@);
    assert(tv == vcds_rows(raw@));
    let h = match header_index_chars(&rows) {
        Some(h) => h,
        None => {
            return Err(Error::NotVcds);
        },
    };
    proof {
        lemma_header_index_bounds(tv);
    }
    assert(h < rows@.len());
    let eu = if h + 1 < rows.len() {
        let next = &rows[h + 1];
        let joined = join_first(next, next.len(), d);
        assert(row_view(next@).take(next@.len() as int) =~= row_view(next@));
        assert(tv[h + 1] == row_view(next@));
        eu_locale_chars(&joined, d)
    } else {
        false
    };
    let header = &rows[h];
    assert(tv[h as int] == row_view(header@));
    let (time_column, nnn_positions) = header_scan(header);
    let nnn_ids = ids_at_chars(header, &nnn_positions);
    let (mapped, unmapped) = build_column_map(nnn_ids.as_slice());
    let groups = groups_present(nnn_ids.as_slice());
    let field_names = header_labels_chars(&rows, h, 2, &nnn_positions, &nnn_ids);
    let units = header_labels_chars(&rows, h, 1, &nnn_positions, &nnn_ids);
    let targets = targets_chars(&mapped, &nnn_ids);
    assert(views(nnn_ids@).len() == nnn_ids@.len());
    assert(positions_view(nnn_positions@).len() == nnn_positions@.len());
    assert(opts_view(targets@).len() == targets@.len());
    let data = sample_rows(&rows, h + 1, time_column, &nnn_positions, &targets, eu);
    Ok(VcdsTable {
        delimiter: d,
        eu,
        header_index: h,
        time_column,
        nnn_positions,
        nnn_ids,
        mapped,
        unmapped,
        groups,
        field_names,
        units,
        targets,
        rows: data,
    })
}

// ---------------------------------------------------------------------------
// Required groups
// ---------------------------------------------------------------------------

/// The groups every pull analysis needs, in registry order.
pub open spec fn required_groups() -> Seq<Seq<char>> {
    Seq::new(3, |i: int| MIN_REQUIRED_GROUPS[i]@)
}

/// The entries of `req` that `groups` lacks, in order.
pub open spec fn missing_from(req: Seq<Seq<char>>, groups: Seq<Seq<char>>) -> Seq<Seq<char>>
    decreases req.len(),
{
    if req.len() == 0 {
        Seq::empty()
    } else {
        let p = missing_from(req.drop_last(), groups);
        if groups.contains(req.last()) {
            p
        } else {
            p.push(req.last())
        }
    }
}

pub fn contains_string(v: &[String], s: &str) -> (r: bool)
    ensures
        r == views(v@).contains(s@),
{
    let n = v.len();
    let mut i: usize = 0;
    while i < n
        invariant
            n == v@.len(),
            i <= n,
            forall|k: int| 0 <= k < i ==> #[trigger] views(v@)[k] != s@,
        decreases n - i,
    {
        if str_eq(v[i].as_str(), s) {
            assert(views(v@)[i as int] == s@);
            return true;
        }
        i = i + 1;
    }
    false
}

/// Required groups missing from `groups`, in registry order.
pub fn missing_required_groups(groups: &[String]) -> (r: Vec<String>)
    ensures
        views(r@) == missing_from(required_groups(), views(groups@)),
{
    let ghost req = required_groups();
    let mut out: Vec<String> = Vec::new();
    let mut i: usize = 0;
    while i < 3
        invariant
            req == required_groups(),
            i <= 3,
            views(out@) == missing_from(req.take(i as int), views(groups@)),
        decreases 3 - i,
    {
        assert(req.take(i + 1).drop_last() =~= req.take(i as int));
        assert(req.take(i + 1).last() == MIN_REQUIRED_GROUPS[i as int]@);
        let g = MIN_REQUIRED_GROUPS[i];
        if !contains_string(groups, g) {
            let ghost o0 = views(out@);
            out.push(String::from_str(g));
            assert(views(out@) =~= o0.push(g@));
        }
        i = i + 1;
    }
    assert(req.take(3) =~= req);
    out
}

/// Whether `groups` contains every required group.
pub fn has_required_groups(groups: &[String]) -> (r: bool)
    ensures
        r == forall|i: int| 0 <= i < 3 ==> views(groups@).contains(#[trigger] required_groups()[i]),
{
    let mut i: usize = 0;
    while i < 3
        invariant
            i <= 3,
            forall|k: int| 0 <= k < i ==> views(groups@).contains(#[trigger] required_groups()[k]),
        decreases 3 - i,
    {
        if !contains_string(groups, MIN_REQUIRED_GROUPS[i]) {
            assert(!views(groups@).contains(required_groups()[i as int]));
            return false;
        }
        i = i + 1;
    }
    true
}

/// `groups` has every required group exactly when none is missing.
pub proof fn lemma_required_groups_complete(groups: Seq<Seq<char>>)
    ensures
        (forall|i: int| 0 <= i < 3 ==> groups.contains(#[trigger] required_groups()[i]))
            <==> missing_from(required_groups(), groups).len() == 0,
{
    let req = required_groups();
    lemma_missing_from_empty(req, groups);
}

proof fn lemma_missing_from_empty(req: Seq<Seq<char>>, groups: Seq<Seq<char>>)
    ensures
        (forall|i: int| 0 <= i < req.len() ==> groups.contains(#[trigger] req[i]))
            <==> missing_from(req, groups).len() == 0,
    decreases req.len(),
{
    if req.len() > 0 {
        let pre = req.drop_last();
        lemma_missing_from_empty(pre, groups);
        lemma_missing_from_len(pre, groups);
        if forall|i: int| 0 <= i < req.len() ==> groups.contains(#[trigger] req[i]) {
            assert forall|i: int| 0 <= i < pre.len() implies groups.contains(#[trigger] pre[i]) by {
                assert(pre[i] == req[i]);
            }
            assert(groups.contains(req[req.len() - 1]));
        }
        if missing_from(req, groups).len() == 0 {
            assert forall|i: int| 0 <= i < req.len() implies groups.contains(#[trigger] req[i]) by {
                if i < pre.len() {
                    assert(pre[i] == req[i]);
                }
            }
        }
    }
}

proof fn lemma_missing_from_len(req: Seq<Seq<char>>, groups: Seq<Seq<char>>)
    ensures
        missing_from(req, groups).len() <= req.len(),
    decreases req.len(),
{
    if req.len() > 0 {
        lemma_missing_from_len(req.drop_last(), groups);
    }
}

/// `"s"`: the string in double quotes.
pub open spec fn quoted(s: Seq<char>) -> Seq<char> {
    seq!['"'] + s + seq!['"']
}

/// Quoted strings separated by `", "`, as a list of plain strings prints
/// with `{:?}` between its brackets.
pub open spec fn quoted_items(v: Seq<Seq<char>>) -> Seq<char>
    decreases v.len(),
{
    if v.len() == 0 {
        Seq::empty()
    } else if v.len() == 1 {
        quoted(v[0])
    } else {
        quoted_items(v.drop_last()) + seq![',', ' '] + quoted(v.last())
    }
}

/// The message of the missing-groups warning.
pub open spec fn missing_groups_message(missing: Seq<Seq<char>>) -> Seq<char> {
    "Groups ["@ + quoted_items(missing) + "] required for pull analysis; some rules will SKIP."@
}

pub fn push_quoted_items(s: &mut String, v: &Vec<String>)
    ensures
        final(s)@ == old(s)@ + quoted_items(views(v@)),
{
    let ghost s0 = s@;
    let ghost vv = views(v@);
    let n = v.len();
    let mut i: usize = 0;
    assert(s@ =~= s0 + quoted_items(vv.take(0)));
    while i < n
        invariant
            n == v@.len(),
            vv == views(v@),
            i <= n,
            s@ == s0 + quoted_items(vv.take(i as int)),
        decreases n - i,
    {
        let ghost pre = s@;
        assert(vv.take(i + 1).drop_last() =~= vv.take(i as int));
        assert(vv.take(i + 1).last() == v@[i as int]@);
        if i > 0 {
            append_str(s, ", ");
            proof {
                reveal_strlit(", ");
            }
            assert(", "@ =~= seq![',', ' ']);
        }
        append_str(s, "\"");
        append_str(s, v[i].as_str());
        append_str(s, "\"");
        proof {
            reveal_strlit("\"");
        }
        assert("\""@ =~= seq!['"']);
        if i == 0 {
            assert(s@ =~= s0 + quoted_items(vv.take(1)));
        } else {
            assert(s@ =~= s0 + quoted_items(vv.take(i + 1)));
        }
        i = i + 1;
    }
    assert(vv.take(n as int) =~= vv);
}

/// The `MISSING_GROUPS` warning when a required group is absent.
pub fn missing_groups_warning(groups: &[String]) -> (r: Option<ParseWarning>)
    ensures
        match r {
            Some(w) => {
                &&& missing_from(required_groups(), views(groups@)).len() > 0
                &&& w.code@ == "MISSING_GROUPS"@
                &&& w.message@ == missing_groups_message(missing_from(required_groups(), views(groups@)))
            },
            None => missing_from(required_groups(), views(groups@)).len() == 0,
        },
{
    let missing = missing_required_groups(groups);
    if missing.len() == 0 {
        return None;
    }
    let mut message = String::from_str("Groups [");
    push_quoted_items(&mut message, &missing);
    append_str(&mut message, "] required for pull analysis; some rules will SKIP.");
    Some(ParseWarning { code: String::from_str("MISSING_GROUPS"), message })
}

// ---------------------------------------------------------------------------
// Quick probe
// ---------------------------------------------------------------------------

/// An ASCII letter or digit, or `'-'`.
pub open spec fn is_token_char(c: char) -> bool {
    ||| is_digit(c)
    ||| ('a' <= c && c <= 'z')
    ||| ('A' <= c && c <= 'Z')
    ||| c == '-'
}

/// The pieces of `s` between characters that are not token characters
/// (`str::split` with that predicate).
pub open spec fn split_tokens(s: Seq<char>) -> Seq<Seq<char>>
    decreases s.len(),
{
    if s.len() == 0 {
        seq![Seq::<char>::empty()]
    } else {
        let p = split_tokens(s.drop_last());
        if !is_token_char(s.last()) {
            p.push(Seq::<char>::empty())
        } else {
            p.update(p.len() - 1, p.last().push(s.last()))
        }
    }
}

proof fn lemma_split_tokens_nonempty(s: Seq<char>)
    ensures
        split_tokens(s).len() >= 1,
    decreases s.len(),
{
    if s.len() > 0 {
        lemma_split_tokens_nonempty(s.drop_last());
    }
}

/// The first eight lines of a text, joined by newlines.
pub open spec fn text_head(text: Seq<char>) -> Seq<char> {
    join_with(first_lines(lines(text), 8), '\n')
}

/// Some token of the head of `text` is a VCDS data column id.
pub open spec fn head_has_column_id(text: Seq<char>) -> bool {
    exists|i: int| 0 <= i < split_tokens(text_head(text)).len() && nnn_k_shape(
        #[trigger] split_tokens(text_head(text))[i],
    )
}

fn is_token_char_exec(c: char) -> (r: bool)
    ensures
        r == is_token_char(c),
{
    is_ascii_digit(c) || ('a' <= c && c <= 'z') || ('A' <= c && c <= 'Z') || c == '-'
}

fn any_token_is_column_id(v: &Vec<char>) -> (r: bool)
    ensures
        r == exists|i: int| 0 <= i < split_tokens(v@).len() && nnn_k_shape(#[trigger] split_tokens(v@)[i]),
{
    let n = v.len();
    let mut done: Vec<Vec<char>> = Vec::new();
    let mut cur: Vec<char> = Vec::new();
    let mut i: usize = 0;
    while i < n
        invariant
            n == v@.len(),
            i <= n,
            row_view(done@).push(cur@) == split_tokens(v@.take(i as int)),
        decreases n - i,
    {
        let ghost pre = v@.take(i as int);
        assert(v@.take(i + 1).drop_last() =~= pre);
        proof {
            lemma_split_tokens_nonempty(pre);
        }
        let c = v[i];
        let ghost done0 = row_view(done@);
        let ghost cur0 = cur@;
        if !is_token_char_exec(c) {
            let finished = cur;
            done.push(finished);
            cur = Vec::new();
            assert(row_view(done@) =~= done0.push(cur0));
        } else {
            cur.push(c);
        }
        assert(row_view(done@).push(cur@) =~= split_tokens(v@.take(i + 1)));
        i = i + 1;
    }
    assert(v@.take(n as int) =~= v@);
    done.push(cur);
    let ghost pieces = row_view(done@);
    assert(pieces =~= split_tokens(v@));
    let m = done.len();
    let mut k: usize = 0;
    while k < m
        invariant
            m == done@.len(),
            pieces == row_view(done@),
            pieces == split_tokens(v@),
            k <= m,
            forall|j: int| 0 <= j < k ==> !nnn_k_shape(#[trigger] pieces[j]),
        decreases m - k,
    {
        if nnn_k_chars(&done[k]) {
            assert(nnn_k_shape(pieces[k as int]));
            return true;
        }
        k = k + 1;
    }
    false
}

/// Some token of the line `l` is a VCDS data column id.
pub open spec fn line_has_column_id(l: Seq<char>) -> bool {
    exists|j: int| 0 <= j < split_tokens(l).len() && nnn_k_shape(#[trigger] split_tokens(l)[j])
}

proof fn lemma_split_tokens_append(z: Seq<char>, b: Seq<char>)
    requires
        split_tokens(z).len() >= 1,
        split_tokens(z).last() == Seq::<char>::empty(),
    ensures
        split_tokens(z + b) == split_tokens(z).drop_last() + split_tokens(b),
    decreases b.len(),
{
    let p = split_tokens(z);
    if b.len() == 0 {
        assert(z + b =~= z);
        assert(p.drop_last() + split_tokens(b) =~= p);
    } else {
        let b0 = b.drop_last();
        lemma_split_tokens_append(z, b0);
        lemma_split_tokens_nonempty(b0);
        assert((z + b).drop_last() =~= z + b0);
        assert((z + b).last() == b.last());
        let s0 = split_tokens(b0);
        let q = p.drop_last() + s0;
        if !is_token_char(b.last()) {
            assert(q.push(Seq::<char>::empty()) =~= p.drop_last() + s0.push(Seq::<char>::empty()));
        } else {
            assert(q.update(q.len() - 1, q.last().push(b.last())) =~= p.drop_last() + s0.update(
                s0.len() - 1,
                s0.last().push(b.last()),
            ));
        }
    }
}

proof fn lemma_tokens_of_join(ls: Seq<Seq<char>>)
    requires
        ls.len() >= 1,
    ensures
        (exists|i: int|
            0 <= i < split_tokens(join_with(ls, '\n')).len() && nnn_k_shape(
                #[trigger] split_tokens(join_with(ls, '\n'))[i],
            )) <==> (exists|k: int| 0 <= k < ls.len() && line_has_column_id(#[trigger] ls[k])),
    decreases ls.len(),
{
    let j = join_with(ls, '\n');
    let tj = split_tokens(j);
    if ls.len() == 1 {
        assert(j == ls[0]);
        if exists|i: int| 0 <= i < tj.len() && nnn_k_shape(#[trigger] tj[i]) {
            assert(line_has_column_id(ls[0]));
        }
    } else {
        let ls0 = ls.drop_last();
        let last = ls.last();
        lemma_tokens_of_join(ls0);
        let x = join_with(ls0, '\n');
        let z = x.push('\n');
        assert(z.drop_last() =~= x);
        lemma_split_tokens_nonempty(x);
        assert(split_tokens(z) == split_tokens(x).push(Seq::<char>::empty()));
        lemma_split_tokens_append(z, last);
        assert(j == z + last);
        let tx = split_tokens(x);
        let tl = split_tokens(last);
        assert(split_tokens(z).drop_last() =~= tx);
        assert(tj == tx + tl);
        if exists|i: int| 0 <= i < tj.len() && nnn_k_shape(#[trigger] tj[i]) {
            let i = choose|i: int| 0 <= i < tj.len() && nnn_k_shape(#[trigger] tj[i]);
            if i < tx.len() {
                assert(tj[i] == tx[i]);
                let k = choose|k: int| 0 <= k < ls0.len() && line_has_column_id(#[trigger] ls0[k]);
                assert(ls[k] == ls0[k]);
            } else {
                assert(tj[i] == tl[i - tx.len()]);
                assert(line_has_column_id(ls[ls.len() - 1]));
            }
        }
        if exists|k: int| 0 <= k < ls.len() && line_has_column_id(#[trigger] ls[k]) {
            let k = choose|k: int| 0 <= k < ls.len() && line_has_column_id(#[trigger] ls[k]);
            if k < ls.len() - 1 {
                assert(ls0[k] == ls[k]);
                let i = choose|i: int| 0 <= i < tx.len() && nnn_k_shape(#[trigger] tx[i]);
                assert(tj[i] == tx[i]);
            } else {
                let i = choose|i: int| 0 <= i < tl.len() && nnn_k_shape(#[trigger] tl[i]);
                assert(tj[tx.len() + i] == tl[i]);
            }
        }
    }
}

/// The probe accepts a text exactly when one of its first eight lines
/// holds a VCDS data column id (`NNN-K`) as a token; later lines are not
/// looked at.
pub proof fn lemma_probe_reads_first_eight_lines(text: Seq<char>)
    ensures
        head_has_column_id(text) <==> exists|k: int|
            0 <= k < 8 && k < lines(text).len() && line_has_column_id(#[trigger] lines(text)[k]),
{
    let all = lines(text);
    let ls = first_lines(all, 8);
    if ls.len() == 0 {
        assert(text_head(text) == Seq::<char>::empty());
        assert(split_tokens(Seq::<char>::empty()) == seq![Seq::<char>::empty()]);
        assert(trim(Seq::<char>::empty()).len() == 0) by {
            reveal_with_fuel(crate::text::trim_start, 2);
            reveal_with_fuel(crate::text::trim_end, 2);
        }
        assert(!nnn_k_shape(Seq::<char>::empty()));
        assert(all.len() == 0);
    } else {
        lemma_tokens_of_join(ls);
        assert(text_head(text) == join_with(ls, '\n'));
        assert(ls.len() == (if all.len() < 8 { all.len() as int } else { 8int }));
        assert(forall|k: int| 0 <= k < ls.len() ==> ls[k] == all[k]);
        if exists|k: int| 0 <= k < 8 && k < all.len() && line_has_column_id(#[trigger] all[k]) {
            let k = choose|k: int| 0 <= k < 8 && k < all.len() && line_has_column_id(#[trigger] all[k]);
            assert(ls[k] == all[k]);
        }
        if exists|k: int| 0 <= k < ls.len() && line_has_column_id(#[trigger] ls[k]) {
            let k = choose|k: int| 0 <= k < ls.len() && line_has_column_id(#[trigger] ls[k]);
            assert(ls[k] == all[k]);
        }
    }
}

/// Cheap probe of a text: do its first eight lines hold a VCDS data column
/// id (`NNN-K`) between non-alphanumeric separators?
pub fn looks_like_vcds(text: &str) -> (r: bool)
    ensures
        r == head_has_column_id(text@),
{
    let v = chars_of(text);
    let ls = lines_of(&v);
    assert(row_view(ls@) =~= ls@.map_values(|p: Vec<char>| p@));
    let head = join_first(&ls, 8, '\n');
    assert(row_view(ls@).take(row_view(ls@).len() as int) =~= row_view(ls@));
    assert(row_view(ls@) == lines(text@));
    assert(head@ == text_head(text@));
    any_token_is_column_id(&head)
}

} // verus!
