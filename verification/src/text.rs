//! Character-level text primitives shared by the VCDS and DTC parsers and
//! the Markdown renderers.
//!
//! Every parser in this crate works on `Vec<char>` buffers whose views are
//! `Seq<char>`; the spec functions below give the exact meaning of the
//! standard-library string operations the analyser relies on (`trim`,
//! `lines`, `split`, ASCII case folding, decimal rendering).

use vstd::prelude::*;

verus! {

/// The character views of a sequence of strings.
pub open spec fn views(v: Seq<String>) -> Seq<Seq<char>> {
    v.map_values(|s: String| s@)
}

// ---------------------------------------------------------------------------
// Conversions between `str` / `String` and character buffers
// ---------------------------------------------------------------------------

/// Appends one character to a `String` (`String::push`).
#[verifier::external_body]
fn push_char(s: &mut String, c: char)
    ensures
        final(s)@ == old(s)@.push(c),
{
    s.push(c);
}

/// Copy the characters of `s` into a buffer.
pub fn chars_of(s: &str) -> (v: Vec<char>)
    ensures
        v@ == s@,
{
    let mut v: Vec<char> = Vec::new();
    for c in it: s.chars()
        invariant
            v@ == it.seq().take(it.index() as int),
            it.seq() == s@,
    {
        v.push(c);
    }
    v
}

/// Build a `String` holding exactly the characters of `v`.
pub fn string_of(v: &Vec<char>) -> (s: String)
    ensures
        s@ == v@,
{
    let mut s = String::new();
    let n = v.len();
    for i in 0..n
        invariant
            n == v@.len(),
            s@ == v@.take(i as int),
    {
        push_char(&mut s, v[i]);
        assert(v@.take(i + 1) =~= v@.take(i as int).push(v@[i as int]));
    }
    assert(v@.take(n as int) =~= v@);
    s
}

/// One `String` per buffer, in order.
pub fn strings_of(v: &Vec<Vec<char>>) -> (r: Vec<String>)
    ensures
        r@.len() == v@.len(),
        forall|t: int| 0 <= t < v@.len() ==> #[trigger] r@[t]@ == v@[t]@,
{
    let mut out: Vec<String> = Vec::new();
    let m = v.len();
    let mut k: usize = 0;
    while k < m
        invariant
            m == v@.len(),
            k <= m,
            out@.len() == k,
            forall|t: int| 0 <= t < k ==> #[trigger] out@[t]@ == v@[t]@,
        decreases m - k,
    {
        out.push(string_of(&v[k]));
        k = k + 1;
    }
    out
}

/// Append the characters of `v` to `s`.
pub fn append_chars(s: &mut String, v: &Vec<char>)
    ensures
        final(s)@ == old(s)@ + v@,
{
    let n = v.len();
    let ghost s0 = s@;
    for i in 0..n
        invariant
            n == v@.len(),
            s@ == s0 + v@.take(i as int),
    {
        push_char(s, v[i]);
        assert(v@.take(i + 1) =~= v@.take(i as int).push(v@[i as int]));
    }
    assert(v@.take(n as int) =~= v@);
}

/// Append the characters of `t` to `s`.
pub fn append_str(s: &mut String, t: &str)
    ensures
        final(s)@ == old(s)@ + t@,
{
    s.append(t);
}

/// Character-wise equality of two buffers.
pub fn chars_eq(a: &Vec<char>, b: &Vec<char>) -> (r: bool)
    ensures
        r == (a@ == b@),
{
    if a.len() != b.len() {
        return false;
    }
    let n = a.len();
    for i in 0..n
        invariant
            n == a@.len(),
            n == b@.len(),
            forall|k: int| 0 <= k < i ==> a@[k] == b@[k],
    {
        if a[i] != b[i] {
            return false;
        }
    }
    assert(a@ =~= b@);
    true
}

/// Character-wise equality of two string slices.
pub fn str_eq(a: &str, b: &str) -> (r: bool)
    ensures
        r == (a@ == b@),
{
    let av = chars_of(a);
    let bv = chars_of(b);
    chars_eq(&av, &bv)
}

/// Whether the buffer equals the characters of the literal `t`.
pub fn chars_eq_str(a: &Vec<char>, t: &str) -> (r: bool)
    ensures
        r == (a@ == t@),
{
    let tv = chars_of(t);
    chars_eq(a, &tv)
}

/// Copy `v[lo..hi]`.
pub fn sub_chars(v: &Vec<char>, lo: usize, hi: usize) -> (r: Vec<char>)
    requires
        lo <= hi <= v@.len(),
    ensures
        r@ == v@.subrange(lo as int, hi as int),
{
    let mut r: Vec<char> = Vec::new();
    for i in lo..hi
        invariant
            lo <= i <= hi,
            hi <= v@.len(),
            r@ == v@.subrange(lo as int, i as int),
    {
        r.push(v[i]);
        assert(v@.subrange(lo as int, i + 1) =~= v@.subrange(lo as int, i as int).push(
            v@[i as int],
        ));
    }
    r
}

// ---------------------------------------------------------------------------
// Whitespace and trimming (Unicode `White_Space`, as `char::is_whitespace`)
// ---------------------------------------------------------------------------

/// `char::is_whitespace`: the Unicode `White_Space` property.
pub open spec fn is_ws(c: char) -> bool {
    ||| c == ' '
    ||| c == '\t'
    ||| c == '\n'
    ||| c == '\u{0B}'
    ||| c == '\u{0C}'
    ||| c == '\r'
    ||| c == '\u{85}'
    ||| c == '\u{A0}'
    ||| c == '\u{1680}'
    ||| ('\u{2000}' as u32 <= c as u32 && c as u32 <= '\u{200A}' as u32)
    ||| c == '\u{2028}'
    ||| c == '\u{2029}'
    ||| c == '\u{202F}'
    ||| c == '\u{205F}'
    ||| c == '\u{3000}'
}

/// Executable form of [`is_ws`].
pub fn is_whitespace(c: char) -> (r: bool)
    ensures
        r == is_ws(c),
{
    let u = c as u32;
    c == ' ' || c == '\t' || c == '\n' || c == '\u{0B}' || c == '\u{0C}' || c == '\r' || c
        == '\u{85}' || c == '\u{A0}' || c == '\u{1680}' || (0x2000u32 <= u && u <= 0x200Au32)
        || c == '\u{2028}' || c == '\u{2029}' || c == '\u{202F}' || c == '\u{205F}' || c
        == '\u{3000}'
}

/// `str::trim_start`.
pub open spec fn trim_start(s: Seq<char>) -> Seq<char>
    decreases s.len(),
{
    if s.len() > 0 && is_ws(s[0]) {
        trim_start(s.drop_first())
    } else {
        s
    }
}

/// `str::trim_end`.
pub open spec fn trim_end(s: Seq<char>) -> Seq<char>
    decreases s.len(),
{
    if s.len() > 0 && is_ws(s.last()) {
        trim_end(s.drop_last())
    } else {
        s
    }
}

/// `str::trim`.
pub open spec fn trim(s: Seq<char>) -> Seq<char> {
    trim_end(trim_start(s))
}

proof fn lemma_trim_start_skip(s: Seq<char>, i: int)
    requires
        0 <= i <= s.len(),
        forall|k: int| 0 <= k < i ==> is_ws(s[k]),
    ensures
        trim_start(s) == trim_start(s.subrange(i, s.len() as int)),
    decreases i,
{
    if i > 0 {
        assert(s.drop_first() =~= s.subrange(1, s.len() as int));
        let t = s.drop_first();
        assert forall|k: int| 0 <= k < i - 1 implies is_ws(t[k]) by {
            assert(t[k] == s[k + 1]);
        }
        lemma_trim_start_skip(t, i - 1);
        assert(t.subrange(i - 1, t.len() as int) =~= s.subrange(i, s.len() as int));
    } else {
        assert(s.subrange(0, s.len() as int) =~= s);
    }
}

proof fn lemma_trim_end_take(s: Seq<char>, j: int)
    requires
        0 <= j <= s.len(),
        forall|k: int| j <= k < s.len() ==> is_ws(s[k]),
    ensures
        trim_end(s) == trim_end(s.subrange(0, j)),
    decreases s.len() - j,
{
    if j < s.len() {
        let t = s.drop_last();
        assert forall|k: int| j <= k < t.len() implies is_ws(t[k]) by {
            assert(t[k] == s[k]);
        }
        lemma_trim_end_take(t, j);
        assert(t.subrange(0, j) =~= s.subrange(0, j));
    } else {
        assert(s.subrange(0, j) =~= s);
    }
}

/// Trimmed copy of `v` (`str::trim`).
pub fn trim_chars(v: &Vec<char>) -> (r: Vec<char>)
    ensures
        r@ == trim(v@),
{
    let n = v.len();
    let mut lo: usize = 0;
    while lo < n && is_whitespace(v[lo])
        invariant
            n == v@.len(),
            lo <= n,
            forall|k: int| 0 <= k < lo ==> is_ws(v@[k]),
        decreases n - lo,
    {
        lo = lo + 1;
    }
    proof {
        lemma_trim_start_skip(v@, lo as int);
    }
    let ghost t = v@.subrange(lo as int, n as int);
    assert(trim_start(t) == t) by {
        if t.len() > 0 {
            assert(t[0] == v@[lo as int]);
        }
    }
    let mut hi: usize = n;
    while hi > lo && is_whitespace(v[hi - 1])
        invariant
            n == v@.len(),
            lo <= hi <= n,
            forall|k: int| hi <= k < n ==> is_ws(v@[k]),
        decreases hi - lo,
    {
        hi = hi - 1;
    }
    proof {
        assert forall|k: int| hi - lo <= k < t.len() implies is_ws(t[k]) by {
            assert(t[k] == v@[lo + k]);
        }
        lemma_trim_end_take(t, hi - lo);
        let u = t.subrange(0, hi - lo);
        assert(u =~= v@.subrange(lo as int, hi as int));
        if u.len() > 0 {
            assert(u.last() == v@[hi - 1]);
        }
    }
    sub_chars(v, lo, hi)
}

// ---------------------------------------------------------------------------
// Splitting
// ---------------------------------------------------------------------------

/// `str::split(d)` with a single-character pattern: always at least one
/// piece; consecutive separators give empty pieces.
pub open spec fn split_on(s: Seq<char>, d: char) -> Seq<Seq<char>>
    decreases s.len(),
{
    if s.len() == 0 {
        seq![Seq::<char>::empty()]
    } else {
        let p = split_on(s.drop_last(), d);
        if s.last() == d {
            p.push(Seq::<char>::empty())
        } else {
            p.update(p.len() - 1, p.last().push(s.last()))
        }
    }
}

pub proof fn lemma_split_on_nonempty(s: Seq<char>, d: char)
    ensures
        split_on(s, d).len() >= 1,
    decreases s.len(),
{
    if s.len() > 0 {
        lemma_split_on_nonempty(s.drop_last(), d);
    }
}

/// A sequence without the separator splits into itself alone.
pub proof fn lemma_split_on_no_sep(s: Seq<char>, d: char)
    requires
        forall|t: int| 0 <= t < s.len() ==> s[t] != d,
    ensures
        split_on(s, d) == seq![s],
    decreases s.len(),
{
    if s.len() == 0 {
        assert(s =~= Seq::<char>::empty());
    } else {
        let p = s.drop_last();
        lemma_split_on_no_sep(p, d);
        assert(p.push(s.last()) =~= s);
        assert(seq![p].update(0, p.push(s.last())) =~= seq![s]);
    }
}

/// The first piece of a split is everything before the first separator.
pub proof fn lemma_split_on_first_piece(s: Seq<char>, d: char, m: int)
    requires
        0 <= m < s.len(),
        s[m] == d,
        forall|t: int| 0 <= t < m ==> s[t] != d,
    ensures
        split_on(s, d).len() >= 2,
        split_on(s, d)[0] == s.take(m),
    decreases s.len(),
{
    let p = s.drop_last();
    if s.len() == m + 1 {
        assert(p =~= s.take(m));
        lemma_split_on_no_sep(p, d);
    } else {
        lemma_split_on_first_piece(p, d, m);
        assert(p.take(m) =~= s.take(m));
    }
}

/// Appending separator-free characters extends the last piece.
pub proof fn lemma_split_on_append_plain(x: Seq<char>, b: Seq<char>, d: char)
    requires
        forall|t: int| 0 <= t < b.len() ==> b[t] != d,
    ensures
        split_on(x + b, d) == split_on(x, d).update(
            split_on(x, d).len() - 1,
            split_on(x, d).last() + b,
        ),
    decreases b.len(),
{
    lemma_split_on_nonempty(x, d);
    let p = split_on(x, d);
    if b.len() == 0 {
        assert(x + b =~= x);
        assert(p.last() + b =~= p.last());
        assert(p.update(p.len() - 1, p.last()) =~= p);
    } else {
        let b0 = b.drop_last();
        lemma_split_on_append_plain(x, b0, d);
        assert((x + b).drop_last() =~= x + b0);
        assert((x + b).last() == b.last());
        let q = p.update(p.len() - 1, p.last() + b0);
        assert((p.last() + b0).push(b.last()) =~= p.last() + b);
        assert(q.update(q.len() - 1, q.last().push(b.last())) =~= p.update(p.len() - 1, p.last() + b));
    }
}

/// Splitting pieces joined by a separator they do not hold gives them back.
pub proof fn lemma_split_on_join(v: Seq<Seq<char>>, d: char)
    requires
        v.len() >= 1,
        forall|i: int, t: int| 0 <= i < v.len() && 0 <= t < v[i].len() ==> #[trigger] v[i][t] != d,
    ensures
        split_on(join_sep(v, seq![d]), d) == v,
    decreases v.len(),
{
    if v.len() == 1 {
        assert forall|t: int| 0 <= t < v[0].len() implies v[0][t] != d by {
            assert(v[0][t] != d);
        }
        lemma_split_on_no_sep(v[0], d);
        assert(seq![v[0]] =~= v);
    } else {
        let w = v.drop_last();
        assert forall|i: int, t: int| 0 <= i < w.len() && 0 <= t < w[i].len() implies #[trigger] w[i][t] != d by {
            assert(w[i] == v[i]);
            assert(v[i][t] != d);
        }
        lemma_split_on_join(w, d);
        let x = join_sep(w, seq![d]) + seq![d];
        assert(x =~= join_sep(w, seq![d]).push(d));
        assert(x.drop_last() =~= join_sep(w, seq![d]));
        let last = v.last();
        assert forall|t: int| 0 <= t < last.len() implies last[t] != d by {
            assert(v[v.len() - 1][t] != d);
        }
        lemma_split_on_append_plain(x, last, d);
        let p = split_on(x, d);
        assert(p == w.push(Seq::<char>::empty()));
        assert(Seq::<char>::empty() + last =~= last);
        assert(p.update(p.len() - 1, p.last() + last) =~= v);
    }
}

/// The lines of non-empty pieces joined by `'\n'`, none holding a
/// `'\n'` nor ending in `'\r'`, are the pieces.
pub proof fn lemma_lines_of_join(v: Seq<Seq<char>>)
    requires
        forall|i: int| 0 <= i < v.len() ==> #[trigger] v[i].len() > 0 && v[i].last() != '\r',
        forall|i: int, t: int| 0 <= i < v.len() && 0 <= t < v[i].len() ==> #[trigger] v[i][t] != '\n',
    ensures
        lines(join_sep(v, seq!['\n'])) == v,
{
    if v.len() == 0 {
        assert(join_sep(v, seq!['\n']) =~= Seq::<char>::empty());
        assert(lines(join_sep(v, seq!['\n'])) =~= v);
    } else {
        lemma_split_on_join(v, '\n');
        let p = split_on(join_sep(v, seq!['\n']), '\n');
        assert(v[v.len() - 1].len() > 0);
        let body = p.drop_last().map_values(|l: Seq<char>| strip_cr(l));
        assert forall|i: int| 0 <= i < v.len() - 1 implies body[i] == v[i] by {
            assert(v[i].len() > 0 && v[i].last() != '\r');
        }
        assert(body.push(p.last()) =~= v);
    }
}

/// Pieces of `v` separated by `d` (`str::split`).
pub fn split_chars(v: &Vec<char>, d: char) -> (r: Vec<Vec<char>>)
    ensures
        r@.map_values(|p: Vec<char>| p@) == split_on(v@, d),
        r@.len() >= 1,
{
    let n = v.len();
    let mut done: Vec<Vec<char>> = Vec::new();
    let mut cur: Vec<char> = Vec::new();
    for i in 0..n
        invariant
            n == v@.len(),
            done@.map_values(|p: Vec<char>| p@).push(cur@) == split_on(v@.take(i as int), d),
    {
        let ghost pre = v@.take(i as int);
        assert(v@.take(i + 1).drop_last() =~= pre);
        proof {
            lemma_split_on_nonempty(pre, d);
        }
        let c = v[i];
        let ghost done0 = done@.map_values(|p: Vec<char>| p@);
        let ghost cur0 = cur@;
        if c == d {
            let finished = cur;
            done.push(finished);
            cur = Vec::new();
            assert(done@.map_values(|p: Vec<char>| p@) =~= done0.push(cur0));
        } else {
            cur.push(c);
        }
        assert(done@.map_values(|p: Vec<char>| p@).push(cur@) =~= split_on(v@.take(i + 1), d));
    }
    assert(v@.take(n as int) =~= v@);
    done.push(cur);
    assert(done@.map_values(|p: Vec<char>| p@) =~= split_on(v@, d));
    done
}

/// Remove one trailing carriage return.
pub open spec fn strip_cr(l: Seq<char>) -> Seq<char> {
    if l.len() > 0 && l.last() == '\r' {
        l.drop_last()
    } else {
        l
    }
}

/// `str::lines`: pieces between `'\n'`; a piece ended by `'\n'` loses one
/// trailing `'\r'`; a final empty piece (text ending in `'\n'`, or empty
/// text) is not a line.
pub open spec fn lines(s: Seq<char>) -> Seq<Seq<char>> {
    let p = split_on(s, '\n');
    let body = p.drop_last().map_values(|l: Seq<char>| strip_cr(l));
    if p.last().len() == 0 {
        body
    } else {
        body.push(p.last())
    }
}

/// The lines of `v` (`str::lines`).
pub fn lines_of(v: &Vec<char>) -> (r: Vec<Vec<char>>)
    ensures
        r@.map_values(|p: Vec<char>| p@) == lines(v@),
{
    let pieces = split_chars(v, '\n');
    let ghost pv = pieces@.map_values(|p: Vec<char>| p@);
    let m = pieces.len();
    let mut out: Vec<Vec<char>> = Vec::new();
    for i in 0..m - 1
        invariant
            m == pieces@.len(),
            m >= 1,
            pv == pieces@.map_values(|p: Vec<char>| p@),
            out@.map_values(|p: Vec<char>| p@) == pv.take(i as int).map_values(
                |l: Seq<char>| strip_cr(l),
            ),
    {
        let p = &pieces[i];
        let k = p.len();
        let line = if k > 0 && p[k - 1] == '\r' {
            sub_chars(p, 0, k - 1)
        } else {
            sub_chars(p, 0, k)
        };
        assert(line@ == strip_cr(pv[i as int])) by {
            assert(pv[i as int] == p@);
            if k > 0 {
                assert(p@.drop_last() =~= p@.subrange(0, k - 1));
            }
            assert(p@.subrange(0, k as int) =~= p@);
        }
        let ghost o0 = out@.map_values(|p: Vec<char>| p@);
        out.push(line);
        assert(out@.map_values(|p: Vec<char>| p@) =~= o0.push(line@));
        assert(pv.take(i + 1).map_values(|l: Seq<char>| strip_cr(l)) =~= pv.take(
            i as int,
        ).map_values(|l: Seq<char>| strip_cr(l)).push(strip_cr(pv[i as int])));
    }
    assert(pv.take(m - 1) =~= pv.drop_last());
    let last = &pieces[m - 1];
    assert(last@ == pv.last());
    if last.len() > 0 {
        let ghost o0 = out@.map_values(|p: Vec<char>| p@);
        let copy = sub_chars(last, 0, last.len());
        assert(last@.subrange(0, last@.len() as int) =~= last@);
        out.push(copy);
        assert(out@.map_values(|p: Vec<char>| p@) =~= o0.push(copy@));
    }
    out
}

// ---------------------------------------------------------------------------
// ASCII classification and case folding
// ---------------------------------------------------------------------------

/// `char::is_ascii_digit`.
pub open spec fn is_digit(c: char) -> bool {
    '0' as u32 <= c as u32 && c as u32 <= '9' as u32
}

/// `char::is_ascii_hexdigit`.
pub open spec fn is_hex(c: char) -> bool {
    ||| is_digit(c)
    ||| ('a' as u32 <= c as u32 && c as u32 <= 'f' as u32)
    ||| ('A' as u32 <= c as u32 && c as u32 <= 'F' as u32)
}

/// `char::to_ascii_uppercase`.
pub open spec fn upper(c: char) -> char {
    if 'a' as u32 <= c as u32 && c as u32 <= 'z' as u32 {
        ((c as u32) - 32) as char
    } else {
        c
    }
}

/// `str::to_ascii_uppercase`.
pub open spec fn upper_seq(s: Seq<char>) -> Seq<char> {
    s.map_values(|c: char| upper(c))
}

pub fn is_ascii_digit(c: char) -> (r: bool)
    ensures
        r == is_digit(c),
{
    let u = c as u32;
    48u32 <= u && u <= 57u32
}

pub fn is_ascii_hexdigit(c: char) -> (r: bool)
    ensures
        r == is_hex(c),
{
    let u = c as u32;
    (48u32 <= u && u <= 57u32) || (97u32 <= u && u <= 102u32) || (65u32 <= u && u <= 70u32)
}

pub fn to_upper(c: char) -> (r: char)
    ensures
        r == upper(c),
{
    if 'a' <= c && c <= 'z' {
        let u = (c as u32) - 32;
        assert(u < 0xD800);
        char_from_ascii(u)
    } else {
        c
    }
}

/// Convert an ASCII code point to its `char`.
#[verifier::external_body]
fn char_from_ascii(u: u32) -> (c: char)
    requires
        u < 128,
    ensures
        c as u32 == u,
        c == u as char,
{
    char::from_u32(u).unwrap()
}

/// Upper-cased copy of `v`.
pub fn upper_chars(v: &Vec<char>) -> (r: Vec<char>)
    ensures
        r@ == upper_seq(v@),
{
    let mut r: Vec<char> = Vec::new();
    let n = v.len();
    for i in 0..n
        invariant
            n == v@.len(),
            r@ == upper_seq(v@.take(i as int)),
    {
        r.push(to_upper(v[i]));
        assert(upper_seq(v@.take(i + 1)) =~= upper_seq(v@.take(i as int)).push(upper(v@[i as int])));
    }
    assert(v@.take(n as int) =~= v@);
    r
}

// ---------------------------------------------------------------------------
// Decimal rendering
// ---------------------------------------------------------------------------

/// The decimal digit character for `d < 10`.
pub open spec fn digit_char(d: nat) -> char {
    (48 + d) as char
}

/// Decimal rendering of a natural number, as `{}` formats unsigned ints.
pub open spec fn decimal(n: nat) -> Seq<char>
    decreases n,
{
    if n < 10 {
        seq![digit_char(n)]
    } else {
        decimal(n / 10).push(digit_char(n % 10))
    }
}

/// Append the decimal rendering of `n` to `s`.
pub fn push_decimal(s: &mut String, n: usize)
    ensures
        final(s)@ == old(s)@ + decimal(n as nat),
    decreases n,
{
    if n >= 10 {
        push_decimal(s, n / 10);
    }
    let d = (n % 10) as u32;
    let c = char_from_ascii(48 + d);
    push_char(s, c);
    assert(c == digit_char((n % 10) as nat));
    if n >= 10 {
        assert(decimal(n as nat) == decimal((n / 10) as nat).push(digit_char((n % 10) as nat)));
    }
}

// ---------------------------------------------------------------------------
// Lexicographic order (the order of `String`'s `Ord`: code point by code point)
// ---------------------------------------------------------------------------

/// Strict lexicographic order on character sequences.
pub open spec fn lex_lt(a: Seq<char>, b: Seq<char>) -> bool
    decreases a.len(),
{
    if a.len() == 0 {
        b.len() > 0
    } else if b.len() == 0 {
        false
    } else if a[0] < b[0] {
        true
    } else if a[0] == b[0] {
        lex_lt(a.drop_first(), b.drop_first())
    } else {
        false
    }
}

pub proof fn lemma_lex_trichotomy(a: Seq<char>, b: Seq<char>)
    ensures
        lex_lt(a, b) || a == b || lex_lt(b, a),
        !(lex_lt(a, b) && lex_lt(b, a)),
        !lex_lt(a, a),
    decreases a.len(),
{
    if a.len() > 0 && b.len() > 0 {
        lemma_lex_trichotomy(a.drop_first(), b.drop_first());
        if a[0] == b[0] && a.drop_first() == b.drop_first() {
            assert forall|k: int| 0 <= k < a.len() implies a[k] == b[k] by {
                if k > 0 {
                    assert(a[k] == a.drop_first()[k - 1]);
                    assert(b[k] == b.drop_first()[k - 1]);
                }
            }
            assert(a.len() == b.len());
            assert(a =~= b);
        }
    }
    if a.len() > 0 {
        lemma_lex_trichotomy(a.drop_first(), a.drop_first());
    }
    if a.len() == 0 && b.len() == 0 {
        assert(a =~= b);
    }
}

pub proof fn lemma_lex_transitive(a: Seq<char>, b: Seq<char>, c: Seq<char>)
    requires
        lex_lt(a, b),
        lex_lt(b, c),
    ensures
        lex_lt(a, c),
    decreases a.len(),
{
    if a.len() > 0 && b.len() > 0 && c.len() > 0 {
        if a[0] == b[0] && b[0] == c[0] {
            lemma_lex_transitive(a.drop_first(), b.drop_first(), c.drop_first());
        }
    }
}

/// Three-way comparison: `-1` when `a < b`, `0` when equal, `1` when `a > b`.
pub fn lex_compare(a: &Vec<char>, b: &Vec<char>) -> (r: i8)
    ensures
        r == -1 || r == 0 || r == 1,
        r == -1 <==> lex_lt(a@, b@),
        r == 0 <==> a@ == b@,
        r == 1 <==> lex_lt(b@, a@),
{
    proof {
        lemma_lex_trichotomy(a@, b@);
    }
    let n = a.len();
    let m = b.len();
    let mut i: usize = 0;
    assert(a@.skip(0) =~= a@);
    assert(b@.skip(0) =~= b@);
    while i < n && i < m
        invariant
            n == a@.len(),
            m == b@.len(),
            i <= n,
            i <= m,
            a@.subrange(0, i as int) == b@.subrange(0, i as int),
            lex_lt(a@, b@) == lex_lt(a@.skip(i as int), b@.skip(i as int)),
            lex_lt(b@, a@) == lex_lt(b@.skip(i as int), a@.skip(i as int)),
        decreases n - i,
    {
        let x = a[i];
        let y = b[i];
        let ghost sa = a@.skip(i as int);
        let ghost sb = b@.skip(i as int);
        assert(sa[0] == x && sb[0] == y);
        if x < y {
            return -1;
        }
        if y < x {
            return 1;
        }
        assert(x == y);
        assert(sa.drop_first() =~= a@.skip(i + 1));
        assert(sb.drop_first() =~= b@.skip(i + 1));
        assert(a@.subrange(0, i + 1) =~= a@.subrange(0, i as int).push(x));
        assert(b@.subrange(0, i + 1) =~= b@.subrange(0, i as int).push(y));
        i = i + 1;
    }
    if i == n && i == m {
        assert(a@ =~= a@.subrange(0, i as int));
        assert(b@ =~= b@.subrange(0, i as int));
        0
    } else if i == n {
        assert(a@.skip(i as int).len() == 0);
        assert(b@.skip(i as int).len() > 0);
        -1
    } else {
        assert(b@.skip(i as int).len() == 0);
        assert(a@.skip(i as int).len() > 0);
        1
    }
}

// ---------------------------------------------------------------------------
// Joining
// ---------------------------------------------------------------------------

/// The character views of a sequence of `&str`.
pub open spec fn str_views(v: Seq<&str>) -> Seq<Seq<char>> {
    v.map_values(|s: &str| s@)
}

/// The pieces of `v` with `sep` between neighbours (`[..].join(sep)`).
pub open spec fn join_sep(v: Seq<Seq<char>>, sep: Seq<char>) -> Seq<char>
    decreases v.len(),
{
    if v.len() == 0 {
        Seq::empty()
    } else if v.len() == 1 {
        v[0]
    } else {
        join_sep(v.drop_last(), sep) + sep + v.last()
    }
}

/// Append `v` joined by `sep` to `s`.
pub fn push_joined(s: &mut String, v: &[&str], sep: &str)
    ensures
        final(s)@ == old(s)@ + join_sep(str_views(v@), sep@),
{
    let ghost s0 = s@;
    let ghost vv = str_views(v@);
    let n = v.len();
    let mut i: usize = 0;
    assert(s@ =~= s0 + join_sep(vv.take(0), sep@));
    while i < n
        invariant
            n == v@.len(),
            vv == str_views(v@),
            i <= n,
            s@ == s0 + join_sep(vv.take(i as int), sep@),
        decreases n - i,
    {
        assert(vv.take(i + 1).drop_last() =~= vv.take(i as int));
        assert(vv.take(i + 1).last() == v@[i as int]@);
        if i > 0 {
            append_str(s, sep);
        }
        append_str(s, v[i]);
        if i == 0 {
            assert(s@ =~= s0 + join_sep(vv.take(1), sep@));
        } else {
            assert(s@ =~= s0 + join_sep(vv.take(i + 1), sep@));
        }
        i = i + 1;
    }
    assert(vv.take(n as int) =~= vv);
}

/// Append `v` joined by `sep` to `s`.
pub fn push_joined_strings(s: &mut String, v: &Vec<String>, sep: &str)
    ensures
        final(s)@ == old(s)@ + join_sep(views(v@), sep@),
{
    let ghost s0 = s@;
    let ghost vv = views(v@);
    let n = v.len();
    let mut i: usize = 0;
    assert(s@ =~= s0 + join_sep(vv.take(0), sep@));
    while i < n
        invariant
            n == v@.len(),
            vv == views(v@),
            i <= n,
            s@ == s0 + join_sep(vv.take(i as int), sep@),
        decreases n - i,
    {
        assert(vv.take(i + 1).drop_last() =~= vv.take(i as int));
        assert(vv.take(i + 1).last() == v@[i as int]@);
        if i > 0 {
            append_str(s, sep);
        }
        append_str(s, v[i].as_str());
        if i == 0 {
            assert(s@ =~= s0 + join_sep(vv.take(1), sep@));
        } else {
            assert(s@ =~= s0 + join_sep(vv.take(i + 1), sep@));
        }
        i = i + 1;
    }
    assert(vv.take(n as int) =~= vv);
}

} // verus!
