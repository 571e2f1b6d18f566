//! DTC sidecar text.
//!
//! VCDS DTCs do not come from a measuring block: they are produced by a
//! separate `01-DTC` scan and saved next to the CSV as `<stem>.dtc.txt`,
//! one code per line. Blank lines and lines starting with `#` are ignored,
//! anything after the first whitespace-separated token is a description.
//!
//! Codes are accepted in the loose OBD-II shape `[PBCU]` followed by four
//! hex digits (either case); anything else is silently dropped.

use vstd::prelude::*;

use crate::text::append_str;
use crate::text::chars_eq;
use crate::text::chars_of;
use crate::text::is_ascii_hexdigit;
use crate::text::is_hex;
use crate::text::is_whitespace;
use crate::text::is_ws;
use crate::text::join_sep;
use crate::text::lemma_lines_of_join;
use crate::text::lines;
use crate::text::lines_of;
use crate::text::string_of;
use crate::text::strings_of;
use crate::text::trim;
use crate::text::trim_chars;
use crate::text::trim_end;
use crate::text::trim_start;
use crate::text::upper;
use crate::text::upper_chars;
use crate::text::upper_seq;
use crate::text::views;

verus! {

/// Loose OBD-II code shape: five characters, the first one of `PBCU`
/// (either case), the other four ASCII hex digits.
pub open spec fn obd_shape(s: Seq<char>) -> bool {
    &&& s.len() == 5
    &&& (upper(s[0]) == 'P' || upper(s[0]) == 'B' || upper(s[0]) == 'C' || upper(s[0]) == 'U')
    &&& forall|i: int| 1 <= i < 5 ==> is_hex(#[trigger] s[i])
}

/// The leading run of non-whitespace characters.
pub open spec fn leading_token(s: Seq<char>) -> Seq<char>
    decreases s.len(),
{
    if s.len() == 0 || is_ws(s[0]) {
        Seq::empty()
    } else {
        seq![s[0]] + leading_token(s.drop_first())
    }
}

/// The code a sidecar line contributes, upper-cased, if any.
pub open spec fn line_code(raw: Seq<char>) -> Option<Seq<char>> {
    let line = trim(raw);
    if line.len() == 0 || line[0] == '#' {
        None
    } else if obd_shape(leading_token(line)) {
        Some(upper_seq(leading_token(line)))
    } else {
        None
    }
}

/// Codes of `ls`, in order of first appearance, without repetition.
pub open spec fn codes_of_lines(ls: Seq<Seq<char>>) -> Seq<Seq<char>>
    decreases ls.len(),
{
    if ls.len() == 0 {
        Seq::empty()
    } else {
        let prev = codes_of_lines(ls.drop_last());
        match line_code(ls.last()) {
            Some(c) => if prev.contains(c) {
                prev
            } else {
                prev.push(c)
            },
            None => prev,
        }
    }
}

/// The codes of a sidecar text.
pub open spec fn dtc_codes(text: Seq<char>) -> Seq<Seq<char>> {
    codes_of_lines(lines(text))
}

fn is_obd_chars(s: &Vec<char>) -> (r: bool)
    ensures
        r == obd_shape(s@),
{
    if s.len() != 5 {
        return false;
    }
    let p = crate::text::to_upper(s[0]);
    if !(p == 'P' || p == 'B' || p == 'C' || p == 'U') {
        return false;
    }
    let mut i: usize = 1;
    while i < 5
        invariant
            s@.len() == 5,
            1 <= i <= 5,
            forall|k: int| 1 <= k < i ==> is_hex(#[trigger] s@[k]),
        decreases 5 - i,
    {
        if !is_ascii_hexdigit(s[i]) {
            return false;
        }
        i = i + 1;
    }
    true
}

/// Loose OBD-II code shape check: one letter from `PBCU` (either case)
/// followed by exactly four hex digits.
pub fn is_obd_code(s: &str) -> (r: bool)
    ensures
        r == obd_shape(s@),
{
    let v = chars_of(s);
    is_obd_chars(&v)
}

fn leading_token_chars(v: &Vec<char>) -> (r: Vec<char>)
    ensures
        r@ == leading_token(v@),
{
    let n = v.len();
    let mut i: usize = 0;
    while i < n && !is_whitespace(v[i])
        invariant
            n == v@.len(),
            i <= n,
            forall|k: int| 0 <= k < i ==> !is_ws(#[trigger] v@[k]),
        decreases n - i,
    {
        i = i + 1;
    }
    proof {
        lemma_leading_token(v@, i as int);
    }
    crate::text::sub_chars(v, 0, i)
}

proof fn lemma_leading_token(s: Seq<char>, i: int)
    requires
        0 <= i <= s.len(),
        forall|k: int| 0 <= k < i ==> !is_ws(#[trigger] s[k]),
        i == s.len() || is_ws(s[i]),
    ensures
        leading_token(s) == s.subrange(0, i),
    decreases i,
{
    if i == 0 {
        assert(s.subrange(0, 0) =~= Seq::<char>::empty());
    } else {
        let t = s.drop_first();
        assert forall|k: int| 0 <= k < i - 1 implies !is_ws(#[trigger] t[k]) by {
            assert(t[k] == s[k + 1]);
            assert(!is_ws(s[k + 1]));
        }
        if i < s.len() {
            assert(t[i - 1] == s[i]);
        }
        lemma_leading_token(t, i - 1);
        assert(!is_ws(s[0]));
        assert(seq![s[0]] + t.subrange(0, i - 1) =~= s.subrange(0, i));
    }
}

fn code_of_line(raw: &Vec<char>) -> (r: Option<Vec<char>>)
    ensures
        match r {
            Some(c) => line_code(raw@) == Some(c@),
            None => line_code(raw@).is_none(),
        },
{
    let line = trim_chars(raw);
    if line.len() == 0 || line[0] == '#' {
        return None;
    }
    let token = leading_token_chars(&line);
    if !is_obd_chars(&token) {
        return None;
    }
    Some(upper_chars(&token))
}

fn contains_chars(v: &Vec<Vec<char>>, c: &Vec<char>) -> (r: bool)
    ensures
        r == v@.map_values(|b: Vec<char>| b@).contains(c@),
{
    let ghost vv = v@.map_values(|b: Vec<char>| b@);
    let n = v.len();
    let mut i: usize = 0;
    while i < n
        invariant
            n == v@.len(),
            vv == v@.map_values(|b: Vec<char>| b@),
            i <= n,
            forall|k: int| 0 <= k < i ==> #[trigger] vv[k] != c@,
        decreases n - i,
    {
        if chars_eq(&v[i], c) {
            assert(vv[i as int] == c@);
            return true;
        }
        i = i + 1;
    }
    false
}

/// Parse a DTC sidecar string into a deduplicated, ordered list of codes.
/// Lines beginning with `#` and blank lines are skipped; codes are
/// upper-cased.
pub fn parse_dtc_text(text: &str) -> (r: Vec<String>)
    ensures
        views(r@) == dtc_codes(text@),
{
    let chars = chars_of(text);
    let ls = lines_of(&chars);
    let ghost lv = ls@.map_values(|p: Vec<char>| p@);
    let mut out: Vec<Vec<char>> = Vec::new();
    let n = ls.len();
    let mut i: usize = 0;
    while i < n
        invariant
            n == ls@.len(),
            lv == ls@.map_values(|p: Vec<char>| p@),
            i <= n,
            out@.map_values(|b: Vec<char>| b@) == codes_of_lines(lv.take(i as int)),
        decreases n - i,
    {
        let ghost pre = lv.take(i as int);
        assert(lv.take(i + 1).drop_last() =~= pre);
        assert(lv.take(i + 1).last() == ls@[i as int]@);
        match code_of_line(&ls[i]) {
            Some(code) => {
                if !contains_chars(&out, &code) {
                    let ghost o0 = out@.map_values(|b: Vec<char>| b@);
                    out.push(code);
                    assert(out@.map_values(|b: Vec<char>| b@) =~= o0.push(code@));
                }
            },
            None => {},
        }
        i = i + 1;
    }
    assert(lv.take(n as int) =~= lv);
    let r = strings_of(&out);
    assert(views(r@) =~= out@.map_values(|b: Vec<char>| b@));
    r
}

/// The final component of a path (`Path::file_name`), when it has one.
pub uninterp spec fn path_file_name(p: Seq<char>) -> Option<Seq<char>>;

/// The path without its final component (`Path::parent`), when it has one.
pub uninterp spec fn path_parent(p: Seq<char>) -> Option<Seq<char>>;

/// Character views of an optional string.
pub open spec fn opt_view(o: Option<String>) -> Option<Seq<char>> {
    match o {
        Some(s) => Some(s@),
        None => None,
    }
}

/// `std::path::Path::file_name`, as a string; the file name is a slice of
/// a UTF-8 path, so the conversion back to `str` always succeeds.
#[verifier::external_body]
fn file_name_of(p: &str) -> (r: Option<String>)
    ensures
        opt_view(r) == path_file_name(p@),
{
    std::path::Path::new(p).file_name().and_then(|s| s.to_str()).map(|s| s.to_string())
}

/// `std::path::Path::parent`, as a string.
#[verifier::external_body]
fn parent_of(p: &str) -> (r: Option<String>)
    ensures
        opt_view(r) == path_parent(p@),
{
    std::path::Path::new(p).parent().and_then(|s| s.to_str()).map(|s| s.to_string())
}

/// Index of the last `'.'` in `s`, if any.
pub open spec fn last_dot(s: Seq<char>) -> Option<int>
    decreases s.len(),
{
    if s.len() == 0 {
        None
    } else if s.last() == '.' {
        Some(s.len() - 1)
    } else {
        last_dot(s.drop_last())
    }
}

/// `Path::file_stem` of a file name: the whole name when it has no `'.'`
/// or its only `'.'` leads it, otherwise the part before the final `'.'`.
pub open spec fn stem_of_name(name: Seq<char>) -> Seq<char> {
    match last_dot(name) {
        Some(d) => if d == 0 {
            name
        } else {
            name.take(d)
        },
        None => name,
    }
}

/// `Path::join` of a relative file name onto a directory: the name alone
/// under an empty directory, otherwise joined with one `'/'` (none added
/// when the directory already ends in one). An absolute name replaces the
/// directory.
pub open spec fn path_join(dir: Seq<char>, name: Seq<char>) -> Seq<char> {
    if name.len() > 0 && name[0] == '/' {
        name
    } else if dir.len() == 0 {
        name
    } else if dir.last() == '/' {
        dir + name
    } else {
        dir + seq!['/'] + name
    }
}

/// The sidecar path for a log whose parent directory and file name are
/// given: `<parent>/<stem>.dtc.txt`, with stem `log` when there is no file
/// name and an empty parent when there is none.
pub open spec fn sidecar_path(parent: Option<Seq<char>>, file_name: Option<Seq<char>>) -> Seq<char> {
    let stem = match file_name {
        Some(n) => stem_of_name(n),
        None => "log"@,
    };
    let dir = match parent {
        Some(d) => d,
        None => Seq::empty(),
    };
    path_join(dir, stem + ".dtc.txt"@)
}

fn stem_chars(name: &Vec<char>) -> (r: Vec<char>)
    ensures
        r@ == stem_of_name(name@),
{
    let n = name.len();
    let mut i: usize = n;
    assert(name@.take(n as int) =~= name@);
    while i > 0 && name[i - 1] != '.'
        invariant
            n == name@.len(),
            i <= n,
            last_dot(name@) == last_dot(name@.take(i as int)),
        decreases i,
    {
        assert(name@.take(i as int).drop_last() =~= name@.take(i - 1));
        i = i - 1;
    }
    assert(name@.take(n as int) =~= name@);
    if i == 0 {
        assert(name@.take(0).len() == 0);
        return crate::text::sub_chars(name, 0, n);
    }
    assert(name@.take(i as int).last() == '.');
    if i == 1 {
        crate::text::sub_chars(name, 0, n)
    } else {
        crate::text::sub_chars(name, 0, i - 1)
    }
}

/// The sidecar path assembled from a log's parent directory and file name
/// (see [`sidecar_path`]).
pub fn sidecar_path_from_parts(parent: Option<&str>, file_name: Option<&str>) -> (r: String)
    ensures
        r@ == sidecar_path(
            match parent {
                Some(d) => Some(d@),
                None => None,
            },
            match file_name {
                Some(n) => Some(n@),
                None => None,
            },
        ),
{
    let stem = match file_name {
        Some(n) => {
            let v = chars_of(n);
            stem_chars(&v)
        },
        None => chars_of("log"),
    };
    let mut name = string_of(&stem);
    append_str(&mut name, ".dtc.txt");
    let nv = chars_of(name.as_str());
    if nv.len() > 0 && nv[0] == '/' {
        return name;
    }
    let dir = match parent {
        Some(d) => chars_of(d),
        None => Vec::new(),
    };
    if dir.len() == 0 {
        return name;
    }
    let mut out = string_of(&dir);
    if dir[dir.len() - 1] != '/' {
        append_str(&mut out, "/");
        proof {
            reveal_strlit("/");
        }
        assert("/"@ =~= seq!['/']);
    }
    crate::text::append_chars(&mut out, &nv);
    out
}

/// Convention: the sidecar lives next to the CSV with `.dtc.txt` appended
/// to the file stem, so `vcds_amf_pre_delete.csv` gives
/// `vcds_amf_pre_delete.dtc.txt` in the same directory.
pub fn sidecar_path_for(csv_path: &str) -> (r: String)
    ensures
        r@ == sidecar_path(path_parent(csv_path@), path_file_name(csv_path@)),
{
    let parent = parent_of(csv_path);
    let name = file_name_of(csv_path);
    let p = match &parent {
        Some(d) => Some(d.as_str()),
        None => None,
    };
    let f = match &name {
        Some(n) => Some(n.as_str()),
        None => None,
    };
    sidecar_path_from_parts(p, f)
}

/// Reading the codes back gives each code once: no code repeats.
pub proof fn lemma_dtc_codes_distinct(text: Seq<char>)
    ensures
        forall|i: int, j: int|
            0 <= i < j < dtc_codes(text).len() ==> #[trigger] dtc_codes(text)[i] != #[trigger] dtc_codes(
                text,
            )[j],
{
    lemma_codes_of_lines_props(lines(text));
}

/// Every code read from a sidecar is an upper-case code of the OBD-II shape.
pub proof fn lemma_dtc_codes_well_formed(text: Seq<char>)
    ensures
        forall|i: int|
            0 <= i < dtc_codes(text).len() ==> obd_shape(#[trigger] dtc_codes(text)[i])
                && upper_seq(dtc_codes(text)[i]) == dtc_codes(text)[i],
{
    lemma_codes_of_lines_props(lines(text));
}

/// Every line that carries a code contributes it: nothing valid is lost.
pub proof fn lemma_dtc_codes_complete(text: Seq<char>)
    ensures
        forall|k: int|
            0 <= k < lines(text).len() && (#[trigger] line_code(lines(text)[k])).is_some()
                ==> dtc_codes(text).contains(line_code(lines(text)[k]).unwrap()),
{
    lemma_codes_of_lines_props(lines(text));
}

/// Codes read from a sidecar, written back one per line (`join("\n")`),
/// read back as the same codes in the same order.
pub proof fn lemma_dtc_codes_reparse(text: Seq<char>)
    ensures
        dtc_codes(join_sep(dtc_codes(text), seq!['\n'])) == dtc_codes(text),
{
    let v = dtc_codes(text);
    lemma_dtc_codes_distinct(text);
    lemma_dtc_codes_well_formed(text);
    assert forall|i: int| 0 <= i < v.len() implies #[trigger] line_code(v[i]) == Some(v[i]) && v[i].len() > 0
        && v[i].last() != '\r' by {
        lemma_code_line(v[i]);
    }
    assert forall|i: int, t: int| 0 <= i < v.len() && 0 <= t < v[i].len() implies #[trigger] v[i][t] != '\n' by {
        lemma_code_line(v[i]);
    }
    lemma_lines_of_join(v);
    lemma_codes_of_own_lines(v);
}

/// An upper-case code of the OBD-II shape, alone on a line, is that line's
/// code; it holds no line break and no carriage return.
proof fn lemma_code_line(c: Seq<char>)
    requires
        obd_shape(c),
        upper_seq(c) == c,
    ensures
        line_code(c) == Some(c),
        c.len() > 0,
        c.last() != '\r',
        forall|t: int| 0 <= t < c.len() ==> c[t] != '\n',
{
    assert(upper_seq(c)[0] == upper(c[0]));
    assert forall|k: int| 0 <= k < c.len() implies !is_ws(#[trigger] c[k]) by {
        if k >= 1 {
            assert(is_hex(c[k]));
        }
    }
    assert(trim_start(c) == c);
    assert(trim_end(c) == c);
    lemma_leading_token(c, 5);
    assert(c.subrange(0, 5) =~= c);
}

/// Lines that are distinct codes, each its own line's code, read as
/// themselves.
proof fn lemma_codes_of_own_lines(v: Seq<Seq<char>>)
    requires
        forall|i: int, j: int| 0 <= i < j < v.len() ==> #[trigger] v[i] != #[trigger] v[j],
        forall|i: int| 0 <= i < v.len() ==> #[trigger] line_code(v[i]) == Some(v[i]),
    ensures
        codes_of_lines(v) == v,
    decreases v.len(),
{
    if v.len() > 0 {
        let w = v.drop_last();
        let n = v.len() - 1;
        assert forall|i: int, j: int| 0 <= i < j < w.len() implies #[trigger] w[i] != #[trigger] w[j] by {
            assert(v[i] != v[j]);
        }
        assert forall|i: int| 0 <= i < w.len() implies #[trigger] line_code(w[i]) == Some(w[i]) by {
            assert(line_code(v[i]) == Some(v[i]));
        }
        lemma_codes_of_own_lines(w);
        assert(line_code(v[n]) == Some(v[n]));
        if w.contains(v.last()) {
            let i = choose|i: int| 0 <= i < w.len() && w[i] == v.last();
            assert(v[i] != v[n]);
        }
        assert(w.push(v.last()) =~= v);
    }
}

proof fn lemma_upper_code(t: Seq<char>)
    requires
        obd_shape(t),
    ensures
        obd_shape(upper_seq(t)),
        upper_seq(upper_seq(t)) == upper_seq(t),
{
    let u = upper_seq(t);
    assert forall|i: int| 1 <= i < 5 implies is_hex(#[trigger] u[i]) by {
        assert(is_hex(t[i]));
    }
    assert(upper(u[0]) == u[0]);
    assert forall|i: int| 0 <= i < 5 implies #[trigger] upper_seq(u)[i] == u[i] by {
        assert(upper(upper(t[i])) == upper(t[i]));
    }
    assert(upper_seq(u) =~= u);
}

proof fn lemma_codes_of_lines_props(ls: Seq<Seq<char>>)
    ensures
        forall|i: int, j: int|
            0 <= i < j < codes_of_lines(ls).len() ==> #[trigger] codes_of_lines(ls)[i]
                != #[trigger] codes_of_lines(ls)[j],
        forall|i: int|
            0 <= i < codes_of_lines(ls).len() ==> obd_shape(#[trigger] codes_of_lines(ls)[i])
                && upper_seq(codes_of_lines(ls)[i]) == codes_of_lines(ls)[i],
        forall|k: int|
            0 <= k < ls.len() && (#[trigger] line_code(ls[k])).is_some() ==> codes_of_lines(
                ls,
            ).contains(line_code(ls[k]).unwrap()),
    decreases ls.len(),
{
    if ls.len() > 0 {
        let pre = ls.drop_last();
        lemma_codes_of_lines_props(pre);
        let prev = codes_of_lines(pre);
        let cur = codes_of_lines(ls);
        match line_code(ls.last()) {
            Some(c) => {
                let t = leading_token(trim(ls.last()));
                lemma_upper_code(t);
                if !prev.contains(c) {
                    assert(cur == prev.push(c));
                    assert forall|i: int, j: int| 0 <= i < j < cur.len() implies #[trigger] cur[i]
                        != #[trigger] cur[j] by {
                        if j == prev.len() {
                            assert(cur[i] == prev[i]);
                        } else {
                            assert(cur[i] == prev[i] && cur[j] == prev[j]);
                        }
                    }
                    assert forall|i: int| 0 <= i < cur.len() implies obd_shape(#[trigger] cur[i])
                        && upper_seq(cur[i]) == cur[i] by {
                        if i < prev.len() {
                            assert(cur[i] == prev[i]);
                        }
                    }
                }
                assert forall|k: int|
                    0 <= k < ls.len() && (#[trigger] line_code(ls[k])).is_some() implies cur.contains(
                    line_code(ls[k]).unwrap(),
                ) by {
                    if k < pre.len() {
                        assert(ls[k] == pre[k]);
                        let x = line_code(ls[k]).unwrap();
                        let w = choose|w: int| 0 <= w < prev.len() && prev[w] == x;
                        if !prev.contains(c) {
                            assert(cur[w] == x);
                        }
                    } else {
                        if !prev.contains(c) {
                            assert(cur[prev.len() as int] == c);
                        }
                    }
                }
            },
            None => {
                assert forall|k: int|
                    0 <= k < ls.len() && (#[trigger] line_code(ls[k])).is_some() implies cur.contains(
                    line_code(ls[k]).unwrap(),
                ) by {
                    assert(k < pre.len());
                    assert(ls[k] == pre[k]);
                }
            },
        }
    }
}

} // verus!
