//! Translate VCDS `NNN-K` column ids into canonical channel names.
//!
//! This is the only place in the codebase where group-field ids become
//! channel names; every other module talks canonical names exclusively.
//!
//! Some channels appear in multiple groups (RPM is in 001/003/008/011/020).
//! When several groups carry the same canonical channel, the first present
//! wins; subsequent duplicates are kept under a `__alt_<group>` suffix so
//! cross-validation never silently drops them.

use vstd::prelude::*;

use crate::platform::amf_edc15p::channels::{is_channel_name, CHANNELS};
use crate::text::append_chars;
use crate::text::append_str;
use crate::text::chars_eq;
use crate::text::chars_eq_str;
use crate::text::chars_of;
use crate::text::lemma_lex_transitive;
use crate::text::lemma_lex_trichotomy;
use crate::text::lemma_split_on_first_piece;
use crate::text::lex_compare;
use crate::text::lex_lt;
use crate::text::split_chars;
use crate::text::split_on;
use crate::text::str_eq;
use crate::text::string_of;
use crate::text::views;

verus! {

/// Number of `(group-field id, canonical name)` pairs.
pub const N_GF: usize = 37;

/// `(group-field id, canonical name)` table. Every name is a channel of the
/// registry; ids not listed here stay unmapped.
pub const GF_TO_CANONICAL: [(&'static str, &'static str); 37] = [
    ("001-1", "rpm"),
    ("001-2", "iq_actual"),
    ("001-4", "coolant_c"),
    ("003-1", "rpm"),
    ("003-2", "maf_spec"),
    ("003-3", "maf_actual"),
    ("003-4", "egr_duty"),
    ("004-1", "rpm"),
    ("004-2", "battery_v"),
    ("004-3", "coolant_c"),
    ("008-1", "rpm"),
    ("008-2", "iq_requested"),
    ("008-3", "iq_limit_rpm"),
    ("008-4", "iq_limit_maf"),
    ("005-1", "rpm"),
    ("005-2", "load_pct"),
    ("005-3", "vehicle_speed"),
    ("010-2", "atm_pressure"),
    ("010-3", "map_abs_010"),
    ("010-4", "pedal_pct"),
    ("011-1", "rpm"),
    ("011-2", "boost_spec"),
    ("011-3", "boost_actual"),
    ("011-4", "n75_duty"),
    ("013-1", "srcv_cyl1"),
    ("013-2", "srcv_cyl2"),
    ("013-3", "srcv_cyl3"),
    ("013-4", "fuel_temp_c"),
    ("015-1", "rpm"),
    ("015-2", "torque_request"),
    ("015-3", "torque_actual"),
    ("020-1", "rpm"),
    ("020-2", "soi_actual"),
    ("020-3", "map_abs"),
    ("020-4", "load_pct"),
    ("031-2", "maf_spec"),
    ("031-3", "maf_actual"),
];

/// Index of the first table entry whose id is `k`, searching from `i`.
pub open spec fn gf_find_from(k: Seq<char>, i: int) -> Option<int>
    decreases N_GF - i,
{
    if i < 0 || i >= N_GF {
        None
    } else if GF_TO_CANONICAL[i].0@ == k {
        Some(i)
    } else {
        gf_find_from(k, i + 1)
    }
}

/// The canonical channel name of a `NNN-K` id, if the table knows it.
pub open spec fn canonical_of(k: Seq<char>) -> Option<&'static str> {
    match gf_find_from(k, 0) {
        Some(i) => Some(GF_TO_CANONICAL[i].1),
        None => None,
    }
}

/// Every canonical name of the table is a channel of the registry.
pub proof fn lemma_table_names_registered()
    ensures
        forall|i: int| 0 <= i < N_GF ==> is_channel_name(#[trigger] GF_TO_CANONICAL[i].1@),
{
    assert forall|i: int| 0 <= i < N_GF implies is_channel_name(#[trigger] GF_TO_CANONICAL[i].1@) by {
        if i == 0 {
            assert(CHANNELS[0].0@ == GF_TO_CANONICAL[i].1@);
        }
        if i == 1 {
            assert(CHANNELS[1].0@ == GF_TO_CANONICAL[i].1@);
        }
        if i == 2 {
            assert(CHANNELS[5].0@ == GF_TO_CANONICAL[i].1@);
        }
        if i == 3 {
            assert(CHANNELS[0].0@ == GF_TO_CANONICAL[i].1@);
        }
        if i == 4 {
            assert(CHANNELS[8].0@ == GF_TO_CANONICAL[i].1@);
        }
        if i == 5 {
            assert(CHANNELS[7].0@ == GF_TO_CANONICAL[i].1@);
        }
        if i == 6 {
            assert(CHANNELS[9].0@ == GF_TO_CANONICAL[i].1@);
        }
        if i == 7 {
            assert(CHANNELS[0].0@ == GF_TO_CANONICAL[i].1@);
        }
        if i == 8 {
            assert(CHANNELS[6].0@ == GF_TO_CANONICAL[i].1@);
        }
        if i == 9 {
            assert(CHANNELS[5].0@ == GF_TO_CANONICAL[i].1@);
        }
        if i == 10 {
            assert(CHANNELS[0].0@ == GF_TO_CANONICAL[i].1@);
        }
        if i == 11 {
            assert(CHANNELS[2].0@ == GF_TO_CANONICAL[i].1@);
        }
        if i == 12 {
            assert(CHANNELS[3].0@ == GF_TO_CANONICAL[i].1@);
        }
        if i == 13 {
            assert(CHANNELS[4].0@ == GF_TO_CANONICAL[i].1@);
        }
        if i == 14 {
            assert(CHANNELS[0].0@ == GF_TO_CANONICAL[i].1@);
        }
        if i == 15 {
            assert(CHANNELS[18].0@ == GF_TO_CANONICAL[i].1@);
        }
        if i == 16 {
            assert(CHANNELS[25].0@ == GF_TO_CANONICAL[i].1@);
        }
        if i == 17 {
            assert(CHANNELS[13].0@ == GF_TO_CANONICAL[i].1@);
        }
        if i == 18 {
            assert(CHANNELS[15].0@ == GF_TO_CANONICAL[i].1@);
        }
        if i == 19 {
            assert(CHANNELS[14].0@ == GF_TO_CANONICAL[i].1@);
        }
        if i == 20 {
            assert(CHANNELS[0].0@ == GF_TO_CANONICAL[i].1@);
        }
        if i == 21 {
            assert(CHANNELS[10].0@ == GF_TO_CANONICAL[i].1@);
        }
        if i == 22 {
            assert(CHANNELS[11].0@ == GF_TO_CANONICAL[i].1@);
        }
        if i == 23 {
            assert(CHANNELS[12].0@ == GF_TO_CANONICAL[i].1@);
        }
        if i == 24 {
            assert(CHANNELS[21].0@ == GF_TO_CANONICAL[i].1@);
        }
        if i == 25 {
            assert(CHANNELS[22].0@ == GF_TO_CANONICAL[i].1@);
        }
        if i == 26 {
            assert(CHANNELS[23].0@ == GF_TO_CANONICAL[i].1@);
        }
        if i == 27 {
            assert(CHANNELS[24].0@ == GF_TO_CANONICAL[i].1@);
        }
        if i == 28 {
            assert(CHANNELS[0].0@ == GF_TO_CANONICAL[i].1@);
        }
        if i == 29 {
            assert(CHANNELS[19].0@ == GF_TO_CANONICAL[i].1@);
        }
        if i == 30 {
            assert(CHANNELS[20].0@ == GF_TO_CANONICAL[i].1@);
        }
        if i == 31 {
            assert(CHANNELS[0].0@ == GF_TO_CANONICAL[i].1@);
        }
        if i == 32 {
            assert(CHANNELS[16].0@ == GF_TO_CANONICAL[i].1@);
        }
        if i == 33 {
            assert(CHANNELS[17].0@ == GF_TO_CANONICAL[i].1@);
        }
        if i == 34 {
            assert(CHANNELS[18].0@ == GF_TO_CANONICAL[i].1@);
        }
        if i == 35 {
            assert(CHANNELS[8].0@ == GF_TO_CANONICAL[i].1@);
        }
        if i == 36 {
            assert(CHANNELS[7].0@ == GF_TO_CANONICAL[i].1@);
        }
    }
}

/// A found index lies in the table and carries the searched id.
proof fn lemma_gf_find_in_table(k: Seq<char>, i: int)
    ensures
        gf_find_from(k, i) matches Some(j) ==> 0 <= j < N_GF && GF_TO_CANONICAL[j].0@ == k,
    decreases N_GF - i,
{
    if 0 <= i < N_GF && GF_TO_CANONICAL[i].0@ != k {
        lemma_gf_find_in_table(k, i + 1);
    }
}

/// Every name the canonicalizer gives is a channel of the registry.
pub proof fn lemma_canonical_is_channel(k: Seq<char>)
    ensures
        canonical_of(k) matches Some(c) ==> is_channel_name(c@),
{
    lemma_gf_find_in_table(k, 0);
    lemma_table_names_registered();
}

/// Look up the canonical channel name for a `NNN-K` id.
pub fn canonical_name(group_field_id: &str) -> (r: Option<&'static str>)
    ensures
        r == canonical_of(group_field_id@),
        r matches Some(c) ==> is_channel_name(c@),
{
    proof {
        lemma_canonical_is_channel(group_field_id@);
    }
    let key = chars_of(group_field_id);
    canonical_of_chars(&key)
}

/// [`canonical_name`] on a character buffer.
pub fn canonical_of_chars(key: &Vec<char>) -> (r: Option<&'static str>)
    ensures
        r == canonical_of(key@),
{
    for i in 0..N_GF
        invariant
            gf_find_from(key@, 0) == gf_find_from(key@, i as int),
    {
        let e = GF_TO_CANONICAL[i];
        if chars_eq_str(key, e.0) {
            return Some(e.1);
        }
    }
    None
}

/// One column-map entry produced by [`build_column_map`].
#[derive(Debug, Clone)]
pub struct MappedColumn {
    /// Original `NNN-K` id from the VCDS header.
    pub gfid: String,
    /// Canonical name to use downstream (may have an `__alt_<group>` suffix
    /// for duplicates).
    pub canonical: String,
}

/// `(gfid, canonical)` views of a column map.
pub open spec fn mapped_view(m: Seq<MappedColumn>) -> Seq<(Seq<char>, Seq<char>)> {
    m.map_values(|c: MappedColumn| (c.gfid@, c.canonical@))
}

/// The group part of a `NNN-K` id: everything before the first `'-'`.
pub open spec fn group_of(gfid: Seq<char>) -> Seq<char> {
    split_on(gfid, '-')[0]
}

/// Whether some id in `ids` already maps to the canonical name `c`.
pub open spec fn canonical_seen(ids: Seq<Seq<char>>, c: Seq<char>) -> bool {
    exists|k: int|
        0 <= k < ids.len() && (#[trigger] canonical_of(ids[k])).is_some()
            && canonical_of(ids[k]).unwrap()@ == c
}

/// Column name given to `ids[i]` (which must be a known id): its canonical
/// name, suffixed with `__alt_<group>` when an earlier id already used it.
pub open spec fn mapped_name(ids: Seq<Seq<char>>, i: int) -> Seq<char> {
    let c = canonical_of(ids[i]).unwrap()@;
    if canonical_seen(ids.take(i), c) {
        c + "__alt_"@ + group_of(ids[i])
    } else {
        c
    }
}

/// `(mapped columns, unmapped ids)` for a list of column ids, in order.
pub open spec fn column_map(ids: Seq<Seq<char>>) -> (Seq<(Seq<char>, Seq<char>)>, Seq<Seq<char>>)
    decreases ids.len(),
{
    if ids.len() == 0 {
        (Seq::empty(), Seq::empty())
    } else {
        let rest = column_map(ids.drop_last());
        let i = ids.len() - 1;
        if canonical_of(ids[i]).is_some() {
            (rest.0.push((ids[i], mapped_name(ids, i))), rest.1)
        } else {
            (rest.0, rest.1.push(ids[i]))
        }
    }
}

/// Nothing is dropped: every id lands in exactly one of the two outputs,
/// recognised ids among the mapped columns (in order, under their own id)
/// and the others among the unmapped ids.
pub proof fn lemma_column_map_partition(ids: Seq<Seq<char>>)
    ensures
        column_map(ids).0.len() + column_map(ids).1.len() == ids.len(),
        column_map(ids).0.map_values(|m: (Seq<char>, Seq<char>)| m.0) == ids.filter(
            |k: Seq<char>| canonical_of(k).is_some(),
        ),
        column_map(ids).1 == ids.filter(|k: Seq<char>| canonical_of(k).is_none()),
    decreases ids.len(),
{
    reveal(Seq::filter);
    if ids.len() > 0 {
        let pre = ids.drop_last();
        lemma_column_map_partition(pre);
        let m0 = column_map(pre).0;
        let last = ids[ids.len() - 1];
        if canonical_of(last).is_some() {
            assert(column_map(ids).0.map_values(|m: (Seq<char>, Seq<char>)| m.0) =~= m0.map_values(
                |m: (Seq<char>, Seq<char>)| m.0,
            ).push(last));
        } else {
            assert(column_map(ids).0.map_values(|m: (Seq<char>, Seq<char>)| m.0) =~= m0.map_values(
                |m: (Seq<char>, Seq<char>)| m.0,
            ));
        }
    } else {
        assert(column_map(ids).0.map_values(|m: (Seq<char>, Seq<char>)| m.0) =~= Seq::<Seq<char>>::empty());
    }
}

/// Whether `v` holds a string equal to `s`.
fn contains_str(v: &Vec<&'static str>, s: &str) -> (r: bool)
    ensures
        r == exists|k: int| 0 <= k < v@.len() && #[trigger] v@[k]@ == s@,
{
    let n = v.len();
    for j in 0..n
        invariant
            n == v@.len(),
            forall|k: int| 0 <= k < j ==> #[trigger] v@[k]@ != s@,
    {
        if str_eq(v[j], s) {
            return true;
        }
    }
    false
}

/// The group part of `gfid` (`gfid.split('-').next()`).
pub fn group_prefix(gfid: &Vec<char>) -> (r: Vec<char>)
    ensures
        r@ == group_of(gfid@),
{
    let pieces = split_chars(gfid, '-');
    assert(pieces@.map_values(|p: Vec<char>| p@)[0] == pieces@[0]@);
    let first = &pieces[0];
    let n = first.len();
    crate::text::sub_chars(first, 0, n)
}

/// Walk the column ids in order and produce `(mappings, unmapped_ids)`.
///
/// Duplicate canonical names get a `__alt_<group>` suffix so the parser
/// never drops them silently.
pub fn build_column_map(group_field_ids: &[String]) -> (r: (Vec<MappedColumn>, Vec<String>))
    ensures
        mapped_view(r.0@) == column_map(views(group_field_ids@)).0,
        views(r.1@) == column_map(views(group_field_ids@)).1,
{
    let ghost ids = views(group_field_ids@);
    let mut out: Vec<MappedColumn> = Vec::new();
    let mut seen: Vec<&'static str> = Vec::new();
    let mut unmapped: Vec<String> = Vec::new();
    let n = group_field_ids.len();
    for i in 0..n
        invariant
            n == ids.len(),
            ids == views(group_field_ids@),
            mapped_view(out@) == column_map(ids.take(i as int)).0,
            views(unmapped@) == column_map(ids.take(i as int)).1,
            forall|k: int| 0 <= k < seen@.len() ==> canonical_seen(ids.take(i as int), #[trigger] seen@[k]@),
            forall|k: int|
                0 <= k < i && (#[trigger] canonical_of(ids[k])).is_some() ==> exists|j: int|
                    0 <= j < seen@.len() && #[trigger] seen@[j]@ == canonical_of(ids[k]).unwrap()@,
    {
        let gfid = &group_field_ids[i];
        let key = chars_of(gfid.as_str());
        assert(key@ == ids[i as int]);
        let ghost pre = ids.take(i as int);
        let ghost cur = ids.take(i + 1);
        assert(cur.drop_last() =~= pre);
        assert(cur.take(i as int) =~= pre);
        assert(cur[i as int] == ids[i as int]);
        let ghost seen0 = seen@;
        match canonical_of_chars(&key) {
            Some(canonical) => {
                let found = contains_str(&seen, canonical);
                proof {
                    if found {
                        let kk = choose|kk: int| 0 <= kk < seen@.len() && #[trigger] seen@[kk]@ == canonical@;
                        assert(canonical_seen(pre, seen@[kk]@));
                    }
                    if canonical_seen(pre, canonical@) {
                        let k0 = choose|k0: int|
                            0 <= k0 < pre.len() && (#[trigger] canonical_of(pre[k0])).is_some()
                                && canonical_of(pre[k0]).unwrap()@ == canonical@;
                        assert(pre[k0] == ids[k0]);
                        assert(canonical_of(ids[k0]).is_some());
                    }
                }
                assert(found == canonical_seen(pre, canonical@));
                let mut name = String::from_str(canonical);
                if found {
                    let gchars = group_prefix(&key);
                    append_str(&mut name, "__alt_");
                    append_chars(&mut name, &gchars);
                } else {
                    seen.push(canonical);
                }
                assert(name@ == mapped_name(cur, i as int));
                let ghost o0 = mapped_view(out@);
                out.push(MappedColumn { gfid: gfid.clone(), canonical: name });
                assert(mapped_view(out@) =~= o0.push((ids[i as int], mapped_name(cur, i as int))));
                proof {
                    assert forall|k: int|
                        0 <= k < i + 1 && (#[trigger] canonical_of(ids[k])).is_some() implies exists|j: int|
                            0 <= j < seen@.len() && #[trigger] seen@[j]@ == canonical_of(ids[k]).unwrap()@ by {
                        if k < i {
                            let jj = choose|jj: int| 0 <= jj < seen0.len() && #[trigger] seen0[jj]@ == canonical_of(ids[k]).unwrap()@;
                            assert(seen@[jj] == seen0[jj]);
                        } else if !found {
                            assert(seen@[seen@.len() - 1]@ == canonical_of(ids[k]).unwrap()@);
                        } else {
                            let jj = choose|jj: int| 0 <= jj < seen0.len() && #[trigger] seen0[jj]@ == canonical@;
                            assert(seen@[jj] == seen0[jj]);
                        }
                    }
                    assert forall|k: int| 0 <= k < seen@.len() implies canonical_seen(
                        cur,
                        #[trigger] seen@[k]@,
                    ) by {
                        let c = seen@[k]@;
                        if k < seen0.len() {
                            assert(seen0[k] == seen@[k]);
                            assert(canonical_seen(pre, c));
                            let k0 = choose|k0: int|
                                0 <= k0 < pre.len() && (#[trigger] canonical_of(pre[k0])).is_some()
                                    && canonical_of(pre[k0]).unwrap()@ == c;
                            assert(cur[k0] == pre[k0]);
                        } else {
                            assert(canonical_of(cur[i as int]).is_some());
                        }
                    }
                }
            },
            None => {
                let ghost u0 = views(unmapped@);
                unmapped.push(gfid.clone());
                assert(views(unmapped@) =~= u0.push(ids[i as int]));
                proof {
                    assert forall|k: int| 0 <= k < seen@.len() implies canonical_seen(
                        cur,
                        #[trigger] seen@[k]@,
                    ) by {
                        let c = seen@[k]@;
                        assert(canonical_seen(pre, c));
                        let k0 = choose|k0: int|
                            0 <= k0 < pre.len() && (#[trigger] canonical_of(pre[k0])).is_some()
                                && canonical_of(pre[k0]).unwrap()@ == c;
                        assert(cur[k0] == pre[k0]);
                    }
                }
            },
        }
    }
    assert(ids.take(n as int) =~= ids);
    (out, unmapped)
}

/// Strictly increasing, hence duplicate-free, in `String` order.
pub open spec fn strictly_sorted(v: Seq<Seq<char>>) -> bool {
    forall|i: int, j: int| 0 <= i < j < v.len() ==> lex_lt(#[trigger] v[i], #[trigger] v[j])
}

/// The set of groups of a list of `NNN-K` ids.
pub open spec fn group_set(ids: Seq<Seq<char>>) -> Set<Seq<char>> {
    ids.map_values(|s: Seq<char>| group_of(s)).to_set()
}

pub open spec fn bufviews(v: Seq<Vec<char>>) -> Seq<Seq<char>> {
    v.map_values(|b: Vec<char>| b@)
}

proof fn lemma_group_set_push(ids: Seq<Seq<char>>, i: int)
    requires
        0 <= i < ids.len(),
    ensures
        group_set(ids.take(i + 1)) == group_set(ids.take(i)).insert(group_of(ids[i])),
{
    let a = ids.take(i).map_values(|s: Seq<char>| group_of(s));
    let b = ids.take(i + 1).map_values(|s: Seq<char>| group_of(s));
    let g = group_of(ids[i]);
    assert(b =~= a.push(g));
    assert forall|x: Seq<char>| b.contains(x) implies a.to_set().insert(g).contains(x) by {
        let k = choose|k: int| 0 <= k < b.len() && b[k] == x;
        if k < i {
            assert(a[k] == x);
        }
    }
    assert forall|x: Seq<char>| a.to_set().insert(g).contains(x) implies b.contains(x) by {
        if x == g {
            assert(b[i] == g);
        } else {
            let k = choose|k: int| 0 <= k < a.len() && a[k] == x;
            assert(b[k] == x);
        }
    }
    assert(b.to_set() =~= a.to_set().insert(g));
}

/// Insert `g` into the strictly sorted `keys` unless it is already present.
pub fn insert_sorted(keys: &mut Vec<Vec<char>>, g: Vec<char>)
    requires
        strictly_sorted(bufviews(old(keys)@)),
    ensures
        strictly_sorted(bufviews(final(keys)@)),
        bufviews(final(keys)@).to_set() == bufviews(old(keys)@).to_set().insert(g@),
{
    let ghost old_keys = keys@;
    let ghost ov = bufviews(old_keys);
    let n = keys.len();
    let mut pos: usize = 0;
    let mut stop = false;
    while pos < n && !stop
        invariant
            n == keys@.len(),
            keys@ == old_keys,
            ov == bufviews(old_keys),
            strictly_sorted(ov),
            pos <= n,
            stop ==> pos < n && !lex_lt(ov[pos as int], g@),
            forall|k: int| 0 <= k < pos ==> lex_lt(#[trigger] ov[k], g@),
        decreases n - pos, (if stop { 0int } else { 1int }),
    {
        let c = lex_compare(&keys[pos], &g);
        if c == -1 {
            pos = pos + 1;
        } else {
            stop = true;
        }
    }
    if pos < n && chars_eq(&keys[pos], &g) {
        assert(ov[pos as int] == g@);
        assert(ov.to_set().insert(g@) =~= ov.to_set());
        return;
    }
    if pos < n {
        proof {
            lemma_lex_trichotomy(ov[pos as int], g@);
        }
    }
    proof {
        assert forall|k: int| pos <= k < n implies lex_lt(g@, #[trigger] ov[k]) by {
            if k > pos {
                lemma_lex_transitive(g@, ov[pos as int], ov[k]);
            }
        }
    }
    keys.insert(pos, g);
    proof {
        let nv = bufviews(keys@);
        assert(nv =~= ov.insert(pos as int, g@));
        assert forall|i: int, j: int| 0 <= i < j < nv.len() implies lex_lt(#[trigger] nv[i], #[trigger] nv[j]) by {
            if j < pos {
            } else if j == pos {
            } else if i == pos {
                assert(nv[j] == ov[j - 1]);
            } else if i < pos {
                assert(nv[j] == ov[j - 1]);
                lemma_lex_transitive(ov[i], g@, ov[j - 1]);
            } else {
                assert(nv[i] == ov[i - 1]);
                assert(nv[j] == ov[j - 1]);
            }
        }
        assert forall|x: Seq<char>| nv.contains(x) implies ov.to_set().insert(g@).contains(x) by {
            let k = choose|k: int| 0 <= k < nv.len() && nv[k] == x;
            if k < pos {
                assert(ov[k] == x);
            } else if k > pos {
                assert(ov[k - 1] == x);
            }
        }
        assert forall|x: Seq<char>| ov.to_set().insert(g@).contains(x) implies nv.contains(x) by {
            if x == g@ {
                assert(nv[pos as int] == x);
            } else {
                let k = choose|k: int| 0 <= k < ov.len() && ov[k] == x;
                if k < pos {
                    assert(nv[k] == x);
                } else {
                    assert(nv[k + 1] == x);
                }
            }
        }
        assert(nv.to_set() =~= ov.to_set().insert(g@));
    }
}

/// Return the set of group ids (`"001"`, `"003"`, ...) present in a list
/// of `NNN-K` columns, in ascending `String` order without repetition.
pub fn groups_present(group_field_ids: &[String]) -> (r: Vec<String>)
    ensures
        strictly_sorted(views(r@)),
        views(r@).to_set() == group_set(views(group_field_ids@)),
{
    let ghost ids = views(group_field_ids@);
    let n = group_field_ids.len();
    let mut keys: Vec<Vec<char>> = Vec::new();
    let mut i: usize = 0;
    assert(bufviews(keys@).to_set() =~= group_set(ids.take(0)));
    while i < n
        invariant
            n == ids.len(),
            ids == views(group_field_ids@),
            i <= n,
            strictly_sorted(bufviews(keys@)),
            bufviews(keys@).to_set() == group_set(ids.take(i as int)),
        decreases n - i,
    {
        let key = chars_of(group_field_ids[i].as_str());
        assert(key@ == ids[i as int]);
        let g = group_prefix(&key);
        insert_sorted(&mut keys, g);
        proof {
            lemma_group_set_push(ids, i as int);
        }
        i = i + 1;
    }
    let out = crate::text::strings_of(&keys);
    assert(views(out@) =~= bufviews(keys@));
    assert(ids.take(n as int) =~= ids);
    out
}


// ---------------------------------------------------------------------------
// Distinct column names
// ---------------------------------------------------------------------------

/// A channel-name shape: no two underscores in a row, and no trailing one.
pub open spec fn name_ok(s: Seq<char>) -> bool
    decreases s.len(),
{
    if s.len() == 0 {
        true
    } else if s.len() == 1 {
        s[0] != '_'
    } else {
        !(s[0] == '_' && s[1] == '_') && name_ok(s.drop_first())
    }
}

proof fn lemma_name_ok_at(s: Seq<char>, p: int)
    requires
        name_ok(s),
        0 <= p < s.len(),
    ensures
        !(p + 1 < s.len() && s[p] == '_' && s[p + 1] == '_'),
        p + 1 == s.len() ==> s[p] != '_',
    decreases s.len(),
{
    if s.len() >= 2 && p > 0 {
        lemma_name_ok_at(s.drop_first(), p - 1);
    }
}

/// A `NNN-K` id shape: three characters, a `'-'`, one more character.
pub open spec fn id_shape(s: Seq<char>) -> bool {
    &&& s.len() == 5
    &&& s[3] == '-'
    &&& s[0] != '-' && s[1] != '-' && s[2] != '-'
}

/// A number for the first three characters of an id.
pub open spec fn group_code(s: Seq<char>) -> int {
    (s[0] as int) * 65536 + (s[1] as int) * 256 + (s[2] as int)
}

/// [`group_code`] of the table entry at `j`, block by block.
pub open spec fn gf_block_code(j: int) -> int {
    if j < 3 {
        3158065
    } else if j < 7 {
        3158067
    } else if j < 10 {
        3158068
    } else if j < 14 {
        3158072
    } else if j < 17 {
        3158069
    } else if j < 20 {
        3158320
    } else if j < 24 {
        3158321
    } else if j < 28 {
        3158323
    } else if j < 31 {
        3158325
    } else if j < 35 {
        3158576
    } else {
        3158833
    }
}

/// The shape facts of the table entry at `j`.
pub open spec fn table_entry_ok(j: int) -> bool {
    &&& id_shape(GF_TO_CANONICAL[j].0@)
    &&& name_ok(GF_TO_CANONICAL[j].1@)
    &&& group_code(GF_TO_CANONICAL[j].0@) == gf_block_code(j)
}

/// Shape facts of every table entry.
proof fn lemma_table_entries()
    ensures
        forall|j: int| 0 <= j < N_GF ==> #[trigger] table_entry_ok(j),
{
    reveal_with_fuel(name_ok, 20);
    assert forall|j: int| 0 <= j < N_GF implies #[trigger] table_entry_ok(j) by {
        if j == 0 {
            reveal_strlit("001-1");
            reveal_strlit("rpm");
            assert(GF_TO_CANONICAL[j].0@ == "001-1"@);
            assert(GF_TO_CANONICAL[j].1@ == "rpm"@);
            assert(id_shape(GF_TO_CANONICAL[j].0@));
            assert(name_ok(GF_TO_CANONICAL[j].1@));
            assert(group_code(GF_TO_CANONICAL[j].0@) == gf_block_code(j));
        }
        if j == 1 {
            reveal_strlit("001-2");
            reveal_strlit("iq_actual");
            assert(GF_TO_CANONICAL[j].0@ == "001-2"@);
            assert(GF_TO_CANONICAL[j].1@ == "iq_actual"@);
            assert(id_shape(GF_TO_CANONICAL[j].0@));
            assert(name_ok(GF_TO_CANONICAL[j].1@));
            assert(group_code(GF_TO_CANONICAL[j].0@) == gf_block_code(j));
        }
        if j == 2 {
            reveal_strlit("001-4");
            reveal_strlit("coolant_c");
            assert(GF_TO_CANONICAL[j].0@ == "001-4"@);
            assert(GF_TO_CANONICAL[j].1@ == "coolant_c"@);
            assert(id_shape(GF_TO_CANONICAL[j].0@));
            assert(name_ok(GF_TO_CANONICAL[j].1@));
            assert(group_code(GF_TO_CANONICAL[j].0@) == gf_block_code(j));
        }
        if j == 3 {
            reveal_strlit("003-1");
            reveal_strlit("rpm");
            assert(GF_TO_CANONICAL[j].0@ == "003-1"@);
            assert(GF_TO_CANONICAL[j].1@ == "rpm"@);
            assert(id_shape(GF_TO_CANONICAL[j].0@));
            assert(name_ok(GF_TO_CANONICAL[j].1@));
            assert(group_code(GF_TO_CANONICAL[j].0@) == gf_block_code(j));
        }
        if j == 4 {
            reveal_strlit("003-2");
            reveal_strlit("maf_spec");
            assert(GF_TO_CANONICAL[j].0@ == "003-2"@);
            assert(GF_TO_CANONICAL[j].1@ == "maf_spec"@);
            assert(id_shape(GF_TO_CANONICAL[j].0@));
            assert(name_ok(GF_TO_CANONICAL[j].1@));
            assert(group_code(GF_TO_CANONICAL[j].0@) == gf_block_code(j));
        }
        if j == 5 {
            reveal_strlit("003-3");
            reveal_strlit("maf_actual");
            assert(GF_TO_CANONICAL[j].0@ == "003-3"@);
            assert(GF_TO_CANONICAL[j].1@ == "maf_actual"@);
            assert(id_shape(GF_TO_CANONICAL[j].0@));
            assert(name_ok(GF_TO_CANONICAL[j].1@));
            assert(group_code(GF_TO_CANONICAL[j].0@) == gf_block_code(j));
        }
        if j == 6 {
            reveal_strlit("003-4");
            reveal_strlit("egr_duty");
            assert(GF_TO_CANONICAL[j].0@ == "003-4"@);
            assert(GF_TO_CANONICAL[j].1@ == "egr_duty"@);
            assert(id_shape(GF_TO_CANONICAL[j].0@));
            assert(name_ok(GF_TO_CANONICAL[j].1@));
            assert(group_code(GF_TO_CANONICAL[j].0@) == gf_block_code(j));
        }
        if j == 7 {
            reveal_strlit("004-1");
            reveal_strlit("rpm");
            assert(GF_TO_CANONICAL[j].0@ == "004-1"@);
            assert(GF_TO_CANONICAL[j].1@ == "rpm"@);
            assert(id_shape(GF_TO_CANONICAL[j].0@));
            assert(name_ok(GF_TO_CANONICAL[j].1@));
            assert(group_code(GF_TO_CANONICAL[j].0@) == gf_block_code(j));
        }
        if j == 8 {
            reveal_strlit("004-2");
            reveal_strlit("battery_v");
            assert(GF_TO_CANONICAL[j].0@ == "004-2"@);
            assert(GF_TO_CANONICAL[j].1@ == "battery_v"@);
            assert(id_shape(GF_TO_CANONICAL[j].0@));
            assert(name_ok(GF_TO_CANONICAL[j].1@));
            assert(group_code(GF_TO_CANONICAL[j].0@) == gf_block_code(j));
        }
        if j == 9 {
            reveal_strlit("004-3");
            reveal_strlit("coolant_c");
            assert(GF_TO_CANONICAL[j].0@ == "004-3"@);
            assert(GF_TO_CANONICAL[j].1@ == "coolant_c"@);
            assert(id_shape(GF_TO_CANONICAL[j].0@));
            assert(name_ok(GF_TO_CANONICAL[j].1@));
            assert(group_code(GF_TO_CANONICAL[j].0@) == gf_block_code(j));
        }
        if j == 10 {
            reveal_strlit("008-1");
            reveal_strlit("rpm");
            assert(GF_TO_CANONICAL[j].0@ == "008-1"@);
            assert(GF_TO_CANONICAL[j].1@ == "rpm"@);
            assert(id_shape(GF_TO_CANONICAL[j].0@));
            assert(name_ok(GF_TO_CANONICAL[j].1@));
            assert(group_code(GF_TO_CANONICAL[j].0@) == gf_block_code(j));
        }
        if j == 11 {
            reveal_strlit("008-2");
            reveal_strlit("iq_requested");
            assert(GF_TO_CANONICAL[j].0@ == "008-2"@);
            assert(GF_TO_CANONICAL[j].1@ == "iq_requested"@);
            assert(id_shape(GF_TO_CANONICAL[j].0@));
            assert(name_ok(GF_TO_CANONICAL[j].1@));
            assert(group_code(GF_TO_CANONICAL[j].0@) == gf_block_code(j));
        }
        if j == 12 {
            reveal_strlit("008-3");
            reveal_strlit("iq_limit_rpm");
            assert(GF_TO_CANONICAL[j].0@ == "008-3"@);
            assert(GF_TO_CANONICAL[j].1@ == "iq_limit_rpm"@);
            assert(id_shape(GF_TO_CANONICAL[j].0@));
            assert(name_ok(GF_TO_CANONICAL[j].1@));
            assert(group_code(GF_TO_CANONICAL[j].0@) == gf_block_code(j));
        }
        if j == 13 {
            reveal_strlit("008-4");
            reveal_strlit("iq_limit_maf");
            assert(GF_TO_CANONICAL[j].0@ == "008-4"@);
            assert(GF_TO_CANONICAL[j].1@ == "iq_limit_maf"@);
            assert(id_shape(GF_TO_CANONICAL[j].0@));
            assert(name_ok(GF_TO_CANONICAL[j].1@));
            assert(group_code(GF_TO_CANONICAL[j].0@) == gf_block_code(j));
        }
        if j == 14 {
            reveal_strlit("005-1");
            reveal_strlit("rpm");
            assert(GF_TO_CANONICAL[j].0@ == "005-1"@);
            assert(GF_TO_CANONICAL[j].1@ == "rpm"@);
            assert(id_shape(GF_TO_CANONICAL[j].0@));
            assert(name_ok(GF_TO_CANONICAL[j].1@));
            assert(group_code(GF_TO_CANONICAL[j].0@) == gf_block_code(j));
        }
        if j == 15 {
            reveal_strlit("005-2");
            reveal_strlit("load_pct");
            assert(GF_TO_CANONICAL[j].0@ == "005-2"@);
            assert(GF_TO_CANONICAL[j].1@ == "load_pct"@);
            assert(id_shape(GF_TO_CANONICAL[j].0@));
            assert(name_ok(GF_TO_CANONICAL[j].1@));
            assert(group_code(GF_TO_CANONICAL[j].0@) == gf_block_code(j));
        }
        if j == 16 {
            reveal_strlit("005-3");
            reveal_strlit("vehicle_speed");
            assert(GF_TO_CANONICAL[j].0@ == "005-3"@);
            assert(GF_TO_CANONICAL[j].1@ == "vehicle_speed"@);
            assert(id_shape(GF_TO_CANONICAL[j].0@));
            assert(name_ok(GF_TO_CANONICAL[j].1@));
            assert(group_code(GF_TO_CANONICAL[j].0@) == gf_block_code(j));
        }
        if j == 17 {
            reveal_strlit("010-2");
            reveal_strlit("atm_pressure");
            assert(GF_TO_CANONICAL[j].0@ == "010-2"@);
            assert(GF_TO_CANONICAL[j].1@ == "atm_pressure"@);
            assert(id_shape(GF_TO_CANONICAL[j].0@));
            assert(name_ok(GF_TO_CANONICAL[j].1@));
            assert(group_code(GF_TO_CANONICAL[j].0@) == gf_block_code(j));
        }
        if j == 18 {
            reveal_strlit("010-3");
            reveal_strlit("map_abs_010");
            assert(GF_TO_CANONICAL[j].0@ == "010-3"@);
            assert(GF_TO_CANONICAL[j].1@ == "map_abs_010"@);
            assert(id_shape(GF_TO_CANONICAL[j].0@));
            assert(name_ok(GF_TO_CANONICAL[j].1@));
            assert(group_code(GF_TO_CANONICAL[j].0@) == gf_block_code(j));
        }
        if j == 19 {
            reveal_strlit("010-4");
            reveal_strlit("pedal_pct");
            assert(GF_TO_CANONICAL[j].0@ == "010-4"@);
            assert(GF_TO_CANONICAL[j].1@ == "pedal_pct"@);
            assert(id_shape(GF_TO_CANONICAL[j].0@));
            assert(name_ok(GF_TO_CANONICAL[j].1@));
            assert(group_code(GF_TO_CANONICAL[j].0@) == gf_block_code(j));
        }
        if j == 20 {
            reveal_strlit("011-1");
            reveal_strlit("rpm");
            assert(GF_TO_CANONICAL[j].0@ == "011-1"@);
            assert(GF_TO_CANONICAL[j].1@ == "rpm"@);
            assert(id_shape(GF_TO_CANONICAL[j].0@));
            assert(name_ok(GF_TO_CANONICAL[j].1@));
            assert(group_code(GF_TO_CANONICAL[j].0@) == gf_block_code(j));
        }
        if j == 21 {
            reveal_strlit("011-2");
            reveal_strlit("boost_spec");
            assert(GF_TO_CANONICAL[j].0@ == "011-2"@);
            assert(GF_TO_CANONICAL[j].1@ == "boost_spec"@);
            assert(id_shape(GF_TO_CANONICAL[j].0@));
            assert(name_ok(GF_TO_CANONICAL[j].1@));
            assert(group_code(GF_TO_CANONICAL[j].0@) == gf_block_code(j));
        }
        if j == 22 {
            reveal_strlit("011-3");
            reveal_strlit("boost_actual");
            assert(GF_TO_CANONICAL[j].0@ == "011-3"@);
            assert(GF_TO_CANONICAL[j].1@ == "boost_actual"@);
            assert(id_shape(GF_TO_CANONICAL[j].0@));
            assert(name_ok(GF_TO_CANONICAL[j].1@));
            assert(group_code(GF_TO_CANONICAL[j].0@) == gf_block_code(j));
        }
        if j == 23 {
            reveal_strlit("011-4");
            reveal_strlit("n75_duty");
            assert(GF_TO_CANONICAL[j].0@ == "011-4"@);
            assert(GF_TO_CANONICAL[j].1@ == "n75_duty"@);
            assert(id_shape(GF_TO_CANONICAL[j].0@));
            assert(name_ok(GF_TO_CANONICAL[j].1@));
            assert(group_code(GF_TO_CANONICAL[j].0@) == gf_block_code(j));
        }
        if j == 24 {
            reveal_strlit("013-1");
            reveal_strlit("srcv_cyl1");
            assert(GF_TO_CANONICAL[j].0@ == "013-1"@);
            assert(GF_TO_CANONICAL[j].1@ == "srcv_cyl1"@);
            assert(id_shape(GF_TO_CANONICAL[j].0@));
            assert(name_ok(GF_TO_CANONICAL[j].1@));
            assert(group_code(GF_TO_CANONICAL[j].0@) == gf_block_code(j));
        }
        if j == 25 {
            reveal_strlit("013-2");
            reveal_strlit("srcv_cyl2");
            assert(GF_TO_CANONICAL[j].0@ == "013-2"@);
            assert(GF_TO_CANONICAL[j].1@ == "srcv_cyl2"@);
            assert(id_shape(GF_TO_CANONICAL[j].0@));
            assert(name_ok(GF_TO_CANONICAL[j].1@));
            assert(group_code(GF_TO_CANONICAL[j].0@) == gf_block_code(j));
        }
        if j == 26 {
            reveal_strlit("013-3");
            reveal_strlit("srcv_cyl3");
            assert(GF_TO_CANONICAL[j].0@ == "013-3"@);
            assert(GF_TO_CANONICAL[j].1@ == "srcv_cyl3"@);
            assert(id_shape(GF_TO_CANONICAL[j].0@));
            assert(name_ok(GF_TO_CANONICAL[j].1@));
            assert(group_code(GF_TO_CANONICAL[j].0@) == gf_block_code(j));
        }
        if j == 27 {
            reveal_strlit("013-4");
            reveal_strlit("fuel_temp_c");
            assert(GF_TO_CANONICAL[j].0@ == "013-4"@);
            assert(GF_TO_CANONICAL[j].1@ == "fuel_temp_c"@);
            assert(id_shape(GF_TO_CANONICAL[j].0@));
            assert(name_ok(GF_TO_CANONICAL[j].1@));
            assert(group_code(GF_TO_CANONICAL[j].0@) == gf_block_code(j));
        }
        if j == 28 {
            reveal_strlit("015-1");
            reveal_strlit("rpm");
            assert(GF_TO_CANONICAL[j].0@ == "015-1"@);
            assert(GF_TO_CANONICAL[j].1@ == "rpm"@);
            assert(id_shape(GF_TO_CANONICAL[j].0@));
            assert(name_ok(GF_TO_CANONICAL[j].1@));
            assert(group_code(GF_TO_CANONICAL[j].0@) == gf_block_code(j));
        }
        if j == 29 {
            reveal_strlit("015-2");
            reveal_strlit("torque_request");
            assert(GF_TO_CANONICAL[j].0@ == "015-2"@);
            assert(GF_TO_CANONICAL[j].1@ == "torque_request"@);
            assert(id_shape(GF_TO_CANONICAL[j].0@));
            assert(name_ok(GF_TO_CANONICAL[j].1@));
            assert(group_code(GF_TO_CANONICAL[j].0@) == gf_block_code(j));
        }
        if j == 30 {
            reveal_strlit("015-3");
            reveal_strlit("torque_actual");
            assert(GF_TO_CANONICAL[j].0@ == "015-3"@);
            assert(GF_TO_CANONICAL[j].1@ == "torque_actual"@);
            assert(id_shape(GF_TO_CANONICAL[j].0@));
            assert(name_ok(GF_TO_CANONICAL[j].1@));
            assert(group_code(GF_TO_CANONICAL[j].0@) == gf_block_code(j));
        }
        if j == 31 {
            reveal_strlit("020-1");
            reveal_strlit("rpm");
            assert(GF_TO_CANONICAL[j].0@ == "020-1"@);
            assert(GF_TO_CANONICAL[j].1@ == "rpm"@);
            assert(id_shape(GF_TO_CANONICAL[j].0@));
            assert(name_ok(GF_TO_CANONICAL[j].1@));
            assert(group_code(GF_TO_CANONICAL[j].0@) == gf_block_code(j));
        }
        if j == 32 {
            reveal_strlit("020-2");
            reveal_strlit("soi_actual");
            assert(GF_TO_CANONICAL[j].0@ == "020-2"@);
            assert(GF_TO_CANONICAL[j].1@ == "soi_actual"@);
            assert(id_shape(GF_TO_CANONICAL[j].0@));
            assert(name_ok(GF_TO_CANONICAL[j].1@));
            assert(group_code(GF_TO_CANONICAL[j].0@) == gf_block_code(j));
        }
        if j == 33 {
            reveal_strlit("020-3");
            reveal_strlit("map_abs");
            assert(GF_TO_CANONICAL[j].0@ == "020-3"@);
            assert(GF_TO_CANONICAL[j].1@ == "map_abs"@);
            assert(id_shape(GF_TO_CANONICAL[j].0@));
            assert(name_ok(GF_TO_CANONICAL[j].1@));
            assert(group_code(GF_TO_CANONICAL[j].0@) == gf_block_code(j));
        }
        if j == 34 {
            reveal_strlit("020-4");
            reveal_strlit("load_pct");
            assert(GF_TO_CANONICAL[j].0@ == "020-4"@);
            assert(GF_TO_CANONICAL[j].1@ == "load_pct"@);
            assert(id_shape(GF_TO_CANONICAL[j].0@));
            assert(name_ok(GF_TO_CANONICAL[j].1@));
            assert(group_code(GF_TO_CANONICAL[j].0@) == gf_block_code(j));
        }
        if j == 35 {
            reveal_strlit("031-2");
            reveal_strlit("maf_spec");
            assert(GF_TO_CANONICAL[j].0@ == "031-2"@);
            assert(GF_TO_CANONICAL[j].1@ == "maf_spec"@);
            assert(id_shape(GF_TO_CANONICAL[j].0@));
            assert(name_ok(GF_TO_CANONICAL[j].1@));
            assert(group_code(GF_TO_CANONICAL[j].0@) == gf_block_code(j));
        }
        if j == 36 {
            reveal_strlit("031-3");
            reveal_strlit("maf_actual");
            assert(GF_TO_CANONICAL[j].0@ == "031-3"@);
            assert(GF_TO_CANONICAL[j].1@ == "maf_actual"@);
            assert(id_shape(GF_TO_CANONICAL[j].0@));
            assert(name_ok(GF_TO_CANONICAL[j].1@));
            assert(group_code(GF_TO_CANONICAL[j].0@) == gf_block_code(j));
        }
    }
}

/// No two table entries share both their channel name and their group.
proof fn lemma_table_name_group_unique(a: int, b: int)
    requires
        0 <= a < N_GF,
        0 <= b < N_GF,
        GF_TO_CANONICAL[a].1@ == GF_TO_CANONICAL[b].1@,
        gf_block_code(a) == gf_block_code(b),
    ensures
        a == b,
{
    if 0 <= a < 3 {
        reveal_strlit("coolant_c");
        reveal_strlit("iq_actual");
        reveal_strlit("rpm");
        assert(GF_TO_CANONICAL[0].1@ == "rpm"@);
        assert(GF_TO_CANONICAL[1].1@ == "iq_actual"@);
        assert(GF_TO_CANONICAL[0].1@.len() != GF_TO_CANONICAL[1].1@.len());
        assert(GF_TO_CANONICAL[0].1@ != GF_TO_CANONICAL[1].1@);
        assert(GF_TO_CANONICAL[2].1@ == "coolant_c"@);
        assert(GF_TO_CANONICAL[0].1@.len() != GF_TO_CANONICAL[2].1@.len());
        assert(GF_TO_CANONICAL[0].1@ != GF_TO_CANONICAL[2].1@);
        assert(GF_TO_CANONICAL[1].1@[0] != GF_TO_CANONICAL[2].1@[0]);
        assert(GF_TO_CANONICAL[1].1@ != GF_TO_CANONICAL[2].1@);
        assert(a == 0 || a == 1 || a == 2);
        assert(b == 0 || b == 1 || b == 2);
    }
    if 3 <= a < 7 {
        reveal_strlit("egr_duty");
        reveal_strlit("maf_actual");
        reveal_strlit("maf_spec");
        reveal_strlit("rpm");
        assert(GF_TO_CANONICAL[3].1@ == "rpm"@);
        assert(GF_TO_CANONICAL[4].1@ == "maf_spec"@);
        assert(GF_TO_CANONICAL[3].1@.len() != GF_TO_CANONICAL[4].1@.len());
        assert(GF_TO_CANONICAL[3].1@ != GF_TO_CANONICAL[4].1@);
        assert(GF_TO_CANONICAL[5].1@ == "maf_actual"@);
        assert(GF_TO_CANONICAL[3].1@.len() != GF_TO_CANONICAL[5].1@.len());
        assert(GF_TO_CANONICAL[3].1@ != GF_TO_CANONICAL[5].1@);
        assert(GF_TO_CANONICAL[6].1@ == "egr_duty"@);
        assert(GF_TO_CANONICAL[3].1@.len() != GF_TO_CANONICAL[6].1@.len());
        assert(GF_TO_CANONICAL[3].1@ != GF_TO_CANONICAL[6].1@);
        assert(GF_TO_CANONICAL[4].1@.len() != GF_TO_CANONICAL[5].1@.len());
        assert(GF_TO_CANONICAL[4].1@ != GF_TO_CANONICAL[5].1@);
        assert(GF_TO_CANONICAL[4].1@[0] != GF_TO_CANONICAL[6].1@[0]);
        assert(GF_TO_CANONICAL[4].1@ != GF_TO_CANONICAL[6].1@);
        assert(GF_TO_CANONICAL[5].1@.len() != GF_TO_CANONICAL[6].1@.len());
        assert(GF_TO_CANONICAL[5].1@ != GF_TO_CANONICAL[6].1@);
        assert(a == 3 || a == 4 || a == 5 || a == 6);
        assert(b == 3 || b == 4 || b == 5 || b == 6);
    }
    if 7 <= a < 10 {
        reveal_strlit("battery_v");
        reveal_strlit("coolant_c");
        reveal_strlit("rpm");
        assert(GF_TO_CANONICAL[7].1@ == "rpm"@);
        assert(GF_TO_CANONICAL[8].1@ == "battery_v"@);
        assert(GF_TO_CANONICAL[7].1@.len() != GF_TO_CANONICAL[8].1@.len());
        assert(GF_TO_CANONICAL[7].1@ != GF_TO_CANONICAL[8].1@);
        assert(GF_TO_CANONICAL[9].1@ == "coolant_c"@);
        assert(GF_TO_CANONICAL[7].1@.len() != GF_TO_CANONICAL[9].1@.len());
        assert(GF_TO_CANONICAL[7].1@ != GF_TO_CANONICAL[9].1@);
        assert(GF_TO_CANONICAL[8].1@[0] != GF_TO_CANONICAL[9].1@[0]);
        assert(GF_TO_CANONICAL[8].1@ != GF_TO_CANONICAL[9].1@);
        assert(a == 7 || a == 8 || a == 9);
        assert(b == 7 || b == 8 || b == 9);
    }
    if 10 <= a < 14 {
        reveal_strlit("iq_limit_maf");
        reveal_strlit("iq_limit_rpm");
        reveal_strlit("iq_requested");
        reveal_strlit("rpm");
        assert(GF_TO_CANONICAL[10].1@ == "rpm"@);
        assert(GF_TO_CANONICAL[11].1@ == "iq_requested"@);
        assert(GF_TO_CANONICAL[10].1@.len() != GF_TO_CANONICAL[11].1@.len());
        assert(GF_TO_CANONICAL[10].1@ != GF_TO_CANONICAL[11].1@);
        assert(GF_TO_CANONICAL[12].1@ == "iq_limit_rpm"@);
        assert(GF_TO_CANONICAL[10].1@.len() != GF_TO_CANONICAL[12].1@.len());
        assert(GF_TO_CANONICAL[10].1@ != GF_TO_CANONICAL[12].1@);
        assert(GF_TO_CANONICAL[13].1@ == "iq_limit_maf"@);
        assert(GF_TO_CANONICAL[10].1@.len() != GF_TO_CANONICAL[13].1@.len());
        assert(GF_TO_CANONICAL[10].1@ != GF_TO_CANONICAL[13].1@);
        assert(GF_TO_CANONICAL[11].1@[3] != GF_TO_CANONICAL[12].1@[3]);
        assert(GF_TO_CANONICAL[11].1@ != GF_TO_CANONICAL[12].1@);
        assert(GF_TO_CANONICAL[11].1@[3] != GF_TO_CANONICAL[13].1@[3]);
        assert(GF_TO_CANONICAL[11].1@ != GF_TO_CANONICAL[13].1@);
        assert(GF_TO_CANONICAL[12].1@[9] != GF_TO_CANONICAL[13].1@[9]);
        assert(GF_TO_CANONICAL[12].1@ != GF_TO_CANONICAL[13].1@);
        assert(a == 10 || a == 11 || a == 12 || a == 13);
        assert(b == 10 || b == 11 || b == 12 || b == 13);
    }
    if 14 <= a < 17 {
        reveal_strlit("load_pct");
        reveal_strlit("rpm");
        reveal_strlit("vehicle_speed");
        assert(GF_TO_CANONICAL[14].1@ == "rpm"@);
        assert(GF_TO_CANONICAL[15].1@ == "load_pct"@);
        assert(GF_TO_CANONICAL[14].1@.len() != GF_TO_CANONICAL[15].1@.len());
        assert(GF_TO_CANONICAL[14].1@ != GF_TO_CANONICAL[15].1@);
        assert(GF_TO_CANONICAL[16].1@ == "vehicle_speed"@);
        assert(GF_TO_CANONICAL[14].1@.len() != GF_TO_CANONICAL[16].1@.len());
        assert(GF_TO_CANONICAL[14].1@ != GF_TO_CANONICAL[16].1@);
        assert(GF_TO_CANONICAL[15].1@.len() != GF_TO_CANONICAL[16].1@.len());
        assert(GF_TO_CANONICAL[15].1@ != GF_TO_CANONICAL[16].1@);
        assert(a == 14 || a == 15 || a == 16);
        assert(b == 14 || b == 15 || b == 16);
    }
    if 17 <= a < 20 {
        reveal_strlit("atm_pressure");
        reveal_strlit("map_abs_010");
        reveal_strlit("pedal_pct");
        assert(GF_TO_CANONICAL[17].1@ == "atm_pressure"@);
        assert(GF_TO_CANONICAL[18].1@ == "map_abs_010"@);
        assert(GF_TO_CANONICAL[17].1@.len() != GF_TO_CANONICAL[18].1@.len());
        assert(GF_TO_CANONICAL[17].1@ != GF_TO_CANONICAL[18].1@);
        assert(GF_TO_CANONICAL[19].1@ == "pedal_pct"@);
        assert(GF_TO_CANONICAL[17].1@.len() != GF_TO_CANONICAL[19].1@.len());
        assert(GF_TO_CANONICAL[17].1@ != GF_TO_CANONICAL[19].1@);
        assert(GF_TO_CANONICAL[18].1@.len() != GF_TO_CANONICAL[19].1@.len());
        assert(GF_TO_CANONICAL[18].1@ != GF_TO_CANONICAL[19].1@);
        assert(a == 17 || a == 18 || a == 19);
        assert(b == 17 || b == 18 || b == 19);
    }
    if 20 <= a < 24 {
        reveal_strlit("boost_actual");
        reveal_strlit("boost_spec");
        reveal_strlit("n75_duty");
        reveal_strlit("rpm");
        assert(GF_TO_CANONICAL[20].1@ == "rpm"@);
        assert(GF_TO_CANONICAL[21].1@ == "boost_spec"@);
        assert(GF_TO_CANONICAL[20].1@.len() != GF_TO_CANONICAL[21].1@.len());
        assert(GF_TO_CANONICAL[20].1@ != GF_TO_CANONICAL[21].1@);
        assert(GF_TO_CANONICAL[22].1@ == "boost_actual"@);
        assert(GF_TO_CANONICAL[20].1@.len() != GF_TO_CANONICAL[22].1@.len());
        assert(GF_TO_CANONICAL[20].1@ != GF_TO_CANONICAL[22].1@);
        assert(GF_TO_CANONICAL[23].1@ == "n75_duty"@);
        assert(GF_TO_CANONICAL[20].1@.len() != GF_TO_CANONICAL[23].1@.len());
        assert(GF_TO_CANONICAL[20].1@ != GF_TO_CANONICAL[23].1@);
        assert(GF_TO_CANONICAL[21].1@.len() != GF_TO_CANONICAL[22].1@.len());
        assert(GF_TO_CANONICAL[21].1@ != GF_TO_CANONICAL[22].1@);
        assert(GF_TO_CANONICAL[21].1@.len() != GF_TO_CANONICAL[23].1@.len());
        assert(GF_TO_CANONICAL[21].1@ != GF_TO_CANONICAL[23].1@);
        assert(GF_TO_CANONICAL[22].1@.len() != GF_TO_CANONICAL[23].1@.len());
        assert(GF_TO_CANONICAL[22].1@ != GF_TO_CANONICAL[23].1@);
        assert(a == 20 || a == 21 || a == 22 || a == 23);
        assert(b == 20 || b == 21 || b == 22 || b == 23);
    }
    if 24 <= a < 28 {
        reveal_strlit("fuel_temp_c");
        reveal_strlit("srcv_cyl1");
        reveal_strlit("srcv_cyl2");
        reveal_strlit("srcv_cyl3");
        assert(GF_TO_CANONICAL[24].1@ == "srcv_cyl1"@);
        assert(GF_TO_CANONICAL[25].1@ == "srcv_cyl2"@);
        assert(GF_TO_CANONICAL[24].1@[8] != GF_TO_CANONICAL[25].1@[8]);
        assert(GF_TO_CANONICAL[24].1@ != GF_TO_CANONICAL[25].1@);
        assert(GF_TO_CANONICAL[26].1@ == "srcv_cyl3"@);
        assert(GF_TO_CANONICAL[24].1@[8] != GF_TO_CANONICAL[26].1@[8]);
        assert(GF_TO_CANONICAL[24].1@ != GF_TO_CANONICAL[26].1@);
        assert(GF_TO_CANONICAL[27].1@ == "fuel_temp_c"@);
        assert(GF_TO_CANONICAL[24].1@.len() != GF_TO_CANONICAL[27].1@.len());
        assert(GF_TO_CANONICAL[24].1@ != GF_TO_CANONICAL[27].1@);
        assert(GF_TO_CANONICAL[25].1@[8] != GF_TO_CANONICAL[26].1@[8]);
        assert(GF_TO_CANONICAL[25].1@ != GF_TO_CANONICAL[26].1@);
        assert(GF_TO_CANONICAL[25].1@.len() != GF_TO_CANONICAL[27].1@.len());
        assert(GF_TO_CANONICAL[25].1@ != GF_TO_CANONICAL[27].1@);
        assert(GF_TO_CANONICAL[26].1@.len() != GF_TO_CANONICAL[27].1@.len());
        assert(GF_TO_CANONICAL[26].1@ != GF_TO_CANONICAL[27].1@);
        assert(a == 24 || a == 25 || a == 26 || a == 27);
        assert(b == 24 || b == 25 || b == 26 || b == 27);
    }
    if 28 <= a < 31 {
        reveal_strlit("rpm");
        reveal_strlit("torque_actual");
        reveal_strlit("torque_request");
        assert(GF_TO_CANONICAL[28].1@ == "rpm"@);
        assert(GF_TO_CANONICAL[29].1@ == "torque_request"@);
        assert(GF_TO_CANONICAL[28].1@.len() != GF_TO_CANONICAL[29].1@.len());
        assert(GF_TO_CANONICAL[28].1@ != GF_TO_CANONICAL[29].1@);
        assert(GF_TO_CANONICAL[30].1@ == "torque_actual"@);
        assert(GF_TO_CANONICAL[28].1@.len() != GF_TO_CANONICAL[30].1@.len());
        assert(GF_TO_CANONICAL[28].1@ != GF_TO_CANONICAL[30].1@);
        assert(GF_TO_CANONICAL[29].1@.len() != GF_TO_CANONICAL[30].1@.len());
        assert(GF_TO_CANONICAL[29].1@ != GF_TO_CANONICAL[30].1@);
        assert(a == 28 || a == 29 || a == 30);
        assert(b == 28 || b == 29 || b == 30);
    }
    if 31 <= a < 35 {
        reveal_strlit("load_pct");
        reveal_strlit("map_abs");
        reveal_strlit("rpm");
        reveal_strlit("soi_actual");
        assert(GF_TO_CANONICAL[31].1@ == "rpm"@);
        assert(GF_TO_CANONICAL[32].1@ == "soi_actual"@);
        assert(GF_TO_CANONICAL[31].1@.len() != GF_TO_CANONICAL[32].1@.len());
        assert(GF_TO_CANONICAL[31].1@ != GF_TO_CANONICAL[32].1@);
        assert(GF_TO_CANONICAL[33].1@ == "map_abs"@);
        assert(GF_TO_CANONICAL[31].1@.len() != GF_TO_CANONICAL[33].1@.len());
        assert(GF_TO_CANONICAL[31].1@ != GF_TO_CANONICAL[33].1@);
        assert(GF_TO_CANONICAL[34].1@ == "load_pct"@);
        assert(GF_TO_CANONICAL[31].1@.len() != GF_TO_CANONICAL[34].1@.len());
        assert(GF_TO_CANONICAL[31].1@ != GF_TO_CANONICAL[34].1@);
        assert(GF_TO_CANONICAL[32].1@.len() != GF_TO_CANONICAL[33].1@.len());
        assert(GF_TO_CANONICAL[32].1@ != GF_TO_CANONICAL[33].1@);
        assert(GF_TO_CANONICAL[32].1@.len() != GF_TO_CANONICAL[34].1@.len());
        assert(GF_TO_CANONICAL[32].1@ != GF_TO_CANONICAL[34].1@);
        assert(GF_TO_CANONICAL[33].1@.len() != GF_TO_CANONICAL[34].1@.len());
        assert(GF_TO_CANONICAL[33].1@ != GF_TO_CANONICAL[34].1@);
        assert(a == 31 || a == 32 || a == 33 || a == 34);
        assert(b == 31 || b == 32 || b == 33 || b == 34);
    }
    if 35 <= a < 37 {
        reveal_strlit("maf_actual");
        reveal_strlit("maf_spec");
        assert(GF_TO_CANONICAL[35].1@ == "maf_spec"@);
        assert(GF_TO_CANONICAL[36].1@ == "maf_actual"@);
        assert(GF_TO_CANONICAL[35].1@.len() != GF_TO_CANONICAL[36].1@.len());
        assert(GF_TO_CANONICAL[35].1@ != GF_TO_CANONICAL[36].1@);
        assert(a == 35 || a == 36);
        assert(b == 35 || b == 36);
    }
}

/// The group of a table id is its first three characters.
proof fn lemma_table_group(j: int)
    requires
        0 <= j < N_GF,
    ensures
        group_of(GF_TO_CANONICAL[j].0@) == GF_TO_CANONICAL[j].0@.take(3),
        group_code(GF_TO_CANONICAL[j].0@) == gf_block_code(j),
        name_ok(GF_TO_CANONICAL[j].1@),
        GF_TO_CANONICAL[j].0@.take(3).len() == 3,
        GF_TO_CANONICAL[j].0@.len() == 5,
{
    lemma_table_entries();
    assert(table_entry_ok(j));
    let s = GF_TO_CANONICAL[j].0@;
    lemma_split_on_first_piece(s, '-', 3);
}


/// What the table says of a recognised id: its entry, its group (the first
/// three characters) and the shape of its channel name.
proof fn lemma_known_id(k: Seq<char>) -> (j: int)
    requires
        canonical_of(k).is_some(),
    ensures
        0 <= j < N_GF,
        GF_TO_CANONICAL[j].0@ == k,
        canonical_of(k) == Some(GF_TO_CANONICAL[j].1),
        group_of(k) == k.take(3),
        k.take(3).len() == 3,
        k.len() == 5,
        group_code(k) == gf_block_code(j),
        name_ok(GF_TO_CANONICAL[j].1@),
{
    lemma_gf_find_in_table(k, 0);
    let j = gf_find_from(k, 0).unwrap();
    lemma_table_group(j);
    j
}

/// A well-shaped name is never an `__alt_` name.
proof fn lemma_alt_not_plain(c1: Seq<char>, c2: Seq<char>, g: Seq<char>)
    requires
        name_ok(c1),
    ensures
        c1 != c2 + "__alt_"@ + g,
{
    reveal_strlit("__alt_");
    let s = c2 + "__alt_"@ + g;
    if c1 == s {
        let p = c2.len() as int;
        assert(s[p] == '_');
        assert(s[p + 1] == '_');
        lemma_name_ok_at(c1, p);
    }
}

/// `__alt_` names of well-shaped names determine name and group.
proof fn lemma_alt_names_injective(c1: Seq<char>, g1: Seq<char>, c2: Seq<char>, g2: Seq<char>)
    requires
        name_ok(c1),
        name_ok(c2),
        c1 + "__alt_"@ + g1 == c2 + "__alt_"@ + g2,
    ensures
        c1 == c2,
        g1 == g2,
{
    reveal_strlit("__alt_");
    let s1 = c1 + "__alt_"@ + g1;
    let s2 = c2 + "__alt_"@ + g2;
    if c1.len() < c2.len() {
        let p = c1.len() as int;
        assert(s1[p] == '_');
        assert(s1[p + 1] == '_');
        assert(s2[p] == c2[p]);
        if p + 1 < c2.len() {
            assert(s2[p + 1] == c2[p + 1]);
        }
        lemma_name_ok_at(c2, p);
    } else if c2.len() < c1.len() {
        let p = c2.len() as int;
        assert(s2[p] == '_');
        assert(s2[p + 1] == '_');
        assert(s1[p] == c1[p]);
        if p + 1 < c1.len() {
            assert(s1[p + 1] == c1[p + 1]);
        }
        lemma_name_ok_at(c1, p);
    } else {
        assert(c1 =~= s1.take(c1.len() as int));
        assert(c2 =~= s2.take(c2.len() as int));
        assert(g1 =~= s1.skip(c1.len() + 6int));
        assert(g2 =~= s2.skip(c2.len() + 6int));
    }
}

/// Two different recognised ids of one list get different column names.
proof fn lemma_mapped_names_differ(ids: Seq<Seq<char>>, i: int, k: int)
    requires
        0 <= i < k < ids.len(),
        ids[i] != ids[k],
        canonical_of(ids[i]).is_some(),
        canonical_of(ids[k]).is_some(),
    ensures
        mapped_name(ids, i) != mapped_name(ids, k),
{
    let ji = lemma_known_id(ids[i]);
    let jk = lemma_known_id(ids[k]);
    let ci = canonical_of(ids[i]).unwrap()@;
    let ck = canonical_of(ids[k]).unwrap()@;
    let gi = group_of(ids[i]);
    let gk = group_of(ids[k]);
    let seen_i = canonical_seen(ids.take(i), ci);
    let seen_k = canonical_seen(ids.take(k), ck);
    if ci == ck {
        assert(ids.take(k)[i] == ids[i]);
        assert(seen_k);
    }
    if mapped_name(ids, i) == mapped_name(ids, k) {
        if seen_i && seen_k {
            lemma_alt_names_injective(ci, gi, ck, gk);
            assert(ids[i].take(3)[0] == ids[i][0] && ids[i].take(3)[1] == ids[i][1] && ids[i].take(3)[2] == ids[i][2]);
            assert(ids[k].take(3)[0] == ids[k][0] && ids[k].take(3)[1] == ids[k][1] && ids[k].take(3)[2] == ids[k][2]);
            assert(group_code(ids[i]) == group_code(ids[k]));
            lemma_table_name_group_unique(ji, jk);
        } else if seen_i {
            lemma_alt_not_plain(ck, ci, gi);
        } else if seen_k {
            lemma_alt_not_plain(ci, ck, gk);
        }
    }
}

/// The column name of an id depends only on the ids up to it.
proof fn lemma_mapped_name_prefix(ids: Seq<Seq<char>>, i: int)
    requires
        0 <= i < ids.len() - 1,
    ensures
        mapped_name(ids.drop_last(), i) == mapped_name(ids, i),
{
    assert(ids.drop_last().take(i) =~= ids.take(i));
}

/// The mapped column at `a` is the id at `i` under its column name.
pub open spec fn mapped_at(ids: Seq<Seq<char>>, a: int, i: int) -> bool {
    &&& 0 <= i < ids.len()
    &&& canonical_of(ids[i]).is_some()
    &&& column_map(ids).0[a] == (ids[i], mapped_name(ids, i))
}

/// Whether the mapped column at `a` comes from some recognised id.
pub open spec fn mapped_from_ids(ids: Seq<Seq<char>>, a: int) -> bool {
    exists|i: int| #[trigger] mapped_at(ids, a, i)
}

/// Every mapped column comes from a recognised id of the list.
proof fn lemma_column_map_entries(ids: Seq<Seq<char>>)
    ensures
        forall|a: int| 0 <= a < column_map(ids).0.len() ==> #[trigger] mapped_from_ids(ids, a),
    decreases ids.len(),
{
    if ids.len() > 0 {
        let pre = ids.drop_last();
        let n = ids.len() - 1;
        lemma_column_map_entries(pre);
        assert forall|a: int| 0 <= a < column_map(ids).0.len() implies #[trigger] mapped_from_ids(ids, a) by {
            if a < column_map(pre).0.len() {
                assert(mapped_from_ids(pre, a));
                let i = choose|i: int| #[trigger] mapped_at(pre, a, i);
                lemma_mapped_name_prefix(ids, i);
                assert(mapped_at(ids, a, i));
            } else {
                assert(mapped_at(ids, a, n));
            }
        }
    }
}

/// Distinct column ids get distinct column names: no mapped column shadows
/// or silently replaces another, duplicates of a channel living on under
/// their `__alt_<group>` names.
pub proof fn lemma_column_names_distinct(ids: Seq<Seq<char>>)
    requires
        forall|a: int, b: int| 0 <= a < b < ids.len() ==> ids[a] != ids[b],
    ensures
        forall|a: int, b: int|
            0 <= a < b < column_map(ids).0.len() ==> column_map(ids).0[a].1 != column_map(ids).0[b].1,
    decreases ids.len(),
{
    if ids.len() > 0 {
        let pre = ids.drop_last();
        let n = ids.len() - 1;
        assert forall|a: int, b: int| 0 <= a < b < pre.len() implies pre[a] != pre[b] by {
            assert(pre[a] == ids[a] && pre[b] == ids[b]);
        }
        lemma_column_names_distinct(pre);
        lemma_column_map_entries(pre);
        let m = column_map(ids).0;
        let m0 = column_map(pre).0;
        assert forall|a: int, b: int| 0 <= a < b < m.len() implies m[a].1 != m[b].1 by {
            if b >= m0.len() {
                assert(mapped_from_ids(pre, a));
                let i = choose|i: int| #[trigger] mapped_at(pre, a, i);
                lemma_mapped_name_prefix(ids, i);
                assert(ids[i] != ids[n]);
                lemma_mapped_names_differ(ids, i, n);
            } else {
                assert(m[a] == m0[a] && m[b] == m0[b]);
            }
        }
    }
}

} // verus!
