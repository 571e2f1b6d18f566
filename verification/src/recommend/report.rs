//! Markdown pieces of the analysis report that need no number: the order
//! of the findings table, the pull label and the recommendation table
//! rows.

use vstd::prelude::*;
use vstd::set_lib::{lemma_int_range, lemma_len_subset, lemma_subset_equality, set_int_range};

use crate::recommend::engine::status_str;
use crate::recommend::engine::FindingKey;
use crate::recommend::engine::Recommendation;
use crate::rules::base::rank_of;
use crate::rules::base::severity_rank;
use crate::text::append_str;
use crate::text::chars_of;
use crate::text::decimal;
use crate::text::join_sep;
use crate::text::lemma_lex_transitive;
use crate::text::lemma_lex_trichotomy;
use crate::text::lex_compare;
use crate::text::lex_lt;
use crate::text::push_decimal;
use crate::text::push_joined_strings;
use crate::text::views;

verus! {

/// `a` comes before `b` in the findings table: more severe first, then by
/// rule id, then by pull id.
pub open spec fn finding_before(a: FindingKey, b: FindingKey) -> bool {
    ||| rank_of(a.severity) > rank_of(b.severity)
    ||| (rank_of(a.severity) == rank_of(b.severity) && lex_lt(a.rule_id@, b.rule_id@))
    ||| (rank_of(a.severity) == rank_of(b.severity) && a.rule_id@ == b.rule_id@ && a.pull_id
        < b.pull_id)
}

/// `a` and `b` tie in the findings order.
pub open spec fn finding_tie(a: FindingKey, b: FindingKey) -> bool {
    rank_of(a.severity) == rank_of(b.severity) && a.rule_id@ == b.rule_id@ && a.pull_id == b.pull_id
}

/// `perm` lists every index of `keys` once, in findings-table order, ties
/// kept in their input order.
pub open spec fn findings_order_of(keys: Seq<FindingKey>, perm: Seq<usize>) -> bool {
    &&& perm.len() == keys.len()
    &&& forall|q: int| 0 <= q < perm.len() ==> #[trigger] perm[q] < keys.len()
    &&& forall|q: int, r: int| 0 <= q < r < perm.len() ==> #[trigger] perm[q] != #[trigger] perm[r]
    &&& forall|q: int, r: int|
        0 <= q < r < perm.len() ==> !finding_before(keys[#[trigger] perm[r] as int], keys[#[trigger] perm[q] as int])
    &&& forall|q: int, r: int|
        0 <= q < r < perm.len() && finding_tie(keys[#[trigger] perm[q] as int], keys[#[trigger] perm[r] as int])
            ==> perm[q] < perm[r]
}

proof fn lemma_before_transitive(a: FindingKey, b: FindingKey, c: FindingKey)
    requires
        finding_before(a, b),
        finding_before(b, c),
    ensures
        finding_before(a, c),
{
    if rank_of(a.severity) == rank_of(b.severity) && rank_of(b.severity) == rank_of(c.severity) {
        if lex_lt(a.rule_id@, b.rule_id@) && lex_lt(b.rule_id@, c.rule_id@) {
            lemma_lex_transitive(a.rule_id@, b.rule_id@, c.rule_id@);
        }
    }
}

proof fn lemma_before_irreflexive(a: FindingKey, b: FindingKey)
    ensures
        !(finding_before(a, b) && finding_before(b, a)),
        finding_tie(a, b) ==> !finding_before(a, b),
{
    lemma_lex_trichotomy(a.rule_id@, b.rule_id@);
    lemma_lex_trichotomy(a.rule_id@, a.rule_id@);
}

fn before(a: &FindingKey, b: &FindingKey) -> (r: bool)
    ensures
        r == finding_before(*a, *b),
{
    let ra = severity_rank(a.severity);
    let rb = severity_rank(b.severity);
    if ra != rb {
        return ra > rb;
    }
    let ia = chars_of(a.rule_id.as_str());
    let ib = chars_of(b.rule_id.as_str());
    let c = lex_compare(&ia, &ib);
    if c == -1 {
        true
    } else if c == 1 {
        proof {
            lemma_lex_trichotomy(a.rule_id@, b.rule_id@);
        }
        false
    } else {
        proof {
            lemma_lex_trichotomy(a.rule_id@, b.rule_id@);
        }
        a.pull_id < b.pull_id
    }
}

/// The order of the findings table: indices of `keys`, most severe first,
/// then by rule id, then by pull id; ties keep their input order.
pub fn findings_order(keys: &[FindingKey]) -> (r: Vec<usize>)
    ensures
        findings_order_of(keys@, r@),
        r@ == findings_perm(keys@),
{
    let n = keys.len();
    let mut perm: Vec<usize> = Vec::new();
    let mut k: usize = 0;
    while k < n
        invariant
            n == keys@.len(),
            k <= n,
            findings_order_of(keys@.take(k as int), perm@),
            forall|q: int| 0 <= q < perm@.len() ==> #[trigger] perm@[q] < k,
        decreases n - k,
    {
        let ghost ks = keys@.take(k as int);
        let ghost ks1 = keys@.take(k + 1);
        let ghost old_perm = perm@;
        let m = perm.len();
        let mut pos: usize = 0;
        let mut stop = false;
        while pos < m && !stop
            invariant
                m == perm@.len(),
                perm@ == old_perm,
                k < n,
                n == keys@.len(),
                pos <= m,
                forall|q: int| 0 <= q < m ==> #[trigger] perm@[q] < k,
                forall|q: int| 0 <= q < pos ==> !finding_before(keys@[k as int], keys@[#[trigger] perm@[q] as int]),
                stop ==> pos < m && finding_before(keys@[k as int], keys@[perm@[pos as int] as int]),
            decreases m - pos, (if stop { 0int } else { 1int }),
        {
            if before(&keys[k], &keys[perm[pos]]) {
                stop = true;
            } else {
                pos = pos + 1;
            }
        }
        perm.insert(pos, k);
        proof {
            assert forall|q: int| 0 <= q < old_perm.len() implies #[trigger] ks1[old_perm[q] as int] == ks[old_perm[q] as int] by {}
            let np = perm@;
            assert(np =~= old_perm.insert(pos as int, k));
            assert forall|q: int| 0 <= q < np.len() implies #[trigger] np[q] < ks1.len() by {}
            assert forall|q: int, r: int| 0 <= q < r < np.len() implies #[trigger] np[q] != #[trigger] np[r] by {
                if q < pos && r < pos {
                } else if q < pos && r == pos {
                } else if q < pos {
                    assert(np[r] == old_perm[r - 1]);
                } else if q == pos {
                    assert(np[r] == old_perm[r - 1]);
                } else {
                    assert(np[q] == old_perm[q - 1]);
                    assert(np[r] == old_perm[r - 1]);
                }
            }
            assert forall|q: int, r: int| 0 <= q < r < np.len() implies !finding_before(
                ks1[#[trigger] np[r] as int],
                ks1[#[trigger] np[q] as int],
            ) && (finding_tie(ks1[np[q] as int], ks1[np[r] as int]) ==> np[q] < np[r]) by {
                let kk = keys@[k as int];
                if r < pos {
                    assert(ks1[np[q] as int] == ks[old_perm[q] as int]);
                    assert(ks1[np[r] as int] == ks[old_perm[r] as int]);
                } else if r == pos {
                    assert(np[r] == k);
                    assert(ks1[k as int] == kk);
                    assert(np[q] == old_perm[q]);
                    assert(!finding_before(kk, keys@[old_perm[q] as int]));
                } else if q == pos {
                    let e = old_perm[r - 1];
                    assert(np[r] == e);
                    assert(ks1[k as int] == kk);
                    assert(finding_before(kk, keys@[old_perm[pos as int] as int]));
                    if r - 1 > pos {
                        assert(!finding_before(ks[e as int], ks[old_perm[pos as int] as int]));
                    }
                    if finding_before(keys@[e as int], kk) {
                        lemma_before_transitive(keys@[e as int], kk, keys@[old_perm[pos as int] as int]);
                        lemma_before_irreflexive(keys@[e as int], keys@[e as int]);
                    }
                    if finding_tie(kk, keys@[e as int]) {
                        lemma_before_irreflexive(keys@[e as int], keys@[old_perm[pos as int] as int]);
                        lemma_before_irreflexive(kk, keys@[e as int]);
                        if r - 1 > pos {
                            assert(finding_before(keys@[e as int], keys@[old_perm[pos as int] as int]));
                        }
                    }
                } else if q < pos {
                    assert(np[q] == old_perm[q]);
                    assert(np[r] == old_perm[r - 1]);
                    assert(ks1[np[q] as int] == ks[old_perm[q] as int]);
                    assert(ks1[np[r] as int] == ks[old_perm[r - 1] as int]);
                } else {
                    assert(np[q] == old_perm[q - 1]);
                    assert(np[r] == old_perm[r - 1]);
                    assert(ks1[np[q] as int] == ks[old_perm[q - 1] as int]);
                    assert(ks1[np[r] as int] == ks[old_perm[r - 1] as int]);
                }
            }
            assert forall|q: int| 0 <= q < np.len() implies #[trigger] np[q] < k + 1 by {}
        }
        k = k + 1;
    }
    assert(keys@.take(n as int) =~= keys@);
    proof {
        let p = findings_perm(keys@);
        assert(findings_order_of(keys@, perm@));
        lemma_findings_order_unique(keys@, p, perm@);
    }
    perm
}

proof fn lemma_before_total(a: FindingKey, b: FindingKey)
    ensures
        finding_before(a, b) || finding_before(b, a) || finding_tie(a, b),
{
    lemma_lex_trichotomy(a.rule_id@, b.rule_id@);
}

/// Every index of `keys` has a place in a findings-table order.
proof fn lemma_order_covers(keys: Seq<FindingKey>, perm: Seq<usize>, x: int)
    requires
        findings_order_of(keys, perm),
        0 <= x < keys.len(),
    ensures
        exists|q: int| 0 <= q < perm.len() && perm[q] == x,
{
    let n = keys.len() as int;
    let s = perm.map_values(|v: usize| v as int);
    assert(s.no_duplicates()) by {
        assert forall|i: int, j: int| 0 <= i < s.len() && 0 <= j < s.len() && i != j implies s[i] != s[j] by {
            if i < j {
                assert(perm[i] != perm[j]);
            } else {
                assert(perm[j] != perm[i]);
            }
        }
    }
    s.unique_seq_to_set();
    lemma_int_range(0, n);
    assert(s.to_set().subset_of(set_int_range(0, n))) by {
        assert forall|v: int| s.to_set().contains(v) implies set_int_range(0, n).contains(v) by {
            let q = choose|q: int| 0 <= q < s.len() && s[q] == v;
            assert(perm[q] < keys.len());
        }
    }
    lemma_len_subset(s.to_set(), set_int_range(0, n));
    lemma_subset_equality(s.to_set(), set_int_range(0, n));
    assert(set_int_range(0, n).contains(x));
    assert(s.to_set().contains(x));
    let q = choose|q: int| 0 <= q < s.len() && s[q] == x;
    assert(perm[q] == x);
}

proof fn lemma_orders_agree(keys: Seq<FindingKey>, p1: Seq<usize>, p2: Seq<usize>, q: int)
    requires
        findings_order_of(keys, p1),
        findings_order_of(keys, p2),
        0 <= q < keys.len(),
    ensures
        p1[q] == p2[q],
    decreases q,
{
    assert forall|t: int| 0 <= t < q implies p1[t] == p2[t] by {
        lemma_orders_agree(keys, p1, p2, t);
    }
    let a = p1[q];
    let b = p2[q];
    if a != b {
        lemma_order_covers(keys, p2, a as int);
        lemma_order_covers(keys, p1, b as int);
        let r = choose|r: int| 0 <= r < p2.len() && p2[r] == a;
        let s = choose|s: int| 0 <= s < p1.len() && p1[s] == b;
        if r < q {
            assert(p1[r] == p2[r]);
            assert(p1[r] != p1[q]);
        }
        if s < q {
            assert(p1[s] == p2[s]);
            assert(p2[s] != p2[q]);
        }
        assert(q < r && q < s);
        assert(!finding_before(keys[p2[r] as int], keys[p2[q] as int]));
        assert(!finding_before(keys[p1[s] as int], keys[p1[q] as int]));
        lemma_before_total(keys[a as int], keys[b as int]);
        assert(finding_tie(keys[p2[q] as int], keys[p2[r] as int]) ==> p2[q] < p2[r]);
        assert(finding_tie(keys[p1[q] as int], keys[p1[s] as int]) ==> p1[q] < p1[s]);
    }
}

/// The findings-table order is fully determined by the findings: any two
/// orders that meet [`findings_order_of`] are the same.
pub proof fn lemma_findings_order_unique(keys: Seq<FindingKey>, p1: Seq<usize>, p2: Seq<usize>)
    requires
        findings_order_of(keys, p1),
        findings_order_of(keys, p2),
    ensures
        p1 == p2,
{
    assert forall|q: int| 0 <= q < p1.len() implies p1[q] == p2[q] by {
        lemma_orders_agree(keys, p1, p2, q);
    }
    assert(p1 =~= p2);
}

/// The findings-table order of `keys`.
pub open spec fn findings_perm(keys: Seq<FindingKey>) -> Seq<usize> {
    choose|p: Seq<usize>| findings_order_of(keys, p)
}

/// `G` for a global-scope finding (pull id 0), otherwise the pull id.
pub open spec fn pull_label_text(pull_id: u32) -> Seq<char> {
    if pull_id == 0 {
        seq!['G']
    } else {
        decimal(pull_id as nat)
    }
}

/// The label of a finding's pull in the findings table.
pub fn pull_label(pull_id: u32) -> (r: String)
    ensures
        r@ == pull_label_text(pull_id),
{
    if pull_id == 0 {
        let s = String::from_str("G");
        proof {
            reveal_strlit("G");
        }
        assert(s@ =~= seq!['G']);
        s
    } else {
        let mut s = String::new();
        push_decimal(&mut s, pull_id as usize);
        assert(s@ =~= decimal(pull_id as nat));
        s
    }
}

/// `s` with every newline replaced by `rep`.
pub open spec fn replace_newlines(s: Seq<char>, rep: Seq<char>) -> Seq<char>
    decreases s.len(),
{
    if s.len() == 0 {
        Seq::empty()
    } else {
        let p = replace_newlines(s.drop_last(), rep);
        if s.last() == '\n' {
            p + rep
        } else {
            p.push(s.last())
        }
    }
}

/// Append `text` to `out` with every newline replaced by `rep`.
pub fn push_replacing_newlines(out: &mut String, text: &str, rep: &str)
    ensures
        final(out)@ == old(out)@ + replace_newlines(text@, rep@),
{
    let v = chars_of(text);
    let ghost o0 = out@;
    let n = v.len();
    let mut i: usize = 0;
    assert(o0 + replace_newlines(v@.take(0), rep@) =~= o0);
    while i < n
        invariant
            n == v@.len(),
            v@ == text@,
            i <= n,
            out@ == o0 + replace_newlines(v@.take(i as int), rep@),
        decreases n - i,
    {
        assert(v@.take(i + 1).drop_last() =~= v@.take(i as int));
        assert(v@.take(i + 1).last() == v@[i as int]);
        let ghost before_push = out@;
        if v[i] == '\n' {
            append_str(out, rep);
            assert(out@ =~= o0 + replace_newlines(v@.take(i + 1), rep@));
        } else {
            let mut one = String::new();
            let single = crate::text::sub_chars(&v, i, i + 1);
            crate::text::append_chars(&mut one, &single);
            append_str(out, one.as_str());
            assert(single@ =~= seq![v@[i as int]]);
            assert(out@ =~= o0 + replace_newlines(v@.take(i + 1), rep@));
        }
        i = i + 1;
    }
    assert(v@.take(n as int) =~= v@);
}

/// The rule-refs cell of a recommendation row.
pub open spec fn rule_refs_cell(refs: Seq<Seq<char>>) -> Seq<char> {
    if refs.len() == 0 {
        "—"@
    } else {
        join_sep(refs, ", "@)
    }
}

/// One row of the recommendation table.
pub open spec fn recommendation_row_text(r: Recommendation) -> Seq<char> {
    "| `"@ + r.map_name@ + "` | "@ + r.cell_selector@ + " | **"@ + status_str(r.status)@ + "** | "@
        + r.proposed_value_text@ + " | "@ + rule_refs_cell(views(r.rule_refs@)) + " | "@
        + replace_newlines(r.rationale@, "<br>"@) + " |"@
}

/// Render one row of the recommendation table.
pub fn recommendation_row(r: &Recommendation) -> (s: String)
    ensures
        s@ == recommendation_row_text(*r),
{
    let mut s = String::from_str("| `");
    append_str(&mut s, r.map_name.as_str());
    append_str(&mut s, "` | ");
    append_str(&mut s, r.cell_selector.as_str());
    append_str(&mut s, " | **");
    append_str(&mut s, r.status.as_str());
    append_str(&mut s, "** | ");
    append_str(&mut s, r.proposed_value_text.as_str());
    append_str(&mut s, " | ");
    if r.rule_refs.len() == 0 {
        append_str(&mut s, "—");
    } else {
        push_joined_strings(&mut s, &r.rule_refs, ", ");
    }
    append_str(&mut s, " | ");
    push_replacing_newlines(&mut s, r.rationale.as_str(), "<br>");
    append_str(&mut s, " |");
    s
}

} // verus!
