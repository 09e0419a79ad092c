use vstd::prelude::*;

use crate::models::{views, NetworkInfo, NetworkView};

verus! {

/// Whether some record of `xs` carries the SSID `s`.
pub open spec fn has_ssid(xs: Seq<NetworkView>, s: Seq<char>) -> bool {
    exists|i: int| 0 <= i < xs.len() && #[trigger] xs[i].ssid == s
}

/// `xs` with every record dropped whose SSID an earlier record already carries.
pub open spec fn dedup_ssid(xs: Seq<NetworkView>) -> Seq<NetworkView>
    decreases xs.len(),
{
    if xs.len() == 0 {
        xs
    } else {
        let d = dedup_ssid(xs.drop_last());
        if has_ssid(d, xs.last().ssid) {
            d
        } else {
            d.push(xs.last())
        }
    }
}

/// The records of `xs` whose strength is `s`, in their order.
pub open spec fn with_strength(xs: Seq<NetworkView>, s: u8) -> Seq<NetworkView>
    decreases xs.len(),
{
    if xs.len() == 0 {
        xs
    } else {
        let sub = with_strength(xs.drop_last(), s);
        if xs.last().signal_strength == s {
            sub.push(xs.last())
        } else {
            sub
        }
    }
}

/// The records of strength 255, then 254, and so on down to `256 - n`,
/// each group in the order of `xs`.
pub open spec fn strongest_bands(xs: Seq<NetworkView>, n: nat) -> Seq<NetworkView>
    decreases n,
{
    if n == 0 {
        Seq::empty()
    } else {
        strongest_bands(xs, (n - 1) as nat) + with_strength(xs, (256 - n) as u8)
    }
}

/// `xs` sorted by decreasing strength, records of equal strength kept in order.
pub open spec fn ranked(xs: Seq<NetworkView>) -> Seq<NetworkView> {
    strongest_bands(xs, 256)
}

proof fn lemma_views_push(rs: Seq<NetworkInfo>, r: NetworkInfo)
    ensures
        views(rs.push(r)) == views(rs).push(r@),
{
    assert(views(rs.push(r)) =~= views(rs).push(r@));
}

proof fn lemma_views_take(rs: Seq<NetworkInfo>, i: int)
    requires
        0 <= i < rs.len(),
    ensures
        views(rs.take(i + 1)).drop_last() == views(rs.take(i)),
        views(rs.take(i + 1)).last() == rs[i]@,
        views(rs.take(i + 1)).len() == i + 1,
{
    assert(views(rs.take(i + 1)).drop_last() =~= views(rs.take(i)));
}

/// Whether `out` already holds a record with the SSID of `r`.
fn holds_ssid(out: &Vec<NetworkInfo>, r: &NetworkInfo) -> (b: bool)
    ensures
        b == has_ssid(views(out@), r.ssid@),
{
    let mut j: usize = 0;
    while j < out.len()
        invariant
            j <= out@.len(),
            forall|k: int| 0 <= k < j ==> out@[k].ssid@ != r.ssid@,
        decreases out@.len() - j,
    {
        if out[j].ssid == r.ssid {
            assert(views(out@)[j as int].ssid == r.ssid@);
            return true;
        }
        j += 1;
    }
    assert forall|i: int| 0 <= i < views(out@).len() implies #[trigger] views(out@)[i].ssid != r.ssid@ by {
        assert(views(out@)[i] == out@[i]@);
    }
    false
}

/// Keeps the first record of each SSID, in order.
pub fn dedup_by_ssid(found: &Vec<NetworkInfo>) -> (out: Vec<NetworkInfo>)
    ensures
        views(out@) == dedup_ssid(views(found@)),
{
    let mut out: Vec<NetworkInfo> = Vec::new();
    let mut i: usize = 0;
    while i < found.len()
        invariant
            i <= found@.len(),
            views(out@) == dedup_ssid(views(found@.take(i as int))),
        decreases found@.len() - i,
    {
        proof { lemma_views_take(found@, i as int); }
        if !holds_ssid(&out, &found[i]) {
            let r = found[i].copy();
            proof { lemma_views_push(out@, r); }
            out.push(r);
        }
        i += 1;
    }
    assert(found@.take(found@.len() as int) =~= found@);
    out
}

/// Sorts by decreasing strength; records of equal strength keep their order.
pub fn rank_by_strength(xs: &Vec<NetworkInfo>) -> (out: Vec<NetworkInfo>)
    ensures
        views(out@) == ranked(views(xs@)),
{
    let mut out: Vec<NetworkInfo> = Vec::new();
    let mut k: usize = 0;
    while k < 256
        invariant
            k <= 256,
            views(out@) == strongest_bands(views(xs@), k as nat),
        decreases 256 - k,
    {
        let s: u8 = (255 - k) as u8;
        let mut i: usize = 0;
        while i < xs.len()
            invariant
                k < 256,
                s == 255 - k,
                i <= xs@.len(),
                views(out@) == strongest_bands(views(xs@), k as nat) + with_strength(
                    views(xs@.take(i as int)),
                    s,
                ),
            decreases xs@.len() - i,
        {
            proof { lemma_views_take(xs@, i as int); }
            if xs[i].signal_strength == s {
                let r = xs[i].copy();
                proof { lemma_views_push(out@, r); }
                out.push(r);
            }
            i += 1;
        }
        assert(xs@.take(xs@.len() as int) =~= xs@);
        k += 1;
    }
    out
}

/// Deduplicates by SSID (first occurrence wins), then ranks by strength.
pub fn rank_networks(found: &Vec<NetworkInfo>) -> (out: Vec<NetworkInfo>)
    ensures
        views(out@) == ranked(dedup_ssid(views(found@))),
{
    let unique = dedup_by_ssid(found);
    rank_by_strength(&unique)
}

/// No two records of `xs` carry the same SSID.
pub open spec fn ssids_distinct(xs: Seq<NetworkView>) -> bool {
    forall|i: int, j: int| 0 <= i < j < xs.len() ==> #[trigger] xs[i].ssid != #[trigger] xs[j].ssid
}

/// Strength never increases from one record to the next.
pub open spec fn non_increasing(xs: Seq<NetworkView>) -> bool {
    forall|i: int, j: int|
        0 <= i < j < xs.len() ==> #[trigger] xs[i].signal_strength >= #[trigger] xs[j].signal_strength
}

proof fn lemma_band_members(xs: Seq<NetworkView>, s: u8)
    ensures
        forall|k: int| 0 <= k < with_strength(xs, s).len() ==> {
            &&& (#[trigger] with_strength(xs, s)[k]).signal_strength == s
            &&& xs.contains(with_strength(xs, s)[k])
        },
        forall|k: int| 0 <= k < xs.len() && #[trigger] xs[k].signal_strength == s
            ==> with_strength(xs, s).contains(xs[k]),
    decreases xs.len(),
{
    if xs.len() > 0 {
        let pre = xs.drop_last();
        lemma_band_members(pre, s);
        let sub = with_strength(pre, s);
        assert forall|k: int| 0 <= k < with_strength(xs, s).len() implies {
            &&& (#[trigger] with_strength(xs, s)[k]).signal_strength == s
            &&& xs.contains(with_strength(xs, s)[k])
        } by {
            if k < sub.len() {
                let m = choose|m: int| 0 <= m < pre.len() && pre[m] == sub[k];
                assert(xs[m] == pre[m]);
            } else {
                assert(xs[xs.len() - 1] == xs.last());
            }
        }
        assert forall|k: int| 0 <= k < xs.len() && #[trigger] xs[k].signal_strength == s
            implies with_strength(xs, s).contains(xs[k]) by {
            if k < xs.len() - 1 {
                assert(pre[k] == xs[k]);
                let m = choose|m: int| 0 <= m < sub.len() && sub[m] == pre[k];
                assert(with_strength(xs, s)[m] == sub[m]);
            } else {
                assert(with_strength(xs, s).last() == xs.last());
            }
        }
    }
}

proof fn lemma_band_distinct(xs: Seq<NetworkView>, s: u8)
    requires
        ssids_distinct(xs),
    ensures
        ssids_distinct(with_strength(xs, s)),
    decreases xs.len(),
{
    if xs.len() > 0 {
        let pre = xs.drop_last();
        assert(ssids_distinct(pre)) by {
            assert forall|i: int, j: int| 0 <= i < j < pre.len() implies #[trigger] pre[i].ssid
                != #[trigger] pre[j].ssid by {
                assert(pre[i] == xs[i] && pre[j] == xs[j]);
            }
        }
        lemma_band_distinct(pre, s);
        lemma_band_members(pre, s);
        let sub = with_strength(pre, s);
        let w = with_strength(xs, s);
        if xs.last().signal_strength == s {
            assert forall|i: int, j: int| 0 <= i < j < w.len() implies #[trigger] w[i].ssid
                != #[trigger] w[j].ssid by {
                if j == w.len() - 1 {
                    assert(w[i] == sub[i]);
                    let m = choose|m: int| 0 <= m < pre.len() && pre[m] == sub[i];
                    assert(xs[m] == pre[m]);
                    assert(xs[xs.len() - 1] == w[j]);
                } else {
                    assert(w[i] == sub[i] && w[j] == sub[j]);
                }
            }
        }
    }
}

proof fn lemma_bands(xs: Seq<NetworkView>, n: nat)
    requires
        n <= 256,
    ensures
        non_increasing(strongest_bands(xs, n)),
        forall|k: int| 0 <= k < strongest_bands(xs, n).len() ==> {
            &&& (#[trigger] strongest_bands(xs, n)[k]).signal_strength >= 256 - n
            &&& xs.contains(strongest_bands(xs, n)[k])
        },
        forall|k: int| 0 <= k < xs.len() && #[trigger] xs[k].signal_strength >= 256 - n
            ==> strongest_bands(xs, n).contains(xs[k]),
        ssids_distinct(xs) ==> ssids_distinct(strongest_bands(xs, n)),
    decreases n,
{
    if n > 0 {
        let m = (n - 1) as nat;
        let s = (256 - n) as u8;
        lemma_bands(xs, m);
        lemma_band_members(xs, s);
        let a = strongest_bands(xs, m);
        let b = with_strength(xs, s);
        let ab = strongest_bands(xs, n);
        assert(ab == a + b);
        assert forall|i: int, j: int| 0 <= i < j < ab.len() implies #[trigger] ab[i].signal_strength
            >= #[trigger] ab[j].signal_strength by {
            if j < a.len() {
                assert(ab[i] == a[i] && ab[j] == a[j]);
            } else if i < a.len() {
                assert(ab[i] == a[i] && ab[j] == b[j - a.len()]);
            } else {
                assert(ab[i] == b[i - a.len()] && ab[j] == b[j - a.len()]);
            }
        }
        assert forall|k: int| 0 <= k < ab.len() implies {
            &&& (#[trigger] ab[k]).signal_strength >= 256 - n
            &&& xs.contains(ab[k])
        } by {
            if k < a.len() {
                assert(ab[k] == a[k]);
            } else {
                assert(ab[k] == b[k - a.len()]);
            }
        }
        assert forall|k: int| 0 <= k < xs.len() && #[trigger] xs[k].signal_strength >= 256 - n
            implies ab.contains(xs[k]) by {
            if xs[k].signal_strength >= 256 - m {
                let p = choose|p: int| 0 <= p < a.len() && a[p] == xs[k];
                assert(ab[p] == a[p]);
            } else {
                let p = choose|p: int| 0 <= p < b.len() && b[p] == xs[k];
                assert(ab[a.len() + p] == b[p]);
            }
        }
        if ssids_distinct(xs) {
            lemma_band_distinct(xs, s);
            assert forall|i: int, j: int| 0 <= i < j < ab.len() implies #[trigger] ab[i].ssid
                != #[trigger] ab[j].ssid by {
                if j < a.len() {
                    assert(ab[i] == a[i] && ab[j] == a[j]);
                } else if i < a.len() {
                    assert(ab[i] == a[i] && ab[j] == b[j - a.len()]);
                    let p = choose|p: int| 0 <= p < xs.len() && xs[p] == a[i];
                    let q = choose|q: int| 0 <= q < xs.len() && xs[q] == b[j - a.len()];
                    assert(xs[p].signal_strength != xs[q].signal_strength);
                } else {
                    assert(ab[i] == b[i - a.len()] && ab[j] == b[j - a.len()]);
                }
            }
        }
    }
}

proof fn lemma_dedup(xs: Seq<NetworkView>)
    ensures
        ssids_distinct(dedup_ssid(xs)),
        forall|s: Seq<char>| has_ssid(xs, s) <==> has_ssid(dedup_ssid(xs), s),
        forall|k: int| 0 <= k < dedup_ssid(xs).len() ==> xs.contains(#[trigger] dedup_ssid(xs)[k]),
    decreases xs.len(),
{
    if xs.len() > 0 {
        let pre = xs.drop_last();
        lemma_dedup(pre);
        let d = dedup_ssid(pre);
        let e = dedup_ssid(xs);
        assert forall|s: Seq<char>| has_ssid(xs, s) <==> has_ssid(e, s) by {
            if has_ssid(xs, s) {
                let i = choose|i: int| 0 <= i < xs.len() && #[trigger] xs[i].ssid == s;
                if i < xs.len() - 1 {
                    assert(pre[i].ssid == s);
                    assert(has_ssid(pre, s));
                    assert(has_ssid(d, s));
                    let j = choose|j: int| 0 <= j < d.len() && #[trigger] d[j].ssid == s;
                    assert(e[j] == d[j]);
                } else if !has_ssid(d, xs.last().ssid) {
                    assert(e[e.len() - 1].ssid == s);
                }
            }
            if has_ssid(e, s) {
                let j = choose|j: int| 0 <= j < e.len() && #[trigger] e[j].ssid == s;
                if j < d.len() {
                    assert(e[j] == d[j]);
                    assert(has_ssid(d, s));
                    assert(has_ssid(pre, s));
                    let i = choose|i: int| 0 <= i < pre.len() && #[trigger] pre[i].ssid == s;
                    assert(xs[i] == pre[i]);
                } else {
                    assert(xs[xs.len() - 1].ssid == s);
                }
            }
        }
        assert forall|k: int| 0 <= k < e.len() implies xs.contains(#[trigger] e[k]) by {
            if k < d.len() {
                assert(e[k] == d[k]);
                let m = choose|m: int| 0 <= m < pre.len() && pre[m] == d[k];
                assert(xs[m] == pre[m]);
            } else {
                assert(xs[xs.len() - 1] == e[k]);
            }
        }
        if !has_ssid(d, xs.last().ssid) {
            assert forall|i: int, j: int| 0 <= i < j < e.len() implies #[trigger] e[i].ssid
                != #[trigger] e[j].ssid by {
                if j == e.len() - 1 {
                    assert(e[i] == d[i]);
                } else {
                    assert(e[i] == d[i] && e[j] == d[j]);
                }
            }
        }
    }
}

/// The visible-network list is ordered by strength: no record is followed
/// by a stronger one.
pub proof fn lemma_ranked_non_increasing(xs: Seq<NetworkView>)
    ensures
        non_increasing(ranked(dedup_ssid(xs))),
{
    lemma_bands(dedup_ssid(xs), 256);
}

/// The visible-network list holds exactly one record for each SSID that any
/// access point broadcast: no SSID twice, none lost.
pub proof fn lemma_one_record_per_ssid(xs: Seq<NetworkView>)
    ensures
        ssids_distinct(ranked(dedup_ssid(xs))),
        forall|s: Seq<char>| has_ssid(xs, s) <==> has_ssid(ranked(dedup_ssid(xs)), s),
{
    let d = dedup_ssid(xs);
    let r = ranked(d);
    lemma_dedup(xs);
    lemma_bands(d, 256);
    assert forall|s: Seq<char>| has_ssid(d, s) <==> has_ssid(r, s) by {
        if has_ssid(d, s) {
            let i = choose|i: int| 0 <= i < d.len() && #[trigger] d[i].ssid == s;
            assert(d[i].signal_strength >= 256 - 256);
            assert(r.contains(d[i]));
            let p = choose|p: int| 0 <= p < r.len() && r[p] == d[i];
            assert(r[p].ssid == s);
        }
        if has_ssid(r, s) {
            let j = choose|j: int| 0 <= j < r.len() && #[trigger] r[j].ssid == s;
            let p = choose|p: int| 0 <= p < d.len() && d[p] == r[j];
            assert(d[p].ssid == s);
        }
    }
}

} // verus!
