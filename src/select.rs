use vstd::prelude::*;
use vstd::string::StrSliceExecFns;
use crate::model::{Release, ReleaseView};

verus! {

/// `a` sorts strictly before `b` as raw strings: characters compare by code
/// point, and a proper prefix sorts first. On UTF-8 text this is the order of
/// the bytes, which is chronological for ISO-8601 dates.
pub open spec fn str_lt(a: Seq<char>, b: Seq<char>) -> bool
    decreases a.len(),
{
    if b.len() == 0 {
        false
    } else if a.len() == 0 {
        true
    } else if a[0] != b[0] {
        a[0] < b[0]
    } else {
        str_lt(a.drop_first(), b.drop_first())
    }
}

proof fn lemma_str_lt_irreflexive(a: Seq<char>)
    ensures
        !str_lt(a, a),
    decreases a.len(),
{
    if a.len() > 0 {
        lemma_str_lt_irreflexive(a.drop_first());
    }
}

proof fn lemma_str_lt_transitive(a: Seq<char>, b: Seq<char>, c: Seq<char>)
    ensures
        str_lt(a, b) && str_lt(b, c) ==> str_lt(a, c),
    decreases a.len(),
{
    if a.len() > 0 && b.len() > 0 && c.len() > 0 {
        lemma_str_lt_transitive(a.drop_first(), b.drop_first(), c.drop_first());
    }
}

proof fn lemma_str_lt_total(a: Seq<char>, b: Seq<char>)
    ensures
        a != b ==> str_lt(a, b) || str_lt(b, a),
    decreases a.len(),
{
    if a.len() > 0 && b.len() > 0 && a[0] == b[0] {
        lemma_str_lt_total(a.drop_first(), b.drop_first());
        if a.drop_first() == b.drop_first() {
            assert(a.len() == b.len());
            assert forall|i: int| 0 <= i < a.len() implies a[i] == b[i] by {
                if i > 0 {
                    assert(a[i] == a.drop_first()[i - 1]);
                    assert(b[i] == b.drop_first()[i - 1]);
                }
            }
            assert(a =~= b);
        }
    } else if a.len() == 0 && b.len() == 0 {
        assert(a =~= b);
    } else if a.len() > 0 && b.len() > 0 {
    }
}

/// The candidate carries a release date.
pub open spec fn is_dated(r: ReleaseView) -> bool {
    r.date is Some
}

/// The key a candidate is ordered by: its date, or the empty string.
pub open spec fn date_key(r: ReleaseView) -> Seq<char> {
    match r.date {
        Some(d) => d,
        None => Seq::empty(),
    }
}

/// Index `i` is in the pool the choice is made from: the dated candidates,
/// or every candidate when none is dated.
pub open spec fn is_eligible(s: Seq<ReleaseView>, i: int) -> bool {
    &&& 0 <= i < s.len()
    &&& is_dated(s[i]) || !(exists|j: int| 0 <= j < s.len() && is_dated(s[j]))
}

/// Index `i` is the chosen candidate: eligible, with no eligible candidate
/// dated strictly before it, and strictly before every eligible candidate
/// that precedes it (the first of equal dates wins).
pub open spec fn is_earliest(s: Seq<ReleaseView>, i: int) -> bool {
    &&& is_eligible(s, i)
    &&& forall|j: int| #[trigger]
        is_eligible(s, j) ==> !str_lt(date_key(s[j]), date_key(s[i]))
    &&& forall|j: int|
        0 <= j < i && #[trigger] is_eligible(s, j) ==> str_lt(date_key(s[i]), date_key(s[j]))
}

/// The models of a sequence of releases.
pub open spec fn release_views(s: Seq<Release>) -> Seq<ReleaseView> {
    s.map_values(|r: Release| r@)
}

fn date_lt(a: &String, b: &String) -> (r: bool)
    ensures
        r == str_lt(a@, b@),
{
    let a_len = a.as_str().unicode_len();
    let b_len = b.as_str().unicode_len();
    let mut i: usize = 0;
    assert(a@.skip(0) =~= a@);
    assert(b@.skip(0) =~= b@);
    while i < a_len && i < b_len
        invariant
            a_len == a@.len(),
            b_len == b@.len(),
            i <= a_len,
            i <= b_len,
            str_lt(a@, b@) == str_lt(a@.skip(i as int), b@.skip(i as int)),
        decreases a_len - i,
    {
        let ca = a.as_str().get_char(i);
        let cb = b.as_str().get_char(i);
        assert(a@.skip(i as int)[0] == ca);
        assert(b@.skip(i as int)[0] == cb);
        if ca != cb {
            return ca < cb;
        }
        assert(a@.skip(i as int).drop_first() =~= a@.skip(i as int + 1));
        assert(b@.skip(i as int).drop_first() =~= b@.skip(i as int + 1));
        i = i + 1;
    }
    i < b_len
}

fn dated_before(a: &Release, b: &Release) -> (r: bool)
    ensures
        r == str_lt(date_key(a@), date_key(b@)),
{
    let empty = String::new();
    let ka = match &a.release_date {
        Some(d) => d,
        None => &empty,
    };
    let kb = match &b.release_date {
        Some(d) => d,
        None => &empty,
    };
    date_lt(ka, kb)
}

/// Picks the earliest official release among the search candidates: among
/// the dated candidates (or all of them when none is dated), the first one
/// with the smallest date string.
pub fn pick_earliest_official_release(releases: &[Release]) -> (r: Option<Release>)
    ensures
        r is None <==> releases@.len() == 0,
        r matches Some(rel) ==> exists|i: int|
            is_earliest(release_views(releases@), i) && rel == releases@[i],
{
    let ghost s = release_views(releases@);
    let mut any_dated = false;
    let mut k: usize = 0;
    while k < releases.len()
        invariant
            k <= releases@.len(),
            s == release_views(releases@),
            any_dated <==> exists|j: int| 0 <= j < k && is_dated(s[j]),
        decreases releases@.len() - k,
    {
        assert(s[k as int] == releases@[k as int]@);
        if releases[k].release_date.is_some() {
            any_dated = true;
        }
        k = k + 1;
    }
    let mut best: Option<usize> = None;
    let mut k: usize = 0;
    while k < releases.len()
        invariant
            k <= releases@.len(),
            s == release_views(releases@),
            any_dated <==> exists|j: int| 0 <= j < s.len() && is_dated(s[j]),
            best is None ==> forall|j: int| 0 <= j < k ==> !is_eligible(s, j),
            best matches Some(b) ==> {
                &&& b < k
                &&& is_eligible(s, b as int)
                &&& forall|j: int|
                    0 <= j < k && #[trigger] is_eligible(s, j) ==> !str_lt(
                        date_key(s[j]),
                        date_key(s[b as int]),
                    )
                &&& forall|j: int|
                    0 <= j < b && #[trigger] is_eligible(s, j) ==> str_lt(
                        date_key(s[b as int]),
                        date_key(s[j]),
                    )
            },
        decreases releases@.len() - k,
    {
        assert(s[k as int] == releases@[k as int]@);
        if !any_dated || releases[k].release_date.is_some() {
            match best {
                None => {
                    proof {
                        lemma_str_lt_irreflexive(date_key(s[k as int]));
                    }
                    best = Some(k);
                },
                Some(b) => {
                    if dated_before(&releases[k], &releases[b]) {
                        proof {
                            let kk = date_key(s[k as int]);
                            let kb = date_key(s[b as int]);
                            lemma_str_lt_irreflexive(kk);
                            assert forall|j: int|
                                0 <= j < k && #[trigger] is_eligible(s, j) implies !str_lt(
                                date_key(s[j]),
                                kk,
                            ) && str_lt(kk, date_key(s[j])) by {
                                lemma_str_lt_total(date_key(s[j]), kb);
                                lemma_str_lt_transitive(date_key(s[j]), kk, kb);
                                lemma_str_lt_transitive(kk, kb, date_key(s[j]));
                            }
                        }
                        best = Some(k);
                    }
                },
            }
        }
        k = k + 1;
    }
    match best {
        None => {
            if releases.len() > 0 {
                if any_dated {
                    let ghost j = choose|j: int| 0 <= j < s.len() && is_dated(s[j]);
                    assert(is_eligible(s, j));
                } else {
                    assert(is_eligible(s, 0));
                }
            }
            None
        },
        Some(b) => {
            assert(is_earliest(s, b as int));
            Some(releases[b].clone())
        },
    }
}

/// Whenever some candidate carries a date, the chosen candidate carries one.
pub proof fn lemma_dated_release_preferred(s: Seq<ReleaseView>, i: int)
    requires
        is_earliest(s, i),
        exists|j: int| 0 <= j < s.len() && is_dated(s[j]),
    ensures
        is_dated(s[i]),
{
}

/// When no candidate carries a date, the first candidate is the chosen one.
pub proof fn lemma_all_undated_picks_first(s: Seq<ReleaseView>, i: int)
    requires
        is_earliest(s, i),
        forall|j: int| 0 <= j < s.len() ==> !is_dated(s[j]),
    ensures
        i == 0,
{
    if i > 0 {
        assert(is_eligible(s, 0));
    }
}

/// The choice is a function of the candidates: two releases that each meet
/// the guarantee of a selection on the same candidates are the same release.
pub proof fn lemma_earliest_unique(s: Seq<Release>, r1: Release, r2: Release)
    requires
        exists|i: int| is_earliest(release_views(s), i) && r1 == s[i],
        exists|i: int| is_earliest(release_views(s), i) && r2 == s[i],
    ensures
        r1 == r2,
{
    let v = release_views(s);
    let i1 = choose|i: int| is_earliest(v, i) && r1 == s[i];
    let i2 = choose|i: int| is_earliest(v, i) && r2 == s[i];
    if i1 < i2 {
        assert(is_eligible(v, i1));
    } else if i2 < i1 {
        assert(is_eligible(v, i2));
    }
}

} // verus!
