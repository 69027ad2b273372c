//! Ordering slips by their latest activity: newest first, by the text of
//! their last timestamps, slips with equal timestamps in the order they
//! were read.
use vstd::prelude::*;

verus! {

/// Whether text `a` comes before text `b` character by character, a proper
/// prefix coming first.
pub open spec fn text_lt(a: Seq<char>, b: Seq<char>) -> bool
    decreases a.len(),
{
    if a.len() == 0 {
        b.len() > 0
    } else if b.len() == 0 {
        false
    } else if a[0] != b[0] {
        (a[0] as int) < (b[0] as int)
    } else {
        text_lt(a.drop_first(), b.drop_first())
    }
}

proof fn lemma_text_lt_asymmetric(a: Seq<char>, b: Seq<char>)
    ensures
        text_lt(a, b) ==> !text_lt(b, a),
        !text_lt(a, a),
    decreases a.len(),
{
    if a.len() > 0 && b.len() > 0 && a[0] == b[0] {
        lemma_text_lt_asymmetric(a.drop_first(), b.drop_first());
    }
    if a.len() > 0 {
        lemma_text_lt_asymmetric(a.drop_first(), a.drop_first());
    }
}

proof fn lemma_text_lt_total(a: Seq<char>, b: Seq<char>)
    ensures
        text_lt(a, b) || text_lt(b, a) || a == b,
    decreases a.len(),
{
    if a.len() > 0 && b.len() > 0 && a[0] == b[0] {
        lemma_text_lt_total(a.drop_first(), b.drop_first());
        if a.drop_first() == b.drop_first() {
            assert(a =~= seq![a[0]] + a.drop_first());
            assert(b =~= seq![b[0]] + b.drop_first());
        }
    }
}

proof fn lemma_text_lt_transitive(a: Seq<char>, b: Seq<char>, c: Seq<char>)
    requires
        text_lt(a, b),
        text_lt(b, c),
    ensures
        text_lt(a, c),
    decreases a.len(),
{
    if a.len() > 0 && b.len() > 0 && c.len() > 0 && a[0] == b[0] && b[0] == c[0] {
        lemma_text_lt_transitive(a.drop_first(), b.drop_first(), c.drop_first());
    }
}

/// Where the slip read `i`-th, with timestamp `s`, goes in `order`,
/// looking from `k`: before the first slip whose timestamp comes before
/// `s`, else at the end.
pub open spec fn place_newest(order: Seq<int>, stamps: Seq<Seq<char>>, s: Seq<char>, k: int) -> int
    decreases order.len() - k,
{
    if k >= order.len() {
        order.len() as int
    } else if text_lt(stamps[order[k]], s) {
        k
    } else {
        place_newest(order, stamps, s, k + 1)
    }
}

/// The first `n` slips, by the positions they were read at, newest first:
/// each goes after every earlier-read one whose timestamp does not come
/// before its own (a stable sort, descending).
pub open spec fn newest_first_order(stamps: Seq<Seq<char>>, n: nat) -> Seq<int>
    decreases n,
{
    if n == 0 {
        Seq::empty()
    } else {
        let o = newest_first_order(stamps, (n - 1) as nat);
        o.insert(place_newest(o, stamps, stamps[n - 1], 0), n - 1)
    }
}

/// Whether `order` lists slips so that no later one is newer than an
/// earlier one.
pub open spec fn newest_ordered(order: Seq<int>, stamps: Seq<Seq<char>>) -> bool {
    forall|i: int, j: int|
        0 <= i < j < order.len() ==> !text_lt(#[trigger] stamps[order[i]], #[trigger] stamps[order[j]])
}

proof fn lemma_place_newest(order: Seq<int>, stamps: Seq<Seq<char>>, s: Seq<char>, k: int)
    requires
        0 <= k <= order.len(),
        newest_ordered(order, stamps),
        forall|m: int| 0 <= m < k ==> !text_lt(#[trigger] stamps[order[m]], s),
    ensures
        k <= place_newest(order, stamps, s, k) <= order.len(),
        forall|m: int| 0 <= m < place_newest(order, stamps, s, k) ==> !text_lt(#[trigger] stamps[order[m]], s),
        forall|m: int|
            place_newest(order, stamps, s, k) <= m < order.len() ==> text_lt(#[trigger] stamps[order[m]], s),
    decreases order.len() - k,
{
    if k < order.len() {
        if text_lt(stamps[order[k]], s) {
            assert forall|m: int| k <= m < order.len() implies text_lt(#[trigger] stamps[order[m]], s) by {
                if m > k {
                    assert(!text_lt(stamps[order[k]], stamps[order[m]]));
                    lemma_text_lt_total(stamps[order[k]], stamps[order[m]]);
                    if stamps[order[m]] != stamps[order[k]] {
                        lemma_text_lt_transitive(stamps[order[m]], stamps[order[k]], s);
                    }
                }
            }
        } else {
            lemma_place_newest(order, stamps, s, k + 1);
        }
    }
}

/// Inserting each slip at its place keeps them newest first, and lists
/// every slip read exactly once.
proof fn lemma_newest_first_order(stamps: Seq<Seq<char>>, n: nat)
    requires
        n <= stamps.len(),
    ensures
        newest_ordered(newest_first_order(stamps, n), stamps),
        newest_first_order(stamps, n).len() == n,
        forall|k: int| 0 <= k < n ==> #[trigger] newest_first_order(stamps, n).contains(k),
        forall|i: int| 0 <= i < n ==> 0 <= #[trigger] newest_first_order(stamps, n)[i] < n,
    decreases n,
{
    if n > 0 {
        lemma_newest_first_order(stamps, (n - 1) as nat);
        let o = newest_first_order(stamps, (n - 1) as nat);
        let s = stamps[n - 1];
        lemma_place_newest(o, stamps, s, 0);
        let k = place_newest(o, stamps, s, 0);
        let r = o.insert(k, n - 1);
        assert(r[k] == n - 1);
        assert forall|i: int, j: int| 0 <= i < j < r.len() implies !text_lt(
            #[trigger] stamps[r[i]],
            #[trigger] stamps[r[j]],
        ) by {
            if j < k {
                assert(r[i] == o[i] && r[j] == o[j]);
            } else if j == k {
                assert(r[i] == o[i]);
            } else if i < k {
                assert(r[i] == o[i] && r[j] == o[j - 1]);
            } else if i == k {
                assert(r[j] == o[j - 1]);
                lemma_text_lt_asymmetric(stamps[o[j - 1]], s);
            } else {
                assert(r[i] == o[i - 1] && r[j] == o[j - 1]);
            }
        }
        assert forall|m: int| 0 <= m < n implies #[trigger] r.contains(m) by {
            if m == n - 1 {
                assert(r[k] == m);
            } else {
                assert(o.contains(m));
                let t = choose|t: int| 0 <= t < o.len() && o[t] == m;
                if t < k {
                    assert(r[t] == m);
                } else {
                    assert(r[t + 1] == m);
                }
            }
        }
        assert forall|i: int| 0 <= i < n implies 0 <= #[trigger] r[i] < n by {
            if i < k {
                assert(r[i] == o[i]);
            } else if i > k {
                assert(r[i] == o[i - 1]);
            }
        }
    }
}

/// Listing slips newest first: no slip stands after a newer one, equal
/// timestamps keep the order the slips were read in, and every slip is
/// listed exactly once.
pub proof fn law_slips_are_listed_newest_first(stamps: Seq<Seq<char>>)
    ensures
        newest_ordered(newest_first_order(stamps, stamps.len()), stamps),
        newest_first_order(stamps, stamps.len()).len() == stamps.len(),
        forall|k: int|
            0 <= k < stamps.len() ==> #[trigger] newest_first_order(stamps, stamps.len()).contains(k),
{
    lemma_newest_first_order(stamps, stamps.len());
}

/// Whether text `a` comes before text `b`.
pub fn text_before(a: &str, b: &str) -> (r: bool)
    ensures
        r == text_lt(a@, b@),
{
    let va: Vec<char> = crate::text::chars_of(a);
    let vb: Vec<char> = crate::text::chars_of(b);
    let mut i: usize = 0;
    assert(a@.skip(0) =~= a@);
    assert(b@.skip(0) =~= b@);
    while i < va.len() && i < vb.len() && va[i] == vb[i]
        invariant
            va@ == a@,
            vb@ == b@,
            i <= va.len(),
            i <= vb.len(),
            text_lt(a@, b@) == text_lt(a@.skip(i as int), b@.skip(i as int)),
        decreases va.len() - i,
    {
        proof {
            assert(a@.skip(i as int).drop_first() =~= a@.skip(i + 1));
            assert(b@.skip(i as int).drop_first() =~= b@.skip(i + 1));
        }
        i = i + 1;
    }
    if i == va.len() {
        assert(a@.skip(i as int).len() == 0);
        i < vb.len()
    } else if i == vb.len() {
        assert(b@.skip(i as int).len() == 0);
        false
    } else {
        assert(a@.skip(i as int)[0] == va@[i as int]);
        assert(b@.skip(i as int)[0] == vb@[i as int]);
        va[i] < vb[i]
    }
}

/// The views of a list of timestamps.
pub open spec fn stamps_view(v: Seq<String>) -> Seq<Seq<char>> {
    v.map_values(|s: String| s@)
}

/// The positions of slips, by the order they were read in, listed newest
/// first by their last timestamps.
pub fn newest_first(stamps: &Vec<String>) -> (r: Vec<usize>)
    ensures
        r@.len() == stamps@.len(),
        forall|i: int| 0 <= i < r@.len() ==> r@[i] as int == #[trigger] newest_first_order(stamps_view(stamps@), stamps@.len())[i],
{
    let ghost sv = stamps_view(stamps@);
    let mut order: Vec<usize> = Vec::new();
    let mut n: usize = 0;
    while n < stamps.len()
        invariant
            n <= stamps@.len(),
            sv == stamps_view(stamps@),
            order@.len() == n,
            forall|i: int| 0 <= i < n ==> order@[i] as int == #[trigger] newest_first_order(sv, n as nat)[i],
        decreases stamps@.len() - n,
    {
        let ghost o = newest_first_order(sv, n as nat);
        proof {
            lemma_newest_first_order(sv, n as nat);
            assert(sv[n as int] == stamps@[n as int]@);
        }
        let mut k: usize = 0;
        while k < order.len() && !text_before(stamps[order[k]].as_str(), stamps[n].as_str())
            invariant
                n < stamps@.len(),
                sv == stamps_view(stamps@),
                order@.len() == n,
                o.len() == n,
                k <= n,
                forall|i: int| 0 <= i < n ==> order@[i] as int == #[trigger] o[i],
                forall|i: int| 0 <= i < n ==> 0 <= #[trigger] o[i] < n,
                place_newest(o, sv, sv[n as int], 0) == place_newest(o, sv, sv[n as int], k as int),
            decreases n - k,
        {
            proof {
                assert(order@[k as int] as int == o[k as int]);
                assert(sv[o[k as int]] == stamps@[o[k as int]]@);
            }
            k = k + 1;
        }
        proof {
            if k < n {
                assert(order@[k as int] as int == o[k as int]);
                assert(sv[o[k as int]] == stamps@[o[k as int]]@);
            }
            assert(place_newest(o, sv, sv[n as int], k as int) == k);
        }
        let ghost before = order@;
        order.insert(k, n);
        proof {
            let r = newest_first_order(sv, (n + 1) as nat);
            assert(r == o.insert(k as int, n as int));
            assert forall|i: int| 0 <= i < n + 1 implies order@[i] as int == #[trigger] r[i] by {
                if i < k {
                    assert(order@[i] == before[i]);
                } else if i > k {
                    assert(order@[i] == before[i - 1]);
                }
            }
        }
        n = n + 1;
    }
    order
}

} // verus!
