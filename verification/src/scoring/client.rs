//! Weighing, grouping and ordering of review scores.

use vstd::prelude::*;
use crate::scoring::review_scoring::key_views;
use crate::text::str_eq;

verus! {

/// The weight of a review in an employee's score, by the size of its project:
/// existential (1) 20, large (2) 10, medium (3) 5, small (4) 1; reviews of any
/// other size do not count.
pub open spec fn size_weight(project_size: i32) -> u32 {
    if project_size == 1 {
        20
    } else if project_size == 2 {
        10
    } else if project_size == 3 {
        5
    } else if project_size == 4 {
        1
    } else {
        0
    }
}

/// The weight of a review in an employee's score, by the size of its project.
pub fn get_project_size_weight(project_size: i32) -> (w: u32)
    ensures
        w == size_weight(project_size),
{
    if project_size == 1 {
        20
    } else if project_size == 2 {
        10
    } else if project_size == 3 {
        5
    } else if project_size == 4 {
        1
    } else {
        0
    }
}

/// Items grouped by key: `keys[g]` is the key of group `g` and `members[g]`
/// the indices of its items.
#[derive(Debug, Clone)]
pub struct Grouping<K> {
    pub keys: Vec<K>,
    pub members: Vec<Vec<usize>>,
}

/// The index lists of a list of groups.
pub open spec fn member_views(members: Seq<Vec<usize>>) -> Seq<Seq<usize>> {
    members.map_values(|v: Vec<usize>| v@)
}

/// Whether groups with keys `gk` and members `gm` group the selected items
/// among the first `n` by key: the keys are distinct, every group is non-empty
/// and holds, in increasing order, selected items with its key; groups come in
/// the order of their first items; and every selected item is in a group.
pub open spec fn is_grouping<V>(keys: Seq<V>, selected: Seq<bool>, n: int, gk: Seq<V>, gm: Seq<Seq<usize>>) -> bool {
    &&& gk.len() == gm.len()
    &&& forall|a: int, b: int| 0 <= a < b < gk.len() ==> gk[a] != gk[b]
    &&& forall|g: int| 0 <= g < gm.len() ==> (#[trigger] gm[g]).len() > 0
    &&& forall|g: int, p: int|
        0 <= g < gm.len() && 0 <= p < gm[g].len() ==> {
            let i = #[trigger] gm[g][p] as int;
            &&& 0 <= i < n
            &&& selected[i]
            &&& keys[i] == gk[g]
        }
    &&& forall|g: int, p: int, q: int|
        0 <= g < gm.len() && 0 <= p < q < gm[g].len() ==> #[trigger] gm[g][p] < #[trigger] gm[g][q]
    &&& forall|a: int, b: int| 0 <= a < b < gm.len() ==> #[trigger] gm[a][0] < #[trigger] gm[b][0]
    &&& forall|i: int|
        0 <= i < n && #[trigger] selected[i] ==> exists|g: int, p: int|
            0 <= g < gm.len() && 0 <= p < gm[g].len() && #[trigger] gm[g][p] == i
}

/// Every selected item sits in exactly one place of one group: no item is
/// counted twice, whether in two groups or twice in one.
pub proof fn lemma_grouping_places_once<V>(
    keys: Seq<V>,
    selected: Seq<bool>,
    n: int,
    gk: Seq<V>,
    gm: Seq<Seq<usize>>,
    g1: int,
    p1: int,
    g2: int,
    p2: int,
)
    requires
        is_grouping(keys, selected, n, gk, gm),
        0 <= g1 < gm.len(),
        0 <= p1 < gm[g1].len(),
        0 <= g2 < gm.len(),
        0 <= p2 < gm[g2].len(),
        gm[g1][p1] == gm[g2][p2],
    ensures
        g1 == g2,
        p1 == p2,
{
    let i = gm[g1][p1] as int;
    assert(keys[i] == gk[g1]);
    assert(keys[gm[g2][p2] as int] == gk[g2]);
    if g1 < g2 {
        assert(gk[g1] != gk[g2]);
    } else if g2 < g1 {
        assert(gk[g2] != gk[g1]);
    }
    if p1 < p2 {
        assert(gm[g1][p1] < gm[g1][p2]);
    } else if p2 < p1 {
        assert(gm[g1][p2] < gm[g1][p1]);
    }
}

proof fn lemma_grouping_skip<V>(keys: Seq<V>, selected: Seq<bool>, n: int, gk: Seq<V>, gm: Seq<Seq<usize>>)
    requires
        0 <= n < keys.len(),
        n < usize::MAX,
        keys.len() == selected.len(),
        is_grouping(keys, selected, n, gk, gm),
        !selected[n],
    ensures
        is_grouping(keys, selected, n + 1, gk, gm),
{
}

proof fn lemma_grouping_join<V>(keys: Seq<V>, selected: Seq<bool>, n: int, gk: Seq<V>, gm: Seq<Seq<usize>>, g: int)
    requires
        0 <= n < keys.len(),
        n < usize::MAX,
        keys.len() == selected.len(),
        is_grouping(keys, selected, n, gk, gm),
        selected[n],
        0 <= g < gk.len(),
        gk[g] == keys[n],
    ensures
        is_grouping(keys, selected, n + 1, gk, gm.update(g, gm[g].push(n as usize))),
{
    let gm2 = gm.update(g, gm[g].push(n as usize));
    assert forall|h: int, p: int| 0 <= h < gm2.len() && 0 <= p < gm2[h].len() implies {
        let i = #[trigger] gm2[h][p] as int;
        &&& 0 <= i < n + 1
        &&& selected[i]
        &&& keys[i] == gk[h]
    } by {
        if h == g && p == gm[g].len() {
        } else {
            assert(gm2[h][p] == gm[h][p]);
        }
    }
    assert forall|h: int, p: int, q: int| 0 <= h < gm2.len() && 0 <= p < q < gm2[h].len() implies #[trigger] gm2[h][p] < #[trigger] gm2[h][q] by {
        if h == g && q == gm[g].len() {
            assert(gm2[h][p] == gm[h][p]);
        } else {
            assert(gm2[h][p] == gm[h][p]);
            assert(gm2[h][q] == gm[h][q]);
        }
    }
    assert forall|a: int, b: int| 0 <= a < b < gm2.len() implies #[trigger] gm2[a][0] < #[trigger] gm2[b][0] by {
        assert(gm2[a][0] == gm[a][0]);
        assert(gm2[b][0] == gm[b][0]);
    }
    assert forall|i: int| 0 <= i < n + 1 && #[trigger] selected[i] implies exists|h: int, p: int|
        0 <= h < gm2.len() && 0 <= p < gm2[h].len() && #[trigger] gm2[h][p] == i by {
        if i == n {
            assert(gm2[g][gm[g].len() as int] == i);
        } else {
            let (h, p) = choose|h: int, p: int| 0 <= h < gm.len() && 0 <= p < gm[h].len() && #[trigger] gm[h][p] == i;
            assert(gm2[h][p] == i);
        }
    }
}

proof fn lemma_grouping_new<V>(keys: Seq<V>, selected: Seq<bool>, n: int, gk: Seq<V>, gm: Seq<Seq<usize>>)
    requires
        0 <= n < keys.len(),
        n < usize::MAX,
        keys.len() == selected.len(),
        is_grouping(keys, selected, n, gk, gm),
        selected[n],
        forall|g: int| 0 <= g < gk.len() ==> gk[g] != keys[n],
    ensures
        is_grouping(keys, selected, n + 1, gk.push(keys[n]), gm.push(seq![n as usize])),
{
    let gk2 = gk.push(keys[n]);
    let gm2 = gm.push(seq![n as usize]);
    assert forall|h: int, p: int| 0 <= h < gm2.len() && 0 <= p < gm2[h].len() implies {
        let i = #[trigger] gm2[h][p] as int;
        &&& 0 <= i < n + 1
        &&& selected[i]
        &&& keys[i] == gk2[h]
    } by {
        if h < gm.len() {
            assert(gm2[h][p] == gm[h][p]);
        }
    }
    assert forall|h: int, p: int, q: int| 0 <= h < gm2.len() && 0 <= p < q < gm2[h].len() implies #[trigger] gm2[h][p] < #[trigger] gm2[h][q] by {
        assert(gm2[h][p] == gm[h][p]);
        assert(gm2[h][q] == gm[h][q]);
    }
    assert forall|a: int, b: int| 0 <= a < b < gm2.len() implies #[trigger] gm2[a][0] < #[trigger] gm2[b][0] by {
        assert(gm2[a][0] == gm[a][0]);
        if b < gm.len() {
            assert(gm2[b][0] == gm[b][0]);
        } else {
            assert(gm[a].len() > 0);
            assert(gm[a][0] < n);
        }
    }
    assert forall|i: int| 0 <= i < n + 1 && #[trigger] selected[i] implies exists|h: int, p: int|
        0 <= h < gm2.len() && 0 <= p < gm2[h].len() && #[trigger] gm2[h][p] == i by {
        if i == n {
            assert(gm2[gm.len() as int][0] == i);
        } else {
            let (h, p) = choose|h: int, p: int| 0 <= h < gm.len() && 0 <= p < gm[h].len() && #[trigger] gm[h][p] == i;
            assert(gm2[h][p] == i);
        }
    }
}

/// Adds index `i` to group `g`.
fn join_group(members: &mut Vec<Vec<usize>>, g: usize, i: usize)
    requires
        g < old(members)@.len(),
    ensures
        member_views(final(members)@) == member_views(old(members)@).update(g as int, old(members)@[g as int]@.push(i)),
{
    let mut list: Vec<usize> = Vec::new();
    members.set_and_swap(g, &mut list);
    list.push(i);
    members.set(g, list);
    assert(member_views(members@) =~= member_views(old(members)@).update(g as int, old(members)@[g as int]@.push(i)));
}

fn new_group(members: &mut Vec<Vec<usize>>, i: usize)
    ensures
        member_views(final(members)@) == member_views(old(members)@).push(seq![i]),
{
    let mut list: Vec<usize> = Vec::new();
    list.push(i);
    members.push(list);
    assert(member_views(members@) =~= member_views(old(members)@).push(seq![i]));
}

/// Groups the selected items by their text keys, in the order each key first
/// appears; within a group the items keep their order.
pub fn group_by_text(keys: &Vec<String>, selected: &Vec<bool>) -> (r: Grouping<String>)
    requires
        keys@.len() == selected@.len(),
    ensures
        is_grouping(key_views(keys@), selected@, keys@.len() as int, key_views(r.keys@), member_views(r.members@)),
{
    let ghost kv = key_views(keys@);
    let mut gk: Vec<String> = Vec::new();
    let mut gm: Vec<Vec<usize>> = Vec::new();
    let mut i: usize = 0;
    assert(key_views(gk@) =~= Seq::<Seq<char>>::empty());
    assert(member_views(gm@) =~= Seq::<Seq<usize>>::empty());
    while i < keys.len()
        invariant
            kv == key_views(keys@),
            keys@.len() == selected@.len(),
            i <= keys@.len(),
            is_grouping(kv, selected@, i as int, key_views(gk@), member_views(gm@)),
        decreases keys.len() - i,
    {
        if selected[i] {
            let mut g: usize = 0;
            let mut found = false;
            while g < gk.len()
                invariant
                    i < keys@.len(),
                    g <= gk@.len(),
                    !found ==> forall|h: int| 0 <= h < g ==> gk@[h]@ != keys@[i as int]@,
                    found ==> g < gk@.len() && gk@[g as int]@ == keys@[i as int]@,
                ensures
                    found ==> g < gk@.len() && gk@[g as int]@ == keys@[i as int]@,
                    !found ==> forall|h: int| 0 <= h < gk@.len() ==> gk@[h]@ != keys@[i as int]@,
                decreases gk.len() - g + (if found { 0int } else { 1int }),
            {
                if str_eq(gk[g].as_str(), keys[i].as_str()) {
                    found = true;
                    break;
                }
                g = g + 1;
            }
            if found {
                proof {
                    lemma_grouping_join(kv, selected@, i as int, key_views(gk@), member_views(gm@), g as int);
                }
                join_group(&mut gm, g, i);
            } else {
                proof {
                    assert forall|h: int| 0 <= h < key_views(gk@).len() implies key_views(gk@)[h] != kv[i as int] by {
                        assert(gk@[h]@ != keys@[i as int]@);
                    }
                    lemma_grouping_new(kv, selected@, i as int, key_views(gk@), member_views(gm@));
                }
                let ghost old_gk = gk@;
                gk.push(keys[i].clone());
                assert(key_views(gk@) =~= key_views(old_gk).push(kv[i as int]));
                new_group(&mut gm, i);
            }
        } else {
            proof {
                lemma_grouping_skip(kv, selected@, i as int, key_views(gk@), member_views(gm@));
            }
        }
        i = i + 1;
    }
    Grouping { keys: gk, members: gm }
}

/// Every item selected.
pub open spec fn all_selected(n: nat) -> Seq<bool> {
    Seq::new(n, |_i: int| true)
}

/// Groups items by their project sizes, in the order each size first appears;
/// within a group the items keep their order.
pub fn group_by_size(sizes: &Vec<i32>) -> (r: Grouping<i32>)
    ensures
        is_grouping(sizes@, all_selected(sizes@.len()), sizes@.len() as int, r.keys@, member_views(r.members@)),
{
    let ghost sel = all_selected(sizes@.len());
    let mut gk: Vec<i32> = Vec::new();
    let mut gm: Vec<Vec<usize>> = Vec::new();
    let mut i: usize = 0;
    assert(member_views(gm@) =~= Seq::<Seq<usize>>::empty());
    while i < sizes.len()
        invariant
            sel == all_selected(sizes@.len()),
            i <= sizes@.len(),
            is_grouping(sizes@, sel, i as int, gk@, member_views(gm@)),
        decreases sizes.len() - i,
    {
        let mut g: usize = 0;
        let mut found = false;
        while g < gk.len()
            invariant
                i < sizes@.len(),
                g <= gk@.len(),
                !found ==> forall|h: int| 0 <= h < g ==> gk@[h] != sizes@[i as int],
                found ==> g < gk@.len() && gk@[g as int] == sizes@[i as int],
            ensures
                found ==> g < gk@.len() && gk@[g as int] == sizes@[i as int],
                !found ==> forall|h: int| 0 <= h < gk@.len() ==> gk@[h] != sizes@[i as int],
            decreases gk.len() - g + (if found { 0int } else { 1int }),
        {
            if gk[g] == sizes[i] {
                found = true;
                break;
            }
            g = g + 1;
        }
        if found {
            proof {
                lemma_grouping_join(sizes@, sel, i as int, gk@, member_views(gm@), g as int);
            }
            join_group(&mut gm, g, i);
        } else {
            proof {
                lemma_grouping_new(sizes@, sel, i as int, gk@, member_views(gm@));
            }
            gk.push(sizes[i]);
            new_group(&mut gm, i);
        }
        i = i + 1;
    }
    Grouping { keys: gk, members: gm }
}

/// Whether `order` lists the indices of `stamps` newest first: a permutation of
/// the indices in non-increasing order of their stamps, with items of equal
/// stamps kept in their original order.
pub open spec fn is_newest_first(stamps: Seq<i64>, order: Seq<usize>) -> bool {
    &&& order.len() == stamps.len()
    &&& forall|p: int| 0 <= p < order.len() ==> (#[trigger] order[p] as int) < stamps.len()
    &&& forall|p: int, q: int| 0 <= p < q < order.len() ==> #[trigger] order[p] != #[trigger] order[q]
    &&& forall|p: int, q: int| 0 <= p < q < order.len() ==> stamps[#[trigger] order[p] as int] >= stamps[#[trigger] order[q] as int]
    &&& forall|p: int, q: int|
        0 <= p < q < order.len() && stamps[order[p] as int] == stamps[order[q] as int] ==> #[trigger] order[p] < #[trigger] order[q]
}

/// The order of a prefix: the first `n` indices sorted newest first.
spec fn is_newest_first_prefix(stamps: Seq<i64>, n: int, order: Seq<usize>) -> bool {
    &&& order.len() == n
    &&& forall|p: int| 0 <= p < order.len() ==> (#[trigger] order[p] as int) < n
    &&& forall|p: int, q: int| 0 <= p < q < order.len() ==> #[trigger] order[p] != #[trigger] order[q]
    &&& forall|p: int, q: int| 0 <= p < q < order.len() ==> stamps[#[trigger] order[p] as int] >= stamps[#[trigger] order[q] as int]
    &&& forall|p: int, q: int|
        0 <= p < q < order.len() && stamps[order[p] as int] == stamps[order[q] as int] ==> #[trigger] order[p] < #[trigger] order[q]
}

/// The indices of items with timestamps `stamps`, newest first; items with equal
/// timestamps keep their original order.
pub fn sort_newest_first(stamps: &Vec<i64>) -> (order: Vec<usize>)
    ensures
        is_newest_first(stamps@, order@),
{
    let mut order: Vec<usize> = Vec::new();
    let mut i: usize = 0;
    while i < stamps.len()
        invariant
            i <= stamps@.len(),
            is_newest_first_prefix(stamps@, i as int, order@),
        decreases stamps.len() - i,
    {
        let mut pos: usize = 0;
        while pos < order.len() && stamps[order[pos]] >= stamps[i]
            invariant
                i < stamps@.len(),
                is_newest_first_prefix(stamps@, i as int, order@),
                pos <= order@.len(),
                forall|p: int| 0 <= p < pos ==> stamps@[#[trigger] order@[p] as int] >= stamps@[i as int],
            decreases order.len() - pos,
        {
            pos = pos + 1;
        }
        let ghost old_order = order@;
        order.insert(pos, i);
        proof {
            let o = old_order;
            let o2 = order@;
            let k = pos as int;
            assert(o2.len() == o.len() + 1);
            assert forall|q: int| 0 <= q < o2.len() implies #[trigger] o2[q] == (if q < k { o[q] } else if q == k { i } else { o[q - 1] }) by {
            }
            if k < o.len() {
                assert(stamps@[o[k] as int] < stamps@[i as int]);
            }
            assert forall|q: int| k <= q < o.len() implies stamps@[#[trigger] o[q] as int] < stamps@[i as int] by {
                if q > k {
                    assert(stamps@[o[k] as int] >= stamps@[o[q] as int]);
                }
            }
            assert forall|p: int| 0 <= p < o2.len() implies (#[trigger] o2[p] as int) < i + 1 by {
                if p < k {
                } else if p > k {
                    assert(o2[p] == o[p - 1]);
                }
            }
            assert forall|p: int, q: int| 0 <= p < q < o2.len() implies #[trigger] o2[p] != #[trigger] o2[q] by {
                if p < k && q > k {
                    assert(o2[q] == o[q - 1]);
                } else if p > k {
                    assert(o2[p] == o[p - 1]);
                    assert(o2[q] == o[q - 1]);
                } else if q == k {
                    assert(o[p] < i);
                } else if p == k {
                    assert(o2[q] == o[q - 1]);
                    assert(o[q - 1] < i);
                }
            }
            assert forall|p: int, q: int| 0 <= p < q < o2.len() implies stamps@[#[trigger] o2[p] as int] >= stamps@[#[trigger] o2[q] as int] by {
                if p < k && q > k {
                    assert(o2[q] == o[q - 1]);
                    assert(stamps@[o[q - 1] as int] < stamps@[i as int]);
                } else if p > k {
                    assert(o2[p] == o[p - 1]);
                    assert(o2[q] == o[q - 1]);
                } else if q == k {
                } else if p == k {
                    assert(o2[q] == o[q - 1]);
                    assert(stamps@[o[q - 1] as int] < stamps@[i as int]);
                }
            }
            assert forall|p: int, q: int| 0 <= p < q < o2.len() && stamps@[o2[p] as int] == stamps@[o2[q] as int] implies #[trigger] o2[p] < #[trigger] o2[q] by {
                if p < k && q > k {
                    assert(o2[q] == o[q - 1]);
                    assert(stamps@[o[q - 1] as int] < stamps@[i as int]);
                    assert(stamps@[o[p] as int] >= stamps@[i as int]);
                } else if p > k {
                    assert(o2[p] == o[p - 1]);
                    assert(o2[q] == o[q - 1]);
                } else if q == k {
                    assert(o[p] < i);
                } else if p == k {
                    assert(o2[q] == o[q - 1]);
                    assert(stamps@[o[q - 1] as int] < stamps@[i as int]);
                }
            }
        }
        i = i + 1;
    }
    order
}

/// The number of `true` entries.
pub open spec fn count_true(s: Seq<bool>) -> nat
    decreases s.len(),
{
    if s.len() == 0 {
        0
    } else {
        count_true(s.drop_last()) + if s.last() { 1nat } else { 0nat }
    }
}

/// Whether each of the first `n` reviews (newest first) counts as recent: it
/// has a substitutability score, is less than a year (365 days) old, and fewer
/// than five newer reviews counted as recent.
pub open spec fn recent_flags(days_old: Seq<i64>, has_score: Seq<bool>, n: int) -> Seq<bool>
    decreases n,
{
    if n <= 0 {
        Seq::empty()
    } else {
        let prev = recent_flags(days_old, has_score, n - 1);
        prev.push(has_score[n - 1] && days_old[n - 1] < 365 && count_true(prev) < 5)
    }
}

proof fn lemma_recent_flags_len(days_old: Seq<i64>, has_score: Seq<bool>, n: int)
    requires
        0 <= n,
    ensures
        recent_flags(days_old, has_score, n).len() == n,
        count_true(recent_flags(days_old, has_score, n)) <= 5,
    decreases n,
{
    if n > 0 {
        lemma_recent_flags_len(days_old, has_score, n - 1);
        let prev = recent_flags(days_old, has_score, n - 1);
        assert(recent_flags(days_old, has_score, n).drop_last() =~= prev);
    }
}

/// Which of an employee's reviews, listed newest first with their ages in days
/// and whether they carry a substitutability score, count as recent in the
/// replaceability score; at most five do.
pub fn recent_review_flags(days_old: &Vec<i64>, has_score: &Vec<bool>) -> (r: Vec<bool>)
    requires
        days_old@.len() == has_score@.len(),
    ensures
        r@ == recent_flags(days_old@, has_score@, days_old@.len() as int),
        count_true(r@) <= 5,
{
    let mut r: Vec<bool> = Vec::new();
    let mut count: usize = 0;
    let mut i: usize = 0;
    while i < days_old.len()
        invariant
            days_old@.len() == has_score@.len(),
            i <= days_old@.len(),
            r@ == recent_flags(days_old@, has_score@, i as int),
            count == count_true(r@),
            count <= 5,
        decreases days_old.len() - i,
    {
        proof {
            lemma_recent_flags_len(days_old@, has_score@, i as int);
        }
        let recent = has_score[i] && days_old[i] < 365 && count < 5;
        let ghost prev = r@;
        r.push(recent);
        assert(r@.drop_last() =~= prev);
        if recent {
            count = count + 1;
        }
        i = i + 1;
    }
    proof {
        lemma_recent_flags_len(days_old@, has_score@, i as int);
    }
    r
}

/// Whether a user's performance summary has anything to show: it takes at
/// least one row of the user's data; without any, the answer is "no content".
pub fn has_performance_data(row_count: usize) -> (b: bool)
    ensures
        b == (row_count > 0),
{
    row_count > 0
}

} // verus!
