use std::cmp::Ordering;
use vstd::prelude::*;
use crate::modes::SortMode;

verus! {

/// The result of `natord::compare_ignore_case` on `a` and `b`: -1, 0 or 1
/// for less, equal and greater.
pub uninterp spec fn natural_order(a: Seq<char>, b: Seq<char>) -> i8;

/// Relies on `natord::compare_ignore_case`: natural, case-insensitive order
/// of two names; the result depends on the names alone.
#[verifier::external_body]
fn natural_cmp(a: &str, b: &str) -> (r: i8)
    ensures
        r == natural_order(a@, b@),
{
    match natord::compare_ignore_case(a, b) {
        Ordering::Less => -1,
        Ordering::Equal => 0,
        Ordering::Greater => 1,
    }
}

/// What the listing knows of an entry to sort it: its name, its size in
/// bytes, and its modification time in nanoseconds from the Unix epoch
/// (`None` when unknown).
pub struct EntryInfo {
    pub name: String,
    pub size: u64,
    pub modified: Option<i128>,
}

/// Whether entry `a` belongs after entry `b` in sort mode `mode`. An unknown
/// modification time comes before every known one.
pub open spec fn goes_after(mode: SortMode, a: EntryInfo, b: EntryInfo) -> bool {
    match mode {
        SortMode::Name => natural_order(a.name@, b.name@) == 1,
        SortMode::Size => a.size > b.size,
        SortMode::Modified => match (a.modified, b.modified) {
            (Some(x), Some(y)) => x > y,
            (Some(_), None) => true,
            _ => false,
        },
    }
}

fn goes_after_exec(mode: SortMode, a: &EntryInfo, b: &EntryInfo) -> (r: bool)
    ensures
        r == goes_after(mode, *a, *b),
{
    match mode {
        SortMode::Name => natural_cmp(a.name.as_str(), b.name.as_str()) == 1,
        SortMode::Size => a.size > b.size,
        SortMode::Modified => match (a.modified, b.modified) {
            (Some(x), Some(y)) => x > y,
            (Some(_), None) => true,
            _ => false,
        },
    }
}

/// Where entry `x` is inserted among the first `k` of `order`: after the
/// last entry that does not belong after it.
pub open spec fn insert_position(
    order: Seq<usize>,
    x: usize,
    items: Seq<EntryInfo>,
    mode: SortMode,
    k: int,
) -> int
    decreases k,
{
    if k > 0 && goes_after(mode, items[order[k - 1] as int], items[x as int]) {
        insert_position(order, x, items, mode, k - 1)
    } else {
        k
    }
}

/// The order of the first `n` of `items` by stable insertion: each entry in
/// turn goes after the last placed entry that does not belong after it. For
/// sizes and times this is the stable sort in ascending order.
pub open spec fn sorted_order(items: Seq<EntryInfo>, mode: SortMode, n: nat) -> Seq<usize>
    decreases n,
{
    if n == 0 {
        Seq::empty()
    } else {
        let o = sorted_order(items, mode, (n - 1) as nat);
        o.insert(insert_position(o, (n - 1) as usize, items, mode, o.len() as int), (n - 1) as usize)
    }
}

proof fn lemma_insert_position(order: Seq<usize>, x: usize, items: Seq<EntryInfo>, mode: SortMode, k: int)
    requires
        0 <= k,
    ensures
        ({
            let p = insert_position(order, x, items, mode, k);
            &&& 0 <= p <= k
            &&& p > 0 ==> !goes_after(mode, items[order[p - 1] as int], items[x as int])
            &&& forall|q: int|
                p <= q < k ==> goes_after(mode, #[trigger] items[order[q] as int], items[x as int])
        }),
    decreases k,
{
    if k > 0 {
        lemma_insert_position(order, x, items, mode, k - 1);
    }
}

/// Sorting by size puts sizes in ascending order.
pub proof fn lemma_size_order_ascending(items: Seq<EntryInfo>, n: nat)
    ensures
        ({
            let o = sorted_order(items, SortMode::Size, n);
            &&& o.len() == n
            &&& forall|j: int|
                0 <= j < o.len() - 1 ==> #[trigger] items[o[j] as int].size <= items[o[j + 1] as int].size
        }),
    decreases n,
{
    if n > 0 {
        let o = sorted_order(items, SortMode::Size, (n - 1) as nat);
        lemma_size_order_ascending(items, (n - 1) as nat);
        let x = (n - 1) as usize;
        let p = insert_position(o, x, items, SortMode::Size, o.len() as int);
        lemma_insert_position(o, x, items, SortMode::Size, o.len() as int);
        let r = o.insert(p, x);
        o.insert_ensures(p, x);
        assert forall|j: int| 0 <= j < r.len() - 1 implies #[trigger] items[r[j] as int].size
            <= items[r[j + 1] as int].size by {
            if j + 1 < p {
                assert(r[j] == o[j] && r[j + 1] == o[j + 1]);
            } else if j + 1 == p {
                assert(r[j] == o[j] && r[j + 1] == x);
            } else if j == p {
                assert(r[j] == x && r[j + 1] == o[j]);
                assert(goes_after(SortMode::Size, items[o[j] as int], items[x as int]));
            } else {
                assert(r[j] == o[j - 1] && r[j + 1] == o[j]);
                assert(items[o[j - 1] as int].size <= items[o[(j - 1) + 1] as int].size);
            }
        }
    }
}

/// The order in which a listing shows `items` in sort mode `mode`: entry
/// `r[j]` goes to place `j`.
pub fn sort_order(items: &Vec<EntryInfo>, mode: SortMode) -> (r: Vec<usize>)
    ensures
        r@ == sorted_order(items@, mode, items@.len()),
{
    let n = items.len();
    let mut order: Vec<usize> = Vec::new();
    let mut x: usize = 0;
    while x < n
        invariant
            n == items@.len(),
            x <= n,
            order@ == sorted_order(items@, mode, x as nat),
            order@.len() == x,
            forall|k: int| 0 <= k < order@.len() ==> order@[k] < x,
        decreases n - x,
    {
        let mut k = order.len();
        while k > 0 && goes_after_exec(mode, &items[order[k - 1]], &items[x])
            invariant
                n == items@.len(),
                x < n,
                k <= order@.len(),
                forall|j: int| 0 <= j < order@.len() ==> order@[j] < x,
                insert_position(order@, x, items@, mode, order@.len() as int) == insert_position(
                    order@,
                    x,
                    items@,
                    mode,
                    k as int,
                ),
            decreases k,
        {
            k = k - 1;
        }
        let ghost before = order@;
        order.insert(k, x);
        proof {
            before.insert_ensures(k as int, x);
            assert forall|j: int| 0 <= j < order@.len() implies order@[j] < x + 1 by {
                if j < k {
                    assert(order@[j] == before[j]);
                } else if j > k {
                    assert(order@[j] == before[j - 1]);
                }
            }
        }
        x = x + 1;
    }
    order
}

} // verus!
