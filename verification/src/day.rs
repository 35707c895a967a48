//! The ranges of one weekday: the list itself, the clash test against it,
//! and the order in which it is shown.

use vstd::prelude::*;
use crate::timing::{
    clash_free, day_valid, default_timing, overlaps, time_number, timing_valid, Timing, TimingView,
};

verus! {

/// An index that may be absent, as a mathematical integer.
pub open spec fn as_index(index: Option<usize>) -> Option<int> {
    match index {
        Some(i) => Some(i as int),
        None => None,
    }
}

/// `exclude` names the index `i`.
pub open spec fn excluded(exclude: Option<int>, i: int) -> bool {
    exclude matches Some(e) && e == i
}

/// The candidate clashes with no range of the day, the range at `exclude`
/// left aside.
pub open spec fn no_clash_spec(c: TimingView, day: Seq<TimingView>, exclude: Option<int>) -> bool {
    forall|i: int| 0 <= i < day.len() && !excluded(exclude, i) ==> !overlaps(c, #[trigger] day[i])
}

/// The numbers by which the ranges of a day are ordered for display: the
/// start of each.
pub open spec fn start_keys(day: Seq<TimingView>) -> Seq<int> {
    Seq::new(day.len(), |i: int| time_number(day[i].start))
}

/// `order` holds indices below `n` only, each at most once.
pub open spec fn distinct_below(order: Seq<int>, n: int) -> bool {
    &&& forall|a: int| 0 <= a < order.len() ==> 0 <= #[trigger] order[a] < n
    &&& forall|a: int, b: int| 0 <= a < b < order.len() ==> #[trigger] order[a] != #[trigger] order[b]
}

/// Along `order` the keys do not fall, and equal keys keep their index order.
pub open spec fn ordered_by_key(order: Seq<int>, keys: Seq<int>) -> bool {
    forall|a: int, b: int|
        0 <= a < b < order.len() ==> {
            ||| keys[#[trigger] order[a]] < keys[#[trigger] order[b]]
            ||| (keys[order[a]] == keys[order[b]] && order[a] < order[b])
        }
}

/// `order` is the order in which the entries with the keys `keys` are
/// shown: it holds every index of `keys` exactly once, by rising key, equal
/// keys in index order.
pub open spec fn is_display_order(order: Seq<int>, keys: Seq<int>) -> bool {
    &&& order.len() == keys.len()
    &&& distinct_below(order, keys.len() as int)
    &&& ordered_by_key(order, keys)
    &&& forall|x: int| 0 <= x < keys.len() ==> #[trigger] order.contains(x)
}

/// The indices of the day's ranges in the order of display: by start,
/// ranges with equal starts in the order in which they are stored.
pub open spec fn display_order_spec(day: Seq<TimingView>) -> Seq<int> {
    choose|order: Seq<int>| is_display_order(order, start_keys(day))
}

/// `order` with the index `i` put in behind every index whose key is not
/// greater than that of `i`.
spec fn insert_by_key(order: Seq<int>, keys: Seq<int>, i: int) -> Seq<int>
    decreases order.len(),
{
    if order.len() == 0 {
        seq![i]
    } else if keys[order.last()] <= keys[i] {
        order.push(i)
    } else {
        insert_by_key(order.drop_last(), keys, i).push(order.last())
    }
}

/// The first `n` indices, ordered by key, equal keys in index order.
spec fn order_by_key(keys: Seq<int>, n: int) -> Seq<int>
    decreases n,
{
    if n <= 0 {
        Seq::empty()
    } else {
        insert_by_key(order_by_key(keys, n - 1), keys, n - 1)
    }
}

proof fn lemma_insert_by_key(order: Seq<int>, keys: Seq<int>, i: int)
    requires
        0 <= i < keys.len(),
        distinct_below(order, i),
        ordered_by_key(order, keys),
    ensures
        insert_by_key(order, keys, i).len() == order.len() + 1,
        distinct_below(insert_by_key(order, keys, i), i + 1),
        ordered_by_key(insert_by_key(order, keys, i), keys),
        insert_by_key(order, keys, i).contains(i),
        forall|x: int| #[trigger] order.contains(x) ==> insert_by_key(order, keys, i).contains(x),
        forall|x: int| #[trigger]
            insert_by_key(order, keys, i).contains(x) ==> x == i || order.contains(x),
    decreases order.len(),
{
    let r = insert_by_key(order, keys, i);
    if order.len() == 0 {
        assert(r[0] == i);
    } else if keys[order.last()] <= keys[i] {
        assert(r[order.len() as int] == i);
        assert forall|x: int| order.contains(x) implies r.contains(x) by {
            let k = choose|k: int| 0 <= k < order.len() && order[k] == x;
            assert(r[k] == x);
        }
        assert forall|a: int, b: int| 0 <= a < b < r.len() implies {
            ||| keys[#[trigger] r[a]] < keys[#[trigger] r[b]]
            ||| (keys[r[a]] == keys[r[b]] && r[a] < r[b])
        } by {
            if b == order.len() {
                if a < order.len() - 1 {
                    assert(order[a] == r[a]);
                    assert(order[order.len() - 1] == order.last());
                }
            }
        }
    } else {
        let front = order.drop_last();
        let last = order.last();
        assert forall|a: int, b: int| 0 <= a < b < front.len() implies {
            ||| keys[#[trigger] front[a]] < keys[#[trigger] front[b]]
            ||| (keys[front[a]] == keys[front[b]] && front[a] < front[b])
        } by {
            assert(front[a] == order[a] && front[b] == order[b]);
        }
        assert(distinct_below(front, i)) by {
            assert forall|a: int| 0 <= a < front.len() implies 0 <= #[trigger] front[a] < i by {
                assert(front[a] == order[a]);
            }
            assert forall|a: int, b: int| 0 <= a < b < front.len() implies #[trigger] front[a]
                != #[trigger] front[b] by {
                assert(front[a] == order[a] && front[b] == order[b]);
            }
        }
        lemma_insert_by_key(front, keys, i);
        let mid = insert_by_key(front, keys, i);
        assert(r == mid.push(last));
        assert(r[mid.len() as int] == last);
        assert(!front.contains(last)) by {
            if front.contains(last) {
                let k = choose|k: int| 0 <= k < front.len() && front[k] == last;
                assert(order[k] == last && order[order.len() - 1] == last);
            }
        }
        assert forall|x: int| mid.contains(x) implies keys[x] < keys[last] || (keys[x] == keys[last]
            && x < last) by {
            if x != i {
                assert(front.contains(x));
                let k = choose|k: int| 0 <= k < front.len() && front[k] == x;
                assert(order[k] == x && order[order.len() - 1] == last);
            }
        }
        assert forall|a: int| 0 <= a < r.len() implies 0 <= #[trigger] r[a] < i + 1 by {
            if a < mid.len() {
                assert(r[a] == mid[a]);
            } else {
                assert(order[order.len() - 1] == last);
            }
        }
        assert forall|a: int, b: int| 0 <= a < b < r.len() implies #[trigger] r[a] != #[trigger] r[b] by {
            if b == mid.len() {
                assert(r[a] == mid[a]);
                assert(mid.contains(mid[a]));
            } else {
                assert(r[a] == mid[a] && r[b] == mid[b]);
            }
        }
        assert forall|a: int, b: int| 0 <= a < b < r.len() implies {
            ||| keys[#[trigger] r[a]] < keys[#[trigger] r[b]]
            ||| (keys[r[a]] == keys[r[b]] && r[a] < r[b])
        } by {
            if b == mid.len() {
                assert(r[a] == mid[a]);
                assert(mid.contains(mid[a]));
            } else {
                assert(r[a] == mid[a] && r[b] == mid[b]);
            }
        }
        assert(r.contains(i)) by {
            let k = choose|k: int| 0 <= k < mid.len() && mid[k] == i;
            assert(r[k] == i);
        }
        assert forall|x: int| order.contains(x) implies r.contains(x) by {
            let k = choose|k: int| 0 <= k < order.len() && order[k] == x;
            if k == order.len() - 1 {
                assert(r[mid.len() as int] == x);
            } else {
                assert(front[k] == x);
                assert(front.contains(x));
                let m = choose|m: int| 0 <= m < mid.len() && mid[m] == x;
                assert(r[m] == x);
            }
        }
        assert forall|x: int| r.contains(x) implies x == i || order.contains(x) by {
            let k = choose|k: int| 0 <= k < r.len() && r[k] == x;
            if k == mid.len() {
                assert(order[order.len() - 1] == x);
            } else {
                assert(mid[k] == x);
                assert(mid.contains(x));
                if x != i {
                    let m = choose|m: int| 0 <= m < front.len() && front[m] == x;
                    assert(order[m] == x);
                }
            }
        }
    }
}

proof fn lemma_order_by_key(keys: Seq<int>, n: int)
    requires
        0 <= n <= keys.len(),
    ensures
        order_by_key(keys, n).len() == n,
        distinct_below(order_by_key(keys, n), n),
        ordered_by_key(order_by_key(keys, n), keys),
        forall|x: int| 0 <= x < n ==> #[trigger] order_by_key(keys, n).contains(x),
    decreases n,
{
    if n > 0 {
        let before = order_by_key(keys, n - 1);
        lemma_order_by_key(keys, n - 1);
        lemma_insert_by_key(before, keys, n - 1);
        assert forall|x: int| 0 <= x < n implies #[trigger] order_by_key(keys, n).contains(x) by {
            if x < n - 1 {
                assert(before.contains(x));
            }
        }
    }
}

/// Two orders of display of the same keys agree up to every position.
proof fn lemma_display_orders_agree(first: Seq<int>, second: Seq<int>, keys: Seq<int>, p: int)
    requires
        is_display_order(first, keys),
        is_display_order(second, keys),
        0 <= p <= keys.len(),
    ensures
        forall|q: int| 0 <= q < p ==> first[q] == second[q],
    decreases p,
{
    if p > 0 {
        lemma_display_orders_agree(first, second, keys, p - 1);
        let x = first[p - 1];
        let y = second[p - 1];
        if x != y {
            // each of the two stands somewhere in the other order, and not
            // before this position, where the orders agree
            assert(second.contains(x));
            let qx = choose|q: int| 0 <= q < second.len() && second[q] == x;
            assert(first.contains(y));
            let qy = choose|q: int| 0 <= q < first.len() && first[q] == y;
            if qx < p - 1 {
                assert(first[qx] == second[qx]);
            }
            if qy < p - 1 {
                assert(first[qy] == second[qy]);
            }
            // so each stands behind the other: they cannot both come first
            assert(qx > p - 1 && qy > p - 1);
            assert(keys[y] < keys[x] || (keys[y] == keys[x] && y < x));
            assert(keys[x] < keys[y] || (keys[x] == keys[y] && x < y));
        }
    }
}

/// There is one order of display and no other: every sequence that holds
/// each index of the day once, by rising start, equal starts in the order
/// in which they are stored, is the order of display.
pub proof fn lemma_display_order(day: Seq<TimingView>)
    ensures
        is_display_order(display_order_spec(day), start_keys(day)),
        forall|order: Seq<int>|
            is_display_order(order, start_keys(day)) ==> order == display_order_spec(day),
{
    let keys = start_keys(day);
    lemma_order_by_key(keys, keys.len() as int);
    assert(is_display_order(order_by_key(keys, keys.len() as int), keys));
    assert forall|order: Seq<int>| is_display_order(order, keys) implies order
        == display_order_spec(day) by {
        lemma_display_orders_agree(order, display_order_spec(day), keys, keys.len() as int);
        assert(order =~= display_order_spec(day));
    }
}

proof fn lemma_insert_position(order: Seq<int>, keys: Seq<int>, i: int, pos: int)
    requires
        0 <= pos <= order.len(),
        forall|k: int| pos <= k < order.len() ==> keys[#[trigger] order[k]] > keys[i],
        pos > 0 ==> keys[order[pos - 1]] <= keys[i],
    ensures
        insert_by_key(order, keys, i) == order.insert(pos, i),
    decreases order.len(),
{
    if order.len() == 0 {
        assert(order.insert(pos, i) =~= seq![i]);
    } else if pos == order.len() {
        assert(order.insert(pos, i) =~= order.push(i));
    } else {
        assert(keys[order[order.len() - 1]] > keys[i]);
        let front = order.drop_last();
        assert forall|k: int| pos <= k < front.len() implies keys[#[trigger] front[k]] > keys[i] by {
            assert(front[k] == order[k]);
        }
        lemma_insert_position(front, keys, i, pos);
        assert(order.insert(pos, i) =~= front.insert(pos, i).push(order.last()));
    }
}

/// The indices of `s` as mathematical integers.
pub open spec fn as_ints(s: Seq<usize>) -> Seq<int> {
    Seq::new(s.len(), |i: int| s[i] as int)
}

/// The ranges configured for one weekday, in the order in which they were
/// entered.
#[derive(Debug, PartialEq, Eq)]
pub struct TimingCollection {
    pub timing_collection: Vec<Timing>,
}

impl View for TimingCollection {
    type V = Seq<TimingView>;

    open spec fn view(&self) -> Seq<TimingView> {
        Seq::new(self.timing_collection@.len(), |i: int| self.timing_collection@[i]@)
    }
}

impl Clone for TimingCollection {
    fn clone(&self) -> (c: Self)
        ensures
            c@ == self@,
    {
        let mut timing_collection: Vec<Timing> = Vec::new();
        let mut i: usize = 0;
        while i < self.timing_collection.len()
            invariant
                i <= self.timing_collection.len(),
                timing_collection@.len() == i,
                forall|k: int| 0 <= k < i ==> (#[trigger] timing_collection@[k])@ == self@[k],
            decreases self.timing_collection.len() - i,
        {
            timing_collection.push(self.timing_collection[i].clone());
            i += 1;
        }
        TimingCollection { timing_collection }
    }
}

impl TimingCollection {
    /// A day without ranges.
    pub fn new() -> (c: TimingCollection)
        ensures
            c@ == Seq::<TimingView>::empty(),
    {
        TimingCollection { timing_collection: Vec::new() }
    }

    /// The day that the editor is seeded with: the one range 09:00:00 to
    /// 17:00:00.
    pub fn default() -> (c: TimingCollection)
        ensures
            c@ == seq![default_timing()],
            day_valid(c@),
            clash_free(c@),
    {
        let mut timing_collection: Vec<Timing> = Vec::new();
        timing_collection.push(Timing::default());
        TimingCollection { timing_collection }
    }

    /// The day that holds the given pairs of start and end, in their order.
    pub fn from_common_schedule(schedule: &Vec<(String, String)>) -> (c: TimingCollection)
        ensures
            c@.len() == schedule@.len(),
            forall|k: int|
                0 <= k < schedule@.len() ==> (#[trigger] c@[k]) == (TimingView {
                    start: schedule@[k].0@,
                    end: schedule@[k].1@,
                }),
    {
        let mut timing_collection: Vec<Timing> = Vec::new();
        let mut i: usize = 0;
        while i < schedule.len()
            invariant
                i <= schedule.len(),
                timing_collection@.len() == i,
                forall|k: int|
                    0 <= k < i ==> (#[trigger] timing_collection@[k])@ == (TimingView {
                        start: schedule@[k].0@,
                        end: schedule@[k].1@,
                    }),
            decreases schedule.len() - i,
        {
            let pair = &schedule[i];
            timing_collection.push(Timing::new(pair.0.as_str(), pair.1.as_str()));
            i += 1;
        }
        TimingCollection { timing_collection }
    }

    /// The number of ranges of the day.
    pub fn len(&self) -> (n: usize)
        ensures
            n == self@.len(),
    {
        self.timing_collection.len()
    }

    /// Whether the day has no range.
    pub fn is_empty(&self) -> (b: bool)
        ensures
            b == (self@.len() == 0),
    {
        self.timing_collection.len() == 0
    }

    /// The range at `index`.
    pub fn get(&self, index: usize) -> (t: &Timing)
        requires
            index < self@.len(),
        ensures
            t@ == self@[index as int],
    {
        &self.timing_collection[index]
    }

    /// Appends a range.
    pub fn push(&mut self, timing: Timing)
        ensures
            final(self)@ == old(self)@.push(timing@),
    {
        self.timing_collection.push(timing);
    }

    /// Puts `timing` in the place of the range at `index`.
    pub fn replace(&mut self, index: usize, timing: Timing)
        requires
            index < old(self)@.len(),
        ensures
            final(self)@ == old(self)@.update(index as int, timing@),
    {
        self.timing_collection.set(index, timing);
    }

    /// Takes out the range at `index`; a day that has no such range stays
    /// as it is.
    pub fn remove(&mut self, index: usize)
        ensures
            index < old(self)@.len() ==> final(self)@ == old(self)@.remove(index as int),
            index >= old(self)@.len() ==> final(self)@ == old(self)@,
    {
        if index < self.timing_collection.len() {
            self.timing_collection.remove(index);
        }
    }

    /// Whether every range of the day is made of two times of day.
    pub fn is_valid(&self) -> (ok: bool)
        ensures
            ok == day_valid(self@),
    {
        let mut i: usize = 0;
        while i < self.timing_collection.len()
            invariant
                i <= self.timing_collection.len(),
                forall|k: int| 0 <= k < i ==> timing_valid(#[trigger] self@[k]),
            decreases self.timing_collection.len() - i,
        {
            if !self.timing_collection[i].is_valid() {
                assert(!timing_valid(self@[i as int]));
                return false;
            }
            i += 1;
        }
        true
    }

    /// Whether no two ranges of the day clash.
    pub fn is_clash_free(&self) -> (ok: bool)
        requires
            day_valid(self@),
        ensures
            ok == clash_free(self@),
    {
        let n = self.timing_collection.len();
        let mut i: usize = 0;
        while i < n
            invariant
                i <= n,
                n == self@.len(),
                n == self.timing_collection@.len(),
                day_valid(self@),
                forall|a: int, b: int|
                    0 <= a < i && 0 <= b < n && a != b ==> !overlaps(
                        #[trigger] self@[a],
                        #[trigger] self@[b],
                    ),
            decreases n - i,
        {
            let mut j: usize = 0;
            while j < n
                invariant
                    i < n,
                    j <= n,
                    n == self@.len(),
                    n == self.timing_collection@.len(),
                    day_valid(self@),
                    forall|b: int|
                        0 <= b < j && b != i ==> !overlaps(self@[i as int], #[trigger] self@[b]),
                decreases n - j,
            {
                if i != j {
                    assert(timing_valid(self@[i as int]) && timing_valid(self@[j as int]));
                    if self.timing_collection[i].overlaps(&self.timing_collection[j]) {
                        return false;
                    }
                }
                j += 1;
            }
            i += 1;
        }
        true
    }

    /// The indices of the ranges in the order of display: every index of
    /// the day once, by rising start, ranges with equal starts in the order
    /// in which they are stored.
    pub fn display_order(&self) -> (order: Vec<usize>)
        requires
            day_valid(self@),
        ensures
            as_ints(order@) == display_order_spec(self@),
            is_display_order(as_ints(order@), start_keys(self@)),
            order@.len() == self@.len(),
            forall|k: int| 0 <= k < order@.len() ==> #[trigger] order@[k] < self@.len(),
    {
        let n = self.timing_collection.len();
        let ghost keys = start_keys(self@);
        let mut starts: Vec<u32> = Vec::new();
        let mut i: usize = 0;
        while i < n
            invariant
                i <= n,
                n == self.timing_collection.len(),
                day_valid(self@),
                starts@.len() == i,
                keys == start_keys(self@),
                forall|k: int| 0 <= k < i ==> #[trigger] starts@[k] as int == keys[k],
            decreases n - i,
        {
            assert(timing_valid(self@[i as int]));
            let (start, _end) = self.timing_collection[i].numbers();
            starts.push(start);
            i += 1;
        }
        let mut order: Vec<usize> = Vec::new();
        let mut i: usize = 0;
        while i < n
            invariant
                i <= n,
                n == self.timing_collection.len(),
                n == keys.len(),
                starts@.len() == n,
                forall|k: int| 0 <= k < n ==> #[trigger] starts@[k] as int == keys[k],
                as_ints(order@) == order_by_key(keys, i as int),
                order@.len() == i,
                forall|k: int| 0 <= k < order@.len() ==> #[trigger] order@[k] < i,
            decreases n - i,
        {
            let mut pos: usize = order.len();
            while pos > 0 && starts[order[pos - 1]] > starts[i]
                invariant
                    pos <= order@.len(),
                    i < n,
                    n == keys.len(),
                    starts@.len() == n,
                    order@.len() == i,
                    forall|k: int| 0 <= k < n ==> #[trigger] starts@[k] as int == keys[k],
                    forall|k: int| 0 <= k < order@.len() ==> #[trigger] order@[k] < i,
                    forall|k: int|
                        pos <= k < order@.len() ==> keys[#[trigger] as_ints(order@)[k]] > keys[i as int],
                decreases pos,
            {
                pos -= 1;
            }
            proof {
                lemma_insert_position(as_ints(order@), keys, i as int, pos as int);
                assert(as_ints(order@.insert(pos as int, i)) =~= as_ints(order@).insert(
                    pos as int,
                    i as int,
                ));
            }
            order.insert(pos, i);
            i += 1;
        }
        proof {
            lemma_order_by_key(keys, n as int);
            lemma_display_order(self@);
            assert(is_display_order(as_ints(order@), start_keys(self@)));
        }
        order
    }
}

/// Whether the candidate can join the day: true when it clashes with none
/// of the day's ranges. The range at `exclude_index`, if one is given, is
/// left out of the comparison: it is the one that the candidate replaces.
pub fn no_clash(candidate: &Timing, day: &TimingCollection, exclude_index: Option<usize>) -> (ok:
    bool)
    requires
        timing_valid(candidate@),
        day_valid(day@),
    ensures
        ok == no_clash_spec(candidate@, day@, as_index(exclude_index)),
{
    let mut i: usize = 0;
    while i < day.timing_collection.len()
        invariant
            i <= day.timing_collection.len(),
            timing_valid(candidate@),
            day_valid(day@),
            forall|k: int|
                0 <= k < i && !excluded(as_index(exclude_index), k) ==> !overlaps(
                    candidate@,
                    #[trigger] day@[k],
                ),
        decreases day.timing_collection.len() - i,
    {
        let skip = match exclude_index {
            Some(e) => e == i,
            None => false,
        };
        if !skip {
            assert(timing_valid(day@[i as int]));
            if candidate.overlaps(&day.timing_collection[i]) {
                return false;
            }
        }
        i += 1;
    }
    true
}

/// A range never clashes with the day it stands in, once it is itself left
/// out of the comparison: in a day without clashes, the range at `i` as
/// candidate, with `i` excluded, is accepted.
pub proof fn lemma_self_exclusion(day: Seq<TimingView>, i: int)
    requires
        clash_free(day),
        0 <= i < day.len(),
    ensures
        no_clash_spec(day[i], day, Some(i)),
{
}

/// The clash test does not depend on which range is the candidate.
pub proof fn lemma_overlaps_symmetric(a: TimingView, b: TimingView)
    ensures
        overlaps(a, b) == overlaps(b, a),
{
}

} // verus!
