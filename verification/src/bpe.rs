//! Byte-pair encoding over sequences of integer units: counting adjacent
//! pairs, merging a pair into a new unit, learning merges, and applying and
//! undoing them.

use vstd::prelude::*;

verus! {

/// Two neighbouring units.
pub type Pair = (i32, i32);

/// The pair that starts at position `i`.
pub open spec fn pair_at(units: Seq<i32>, i: int) -> Pair {
    (units[i], units[i + 1])
}

/// The number of positions at which a pair starts.
pub open spec fn windows(units: Seq<i32>) -> int {
    if units.len() < 2 {
        0
    } else {
        units.len() - 1
    }
}

/// The number of positions below `upto` at which `pair` starts.
pub open spec fn occurrences(units: Seq<i32>, pair: Pair, upto: int) -> nat
    decreases upto,
{
    if upto <= 0 {
        0
    } else {
        let here: nat = if pair_at(units, upto - 1) == pair {
            1
        } else {
            0
        };
        occurrences(units, pair, upto - 1) + here
    }
}

/// The number of times `pair` occurs in `units`, overlaps included.
pub open spec fn count_of(units: Seq<i32>, pair: Pair) -> nat {
    occurrences(units, pair, windows(units))
}

proof fn lemma_occurrences_bound(units: Seq<i32>, pair: Pair, upto: int)
    requires
        0 <= upto,
    ensures
        occurrences(units, pair, upto) <= upto,
    decreases upto,
{
    if upto > 0 {
        lemma_occurrences_bound(units, pair, upto - 1);
    }
}

/// Whether `pair` has an entry in `counts`.
pub open spec fn listed(counts: Seq<(Pair, i32)>, pair: Pair) -> bool {
    exists|j: int| 0 <= j < counts.len() && counts[j].0 == pair
}

/// Counts every pair of neighbours. Each pair that occurs is listed once,
/// with the number of positions it starts at.
pub fn get_counts(units: &[i32]) -> (counts: Vec<(Pair, i32)>)
    requires
        units@.len() <= i32::MAX,
    ensures
        forall|j: int, k: int| 0 <= j < k < counts@.len() ==> counts@[j].0 != counts@[k].0,
        forall|j: int|
            0 <= j < counts@.len() ==> counts@[j].1 >= 1 && #[trigger] counts@[j].1 == count_of(
                units@,
                counts@[j].0,
            ),
        forall|i: int| 0 <= i < windows(units@) ==> listed(counts@, #[trigger] pair_at(units@, i)),
{
    let mut counts: Vec<(Pair, i32)> = Vec::new();
    if units.len() < 2 {
        return counts;
    }
    let last: usize = units.len() - 1;
    let mut i: usize = 0;
    while i < last
        invariant
            i <= last,
            last == windows(units@),
            units@.len() <= i32::MAX,
            forall|j: int, k: int| 0 <= j < k < counts@.len() ==> counts@[j].0 != counts@[k].0,
            forall|j: int|
                0 <= j < counts@.len() ==> counts@[j].1 >= 1 && #[trigger] counts@[j].1
                    == occurrences(units@, counts@[j].0, i as int),
            forall|w: int| 0 <= w < i ==> listed(counts@, #[trigger] pair_at(units@, w)),
        decreases last - i,
    {
        let pair: Pair = (units[i], units[i + 1]);
        let ghost before = counts@;
        let mut j: usize = 0;
        let mut found = false;
        while j < counts.len() && !found
            invariant
                j <= counts.len(),
                counts@ == before,
                !found ==> forall|k: int| 0 <= k < j ==> counts@[k].0 != pair,
                found ==> j < counts.len() && counts@[j as int].0 == pair,
            decreases counts.len() - j + if found { 0int } else { 1int },
        {
            if counts[j].0.0 == pair.0 && counts[j].0.1 == pair.1 {
                found = true;
            } else {
                j += 1;
            }
        }
        if found {
            let seen: i32 = counts[j].1;
            proof {
                lemma_occurrences_bound(units@, pair, i as int);
            }
            counts.set(j, (pair, seen + 1));
        } else {
            counts.push((pair, 1));
            proof {
                if occurrences(units@, pair, i as int) > 0 {
                    lemma_occurs_somewhere(units@, pair, i as int);
                    let w = choose|w: int| 0 <= w < i && pair_at(units@, w) == pair;
                    assert(listed(before, pair_at(units@, w)));
                    let k = choose|k: int| 0 <= k < before.len() && before[k].0 == pair;
                    assert(false);
                }
            }
        }
        proof {
            assert(pair == pair_at(units@, i as int));
            assert forall|w: int| 0 <= w < i + 1 implies listed(
                counts@,
                #[trigger] pair_at(units@, w),
            ) by {
                if w < i {
                    assert(listed(before, pair_at(units@, w)));
                    let k = choose|k: int| 0 <= k < before.len() && before[k].0 == pair_at(units@, w);
                    assert(counts@[k].0 == pair_at(units@, w));
                } else {
                    if found {
                        assert(counts@[j as int].0 == pair_at(units@, w));
                    } else {
                        assert(counts@[before.len() as int].0 == pair_at(units@, w));
                    }
                }
            }
        }
        i += 1;
    }
    counts
}

proof fn lemma_occurs_somewhere(units: Seq<i32>, pair: Pair, upto: int)
    requires
        occurrences(units, pair, upto) > 0,
    ensures
        exists|w: int| 0 <= w < upto && pair_at(units, w) == pair,
    decreases upto,
{
    if upto > 0 {
        if pair_at(units, upto - 1) == pair {
        } else {
            lemma_occurs_somewhere(units, pair, upto - 1);
            let w = choose|w: int| 0 <= w < upto - 1 && pair_at(units, w) == pair;
            assert(0 <= w < upto && pair_at(units, w) == pair);
        }
    }
}

/// The units with every occurrence of `pair` replaced by `idx`, taken from
/// the left, so that overlapping occurrences are merged at the earlier one.
pub open spec fn merged(units: Seq<i32>, pair: Pair, idx: i32) -> Seq<i32>
    decreases units.len(),
{
    if units.len() == 0 {
        Seq::empty()
    } else if units.len() >= 2 && units[0] == pair.0 && units[1] == pair.1 {
        seq![idx] + merged(units.skip(2), pair, idx)
    } else {
        seq![units[0]] + merged(units.skip(1), pair, idx)
    }
}

/// Replaces every occurrence of `pair` by `idx`, from the left.
pub fn merge(units: &[i32], pair: &Pair, idx: i32) -> (new_units: Vec<i32>)
    ensures
        new_units@ == merged(units@, *pair, idx),
{
    let mut new_units: Vec<i32> = Vec::new();
    let mut i: usize = 0;
    assert(units@.skip(0) =~= units@);
    assert(new_units@ + merged(units@, *pair, idx) =~= merged(units@, *pair, idx));
    while i < units.len()
        invariant
            i <= units.len(),
            new_units@ + merged(units@.skip(i as int), *pair, idx) == merged(units@, *pair, idx),
        decreases units.len() - i,
    {
        let ghost rest = units@.skip(i as int);
        let ghost done = new_units@;
        if i < units.len() - 1 && units[i] == pair.0 && units[i + 1] == pair.1 {
            new_units.push(idx);
            proof {
                assert(rest.skip(2) =~= units@.skip(i + 2));
                assert(new_units@ + merged(units@.skip(i + 2), *pair, idx) =~= done + merged(
                    rest,
                    *pair,
                    idx,
                ));
            }
            i += 2;
        } else {
            new_units.push(units[i]);
            proof {
                assert(rest.skip(1) =~= units@.skip(i + 1));
                assert(new_units@ + merged(units@.skip(i + 1), *pair, idx) =~= done + merged(
                    rest,
                    *pair,
                    idx,
                ));
            }
            i += 1;
        }
    }
    assert(new_units@ + Seq::<i32>::empty() =~= new_units@);
    new_units
}

proof fn lemma_merged_props(units: Seq<i32>, pair: Pair, idx: i32, bound: int)
    requires
        idx < bound,
        forall|i: int| 0 <= i < units.len() ==> units[i] < bound,
    ensures
        merged(units, pair, idx).len() <= units.len(),
        forall|j: int| 0 <= j < merged(units, pair, idx).len() ==> merged(units, pair, idx)[j] < bound,
    decreases units.len(),
{
    if units.len() == 0 {
    } else if units.len() >= 2 && units[0] == pair.0 && units[1] == pair.1 {
        lemma_merged_props(units.skip(2), pair, idx, bound);
    } else {
        lemma_merged_props(units.skip(1), pair, idx, bound);
    }
}

proof fn lemma_merged_shorter(units: Seq<i32>, pair: Pair, idx: i32, at: int)
    requires
        0 <= at < windows(units),
        pair_at(units, at) == pair,
    ensures
        merged(units, pair, idx).len() < units.len(),
    decreases units.len(),
{
    if units[0] == pair.0 && units[1] == pair.1 {
        lemma_merged_props(units.skip(2), pair, idx, i32::MAX + 1);
    } else {
        assert(pair_at(units.skip(1), at - 1) == pair);
        lemma_merged_shorter(units.skip(1), pair, idx, at - 1);
    }
}

/// The greatest unit, or the least integer of the type for no units.
pub open spec fn seq_max(units: Seq<i32>) -> int
    decreases units.len(),
{
    if units.len() == 0 {
        i32::MIN as int
    } else {
        let rest = seq_max(units.drop_last());
        if units.last() > rest {
            units.last() as int
        } else {
            rest
        }
    }
}

/// The position of the most frequent pair among those that start below
/// `upto`; of several equally frequent ones, the one that starts first.
pub open spec fn top_window(units: Seq<i32>, upto: int) -> int
    decreases upto,
{
    if upto <= 1 {
        0
    } else {
        let best = top_window(units, upto - 1);
        if count_of(units, pair_at(units, upto - 1)) > count_of(units, pair_at(units, best)) {
            upto - 1
        } else {
            best
        }
    }
}

/// The most frequent pair of `units`, which hold at least two units.
pub open spec fn top_pair(units: Seq<i32>) -> Pair {
    pair_at(units, top_window(units, windows(units)))
}

/// The outcome of at most `rounds` rounds of learning: in each round the most
/// frequent pair is merged into the unit `next`, which then goes up by one.
/// Learning ends early when fewer than two units are left. The result holds
/// the units that are left and the merges in the order in which they were
/// learnt.
pub open spec fn fitted(units: Seq<i32>, rounds: nat, next: int) -> (Seq<i32>, Seq<(Pair, i32)>)
    decreases rounds,
{
    if rounds == 0 || units.len() < 2 {
        (units, Seq::empty())
    } else {
        let pair = top_pair(units);
        let rest = fitted(merged(units, pair, next as i32), (rounds - 1) as nat, next + 1);
        (rest.0, seq![(pair, next as i32)] + rest.1)
    }
}

/// Every merge makes a unit that is greater than both units of its pair.
pub open spec fn rules_descend(merges: Seq<(Pair, i32)>) -> bool {
    forall|i: int|
        0 <= i < merges.len() ==> (#[trigger] merges[i]).0.0 < merges[i].1 && merges[i].0.1
            < merges[i].1
}

fn vocab_size(units: &Vec<i32>) -> (n: usize)
    ensures
        n == units@.to_set().len(),
{
    let mut seen: Vec<i32> = Vec::new();
    let mut i: usize = 0;
    assert(units@.take(0).to_set() =~= seen@.to_set());
    while i < units.len()
        invariant
            i <= units.len(),
            seen@.no_duplicates(),
            seen@.len() <= i,
            seen@.to_set() == units@.take(i as int).to_set(),
        decreases units.len() - i,
    {
        let unit = units[i];
        let mut j: usize = 0;
        let mut known = false;
        while j < seen.len() && !known
            invariant
                j <= seen.len(),
                !known ==> forall|k: int| 0 <= k < j ==> seen@[k] != unit,
                known ==> seen@.contains(unit),
            decreases seen.len() - j + if known { 0int } else { 1int },
        {
            if seen[j] == unit {
                known = true;
            } else {
                j += 1;
            }
        }
        let ghost before = seen@;
        if !known {
            seen.push(unit);
        }
        proof {
            let now = units@.take(i + 1);
            let prev = units@.take(i as int);
            assert(now.drop_last() =~= prev);
            assert forall|x: i32| seen@.to_set().contains(x) <==> now.to_set().contains(x) by {
                if seen@.contains(x) {
                    if before.contains(x) {
                        assert(prev.to_set().contains(x));
                        let k = choose|k: int| 0 <= k < prev.len() && prev[k] == x;
                        assert(now[k] == x);
                    } else {
                        assert(x == unit);
                        assert(now[i as int] == x);
                    }
                }
                if now.contains(x) {
                    let k = choose|k: int| 0 <= k < now.len() && now[k] == x;
                    if k < i {
                        assert(prev[k] == x);
                        assert(before.to_set().contains(x));
                        let m = choose|m: int| 0 <= m < before.len() && before[m] == x;
                        assert(seen@[m] == x);
                    } else {
                        if known {
                            let m = choose|m: int| 0 <= m < before.len() && before[m] == unit;
                            assert(seen@[m] == x);
                        } else {
                            assert(seen@[before.len() as int] == x);
                        }
                    }
                }
            }
            assert(seen@.to_set() =~= now.to_set());
        }
        i += 1;
    }
    proof {
        assert(units@.take(units@.len() as int) =~= units@);
        seen@.unique_seq_to_set();
    }
    seen.len()
}

fn max_unit(units: &Vec<i32>) -> (top: i32)
    requires
        units@.len() > 0,
    ensures
        top == seq_max(units@),
        forall|i: int| 0 <= i < units@.len() ==> units@[i] <= top,
{
    let mut top: i32 = units[0];
    let mut i: usize = 1;
    assert(units@.take(1).drop_last() =~= Seq::<i32>::empty());
    assert(seq_max(units@.take(1).drop_last()) == i32::MIN);
    assert(units@.take(1).last() == units@[0]);
    while i < units.len()
        invariant
            1 <= i <= units.len(),
            top == seq_max(units@.take(i as int)),
            forall|k: int| 0 <= k < i ==> units@[k] <= top,
        decreases units.len() - i,
    {
        assert(units@.take(i + 1).drop_last() =~= units@.take(i as int));
        if units[i] > top {
            top = units[i];
        }
        i += 1;
    }
    assert(units@.take(units@.len() as int) =~= units@);
    top
}

fn count_in(counts: &Vec<(Pair, i32)>, pair: Pair) -> (count: i32)
    requires
        listed(counts@, pair),
    ensures
        exists|j: int| 0 <= j < counts@.len() && counts@[j].0 == pair && counts@[j].1 == count,
{
    let mut j: usize = 0;
    while j < counts.len()
        invariant
            j <= counts.len(),
            forall|k: int| 0 <= k < j ==> counts@[k].0 != pair,
        decreases counts.len() - j,
    {
        if counts[j].0.0 == pair.0 && counts[j].0.1 == pair.1 {
            return counts[j].1;
        }
        j += 1;
    }
    proof {
        let k = choose|k: int| 0 <= k < counts@.len() && counts@[k].0 == pair;
        assert(false);
    }
    0
}

fn most_frequent(units: &Vec<i32>, counts: &Vec<(Pair, i32)>) -> (pair: Pair)
    requires
        units@.len() >= 2,
        forall|j: int|
            0 <= j < counts@.len() ==> #[trigger] counts@[j].1 == count_of(
                units@,
                counts@[j].0,
            ),
        forall|i: int| 0 <= i < windows(units@) ==> listed(counts@, #[trigger] pair_at(units@, i)),
    ensures
        pair == top_pair(units@),
        exists|w: int| 0 <= w < windows(units@) && pair == pair_at(units@, w),
{
    let last: usize = units.len() - 1;
    let mut best: usize = 0;
    assert(listed(counts@, pair_at(units@, 0)));
    let mut best_count: i32 = count_in(counts, (units[0], units[1]));
    let mut i: usize = 1;
    while i < last
        invariant
            1 <= i <= last,
            last == windows(units@),
            best < i,
            best == top_window(units@, i as int),
            best_count == count_of(units@, pair_at(units@, best as int)),
            forall|j: int|
                0 <= j < counts@.len() ==> #[trigger] counts@[j].1 == count_of(
                    units@,
                    counts@[j].0,
                ),
            forall|w: int| 0 <= w < windows(units@) ==> listed(counts@, #[trigger] pair_at(units@, w)),
        decreases last - i,
    {
        assert(listed(counts@, pair_at(units@, i as int)));
        let here: i32 = count_in(counts, (units[i], units[i + 1]));
        if here > best_count {
            best = i;
            best_count = here;
        }
        i += 1;
    }
    (units[best], units[best + 1])
}

/// Learns merges from `units` until the vocabulary has `target_vocab_size`
/// units or fewer than two units are left: each round merges the most
/// frequent pair into a new unit, one above the greatest unit so far.
/// Returns the units that are left and the merges in the order learnt.
pub fn fit(units: Vec<i32>, target_vocab_size: usize) -> (learnt: (Vec<i32>, Vec<(Pair, i32)>))
    requires
        0 < units@.len() <= i32::MAX,
        target_vocab_size > units@.to_set().len(),
        seq_max(units@) + (target_vocab_size - units@.to_set().len()) <= i32::MAX,
    ensures
        (learnt.0@, learnt.1@) == fitted(
            units@,
            (target_vocab_size - units@.to_set().len()) as nat,
            seq_max(units@) + 1,
        ),
        rules_descend(learnt.1@),
{
    let initial_vocab_size = vocab_size(&units);
    let top = max_unit(&units);
    let num_merges: usize = target_vocab_size - initial_vocab_size;
    let ghost rounds = num_merges as nat;
    let ghost first = top + 1;
    let ghost start = units@;
    let mut units = units;
    let mut merges: Vec<(Pair, i32)> = Vec::new();
    let mut max_idx: i32 = top;
    let mut i: usize = 0;
    assert(merges@ + fitted(start, rounds, first).1 =~= fitted(start, rounds, first).1);
    while i < num_merges && units.len() >= 2
        invariant
            i <= num_merges,
            rounds == num_merges,
            units@.len() <= i32::MAX,
            max_idx == top + i,
            top + num_merges <= i32::MAX,
            forall|k: int| 0 <= k < units@.len() ==> units@[k] <= max_idx,
            rules_descend(merges@),
            fitted(start, rounds, first) == (
                fitted(units@, (rounds - i) as nat, max_idx + 1).0,
                merges@ + fitted(units@, (rounds - i) as nat, max_idx + 1).1,
            ),
        decreases num_merges - i,
    {
        let counts = get_counts(units.as_slice());
        let pair = most_frequent(&units, &counts);
        let new_idx: i32 = max_idx + 1;
        let ghost before = units@;
        let ghost learnt = merges@;
        proof {
            lemma_merged_props(before, pair, new_idx, new_idx + 1);
        }
        units = merge(units.as_slice(), &pair, new_idx);
        merges.push((pair, new_idx));
        proof {
            let rest = fitted(units@, (rounds - i - 1) as nat, new_idx + 1);
            assert(fitted(before, (rounds - i) as nat, max_idx + 1) == (
                rest.0,
                seq![(pair, new_idx)] + rest.1,
            ));
            assert(merges@ + rest.1 =~= learnt + (seq![(pair, new_idx)] + rest.1));
            let w = choose|w: int| 0 <= w < windows(before) && pair == pair_at(before, w);
            assert(pair.0 <= max_idx && pair.1 <= max_idx);
        }
        max_idx = new_idx;
        i += 1;
    }
    proof {
        let rest = fitted(units@, (rounds - i) as nat, max_idx + 1);
        assert(rest == (units@, Seq::<(Pair, i32)>::empty()));
        assert(merges@ + rest.1 =~= merges@);
    }
    (units, merges)
}

/// The unit that `pair` is merged into, if a merge for it was learnt; the
/// merge learnt last counts where there are several.
pub open spec fn rule_of(merges: Seq<(Pair, i32)>, pair: Pair) -> Option<i32>
    decreases merges.len(),
{
    if merges.len() == 0 {
        None
    } else if merges.last().0 == pair {
        Some(merges.last().1)
    } else {
        rule_of(merges.drop_last(), pair)
    }
}

/// The pair that `unit` was merged from, if any; the merge learnt last counts
/// where there are several.
pub open spec fn pair_of(merges: Seq<(Pair, i32)>, unit: i32) -> Option<Pair>
    decreases merges.len(),
{
    if merges.len() == 0 {
        None
    } else if merges.last().1 == unit {
        Some(merges.last().0)
    } else {
        pair_of(merges.drop_last(), unit)
    }
}

fn find_rule(merges: &Vec<(Pair, i32)>, pair: Pair) -> (rule: Option<i32>)
    ensures
        rule == rule_of(merges@, pair),
{
    let mut rule: Option<i32> = None;
    let mut i: usize = 0;
    while i < merges.len()
        invariant
            i <= merges.len(),
            rule == rule_of(merges@.take(i as int), pair),
        decreases merges.len() - i,
    {
        assert(merges@.take(i + 1).drop_last() =~= merges@.take(i as int));
        if merges[i].0.0 == pair.0 && merges[i].0.1 == pair.1 {
            rule = Some(merges[i].1);
        }
        i += 1;
    }
    assert(merges@.take(merges@.len() as int) =~= merges@);
    rule
}

fn find_pair(merges: &Vec<(Pair, i32)>, unit: i32) -> (pair: Option<Pair>)
    ensures
        pair == pair_of(merges@, unit),
{
    let mut pair: Option<Pair> = None;
    let mut i: usize = 0;
    while i < merges.len()
        invariant
            i <= merges.len(),
            pair == pair_of(merges@.take(i as int), unit),
        decreases merges.len() - i,
    {
        assert(merges@.take(i + 1).drop_last() =~= merges@.take(i as int));
        if merges[i].1 == unit {
            pair = Some(merges[i].0);
        }
        i += 1;
    }
    assert(merges@.take(merges@.len() as int) =~= merges@);
    pair
}

/// The position of the pair to merge next among those that start below
/// `upto`: the one whose merge makes the least unit, and of several such the
/// one that starts first; none where no pair there has a merge.
pub open spec fn next_window(units: Seq<i32>, merges: Seq<(Pair, i32)>, upto: int) -> Option<int>
    decreases upto,
{
    if upto <= 0 {
        None
    } else {
        let before = next_window(units, merges, upto - 1);
        match (before, rule_of(merges, pair_at(units, upto - 1))) {
            (None, Some(_)) => Some(upto - 1),
            (Some(best), Some(here)) => if here < rule_of(merges, pair_at(units, best))->0 {
                Some(upto - 1)
            } else {
                before
            },
            _ => before,
        }
    }
}

/// The units after the learnt merges were applied for as long as one
/// applies, each time the one that makes the least unit.
pub open spec fn encoded(units: Seq<i32>, merges: Seq<(Pair, i32)>) -> Seq<i32>
    decreases units.len(),
{
    match next_window(units, merges, windows(units)) {
        None => units,
        Some(at) => {
            let pair = pair_at(units, at);
            let next = merged(units, pair, rule_of(merges, pair)->0);
            if next.len() < units.len() {
                encoded(next, merges)
            } else {
                units
            }
        },
    }
}

/// Applies the learnt merges to `units` for as long as one applies.
pub fn encode(units: Vec<i32>, merges: &Vec<(Pair, i32)>) -> (out: Vec<i32>)
    ensures
        out@ == encoded(units@, merges@),
{
    let ghost start = units@;
    let mut units = units;
    let mut done = false;
    while !done && units.len() >= 2
        invariant
            encoded(units@, merges@) == encoded(start, merges@),
            done ==> encoded(units@, merges@) == units@,
        decreases units@.len() + if done { 0int } else { 1int },
    {
        let last: usize = units.len() - 1;
        let mut best: Option<(usize, i32)> = None;
        let mut i: usize = 0;
        while i < last
            invariant
                i <= last,
                last == windows(units@),
                match best {
                    Some((at, rule)) => next_window(units@, merges@, i as int) == Some(at as int)
                        && at < i && rule_of(merges@, pair_at(units@, at as int)) == Some(rule),
                    None => next_window(units@, merges@, i as int) is None,
                },
            decreases last - i,
        {
            let here = find_rule(merges, (units[i], units[i + 1]));
            match (best, here) {
                (None, Some(rule)) => {
                    best = Some((i, rule));
                },
                (Some((_, least)), Some(rule)) => {
                    if rule < least {
                        best = Some((i, rule));
                    }
                },
                _ => {},
            }
            i += 1;
        }
        match best {
            None => {
                done = true;
            },
            Some((at, rule)) => {
                let pair: Pair = (units[at], units[at + 1]);
                proof {
                    lemma_merged_shorter(units@, pair, rule, at as int);
                }
                units = merge(units.as_slice(), &pair, rule);
            },
        }
    }
    units
}

/// One round of undoing merges: every unit that was merged from a pair is
/// replaced by the two units of that pair.
pub open spec fn expanded(units: Seq<i32>, merges: Seq<(Pair, i32)>) -> Seq<i32>
    decreases units.len(),
{
    if units.len() == 0 {
        Seq::empty()
    } else {
        expanded(units.drop_last(), merges) + match pair_of(merges, units.last()) {
            Some(pair) => seq![pair.0, pair.1],
            None => seq![units.last()],
        }
    }
}

/// Whether no unit was merged from a pair, so that a round of undoing changes
/// nothing.
pub open spec fn settled(units: Seq<i32>, merges: Seq<(Pair, i32)>) -> bool {
    forall|i: int| 0 <= i < units.len() ==> pair_of(merges, #[trigger] units[i]) is None
}

/// The units after `rounds` rounds of undoing merges.
pub open spec fn unrolled(units: Seq<i32>, merges: Seq<(Pair, i32)>, rounds: nat) -> Seq<i32>
    decreases rounds,
{
    if rounds == 0 {
        units
    } else {
        expanded(unrolled(units, merges, (rounds - 1) as nat), merges)
    }
}

/// Every unit that was merged from a pair is below `bound`.
pub open spec fn below(units: Seq<i32>, merges: Seq<(Pair, i32)>, bound: int) -> bool {
    forall|i: int|
        0 <= i < units.len() && pair_of(merges, #[trigger] units[i]) is Some ==> units[i] < bound
}

proof fn lemma_pair_of_descends(merges: Seq<(Pair, i32)>, unit: i32)
    requires
        rules_descend(merges),
        pair_of(merges, unit) is Some,
    ensures
        ({
            let pair = pair_of(merges, unit)->0;
            pair.0 < unit && pair.1 < unit
        }),
    decreases merges.len(),
{
    if merges.last().1 == unit {
        assert(merges[merges.len() - 1].0.0 < merges[merges.len() - 1].1);
    } else {
        assert forall|i: int| 0 <= i < merges.drop_last().len() implies (
        #[trigger] merges.drop_last()[i]).0.0 < merges.drop_last()[i].1 && merges.drop_last()[i].0.1
            < merges.drop_last()[i].1 by {
            assert(merges.drop_last()[i] == merges[i]);
        }
        lemma_pair_of_descends(merges.drop_last(), unit);
    }
}

proof fn lemma_expanded_below(units: Seq<i32>, merges: Seq<(Pair, i32)>, bound: int)
    requires
        rules_descend(merges),
        below(units, merges, bound),
    ensures
        below(expanded(units, merges), merges, bound - 1),
    decreases units.len(),
{
    if units.len() > 0 {
        let front = units.drop_last();
        assert forall|i: int| 0 <= i < front.len() && pair_of(merges, #[trigger] front[i]) is Some implies front[i]
            < bound by {
            assert(front[i] == units[i]);
        }
        lemma_expanded_below(front, merges, bound);
        let head = expanded(front, merges);
        let all = expanded(units, merges);
        let unit = units.last();
        assert(unit == units[units.len() - 1]);
        if pair_of(merges, unit) is Some {
            lemma_pair_of_descends(merges, unit);
        }
        assert forall|i: int| 0 <= i < all.len() && pair_of(merges, #[trigger] all[i]) is Some implies all[i]
            < bound - 1 by {
            if i < head.len() {
                assert(all[i] == head[i]);
            }
        }
    }
}

/// Undoes the learnt merges in `units`, round after round, until no unit is
/// left that was merged from a pair.
pub fn decode(units: Vec<i32>, merges: &Vec<(Pair, i32)>) -> (out: Vec<i32>)
    requires
        rules_descend(merges@),
    ensures
        settled(out@, merges@),
        exists|rounds: nat|
            {
                &&& out@ == #[trigger] unrolled(units@, merges@, rounds)
                &&& forall|earlier: nat|
                    earlier < rounds ==> !settled(
                        #[trigger] unrolled(units@, merges@, earlier),
                        merges@,
                    )
            },
{
    let ghost start = units@;
    let mut decoded_units = units;
    let ghost mut rounds: nat = 0;
    let ghost mut bound: int = i32::MAX + 1;
    let mut done = false;
    while !done
        invariant
            rules_descend(merges@),
            decoded_units@ == unrolled(start, merges@, rounds),
            forall|earlier: nat|
                earlier < rounds ==> !settled(#[trigger] unrolled(start, merges@, earlier), merges@),
            below(decoded_units@, merges@, bound),
            i32::MIN <= bound,
            done ==> settled(decoded_units@, merges@),
        decreases bound - i32::MIN + if done { 0int } else { 1int },
    {
        let mut has_replacement = false;
        let mut new_units: Vec<i32> = Vec::new();
        let mut i: usize = 0;
        let ghost mut witness: int = 0;
        while i < decoded_units.len()
            invariant
                i <= decoded_units.len(),
                new_units@ == expanded(decoded_units@.take(i as int), merges@),
                has_replacement ==> 0 <= witness < i && pair_of(
                    merges@,
                    decoded_units@[witness],
                ) is Some,
                !has_replacement ==> settled(decoded_units@.take(i as int), merges@),
            decreases decoded_units.len() - i,
        {
            let unit = decoded_units[i];
            proof {
                let now = decoded_units@.take(i + 1);
                assert(now.drop_last() =~= decoded_units@.take(i as int));
                assert(now.last() == unit);
            }
            match find_pair(merges, unit) {
                Some(pair) => {
                    new_units.push(pair.0);
                    new_units.push(pair.1);
                    has_replacement = true;
                    proof {
                        witness = i as int;
                        assert(new_units@ =~= expanded(decoded_units@.take(i as int), merges@)
                            + seq![pair.0, pair.1]);
                    }
                },
                None => {
                    new_units.push(unit);
                    proof {
                        assert(new_units@ =~= expanded(decoded_units@.take(i as int), merges@)
                            + seq![unit]);
                        if !has_replacement {
                            let now = decoded_units@.take(i + 1);
                            let prev = decoded_units@.take(i as int);
                            assert forall|k: int| 0 <= k < now.len() implies pair_of(
                                merges@,
                                #[trigger] now[k],
                            ) is None by {
                                if k < i {
                                    assert(now[k] == prev[k]);
                                }
                            }
                        }
                    }
                },
            }
            i += 1;
        }
        proof {
            assert(decoded_units@.take(decoded_units@.len() as int) =~= decoded_units@);
        }
        if !has_replacement {
            done = true;
        } else {
            proof {
                assert(decoded_units@[witness] < bound);
                assert(!settled(unrolled(start, merges@, rounds), merges@));
                lemma_expanded_below(decoded_units@, merges@, bound);
                rounds = rounds + 1;
                bound = bound - 1;
            }
            decoded_units = new_units;
        }
    }
    decoded_units
}

} // verus!
