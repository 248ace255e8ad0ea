//! The order of search results, and merging a batch of them into a sorted list.

use crate::paths::key_of_path;
use crate::search_lines::TextHit;
use crate::text::chars_of;
use vstd::prelude::*;

verus! {

/// One key comes before another: at their first difference, or by being its start.
pub open spec fn less(a: Seq<u32>, b: Seq<u32>) -> bool
    decreases a.len(),
{
    if b.len() == 0 {
        false
    } else if a.len() == 0 {
        true
    } else if a[0] != b[0] {
        a[0] < b[0]
    } else {
        less(a.drop_first(), b.drop_first())
    }
}

/// No key comes before itself.
pub proof fn less_is_irreflexive(a: Seq<u32>)
    ensures
        !less(a, a),
    decreases a.len(),
{
    if a.len() > 0 {
        less_is_irreflexive(a.drop_first());
    }
}

/// The order of keys is transitive.
pub proof fn less_is_transitive(a: Seq<u32>, b: Seq<u32>, c: Seq<u32>)
    requires
        less(a, b),
        less(b, c),
    ensures
        less(a, c),
    decreases a.len(),
{
    if a.len() > 0 && a[0] == b[0] && b[0] == c[0] {
        less_is_transitive(a.drop_first(), b.drop_first(), c.drop_first());
    }
}

/// Of two different keys, one comes before the other.
pub proof fn less_is_total(a: Seq<u32>, b: Seq<u32>)
    ensures
        less(a, b) || less(b, a) || a == b,
    decreases a.len(),
{
    if a.len() > 0 && b.len() > 0 && a[0] == b[0] {
        less_is_total(a.drop_first(), b.drop_first());
        if a.drop_first() == b.drop_first() {
            assert(a == seq![a[0]] + a.drop_first());
            assert(b == seq![b[0]] + b.drop_first());
        }
    } else if a.len() == 0 && b.len() == 0 {
        assert(a == b);
    }
}

fn precedes(a: &Vec<u32>, b: &Vec<u32>) -> (before: bool)
    ensures
        before == less(a@, b@),
{
    let mut at: usize = 0;
    assert(a@.skip(0) == a@ && b@.skip(0) == b@);
    while at < a.len() && at < b.len()
        invariant
            at <= a.len(),
            at <= b.len(),
            less(a@, b@) == less(a@.skip(at as int), b@.skip(at as int)),
        decreases a.len() - at,
    {
        let ghost x = a@.skip(at as int);
        let ghost y = b@.skip(at as int);
        assert(x[0] == a@[at as int] && y[0] == b@[at as int]);
        if a[at] != b[at] {
            return a[at] < b[at];
        }
        assert(x.drop_first() == a@.skip(at + 1) && y.drop_first() == b@.skip(at + 1));
        at = at + 1;
    }
    a.len() < b.len()
}

pub open spec fn is_digit(ch: char) -> bool {
    '0' <= ch && ch <= '9'
}

/// A letter without its case.
pub open spec fn folded(ch: char) -> u32 {
    if 'A' <= ch && ch <= 'Z' {
        (ch as u32 + 32) as u32
    } else {
        ch as u32
    }
}

/// Where the digits that start at `at` end.
pub open spec fn run_end(name: Seq<char>, at: int) -> int
    decreases name.len() - at,
{
    if 0 <= at < name.len() && is_digit(name[at]) {
        run_end(name, at + 1)
    } else {
        at
    }
}

/// Where the zeros that start at `at` end, before `end`.
pub open spec fn zeros_end(name: Seq<char>, at: int, end: int) -> int
    decreases end - at,
{
    if at < end && name[at] == '0' {
        zeros_end(name, at + 1, end)
    } else {
        at
    }
}

/// Characters as numbers above 0.
pub open spec fn codes(text: Seq<char>) -> Seq<u32> {
    text.map_values(|ch: char| (ch as u32 + 1) as u32)
}

/// A run of digits ends after where it starts.
pub proof fn run_end_moves(name: Seq<char>, at: int)
    requires
        0 <= at <= name.len(),
    ensures
        at <= run_end(name, at) <= name.len(),
        at < name.len() && is_digit(name[at]) ==> at < run_end(name, at),
    decreases name.len() - at,
{
    if at < name.len() && is_digit(name[at]) {
        run_end_moves(name, at + 1);
    }
}

proof fn zeros_end_moves(name: Seq<char>, at: int, end: int)
    requires
        0 <= at <= end <= name.len(),
    ensures
        at <= zeros_end(name, at, end) <= end,
    decreases end - at,
{
    if at < end && name[at] == '0' {
        zeros_end_moves(name, at + 1, end);
    }
}

/// The name from `at` as a key in natural order: letters ignoring case, and a number by its length
/// without leading zeros, then its digits.
pub open spec fn natural(name: Seq<char>, at: int) -> Seq<u32>
    decreases name.len() - at,
{
    if at < 0 || at >= name.len() {
        Seq::empty()
    } else if is_digit(name[at]) {
        proof {
            run_end_moves(name, at);
        }
        let end = run_end(name, at);
        let first = zeros_end(name, at, end);
        seq![('0' as u32 + 1) as u32, (end - first) as u32] + codes(name.subrange(first, end))
            + natural(name, end)
    } else {
        seq![(folded(name[at]) + 1) as u32] + natural(name, at + 1)
    }
}

/// What results are sorted by: the name in natural order, then the folder, the root before any
/// other, then the path.
pub open spec fn hit_key(hit: TextHit) -> Seq<u32> {
    natural(hit.name@, 0) + seq![0u32] + codes(hit.folder@) + seq![0u32] + codes(
        crate::paths::path_key(hit.path@),
    )
}

fn code_of(ch: char) -> (code: u32)
    ensures
        code == (ch as u32 + 1) as u32,
{
    ch as u32 + 1
}

fn folded_code(ch: char) -> (code: u32)
    ensures
        code == (folded(ch) + 1) as u32,
{
    if 'A' <= ch && ch <= 'Z' {
        ch as u32 + 33
    } else {
        ch as u32 + 1
    }
}

fn push_codes(key: &mut Vec<u32>, chars: &Vec<char>, from: usize, to: usize)
    requires
        from <= to <= chars.len(),
    ensures
        final(key)@ == old(key)@ + codes(chars@.subrange(from as int, to as int)),
{
    let ghost before = key@;
    let mut at: usize = from;
    while at < to
        invariant
            from <= at <= to <= chars.len(),
            key@ == before + codes(chars@.subrange(from as int, at as int)),
        decreases to - at,
    {
        key.push(code_of(chars[at]));
        at = at + 1;
        assert(key@ == before + codes(chars@.subrange(from as int, at as int)));
    }
}

fn digit(ch: char) -> (is: bool)
    ensures
        is == is_digit(ch),
{
    '0' <= ch && ch <= '9'
}

fn natural_key(name: &str) -> (key: Vec<u32>)
    ensures
        key@ == natural(name@, 0),
{
    let chars = chars_of(name);
    let mut key: Vec<u32> = Vec::new();
    let mut at: usize = 0;
    while at < chars.len()
        invariant
            chars@ == name@,
            at <= chars.len(),
            key@ + natural(name@, at as int) == natural(name@, 0),
        decreases chars.len() - at,
    {
        let ghost before = key@;
        if digit(chars[at]) {
            proof {
                run_end_moves(name@, at as int);
            }
            let mut end: usize = at;
            while end < chars.len() && digit(chars[end])
                invariant
                    chars@ == name@,
                    at <= end <= chars.len(),
                    run_end(name@, at as int) == run_end(name@, end as int),
                decreases chars.len() - end,
            {
                end = end + 1;
            }
            let mut first: usize = at;
            while first < end && chars[first] == '0'
                invariant
                    chars@ == name@,
                    at <= first <= end <= chars.len(),
                    zeros_end(name@, at as int, end as int) == zeros_end(
                        name@,
                        first as int,
                        end as int,
                    ),
                decreases end - first,
            {
                first = first + 1;
            }
            key.push('0' as u32 + 1);
            key.push((end - first) as u32);
            push_codes(&mut key, &chars, first, end);
            assert(key@ + natural(name@, end as int) == before + natural(name@, at as int));
            at = end;
        } else {
            key.push(folded_code(chars[at]));
            assert(key@ + natural(name@, at + 1) == before + natural(name@, at as int));
            at = at + 1;
        }
    }
    assert(key@ + natural(name@, at as int) == key@);
    key
}

fn key_of(hit: &TextHit) -> (key: Vec<u32>)
    ensures
        key@ == hit_key(*hit),
{
    let mut key = natural_key(hit.name.as_str());
    key.push(0);
    let folder = chars_of(hit.folder.as_str());
    push_codes(&mut key, &folder, 0, folder.len());
    assert(folder@.subrange(0, folder.len() as int) == folder@);
    key.push(0);
    let path = chars_of(key_of_path(hit.path.as_str()).as_str());
    push_codes(&mut key, &path, 0, path.len());
    assert(path@.subrange(0, path.len() as int) == path@);
    assert(key@ == hit_key(*hit));
    key
}

/// The results are in order, and no two have one key.
pub open spec fn sorted(results: Seq<TextHit>) -> bool {
    forall|i: int, j: int|
        0 <= i < j < results.len() ==> less(
            hit_key(#[trigger] results[i]),
            hit_key(#[trigger] results[j]),
        )
}

/// How many results come before a key.
pub open spec fn rank(results: Seq<TextHit>, key: Seq<u32>) -> int
    decreases results.len(),
{
    if results.len() == 0 || !less(hit_key(results[0]), key) {
        0
    } else {
        1 + rank(results.drop_first(), key)
    }
}

proof fn rank_is(results: Seq<TextHit>, key: Seq<u32>, place: int)
    requires
        0 <= place <= results.len(),
        forall|i: int| 0 <= i < place ==> less(hit_key(#[trigger] results[i]), key),
        place < results.len() ==> !less(hit_key(results[place]), key),
    ensures
        rank(results, key) == place,
    decreases results.len(),
{
    if place > 0 {
        let rest = results.drop_first();
        assert forall|i: int| 0 <= i < place - 1 implies less(hit_key(#[trigger] rest[i]), key) by {
            assert(rest[i] == results[i + 1]);
        }
        assert(less(hit_key(results[0]), key));
        rank_is(rest, key, place - 1);
    }
}

proof fn rank_parts(results: Seq<TextHit>, key: Seq<u32>)
    ensures
        0 <= rank(results, key) <= results.len(),
        forall|i: int| 0 <= i < rank(results, key) ==> less(hit_key(#[trigger] results[i]), key),
        rank(results, key) < results.len() ==> !less(hit_key(results[rank(results, key)]), key),
    decreases results.len(),
{
    if results.len() > 0 && less(hit_key(results[0]), key) {
        let rest = results.drop_first();
        rank_parts(rest, key);
        assert forall|i: int| 0 <= i < rank(results, key) implies less(
            hit_key(#[trigger] results[i]),
            key,
        ) by {
            if i > 0 {
                assert(rest[i - 1] == results[i]);
            }
        }
    }
}

/// Whether the result at its rank has the key.
pub open spec fn is_listed(results: Seq<TextHit>, key: Seq<u32>) -> bool {
    rank(results, key) < results.len() && hit_key(results[rank(results, key)]) == key
}

/// The results with `hit` in its place: it takes the place of one with its key.
pub open spec fn placed(results: Seq<TextHit>, hit: TextHit) -> Seq<TextHit> {
    let key = hit_key(hit);
    if is_listed(results, key) {
        results.update(rank(results, key), hit)
    } else {
        results.insert(rank(results, key), hit)
    }
}

/// The results with every hit of a batch in its place.
pub open spec fn merged(results: Seq<TextHit>, hits: Seq<TextHit>) -> Seq<TextHit>
    decreases hits.len(),
{
    if hits.len() == 0 {
        results
    } else {
        placed(merged(results, hits.drop_last()), hits.last())
    }
}

/// A hit of the batch takes a place before `limit`.
pub open spec fn lands_before(results: Seq<TextHit>, hits: Seq<TextHit>, limit: int) -> bool
    decreases hits.len(),
{
    hits.len() > 0 && (lands_before(results, hits.drop_last(), limit) || rank(
        merged(results, hits.drop_last()),
        hit_key(hits.last()),
    ) < limit)
}

/// Placing a hit keeps the results in order.
pub proof fn placing_keeps_the_order(results: Seq<TextHit>, hit: TextHit)
    requires
        sorted(results),
    ensures
        sorted(placed(results, hit)),
        placed(results, hit).contains(hit),
        placed(results, hit).len() <= results.len() + 1,
        placed(results, hit).len() >= results.len(),
{
    let key = hit_key(hit);
    let place = rank(results, key);
    let after = placed(results, hit);
    rank_parts(results, key);
    assert(after[place] == hit);
    if is_listed(results, key) {
        assert forall|i: int, j: int| 0 <= i < j < after.len() implies less(
            hit_key(#[trigger] after[i]),
            hit_key(#[trigger] after[j]),
        ) by {
            assert(hit_key(after[i]) == hit_key(results[i]));
            assert(hit_key(after[j]) == hit_key(results[j]));
        }
    } else {
        assert forall|j: int| place <= j < results.len() implies less(
            key,
            hit_key(#[trigger] results[j]),
        ) by {
            less_is_total(key, hit_key(results[place]));
            if j > place {
                less_is_transitive(key, hit_key(results[place]), hit_key(results[j]));
            }
        }
        assert forall|i: int, j: int| 0 <= i < j < after.len() implies less(
            hit_key(#[trigger] after[i]),
            hit_key(#[trigger] after[j]),
        ) by {
            let x = if i < place { i } else { i - 1 };
            let y = if j < place { j } else { j - 1 };
            if i == place {
                assert(after[j] == results[y]);
            } else if j == place {
                assert(after[i] == results[x]);
            } else {
                assert(after[i] == results[x] && after[j] == results[y]);
            }
        }
    }
}

/// Merging a batch keeps the results in order, however its hits arrived.
pub proof fn merging_keeps_the_order(results: Seq<TextHit>, hits: Seq<TextHit>)
    requires
        sorted(results),
    ensures
        sorted(merged(results, hits)),
        merged(results, hits).len() <= results.len() + hits.len(),
        merged(results, hits).len() >= results.len(),
    decreases hits.len(),
{
    if hits.len() > 0 {
        merging_keeps_the_order(results, hits.drop_last());
        placing_keeps_the_order(merged(results, hits.drop_last()), hits.last());
    }
}

/// Merging the same hit again changes nothing.
pub proof fn a_hit_listed_twice_is_listed_once(results: Seq<TextHit>, hit: TextHit)
    requires
        sorted(results),
    ensures
        placed(placed(results, hit), hit) == placed(results, hit),
{
    let key = hit_key(hit);
    let place = rank(results, key);
    let after = placed(results, hit);
    placing_keeps_the_order(results, hit);
    rank_parts(results, key);
    less_is_irreflexive(key);
    assert(after[place] == hit);
    assert forall|i: int| 0 <= i < place implies less(hit_key(#[trigger] after[i]), key) by {
        assert(after[i] == results[i]);
    }
    rank_is(after, key, place);
    assert(after.update(place, hit) == after);
}

/// Where a key belongs in sorted results.
fn place_of(results: &Vec<TextHit>, key: &Vec<u32>) -> (place: usize)
    requires
        sorted(results@),
    ensures
        place == rank(results@, key@),
        place <= results.len(),
{
    let mut low: usize = 0;
    let mut high: usize = results.len();
    while low < high
        invariant
            sorted(results@),
            low <= high <= results.len(),
            forall|i: int| 0 <= i < low ==> less(hit_key(#[trigger] results@[i]), key@),
            forall|i: int| high <= i < results.len() ==> !less(hit_key(#[trigger] results@[i]), key@),
        decreases high - low,
    {
        let middle: usize = low + (high - low) / 2;
        let probe = key_of(&results[middle]);
        if precedes(&probe, key) {
            proof {
                assert forall|i: int| 0 <= i < middle + 1 implies less(
                    hit_key(#[trigger] results@[i]),
                    key@,
                ) by {
                    if i < middle {
                        less_is_transitive(hit_key(results@[i]), probe@, key@);
                    }
                }
            }
            low = middle + 1;
        } else {
            proof {
                assert forall|i: int| middle <= i < results.len() implies !less(
                    hit_key(#[trigger] results@[i]),
                    key@,
                ) by {
                    if i > middle && less(hit_key(results@[i]), key@) {
                        less_is_transitive(probe@, hit_key(results@[i]), key@);
                    }
                }
            }
            high = middle;
        }
    }
    proof {
        rank_is(results@, key@, low as int);
    }
    low
}

fn same_key(a: &Vec<u32>, b: &Vec<u32>) -> (same: bool)
    ensures
        same == (a@ == b@),
{
    let same: bool = !precedes(a, b) && !precedes(b, a);
    proof {
        less_is_total(a@, b@);
        less_is_irreflexive(a@);
    }
    same
}

/// Puts every hit of a batch in its place; reports whether one landed before `limit`.
pub fn merge(results: &mut Vec<TextHit>, hits: Vec<TextHit>, limit: usize) -> (changed: bool)
    requires
        sorted(old(results)@),
        old(results).len() + hits.len() <= usize::MAX,
    ensures
        final(results)@ == merged(old(results)@, hits@),
        sorted(final(results)@),
        changed == lands_before(old(results)@, hits@, limit as int),
{
    let ghost before = results@;
    let ghost all = hits@;
    let mut changed: bool = false;
    for hit in it: hits
        invariant
            it.seq() == all,
            sorted(before),
            results@ == merged(before, all.take(it.index())),
            sorted(results@),
            changed == lands_before(before, all.take(it.index()), limit as int),
    {
        proof {
            let now = all.take(it.index() + 1);
            assert(now.drop_last() == all.take(it.index()));
            assert(now.last() == hit);
            placing_keeps_the_order(results@, hit);
        }
        let key = key_of(&hit);
        let place: usize = place_of(results, &key);
        if place < limit {
            changed = true;
        }
        let replaces: bool = place < results.len() && same_key(&key_of(&results[place]), &key);
        if replaces {
            results.set(place, hit);
        } else {
            results.insert(place, hit);
        }
    }
    assert(all.take(all.len() as int) == all);
    changed
}

} // verus!
