use vstd::prelude::*;

use crate::tile::Tile;

verus! {

/// Grid coordinates of a row-major cell index.
pub fn i_to_xy(width: &usize, index: &usize) -> (r: (usize, usize))
    requires
        *width > 0,
    ensures
        r.0 == *index % *width,
        r.1 == *index / *width,
{
    (*index % *width, *index / *width)
}

/// Row-major cell index of grid coordinates.
pub fn xy_to_i(width: &usize, x: &usize, y: &usize) -> (r: usize)
    requires
        *y * *width + *x <= usize::MAX,
    ensures
        r == *y * *width + *x,
{
    *y * *width + *x
}

/// A world pixel's offset within the tile it lies on. The pixel must lie
/// inside the tile's drawing rectangle.
pub fn px_in_tile(world_px: &(usize, usize), tile: &Tile) -> (r: (usize, usize))
    requires
        tile.draw_rect.left <= world_px.0 <= tile.draw_rect.right,
        tile.draw_rect.top <= world_px.1 <= tile.draw_rect.bottom,
    ensures
        r.0 == world_px.0 - tile.draw_rect.left,
        r.1 == world_px.1 - tile.draw_rect.top,
{
    let rect = tile.get_drawing_rect();
    (world_px.0 - rect.left, world_px.1 - rect.top)
}

/// How many entries of the sequence equal `v`.
pub open spec fn count_of(s: Seq<u8>, v: u8) -> nat
    decreases s.len(),
{
    if s.len() == 0 {
        0
    } else {
        count_of(s.drop_last(), v) + (if s.last() == v {
            1nat
        } else {
            0nat
        })
    }
}

/// The index of the last entry equal to `v`, or -1 when none is.
pub open spec fn last_occurrence(s: Seq<u8>, v: u8) -> int
    decreases s.len(),
{
    if s.len() == 0 {
        -1
    } else if s.last() == v {
        s.len() - 1
    } else {
        last_occurrence(s.drop_last(), v)
    }
}

/// What `mode` returns on a nonempty sequence: a most frequent value, ties
/// broken in favor of the value that completes its count first — that is,
/// the tied value whose last occurrence comes earliest.
pub open spec fn is_mode(s: Seq<u8>, m: u8) -> bool {
    &&& count_of(s, m) > 0
    &&& forall|v: u8| #[trigger] count_of(s, v) <= count_of(s, m)
    &&& forall|v: u8|
        v != m && #[trigger] count_of(s, v) == count_of(s, m) ==> last_occurrence(s, m)
            < last_occurrence(s, v)
}

/// At most one value is the mode of a sequence.
pub proof fn lemma_mode_unique(s: Seq<u8>, m1: u8, m2: u8)
    requires
        is_mode(s, m1),
        is_mode(s, m2),
    ensures
        m1 == m2,
{
    if m1 != m2 {
        assert(count_of(s, m1) <= count_of(s, m2));
        assert(count_of(s, m2) <= count_of(s, m1));
        assert(last_occurrence(s, m1) < last_occurrence(s, m2));
        assert(last_occurrence(s, m2) < last_occurrence(s, m1));
    }
}

proof fn lemma_count_push(p: Seq<u8>, x: u8, v: u8)
    ensures
        count_of(p.push(x), v) == count_of(p, v) + (if x == v {
            1int
        } else {
            0int
        }),
{
    assert(p.push(x).drop_last() =~= p);
    assert(p.push(x).last() == x);
}

proof fn lemma_last_occurrence_push(p: Seq<u8>, x: u8, v: u8)
    ensures
        last_occurrence(p.push(x), v) == (if x == v {
            p.len() as int
        } else {
            last_occurrence(p, v)
        }),
{
    assert(p.push(x).drop_last() =~= p);
    assert(p.push(x).last() == x);
}

proof fn lemma_last_occurrence_bound(s: Seq<u8>, v: u8)
    ensures
        last_occurrence(s, v) < s.len(),
    decreases s.len(),
{
    if s.len() > 0 && s.last() != v {
        lemma_last_occurrence_bound(s.drop_last(), v);
    }
}

/// The running result of the tally: `b` occurs `c` times in the part seen
/// so far, no value occurs more often, and among values tied at `c`, `b`
/// is the one whose last occurrence comes earliest.
spec fn leading_value(s: Seq<u8>, b: u8, c: nat) -> bool {
    &&& count_of(s, b) == c
    &&& c > 0
    &&& forall|v: u8| #[trigger] count_of(s, v) <= c
    &&& forall|v: u8|
        v != b && #[trigger] count_of(s, v) == c ==> last_occurrence(s, b) < last_occurrence(s, v)
}

/// The most frequent value of the slice, or nothing when it is empty.
/// Among equally frequent values, the one that completes its count first
/// wins.
pub fn mode(numbers: &[u8]) -> (r: Option<u8>)
    ensures
        (r is None) <==> numbers@.len() == 0,
        r matches Some(m) ==> is_mode(numbers@, m),
{
    let n = numbers.len();
    let mut best: Option<u8> = None;
    let mut best_count: usize = 0;
    for k in 0..n
        invariant
            n == numbers@.len(),
            (best is None) <==> k == 0,
            best_count <= k,
            best is Some ==> leading_value(
                numbers@.subrange(0, k as int),
                best->0,
                best_count as nat,
            ),
    {
        let x = numbers[k];
        let mut cnt: usize = 0;
        for j in 0..k + 1
            invariant
                n == numbers@.len(),
                k < n,
                cnt == count_of(numbers@.subrange(0, j as int), x),
                cnt <= j,
        {
            proof {
                assert(numbers@.subrange(0, j as int + 1) =~= numbers@.subrange(0, j as int).push(
                    numbers@[j as int],
                ));
                lemma_count_push(numbers@.subrange(0, j as int), numbers@[j as int], x);
            }
            if numbers[j] == x {
                cnt = cnt + 1;
            }
        }
        let ghost p = numbers@.subrange(0, k as int);
        let ghost p2 = numbers@.subrange(0, k as int + 1);
        proof {
            assert(p2 =~= p.push(numbers@[k as int]));
        }
        if cnt > best_count {
            proof {
                assert(count_of(p2, x) == cnt);
                assert forall|v: u8| #[trigger] count_of(p2, v) <= cnt by {
                    lemma_count_push(p, x, v);
                    if k == 0 {
                        assert(count_of(p, v) == 0);
                    } else {
                        assert(count_of(p, v) <= best_count);
                    }
                }
                assert forall|v: u8|
                    v != x && #[trigger] count_of(p2, v) == cnt implies last_occurrence(p2, x)
                    < last_occurrence(p2, v) by {
                    lemma_count_push(p, x, v);
                    if k == 0 {
                        assert(count_of(p, v) == 0);
                    } else {
                        assert(count_of(p, v) <= best_count);
                    }
                }
                assert(leading_value(p2, x, cnt as nat));
            }
            best = Some(x);
            best_count = cnt;
        } else {
            proof {
                lemma_count_push(p, x, x);
                assert(count_of(p2, x) == cnt);
                assert(cnt >= 1);
                assert(best is Some);
                let b = best->0;
                assert(x != b);
                assert(count_of(p2, b) == best_count) by {
                    lemma_count_push(p, x, b);
                }
                assert forall|v: u8| #[trigger] count_of(p2, v) <= best_count by {
                    lemma_count_push(p, x, v);
                }
                assert forall|v: u8|
                    v != b && #[trigger] count_of(p2, v) == best_count implies last_occurrence(
                    p2,
                    b,
                ) < last_occurrence(p2, v) by {
                    lemma_count_push(p, x, v);
                    lemma_last_occurrence_push(p, x, v);
                    lemma_last_occurrence_push(p, x, b);
                    if v == x {
                        lemma_last_occurrence_bound(p, b);
                    }
                }
                assert(leading_value(p2, b, best_count as nat));
            }
        }
    }
    proof {
        assert(numbers@.subrange(0, n as int) =~= numbers@);
    }
    best
}

} // verus!
