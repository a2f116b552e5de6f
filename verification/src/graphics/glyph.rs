//! Glyph outline data for the renderer: which glyphs of a face still need an outline, the
//! order of a face's outlines by glyph id, and where the segments of each glyph start in
//! the buffer that holds the segments of all glyphs one after the other.

use vstd::prelude::*;

verus! {

/// The number of segments of some glyphs in all.
pub open spec fn segment_sum(counts: Seq<u32>) -> int
    decreases counts.len(),
{
    if counts.len() == 0 {
        0
    } else {
        segment_sum(counts.drop_last()) + counts.last()
    }
}

/// The offsets of the glyphs' segments: the offset of each glyph, then the end of the last,
/// then zeros up to a multiple of four entries.
pub open spec fn segment_offsets(counts: Seq<u32>) -> Seq<u32> {
    let n = counts.len() + 1;
    let pad = (4 - n % 4) % 4;
    Seq::new((n + pad) as nat, |i: int| if i < n { segment_sum(counts.take(i)) as u32 } else { 0 })
}

/// The sum of a prefix is at most the sum of the whole.
pub proof fn lemma_segment_sum_prefix(counts: Seq<u32>, i: int)
    requires
        0 <= i <= counts.len(),
    ensures
        0 <= segment_sum(counts.take(i)) <= segment_sum(counts),
    decreases counts.len(),
{
    if i == counts.len() {
        assert(counts.take(i) =~= counts);
    } else {
        assert(counts.drop_last().take(i) =~= counts.take(i));
        lemma_segment_sum_prefix(counts.drop_last(), i);
    }
    lemma_segment_sum_nonneg(counts.take(i));
}

proof fn lemma_segment_sum_nonneg(counts: Seq<u32>)
    ensures
        0 <= segment_sum(counts),
    decreases counts.len(),
{
    if counts.len() > 0 {
        lemma_segment_sum_nonneg(counts.drop_last());
    }
}

/// The offsets delimit the glyphs: the segments of glyph `i` run from its offset to the next
/// one, and the offsets rise from 0 to the total.
pub proof fn law_segment_offsets_delimit(counts: Seq<u32>, i: int)
    requires
        0 <= i < counts.len(),
        segment_sum(counts) <= u32::MAX,
    ensures
        segment_offsets(counts)[0] == 0,
        segment_offsets(counts)[i + 1] == segment_offsets(counts)[i] + counts[i],
        segment_offsets(counts)[counts.len() as int] == segment_sum(counts),
{
    assert(counts.take(0) =~= Seq::<u32>::empty());
    assert(counts.take(i + 1).drop_last() =~= counts.take(i));
    lemma_segment_sum_prefix(counts, i + 1);
    lemma_segment_sum_prefix(counts, i);
    assert(counts.take(counts.len() as int) =~= counts);
    lemma_segment_sum_nonneg(counts);
}

/// The segment offsets of glyphs with `counts` segments each, whose total must fit a `u32`.
pub fn get_segment_offsets(counts: &[u32]) -> (r: Vec<u32>)
    requires
        counts@.len() < usize::MAX,
        segment_sum(counts@) <= u32::MAX,
    ensures
        r@ == segment_offsets(counts@),
        r@.len() % 4 == 0,
{
    let num_offsets: usize = counts.len() + 1;
    let additional_len: usize = (4 - num_offsets % 4) % 4;
    let mut offsets: Vec<u32> = Vec::new();
    let mut offset: u32 = 0;
    offsets.push(offset);
    assert(counts@.take(0) =~= Seq::<u32>::empty());
    let mut k: usize = 0;
    while k < counts.len()
        invariant
            k <= counts@.len(),
            segment_sum(counts@) <= u32::MAX,
            offset == segment_sum(counts@.take(k as int)),
            offsets@.len() == k + 1,
            forall|i: int| 0 <= i <= k ==> #[trigger] offsets@[i] == segment_sum(counts@.take(i)),
        decreases counts@.len() - k,
    {
        proof {
            assert(counts@.take(k + 1).drop_last() =~= counts@.take(k as int));
            lemma_segment_sum_prefix(counts@, k + 1);
        }
        offset = offset + counts[k];
        offsets.push(offset);
        k += 1;
    }
    let mut j: usize = 0;
    while j < additional_len
        invariant
            j <= additional_len <= 3,
            num_offsets == counts@.len() + 1,
            offsets@.len() == num_offsets + j,
            forall|i: int| 0 <= i < num_offsets ==> #[trigger] offsets@[i] == segment_sum(counts@.take(i)),
            forall|i: int| num_offsets <= i < num_offsets + j ==> #[trigger] offsets@[i] == 0,
        decreases additional_len - j,
    {
        offsets.push(0);
        j += 1;
    }
    assert(offsets@ =~= segment_offsets(counts@));
    offsets
}

/// The ids never decrease.
pub open spec fn ascending(ids: Seq<u32>) -> bool {
    forall|a: int, b: int| 0 <= a < b < ids.len() ==> ids[a] <= ids[b]
}

/// Whether `ids`, which never decrease, hold `id`, found by halving the range.
pub fn sorted_contains(ids: &[u32], id: u32) -> (r: bool)
    requires
        ascending(ids@),
    ensures
        r == ids@.contains(id),
{
    let mut lo: usize = 0;
    let mut hi: usize = ids.len();
    while lo < hi
        invariant
            lo <= hi <= ids@.len(),
            ascending(ids@),
            forall|k: int| 0 <= k < lo ==> ids@[k] < id,
            forall|k: int| hi <= k < ids@.len() ==> ids@[k] > id,
        decreases hi - lo,
    {
        let mid: usize = lo + (hi - lo) / 2;
        if ids[mid] == id {
            return true;
        } else if ids[mid] < id {
            lo = mid + 1;
        } else {
            hi = mid;
        }
    }
    proof {
        if ids@.contains(id) {
            let k = choose|k: int| 0 <= k < ids@.len() && ids@[k] == id;
            assert(ids@[k] == id);
        }
    }
    false
}

/// Whether the glyph `glyph_id` still needs an outline: it is neither among the ids of the
/// face's outlines, which never decrease, nor among those outlined since.
pub fn is_new_glyph(outlined: &[u32], added: &[u32], glyph_id: u32) -> (r: bool)
    requires
        ascending(outlined@),
    ensures
        r == !(outlined@.contains(glyph_id) || added@.contains(glyph_id)),
{
    if sorted_contains(outlined, glyph_id) {
        return false;
    }
    let mut k: usize = 0;
    while k < added.len()
        invariant
            k <= added@.len(),
            forall|j: int| 0 <= j < k ==> added@[j] != glyph_id,
        decreases added@.len() - k,
    {
        if added[k] == glyph_id {
            return false;
        }
        k += 1;
    }
    true
}

/// `order` holds each position below `n` exactly once.
pub open spec fn is_order_of(order: Seq<usize>, n: nat) -> bool {
    &&& order.len() == n
    &&& forall|a: int| 0 <= a < n ==> #[trigger] order[a] < n
    &&& forall|a: int, b: int| 0 <= a < b < n ==> order[a] != order[b]
}

/// The ids at the positions of `order`, taken in turn, never decrease.
pub open spec fn orders_ascending(ids: Seq<u32>, order: Seq<usize>) -> bool {
    forall|a: int, b: int|
        0 <= a < b < order.len() ==> ids[order[a] as int] <= ids[order[b] as int]
}

/// The positions of `ids` in the order of their ids: the order that sorts a face's outlines
/// by glyph id.
pub fn sorted_order(ids: &[u32]) -> (r: Vec<usize>)
    ensures
        is_order_of(r@, ids@.len()),
        orders_ascending(ids@, r@),
{
    let mut order: Vec<usize> = Vec::new();
    let mut i: usize = 0;
    while i < ids.len()
        invariant
            i <= ids@.len(),
            is_order_of(order@, i as nat),
            orders_ascending(ids@, order@),
        decreases ids@.len() - i,
    {
        let id: u32 = ids[i];
        let mut p: usize = order.len();
        while p > 0 && ids[order[p - 1]] > id
            invariant
                p <= order@.len(),
                order@.len() == i,
                i < ids@.len(),
                id == ids@[i as int],
                is_order_of(order@, i as nat),
                forall|q: int| p <= q < order@.len() ==> ids@[order@[q] as int] > id,
            decreases p,
        {
            p = p - 1;
        }
        let ghost before = order@;
        proof {
            assert forall|q: int| 0 <= q < p implies ids@[before[q] as int] <= id by {
                assert(ids@[before[q] as int] <= ids@[before[p - 1] as int]);
            }
        }
        order.insert(p, i);
        proof {
            let after = order@;
            assert forall|q: int| 0 <= q < after.len() implies #[trigger] after[q] == (if q < p {
                before[q]
            } else if q == p {
                i
            } else {
                before[q - 1]
            }) by {}
            assert forall|a: int| 0 <= a < i + 1 implies #[trigger] after[a] < i + 1 by {}
            assert forall|a: int, b: int| 0 <= a < b < i + 1 implies after[a] != after[b] by {
                assert(after[a] == (if a < p { before[a] } else if a == p { i } else { before[a - 1] }));
                assert(after[b] == (if b < p { before[b] } else if b == p { i } else { before[b - 1] }));
            }
            assert forall|a: int, b: int| 0 <= a < b < after.len() implies ids@[after[a] as int]
                <= ids@[after[b] as int] by {
                assert(after[a] == (if a < p { before[a] } else if a == p { i } else { before[a - 1] }));
                assert(after[b] == (if b < p { before[b] } else if b == p { i } else { before[b - 1] }));
            }
        }
        i += 1;
    }
    order
}

} // verus!
