use vstd::prelude::*;

use vstd::arithmetic::div_mod::lemma_fundamental_div_mod_converse;
use vstd::arithmetic::div_mod::lemma_multiply_divide_lt;

use rand::RngExt;

use crate::segment::Segment;
use crate::segment::contains_segment;

verus! {

/// Relies on rand::RngExt::random_range over `0..n`: it returns a value
/// uniformly sampled from that range, which is never empty since `n > 0`.
#[verifier::external_body]
fn random_below(n: u64) -> (r: u64)
    requires
        n > 0,
    ensures
        r < n,
{
    rand::rng().random_range(0..n)
}

/// The `i`-th cell of a `width`-wide arena, row-major from the top-left.
pub open spec fn cell_at(width: u32, i: int) -> Segment
    recommends
        width > 0,
{
    Segment { x: (i % (width as int)) as i64, y: (i / (width as int)) as i64 }
}

/// A cell a new apple may land on: on neither the body nor the apple
/// being replaced.
pub open spec fn is_free(c: Segment, body: Seq<Segment>, apple: Segment) -> bool {
    !body.contains(c) && c != apple
}

/// Some arena cell is free for a new apple.
pub open spec fn has_free_cell(body: Seq<Segment>, apple: Segment, width: u32, height: u32) -> bool {
    exists|c: Segment| c.in_bounds(width, height) && is_free(c, body, apple)
}

/// How many of the first `n` cells of the arena, row-major, are free.
pub open spec fn free_in_prefix(body: Seq<Segment>, apple: Segment, width: u32, n: int) -> int
    decreases n,
{
    if n <= 0 {
        0
    } else {
        free_in_prefix(body, apple, width, n - 1) + if is_free(
            cell_at(width, n - 1),
            body,
            apple,
        ) {
            1int
        } else {
            0int
        }
    }
}

/// The free-cell count of a prefix is between 0 and the prefix length.
proof fn lemma_free_in_prefix_bounds(body: Seq<Segment>, apple: Segment, width: u32, n: int)
    requires
        n >= 0,
    ensures
        0 <= free_in_prefix(body, apple, width, n) <= n,
    decreases n,
{
    if n > 0 {
        lemma_free_in_prefix_bounds(body, apple, width, n - 1);
    }
}

/// A prefix with no free cells has no free cell at any of its indices.
proof fn lemma_no_free_in_prefix(body: Seq<Segment>, apple: Segment, width: u32, n: int)
    requires
        free_in_prefix(body, apple, width, n) == 0,
    ensures
        forall|j: int| 0 <= j < n ==> !is_free(cell_at(width, j), body, apple),
    decreases n,
{
    if n > 0 {
        lemma_free_in_prefix_bounds(body, apple, width, n - 1);
        lemma_no_free_in_prefix(body, apple, width, n - 1);
    }
}

/// A row-major index stays below the cell count of the arena.
proof fn lemma_row_major_index(x: int, y: int, w: int, h: int)
    by (nonlinear_arith)
    requires
        0 <= x < w,
        0 <= y < h,
    ensures
        0 <= y * w + x < w * h,
{
}

/// An arena whose cells are all occupied has no free cell at all.
proof fn lemma_no_free_cell(body: Seq<Segment>, apple: Segment, width: u32, height: u32)
    requires
        width > 0,
        height > 0,
        free_in_prefix(body, apple, width, (width as int) * (height as int)) == 0,
    ensures
        !has_free_cell(body, apple, width, height),
{
    let total = (width as int) * (height as int);
    lemma_no_free_in_prefix(body, apple, width, total);
    assert forall|c: Segment| c.in_bounds(width, height) implies !is_free(c, body, apple) by {
        let j = (c.y as int) * (width as int) + (c.x as int);
        lemma_row_major_index(c.x as int, c.y as int, width as int, height as int);
        lemma_fundamental_div_mod_converse(j, width as int, c.y as int, c.x as int);
        assert(cell_at(width, j) == c);
        assert(!is_free(cell_at(width, j), body, apple));
    }
}

/// The arena's cell count fits the counter.
proof fn lemma_total_fits(width: u32, height: u32)
    by (nonlinear_arith)
    ensures
        0 <= (width as int) * (height as int) <= u64::MAX,
{
}

/// The `i`-th arena cell, row-major; it always lies inside the arena.
fn cell_index(width: u32, height: u32, i: u64) -> (c: Segment)
    requires
        width > 0,
        height > 0,
        i < (width as int) * (height as int),
    ensures
        c == cell_at(width, i as int),
        c.in_bounds(width, height),
{
    let w = width as u64;
    let x = i % w;
    let y = i / w;
    proof {
        lemma_multiply_divide_lt(i as int, w as int, height as int);
    }
    Segment { x: x as i64, y: y as i64 }
}

/// Counts the arena cells a new apple may land on.
pub fn count_free_cells(body: &Vec<Segment>, apple: Segment, width: u32, height: u32) -> (n: u64)
    requires
        width > 0,
        height > 0,
    ensures
        n == free_in_prefix(body@, apple, width, (width as int) * (height as int)),
{
    proof {
        lemma_total_fits(width, height);
    }
    let total: u64 = (width as u64) * (height as u64);
    let mut i: u64 = 0;
    let mut n: u64 = 0;
    while i < total
        invariant
            width > 0,
            height > 0,
            total == (width as int) * (height as int),
            i <= total,
            n == free_in_prefix(body@, apple, width, i as int),
            n <= i,
        decreases total - i,
    {
        let c = cell_index(width, height, i);
        if !contains_segment(body, c) && c != apple {
            n = n + 1;
        }
        i = i + 1;
    }
    n
}

/// `c` is the free cell that exactly `rank` free cells precede, row-major.
pub open spec fn is_ranked_free_cell(
    c: Segment,
    body: Seq<Segment>,
    apple: Segment,
    width: u32,
    height: u32,
    rank: u64,
) -> bool {
    exists|j: int|
        0 <= j < (width as int) * (height as int) && c == cell_at(width, j) && is_free(
            c,
            body,
            apple,
        ) && free_in_prefix(body, apple, width, j) == rank
}

/// Walks the arena row-major and returns the `rank`-th free cell.
pub fn select_free_cell(
    body: &Vec<Segment>,
    apple: Segment,
    width: u32,
    height: u32,
    rank: u64,
) -> (c: Segment)
    requires
        width > 0,
        height > 0,
        rank < free_in_prefix(body@, apple, width, (width as int) * (height as int)),
    ensures
        c.in_bounds(width, height),
        is_free(c, body@, apple),
        is_ranked_free_cell(c, body@, apple, width, height, rank),
{
    proof {
        lemma_total_fits(width, height);
    }
    let total: u64 = (width as u64) * (height as u64);
    let mut i: u64 = 0;
    let mut seen: u64 = 0;
    while i < total
        invariant
            width > 0,
            height > 0,
            total == (width as int) * (height as int),
            i <= total,
            seen == free_in_prefix(body@, apple, width, i as int),
            seen <= rank,
            rank < free_in_prefix(body@, apple, width, total as int),
        decreases total - i,
    {
        let c = cell_index(width, height, i);
        if !contains_segment(body, c) && c != apple {
            if seen == rank {
                proof {
                    let j = i as int;
                    assert(0 <= j && j < (width as int) * (height as int) && c == cell_at(width, j)
                        && is_free(c, body@, apple) && free_in_prefix(body@, apple, width, j)
                        == rank);
                }
                return c;
            }
            seen = seen + 1;
        }
        i = i + 1;
    }
    proof {
        assert(false);
    }
    Segment { x: 0, y: 0 }
}

/// AppleSpawner: picks a cell for the relocated apple uniformly at random
/// among the cells that are on neither the body nor the apple being
/// replaced; `None` exactly when the arena has no such cell left.
pub fn respawn_apple(body: &Vec<Segment>, current_apple: Segment, width: u32, height: u32) -> (r:
    Option<Segment>)
    ensures
        (r is Some) <==> has_free_cell(body@, current_apple, width, height),
        r matches Some(c) ==> c.in_bounds(width, height) && is_free(c, body@, current_apple),
{
    if width == 0 || height == 0 {
        proof {
            assert(forall|c: Segment| !c.in_bounds(width, height));
        }
        return None;
    }
    let free = count_free_cells(body, current_apple, width, height);
    if free == 0 {
        proof {
            lemma_no_free_cell(body@, current_apple, width, height);
        }
        None
    } else {
        let k = random_below(free);
        let c = select_free_cell(body, current_apple, width, height, k);
        proof {
            assert(has_free_cell(body@, current_apple, width, height)) by {
                assert(c.in_bounds(width, height) && is_free(c, body@, current_apple));
            }
        }
        Some(c)
    }
}

} // verus!
