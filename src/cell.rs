//! Cell identifiers and the resolution-aware handling of cell sets.
//!
//! A cell identifier is a 64-bit value; bits 52..56 hold its resolution.
//! The all-zero identifier is the sentinel that means "no cell".

use vstd::prelude::*;

verus! {

/// A grid cell identifier.
pub type H3Index = u64;

/// The coarsest resolution of the grid.
pub const H3_MIN_RESOLUTION: u8 = 0;

/// The finest resolution of the grid.
pub const H3_MAX_RESOLUTION: u8 = 15;

/// The identifier that stands for "no cell" in fixed-capacity buffers.
pub const SENTINEL: u64 = 0;

/// Number of distinct resolutions.
pub const NUM_RESOLUTIONS: usize = 16;

/// Why a grid operation refused its input.
#[derive(Clone, Copy, Debug, PartialEq, Eq, Structural)]
pub enum GridError {
    /// A resolution outside `H3_MIN_RESOLUTION..=H3_MAX_RESOLUTION`.
    InvalidResolution(u8),
}

/// Accepts a resolution of the grid and refuses any other.
pub fn validate_resolution(res: u8) -> (r: Result<u8, GridError>)
    ensures
        res <= H3_MAX_RESOLUTION ==> r == Ok::<u8, GridError>(res),
        res > H3_MAX_RESOLUTION ==> r == Err::<u8, GridError>(GridError::InvalidResolution(res)),
{
    if res <= H3_MAX_RESOLUTION {
        Ok(res)
    } else {
        Err(GridError::InvalidResolution(res))
    }
}

/// The resolution encoded in a cell identifier (bits 52..56).
pub open spec fn cell_resolution(h: u64) -> u64 {
    (h >> 52u64) & 15u64
}

/// The cells of `cells` that are not the sentinel, in their order.
pub open spec fn non_sentinel(cells: Seq<u64>) -> Seq<u64> {
    cells.filter(|h: u64| h != SENTINEL)
}

/// The cells of `cells` whose resolution is `res`, in their order.
pub open spec fn resolution_group(cells: Seq<u64>, res: u64) -> Seq<u64> {
    cells.filter(|h: u64| cell_resolution(h) == res)
}

/// Every cell of `cells` has resolution `res`.
pub open spec fn single_resolution(cells: Seq<u64>, res: u64) -> bool {
    forall|i: int| 0 <= i < cells.len() ==> cell_resolution(#[trigger] cells[i]) == res
}

/// Reads the resolution of a cell identifier.
pub fn resolution(h: u64) -> (r: u8)
    ensures
        r as u64 == cell_resolution(h),
        r <= H3_MAX_RESOLUTION,
{
    let r: u64 = (h >> 52u64) & 15u64;
    assert(((h >> 52u64) & 15u64) <= 15u64) by (bit_vector);
    r as u8
}

/// Drops every sentinel slot from a buffer filled by a fixed-capacity
/// producer, keeping the order of the real cells.
pub fn remove_sentinels(cells: &[u64]) -> (r: Vec<u64>)
    ensures
        r@ == non_sentinel(cells@),
        r@.len() <= cells@.len(),
{
    let mut out: Vec<u64> = Vec::new();
    let mut i: usize = 0;
    while i < cells.len()
        invariant
            i <= cells@.len(),
            out@ == non_sentinel(cells@.subrange(0, i as int)),
            out@.len() <= i,
        decreases cells@.len() - i,
    {
        let h = cells[i];
        proof {
            assert(cells@.subrange(0, i as int + 1).drop_last() =~= cells@.subrange(0, i as int));
            reveal(Seq::filter);
        }
        if h != SENTINEL {
            out.push(h);
        }
        i = i + 1;
    }
    assert(cells@.subrange(0, cells@.len() as int) =~= cells@);
    out
}

/// The cells of `cells` at resolution `res`, in their order.
pub fn cells_at_resolution(cells: &[u64], res: u8) -> (r: Vec<u64>)
    ensures
        r@ == resolution_group(cells@, res as u64),
{
    let mut out: Vec<u64> = Vec::new();
    let mut i: usize = 0;
    while i < cells.len()
        invariant
            i <= cells@.len(),
            out@ == resolution_group(cells@.subrange(0, i as int), res as u64),
        decreases cells@.len() - i,
    {
        let h = cells[i];
        proof {
            assert(cells@.subrange(0, i as int + 1).drop_last() =~= cells@.subrange(0, i as int));
            reveal(Seq::filter);
        }
        if resolution(h) == res {
            out.push(h);
        }
        i = i + 1;
    }
    assert(cells@.subrange(0, cells@.len() as int) =~= cells@);
    out
}

/// Buckets a cell set by resolution: entry `r` holds the cells at
/// resolution `r`, in their order in `cells`.
pub fn group_by_resolution(cells: &[u64]) -> (r: Vec<Vec<u64>>)
    ensures
        r@.len() == NUM_RESOLUTIONS,
        forall|res: int| 0 <= res < NUM_RESOLUTIONS ==> (#[trigger] r@[res])@ == resolution_group(cells@, res as u64),
{
    let mut groups: Vec<Vec<u64>> = Vec::new();
    let mut res: usize = 0;
    while res < NUM_RESOLUTIONS
        invariant
            res <= NUM_RESOLUTIONS,
            groups@.len() == res,
            forall|j: int| 0 <= j < res ==> (#[trigger] groups@[j])@ == resolution_group(cells@, j as u64),
        decreases NUM_RESOLUTIONS - res,
    {
        let g = cells_at_resolution(cells, res as u8);
        groups.push(g);
        res = res + 1;
    }
    groups
}

/// A set whose cells all have one resolution falls into a single group:
/// bucketing it by resolution yields the set itself at that resolution and
/// nothing at any other.
pub proof fn lemma_single_resolution_grouping(cells: Seq<u64>, res: u64, other: u64)
    requires
        single_resolution(cells, res),
        other != res,
    ensures
        resolution_group(cells, res) == cells,
        resolution_group(cells, other).len() == 0,
    decreases cells.len(),
{
    reveal(Seq::filter);
    if cells.len() > 0 {
        let init = cells.drop_last();
        assert forall|i: int| 0 <= i < init.len() implies cell_resolution(#[trigger] init[i]) == res by {
            assert(init[i] == cells[i]);
        }
        lemma_single_resolution_grouping(init, res, other);
        assert(cell_resolution(cells.last()) == res);
        assert(init.push(cells.last()) =~= cells);
    }
}

} // verus!
