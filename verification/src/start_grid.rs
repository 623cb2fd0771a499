//! Where each vehicle of a roster stands along the start line.

use vstd::prelude::*;

verus! {

/// The place of vehicle `index` along the start line, in halves of the
/// spacing between two neighbours, measured from the middle of the line.
pub open spec fn spec_grid_offset_halves(index: int, count: int) -> int {
    2 * index - (count - 1)
}

/// The place of vehicle `index` of `count` along the start line, in halves of
/// the spacing between two neighbours, measured from the middle of the line.
pub fn grid_offset_halves(index: usize, count: usize) -> (halves: i128)
    ensures
        halves == spec_grid_offset_halves(index as int, count as int),
{
    let twice: i128 = 2 * (index as i128);
    let span: i128 = (count as i128) - 1;
    twice - span
}

/// Neighbours on the grid stand one spacing apart, in the order of their
/// indices.
pub proof fn lemma_neighbours_are_one_spacing_apart(index: int, count: int)
    ensures
        spec_grid_offset_halves(index + 1, count) == spec_grid_offset_halves(index, count) + 2,
{
}

/// The grid is centred on the start line: the vehicle that stands as far
/// from the last place as `index` is from the first stands opposite to it.
pub proof fn lemma_grid_is_centred(index: int, count: int)
    ensures
        spec_grid_offset_halves(index, count) + spec_grid_offset_halves(count - 1 - index, count)
            == 0,
{
}

/// Every vehicle of the roster stands within half the length of the line
/// from its middle.
pub proof fn lemma_grid_stays_on_the_line(index: int, count: int)
    requires
        0 <= index < count,
    ensures
        -(count - 1) <= spec_grid_offset_halves(index, count) <= count - 1,
{
}

} // verus!
