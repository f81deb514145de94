//! Arrangement of several plots on one figure.
use vstd::prelude::*;

verus! {

/// Rows and columns of a figure that holds `count` plots: one row up to
/// three plots, two rows up to six, three rows and columns beyond.
pub open spec fn layout_of(count: nat) -> (nat, nat) {
    if count <= 1 {
        (1, 1)
    } else if count == 2 {
        (1, 2)
    } else if count == 3 {
        (1, 3)
    } else if count == 4 {
        (2, 2)
    } else if count <= 6 {
        (2, 3)
    } else {
        (3, 3)
    }
}

/// The grid of subplots for `index` plots.
pub fn graph_layout_from_index(index: usize) -> (r: (usize, usize))
    ensures
        (r.0 as nat, r.1 as nat) == layout_of(index as nat),
        index <= 9 ==> index <= r.0 * r.1,
{
    match index {
        0 | 1 => (1, 1),
        2 => (1, 2),
        3 => (1, 3),
        4 => (2, 2),
        5 | 6 => (2, 3),
        _ => (3, 3),
    }
}

} // verus!
